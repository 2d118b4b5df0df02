use ramsleuth_gui::model::{NaReason, Section};
use ramsleuth_gui::status::{
    card_header, card_value_color, key_action, LegendKey, daemon_status_color, daemon_status_line, density_gib, dram_die_line, na_text,
    notice_color, product_line, rank_label, spd_cards, GuiAction, SpdModule, SpdProfile,
};
use ramsleuth_gui::style::{AMBER, CRIMSON, CYAN, NA_GRAY};

fn fixture_module() -> SpdModule {
    SpdModule {
        index: 0x52,
        is_ddr5: false,
        maker: Section::Value("Samsung".to_owned()),
        die_maker: Section::Value("SK hynix".to_owned()),
        die_type: Section::na(NaReason::NotApplicable),
        part: Section::Value("M391A2K40DB".to_owned()),
        rank: Section::Value(2),
        density_mbit: Section::Value(16_384),
        speed_mts: Section::Value(3_200),
        profiles: vec![SpdProfile {
            index: 1,
            speed_mts: Section::Value(3_600),
            cas: Section::Value(18),
            trcd: Section::Value(18),
            trp: Section::Value(18),
            tras: Section::Value(36),
            voltage: Section::Value(1_350),
        }],
    }
}

fn all_na_module() -> SpdModule {
    SpdModule {
        index: 0x53,
        is_ddr5: true,
        maker: Section::na(NaReason::DriverMissing),
        die_maker: Section::na(NaReason::NotApplicable),
        die_type: Section::na(NaReason::NotApplicable),
        part: Section::na(NaReason::ParseError("part number: byte 0x149 outside image bounds".to_owned())),
        rank: Section::na(NaReason::InsufficientPrivilege),
        density_mbit: Section::na(NaReason::UnknownPmTableVersion),
        speed_mts: Section::na(NaReason::ParseError(
            "base speed byte 0x20 is 0 (no minimum data rate recorded)".to_owned(),
        )),
        profiles: vec![SpdProfile {
            index: 0,
            speed_mts: Section::na(NaReason::NotApplicable),
            cas: Section::na(NaReason::NotApplicable),
            trcd: Section::na(NaReason::NotApplicable),
            trp: Section::na(NaReason::NotApplicable),
            tras: Section::na(NaReason::NotApplicable),
            voltage: Section::na(NaReason::NotApplicable),
        }],
    }
}

fn pair(a: &str, b: &str) -> (String, String) {
    (a.to_owned(), b.to_owned())
}

#[test]
fn spd_cards_renders_a_card_per_module_with_values() {
    let cards = spd_cards(&[fixture_module(), all_na_module()]);
    assert_eq!(cards.len(), 2, "one card per SPD slot");
    let card = &cards[0];
    assert_eq!(card[0], pair("product", "Samsung (M391A2K40DB)"));
    assert_eq!(card[1], pair("dram die", "SK hynix (16Gb)"));
    assert_eq!(card[2], pair("rank label", "Dual-Rank"));
    assert_eq!(card[3], pair("maker", "Samsung"));
    assert_eq!(card[4], pair("part", "M391A2K40DB"));
    assert_eq!(card[5], pair("rank", "2"));
    assert_eq!(card[6], pair("density", "16384 Mbit"));
    assert_eq!(card[7], pair("speed", "3200 MT/s"));
    assert_eq!(card[8].0, "XMP 1");
    assert_eq!(card[8].1, "3600 MT/s 18-18-18-36 @ 1.350 V");
    assert_eq!(card.len(), 9);
}

#[test]
fn spd_cards_handles_no_spd_and_all_na_without_panic() {
    assert!(spd_cards(&[]).is_empty(), "no SPD modules -> no cards");
    let cards = spd_cards(&[all_na_module()]);
    assert_eq!(cards.len(), 1, "one card per module");
    assert!(cards[0].iter().all(|(_, display)| display.contains("N/A")));
    assert_eq!(cards[0][0], pair("product", "N/A"));
    assert_eq!(cards[0][1], pair("dram die", "N/A"));
    assert_eq!(cards[0][2], pair("rank label", "N/A"));
    assert_eq!(cards[0][3], pair("maker", "N/A"));
    assert_eq!(cards[0][4].1, "N/A");
    assert_eq!(cards[0][8].0, "EXPO 0");
    assert_eq!(cards[0][8].1, "N/A N/A-N/A-N/A-N/A @ N/A");
}

#[test]
fn a_module_without_profiles_says_none() {
    let module = SpdModule { profiles: Vec::new(), ..fixture_module() };
    let cards = spd_cards(&[module]);
    assert_eq!(cards[0].len(), 9);
    assert_eq!(cards[0][8], pair("profiles", "none"));
}

#[test]
fn card_row_formatters_no_panic_on_na() {
    assert_eq!(rank_label(&Section::Value(1)), "Single-Rank");
    assert_eq!(rank_label(&Section::Value(2)), "Dual-Rank");
    assert_eq!(rank_label(&Section::Value(4)), "4-Rank");
    assert_eq!(rank_label(&Section::Value(0)), "N/A");
    assert_eq!(rank_label(&Section::na(NaReason::DriverMissing)), "N/A");
    assert_eq!(
        product_line(
            &Section::Value("G.Skill Trident Z5 RGB".to_owned()),
            &Section::Value("F5-6000J3038F16GX2".to_owned())
        ),
        "G.Skill Trident Z5 RGB (F5-6000J3038F16GX2)"
    );
    assert_eq!(product_line(&Section::Value("Samsung".to_owned()), &Section::na(NaReason::NotApplicable)), "Samsung");
    assert_eq!(product_line(&Section::na(NaReason::NotApplicable), &Section::Value("M391A2K40DB".to_owned())), "M391A2K40DB");
    assert_eq!(product_line(&Section::na(NaReason::DriverMissing), &Section::na(NaReason::NotApplicable)), "N/A");
    let full = SpdModule { die_type: Section::Value("A-Die".to_owned()), ..fixture_module() };
    assert_eq!(dram_die_line(&full), "SK hynix (A-Die, 16Gb)");
    assert_eq!(dram_die_line(&fixture_module()), "SK hynix (16Gb)");
    assert_eq!(
        dram_die_line(&SpdModule {
            die_type: Section::Value("A-Die".to_owned()),
            density_mbit: Section::na(NaReason::NotApplicable),
            ..fixture_module()
        }),
        "SK hynix (A-Die)"
    );
    assert_eq!(
        dram_die_line(&SpdModule { density_mbit: Section::na(NaReason::NotApplicable), ..fixture_module() }),
        "SK hynix"
    );
    assert_eq!(
        dram_die_line(&SpdModule { die_maker: Section::na(NaReason::DriverMissing), ..fixture_module() }),
        "N/A"
    );
    assert_eq!(density_gib(16_384), "16Gb");
    assert_eq!(density_gib(8_192), "8Gb");
    assert_eq!(density_gib(2_000), "2000 Mbit");
    assert_eq!(na_text(&NaReason::ParseError("x".to_owned())), "N/A");
}

#[test]
fn daemon_status_line_shapes() {
    assert_eq!(daemon_status_line("", None), "daemon: not connected · never");
    let line = daemon_status_line("connected: /tmp/ramsleuth.sock", Some("0.4"));
    assert!(
        line.starts_with("daemon: connected: /tmp/ramsleuth.sock · "),
        "the status must be printed verbatim: {line}"
    );
    assert!(line.ends_with("s ago"), "a landed stamp must end in 's ago': {line}");
    assert_eq!(line, "daemon: connected: /tmp/ramsleuth.sock · 0.4s ago");
    assert_eq!(daemon_status_line("disconnected", None), "daemon: disconnected · never");
}

#[test]
fn daemon_status_color_semantics() {
    assert_eq!(daemon_status_color("connected: /tmp/ramsleuth.sock", false), CYAN);
    assert_eq!(daemon_status_color("disconnected", false), CRIMSON);
    assert_eq!(daemon_status_color("", false), CRIMSON);
    assert_eq!(daemon_status_color("connected: /tmp/ramsleuth.sock", true), CRIMSON);
}

#[test]
fn card_value_color_semantics() {
    assert_eq!(card_value_color("Samsung"), CYAN);
    assert_eq!(card_value_color("3200 MT/s"), CYAN);
    assert_eq!(card_value_color("16384 Mbit"), CYAN);
    assert_eq!(card_value_color("none"), CYAN);
    assert_eq!(card_value_color("N/A"), NA_GRAY);
    assert_eq!(card_value_color("N/A N/A-N/A-N/A-N/A @ N/A"), NA_GRAY);
}

#[test]
fn notice_color_semantics() {
    assert_eq!(notice_color("wrote /home/u/ramsleuth-export-1.json"), CYAN);
    assert_eq!(notice_color("! export I/O error: gone"), CRIMSON);
    assert_eq!(notice_color("nothing to export yet"), AMBER);
}

#[test]
fn gui_actions_are_distinct() {
    assert_ne!(GuiAction::NoAction, GuiAction::Quit);
    assert_eq!(GuiAction::SnapshotPng, GuiAction::SnapshotPng);
}

#[test]
fn card_header_names_the_slot_in_hex_and_the_generation() {
    assert_eq!(card_header(0x52, false), "slot 0x52 (DDR4)");
    assert_eq!(card_header(0x0A, true), "slot 0x0A (DDR5)");
    assert_eq!(card_header(0xFF, true), "slot 0xFF (DDR5)");
}

#[test]
fn spd_cards_is_deterministic() {
    for spd in [vec![fixture_module(), all_na_module()], Vec::new(), vec![all_na_module()]] {
        assert_eq!(spd_cards(&spd), spd_cards(&spd));
    }
}

#[test]
fn key_action_maps_only_the_legend_keys() {
    assert_eq!(key_action(LegendKey::F2), Some(GuiAction::SnapshotPng));
    assert_eq!(key_action(LegendKey::F3), Some(GuiAction::ExportJson));
    assert_eq!(key_action(LegendKey::Q), Some(GuiAction::Quit));
    assert_eq!(key_action(LegendKey::Other), None);
}
