use ramsleuth_gui::calendar::{civil_from_days, wall_clock_string};
use ramsleuth_gui::error::{GuiError, IoFailure};
use ramsleuth_gui::export::now_epoch_secs;
use ramsleuth_gui::model::{NaReason, Section};
use ramsleuth_gui::png_io::{snapshot_cpu_line, snapshot_ram_line};
use ramsleuth_gui::shell::channel_name;
use ramsleuth_gui::style::{RgbChannels, AMBER, CRIMSON, CYAN, NA_GRAY, SLATE};

#[test]
fn palette_consts_are_exact_rgb() {
    assert_eq!((CYAN.r(), CYAN.g(), CYAN.b()), (0x00, 0xD4, 0xFF));
    assert_eq!((AMBER.r(), AMBER.g(), AMBER.b()), (0xFF, 0xB3, 0x00));
    assert_eq!((SLATE.r(), SLATE.g(), SLATE.b()), (0x1E, 0x1E, 0x24));
    assert_eq!((CRIMSON.r(), CRIMSON.g(), CRIMSON.b()), (0xFF, 0x3B, 0x30));
}

#[test]
fn na_gray_is_muted_and_distinct_from_crimson() {
    assert_eq!((NA_GRAY.r(), NA_GRAY.g(), NA_GRAY.b()), (0x8A, 0x8A, 0x94));
    assert_ne!(NA_GRAY, CRIMSON);
}

#[test]
fn gui_error_traits() {
    let a = GuiError::Io(IoFailure::new("NotFound", "gone"));
    let b = a.clone();
    assert_eq!(a, b, "clone must preserve kind + message");
    assert_eq!(a, GuiError::Io(IoFailure::new("NotFound", "gone")));
    assert_ne!(a, GuiError::Io(IoFailure::new("PermissionDenied", "gone")));
    assert_ne!(a, GuiError::Png("x".to_owned()));
    assert_eq!(a.to_string(), "export I/O error: gone");
    assert_eq!(GuiError::Png("bad idat".into()).to_string(), "PNG encode error: bad idat");
    assert_eq!(GuiError::Json("bad json".into()).to_string(), "JSON serialize error: bad json");
    assert!(a.source().is_some(), "the Io arm must expose its source");
    assert!(GuiError::Png("x".into()).source().is_none());
}

#[test]
fn gui_error_equality_per_variant() {
    assert_eq!(GuiError::Png("x".into()), GuiError::Png("x".into()));
    assert_ne!(GuiError::Png("x".into()), GuiError::Json("x".into()));
    assert_ne!(GuiError::Json("x".into()), GuiError::Json("y".into()));
    assert_ne!(
        GuiError::Io(IoFailure::new("NotFound", "gone")),
        GuiError::Io(IoFailure::new("NotFound", "lost"))
    );
}

#[test]
fn channel_name_maps_dimm_counts() {
    assert_eq!(channel_name(1), "Single-Channel");
    assert_eq!(channel_name(2), "Dual-Channel");
    assert_eq!(channel_name(4), "Quad-Channel");
    assert_eq!(channel_name(0), "N/A");
    assert_eq!(channel_name(3), "N/A");
}

#[test]
fn wall_clock_string_formats_utc() {
    assert_eq!(wall_clock_string(0), "1970-01-01 00:00:00");
    assert_eq!(wall_clock_string(-1), "1969-12-31 23:59:59");
    assert_eq!(wall_clock_string(946_684_800), "2000-01-01 00:00:00");
    assert_eq!(wall_clock_string(1_789_439_400), "2026-09-15 02:30:00");
}

#[test]
fn wall_clock_string_edges() {
    // Leap days, the century rules, and far-away years.
    assert_eq!(wall_clock_string(951_782_400), "2000-02-29 00:00:00");
    assert_eq!(wall_clock_string(4_107_542_400), "2100-03-01 00:00:00");
    assert_eq!(wall_clock_string(4_107_542_399), "2100-02-28 23:59:59");
    assert_eq!(wall_clock_string(-62_135_596_800), "0001-01-01 00:00:00");
    assert_eq!(wall_clock_string(-62_167_219_200), "0000-01-01 00:00:00");
    assert_eq!(wall_clock_string(-62_198_755_200), "-001-01-01 00:00:00");
    assert_eq!(wall_clock_string(253_402_300_799), "9999-12-31 23:59:59");
    assert_eq!(wall_clock_string(253_402_300_800), "10000-01-01 00:00:00");
    // The extremes of the second count never panic.
    let _ = wall_clock_string(i64::MAX);
    let _ = wall_clock_string(i64::MIN);
}

#[test]
fn civil_from_days_known_dates() {
    assert_eq!(civil_from_days(0), (1970, 1, 1));
    assert_eq!(civil_from_days(-1), (1969, 12, 31));
    assert_eq!(civil_from_days(11_016), (2000, 2, 29));
    assert_eq!(civil_from_days(11_017), (2000, 3, 1));
    assert_eq!(civil_from_days(-719_468), (0, 3, 1));
}

#[test]
fn now_epoch_secs_is_plausible() {
    let secs = now_epoch_secs();
    assert!(secs > 1_577_836_800, "expected a post-2020 count, got: {secs}");
    assert!(secs < 4_102_444_800, "expected a pre-2100 count, got: {secs}");
}

#[test]
fn snapshot_lines_populated() {
    let clock = Section::Value("3.60 GHz".to_owned());
    let total = Section::Value("32.0 GB".to_owned());
    assert_eq!(snapshot_cpu_line("Ryzen 9 5950X", &clock), "CPU: Ryzen 9 5950X @ 3.60 GHz");
    assert_eq!(snapshot_ram_line(&total, 2), "RAM: 32.0 GB | Dual-Channel");
}

#[test]
fn snapshot_lines_degrade_to_na() {
    let absent: Section<String> = Section::na(NaReason::NotApplicable);
    assert_eq!(snapshot_cpu_line("Ryzen 9 5950X", &absent), "CPU: Ryzen 9 5950X @ N/A");
    assert_eq!(snapshot_ram_line(&absent, 0), "RAM: N/A | N/A");
}

#[test]
fn civil_from_days_reaches_the_ends_of_the_range() {
    assert_eq!(civil_from_days(i64::MIN), (-25_252_734_927_764_585, 6, 7));
    assert_eq!(civil_from_days(i64::MAX - 719_468), (25_252_734_927_766_554, 9, 25));
}
