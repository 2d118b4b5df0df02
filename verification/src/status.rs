//! The hardware/SPD zone's text: one card of `(label, display)` rows per
//! SPD module, the daemon status line and its color, and the action the
//! zone reports back to the app shell.
use vstd::prelude::*;

use crate::model::{NaReason, Section};
use crate::style::{CRIMSON, CYAN, NA_GRAY};
use crate::text::{
    chars_of, contains, dec, dec_padded, digit, digit_char, has_infix, has_prefix, owned, push_char,
    push_dec, push_dec_padded, push_str, starts_with,
};

verus! {

/// One user action triggered in the status zone.
#[derive(Debug, Clone, Copy, PartialEq, Eq, Structural)]
pub enum GuiAction {
    /// No action this frame.
    NoAction,
    /// `F2 · Snapshot PNG`.
    SnapshotPng,
    /// `F3 · Export JSON`.
    ExportJson,
    /// `Q · Quit`.
    Quit,
}

/// A key press as the key legend reads it: the three legend keys, or
/// any other key.
#[derive(Debug, Clone, Copy, PartialEq, Eq, Structural)]
pub enum LegendKey {
    F2,
    F3,
    Q,
    Other,
}

/// The action a key press asks for: F2 snapshots, F3 exports, Q quits;
/// any other key asks for nothing.
pub open spec fn key_view(key: LegendKey) -> Option<GuiAction> {
    match key {
        LegendKey::F2 => Some(GuiAction::SnapshotPng),
        LegendKey::F3 => Some(GuiAction::ExportJson),
        LegendKey::Q => Some(GuiAction::Quit),
        LegendKey::Other => None,
    }
}

/// The legend's key map (see [`key_view`]).
pub fn key_action(key: LegendKey) -> (a: Option<GuiAction>)
    ensures
        a == key_view(key),
{
    match key {
        LegendKey::F2 => Some(GuiAction::SnapshotPng),
        LegendKey::F3 => Some(GuiAction::ExportJson),
        LegendKey::Q => Some(GuiAction::Quit),
        LegendKey::Other => None,
    }
}

/// One XMP (DDR4) or EXPO (DDR5) profile of an SPD module.
#[derive(Debug, Clone, PartialEq, Eq)]
pub struct SpdProfile {
    /// The profile slot.
    pub index: u8,
    /// The data rate, in MT/s.
    pub speed_mts: Section<u16>,
    /// The CAS latency, in ticks.
    pub cas: Section<u8>,
    /// tRCD, in ticks.
    pub trcd: Section<u8>,
    /// tRP, in ticks.
    pub trp: Section<u8>,
    /// tRAS, in ticks.
    pub tras: Section<u8>,
    /// The DRAM voltage, in millivolts.
    pub voltage: Section<u16>,
}

/// The decoded SPD EEPROM of one DIMM slot.
#[derive(Debug, Clone, PartialEq, Eq)]
pub struct SpdModule {
    /// The EEPROM's I2C address.
    pub index: u8,
    /// A DDR5 module (else DDR4).
    pub is_ddr5: bool,
    /// The module maker.
    pub maker: Section<String>,
    /// The DRAM die maker.
    pub die_maker: Section<String>,
    /// The DRAM die revision.
    pub die_type: Section<String>,
    /// The part number.
    pub part: Section<String>,
    /// The rank count.
    pub rank: Section<u8>,
    /// The die density, in Mbit.
    pub density_mbit: Section<u16>,
    /// The base data rate, in MT/s.
    pub speed_mts: Section<u16>,
    /// The XMP / EXPO profiles.
    pub profiles: Vec<SpdProfile>,
}

/// The text of an absent cell: a bare `N/A` (the reason stays on the wire).
pub fn na_text(reason: &NaReason) -> (t: String)
    ensures
        t@ == "N/A"@,
{
    owned("N/A")
}

/// The upper-case hex digit of a nibble (`n < 16`).
pub open spec fn hex_char(n: nat) -> char {
    if n < 10 {
        digit_char(n)
    } else if n == 10 {
        'A'
    } else if n == 11 {
        'B'
    } else if n == 12 {
        'C'
    } else if n == 13 {
        'D'
    } else if n == 14 {
        'E'
    } else {
        'F'
    }
}

/// The hex digit of a nibble as an executable value.
fn nibble_char(n: u8) -> (c: char)
    requires
        n < 16,
    ensures
        c == hex_char(n as nat),
{
    if n < 10 {
        digit(n as u64)
    } else if n == 10 {
        'A'
    } else if n == 11 {
        'B'
    } else if n == 12 {
        'C'
    } else if n == 13 {
        'D'
    } else if n == 14 {
        'E'
    } else {
        'F'
    }
}

/// An SPD card's header: `slot 0x<NN> (DDR4)` or `(DDR5)`, the I2C
/// address as two upper-case hex digits.
pub open spec fn card_header_view(index: u8, is_ddr5: bool) -> Seq<char> {
    "slot 0x"@ + seq![hex_char((index / 16) as nat), hex_char((index % 16) as nat)] + " ("@ + (if is_ddr5 {
        "DDR5"@
    } else {
        "DDR4"@
    }) + ")"@
}

/// The header of a module's SPD card.
pub fn card_header(index: u8, is_ddr5: bool) -> (t: String)
    ensures
        t@ == card_header_view(index, is_ddr5),
{
    let mut t = owned("slot 0x");
    push_char(&mut t, nibble_char(index / 16));
    push_char(&mut t, nibble_char(index % 16));
    push_str(&mut t, " (");
    push_str(&mut t, if is_ddr5 { "DDR5" } else { "DDR4" });
    push_str(&mut t, ")");
    assert(t@ =~= card_header_view(index, is_ddr5));
    t
}

/// A text cell's display: its text, or `N/A`.
pub open spec fn text_cell(s: Section<String>) -> Seq<char> {
    match s {
        Section::Value(v) => v@,
        Section::Na(_) => "N/A"@,
    }
}

/// A numeric cell's display: its decimal value followed by `unit`, or `N/A`.
pub open spec fn num_cell(s: Section<u16>, unit: Seq<char>) -> Seq<char> {
    match s {
        Section::Value(v) => dec(v as nat) + unit,
        Section::Na(_) => "N/A"@,
    }
}

/// A tick cell's display: its decimal value, or `N/A`.
pub open spec fn tick_cell(s: Section<u8>) -> Seq<char> {
    match s {
        Section::Value(v) => dec(v as nat),
        Section::Na(_) => "N/A"@,
    }
}

/// Millivolts as volts with three decimals and the ` V` unit.
pub open spec fn volts3(mv: nat) -> Seq<char> {
    dec(mv / 1000) + "."@ + dec_padded(mv % 1000, 3) + " V"@
}

/// A voltage cell's display: volts with three decimals, or `N/A`.
pub open spec fn volt_cell(s: Section<u16>) -> Seq<char> {
    match s {
        Section::Value(v) => volts3(v as nat),
        Section::Na(_) => "N/A"@,
    }
}

/// The product line: `<maker> (<part>)`; one absent partner shows the
/// other bare; both absent is `N/A`.
pub open spec fn product_view(maker: Section<String>, part: Section<String>) -> Seq<char> {
    match (maker, part) {
        (Section::Value(m), Section::Value(p)) => m@ + " ("@ + p@ + ")"@,
        (Section::Value(m), Section::Na(_)) => m@,
        (Section::Na(_), Section::Value(p)) => p@,
        (Section::Na(_), Section::Na(_)) => "N/A"@,
    }
}

/// A die density in Gb when it is a whole number of Gbit, else in Mbit.
pub open spec fn density_view(mbit: nat) -> Seq<char> {
    if mbit % 1024 == 0 { dec(mbit / 1024) + "Gb"@ } else { dec(mbit) + " Mbit"@ }
}

/// The DRAM-die line: `<die maker> (<die type>, <density>)`, each absent
/// part dropped (no parentheses when both are absent); an absent die
/// maker is `N/A`.
pub open spec fn die_view(m: SpdModule) -> Seq<char> {
    match m.die_maker {
        Section::Na(_) => "N/A"@,
        Section::Value(dm) => match (m.die_type, m.density_mbit) {
            (Section::Value(t), Section::Value(d)) => dm@ + " ("@ + t@ + ", "@ + density_view(d as nat) + ")"@,
            (Section::Value(t), Section::Na(_)) => dm@ + " ("@ + t@ + ")"@,
            (Section::Na(_), Section::Value(d)) => dm@ + " ("@ + density_view(d as nat) + ")"@,
            (Section::Na(_), Section::Na(_)) => dm@,
        },
    }
}

/// The human rank label: 1 is single-rank, 2 dual-rank, `n` is
/// `<n>-Rank`; an absent or zero rank is `N/A`.
pub open spec fn rank_view(rank: Section<u8>) -> Seq<char> {
    match rank {
        Section::Na(_) => "N/A"@,
        Section::Value(v) => if v == 0 {
            "N/A"@
        } else if v == 1 {
            "Single-Rank"@
        } else if v == 2 {
            "Dual-Rank"@
        } else {
            dec(v as nat) + "-Rank"@
        },
    }
}

/// One profile row: `XMP <n>` (DDR4) or `EXPO <n>` (DDR5), and
/// `<speed> <cl>-<trcd>-<trp>-<tras> @ <volts>`, each absent field `N/A`.
pub open spec fn profile_view(is_ddr5: bool, p: SpdProfile) -> (Seq<char>, Seq<char>) {
    (
        (if is_ddr5 { "EXPO"@ } else { "XMP"@ }) + " "@ + dec(p.index as nat),
        num_cell(p.speed_mts, " MT/s"@) + " "@ + tick_cell(p.cas) + "-"@ + tick_cell(p.trcd) + "-"@
            + tick_cell(p.trp) + "-"@ + tick_cell(p.tras) + " @ "@ + volt_cell(p.voltage),
    )
}

/// The profile rows of a module (`profiles: none` when it has none).
pub open spec fn profile_rows(m: SpdModule) -> Seq<(Seq<char>, Seq<char>)> {
    if m.profiles@.len() == 0 {
        seq![("profiles"@, "none"@)]
    } else {
        m.profiles@.map_values(|p: SpdProfile| profile_view(m.is_ddr5, p))
    }
}

/// One module's card: product, die, rank label, the raw maker / part /
/// rank / density / speed cells, then the profile rows.
pub open spec fn card_view(m: SpdModule) -> Seq<(Seq<char>, Seq<char>)> {
    seq![
        ("product"@, product_view(m.maker, m.part)),
        ("dram die"@, die_view(m)),
        ("rank label"@, rank_view(m.rank)),
        ("maker"@, text_cell(m.maker)),
        ("part"@, text_cell(m.part)),
        ("rank"@, tick_cell(m.rank)),
        ("density"@, num_cell(m.density_mbit, " Mbit"@)),
        ("speed"@, num_cell(m.speed_mts, " MT/s"@)),
    ] + profile_rows(m)
}

/// The view of a row of strings.
pub open spec fn row_view(r: (String, String)) -> (Seq<char>, Seq<char>) {
    (r.0@, r.1@)
}

/// The view of a card.
pub open spec fn rows_view(rows: Seq<(String, String)>) -> Seq<(Seq<char>, Seq<char>)> {
    rows.map_values(|r: (String, String)| row_view(r))
}

/// Appends a text cell's display.
pub(crate) fn push_text_cell(s: &mut String, cell: &Section<String>)
    ensures
        final(s)@ == old(s)@ + text_cell(*cell),
{
    match cell {
        Section::Value(v) => push_str(s, v.as_str()),
        Section::Na(_) => push_str(s, "N/A"),
    }
}

/// Appends a numeric cell's display with its unit.
fn push_num_cell(s: &mut String, cell: &Section<u16>, unit: &str)
    ensures
        final(s)@ == old(s)@ + num_cell(*cell, unit@),
{
    match cell {
        Section::Value(v) => {
            push_dec(s, *v as u64);
            push_str(s, unit);
            assert(s@ =~= old(s)@ + num_cell(*cell, unit@));
        },
        Section::Na(_) => push_str(s, "N/A"),
    }
}

/// Appends a tick cell's display.
fn push_tick_cell(s: &mut String, cell: &Section<u8>)
    ensures
        final(s)@ == old(s)@ + tick_cell(*cell),
{
    match cell {
        Section::Value(v) => push_dec(s, *v as u64),
        Section::Na(_) => push_str(s, "N/A"),
    }
}

/// Appends a voltage cell's display.
pub(crate) fn push_volt_cell(s: &mut String, cell: &Section<u16>)
    ensures
        final(s)@ == old(s)@ + volt_cell(*cell),
{
    match cell {
        Section::Value(v) => {
            let mv = *v as u64;
            push_dec(s, mv / 1000);
            push_str(s, ".");
            push_dec_padded(s, mv % 1000, 3);
            push_str(s, " V");
            assert(s@ =~= old(s)@ + volt_cell(*cell));
        },
        Section::Na(_) => push_str(s, "N/A"),
    }
}

/// The product line of a card.
pub fn product_line(maker: &Section<String>, part: &Section<String>) -> (t: String)
    ensures
        t@ == product_view(*maker, *part),
{
    match (maker, part) {
        (Section::Value(m), Section::Value(p)) => {
            let mut t = owned(m.as_str());
            push_str(&mut t, " (");
            push_str(&mut t, p.as_str());
            push_str(&mut t, ")");
            t
        },
        (Section::Value(m), Section::Na(_)) => owned(m.as_str()),
        (Section::Na(_), Section::Value(p)) => owned(p.as_str()),
        (Section::Na(_), Section::Na(_)) => owned("N/A"),
    }
}

/// Appends a die density in Gb (a whole number of Gbit) or Mbit.
fn push_density(s: &mut String, mbit: u16)
    ensures
        final(s)@ == old(s)@ + density_view(mbit as nat),
{
    if mbit % 1024 == 0 {
        push_dec(s, (mbit / 1024) as u64);
        push_str(s, "Gb");
    } else {
        push_dec(s, mbit as u64);
        push_str(s, " Mbit");
    }
    assert(s@ =~= old(s)@ + density_view(mbit as nat));
}

/// The die density in Gb when it is a whole number of Gbit, else in Mbit.
pub fn density_gib(mbit: u16) -> (t: String)
    ensures
        t@ == density_view(mbit as nat),
{
    let mut t = String::new();
    push_density(&mut t, mbit);
    assert(t@ =~= density_view(mbit as nat));
    t
}

/// The DRAM-die line of a card.
pub fn dram_die_line(module: &SpdModule) -> (t: String)
    ensures
        t@ == die_view(*module),
{
    match &module.die_maker {
        Section::Na(_) => owned("N/A"),
        Section::Value(dm) => {
            let mut t = owned(dm.as_str());
            match (&module.die_type, &module.density_mbit) {
                (Section::Value(ty), Section::Value(d)) => {
                    push_str(&mut t, " (");
                    push_str(&mut t, ty.as_str());
                    push_str(&mut t, ", ");
                    push_density(&mut t, *d);
                    push_str(&mut t, ")");
                },
                (Section::Value(ty), Section::Na(_)) => {
                    push_str(&mut t, " (");
                    push_str(&mut t, ty.as_str());
                    push_str(&mut t, ")");
                },
                (Section::Na(_), Section::Value(d)) => {
                    push_str(&mut t, " (");
                    push_density(&mut t, *d);
                    push_str(&mut t, ")");
                },
                (Section::Na(_), Section::Na(_)) => {},
            }
            assert(t@ =~= die_view(*module));
            t
        },
    }
}

/// The human rank label of a card.
pub fn rank_label(rank: &Section<u8>) -> (t: String)
    ensures
        t@ == rank_view(*rank),
{
    match rank {
        Section::Na(_) => owned("N/A"),
        Section::Value(v) => {
            if *v == 0 {
                owned("N/A")
            } else if *v == 1 {
                owned("Single-Rank")
            } else if *v == 2 {
                owned("Dual-Rank")
            } else {
                let mut t = String::new();
                push_dec(&mut t, *v as u64);
                push_str(&mut t, "-Rank");
                assert(t@ =~= rank_view(*rank));
                t
            }
        },
    }
}

/// One profile row of a card.
pub fn profile_row(is_ddr5: bool, profile: &SpdProfile) -> (r: (String, String))
    ensures
        row_view(r) == profile_view(is_ddr5, *profile),
{
    let mut label = owned(if is_ddr5 { "EXPO" } else { "XMP" });
    push_str(&mut label, " ");
    push_dec(&mut label, profile.index as u64);
    let mut text = String::new();
    push_num_cell(&mut text, &profile.speed_mts, " MT/s");
    push_str(&mut text, " ");
    push_tick_cell(&mut text, &profile.cas);
    push_str(&mut text, "-");
    push_tick_cell(&mut text, &profile.trcd);
    push_str(&mut text, "-");
    push_tick_cell(&mut text, &profile.trp);
    push_str(&mut text, "-");
    push_tick_cell(&mut text, &profile.tras);
    push_str(&mut text, " @ ");
    push_volt_cell(&mut text, &profile.voltage);
    assert(label@ =~= profile_view(is_ddr5, *profile).0);
    assert(text@ =~= profile_view(is_ddr5, *profile).1);
    (label, text)
}

/// A text cell's display as a fresh string.
fn text_cell_string(cell: &Section<String>) -> (t: String)
    ensures
        t@ == text_cell(*cell),
{
    let mut t = String::new();
    push_text_cell(&mut t, cell);
    assert(t@ =~= text_cell(*cell));
    t
}

/// One SPD module's card rows.
pub fn card_rows(module: &SpdModule) -> (rows: Vec<(String, String)>)
    ensures
        rows_view(rows@) == card_view(*module),
{
    let mut rows: Vec<(String, String)> = Vec::new();
    rows.push((owned("product"), product_line(&module.maker, &module.part)));
    rows.push((owned("dram die"), dram_die_line(module)));
    rows.push((owned("rank label"), rank_label(&module.rank)));
    rows.push((owned("maker"), text_cell_string(&module.maker)));
    rows.push((owned("part"), text_cell_string(&module.part)));
    let mut rank = String::new();
    push_tick_cell(&mut rank, &module.rank);
    assert(rank@ =~= tick_cell(module.rank));
    rows.push((owned("rank"), rank));
    let mut density = String::new();
    push_num_cell(&mut density, &module.density_mbit, " Mbit");
    assert(density@ =~= num_cell(module.density_mbit, " Mbit"@));
    rows.push((owned("density"), density));
    let mut speed = String::new();
    push_num_cell(&mut speed, &module.speed_mts, " MT/s");
    assert(speed@ =~= num_cell(module.speed_mts, " MT/s"@));
    rows.push((owned("speed"), speed));
    let ghost head = rows_view(rows@);
    assert(head =~= card_view(*module).subrange(0, 8));
    if module.profiles.len() == 0 {
        rows.push((owned("profiles"), owned("none")));
    } else {
        let mut k: usize = 0;
        while k < module.profiles.len()
            invariant
                k <= module.profiles@.len(),
                rows_view(rows@) == head + profile_rows(*module).subrange(0, k as int),
                module.profiles@.len() > 0,
            decreases module.profiles.len() - k,
        {
            let ghost prev = rows@;
            let row = profile_row(module.is_ddr5, &module.profiles[k]);
            rows.push(row);
            proof {
                let pr = profile_rows(*module);
                assert(pr[k as int] == profile_view(module.is_ddr5, module.profiles@[k as int]));
                assert(rows_view(rows@) =~= rows_view(prev).push(pr[k as int]));
                assert(pr.subrange(0, k + 1) =~= pr.subrange(0, k as int).push(pr[k as int]));
            }
            k = k + 1;
        }
        assert(profile_rows(*module).subrange(0, k as int) =~= profile_rows(*module));
    }
    assert(rows_view(rows@) =~= card_view(*module));
    rows
}

/// The per-slot SPD cards: one card per module, in order (none when the
/// snapshot carries no module).
pub fn spd_cards(spd: &[SpdModule]) -> (cards: Vec<Vec<(String, String)>>)
    ensures
        cards@.len() == spd@.len(),
        forall|i: int| 0 <= i < spd@.len() ==> rows_view(#[trigger] cards@[i]@) == card_view(spd@[i]),
{
    let mut cards: Vec<Vec<(String, String)>> = Vec::new();
    let mut k: usize = 0;
    while k < spd.len()
        invariant
            k <= spd@.len(),
            cards@.len() == k,
            forall|i: int| 0 <= i < k ==> rows_view(#[trigger] cards@[i]@) == card_view(spd@[i]),
        decreases spd.len() - k,
    {
        cards.push(card_rows(&spd[k]));
        k = k + 1;
    }
    cards
}

/// The daemon status line: `daemon: <status>` (an empty status reads
/// `not connected`), then ` · <age>s ago` when a poll has landed
/// (`age` is the elapsed seconds, already rendered) or ` · never`.
pub fn daemon_status_line(daemon_status: &str, age: Option<&str>) -> (t: String)
    ensures
        t@ == "daemon: "@ + (if daemon_status@.len() == 0 { "not connected"@ } else { daemon_status@ })
            + (match age {
                Some(a) => " · "@ + a@ + "s ago"@,
                None => " · never"@,
            }),
{
    let mut t = owned("daemon: ");
    if daemon_status.is_empty() {
        push_str(&mut t, "not connected");
    } else {
        push_str(&mut t, daemon_status);
    }
    match age {
        Some(a) => {
            push_str(&mut t, " · ");
            push_str(&mut t, a);
            push_str(&mut t, "s ago");
        },
        None => push_str(&mut t, " · never"),
    }
    t
}

/// The daemon is connected and healthy: the last poll reached it and no
/// error is recorded.
pub open spec fn healthy(daemon_status: Seq<char>, has_error: bool) -> bool {
    daemon_status.len() > 0 && has_prefix(daemon_status, "connected"@) && !has_error
}

/// The daemon status line's color: CYAN when connected and healthy,
/// CRIMSON otherwise (not connected, or an error recorded).
pub fn daemon_status_color(daemon_status: &str, has_error: bool) -> (c: u32)
    ensures
        c == (if healthy(daemon_status@, has_error) { CYAN } else { CRIMSON }),
{
    let cs = chars_of(daemon_status);
    let p = chars_of("connected");
    if !daemon_status.is_empty() && starts_with(&cs, &p) && !has_error {
        CYAN
    } else {
        CRIMSON
    }
}

/// A card value's color: muted gray when it carries `N/A`, else CYAN.
pub fn card_value_color(display: &str) -> (c: u32)
    ensures
        c == (if has_infix(display@, "N/A"@) { NA_GRAY } else { CYAN }),
{
    let cs = chars_of(display);
    let na = chars_of("N/A");
    if contains(&cs, &na) { NA_GRAY } else { CYAN }
}

/// The header's transient-notice color: CRIMSON for a failure (`!`),
/// CYAN for a written file (`wrote `), AMBER for anything else.
pub open spec fn notice_hue(text: Seq<char>) -> u32 {
    if has_prefix(text, "!"@) {
        CRIMSON
    } else if has_prefix(text, "wrote "@) {
        CYAN
    } else {
        crate::style::AMBER
    }
}

/// The color of a transient notice (see [`notice_hue`]).
pub fn notice_color(text: &str) -> (c: u32)
    ensures
        c == notice_hue(text@),
{
    let cs = chars_of(text);
    let bang = chars_of("!");
    let wrote = chars_of("wrote ");
    if starts_with(&cs, &bang) {
        CRIMSON
    } else if starts_with(&cs, &wrote) {
        CYAN
    } else {
        crate::style::AMBER
    }
}

/// Each SPD field of a module's card is shown under its own label: the
/// maker, part, rank, density and data-rate rows read the module's own
/// fields, whatever its profiles.
pub proof fn lemma_card_rows_read_their_fields(m: SpdModule)
    ensures
        exists|i: int| 0 <= i < card_view(m).len() && #[trigger] card_view(m)[i] == ("maker"@, text_cell(m.maker)),
        exists|i: int| 0 <= i < card_view(m).len() && #[trigger] card_view(m)[i] == ("part"@, text_cell(m.part)),
        exists|i: int| 0 <= i < card_view(m).len() && #[trigger] card_view(m)[i] == ("rank"@, tick_cell(m.rank)),
        exists|i: int| 0 <= i < card_view(m).len() && #[trigger] card_view(m)[i] == ("density"@, num_cell(m.density_mbit, " Mbit"@)),
        exists|i: int| 0 <= i < card_view(m).len() && #[trigger] card_view(m)[i] == ("speed"@, num_cell(m.speed_mts, " MT/s"@)),
{
    assert(card_view(m)[3] == ("maker"@, text_cell(m.maker)));
    assert(card_view(m)[4] == ("part"@, text_cell(m.part)));
    assert(card_view(m)[5] == ("rank"@, tick_cell(m.rank)));
    assert(card_view(m)[6] == ("density"@, num_cell(m.density_mbit, " Mbit"@)));
    assert(card_view(m)[7] == ("speed"@, num_cell(m.speed_mts, " MT/s"@)));
}

/// A module's card lists its profiles after the eight fixed rows, in
/// order; each profile's row names it (`XMP <n>` on DDR4, `EXPO <n>` on
/// DDR5) and reads its data rate, then its timings in the order
/// CL-tRCD-tRP-tRAS, then its voltage.
pub proof fn lemma_profile_rows_read_cl_trcd_trp_tras(m: SpdModule, k: int)
    requires
        0 <= k < m.profiles@.len(),
    ensures
        ({
            let p = m.profiles@[k];
            let row = card_view(m)[8 + k];
            &&& card_view(m).len() == 8 + m.profiles@.len()
            &&& row.0 == (if m.is_ddr5 { "EXPO"@ } else { "XMP"@ }) + " "@ + dec(p.index as nat)
            &&& row.1 == num_cell(p.speed_mts, " MT/s"@) + " "@ + tick_cell(p.cas) + "-"@ + tick_cell(p.trcd)
                + "-"@ + tick_cell(p.trp) + "-"@ + tick_cell(p.tras) + " @ "@ + volt_cell(p.voltage)
        }),
{
}

} // verus!
