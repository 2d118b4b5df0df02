//! The memory-controller zone's matrix: every cell of the detected
//! vendor's readout as `(label, display)` rows, grouped into the six
//! sections of each vendor block.
//!
//! The readout holds the cells the matrix prints. Cells the daemon reports
//! as fractional figures (clocks, resistances) arrive already rendered in
//! the user's unit; the integer cells (ticks, millivolts) and the modes are
//! rendered here.
use vstd::prelude::*;

use crate::model::{CpuVendor, NaReason, Section};
use crate::status::{row_view, rows_view, text_cell, volt_cell, volts3};
use crate::style::{AMBER, CYAN, NA_GRAY};
use crate::text::{
    chars_of, dec, dec_padded, digit_char, has_prefix, owned, push_dec, push_str, same_text,
    starts_with, zeros,
};

verus! {

/// The UCLK:MCLK divide mode.
#[derive(Debug, Clone, Copy, PartialEq, Eq)]
pub enum DivMode {
    /// UCLK runs at MCLK.
    OneToOne,
    /// UCLK runs at half MCLK (gear desync).
    OneToTwo,
}

/// The SA:MEM gear multiplier.
#[derive(Debug, Clone, Copy, PartialEq, Eq)]
pub enum GearMode {
    One,
    Two,
    Four,
}

/// The DRAM command rate.
#[derive(Debug, Clone, Copy, PartialEq, Eq)]
pub enum CommandRate {
    OneT,
    TwoT,
}

/// An RTT termination setting.
#[derive(Debug, Clone, PartialEq, Eq)]
pub enum RttValue {
    /// Termination off.
    Disabled,
    /// An RZQ divisor, with its resolved resistance already rendered
    /// (`24.0 Ω`) when the divisor resolves.
    Rzq(u8, Option<String>),
    /// A resistance, already rendered (`45.0 Ω`).
    Ohms(String),
}

/// The clock cells of one readout.
#[derive(Debug, Clone, PartialEq, Eq)]
pub struct ClockReadout {
    /// MCLK, rendered in the selected clock unit.
    pub mclk: Section<String>,
    /// UCLK, rendered in the selected clock unit.
    pub uclk: Section<String>,
    /// FCLK, rendered in the selected clock unit.
    pub fclk: Section<String>,
    pub div_mode: Section<DivMode>,
    pub gear_mode: Section<GearMode>,
    /// Gear down mode.
    pub gdm: Section<bool>,
    /// Power down mode.
    pub pdm: Section<bool>,
    pub command_rate: Section<CommandRate>,
}

/// The DRAM subtimings of one readout, in ticks.
#[derive(Debug, Clone, PartialEq, Eq)]
pub struct TimingSet {
    pub cl: Section<u16>,
    pub rcdwr: Section<u16>,
    pub rcdrd: Section<u16>,
    pub rp: Section<u16>,
    pub ras: Section<u16>,
    pub rc: Section<u16>,
    pub rrds: Section<u16>,
    pub rrld: Section<u16>,
    pub faw: Section<u16>,
    pub wtrs: Section<u16>,
    pub wtrl: Section<u16>,
    pub wr: Section<u16>,
    pub rfc1: Section<u16>,
    pub rfc2: Section<u16>,
    pub rfcsb: Section<u16>,
    pub cwl: Section<u16>,
    pub rtp: Section<u16>,
    pub rdwr: Section<u16>,
    pub wrrd: Section<u16>,
    pub rdrd_sd: Section<u16>,
    pub rdrd_dd: Section<u16>,
    pub rdrd_scl: Section<u16>,
    pub rdrd_sc: Section<u16>,
    pub wrwr_sd: Section<u16>,
    pub wrwr_dd: Section<u16>,
    pub wrwr_scl: Section<u16>,
    pub wrwr_sc: Section<u16>,
}

/// The CAD bus drive strengths and terminations; each resistance is
/// already rendered (`33.0 Ω`).
#[derive(Debug, Clone, PartialEq, Eq)]
pub struct CadBus {
    pub proc_odt: Section<String>,
    pub rtt_nom: Section<RttValue>,
    pub rtt_wr: Section<RttValue>,
    pub rtt_park: Section<RttValue>,
    pub clk_drv: Section<String>,
    pub addr_cmd_drv: Section<String>,
    pub cs_odt_drv: Section<String>,
    pub cke_drv: Section<String>,
}

/// The memory rails, in millivolts.
#[derive(Debug, Clone, PartialEq, Eq)]
pub struct VoltageSet {
    pub vddcr_soc_mv: Section<u16>,
    pub vddio_mem_mv: Section<u16>,
    pub vdd_misc_mv: Section<u16>,
    pub vpp_mv: Section<u16>,
    pub vcore_mv: Section<u16>,
}

/// The AMD memory-controller readout.
#[derive(Debug, Clone, PartialEq, Eq)]
pub struct AmdReadout {
    pub clocks: ClockReadout,
    pub timings: TimingSet,
    pub cad_bus: CadBus,
    pub voltages: VoltageSet,
}

/// One decoded Intel memory channel.
#[derive(Debug, Clone, PartialEq, Eq)]
pub struct IntelChannel {
    /// The channel number.
    pub index: u8,
    pub clocks: ClockReadout,
    pub timings: TimingSet,
    pub cad_bus: CadBus,
    pub voltages: VoltageSet,
    /// The channel's round-trip latency, in ticks.
    pub rtl: Section<u16>,
}

/// The Intel controller's channel interleave configuration.
#[derive(Debug, Clone, Copy, PartialEq, Eq)]
pub enum ChannelMode {
    /// One populated channel.
    Single,
    /// Two channels of equal capacity, fully interleaved.
    DualSymmetric,
    /// Two channels of unequal capacity (Flex Mode).
    DualFlex,
}

/// The hardware channel configuration with the two labels the daemon's
/// telemetry gives it.
#[derive(Debug, Clone, PartialEq, Eq)]
pub struct HardwareChannel {
    pub mode: ChannelMode,
    /// The channel label (`Dual-Channel (Flex)`).
    pub label: String,
    /// The interleave label (`Interleaved`, `Flex`, `N/A`).
    pub mode_label: String,
}

/// The Intel memory-controller readout: one entry per decoded channel,
/// and the hardware channel configuration when the controller reports it.
#[derive(Debug, Clone, PartialEq, Eq)]
pub struct IntelReadout {
    pub channels: Vec<IntelChannel>,
    pub channel_mode: Option<HardwareChannel>,
}

/// What the matrix reads of a snapshot: the detected vendor and both
/// vendor branches.
#[derive(Debug, Clone, PartialEq, Eq)]
pub struct MemoryReadout {
    pub vendor: CpuVendor,
    pub amd: Section<AmdReadout>,
    pub intel: Section<IntelReadout>,
}

/// One labelled group of `(label, display)` rows of a vendor block.
#[derive(Debug, Clone, PartialEq, Eq)]
pub struct TimingSection {
    /// The section title.
    pub title: String,
    /// The rows, in canonical order.
    pub rows: Vec<(String, String)>,
}

/// One vendor block: its header and six sections, or, when the vendor
/// branch is absent as a whole, no section and one `N/A` display.
#[derive(Debug, Clone, PartialEq, Eq)]
pub struct VendorTiming {
    /// The block header (`AMD`, `Intel`, `Intel ch <n>`).
    pub header: String,
    /// The six sections, or none for a degraded block.
    pub sections: Vec<TimingSection>,
    /// The whole-block display of a degraded block.
    pub degraded: Option<String>,
}

/// A row of `(label, display)` texts.
pub type RowView = (Seq<char>, Seq<char>);

/// A section's title and rows.
pub type SectionView = (Seq<char>, Seq<RowView>);

/// A block's header, sections and degraded display.
pub type BlockView = (Seq<char>, Seq<SectionView>, Option<Seq<char>>);

/// A tick cell: its decimal value, or `N/A`.
pub open spec fn ticks_view(s: Section<u16>) -> Seq<char> {
    match s {
        Section::Value(v) => dec(v as nat),
        Section::Na(_) => "N/A"@,
    }
}

/// The divide mode: `1:1` / `1:2`.
pub open spec fn div_view(s: Section<DivMode>) -> Seq<char> {
    match s {
        Section::Value(DivMode::OneToOne) => "1:1"@,
        Section::Value(DivMode::OneToTwo) => "1:2"@,
        Section::Na(_) => "N/A"@,
    }
}

/// The gear multiplier: `1x` / `2x` / `4x`.
pub open spec fn gear_view(s: Section<GearMode>) -> Seq<char> {
    match s {
        Section::Value(GearMode::One) => "1x"@,
        Section::Value(GearMode::Two) => "2x"@,
        Section::Value(GearMode::Four) => "4x"@,
        Section::Na(_) => "N/A"@,
    }
}

/// A mode flag: `on` / `off`.
pub open spec fn flag_view(s: Section<bool>) -> Seq<char> {
    match s {
        Section::Value(b) => if b { "on"@ } else { "off"@ },
        Section::Na(_) => "N/A"@,
    }
}

/// The gear down mode: `Enabled` / `Disabled`.
pub open spec fn gdm_view(s: Section<bool>) -> Seq<char> {
    match s {
        Section::Value(b) => if b { "Enabled"@ } else { "Disabled"@ },
        Section::Na(_) => "N/A"@,
    }
}

/// The command rate: `1T` / `2T`.
pub open spec fn cr_view(s: Section<CommandRate>) -> Seq<char> {
    match s {
        Section::Value(CommandRate::OneT) => "1T"@,
        Section::Value(CommandRate::TwoT) => "2T"@,
        Section::Na(_) => "N/A"@,
    }
}

/// An RTT cell: `disabled`, `RZQ/<n> (<ohms>)` (bare `RZQ/<n>` when the
/// divisor does not resolve), or the resistance.
pub open spec fn rtt_view(s: Section<RttValue>) -> Seq<char> {
    match s {
        Section::Value(RttValue::Disabled) => "disabled"@,
        Section::Value(RttValue::Rzq(code, ohms)) => match ohms {
            Some(o) => "RZQ/"@ + dec(code as nat) + " ("@ + o@ + ")"@,
            None => "RZQ/"@ + dec(code as nat),
        },
        Section::Value(RttValue::Ohms(o)) => o@,
        Section::Na(_) => "N/A"@,
    }
}

/// `[Clocks & Ratios]`: MCLK, UCLK, FCLK, UCLK:MCLK, the gear row when
/// asked for, GEAR_DOWN, CR, PDM, and the channel RTL when there is one.
pub open spec fn clock_rows_view(c: ClockReadout, rtl: Option<Section<u16>>, gear_row: bool) -> Seq<RowView> {
    seq![
        ("MCLK"@, text_cell(c.mclk)),
        ("UCLK"@, text_cell(c.uclk)),
        ("FCLK"@, text_cell(c.fclk)),
        ("UCLK:MCLK"@, div_view(c.div_mode)),
    ] + (if gear_row { seq![("gear"@, gear_view(c.gear_mode))] } else { seq![] }) + seq![
        ("GEAR_DOWN"@, gdm_view(c.gdm)),
        ("CR"@, cr_view(c.command_rate)),
        ("PDM"@, flag_view(c.pdm)),
    ] + (match rtl {
        Some(r) => seq![("RTL"@, ticks_view(r))],
        None => seq![],
    })
}

/// `[Primary Timings]`.
pub open spec fn primary_rows_view(t: TimingSet) -> Seq<RowView> {
    seq![
        ("tCL"@, ticks_view(t.cl)),
        ("tRCDWR"@, ticks_view(t.rcdwr)),
        ("tRCDRD"@, ticks_view(t.rcdrd)),
        ("tRP"@, ticks_view(t.rp)),
    ]
}

/// `[Secondary Timings]`.
pub open spec fn secondary_rows_view(t: TimingSet) -> Seq<RowView> {
    seq![
        ("tRAS"@, ticks_view(t.ras)),
        ("tRC"@, ticks_view(t.rc)),
        ("tRRDS"@, ticks_view(t.rrds)),
        ("tRRLD"@, ticks_view(t.rrld)),
        ("tFAW"@, ticks_view(t.faw)),
    ]
}

/// `[Tertiary & Turnarounds]`.
pub open spec fn tertiary_rows_view(t: TimingSet) -> Seq<RowView> {
    seq![
        ("tWTRS"@, ticks_view(t.wtrs)),
        ("tWTRL"@, ticks_view(t.wtrl)),
        ("tWR"@, ticks_view(t.wr)),
        ("tRFC1"@, ticks_view(t.rfc1)),
        ("tRFC2"@, ticks_view(t.rfc2)),
        ("tRFCsb"@, ticks_view(t.rfcsb)),
        ("tCWL"@, ticks_view(t.cwl)),
        ("tRTP"@, ticks_view(t.rtp)),
        ("tRDWR"@, ticks_view(t.rdwr)),
        ("tWRRD"@, ticks_view(t.wrrd)),
        ("tRDRD(SD)"@, ticks_view(t.rdrd_sd)),
        ("tRDRD(CCD)"@, ticks_view(t.rdrd_dd)),
        ("tRDRD(SCL)"@, ticks_view(t.rdrd_scl)),
        ("tRDRD(SC)"@, ticks_view(t.rdrd_sc)),
        ("tWRWR(SD)"@, ticks_view(t.wrwr_sd)),
        ("tWRWR(CCD)"@, ticks_view(t.wrwr_dd)),
        ("tWRWR(SCL)"@, ticks_view(t.wrwr_scl)),
        ("tWRWR(SC)"@, ticks_view(t.wrwr_sc)),
    ]
}

/// `[CAD Bus Drive & Termination]`.
pub open spec fn cad_rows_view(c: CadBus) -> Seq<RowView> {
    seq![
        ("proc ODT"@, text_cell(c.proc_odt)),
        ("RTT nom"@, rtt_view(c.rtt_nom)),
        ("RTT wr"@, rtt_view(c.rtt_wr)),
        ("RTT park"@, rtt_view(c.rtt_park)),
        ("CLK drive"@, text_cell(c.clk_drv)),
        ("ADD/CMD drive"@, text_cell(c.addr_cmd_drv)),
        ("CS/ODT drive"@, text_cell(c.cs_odt_drv)),
        ("CKE drive"@, text_cell(c.cke_drv)),
    ]
}

/// `[Active System Voltages]`, in volts with three decimals.
pub open spec fn voltage_rows_view(v: VoltageSet) -> Seq<RowView> {
    seq![
        ("VDDCR_VDD"@, volt_cell(v.vcore_mv)),
        ("VDDCR_SOC"@, volt_cell(v.vddcr_soc_mv)),
        ("VDDIO_MEM"@, volt_cell(v.vddio_mem_mv)),
        ("VDD_MISC"@, volt_cell(v.vdd_misc_mv)),
        ("VPP"@, volt_cell(v.vpp_mv)),
    ]
}

/// The six sections of one readout, in storage order: Clocks & Ratios,
/// Tertiary & Turnarounds, Primary Timings, CAD Bus Drive & Termination,
/// Secondary Timings, Active System Voltages.
pub open spec fn sections_view(
    c: ClockReadout,
    t: TimingSet,
    cad: CadBus,
    v: VoltageSet,
    rtl: Option<Section<u16>>,
    gear_row: bool,
) -> Seq<SectionView> {
    seq![
        ("Clocks & Ratios"@, clock_rows_view(c, rtl, gear_row)),
        ("Tertiary & Turnarounds"@, tertiary_rows_view(t)),
        ("Primary Timings"@, primary_rows_view(t)),
        ("CAD Bus Drive & Termination"@, cad_rows_view(cad)),
        ("Secondary Timings"@, secondary_rows_view(t)),
        ("Active System Voltages"@, voltage_rows_view(v)),
    ]
}

/// The view of a section.
pub open spec fn section_view(s: TimingSection) -> SectionView {
    (s.title@, rows_view(s.rows@))
}

/// The view of a list of sections.
pub open spec fn sections_of(s: Seq<TimingSection>) -> Seq<SectionView> {
    s.map_values(|x: TimingSection| section_view(x))
}

/// The view of a block.
pub open spec fn block_view(b: VendorTiming) -> BlockView {
    (
        b.header@,
        sections_of(b.sections@),
        match b.degraded {
            Some(d) => Some(d@),
            None => None,
        },
    )
}

/// The view of a list of blocks.
pub open spec fn blocks_of(b: Seq<VendorTiming>) -> Seq<BlockView> {
    b.map_values(|x: VendorTiming| block_view(x))
}

/// A degraded block: the header, no section, a bare `N/A`.
pub open spec fn degraded_view(header: Seq<char>) -> BlockView {
    (header, Seq::empty(), Some("N/A"@))
}

/// The block of one Intel channel.
pub open spec fn channel_block_view(ch: IntelChannel) -> BlockView {
    (
        "Intel ch "@ + dec(ch.index as nat),
        sections_view(ch.clocks, ch.timings, ch.cad_bus, ch.voltages, Some(ch.rtl), true),
        None,
    )
}

/// The AMD block is shown unless the host is Intel.
pub open spec fn shows_amd(vendor: CpuVendor) -> bool {
    !(vendor is Intel)
}

/// The Intel blocks are shown unless the host is AMD.
pub open spec fn shows_intel(vendor: CpuVendor) -> bool {
    !(vendor is Amd)
}

/// The AMD part of the matrix.
pub open spec fn amd_blocks(r: MemoryReadout) -> Seq<BlockView> {
    if !shows_amd(r.vendor) {
        Seq::empty()
    } else {
        match r.amd {
            Section::Value(a) => seq![(
                "AMD"@,
                sections_view(a.clocks, a.timings, a.cad_bus, a.voltages, None, false),
                None,
            )],
            Section::Na(_) => seq![degraded_view("AMD"@)],
        }
    }
}

/// The Intel part of the matrix: one block per decoded channel; an empty
/// or absent readout is one degraded block.
pub open spec fn intel_blocks(r: MemoryReadout) -> Seq<BlockView> {
    if !shows_intel(r.vendor) {
        Seq::empty()
    } else {
        match r.intel {
            Section::Value(i) => if i.channels@.len() == 0 {
                seq![degraded_view("Intel"@)]
            } else {
                i.channels@.map_values(|ch: IntelChannel| channel_block_view(ch))
            },
            Section::Na(_) => seq![degraded_view("Intel"@)],
        }
    }
}

/// The whole matrix: the AMD part, then the Intel part.
pub open spec fn matrix_view(r: MemoryReadout) -> Seq<BlockView> {
    amd_blocks(r) + intel_blocks(r)
}

/// One `(label, display)` row.
pub fn row(label: &str, display: String) -> (r: (String, String))
    ensures
        row_view(r) == (label@, display@),
{
    (owned(label), display)
}

/// A text cell's display.
fn text_display(cell: &Section<String>) -> (t: String)
    ensures
        t@ == text_cell(*cell),
{
    match cell {
        Section::Value(v) => owned(v.as_str()),
        Section::Na(_) => owned("N/A"),
    }
}

/// A tick cell's display.
pub fn ticks(cell: &Section<u16>) -> (t: String)
    ensures
        t@ == ticks_view(*cell),
{
    match cell {
        Section::Value(v) => {
            let mut t = String::new();
            push_dec(&mut t, *v as u64);
            assert(t@ =~= ticks_view(*cell));
            t
        },
        Section::Na(_) => owned("N/A"),
    }
}

/// The divide mode's display.
pub fn div(cell: &Section<DivMode>) -> (t: String)
    ensures
        t@ == div_view(*cell),
{
    match cell {
        Section::Value(DivMode::OneToOne) => owned("1:1"),
        Section::Value(DivMode::OneToTwo) => owned("1:2"),
        Section::Na(_) => owned("N/A"),
    }
}

/// The gear multiplier's display.
pub fn gear(cell: &Section<GearMode>) -> (t: String)
    ensures
        t@ == gear_view(*cell),
{
    match cell {
        Section::Value(GearMode::One) => owned("1x"),
        Section::Value(GearMode::Two) => owned("2x"),
        Section::Value(GearMode::Four) => owned("4x"),
        Section::Na(_) => owned("N/A"),
    }
}

/// A mode flag's display.
pub fn flag(cell: &Section<bool>) -> (t: String)
    ensures
        t@ == flag_view(*cell),
{
    match cell {
        Section::Value(true) => owned("on"),
        Section::Value(false) => owned("off"),
        Section::Na(_) => owned("N/A"),
    }
}

/// The gear down mode's display.
pub fn gdm_text(cell: &Section<bool>) -> (t: String)
    ensures
        t@ == gdm_view(*cell),
{
    match cell {
        Section::Value(true) => owned("Enabled"),
        Section::Value(false) => owned("Disabled"),
        Section::Na(_) => owned("N/A"),
    }
}

/// The command rate's display.
pub fn cr_text(cell: &Section<CommandRate>) -> (t: String)
    ensures
        t@ == cr_view(*cell),
{
    match cell {
        Section::Value(CommandRate::OneT) => owned("1T"),
        Section::Value(CommandRate::TwoT) => owned("2T"),
        Section::Na(_) => owned("N/A"),
    }
}

/// An RTT cell's display.
pub fn rtt(cell: &Section<RttValue>) -> (t: String)
    ensures
        t@ == rtt_view(*cell),
{
    match cell {
        Section::Value(RttValue::Disabled) => owned("disabled"),
        Section::Value(RttValue::Rzq(code, ohms)) => {
            let mut t = owned("RZQ/");
            push_dec(&mut t, *code as u64);
            match ohms {
                Some(o) => {
                    push_str(&mut t, " (");
                    push_str(&mut t, o.as_str());
                    push_str(&mut t, ")");
                },
                None => {},
            }
            assert(t@ =~= rtt_view(*cell));
            t
        },
        Section::Value(RttValue::Ohms(o)) => owned(o.as_str()),
        Section::Na(_) => owned("N/A"),
    }
}

/// A voltage cell's display: volts with three decimals.
pub fn volts(cell: &Section<u16>) -> (t: String)
    ensures
        t@ == volt_cell(*cell),
{
    let mut t = String::new();
    crate::status::push_volt_cell(&mut t, cell);
    assert(t@ =~= volt_cell(*cell));
    t
}


/// The rows of `[Clocks & Ratios]`.
fn clock_rows(c: &ClockReadout, rtl: Option<&Section<u16>>, gear_row: bool) -> (rows: Vec<(String, String)>)
    ensures
        rows_view(rows@) == clock_rows_view(*c, match rtl { Some(r) => Some(*r), None => None }, gear_row),
{
    let mut rows: Vec<(String, String)> = Vec::new();
    rows.push(row("MCLK", text_display(&c.mclk)));
    rows.push(row("UCLK", text_display(&c.uclk)));
    rows.push(row("FCLK", text_display(&c.fclk)));
    rows.push(row("UCLK:MCLK", div(&c.div_mode)));
    if gear_row {
        rows.push(row("gear", gear(&c.gear_mode)));
    }
    rows.push(row("GEAR_DOWN", gdm_text(&c.gdm)));
    rows.push(row("CR", cr_text(&c.command_rate)));
    rows.push(row("PDM", flag(&c.pdm)));
    match rtl {
        Some(r) => rows.push(row("RTL", ticks(r))),
        None => {},
    }
    assert(rows_view(rows@) =~= clock_rows_view(*c, match rtl { Some(r) => Some(*r), None => None }, gear_row));
    rows
}

/// The rows of `[Primary Timings]`.
fn primary_rows(t: &TimingSet) -> (rows: Vec<(String, String)>)
    ensures
        rows_view(rows@) == primary_rows_view(*t),
{
    let rows = vec![
        row("tCL", ticks(&t.cl)),
        row("tRCDWR", ticks(&t.rcdwr)),
        row("tRCDRD", ticks(&t.rcdrd)),
        row("tRP", ticks(&t.rp)),
    ];
    assert(rows_view(rows@) =~= primary_rows_view(*t));
    rows
}

/// The rows of `[Secondary Timings]`.
fn secondary_rows(t: &TimingSet) -> (rows: Vec<(String, String)>)
    ensures
        rows_view(rows@) == secondary_rows_view(*t),
{
    let rows = vec![
        row("tRAS", ticks(&t.ras)),
        row("tRC", ticks(&t.rc)),
        row("tRRDS", ticks(&t.rrds)),
        row("tRRLD", ticks(&t.rrld)),
        row("tFAW", ticks(&t.faw)),
    ];
    assert(rows_view(rows@) =~= secondary_rows_view(*t));
    rows
}

/// The rows of `[Tertiary & Turnarounds]`.
fn tertiary_rows(t: &TimingSet) -> (rows: Vec<(String, String)>)
    ensures
        rows_view(rows@) == tertiary_rows_view(*t),
{
    let rows = vec![
        row("tWTRS", ticks(&t.wtrs)),
        row("tWTRL", ticks(&t.wtrl)),
        row("tWR", ticks(&t.wr)),
        row("tRFC1", ticks(&t.rfc1)),
        row("tRFC2", ticks(&t.rfc2)),
        row("tRFCsb", ticks(&t.rfcsb)),
        row("tCWL", ticks(&t.cwl)),
        row("tRTP", ticks(&t.rtp)),
        row("tRDWR", ticks(&t.rdwr)),
        row("tWRRD", ticks(&t.wrrd)),
        row("tRDRD(SD)", ticks(&t.rdrd_sd)),
        row("tRDRD(CCD)", ticks(&t.rdrd_dd)),
        row("tRDRD(SCL)", ticks(&t.rdrd_scl)),
        row("tRDRD(SC)", ticks(&t.rdrd_sc)),
        row("tWRWR(SD)", ticks(&t.wrwr_sd)),
        row("tWRWR(CCD)", ticks(&t.wrwr_dd)),
        row("tWRWR(SCL)", ticks(&t.wrwr_scl)),
        row("tWRWR(SC)", ticks(&t.wrwr_sc)),
    ];
    assert(rows_view(rows@) =~= tertiary_rows_view(*t));
    rows
}

/// The rows of `[CAD Bus Drive & Termination]`.
fn cad_rows(c: &CadBus) -> (rows: Vec<(String, String)>)
    ensures
        rows_view(rows@) == cad_rows_view(*c),
{
    let rows = vec![
        row("proc ODT", text_display(&c.proc_odt)),
        row("RTT nom", rtt(&c.rtt_nom)),
        row("RTT wr", rtt(&c.rtt_wr)),
        row("RTT park", rtt(&c.rtt_park)),
        row("CLK drive", text_display(&c.clk_drv)),
        row("ADD/CMD drive", text_display(&c.addr_cmd_drv)),
        row("CS/ODT drive", text_display(&c.cs_odt_drv)),
        row("CKE drive", text_display(&c.cke_drv)),
    ];
    assert(rows_view(rows@) =~= cad_rows_view(*c));
    rows
}

/// The rows of `[Active System Voltages]`.
fn voltage_rows(v: &VoltageSet) -> (rows: Vec<(String, String)>)
    ensures
        rows_view(rows@) == voltage_rows_view(*v),
{
    let rows = vec![
        row("VDDCR_VDD", volts(&v.vcore_mv)),
        row("VDDCR_SOC", volts(&v.vddcr_soc_mv)),
        row("VDDIO_MEM", volts(&v.vddio_mem_mv)),
        row("VDD_MISC", volts(&v.vdd_misc_mv)),
        row("VPP", volts(&v.vpp_mv)),
    ];
    assert(rows_view(rows@) =~= voltage_rows_view(*v));
    rows
}

/// One titled section.
fn section(title: &str, rows: Vec<(String, String)>) -> (s: TimingSection)
    ensures
        section_view(s) == (title@, rows_view(rows@)),
{
    TimingSection { title: owned(title), rows }
}

/// The six sections of one readout (the AMD block or one Intel channel),
/// in storage order; the gear row only when `gear_row` (the Intel
/// channels), the channel RTL appended to the clocks when given.
pub fn readout_sections(
    clocks: &ClockReadout,
    timings: &TimingSet,
    cad_bus: &CadBus,
    voltages: &VoltageSet,
    rtl: Option<&Section<u16>>,
    gear_row: bool,
) -> (s: Vec<TimingSection>)
    ensures
        sections_of(s@) == sections_view(
            *clocks,
            *timings,
            *cad_bus,
            *voltages,
            match rtl { Some(r) => Some(*r), None => None },
            gear_row,
        ),
{
    let s = vec![
        section("Clocks & Ratios", clock_rows(clocks, rtl, gear_row)),
        section("Tertiary & Turnarounds", tertiary_rows(timings)),
        section("Primary Timings", primary_rows(timings)),
        section("CAD Bus Drive & Termination", cad_rows(cad_bus)),
        section("Secondary Timings", secondary_rows(timings)),
        section("Active System Voltages", voltage_rows(voltages)),
    ];
    assert(sections_of(s@) =~= sections_view(
        *clocks,
        *timings,
        *cad_bus,
        *voltages,
        match rtl { Some(r) => Some(*r), None => None },
        gear_row,
    ));
    s
}

/// A degraded block: the header over one bare `N/A`.
pub fn degraded_block(header: &str, reason: &NaReason) -> (b: VendorTiming)
    ensures
        block_view(b) == degraded_view(header@),
{
    let b = VendorTiming {
        header: owned(header),
        sections: Vec::new(),
        degraded: Some(crate::status::na_text(reason)),
    };
    assert(sections_of(b.sections@) =~= Seq::<SectionView>::empty());
    b
}

/// The block of one Intel channel.
fn channel_block(ch: &IntelChannel) -> (b: VendorTiming)
    ensures
        block_view(b) == channel_block_view(*ch),
{
    let mut header = owned("Intel ch ");
    push_dec(&mut header, ch.index as u64);
    let b = VendorTiming {
        header,
        sections: readout_sections(&ch.clocks, &ch.timings, &ch.cad_bus, &ch.voltages, Some(&ch.rtl), true),
        degraded: None,
    };
    assert(b.header@ =~= channel_block_view(*ch).0);
    b
}

/// The vendor blocks of the matrix, filtered by the detected vendor: an
/// AMD host shows only the AMD block, an Intel host only the Intel
/// channel blocks, an unknown vendor both. An absent branch, or an Intel
/// readout with no channel, is one degraded block.
pub fn timing_cells(readout: &MemoryReadout) -> (blocks: Vec<VendorTiming>)
    ensures
        blocks_of(blocks@) == matrix_view(*readout),
{
    let show_amd = !matches!(readout.vendor, CpuVendor::Intel);
    let show_intel = !matches!(readout.vendor, CpuVendor::Amd(_));
    let mut blocks: Vec<VendorTiming> = Vec::new();
    if show_amd {
        match &readout.amd {
            Section::Value(a) => {
                blocks.push(VendorTiming {
                    header: owned("AMD"),
                    sections: readout_sections(&a.clocks, &a.timings, &a.cad_bus, &a.voltages, None, false),
                    degraded: None,
                });
            },
            Section::Na(reason) => blocks.push(degraded_block("AMD", reason)),
        }
    }
    assert(blocks_of(blocks@) =~= amd_blocks(*readout));
    let ghost head = blocks_of(blocks@);
    if show_intel {
        match &readout.intel {
            Section::Value(i) => {
                if i.channels.len() == 0 {
                    blocks.push(degraded_block("Intel", &NaReason::NotApplicable));
                } else {
                    let ghost all = i.channels@.map_values(|ch: IntelChannel| channel_block_view(ch));
                    let mut k: usize = 0;
                    while k < i.channels.len()
                        invariant
                            k <= i.channels@.len(),
                            all == i.channels@.map_values(|ch: IntelChannel| channel_block_view(ch)),
                            blocks_of(blocks@) == head + all.subrange(0, k as int),
                        decreases i.channels.len() - k,
                    {
                        let ghost prev = blocks@;
                        blocks.push(channel_block(&i.channels[k]));
                        proof {
                            assert(blocks_of(blocks@) =~= blocks_of(prev).push(all[k as int]));
                            assert(all.subrange(0, k + 1) =~= all.subrange(0, k as int).push(all[k as int]));
                        }
                        k = k + 1;
                    }
                    assert(all.subrange(0, k as int) =~= all);
                }
            },
            Section::Na(reason) => blocks.push(degraded_block("Intel", reason)),
        }
    }
    assert(blocks_of(blocks@) =~= matrix_view(*readout));
    blocks
}


/// The matrix follows the detected vendor: an AMD host shows the AMD
/// block alone, an Intel host only Intel blocks, an unknown vendor the
/// AMD block and then at least one Intel block. Every block is either
/// whole (six sections, no degraded display) or degraded (no section, a
/// bare `N/A`).
pub proof fn lemma_matrix_follows_vendor(r: MemoryReadout)
    ensures
        r.vendor is Amd ==> matrix_view(r).len() == 1 && matrix_view(r)[0].0 == "AMD"@,
        r.vendor is Intel ==> matrix_view(r).len() >= 1 && forall|i: int|
            0 <= i < matrix_view(r).len() ==> has_prefix(#[trigger] matrix_view(r)[i].0, "Intel"@),
        r.vendor is Unknown ==> matrix_view(r).len() >= 2 && matrix_view(r)[0].0 == "AMD"@,
        forall|i: int| 0 <= i < matrix_view(r).len() ==> {
            let b = #[trigger] matrix_view(r)[i];
            (b.1.len() == 6 && b.2 is None) || (b.1.len() == 0 && b.2 == Some("N/A"@))
        },
{
    let m = matrix_view(r);
    let a = amd_blocks(r);
    let n = intel_blocks(r);
    assert(m == a + n);
    reveal_strlit("Intel");
    reveal_strlit("Intel ch ");
    assert forall|i: int| 0 <= i < n.len() implies has_prefix(#[trigger] n[i].0, "Intel"@) && (
        (n[i].1.len() == 6 && n[i].2 is None) || (n[i].1.len() == 0 && n[i].2 == Some("N/A"@))) by {
        match r.intel {
            Section::Value(iv) => if iv.channels@.len() > 0 {
                let h = n[i].0;
                assert(h == "Intel ch "@ + dec(iv.channels@[i].index as nat));
                assert(h.subrange(0, 5) =~= "Intel"@);
            } else {
                assert("Intel"@.subrange(0, 5) =~= "Intel"@);
            },
            Section::Na(_) => {
                assert("Intel"@.subrange(0, 5) =~= "Intel"@);
            },
        }
    }
    assert forall|i: int| 0 <= i < m.len() implies {
        let b = #[trigger] m[i];
        (b.1.len() == 6 && b.2 is None) || (b.1.len() == 0 && b.2 == Some("N/A"@))
    } by {
        if i >= a.len() {
            assert(m[i] == n[i - a.len()]);
        }
    }
    if r.vendor is Intel {
        assert(a.len() == 0);
        assert forall|i: int| 0 <= i < m.len() implies has_prefix(#[trigger] m[i].0, "Intel"@) by {
            assert(m[i] == n[i]);
        }
    }
}

/// The VDDCR_SOC limit, in millivolts (the AM5 SOC rail's 1.30 V): a
/// reading above it is out of spec.
pub const SOC_MAX_MV: u32 = 1300;

/// Every character is an ASCII digit.
pub open spec fn all_digits(ds: Seq<char>) -> bool {
    forall|i: int| 0 <= i < ds.len() ==> '0' <= #[trigger] ds[i] && ds[i] <= '9'
}

/// The value of a run of decimal digits.
pub open spec fn digits_value(ds: Seq<char>) -> nat
    decreases ds.len(),
{
    if ds.len() == 0 {
        0
    } else {
        10 * digits_value(ds.drop_last()) + ((ds.last() as int - 48) as nat)
    }
}

/// A display in the matrix's volts form: digits, `.`, three digits, ` V`.
pub open spec fn volts_form(s: Seq<char>) -> bool {
    &&& s.len() >= 7
    &&& all_digits(s.subrange(0, s.len() - 6))
    &&& s[s.len() - 6] == '.'
    &&& all_digits(s.subrange(s.len() - 5, s.len() - 2))
    &&& s[s.len() - 2] == ' '
    &&& s[s.len() - 1] == 'V'
}

/// The millivolts a display in the volts form reads.
pub open spec fn display_millivolts(s: Seq<char>) -> nat {
    1000 * digits_value(s.subrange(0, s.len() - 6)) + digits_value(s.subrange(s.len() - 5, s.len() - 2))
}

/// A matrix cell's color: muted gray for an absent cell (its display
/// starts with `N/A`), AMBER for a 1:2 UCLK:MCLK divide and for a
/// VDDCR_SOC reading above [`SOC_MAX_MV`], CYAN otherwise. A VDDCR_SOC
/// display that is not in the matrix's volts form is no reading.
pub open spec fn matrix_hue(label: Seq<char>, display: Seq<char>) -> u32 {
    if has_prefix(display, "N/A"@) {
        NA_GRAY
    } else if label == "UCLK:MCLK"@ && display == "1:2"@ {
        AMBER
    } else if label == "VDDCR_SOC"@ && volts_form(display) && display_millivolts(display) > SOC_MAX_MV {
        AMBER
    } else {
        CYAN
    }
}

/// One more digit extends a run's value.
proof fn lemma_digits_step(s: Seq<char>, a: int, b: int)
    requires
        0 <= a < b <= s.len(),
    ensures
        digits_value(s.subrange(a, b)) == 10 * digits_value(s.subrange(a, b - 1)) + ((s[b - 1] as int
            - 48) as nat),
{
    assert(s.subrange(a, b).drop_last() =~= s.subrange(a, b - 1));
}

/// The value of the digit run `s[a..b]`, capped at `cap`; `None` when a
/// character of it is not a digit.
fn capped_digits(s: &[char], a: usize, b: usize, cap: u64) -> (r: Option<u64>)
    requires
        a <= b <= s@.len(),
        1 <= cap <= 1000,
    ensures
        match r {
            Some(v) => all_digits(s@.subrange(a as int, b as int)) && v == (if digits_value(
                s@.subrange(a as int, b as int),
            ) < cap {
                digits_value(s@.subrange(a as int, b as int))
            } else {
                cap as nat
            }),
            None => !all_digits(s@.subrange(a as int, b as int)),
        },
{
    let mut v: u64 = 0;
    let mut i: usize = a;
    assert(s@.subrange(a as int, a as int) =~= Seq::<char>::empty());
    while i < b
        invariant
            a <= i <= b <= s@.len(),
            1 <= cap <= 1000,
            all_digits(s@.subrange(a as int, i as int)),
            v == (if digits_value(s@.subrange(a as int, i as int)) < cap {
                digits_value(s@.subrange(a as int, i as int))
            } else {
                cap as nat
            }),
        decreases b - i,
    {
        let c = s[i];
        if !('0' <= c && c <= '9') {
            assert(s@.subrange(a as int, b as int)[i - a] == c);
            return None;
        }
        proof {
            lemma_digits_step(s@, a as int, i as int + 1);
            assert(s@.subrange(a as int, i as int + 1).drop_last() =~= s@.subrange(a as int, i as int));
            assert forall|j: int| 0 <= j < i + 1 - a implies '0' <= #[trigger] s@.subrange(
                a as int,
                i as int + 1,
            )[j] && s@.subrange(a as int, i as int + 1)[j] <= '9' by {
                if j < i - a {
                    assert(s@.subrange(a as int, i as int + 1)[j] == s@.subrange(a as int, i as int)[j]);
                }
            }
        }
        let d = (c as u32 - 48) as u64;
        let w = v * 10 + d;
        v = if w < cap { w } else { cap };
        i = i + 1;
    }
    Some(v)
}

/// Whether a VDDCR_SOC display reads above [`SOC_MAX_MV`].
fn soc_over_limit(s: &[char]) -> (b: bool)
    ensures
        b == (volts_form(s@) && display_millivolts(s@) > SOC_MAX_MV),
{
    let n = s.len();
    if n < 7 || s[n - 6] != '.' || s[n - 2] != ' ' || s[n - 1] != 'V' {
        return false;
    }
    let whole = match capped_digits(s, 0, n - 6, 2) {
        Some(w) => w,
        None => return false,
    };
    let frac = match capped_digits(s, n - 5, n - 2, 1000) {
        Some(f) => f,
        None => return false,
    };
    proof {
        let fs = s@.subrange(n - 5, n - 2);
        assert(fs.len() == 3);
        assert(fs.drop_last().drop_last().drop_last() =~= Seq::<char>::empty());
        assert(digits_value(fs) < 1000) by {
            reveal_with_fuel(digits_value, 4);
        }
    }
    whole * 1000 + frac > 1300
}

/// The color of a matrix cell (see [`matrix_hue`]).
pub fn cell_color(label: &str, display: &str) -> (c: u32)
    ensures
        c == matrix_hue(label@, display@),
{
    let ds = chars_of(display);
    let na = chars_of("N/A");
    if starts_with(&ds, &na) {
        NA_GRAY
    } else if same_text(label, "UCLK:MCLK") && same_text(display, "1:2") {
        AMBER
    } else if same_text(label, "VDDCR_SOC") && soc_over_limit(&ds) {
        AMBER
    } else {
        CYAN
    }
}

/// A digit character's code is 48 plus the digit.
proof fn lemma_digit_code(d: nat)
    requires
        d < 10,
    ensures
        digit_char(d) as int == 48 + d,
{
}

/// A decimal rendering is a run of digits worth its number.
proof fn lemma_dec_digits(n: nat)
    ensures
        dec(n).len() >= 1,
        all_digits(dec(n)),
        digits_value(dec(n)) == n,
    decreases n,
{
    lemma_digit_code(n % 10);
    if n < 10 {
        let d = dec(n);
        assert(d =~= seq![digit_char(n)]);
        assert(d.drop_last() =~= Seq::<char>::empty());
        assert(digits_value(d.drop_last()) == 0);
        assert(d.last() == digit_char(n % 10));
    } else {
        lemma_dec_digits(n / 10);
        let d = dec(n);
        assert(d.drop_last() =~= dec(n / 10));
        assert(d.last() == digit_char(n % 10));
        assert forall|i: int| 0 <= i < d.len() implies '0' <= #[trigger] d[i] && d[i] <= '9' by {
            if i < d.len() - 1 {
                assert(d[i] == dec(n / 10)[i]);
            }
        }
    }
}

/// Leading zeros add nothing to a run's value.
proof fn lemma_zeros_value(k: nat, d: Seq<char>)
    ensures
        digits_value(zeros(k) + d) == digits_value(d),
    decreases k, d.len(),
{
    if d.len() == 0 {
        assert(zeros(k) + d =~= zeros(k));
        if k > 0 {
            lemma_zeros_value((k - 1) as nat, d);
            assert(zeros(k).drop_last() =~= zeros((k - 1) as nat));
            assert(zeros((k - 1) as nat) + d =~= zeros((k - 1) as nat));
        }
    } else {
        lemma_zeros_value(k, d.drop_last());
        assert((zeros(k) + d).drop_last() =~= zeros(k) + d.drop_last());
    }
}

/// Three decimals of a remainder below 1000 are three digits worth it.
proof fn lemma_padded3(r: nat)
    requires
        r < 1000,
    ensures
        dec_padded(r, 3).len() == 3,
        all_digits(dec_padded(r, 3)),
        digits_value(dec_padded(r, 3)) == r,
{
    lemma_dec_digits(r);
    let d = dec(r);
    assert(d.len() <= 3) by {
        reveal_with_fuel(dec, 3);
    }
    if d.len() < 3 {
        let k = (3 - d.len()) as nat;
        lemma_zeros_value(k, d);
        assert(zeros(k).len() == k) by {
            reveal_with_fuel(zeros, 3);
        }
        assert forall|i: int| 0 <= i < k implies zeros(k)[i] == '0' by {
            reveal_with_fuel(zeros, 3);
        }
        let p = zeros(k) + d;
        assert forall|i: int| 0 <= i < p.len() implies '0' <= #[trigger] p[i] && p[i] <= '9' by {
            if i >= k {
                assert(p[i] == d[i - k]);
            }
        }
    }
}

/// The matrix's SOC warning fires exactly above the limit: the
/// VDDCR_SOC display of `mv` millivolts is AMBER when `mv` exceeds
/// [`SOC_MAX_MV`], CYAN otherwise.
pub proof fn lemma_soc_warning_is_above_the_limit(mv: u16)
    ensures
        matrix_hue("VDDCR_SOC"@, volt_cell(Section::Value(mv))) == if mv > SOC_MAX_MV {
            AMBER
        } else {
            CYAN
        },
{
    reveal_strlit(".");
    reveal_strlit(" V");
    reveal_strlit("N/A");
    reveal_strlit("VDDCR_SOC");
    reveal_strlit("UCLK:MCLK");
    let w = (mv / 1000) as nat;
    let r = (mv % 1000) as nat;
    lemma_dec_digits(w);
    lemma_padded3(r);
    let a = dec(w);
    let p = dec_padded(r, 3);
    let s = volts3(mv as nat);
    assert(s == a + "."@ + p + " V"@);
    let n = s.len();
    assert(n == a.len() + 6);
    assert(s.subrange(0, n - 6) =~= a);
    assert(s.subrange(n - 5, n - 2) =~= p);
    assert(s[n - 6] == '.');
    assert(s[n - 2] == ' ');
    assert(s[n - 1] == 'V');
    assert(volts_form(s));
    assert(display_millivolts(s) == mv);
    assert(!has_prefix(s, "N/A"@)) by {
        if has_prefix(s, "N/A"@) {
            assert(s.subrange(0, 3)[0] == s[0]);
            assert(s[0] == a[0]);
        }
    }
    assert("VDDCR_SOC"@ != "UCLK:MCLK"@) by {
        assert("VDDCR_SOC"@[0] != "UCLK:MCLK"@[0]);
    }
}

/// Each rail row of the Active System Voltages section reads its own
/// rail: the row labelled VDDCR_VDD shows the core rail, VDDCR_SOC the
/// SOC rail, VDDIO_MEM the memory I/O rail, VDD_MISC the misc rail and VPP
/// the VPP rail; each label occurs once.
pub proof fn lemma_voltage_rows_read_their_rails(v: VoltageSet)
    ensures
        ({
            let rows = voltage_rows_view(v);
            &&& rows.len() == 5
            &&& forall|i: int| 0 <= i < 5 && (#[trigger] rows[i]).0 == "VDDCR_VDD"@ ==> rows[i].1 == volt_cell(v.vcore_mv)
            &&& forall|i: int| 0 <= i < 5 && (#[trigger] rows[i]).0 == "VDDCR_SOC"@ ==> rows[i].1 == volt_cell(v.vddcr_soc_mv)
            &&& forall|i: int| 0 <= i < 5 && (#[trigger] rows[i]).0 == "VDDIO_MEM"@ ==> rows[i].1 == volt_cell(v.vddio_mem_mv)
            &&& forall|i: int| 0 <= i < 5 && (#[trigger] rows[i]).0 == "VDD_MISC"@ ==> rows[i].1 == volt_cell(v.vdd_misc_mv)
            &&& forall|i: int| 0 <= i < 5 && (#[trigger] rows[i]).0 == "VPP"@ ==> rows[i].1 == volt_cell(v.vpp_mv)
            &&& exists|i: int| 0 <= i < 5 && (#[trigger] rows[i]).0 == "VDDCR_SOC"@
            &&& exists|i: int| 0 <= i < 5 && (#[trigger] rows[i]).0 == "VDDCR_VDD"@
        }),
{
    reveal_strlit("VDDCR_VDD");
    reveal_strlit("VDDCR_SOC");
    reveal_strlit("VDDIO_MEM");
    reveal_strlit("VDD_MISC");
    reveal_strlit("VPP");
    let rows = voltage_rows_view(v);
    assert("VDDCR_VDD"@ != "VDDCR_SOC"@) by { assert("VDDCR_VDD"@[6] != "VDDCR_SOC"@[6]); }
    assert("VDDCR_VDD"@ != "VDDIO_MEM"@) by { assert("VDDCR_VDD"@[3] != "VDDIO_MEM"@[3]); }
    assert("VDDCR_VDD"@ != "VDD_MISC"@) by { assert("VDDCR_VDD"@.len() != "VDD_MISC"@.len()); }
    assert("VDDCR_VDD"@ != "VPP"@) by { assert("VDDCR_VDD"@.len() != "VPP"@.len()); }
    assert("VDDCR_SOC"@ != "VDDIO_MEM"@) by { assert("VDDCR_SOC"@[3] != "VDDIO_MEM"@[3]); }
    assert("VDDCR_SOC"@ != "VDD_MISC"@) by { assert("VDDCR_SOC"@.len() != "VDD_MISC"@.len()); }
    assert("VDDCR_SOC"@ != "VPP"@) by { assert("VDDCR_SOC"@.len() != "VPP"@.len()); }
    assert("VDDIO_MEM"@ != "VDD_MISC"@) by { assert("VDDIO_MEM"@.len() != "VDD_MISC"@.len()); }
    assert("VDDIO_MEM"@ != "VPP"@) by { assert("VDDIO_MEM"@.len() != "VPP"@.len()); }
    assert("VDD_MISC"@ != "VPP"@) by { assert("VDD_MISC"@.len() != "VPP"@.len()); }
    assert(rows[0].0 == "VDDCR_VDD"@);
    assert(rows[1].0 == "VDDCR_SOC"@);
}

/// On an AMD host, the matrix's AMD block shows the SOC rail's own
/// reading on its VDDCR_SOC row, and that row is flagged exactly when the
/// SOC rail reads above [`SOC_MAX_MV`].
pub proof fn lemma_amd_soc_row(r: MemoryReadout, a: AmdReadout)
    requires
        r.vendor is Amd,
        r.amd == Section::<AmdReadout>::Value(a),
    ensures
        ({
            let block = matrix_view(r)[0];
            let volts_section = block.1[5];
            &&& block.0 == "AMD"@
            &&& volts_section.0 == "Active System Voltages"@
            &&& exists|i: int| 0 <= i < volts_section.1.len() && #[trigger] volts_section.1[i] == (
                "VDDCR_SOC"@,
                volt_cell(a.voltages.vddcr_soc_mv),
            )
            &&& forall|i: int| 0 <= i < volts_section.1.len() && (#[trigger] volts_section.1[i]).0
                == "VDDCR_SOC"@ ==> matrix_hue(volts_section.1[i].0, volts_section.1[i].1) == match a.voltages.vddcr_soc_mv {
                Section::Value(mv) => if mv > SOC_MAX_MV { AMBER } else { CYAN },
                Section::Na(_) => NA_GRAY,
            }
        }),
{
    lemma_voltage_rows_read_their_rails(a.voltages);
    let rows = voltage_rows_view(a.voltages);
    assert(matrix_view(r)[0] == amd_blocks(r)[0]);
    let block = matrix_view(r)[0];
    assert(block.1 == sections_view(a.clocks, a.timings, a.cad_bus, a.voltages, None, false));
    assert(block.1[5] == ("Active System Voltages"@, rows));
    assert(rows[1] == ("VDDCR_SOC"@, volt_cell(a.voltages.vddcr_soc_mv)));
    assert(block.1[5].1[1] == ("VDDCR_SOC"@, volt_cell(a.voltages.vddcr_soc_mv)));
    match a.voltages.vddcr_soc_mv {
        Section::Value(mv) => {
            lemma_soc_warning_is_above_the_limit(mv);
        },
        Section::Na(_) => {
            reveal_strlit("N/A");
            assert(has_prefix("N/A"@, "N/A"@)) by {
                assert("N/A"@.subrange(0, 3) =~= "N/A"@);
            }
        },
    }
}

/// Each clock of `[Clocks & Ratios]` is shown under its own label: the
/// MCLK, UCLK and FCLK rows read the readout's own clocks, whatever the
/// gear row and the channel RTL.
pub proof fn lemma_clock_rows_read_their_clocks(c: ClockReadout, rtl: Option<Section<u16>>, gear_row: bool)
    ensures
        exists|i: int| 0 <= i < clock_rows_view(c, rtl, gear_row).len() && #[trigger] clock_rows_view(c, rtl, gear_row)[i] == ("MCLK"@, text_cell(c.mclk)),
        exists|i: int| 0 <= i < clock_rows_view(c, rtl, gear_row).len() && #[trigger] clock_rows_view(c, rtl, gear_row)[i] == ("UCLK"@, text_cell(c.uclk)),
        exists|i: int| 0 <= i < clock_rows_view(c, rtl, gear_row).len() && #[trigger] clock_rows_view(c, rtl, gear_row)[i] == ("FCLK"@, text_cell(c.fclk)),
{
    assert(clock_rows_view(c, rtl, gear_row)[0] == ("MCLK"@, text_cell(c.mclk)));
    assert(clock_rows_view(c, rtl, gear_row)[1] == ("UCLK"@, text_cell(c.uclk)));
    assert(clock_rows_view(c, rtl, gear_row)[2] == ("FCLK"@, text_cell(c.fclk)));
}

/// Every field of `[Primary Timings]` is shown, once, under its own label:
/// for each field there is a row carrying its label and its own cell.
pub proof fn lemma_primary_rows_read_their_fields(t: TimingSet)
    ensures
        primary_rows_view(t).len() == 4,
        exists|i: int| 0 <= i < 4 && #[trigger] primary_rows_view(t)[i] == ("tCL"@, ticks_view(t.cl)),
        exists|i: int| 0 <= i < 4 && #[trigger] primary_rows_view(t)[i] == ("tRCDWR"@, ticks_view(t.rcdwr)),
        exists|i: int| 0 <= i < 4 && #[trigger] primary_rows_view(t)[i] == ("tRCDRD"@, ticks_view(t.rcdrd)),
        exists|i: int| 0 <= i < 4 && #[trigger] primary_rows_view(t)[i] == ("tRP"@, ticks_view(t.rp)),
{
    assert(primary_rows_view(t)[0] == ("tCL"@, ticks_view(t.cl)));
    assert(primary_rows_view(t)[1] == ("tRCDWR"@, ticks_view(t.rcdwr)));
    assert(primary_rows_view(t)[2] == ("tRCDRD"@, ticks_view(t.rcdrd)));
    assert(primary_rows_view(t)[3] == ("tRP"@, ticks_view(t.rp)));
}

/// Every field of `[Secondary Timings]` is shown, once, under its own label:
/// for each field there is a row carrying its label and its own cell.
pub proof fn lemma_secondary_rows_read_their_fields(t: TimingSet)
    ensures
        secondary_rows_view(t).len() == 5,
        exists|i: int| 0 <= i < 5 && #[trigger] secondary_rows_view(t)[i] == ("tRAS"@, ticks_view(t.ras)),
        exists|i: int| 0 <= i < 5 && #[trigger] secondary_rows_view(t)[i] == ("tRC"@, ticks_view(t.rc)),
        exists|i: int| 0 <= i < 5 && #[trigger] secondary_rows_view(t)[i] == ("tRRDS"@, ticks_view(t.rrds)),
        exists|i: int| 0 <= i < 5 && #[trigger] secondary_rows_view(t)[i] == ("tRRLD"@, ticks_view(t.rrld)),
        exists|i: int| 0 <= i < 5 && #[trigger] secondary_rows_view(t)[i] == ("tFAW"@, ticks_view(t.faw)),
{
    assert(secondary_rows_view(t)[0] == ("tRAS"@, ticks_view(t.ras)));
    assert(secondary_rows_view(t)[1] == ("tRC"@, ticks_view(t.rc)));
    assert(secondary_rows_view(t)[2] == ("tRRDS"@, ticks_view(t.rrds)));
    assert(secondary_rows_view(t)[3] == ("tRRLD"@, ticks_view(t.rrld)));
    assert(secondary_rows_view(t)[4] == ("tFAW"@, ticks_view(t.faw)));
}

/// Every field of `[Tertiary & Turnarounds]` is shown, once, under its own label:
/// for each field there is a row carrying its label and its own cell.
pub proof fn lemma_tertiary_rows_read_their_fields(t: TimingSet)
    ensures
        tertiary_rows_view(t).len() == 18,
        exists|i: int| 0 <= i < 18 && #[trigger] tertiary_rows_view(t)[i] == ("tWTRS"@, ticks_view(t.wtrs)),
        exists|i: int| 0 <= i < 18 && #[trigger] tertiary_rows_view(t)[i] == ("tWTRL"@, ticks_view(t.wtrl)),
        exists|i: int| 0 <= i < 18 && #[trigger] tertiary_rows_view(t)[i] == ("tWR"@, ticks_view(t.wr)),
        exists|i: int| 0 <= i < 18 && #[trigger] tertiary_rows_view(t)[i] == ("tRFC1"@, ticks_view(t.rfc1)),
        exists|i: int| 0 <= i < 18 && #[trigger] tertiary_rows_view(t)[i] == ("tRFC2"@, ticks_view(t.rfc2)),
        exists|i: int| 0 <= i < 18 && #[trigger] tertiary_rows_view(t)[i] == ("tRFCsb"@, ticks_view(t.rfcsb)),
        exists|i: int| 0 <= i < 18 && #[trigger] tertiary_rows_view(t)[i] == ("tCWL"@, ticks_view(t.cwl)),
        exists|i: int| 0 <= i < 18 && #[trigger] tertiary_rows_view(t)[i] == ("tRTP"@, ticks_view(t.rtp)),
        exists|i: int| 0 <= i < 18 && #[trigger] tertiary_rows_view(t)[i] == ("tRDWR"@, ticks_view(t.rdwr)),
        exists|i: int| 0 <= i < 18 && #[trigger] tertiary_rows_view(t)[i] == ("tWRRD"@, ticks_view(t.wrrd)),
        exists|i: int| 0 <= i < 18 && #[trigger] tertiary_rows_view(t)[i] == ("tRDRD(SD)"@, ticks_view(t.rdrd_sd)),
        exists|i: int| 0 <= i < 18 && #[trigger] tertiary_rows_view(t)[i] == ("tRDRD(CCD)"@, ticks_view(t.rdrd_dd)),
        exists|i: int| 0 <= i < 18 && #[trigger] tertiary_rows_view(t)[i] == ("tRDRD(SCL)"@, ticks_view(t.rdrd_scl)),
        exists|i: int| 0 <= i < 18 && #[trigger] tertiary_rows_view(t)[i] == ("tRDRD(SC)"@, ticks_view(t.rdrd_sc)),
        exists|i: int| 0 <= i < 18 && #[trigger] tertiary_rows_view(t)[i] == ("tWRWR(SD)"@, ticks_view(t.wrwr_sd)),
        exists|i: int| 0 <= i < 18 && #[trigger] tertiary_rows_view(t)[i] == ("tWRWR(CCD)"@, ticks_view(t.wrwr_dd)),
        exists|i: int| 0 <= i < 18 && #[trigger] tertiary_rows_view(t)[i] == ("tWRWR(SCL)"@, ticks_view(t.wrwr_scl)),
        exists|i: int| 0 <= i < 18 && #[trigger] tertiary_rows_view(t)[i] == ("tWRWR(SC)"@, ticks_view(t.wrwr_sc)),
{
    assert(tertiary_rows_view(t)[0] == ("tWTRS"@, ticks_view(t.wtrs)));
    assert(tertiary_rows_view(t)[1] == ("tWTRL"@, ticks_view(t.wtrl)));
    assert(tertiary_rows_view(t)[2] == ("tWR"@, ticks_view(t.wr)));
    assert(tertiary_rows_view(t)[3] == ("tRFC1"@, ticks_view(t.rfc1)));
    assert(tertiary_rows_view(t)[4] == ("tRFC2"@, ticks_view(t.rfc2)));
    assert(tertiary_rows_view(t)[5] == ("tRFCsb"@, ticks_view(t.rfcsb)));
    assert(tertiary_rows_view(t)[6] == ("tCWL"@, ticks_view(t.cwl)));
    assert(tertiary_rows_view(t)[7] == ("tRTP"@, ticks_view(t.rtp)));
    assert(tertiary_rows_view(t)[8] == ("tRDWR"@, ticks_view(t.rdwr)));
    assert(tertiary_rows_view(t)[9] == ("tWRRD"@, ticks_view(t.wrrd)));
    assert(tertiary_rows_view(t)[10] == ("tRDRD(SD)"@, ticks_view(t.rdrd_sd)));
    assert(tertiary_rows_view(t)[11] == ("tRDRD(CCD)"@, ticks_view(t.rdrd_dd)));
    assert(tertiary_rows_view(t)[12] == ("tRDRD(SCL)"@, ticks_view(t.rdrd_scl)));
    assert(tertiary_rows_view(t)[13] == ("tRDRD(SC)"@, ticks_view(t.rdrd_sc)));
    assert(tertiary_rows_view(t)[14] == ("tWRWR(SD)"@, ticks_view(t.wrwr_sd)));
    assert(tertiary_rows_view(t)[15] == ("tWRWR(CCD)"@, ticks_view(t.wrwr_dd)));
    assert(tertiary_rows_view(t)[16] == ("tWRWR(SCL)"@, ticks_view(t.wrwr_scl)));
    assert(tertiary_rows_view(t)[17] == ("tWRWR(SC)"@, ticks_view(t.wrwr_sc)));
}

/// Every field of `[CAD Bus Drive & Termination]` is shown, once, under its own label:
/// for each field there is a row carrying its label and its own cell.
pub proof fn lemma_cad_rows_read_their_fields(c: CadBus)
    ensures
        cad_rows_view(c).len() == 8,
        exists|i: int| 0 <= i < 8 && #[trigger] cad_rows_view(c)[i] == ("proc ODT"@, text_cell(c.proc_odt)),
        exists|i: int| 0 <= i < 8 && #[trigger] cad_rows_view(c)[i] == ("RTT nom"@, rtt_view(c.rtt_nom)),
        exists|i: int| 0 <= i < 8 && #[trigger] cad_rows_view(c)[i] == ("RTT wr"@, rtt_view(c.rtt_wr)),
        exists|i: int| 0 <= i < 8 && #[trigger] cad_rows_view(c)[i] == ("RTT park"@, rtt_view(c.rtt_park)),
        exists|i: int| 0 <= i < 8 && #[trigger] cad_rows_view(c)[i] == ("CLK drive"@, text_cell(c.clk_drv)),
        exists|i: int| 0 <= i < 8 && #[trigger] cad_rows_view(c)[i] == ("ADD/CMD drive"@, text_cell(c.addr_cmd_drv)),
        exists|i: int| 0 <= i < 8 && #[trigger] cad_rows_view(c)[i] == ("CS/ODT drive"@, text_cell(c.cs_odt_drv)),
        exists|i: int| 0 <= i < 8 && #[trigger] cad_rows_view(c)[i] == ("CKE drive"@, text_cell(c.cke_drv)),
{
    assert(cad_rows_view(c)[0] == ("proc ODT"@, text_cell(c.proc_odt)));
    assert(cad_rows_view(c)[1] == ("RTT nom"@, rtt_view(c.rtt_nom)));
    assert(cad_rows_view(c)[2] == ("RTT wr"@, rtt_view(c.rtt_wr)));
    assert(cad_rows_view(c)[3] == ("RTT park"@, rtt_view(c.rtt_park)));
    assert(cad_rows_view(c)[4] == ("CLK drive"@, text_cell(c.clk_drv)));
    assert(cad_rows_view(c)[5] == ("ADD/CMD drive"@, text_cell(c.addr_cmd_drv)));
    assert(cad_rows_view(c)[6] == ("CS/ODT drive"@, text_cell(c.cs_odt_drv)));
    assert(cad_rows_view(c)[7] == ("CKE drive"@, text_cell(c.cke_drv)));
}

} // verus!
