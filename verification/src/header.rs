//! The header's second and third lines: the CPU and platform identity,
//! the RAM summary with its channel label, and the mode segment with its
//! color.
//!
//! Fractional figures (the clocks, the capacities, the per-DIMM size
//! groups) arrive already rendered in the user's units; the selection,
//! ordering and composition of the segments are decided here.
use vstd::prelude::*;

use crate::model::Section;
use crate::shell::{age_fragment, age_view, channel_label, channel_mode};
use crate::status::{push_text_cell, text_cell, SpdModule};
use crate::style::{AMBER, CRIMSON, CYAN};
use crate::telemetry::{ChannelMode, DivMode, IntelReadout};
use crate::text::{dec, owned, push_dec, push_str};

verus! {

/// What the CPU line reads of a snapshot.
#[derive(Debug, Clone, PartialEq, Eq)]
pub struct PlatformFacts {
    /// The CPUID brand string.
    pub brand: String,
    /// The platform clock, rendered in the selected clock unit.
    pub cpu_clock: Section<String>,
    pub motherboard: Section<String>,
    pub bios: Section<String>,
    /// A true AGESA version.
    pub agesa: Section<String>,
    /// The SMU firmware version.
    pub smu_version: Section<String>,
}

/// What the RAM line reads of a snapshot besides the SPD modules and the
/// Intel readout.
#[derive(Debug, Clone, PartialEq, Eq)]
pub struct RamFacts {
    /// The OS total, rendered in the selected capacity unit.
    pub total_capacity: Section<String>,
    /// The per-DIMM breakdown (`2x16 GiB Single-Rank`), rendered.
    pub dimm_summary: String,
    /// The number of SPD-visible DIMM slots.
    pub dimm_count: usize,
    /// The total-vs-breakdown note, present when the OS total exceeds
    /// the SPD-visible sum.
    pub slot_note: Option<String>,
}

/// The AMD clocks the mode segment reads.
#[derive(Debug, Clone, PartialEq, Eq)]
pub struct SyncClocks {
    /// The UCLK:MCLK divide mode.
    pub div_mode: Section<DivMode>,
    /// MCLK, rendered in the selected clock unit.
    pub mclk: Section<String>,
}

/// Line 2: `CPU: <brand> @ <clock> | Motherboard: <board> (BIOS: <bios>,
/// <provenance>)`.
pub open spec fn cpu_line_view(p: PlatformFacts) -> Seq<char> {
    "CPU: "@ + p.brand@ + " @ "@ + text_cell(p.cpu_clock) + " | Motherboard: "@ + text_cell(
        p.motherboard,
    ) + " (BIOS: "@ + text_cell(p.bios) + ", "@ + age_view(p.agesa, p.smu_version) + ")"@
}

/// The header's CPU line.
pub fn cpu_line_text(p: &PlatformFacts) -> (t: String)
    ensures
        t@ == cpu_line_view(*p),
{
    let mut t = owned("CPU: ");
    push_str(&mut t, p.brand.as_str());
    push_str(&mut t, " @ ");
    push_text_cell(&mut t, &p.cpu_clock);
    push_str(&mut t, " | Motherboard: ");
    push_text_cell(&mut t, &p.motherboard);
    push_str(&mut t, " (BIOS: ");
    push_text_cell(&mut t, &p.bios);
    push_str(&mut t, ", ");
    let age = age_fragment(&p.agesa, &p.smu_version);
    push_str(&mut t, age.as_str());
    push_str(&mut t, ")");
    t
}

/// The fastest base data rate among the modules that carry one.
pub open spec fn top_speed(spd: Seq<SpdModule>) -> Option<u16>
    decreases spd.len(),
{
    if spd.len() == 0 {
        None
    } else {
        let rest = top_speed(spd.drop_last());
        match spd.last().speed_mts {
            Section::Value(v) => match rest {
                Some(m) => if v > m { Some(v) } else { Some(m) },
                None => Some(v),
            },
            Section::Na(_) => rest,
        }
    }
}

/// `top_speed` is absent exactly when no module carries a speed, and
/// otherwise is one module's speed and at least every module's speed.
pub proof fn lemma_top_speed_is_the_maximum(spd: Seq<SpdModule>)
    ensures
        top_speed(spd) is None <==> forall|i: int|
            0 <= i < spd.len() ==> (#[trigger] spd[i]).speed_mts is Na,
        top_speed(spd) matches Some(m) ==> exists|i: int|
            0 <= i < spd.len() && (#[trigger] spd[i]).speed_mts == Section::<u16>::Value(m),
        top_speed(spd) matches Some(m) ==> forall|i: int|
            0 <= i < spd.len() && (#[trigger] spd[i]).speed_mts is Value ==> spd[i].speed_mts->Value_0
                <= m,
    decreases spd.len(),
{
    if spd.len() > 0 {
        let init = spd.drop_last();
        lemma_top_speed_is_the_maximum(init);
        assert forall|i: int| 0 <= i < init.len() implies init[i] == spd[i] by {}
        let last = spd.len() - 1;
        assert(spd[last] == spd.last());
        if top_speed(init) is None && spd.last().speed_mts is Na {
            assert forall|i: int| 0 <= i < spd.len() implies (#[trigger] spd[i]).speed_mts is Na by {
                if i < last {
                    assert(init[i] == spd[i]);
                }
            }
        }
        if let Some(m) = top_speed(spd) {
            if spd.last().speed_mts == Section::<u16>::Value(m) {
                assert(spd[last].speed_mts == Section::<u16>::Value(m));
            } else {
                let j = choose|j: int|
                    0 <= j < init.len() && (#[trigger] init[j]).speed_mts == Section::<u16>::Value(
                        m,
                    );
                assert(spd[j] == init[j]);
            }
            assert forall|i: int|
                0 <= i < spd.len() && (#[trigger] spd[i]).speed_mts is Value implies spd[i].speed_mts->Value_0
                <= m by {
                if i < last {
                    assert(init[i] == spd[i]);
                }
            }
        }
    }
}

/// The fastest SPD base data rate, when any module carries one.
pub fn max_speed(spd: &[SpdModule]) -> (m: Option<u16>)
    ensures
        m == top_speed(spd@),
{
    let mut best: Option<u16> = None;
    let mut i: usize = 0;
    while i < spd.len()
        invariant
            i <= spd.len(),
            best == top_speed(spd@.take(i as int)),
        decreases spd.len() - i,
    {
        assert(spd@.take(i as int + 1).drop_last() =~= spd@.take(i as int));
        assert(spd@.take(i as int + 1).last() == spd@[i as int]);
        match &spd[i].speed_mts {
            Section::Value(v) => {
                best = match best {
                    Some(b) => if *v > b { Some(*v) } else { Some(b) },
                    None => Some(*v),
                };
            },
            Section::Na(_) => {},
        }
        i = i + 1;
    }
    assert(spd@.take(spd.len() as int) =~= spd@);
    best
}

/// The channel label the header shows: the hardware configuration's
/// label when the Intel controller reports one, else the label of the
/// SPD-visible DIMM count.
pub open spec fn hardware_label(intel: Section<IntelReadout>, dimm_count: nat) -> Seq<char> {
    match intel {
        Section::Value(r) => match r.channel_mode {
            Some(h) => h.label@,
            None => channel_label(dimm_count),
        },
        Section::Na(_) => channel_label(dimm_count),
    }
}

/// Line 3 up to the mode segment: `RAM: <total> (<breakdown>)`, the
/// fastest SPD speed as ` <n> MT/s` when a module carries one, ` | ` and
/// the channel label, ` | ` and the slot note when there is one, and the
/// ` | Mode: ` lead-in.
pub open spec fn ram_line_view(f: RamFacts, spd: Seq<SpdModule>, intel: Section<IntelReadout>) -> Seq<
    char,
> {
    "RAM: "@ + text_cell(f.total_capacity) + " ("@ + f.dimm_summary@ + ")"@ + speed_part(
        top_speed(spd),
    ) + " | "@ + hardware_label(intel, f.dimm_count as nat) + note_part(f.slot_note)
        + " | Mode: "@
}

/// The speed segment: ` <n> MT/s`, or nothing.
pub open spec fn speed_part(m: Option<u16>) -> Seq<char> {
    match m {
        Some(v) => " "@ + dec(v as nat) + " MT/s"@,
        None => Seq::<char>::empty(),
    }
}

/// The slot-note segment: ` | <note>`, or nothing.
pub open spec fn note_part(n: Option<String>) -> Seq<char> {
    match n {
        Some(v) => " | "@ + v@,
        None => Seq::<char>::empty(),
    }
}

/// The header's channel label (see [`hardware_label`]).
pub fn channel_text(intel: &Section<IntelReadout>, dimm_count: usize) -> (t: String)
    ensures
        t@ == hardware_label(*intel, dimm_count as nat),
{
    match intel {
        Section::Value(r) => match &r.channel_mode {
            Some(h) => h.label.clone(),
            None => channel_mode(dimm_count),
        },
        Section::Na(_) => channel_mode(dimm_count),
    }
}

/// The header's RAM line up to the mode segment.
pub fn ram_line_prefix(f: &RamFacts, spd: &[SpdModule], intel: &Section<IntelReadout>) -> (t:
    String)
    ensures
        t@ == ram_line_view(*f, spd@, *intel),
{
    let mut t = owned("RAM: ");
    push_text_cell(&mut t, &f.total_capacity);
    push_str(&mut t, " (");
    push_str(&mut t, f.dimm_summary.as_str());
    push_str(&mut t, ")");
    let ghost head = t@;
    match max_speed(spd) {
        Some(m) => {
            push_str(&mut t, " ");
            push_dec(&mut t, m as u64);
            push_str(&mut t, " MT/s");
        },
        None => {},
    }
    let ghost with_speed = t@;
    push_str(&mut t, " | ");
    let channel = channel_text(intel, f.dimm_count);
    push_str(&mut t, channel.as_str());
    let ghost with_channel = t@;
    match &f.slot_note {
        Some(n) => {
            push_str(&mut t, " | ");
            push_str(&mut t, n.as_str());
        },
        None => {},
    }
    let ghost with_note = t@;
    push_str(&mut t, " | Mode: ");
    proof {
        assert(with_speed =~= head + speed_part(top_speed(spd@)));
        assert(with_note =~= head + speed_part(top_speed(spd@)) + " | "@ + hardware_label(
            *intel,
            f.dimm_count as nat,
        ) + note_part(f.slot_note));
    }
    t
}

/// The AMD ratio segment: `Synchronous 1:1` (with the MCLK when it is
/// known) in amber, `Asynchronous 1:2` in crimson, or `N/A` in the default
/// text color (`None`).
pub open spec fn sync_view(c: SyncClocks) -> (Seq<char>, Option<u32>) {
    match c.div_mode {
        Section::Value(DivMode::OneToOne) => (
            match c.mclk {
                Section::Value(m) => "Synchronous 1:1 (UCLK = MCLK = "@ + m@ + ")"@,
                Section::Na(_) => "Synchronous 1:1"@,
            },
            Some(AMBER),
        ),
        Section::Value(DivMode::OneToTwo) => ("Asynchronous 1:2"@, Some(CRIMSON)),
        Section::Na(_) => ("N/A"@, None),
    }
}

/// The ratio segment over the AMD clocks.
pub fn sync_mode_from_clocks(c: &SyncClocks) -> (r: (String, Option<u32>))
    ensures
        (r.0@, r.1) == sync_view(*c),
{
    match &c.div_mode {
        Section::Value(DivMode::OneToOne) => {
            let text = match &c.mclk {
                Section::Value(m) => {
                    let mut t = owned("Synchronous 1:1 (UCLK = MCLK = ");
                    push_str(&mut t, m.as_str());
                    push_str(&mut t, ")");
                    t
                },
                Section::Na(_) => owned("Synchronous 1:1"),
            };
            (text, Some(AMBER))
        },
        Section::Value(DivMode::OneToTwo) => (owned("Asynchronous 1:2"), Some(CRIMSON)),
        Section::Na(_) => (owned("N/A"), None),
    }
}

/// The ratio segment of a snapshot: the AMD clocks' segment, or `N/A`
/// when the AMD branch is absent.
pub open spec fn amd_sync_view(amd: Section<SyncClocks>) -> (Seq<char>, Option<u32>) {
    match amd {
        Section::Value(c) => sync_view(c),
        Section::Na(_) => ("N/A"@, None),
    }
}

/// The ratio segment of a snapshot.
pub fn sync_mode(amd: &Section<SyncClocks>) -> (r: (String, Option<u32>))
    ensures
        (r.0@, r.1) == amd_sync_view(*amd),
{
    match amd {
        Section::Value(c) => sync_mode_from_clocks(c),
        Section::Na(_) => (owned("N/A"), None),
    }
}

/// The interleave color: cyan for a symmetric dual channel, amber for
/// Flex Mode, the default text color for a single channel.
pub open spec fn interleave_color(mode: ChannelMode) -> Option<u32> {
    match mode {
        ChannelMode::DualSymmetric => Some(CYAN),
        ChannelMode::DualFlex => Some(AMBER),
        ChannelMode::Single => None,
    }
}

/// The Intel mode segment: the hardware configuration's interleave
/// label and color, when the Intel controller reports a configuration.
pub open spec fn intel_view(intel: Section<IntelReadout>) -> Option<(Seq<char>, Option<u32>)> {
    match intel {
        Section::Value(r) => match r.channel_mode {
            Some(h) => Some((h.mode_label@, interleave_color(h.mode))),
            None => None,
        },
        Section::Na(_) => None,
    }
}

/// The Intel mode segment, when there is one.
pub fn intel_mode(intel: &Section<IntelReadout>) -> (r: Option<(String, Option<u32>)>)
    ensures
        match r {
            Some(p) => intel_view(*intel) == Some((p.0@, p.1)),
            None => intel_view(*intel) is None,
        },
{
    match intel {
        Section::Value(ro) => match &ro.channel_mode {
            Some(h) => {
                let color = match h.mode {
                    ChannelMode::DualSymmetric => Some(CYAN),
                    ChannelMode::DualFlex => Some(AMBER),
                    ChannelMode::Single => None,
                };
                Some((h.mode_label.clone(), color))
            },
            None => None,
        },
        Section::Na(_) => None,
    }
}

/// The mode segment of line 3: the Intel hardware configuration takes
/// the slot when reported, else the AMD ratio segment.
pub open spec fn mode_view(intel: Section<IntelReadout>, amd: Section<SyncClocks>) -> (
    Seq<char>,
    Option<u32>,
) {
    match intel_view(intel) {
        Some(v) => v,
        None => amd_sync_view(amd),
    }
}

/// The header's mode segment and its color.
pub fn mode_segment(intel: &Section<IntelReadout>, amd: &Section<SyncClocks>) -> (r: (
    String,
    Option<u32>,
))
    ensures
        (r.0@, r.1) == mode_view(*intel, *amd),
{
    match intel_mode(intel) {
        Some(p) => p,
        None => sync_mode(amd),
    }
}

} // verus!
