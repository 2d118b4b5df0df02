//! The benchmark zone's decisions: the grid's row and column names, the
//! single-flight run state, the flat status line, each cell's render
//! phase, and the burn-in command.
use vstd::prelude::*;

use crate::style::{AMBER, CRIMSON, CYAN};
use crate::text::{
    chars_of, dec, dec_padded, has_prefix, owned, push_dec, push_dec_padded, push_str, starts_with,
};

verus! {

/// The burn-in duration knob's maximum, in minutes (24 h); `0` means
/// no limit.
pub const BURN_IN_MINUTES_MAX: u32 = 1440;

/// The burn-in duration knob's default, in minutes.
pub const BURN_IN_MINUTES_DEFAULT: u32 = 5;

/// One row of the benchmark grid.
#[derive(Debug, Clone, Copy, PartialEq, Eq, Structural)]
pub enum Tier {
    Memory,
    L1,
    L2,
    L3,
}

/// One column of the benchmark grid.
#[derive(Debug, Clone, Copy, PartialEq, Eq, Structural)]
pub enum Metric {
    Read,
    Write,
    Copy,
    Latency,
}

/// The display name of a grid row.
pub fn tier_name(tier: Tier) -> (t: &'static str)
    ensures
        t@ == (match tier {
            Tier::Memory => "Memory"@,
            Tier::L1 => "L1"@,
            Tier::L2 => "L2"@,
            Tier::L3 => "L3"@,
        }),
{
    match tier {
        Tier::Memory => "Memory",
        Tier::L1 => "L1",
        Tier::L2 => "L2",
        Tier::L3 => "L3",
    }
}

/// The display name of a grid column.
pub fn metric_name(metric: Metric) -> (t: &'static str)
    ensures
        t@ == (match metric {
            Metric::Read => "Read"@,
            Metric::Write => "Write"@,
            Metric::Copy => "Copy"@,
            Metric::Latency => "Latency"@,
        }),
{
    match metric {
        Metric::Read => "Read",
        Metric::Write => "Write",
        Metric::Copy => "Copy",
        Metric::Latency => "Latency",
    }
}

/// Whether any run is in flight (a normal bench or a burn-in): the run
/// buttons disable while one is, and `Cancel` shows.
pub fn run_in_flight(running: bool, burn_in_running: bool) -> (b: bool)
    ensures
        b == (running || burn_in_running),
{
    running || burn_in_running
}

/// The burn-in duration clamped to [`BURN_IN_MINUTES_MAX`].
pub fn burn_in_minutes_clamped(minutes: u32) -> (m: u32)
    ensures
        m == (if minutes <= BURN_IN_MINUTES_MAX { minutes } else { BURN_IN_MINUTES_MAX }),
{
    if minutes <= BURN_IN_MINUTES_MAX { minutes } else { BURN_IN_MINUTES_MAX }
}

/// The scope of a benchmark run.
#[derive(Debug, Clone, Copy, PartialEq, Eq, Structural)]
pub enum BenchMode {
    /// All four tiers.
    Full,
    /// The memory tier alone.
    MemoryOnly,
}

/// A run request for the poller: a full-target run of `mode`, bounded by
/// `duration_minutes` for a burn-in (`Some(0)` runs until cancelled) and
/// a single pass when `None`.
#[derive(Debug, Clone, Copy, PartialEq, Eq, Structural)]
pub struct BenchCmd {
    pub mode: BenchMode,
    pub duration_minutes: Option<u32>,
}

/// The request `Run Full` sends.
pub fn run_full_cmd() -> (c: BenchCmd)
    ensures
        c == (BenchCmd { mode: BenchMode::Full, duration_minutes: None }),
{
    BenchCmd { mode: BenchMode::Full, duration_minutes: None }
}

/// The request `Memory Only` sends.
pub fn memory_only_cmd() -> (c: BenchCmd)
    ensures
        c == (BenchCmd { mode: BenchMode::MemoryOnly, duration_minutes: None }),
{
    BenchCmd { mode: BenchMode::MemoryOnly, duration_minutes: None }
}

/// The request `Run Burn-In` sends: a full-scope run for the requested
/// minutes, clamped to [`BURN_IN_MINUTES_MAX`].
pub fn burn_in_cmd(minutes: u32) -> (c: BenchCmd)
    ensures
        c.mode == BenchMode::Full,
        c.duration_minutes == Some(if minutes <= BURN_IN_MINUTES_MAX { minutes } else { BURN_IN_MINUTES_MAX }),
{
    BenchCmd { mode: BenchMode::Full, duration_minutes: Some(burn_in_minutes_clamped(minutes)) }
}

/// The state of the flat status line.
#[derive(Debug, Clone, Copy, PartialEq, Eq, Structural)]
pub enum StatusState {
    /// No run in flight and none finished.
    Idle,
    /// A run is in flight, `elapsed_secs` whole seconds in; a burn-in
    /// carries its iteration.
    Running { elapsed_secs: u64, burn_in_iteration: Option<u32> },
    /// A run finished (a result grid or kept progress is present).
    Done,
}

/// The status of the run bookkeeping: a burn-in in flight, else a normal
/// bench in flight, is `Running` (a burn-in with its iteration); else a
/// result grid or kept progress is `Done`; else `Idle`.
pub fn status_state(
    running: bool,
    burn_in_running: bool,
    grid_present: bool,
    progress_present: bool,
    running_elapsed_secs: u64,
    burn_in_iteration: u32,
) -> (s: StatusState)
    ensures
        s == (if burn_in_running {
            StatusState::Running { elapsed_secs: running_elapsed_secs, burn_in_iteration: Some(burn_in_iteration) }
        } else if running {
            StatusState::Running { elapsed_secs: running_elapsed_secs, burn_in_iteration: None }
        } else if grid_present || progress_present {
            StatusState::Done
        } else {
            StatusState::Idle
        }),
{
    if burn_in_running {
        StatusState::Running { elapsed_secs: running_elapsed_secs, burn_in_iteration: Some(burn_in_iteration) }
    } else if running {
        StatusState::Running { elapsed_secs: running_elapsed_secs, burn_in_iteration: None }
    } else if grid_present || progress_present {
        StatusState::Done
    } else {
        StatusState::Idle
    }
}

/// Whole seconds as `m:ss`: the minutes unpadded, the seconds two digits.
pub open spec fn elapsed_view(total: nat) -> Seq<char> {
    dec(total / 60) + ":"@ + dec_padded(total % 60, 2)
}

/// Appends whole seconds as `m:ss`.
fn push_elapsed(s: &mut String, total: u64)
    ensures
        final(s)@ == old(s)@ + elapsed_view(total as nat),
{
    push_dec(s, total / 60);
    push_str(s, ":");
    push_dec_padded(s, total % 60, 2);
    assert(s@ =~= old(s)@ + elapsed_view(total as nat));
}

/// A run's elapsed whole seconds as `m:ss` (`0:42`, `61:05`).
pub fn format_elapsed(total: u64) -> (t: String)
    ensures
        t@ == elapsed_view(total as nat),
{
    let mut t = String::new();
    push_elapsed(&mut t, total);
    assert(t@ =~= elapsed_view(total as nat));
    t
}

/// The status line's text.
pub open spec fn status_view(s: StatusState) -> Seq<char> {
    match s {
        StatusState::Idle => "Status: Idle"@,
        StatusState::Running { elapsed_secs, burn_in_iteration } => match burn_in_iteration {
            Some(i) => "Status: Running… (burn-in "@ + elapsed_view(elapsed_secs as nat) + ", iter "@
                + dec(i as nat) + ")"@,
            None => "Status: Running… "@ + elapsed_view(elapsed_secs as nat),
        },
        StatusState::Done => "Status: Done"@,
    }
}

/// The status line: `Status: Idle`, `Status: Running… <m:ss>`,
/// `Status: Running… (burn-in <m:ss>, iter <n>)`, or `Status: Done`.
pub fn status_text(state: StatusState) -> (t: String)
    ensures
        t@ == status_view(state),
{
    match state {
        StatusState::Idle => owned("Status: Idle"),
        StatusState::Running { elapsed_secs, burn_in_iteration } => match burn_in_iteration {
            Some(i) => {
                let mut t = owned("Status: Running… (burn-in ");
                push_elapsed(&mut t, elapsed_secs);
                push_str(&mut t, ", iter ");
                push_dec(&mut t, i as u64);
                push_str(&mut t, ")");
                assert(t@ =~= status_view(state));
                t
            },
            None => {
                let mut t = owned("Status: Running… ");
                push_elapsed(&mut t, elapsed_secs);
                assert(t@ =~= status_view(state));
                t
            },
        },
        StatusState::Done => owned("Status: Done"),
    }
}

/// One grid cell's render phase.
#[derive(Debug, Clone, Copy, PartialEq, Eq, Structural)]
pub enum CellPhase {
    /// No run in flight: the result grid's value.
    Terminal,
    /// A run in flight and a live value for the cell.
    Live,
    /// A run in flight and no live value yet.
    NotStarted,
}

/// A cell's phase: `Terminal` outside a run; within one, `Live` when the
/// live grid has measured the cell, else `NotStarted`.
pub fn cell_phase(in_flight: bool, live_measured: bool) -> (p: CellPhase)
    ensures
        p == (if !in_flight {
            CellPhase::Terminal
        } else if live_measured {
            CellPhase::Live
        } else {
            CellPhase::NotStarted
        }),
{
    if !in_flight {
        CellPhase::Terminal
    } else if live_measured {
        CellPhase::Live
    } else {
        CellPhase::NotStarted
    }
}


/// The `Status: Done` line's green.
pub const STATUS_DONE: u32 = 0x2E9E5B;

/// The status line's color: the caller's dim idle color, CYAN while a
/// run is in flight, green once one finished.
pub fn status_color(state: StatusState, idle_color: u32) -> (c: u32)
    ensures
        c == (match state {
            StatusState::Idle => idle_color,
            StatusState::Running { .. } => CYAN,
            StatusState::Done => STATUS_DONE,
        }),
{
    match state {
        StatusState::Idle => idle_color,
        StatusState::Running { .. } => CYAN,
        StatusState::Done => STATUS_DONE,
    }
}

/// A terminal grid cell's color: CRIMSON for an unmeasured cell (its
/// display starts with `N/A`), AMBER for a latency value, CYAN for a
/// bandwidth value.
pub open spec fn cell_hue(metric: Metric, display: Seq<char>) -> u32 {
    if has_prefix(display, "N/A"@) {
        CRIMSON
    } else if metric == Metric::Latency {
        AMBER
    } else {
        CYAN
    }
}

/// The color of a terminal grid cell (see [`cell_hue`]).
pub fn cell_color(metric: Metric, display: &str) -> (c: u32)
    ensures
        c == cell_hue(metric, display@),
{
    let cs = chars_of(display);
    let na = chars_of("N/A");
    if starts_with(&cs, &na) {
        CRIMSON
    } else {
        match metric {
            Metric::Latency => AMBER,
            _ => CYAN,
        }
    }
}

/// The live burn-in row: `Burn-in: iteration <n> · <m:ss> elapsed ·
/// Memory Read <read> · <latency>`, present only while a burn-in runs.
pub open spec fn burn_in_view(
    running: bool,
    iteration: u32,
    elapsed_secs: u64,
    read: Seq<char>,
    latency: Seq<char>,
) -> Option<Seq<char>> {
    if running {
        Some(
            "Burn-in: iteration "@ + dec(iteration as nat) + " · "@ + elapsed_view(elapsed_secs as nat)
                + " elapsed · Memory Read "@ + read + " · "@ + latency,
        )
    } else {
        None
    }
}

/// The live burn-in row over the newest tick: its iteration, its elapsed
/// whole seconds, and the memory tier's read and latency cell texts.
pub fn burn_in_row(
    running: bool,
    iteration: u32,
    elapsed_secs: u64,
    read: &str,
    latency: &str,
) -> (r: Option<String>)
    ensures
        match r {
            Some(t) => burn_in_view(running, iteration, elapsed_secs, read@, latency@) == Some(t@),
            None => burn_in_view(running, iteration, elapsed_secs, read@, latency@) is None,
        },
{
    if !running {
        return None;
    }
    let mut t = owned("Burn-in: iteration ");
    push_dec(&mut t, iteration as u64);
    push_str(&mut t, " · ");
    push_elapsed(&mut t, elapsed_secs);
    push_str(&mut t, " elapsed · Memory Read ");
    push_str(&mut t, read);
    push_str(&mut t, " · ");
    push_str(&mut t, latency);
    Some(t)
}

/// The normal run's start stamp after one frame: kept (or taken from
/// this frame's clock reading `now` when there is none yet) while a
/// normal bench is in flight, cleared once it is not.
pub open spec fn run_start_step<T>(stamp: Option<T>, running: bool, now: T) -> Option<T> {
    if running {
        match stamp {
            Some(t) => Some(t),
            None => Some(now),
        }
    } else {
        None
    }
}

/// Stamps or clears the normal run's start for this frame's run state,
/// returning the start while a normal bench is in flight: the first
/// in-flight frame's reading, kept until the run ends.
pub fn track_run_start<T: Copy>(stamp: &mut Option<T>, running: bool, now: T) -> (r: Option<T>)
    ensures
        *final(stamp) == run_start_step(*old(stamp), running, now),
        r == *final(stamp),
{
    if running {
        let start = match *stamp {
            Some(t) => t,
            None => now,
        };
        *stamp = Some(start);
        Some(start)
    } else {
        *stamp = None;
        None
    }
}

/// A measured cell's color follows its column alone: AMBER exactly for a
/// latency cell, CYAN for the Read, Write and Copy bandwidths; an
/// unmeasured cell is CRIMSON in every column.
pub proof fn lemma_cell_colors_follow_the_column(metric: Metric, display: Seq<char>)
    ensures
        !has_prefix(display, "N/A"@) ==> (cell_hue(metric, display) == AMBER <==> metric == Metric::Latency),
        !has_prefix(display, "N/A"@) && (metric == Metric::Read || metric == Metric::Write || metric
            == Metric::Copy) ==> cell_hue(metric, display) == CYAN,
        has_prefix(display, "N/A"@) ==> cell_hue(metric, display) == CRIMSON,
{
}

} // verus!
