//! The dashboard's in-memory settings: the daemon socket, the poll
//! cadence, the display units, the theme, and the refresh switch.
use vstd::prelude::*;

use crate::shell::{GuiArgs, DEFAULT_SOCKET_PATH};
use crate::text::owned;

verus! {

/// The default telemetry poll cadence, in milliseconds.
pub const DEFAULT_POLL_INTERVAL_MS: u64 = 2000;

/// The capacity display unit (the wire carries GiB).
#[derive(Debug, Clone, Copy, PartialEq, Eq, Structural)]
pub enum CapacityUnit {
    /// Binary gibibytes, the wire's own unit.
    GiB,
    /// Decimal gigabytes.
    GB,
}

/// The clock display unit (the wire carries MHz).
#[derive(Debug, Clone, Copy, PartialEq, Eq, Structural)]
pub enum ClockUnit {
    /// Megahertz, the wire's own unit.
    MHz,
    /// Gigahertz.
    GHz,
}

/// The display units: one knob per dimension.
#[derive(Debug, Clone, Copy, PartialEq, Eq, Structural)]
pub struct Units {
    /// The capacity unit.
    pub capacity: CapacityUnit,
    /// The clock unit.
    pub clock: ClockUnit,
}

/// The app theme (dark slate is the only one).
#[derive(Debug, Clone, Copy, PartialEq, Eq, Structural)]
pub enum Theme {
    /// The dark-slate theme.
    DarkSlate,
}

impl Default for CapacityUnit {
    /// GiB, the wire's own unit.
    fn default() -> (u: Self)
        ensures
            u == CapacityUnit::GiB,
    {
        CapacityUnit::GiB
    }
}

impl Default for ClockUnit {
    /// MHz, the wire's own unit.
    fn default() -> (u: Self)
        ensures
            u == ClockUnit::MHz,
    {
        ClockUnit::MHz
    }
}

impl Default for Units {
    /// GiB and MHz.
    fn default() -> (u: Self)
        ensures
            u == (Units { capacity: CapacityUnit::GiB, clock: ClockUnit::MHz }),
    {
        Units { capacity: CapacityUnit::GiB, clock: ClockUnit::MHz }
    }
}

impl Default for Theme {
    /// Dark slate.
    fn default() -> (t: Self)
        ensures
            t == Theme::DarkSlate,
    {
        Theme::DarkSlate
    }
}

/// The configurable knobs the settings panel edits.
#[derive(Debug, Clone, PartialEq, Eq)]
pub struct GuiSettings {
    /// The daemon Unix socket.
    pub socket: String,
    /// The telemetry poll cadence, in milliseconds.
    pub poll_interval_ms: u64,
    /// The display units.
    pub units: Units,
    /// The app theme.
    pub theme: Theme,
    /// Whether the poller refreshes telemetry at all.
    pub refresh_enabled: bool,
}

impl Default for GuiSettings {
    /// The default socket, a 2 s poll, GiB and MHz, dark slate, refresh on.
    fn default() -> (s: Self)
        ensures
            s.socket@ == DEFAULT_SOCKET_PATH@,
            s.poll_interval_ms == DEFAULT_POLL_INTERVAL_MS,
            s.units == (Units { capacity: CapacityUnit::GiB, clock: ClockUnit::MHz }),
            s.theme == Theme::DarkSlate,
            s.refresh_enabled,
    {
        GuiSettings {
            socket: owned(DEFAULT_SOCKET_PATH),
            poll_interval_ms: DEFAULT_POLL_INTERVAL_MS,
            units: Units { capacity: CapacityUnit::GiB, clock: ClockUnit::MHz },
            theme: Theme::DarkSlate,
            refresh_enabled: true,
        }
    }
}

/// The settings seeded from the command line: the `--socket` argument,
/// refresh off (one baseline fetch on connect; the Settings panel turns
/// polling on), every other knob at its default.
pub fn seed_settings(args: &GuiArgs) -> (s: GuiSettings)
    ensures
        s.socket@ == args.socket@,
        s.poll_interval_ms == DEFAULT_POLL_INTERVAL_MS,
        s.units == (Units { capacity: CapacityUnit::GiB, clock: ClockUnit::MHz }),
        s.theme == Theme::DarkSlate,
        !s.refresh_enabled,
{
    GuiSettings {
        socket: owned(args.socket.as_str()),
        poll_interval_ms: DEFAULT_POLL_INTERVAL_MS,
        units: Units { capacity: CapacityUnit::GiB, clock: ClockUnit::MHz },
        theme: Theme::DarkSlate,
        refresh_enabled: false,
    }
}

/// The capacity combo's entry text.
pub fn capacity_unit_label(unit: CapacityUnit) -> (t: &'static str)
    ensures
        t@ == (match unit {
            CapacityUnit::GiB => "GiB (binary)"@,
            CapacityUnit::GB => "GB (decimal)"@,
        }),
{
    match unit {
        CapacityUnit::GiB => "GiB (binary)",
        CapacityUnit::GB => "GB (decimal)",
    }
}

/// The clock combo's entry text.
pub fn clock_unit_label(unit: ClockUnit) -> (t: &'static str)
    ensures
        t@ == (match unit {
            ClockUnit::MHz => "MHz"@,
            ClockUnit::GHz => "GHz"@,
        }),
{
    match unit {
        ClockUnit::MHz => "MHz",
        ClockUnit::GHz => "GHz",
    }
}

/// The theme combo's entry text.
pub fn theme_label(theme: Theme) -> (t: &'static str)
    ensures
        t@ == "Dark Slate"@,
{
    match theme {
        Theme::DarkSlate => "Dark Slate",
    }
}

} // verus!
