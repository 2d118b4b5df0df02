//! The graphs window's state and decisions: the sample ring, which hwmon
//! device feeds the CPU temperature, the supported time windows, and the
//! `Poll` combo's text.
use vstd::prelude::*;

use crate::history::RingBuffer;

use crate::text::{
    chars_of, dec, dec_padded, eq_ascii_fold, eq_ignore_ascii_case, owned, push_dec, push_dec_padded,
    push_str, string_of, trim, trimmed,
};

verus! {

/// The graph depth: 1800 samples, an hour at the default 2 s poll.
pub const GRAPH_CAPACITY: usize = 1800;

/// The default time window, in minutes.
pub const DEFAULT_WINDOW_MINUTES: u32 = 5;

/// The graphs window's state: one ring of samples at the
/// [`GRAPH_CAPACITY`] depth, oldest first, the oldest evicted once full.
#[derive(Debug, Clone)]
pub struct GraphState<S> {
    pub samples: RingBuffer<S>,
}

impl<S> GraphState<S> {
    /// The ring is a valid buffer.
    pub open spec fn wf(&self) -> bool {
        self.samples.wf()
    }

    /// The number of stored samples.
    pub fn len(&self) -> (n: usize)
        requires
            self.wf(),
        ensures
            n == self.samples@.len(),
    {
        self.samples.len()
    }

    /// Whether no sample has been recorded.
    pub fn is_empty(&self) -> (b: bool)
        requires
            self.wf(),
        ensures
            b == (self.samples@.len() == 0),
    {
        self.samples.is_empty()
    }
}

impl<S> Default for GraphState<S> {
    /// An empty ring at the [`GRAPH_CAPACITY`] depth.
    fn default() -> (g: Self)
        ensures
            g.wf(),
            g.samples.cap() == GRAPH_CAPACITY,
            g.samples@ == Seq::<S>::empty(),
    {
        GraphState { samples: RingBuffer::with_capacity(GRAPH_CAPACITY) }
    }
}

/// The trimmed text of the first name in `names` that matches `target`
/// without regard to ASCII case, after trimming.
pub open spec fn first_match(names: Seq<Seq<char>>, target: Seq<char>) -> Option<Seq<char>>
    decreases names.len(),
{
    if names.len() == 0 {
        None
    } else {
        match first_match(names.drop_last(), target) {
            Some(n) => Some(n),
            None => if eq_ascii_fold(trimmed(names.last()), target) {
                Some(trimmed(names.last()))
            } else {
                None
            },
        }
    }
}

/// The hwmon device chosen for the CPU temperature: the first `k10temp`,
/// else the first `zenpower`, else none (matched by name, trimmed and
/// without regard to ASCII case).
pub open spec fn hwmon_choice(names: Seq<Seq<char>>) -> Option<Seq<char>> {
    match first_match(names, "k10temp"@) {
        Some(n) => Some(n),
        None => first_match(names, "zenpower"@),
    }
}

/// The text of each name.
pub open spec fn names_view(names: Seq<&str>) -> Seq<Seq<char>> {
    names.map_values(|n: &str| n@)
}

/// Picks the hwmon device for the CPU temperature by name: `k10temp`
/// wins over `zenpower`, the first of each counts; the name comes back
/// trimmed.
pub fn select_hwmon_dir(names: &[&str]) -> (r: Option<String>)
    ensures
        match r {
            Some(s) => hwmon_choice(names_view(names@)) == Some(s@),
            None => hwmon_choice(names_view(names@)) is None,
        },
{
    let ghost all = names_view(names@);
    let k10 = chars_of("k10temp");
    let zen = chars_of("zenpower");
    let mut zenpower: Option<Vec<char>> = None;
    let mut i: usize = 0;
    while i < names.len()
        invariant
            i <= names@.len(),
            all == names_view(names@),
            k10@ == "k10temp"@,
            zen@ == "zenpower"@,
            first_match(all.take(i as int), "k10temp"@) is None,
            match zenpower {
                Some(z) => first_match(all.take(i as int), "zenpower"@) == Some(z@),
                None => first_match(all.take(i as int), "zenpower"@) is None,
            },
        decreases names.len() - i,
    {
        let t = trim(&chars_of(names[i]));
        proof {
            assert(all.take(i + 1).drop_last() =~= all.take(i as int));
            assert(all.take(i + 1).last() == names@[i as int]@);
        }
        if eq_ignore_ascii_case(&t, &k10) {
            proof {
                assert(first_match(all.take(i + 1), "k10temp"@) == Some(t@));
                lemma_first_match_prefix(all, "k10temp"@, i + 1);
            }
            return Some(string_of(&t));
        }
        if zenpower.is_none() && eq_ignore_ascii_case(&t, &zen) {
            zenpower = Some(t);
        }
        i = i + 1;
    }
    assert(all.take(i as int) =~= all);
    match zenpower {
        Some(z) => Some(string_of(&z)),
        None => None,
    }
}

/// A match found in a prefix is the match of the whole list.
pub proof fn lemma_first_match_prefix(names: Seq<Seq<char>>, target: Seq<char>, k: int)
    requires
        0 <= k <= names.len(),
        first_match(names.take(k), target) is Some,
    ensures
        first_match(names, target) == first_match(names.take(k), target),
    decreases names.len() - k,
{
    if k < names.len() {
        assert(names.take(k + 1).drop_last() =~= names.take(k));
        lemma_first_match_prefix(names, target, k + 1);
    } else {
        assert(names.take(k) =~= names);
    }
}

/// A supported time window in seconds: 1, 5, 15 or 60 minutes; any
/// other value falls back to the default five minutes.
pub fn window_seconds_for(minutes: u32) -> (s: u64)
    ensures
        s == (if minutes == 1 || minutes == 5 || minutes == 15 || minutes == 60 {
            minutes * 60
        } else {
            DEFAULT_WINDOW_MINUTES * 60
        }),
{
    if minutes == 1 {
        60
    } else if minutes == 5 {
        300
    } else if minutes == 15 {
        900
    } else if minutes == 60 {
        3600
    } else {
        300
    }
}

/// The `Poll` combo's text for a poll interval: the preset's label, or
/// the exact figure in ms.
pub open spec fn poll_view(ms: u64) -> Seq<char> {
    if ms == 500 {
        "0.5 s"@
    } else if ms == 1000 {
        "1 s"@
    } else if ms == 2000 {
        "2 s"@
    } else if ms == 5000 {
        "5 s"@
    } else if ms == 10000 {
        "10 s"@
    } else {
        dec(ms as nat) + " ms"@
    }
}

/// The `Poll` combo's selected text: `0.5 s`, `1 s`, `2 s`, `5 s` or
/// `10 s` for the presets, `<ms> ms` for any other interval.
pub fn poll_interval_display(ms: u64) -> (t: String)
    ensures
        t@ == poll_view(ms),
{
    if ms == 500 {
        owned("0.5 s")
    } else if ms == 1000 {
        owned("1 s")
    } else if ms == 2000 {
        owned("2 s")
    } else if ms == 5000 {
        owned("5 s")
    } else if ms == 10000 {
        owned("10 s")
    } else {
        let mut t = String::new();
        push_dec(&mut t, ms);
        push_str(&mut t, " ms");
        assert(t@ =~= poll_view(ms));
        t
    }
}

/// The UTC time of day of whole unix seconds, `HH:MM:SS`: the crosshair
/// tooltip's first line.
pub open spec fn time_of_day_view(secs: nat) -> Seq<char> {
    dec_padded(secs / 3600 % 24, 2) + ":"@ + dec_padded(secs / 60 % 60, 2) + ":"@ + dec_padded(
        secs % 60,
        2,
    )
}

/// The crosshair tooltip's time of day for a sample at `secs` whole
/// unix seconds.
pub fn time_of_day(secs: u64) -> (t: String)
    ensures
        t@ == time_of_day_view(secs as nat),
{
    let mut t = String::new();
    push_dec_padded(&mut t, secs / 3600 % 24, 2);
    push_str(&mut t, ":");
    push_dec_padded(&mut t, secs / 60 % 60, 2);
    push_str(&mut t, ":");
    push_dec_padded(&mut t, secs % 60, 2);
    assert(t@ =~= time_of_day_view(secs as nat));
    t
}

} // verus!
