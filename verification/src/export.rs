//! What the F2 / F3 actions export: which file, under which name. The
//! app writes it into the user's directory.
use vstd::prelude::*;

use crate::error::{error_text, GuiError};
use crate::model::TelemetryData;
use crate::status::{notice_hue, GuiAction};
use crate::style::{AMBER, CRIMSON, CYAN};
use crate::text::{dec, has_prefix, owned, push_dec, push_str};

verus! {

/// The kind of file an export writes.
#[derive(Debug, Clone, Copy, PartialEq, Eq, Structural)]
pub enum ExportKind {
    /// The benchmark-grid card, as PNG.
    SnapshotPng,
    /// The telemetry snapshot and the grid, as JSON.
    ExportJson,
}

/// One file to write: its kind and its name.
#[derive(Debug, Clone, PartialEq, Eq)]
pub struct ExportJob {
    pub kind: ExportKind,
    pub file_name: String,
}

/// The file an action exports at unix time `ts`: F2 writes
/// `ramsleuth-snapshot-<ts>.png` when a result grid is present, F3
/// `ramsleuth-export-<ts>.json` when a snapshot is; anything else
/// exports nothing.
pub open spec fn export_view(action: GuiAction, grid_present: bool, telemetry_present: bool, ts: nat) -> Option<
    (ExportKind, Seq<char>),
> {
    match action {
        GuiAction::SnapshotPng => if grid_present {
            Some((ExportKind::SnapshotPng, "ramsleuth-snapshot-"@ + dec(ts) + ".png"@))
        } else {
            None
        },
        GuiAction::ExportJson => if telemetry_present {
            Some((ExportKind::ExportJson, "ramsleuth-export-"@ + dec(ts) + ".json"@))
        } else {
            None
        },
        _ => None,
    }
}

/// The view of a job.
pub open spec fn job_view(j: Option<ExportJob>) -> Option<(ExportKind, Seq<char>)> {
    match j {
        Some(job) => Some((job.kind, job.file_name@)),
        None => None,
    }
}

/// The file that `action` exports from `data` at unix time `ts`, or
/// `None` when there is nothing to export (no result grid for F2, no
/// snapshot for F3) or the action exports nothing (`Quit`, no action).
pub fn perform_export(action: GuiAction, data: &TelemetryData, grid_present: bool, ts: u64) -> (j: Option<ExportJob>)
    ensures
        job_view(j) == export_view(action, grid_present, data.telemetry is Some, ts as nat),
{
    match action {
        GuiAction::SnapshotPng => {
            if grid_present {
                let mut name = owned("ramsleuth-snapshot-");
                push_dec(&mut name, ts);
                push_str(&mut name, ".png");
                Some(ExportJob { kind: ExportKind::SnapshotPng, file_name: name })
            } else {
                None
            }
        },
        GuiAction::ExportJson => {
            if data.telemetry.is_some() {
                let mut name = owned("ramsleuth-export-");
                push_dec(&mut name, ts);
                push_str(&mut name, ".json");
                Some(ExportJob { kind: ExportKind::ExportJson, file_name: name })
            } else {
                None
            }
        },
        _ => None,
    }
}


/// The whole seconds since the Unix epoch on the system clock, `None`
/// for a clock set before the epoch (std's `SystemTime::now` measured by
/// `duration_since(UNIX_EPOCH)`). Nothing is stated of the value: it is
/// the machine's clock.
#[verifier::external_body]
fn system_epoch_secs() -> (r: Option<u64>) {
    std::time::SystemTime::now().duration_since(std::time::UNIX_EPOCH).ok().map(|d| d.as_secs())
}

/// The notice an export leaves in the header: `wrote <path>` for a
/// written file, the no-data notice when there was nothing to export,
/// `! <message>` for a failure.
pub open spec fn export_notice_view(outcome: Result<Option<String>, GuiError>) -> Seq<char> {
    match outcome {
        Ok(Some(path)) => "wrote "@ + path@,
        Ok(None) => "nothing to export yet (no data)"@,
        Err(e) => "! "@ + error_text(e),
    }
}

/// The header notice for an export's outcome.
pub fn export_notice(outcome: &Result<Option<String>, GuiError>) -> (t: String)
    ensures
        t@ == export_notice_view(*outcome),
{
    match outcome {
        Ok(Some(path)) => {
            let mut t = owned("wrote ");
            push_str(&mut t, path.as_str());
            t
        },
        Ok(None) => owned("nothing to export yet (no data)"),
        Err(e) => {
            let mut t = owned("! ");
            let m = e.to_string();
            push_str(&mut t, m.as_str());
            t
        },
    }
}

/// A failed export's notice shows in crimson, a written file's in cyan,
/// and the no-data notice in amber.
pub proof fn lemma_export_notice_colors(outcome: Result<Option<String>, GuiError>)
    ensures
        notice_hue(export_notice_view(outcome)) == match outcome {
            Ok(Some(_)) => CYAN,
            Ok(None) => AMBER,
            Err(_) => CRIMSON,
        },
{
    reveal_strlit("!");
    reveal_strlit("! ");
    reveal_strlit("wrote ");
    reveal_strlit("nothing to export yet (no data)");
    let t = export_notice_view(outcome);
    match outcome {
        Ok(Some(path)) => {
            assert(t[0] == 'w');
            assert(!has_prefix(t, "!"@)) by {
                if has_prefix(t, "!"@) {
                    assert(t.subrange(0, 1)[0] == "!"@[0]);
                }
            }
            assert(t.subrange(0, 6) =~= "wrote "@);
        },
        Ok(None) => {
            assert(!has_prefix(t, "!"@)) by {
                if has_prefix(t, "!"@) {
                    assert(t.subrange(0, 1)[0] == "!"@[0]);
                }
            }
            assert(!has_prefix(t, "wrote "@)) by {
                if has_prefix(t, "wrote "@) {
                    assert(t.subrange(0, 6)[0] == "wrote "@[0]);
                }
            }
        },
        Err(e) => {
            assert(t.subrange(0, 1) =~= "!"@);
        },
    }
}

/// The export timestamp of a clock reading (whole seconds since the
/// epoch, `None` for a clock set before it): the reading, or 0.
pub open spec fn timestamp_view(reading: Option<u64>) -> u64 {
    match reading {
        Some(s) => s,
        None => 0,
    }
}

/// The export timestamp of a clock reading (see [`timestamp_view`]).
pub fn timestamp_of(reading: Option<u64>) -> (r: u64)
    ensures
        r == timestamp_view(reading),
{
    match reading {
        Some(s) => s,
        None => 0,
    }
}

/// The signed epoch seconds of a clock reading: the reading as an `i64`
/// (wrapping past `i64::MAX`, as a cast does), or 0 before the epoch.
pub open spec fn epoch_secs_view(reading: Option<u64>) -> int {
    match reading {
        Some(s) => if s <= i64::MAX { s as int } else { s - 0x1_0000_0000_0000_0000 },
        None => 0,
    }
}

/// The signed epoch seconds of a clock reading (see [`epoch_secs_view`]).
pub fn epoch_secs_of(reading: Option<u64>) -> (r: i64)
    ensures
        r == epoch_secs_view(reading),
{
    match reading {
        Some(s) => {
            let r = #[verifier::truncate] (s as i64);
            assert(s <= 0x7fff_ffff_ffff_ffff ==> r == s) by (bit_vector)
                requires
                    r == s as i64,
            ;
            assert(s > 0x7fff_ffff_ffff_ffff ==> r == s - 0x1_0000_0000_0000_0000) by (bit_vector)
                requires
                    r == s as i64,
            ;
            r
        },
        None => 0,
    }
}

/// The unix timestamp of the export file names: the system clock's
/// whole seconds since the epoch, 0 for a clock set before it. The value
/// is the machine's clock, so the contract states nothing of it; what is
/// done with the reading is [`timestamp_of`].
pub fn unix_timestamp() -> u64 {
    timestamp_of(system_epoch_secs())
}

/// The wall clock of the snapshot card, in epoch seconds; a clock set
/// before the epoch reads 0. The value is the machine's clock, so the
/// contract states nothing of it; what is done with the reading is
/// [`epoch_secs_of`].
pub fn now_epoch_secs() -> i64 {
    epoch_secs_of(system_epoch_secs())
}

} // verus!
