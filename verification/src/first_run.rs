//! First-run requirements: what is degraded, why, and the exact command
//! that fixes it; plus the one-click setup helper's command line.
//!
//! Three cases are diagnosed: the daemon is down (the last poll's
//! status does not start with `connected`), the last error was a
//! permission failure (the daemon socket is group-gated), and an AMD
//! host whose AMD branch is absent because the `ryzen_smu` driver is
//! missing. An Intel host or a healthy AMD host has no requirement.
use vstd::prelude::*;

use crate::model::{CpuVendor, NaReason, SnapshotFacts, TelemetryData};
use crate::style::{AMBER, CYAN, NA_GRAY};
use crate::text::{chars_of, contains, has_infix, has_prefix, lowercase, lowercase_chars, owned, push_str, same_text, starts_with};

verus! {

/// The pinned `ryzen_smu` upstream revision, short form.
pub const RYZEN_SMU_PIN_SHORT: &'static str = "d298366";

/// The manual command that installs the AMD driver.
pub const DKMS_INSTALL_CMD: &'static str = "sudo ramsleuth-install-ryzen-smu-dkms";

/// One actionable first-run requirement: the one-line summary, the dim
/// detail, and the exact command to run (`None`: informational only).
#[derive(Debug, Clone, PartialEq, Eq)]
pub struct Requirement {
    /// The one-line summary.
    pub summary: String,
    /// The detail line: the diagnostic and the resolution note.
    pub detail: String,
    /// The exact command to run, if any.
    pub command: Option<String>,
}

/// The text of an optional string.
pub open spec fn opt_text(o: Option<String>) -> Option<Seq<char>> {
    match o {
        Some(s) => Some(s@),
        None => None,
    }
}

impl View for Requirement {
    type V = (Seq<char>, Seq<char>, Option<Seq<char>>);

    open spec fn view(&self) -> (Seq<char>, Seq<char>, Option<Seq<char>>) {
        (self.summary@, self.detail@, opt_text(self.command))
    }
}

/// The requirement to start the daemon, carrying its status text.
pub open spec fn daemon_requirement(status: Seq<char>) -> (Seq<char>, Seq<char>, Option<Seq<char>>) {
    (
        "Start the ramsleuth daemon"@,
        "daemon: "@ + status + " — check with `systemctl status ramsleuth`"@,
        Some("sudo systemctl enable --now ramsleuth"@),
    )
}

/// The requirement to join the `ramsleuth` group.
pub open spec fn group_requirement_view() -> (Seq<char>, Seq<char>, Option<Seq<char>>) {
    (
        "Join the `ramsleuth` group"@,
        "the daemon socket is group-gated — a re-login is required after joining"@,
        Some("sudo usermod -aG ramsleuth $USER"@),
    )
}

/// The requirement to install the pinned AMD driver.
pub open spec fn dkms_requirement_view() -> (Seq<char>, Seq<char>, Option<Seq<char>>) {
    (
        "Install the `ryzen_smu` kernel module (live AMD subtimings)"@,
        "the helper builds the pinned upstream `amkillam/ryzen_smu @ "@ + RYZEN_SMU_PIN_SHORT@
            + "` — shown + checksummed + confirmed before any build; RamSleuth runs without it"@,
        Some(DKMS_INSTALL_CMD@),
    )
}

/// The status of a poll that reached the daemon starts with `connected`.
pub open spec fn is_connected(status: Seq<char>) -> bool {
    has_prefix(status, "connected"@)
}

/// The status text shown in the daemon requirement (an empty status
/// reads `not connected`).
pub open spec fn shown_status(status: Seq<char>) -> Seq<char> {
    if status.len() == 0 { "not connected"@ } else { status }
}

/// The first-run requirements, in order: the daemon requirement when the
/// daemon is not connected; the group requirement when the lowercased
/// last error mentions `permission`; the driver requirement when the
/// daemon is connected, a snapshot is present whose AMD branch is
/// absent for a missing driver, and the host is an AMD part.
pub open spec fn requirements(
    status: Seq<char>,
    lowered_error: Option<Seq<char>>,
    amd_driver_missing: bool,
    host: CpuVendor,
) -> Seq<(Seq<char>, Seq<char>, Option<Seq<char>>)> {
    let first = if !is_connected(status) { seq![daemon_requirement(shown_status(status))] } else { seq![] };
    let second = match lowered_error {
        Some(e) => if has_infix(e, "permission"@) { seq![group_requirement_view()] } else { seq![] },
        None => seq![],
    };
    let third = if is_connected(status) && amd_driver_missing && host is Amd {
        seq![dkms_requirement_view()]
    } else {
        seq![]
    };
    first + second + third
}

/// The snapshot's AMD branch is absent because the driver is missing.
pub open spec fn amd_driver_missing(t: Option<SnapshotFacts>) -> bool {
    match t {
        Some(f) => f.amd_na == Some(NaReason::DriverMissing),
        None => false,
    }
}

/// The host vendor: the snapshot's vendor when it names one, else the
/// local detection.
pub open spec fn host_vendor_of(reported: CpuVendor, detected: CpuVendor) -> CpuVendor {
    match reported {
        CpuVendor::Unknown => detected,
        _ => reported,
    }
}

/// Case 1: the daemon is down (the detail carries its status).
pub fn daemon_down_requirement(status: &str) -> (r: Requirement)
    ensures
        r@ == daemon_requirement(status@),
{
    let mut detail = owned("daemon: ");
    push_str(&mut detail, status);
    push_str(&mut detail, " — check with `systemctl status ramsleuth`");
    Requirement {
        summary: owned("Start the ramsleuth daemon"),
        detail,
        command: Some(owned("sudo systemctl enable --now ramsleuth")),
    }
}

/// Case 2: a client outside the `ramsleuth` group.
pub fn group_requirement() -> (r: Requirement)
    ensures
        r@ == group_requirement_view(),
{
    Requirement {
        summary: owned("Join the `ramsleuth` group"),
        detail: owned("the daemon socket is group-gated — a re-login is required after joining"),
        command: Some(owned("sudo usermod -aG ramsleuth $USER")),
    }
}

/// Case 3: the AMD `ryzen_smu` driver is missing.
pub fn dkms_requirement() -> (r: Requirement)
    ensures
        r@ == dkms_requirement_view(),
{
    let mut detail = owned("the helper builds the pinned upstream `amkillam/ryzen_smu @ ");
    push_str(&mut detail, RYZEN_SMU_PIN_SHORT);
    push_str(
        &mut detail,
        "` — shown + checksummed + confirmed before any build; RamSleuth runs without it",
    );
    Requirement {
        summary: owned("Install the `ryzen_smu` kernel module (live AMD subtimings)"),
        detail,
        command: Some(owned(DKMS_INSTALL_CMD)),
    }
}

/// The host vendor for the AMD check: the snapshot's vendor when it
/// names one, else `detected` (the local CPUID detection).
pub fn host_vendor(reported: CpuVendor, detected: CpuVendor) -> (v: CpuVendor)
    ensures
        v == host_vendor_of(reported, detected),
{
    match reported {
        CpuVendor::Unknown => detected,
        _ => reported,
    }
}

/// Whether the status text starts with `connected`.
pub fn status_connected(status: &str) -> (b: bool)
    ensures
        b == is_connected(status@),
{
    let s = chars_of(status);
    let p = chars_of("connected");
    starts_with(&s, &p)
}

/// The requirements for a daemon state, given the lowercased last error
/// and the host vendor.
pub fn diagnose_with(data: &TelemetryData, lowered_error: Option<&[char]>, host: CpuVendor) -> (r: Vec<Requirement>)
    ensures
        r@.map_values(|q: Requirement| q@) == requirements(
            data.daemon_status@,
            match lowered_error { Some(e) => Some(e@), None => None },
            amd_driver_missing(data.telemetry),
            host,
        ),
{
    let ghost lowered = match lowered_error { Some(e) => Some(e@), None => None };
    let mut r: Vec<Requirement> = Vec::new();
    let connected = status_connected(data.daemon_status.as_str());
    if !connected {
        let shown = if data.daemon_status.as_str().is_empty() {
            "not connected"
        } else {
            data.daemon_status.as_str()
        };
        r.push(daemon_down_requirement(shown));
    }
    let ghost first = r@.map_values(|q: Requirement| q@);
    match lowered_error {
        Some(e) => {
            let needle = chars_of("permission");
            if contains(e, &needle) {
                r.push(group_requirement());
            }
        },
        None => {},
    }
    let ghost second = r@.map_values(|q: Requirement| q@);
    let missing = match &data.telemetry {
        Some(f) => match &f.amd_na {
            Some(NaReason::DriverMissing) => true,
            _ => false,
        },
        None => false,
    };
    let amd_host = match host { CpuVendor::Amd(_) => true, _ => false };
    if connected && missing && amd_host {
        r.push(dkms_requirement());
    }
    assert(r@.map_values(|q: Requirement| q@) =~= requirements(
        data.daemon_status@, lowered, amd_driver_missing(data.telemetry), host));
    r
}

/// The first-run requirements for a daemon state: the last error is
/// lowercased before the `permission` check, and `detected` (the local
/// CPUID detection) stands in for a snapshot that names no vendor.
pub fn diagnose(data: &TelemetryData, detected: CpuVendor) -> (r: Vec<Requirement>)
    ensures
        r@.map_values(|q: Requirement| q@) == requirements(
            data.daemon_status@,
            match data.error { Some(e) => Some(lowercase(e@)), None => None },
            amd_driver_missing(data.telemetry),
            match data.telemetry { Some(f) => host_vendor_of(f.vendor, detected), None => detected },
        ),
{
    let host = match &data.telemetry {
        Some(f) => host_vendor(f.vendor, detected),
        None => detected,
    };
    match &data.error {
        Some(e) => {
            let lowered = lowercase_chars(e.as_str());
            diagnose_with(data, Some(lowered.as_slice()), host)
        },
        None => diagnose_with(data, None, host),
    }
}

/// The one-click setup helper's command line:
/// `/usr/bin/ramsleuth-setup --user <user>`, plus `--with-dkms` on the
/// AMD variant.
pub fn setup_argv(with_dkms: bool, user: &str) -> (argv: Vec<String>)
    ensures
        argv@.map_values(|a: String| a@) == (if with_dkms {
            seq!["/usr/bin/ramsleuth-setup"@, "--user"@, user@, "--with-dkms"@]
        } else {
            seq!["/usr/bin/ramsleuth-setup"@, "--user"@, user@]
        }),
{
    let mut argv: Vec<String> = Vec::new();
    argv.push(owned("/usr/bin/ramsleuth-setup"));
    argv.push(owned("--user"));
    argv.push(owned(user));
    if with_dkms {
        argv.push(owned("--with-dkms"));
    }
    proof {
        if with_dkms {
            assert(argv@.map_values(|a: String| a@) =~= seq!["/usr/bin/ramsleuth-setup"@, "--user"@, user@, "--with-dkms"@]);
        } else {
            assert(argv@.map_values(|a: String| a@) =~= seq!["/usr/bin/ramsleuth-setup"@, "--user"@, user@]);
        }
    }
    argv
}

/// The live state of the one-click setup: a click has requested a run
/// (`running`), the helper succeeded (`done`), or it failed (`failure`,
/// the diagnostic).
#[derive(Debug, Clone, PartialEq, Eq)]
pub struct SetupOutcome {
    /// A run has been requested and not yet handed to the helper.
    pub running: bool,
    /// The helper exited successfully.
    pub done: bool,
    /// The helper's failure diagnostic.
    pub failure: Option<String>,
}

impl Default for SetupOutcome {
    /// The idle state: nothing requested, nothing done, no failure.
    fn default() -> (s: Self)
        ensures
            !s.running,
            !s.done,
            s.failure is None,
    {
        SetupOutcome { running: false, done: false, failure: None }
    }
}

/// The requirement carries the driver-install command.
pub open spec fn is_dkms(r: (Seq<char>, Seq<char>, Option<Seq<char>>)) -> bool {
    r.2 == Some(DKMS_INSTALL_CMD@)
}

/// Whether the setup must also build the AMD driver: true iff one of the
/// requirements carries the driver-install command.
pub fn setup_with_dkms(requirements: &[Requirement]) -> (b: bool)
    ensures
        b == exists|i: int| 0 <= i < requirements@.len() && is_dkms(#[trigger] requirements@[i]@),
{
    let mut i: usize = 0;
    while i < requirements.len()
        invariant
            i <= requirements@.len(),
            forall|j: int| 0 <= j < i ==> !is_dkms(#[trigger] requirements@[j]@),
        decreases requirements.len() - i,
    {
        match &requirements[i].command {
            Some(c) => {
                if same_text(c.as_str(), DKMS_INSTALL_CMD) {
                    assert(is_dkms(requirements@[i as int]@));
                    return true;
                }
            },
            None => {},
        }
        i = i + 1;
    }
    false
}

/// Whether some requirement carries the driver-install command.
pub open spec fn needs_dkms(requirements: Seq<Requirement>) -> bool {
    exists|i: int| 0 <= i < requirements.len() && is_dkms(#[trigger] requirements[i]@)
}

/// The wizard button's label: it names the AMD driver when the setup
/// also builds it.
pub open spec fn wizard_label_view(requirements: Seq<Requirement>) -> Seq<char> {
    if needs_dkms(requirements) {
        "Set up RamSleuth + AMD driver"@
    } else {
        "Set up RamSleuth"@
    }
}

/// The one-click wizard's button label.
pub fn wizard_label(requirements: &[Requirement]) -> (t: &'static str)
    ensures
        t@ == wizard_label_view(requirements@),
{
    if setup_with_dkms(requirements) {
        "Set up RamSleuth + AMD driver"
    } else {
        "Set up RamSleuth"
    }
}

/// The wizard's status line and its color: `running…` in CYAN while a
/// run is pending, the restart prompt in CYAN once done, the helper's
/// diagnostic in AMBER after a failure, else the one-click promise in
/// the muted gray.
pub open spec fn setup_status_view(s: SetupOutcome) -> (Seq<char>, u32) {
    if s.running {
        ("running…"@, CYAN)
    } else if s.done {
        ("done — restart RamSleuth to activate"@, CYAN)
    } else {
        match s.failure {
            Some(f) => ("failed: "@ + f@, AMBER),
            None => ("one click runs all the privileged setup — no re-login, no reboot"@, NA_GRAY),
        }
    }
}

/// The wizard's status line.
pub fn setup_status(setup: &SetupOutcome) -> (r: (String, u32))
    ensures
        (r.0@, r.1) == setup_status_view(*setup),
{
    if setup.running {
        (owned("running…"), CYAN)
    } else if setup.done {
        (owned("done — restart RamSleuth to activate"), CYAN)
    } else {
        match &setup.failure {
            Some(f) => {
                let mut t = owned("failed: ");
                push_str(&mut t, f.as_str());
                (t, AMBER)
            },
            None => (owned("one click runs all the privileged setup — no re-login, no reboot"), NA_GRAY),
        }
    }
}

} // verus!

verus! {

/// The one-click setup builds the AMD driver exactly when the diagnosis
/// found the driver case: some diagnosed requirement carries the
/// driver-install command iff the daemon is connected, the snapshot's
/// AMD branch is absent for a missing driver, and the host is AMD.
pub proof fn lemma_dkms_flag_matches_driver_case(
    status: Seq<char>,
    lowered_error: Option<Seq<char>>,
    amd_driver_missing: bool,
    host: CpuVendor,
)
    ensures
        (exists|i: int| 0 <= i < requirements(status, lowered_error, amd_driver_missing, host).len()
            && is_dkms(#[trigger] requirements(status, lowered_error, amd_driver_missing, host)[i]))
        <==> (is_connected(status) && amd_driver_missing && host is Amd),
{
    reveal_strlit("sudo systemctl enable --now ramsleuth");
    reveal_strlit("sudo usermod -aG ramsleuth $USER");
    reveal_strlit("sudo ramsleuth-install-ryzen-smu-dkms");
    let rs = requirements(status, lowered_error, amd_driver_missing, host);
    assert(!is_dkms(daemon_requirement(shown_status(status)))) by {
        assert("sudo systemctl enable --now ramsleuth"@[5] != DKMS_INSTALL_CMD@[5]);
    }
    assert(!is_dkms(group_requirement_view())) by {
        assert("sudo usermod -aG ramsleuth $USER"@[5] != DKMS_INSTALL_CMD@[5]);
    }
    if is_connected(status) && amd_driver_missing && host is Amd {
        assert(is_dkms(rs[rs.len() - 1]));
    }
}


/// A healthy daemon needs nothing: connected, no recorded error, and no
/// AMD host missing its driver gives no requirement at all.
pub proof fn lemma_healthy_needs_nothing(status: Seq<char>, amd_driver_missing: bool, host: CpuVendor)
    requires
        is_connected(status),
        !(amd_driver_missing && host is Amd),
    ensures
        requirements(status, None, amd_driver_missing, host).len() == 0,
{
}

/// The daemon requirement comes first exactly when the daemon is not
/// connected, and then it names the status it saw.
pub proof fn lemma_daemon_requirement_iff_down(
    status: Seq<char>,
    lowered_error: Option<Seq<char>>,
    amd_driver_missing: bool,
    host: CpuVendor,
)
    ensures
        !is_connected(status) ==> requirements(status, lowered_error, amd_driver_missing, host).len() >= 1
            && requirements(status, lowered_error, amd_driver_missing, host)[0] == daemon_requirement(shown_status(status)),
        is_connected(status) ==> forall|i: int|
            0 <= i < requirements(status, lowered_error, amd_driver_missing, host).len()
                ==> #[trigger] requirements(status, lowered_error, amd_driver_missing, host)[i] != daemon_requirement(shown_status(status)),
{
    let rs = requirements(status, lowered_error, amd_driver_missing, host);
    if is_connected(status) {
        reveal_strlit("Start the ramsleuth daemon");
        reveal_strlit("Join the `ramsleuth` group");
        reveal_strlit("Install the `ryzen_smu` kernel module (live AMD subtimings)");
        assert forall|i: int| 0 <= i < rs.len() implies #[trigger] rs[i] != daemon_requirement(shown_status(status)) by {
            assert("Start the ramsleuth daemon"@[0] != "Join the `ramsleuth` group"@[0]);
            assert("Start the ramsleuth daemon"@[0] != "Install the `ryzen_smu` kernel module (live AMD subtimings)"@[0]);
        }
    }
}

} // verus!
