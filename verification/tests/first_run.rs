use ramsleuth_gui::first_run::{
    daemon_down_requirement, diagnose, diagnose_with, dkms_requirement, group_requirement,
    host_vendor, setup_argv, setup_status, setup_with_dkms, wizard_label, SetupOutcome,
    DKMS_INSTALL_CMD, RYZEN_SMU_PIN_SHORT,
};
use ramsleuth_gui::style::{AMBER, CYAN, NA_GRAY};
use ramsleuth_gui::model::{AmdZen, CpuVendor, NaReason, SnapshotFacts, TelemetryData};

fn data(status: &str, error: Option<&str>, telemetry: Option<SnapshotFacts>) -> TelemetryData {
    TelemetryData {
        daemon_status: status.to_owned(),
        error: error.map(|e| e.to_owned()),
        telemetry,
    }
}

#[test]
fn setup_argv_contract() {
    assert_eq!(
        setup_argv(false, "alice"),
        vec!["/usr/bin/ramsleuth-setup".to_owned(), "--user".to_owned(), "alice".to_owned()]
    );
    assert_eq!(
        setup_argv(true, "alice"),
        vec![
            "/usr/bin/ramsleuth-setup".to_owned(),
            "--user".to_owned(),
            "alice".to_owned(),
            "--with-dkms".to_owned()
        ]
    );
}

#[test]
fn setup_with_dkms_decision() {
    assert!(!setup_with_dkms(&[]));
    assert!(!setup_with_dkms(&[daemon_down_requirement("disconnected")]));
    assert!(!setup_with_dkms(&[group_requirement()]));
    assert!(setup_with_dkms(&[group_requirement(), dkms_requirement()]));
}

#[test]
fn healthy_daemon_has_no_requirement() {
    let healthy = data(
        "connected: /run/ramsleuth/ramsleuth.sock",
        None,
        Some(SnapshotFacts { vendor: CpuVendor::Amd(AmdZen::Zen3), amd_na: None }),
    );
    assert!(diagnose(&healthy, CpuVendor::Unknown).is_empty());
}

#[test]
fn a_down_daemon_asks_to_start_it() {
    let never = data("", None, None);
    let r = diagnose(&never, CpuVendor::Unknown);
    assert_eq!(r.len(), 1);
    assert_eq!(r[0].summary, "Start the ramsleuth daemon");
    assert_eq!(r[0].detail, "daemon: not connected — check with `systemctl status ramsleuth`");
    assert_eq!(r[0].command.as_deref(), Some("sudo systemctl enable --now ramsleuth"));

    let down = data("disconnected", Some("daemon not running"), None);
    let r = diagnose(&down, CpuVendor::Unknown);
    assert_eq!(r.len(), 1);
    assert_eq!(r[0].detail, "daemon: disconnected — check with `systemctl status ramsleuth`");
}

#[test]
fn a_permission_error_asks_to_join_the_group() {
    let denied = data("disconnected", Some("connect: Permission denied (os error 13)"), None);
    let r = diagnose(&denied, CpuVendor::Unknown);
    assert_eq!(r.len(), 2);
    assert_eq!(r[1], group_requirement());
}

#[test]
fn a_missing_amd_driver_asks_for_the_module() {
    let facts = SnapshotFacts { vendor: CpuVendor::Amd(AmdZen::Zen4), amd_na: Some(NaReason::DriverMissing) };
    let r = diagnose(&data("connected: /tmp/s", None, Some(facts)), CpuVendor::Unknown);
    assert_eq!(r, vec![dkms_requirement()]);
    assert_eq!(r[0].command.as_deref(), Some(DKMS_INSTALL_CMD));
    assert!(setup_with_dkms(&r));

    // An Intel host never gets the AMD driver requirement.
    let intel = SnapshotFacts { vendor: CpuVendor::Intel, amd_na: Some(NaReason::DriverMissing) };
    assert!(diagnose(&data("connected: /tmp/s", None, Some(intel)), CpuVendor::Unknown).is_empty());

    // A snapshot with no vendor falls back to the local detection.
    let unknown = SnapshotFacts { vendor: CpuVendor::Unknown, amd_na: Some(NaReason::DriverMissing) };
    let r = diagnose(&data("connected: /tmp/s", None, Some(unknown.clone())), CpuVendor::Amd(AmdZen::Zen2));
    assert_eq!(r, vec![dkms_requirement()]);
    assert!(diagnose(&data("connected: /tmp/s", None, Some(unknown)), CpuVendor::Intel).is_empty());
}

#[test]
fn diagnose_with_takes_the_lowered_error() {
    let lowered: Vec<char> = "permission denied".chars().collect();
    let r = diagnose_with(&data("connected: x", None, None), Some(&lowered), CpuVendor::Unknown);
    assert_eq!(r, vec![group_requirement()]);
    let other: Vec<char> = "timed out".chars().collect();
    assert!(diagnose_with(&data("connected: x", None, None), Some(&other), CpuVendor::Unknown).is_empty());
}

#[test]
fn host_vendor_prefers_the_snapshot() {
    assert_eq!(host_vendor(CpuVendor::Intel, CpuVendor::Amd(AmdZen::Zen1)), CpuVendor::Intel);
    assert_eq!(host_vendor(CpuVendor::Unknown, CpuVendor::Amd(AmdZen::Zen1)), CpuVendor::Amd(AmdZen::Zen1));
}

#[test]
fn setup_outcome_default_is_idle() {
    let o = SetupOutcome::default();
    assert!(!o.running && !o.done && o.failure.is_none());
}

fn connected(vendor: CpuVendor, amd: NaReason) -> TelemetryData {
    data(
        "connected: /run/ramsleuth/ramsleuth.sock",
        None,
        Some(SnapshotFacts { vendor, amd_na: Some(amd) }),
    )
}

#[test]
fn diagnose_daemon_down() {
    let requirements = diagnose(&data("disconnected", None, None), CpuVendor::Unknown);
    assert_eq!(requirements.len(), 1, "exactly the daemon requirement: {requirements:?}");
    assert_eq!(requirements[0].summary, "Start the ramsleuth daemon");
    assert_eq!(requirements[0].command.as_deref(), Some("sudo systemctl enable --now ramsleuth"));
    assert!(
        requirements[0].detail.contains("disconnected") && requirements[0].detail.contains("systemctl status ramsleuth"),
        "the detail carries the diagnostic: {}",
        requirements[0].detail
    );
}

#[test]
fn diagnose_permission_error() {
    let down = data(
        "disconnected",
        Some("cannot connect to /run/ramsleuth/ramsleuth.sock: daemon not running? (last error: Permission denied (os error 13))"),
        None,
    );
    let requirements = diagnose(&down, CpuVendor::Unknown);
    assert_eq!(requirements.len(), 2, "the daemon + group requirements: {requirements:?}");
    assert_eq!(requirements[0].summary, "Start the ramsleuth daemon");
    let group = requirements
        .iter()
        .find(|r| r.command.as_deref() == Some("sudo usermod -aG ramsleuth $USER"))
        .expect("the permission error must yield the join-group requirement");
    assert_eq!(group.summary, "Join the `ramsleuth` group");
    assert!(group.detail.contains("re-login"), "a re-login note is required: {}", group.detail);
}

#[test]
fn diagnose_amd_driver_missing() {
    let requirements = diagnose(&connected(CpuVendor::Amd(AmdZen::Zen3), NaReason::DriverMissing), CpuVendor::Unknown);
    assert_eq!(requirements.len(), 1, "exactly the DKMS requirement: {requirements:?}");
    assert_eq!(requirements[0].summary, "Install the `ryzen_smu` kernel module (live AMD subtimings)");
    assert_eq!(requirements[0].command.as_deref(), Some("sudo ramsleuth-install-ryzen-smu-dkms"));
    assert!(requirements[0].detail.contains(RYZEN_SMU_PIN_SHORT));
    let not_missing = connected(CpuVendor::Amd(AmdZen::Zen3), NaReason::NotApplicable);
    assert!(diagnose(&not_missing, CpuVendor::Unknown).is_empty(), "non-DriverMissing AMD yields no requirement");
}

#[test]
fn diagnose_intel_healthy() {
    let data = connected(CpuVendor::Intel, NaReason::NotApplicable);
    assert!(diagnose(&data, CpuVendor::Unknown).is_empty(), "Intel (and healthy AMD) yields no requirement");
}

#[test]
fn diagnose_default_is_daemon_only() {
    let requirements = diagnose(&TelemetryData::new(), CpuVendor::Unknown);
    assert_eq!(requirements.len(), 1, "exactly the daemon requirement: {requirements:?}");
    assert_eq!(requirements[0].command.as_deref(), Some("sudo systemctl enable --now ramsleuth"));
    assert!(requirements[0].detail.contains("not connected"), "the empty status reads not connected");
}

#[test]
fn wizard_label_names_the_driver_only_when_it_builds() {
    assert_eq!(wizard_label(&[dkms_requirement()]), "Set up RamSleuth + AMD driver");
    assert_eq!(wizard_label(&[group_requirement()]), "Set up RamSleuth");
    assert_eq!(
        wizard_label(&[daemon_down_requirement("disconnected"), dkms_requirement()]),
        "Set up RamSleuth + AMD driver"
    );
}

#[test]
fn setup_status_follows_the_outcome() {
    let idle = SetupOutcome::default();
    assert_eq!(
        setup_status(&idle),
        ("one click runs all the privileged setup — no re-login, no reboot".to_owned(), NA_GRAY)
    );
    let running = SetupOutcome { running: true, ..SetupOutcome::default() };
    assert_eq!(setup_status(&running), ("running…".to_owned(), CYAN));
    let done = SetupOutcome { done: true, ..SetupOutcome::default() };
    assert_eq!(setup_status(&done), ("done — restart RamSleuth to activate".to_owned(), CYAN));
    let failed = SetupOutcome { failure: Some("exit code 2".to_owned()), ..SetupOutcome::default() };
    assert_eq!(setup_status(&failed), ("failed: exit code 2".to_owned(), AMBER));
}
