use ramsleuth_gui::error::{GuiError, IoFailure};
use ramsleuth_gui::export::{epoch_secs_of, export_notice, perform_export, timestamp_of, ExportKind};
use ramsleuth_gui::status::notice_color;
use ramsleuth_gui::style::{AMBER, CRIMSON, CYAN};
use ramsleuth_gui::model::{AmdZen, CpuVendor, SnapshotFacts, TelemetryData};
use ramsleuth_gui::status::GuiAction;

fn with_snapshot() -> TelemetryData {
    TelemetryData {
        daemon_status: "connected: /tmp/s".to_owned(),
        error: None,
        telemetry: Some(SnapshotFacts { vendor: CpuVendor::Amd(AmdZen::Zen3), amd_na: None }),
    }
}

#[test]
fn perform_export_png_names_the_snapshot() {
    let job = perform_export(GuiAction::SnapshotPng, &TelemetryData::new(), true, 1_789_439_400)
        .expect("a grid set must produce a file");
    assert_eq!(job.kind, ExportKind::SnapshotPng);
    assert_eq!(job.file_name, "ramsleuth-snapshot-1789439400.png");
}

#[test]
fn perform_export_json_names_the_export() {
    let job = perform_export(GuiAction::ExportJson, &with_snapshot(), false, 7)
        .expect("telemetry set must produce a file");
    assert_eq!(job.kind, ExportKind::ExportJson);
    assert_eq!(job.file_name, "ramsleuth-export-7.json");
}

#[test]
fn perform_export_png_without_grid_is_none() {
    assert_eq!(perform_export(GuiAction::SnapshotPng, &with_snapshot(), false, 1), None);
}

#[test]
fn perform_export_json_without_telemetry_is_none() {
    assert_eq!(perform_export(GuiAction::ExportJson, &TelemetryData::new(), true, 1), None);
}

#[test]
fn perform_export_quit_and_none_are_noops() {
    for action in [GuiAction::Quit, GuiAction::NoAction] {
        assert_eq!(perform_export(action, &with_snapshot(), true, 1), None, "{action:?} must yield None");
    }
}

#[test]
fn export_notice_names_the_outcome_and_takes_its_color() {
    let written: Result<Option<String>, GuiError> = Ok(Some("/home/u/ramsleuth-export-7.json".to_owned()));
    let t = export_notice(&written);
    assert_eq!(t, "wrote /home/u/ramsleuth-export-7.json");
    assert_eq!(notice_color(&t), CYAN);

    let nothing: Result<Option<String>, GuiError> = Ok(None);
    let t = export_notice(&nothing);
    assert_eq!(t, "nothing to export yet (no data)");
    assert_eq!(notice_color(&t), AMBER);

    let failed: Result<Option<String>, GuiError> =
        Err(GuiError::Io(IoFailure::new("PermissionDenied", "permission denied")));
    let t = export_notice(&failed);
    assert_eq!(t, "! export I/O error: permission denied");
    assert_eq!(notice_color(&t), CRIMSON);

    let png: Result<Option<String>, GuiError> = Err(GuiError::Png("bad".to_owned()));
    assert_eq!(export_notice(&png), "! PNG encode error: bad");
}

#[test]
fn clock_readings_map_to_the_export_timestamps() {
    assert_eq!(timestamp_of(Some(1_700_000_000)), 1_700_000_000);
    assert_eq!(timestamp_of(None), 0);
    assert_eq!(epoch_secs_of(Some(1_700_000_000)), 1_700_000_000);
    assert_eq!(epoch_secs_of(None), 0);
    assert_eq!(epoch_secs_of(Some(u64::MAX)), -1);
    assert_eq!(epoch_secs_of(Some(i64::MAX as u64)), i64::MAX);
}
