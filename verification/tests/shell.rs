use ramsleuth_gui::export::unix_timestamp;
use ramsleuth_gui::model::{AmdZen, CpuVendor, NaReason, Section, TelemetryData};
use ramsleuth_gui::shell::probe_issue_title;
use ramsleuth_gui::shell::{
    age_fragment, apply_refresh_transition, channel_mode, daemon_status_text, frame_dispatch,
    header_status_color, map_setup_exit, modal_open, parse_args, platform_tag, probe_issue_url,
    rank_word, setup_prompt_open, setup_stderr_tail, sudo_setup_command, to_hex, url_encode, GuiArgs,
    DialogEvent, ProbeEvent, ProbeLanding, ProbeState, DEFAULT_SOCKET_PATH, PROBE_ISSUE_COPY_NOTICE,
};
use ramsleuth_gui::status::GuiAction;
use ramsleuth_gui::style::{CRIMSON, CYAN};

fn status(s: &str, error: Option<&str>) -> TelemetryData {
    TelemetryData { daemon_status: s.to_owned(), error: error.map(|e| e.to_owned()), telemetry: None }
}

#[test]
fn parse_args_no_flags_defaults() {
    let args = parse_args(&[]).expect("no flags must parse");
    assert_eq!(args, GuiArgs::default());
    assert_eq!(args.socket, DEFAULT_SOCKET_PATH);
}

#[test]
fn parse_args_socket_flag() {
    let args = parse_args(&["--socket", "/tmp/x"]).expect("--socket /tmp/x must parse");
    assert_eq!(args.socket, "/tmp/x");

    let args = parse_args(&["--socket", "/tmp/a", "--socket", "/tmp/b"]).expect("repeats must parse");
    assert_eq!(args.socket, "/tmp/b");
}

#[test]
fn parse_args_unknown_flag_errors() {
    let err = parse_args(&["--bogus"]).expect_err("an unknown flag must error");
    assert!(err.contains("--bogus"), "the error must name the flag, got: {err}");
}

#[test]
fn parse_args_positional_and_missing_value_error() {
    assert!(parse_args(&["/tmp/x"]).is_err(), "a positional must error");
    assert!(parse_args(&["--socket"]).is_err(), "a missing --socket value must error");
}

#[test]
fn parse_args_error_texts() {
    assert_eq!(
        parse_args(&["--bogus"]).unwrap_err(),
        "unknown flag `--bogus` (expected `--socket <path>`)"
    );
    assert_eq!(
        parse_args(&["/tmp/x"]).unwrap_err(),
        "unexpected argument `/tmp/x` (no positional arguments are accepted)"
    );
    assert_eq!(
        parse_args(&["--socket", "/a", "--socket"]).unwrap_err(),
        "--socket requires a value (the daemon's Unix socket path)"
    );
}

#[test]
fn unix_timestamp_is_plausible() {
    let ts = unix_timestamp();
    assert!(ts > 1_577_836_800, "expected a post-2020 timestamp, got: {ts}");
    assert!(ts < 4_102_444_800, "expected a pre-2100 timestamp, got: {ts}");
}

#[test]
fn daemon_status_text_arms() {
    let socket = "/run/ramsleuth/ramsleuth.sock";
    assert_eq!(
        daemon_status_text("connected: /run/ramsleuth/ramsleuth.sock", socket),
        "Daemon: Connected (IPC: /run/ramsleuth/ramsleuth.sock)"
    );
    assert_eq!(daemon_status_text("", socket), "Daemon: Disconnected (IPC: /run/ramsleuth/ramsleuth.sock)");
    assert_eq!(daemon_status_text("disconnected", socket), "Daemon: Disconnected");
}

#[test]
fn channel_mode_from_dimm_count() {
    assert_eq!(channel_mode(1), "Single-Channel");
    assert_eq!(channel_mode(2), "Dual-Channel");
    assert_eq!(channel_mode(4), "Quad-Channel");
    assert_eq!(channel_mode(0), "N/A");
    assert_eq!(channel_mode(3), "N/A");
}

#[test]
fn refresh_transition_open_forces_on_and_close_restores() {
    let mut saved = None;
    let mut last = false;
    assert_eq!(
        apply_refresh_transition(&mut saved, &mut last, true, false),
        Some(true)
    );
    assert_eq!(saved, Some(false), "the pre-open original must be saved");
    assert!(last, "the edge memory must now read open");

    assert_eq!(apply_refresh_transition(&mut saved, &mut last, true, true), None);
    assert_eq!(saved, Some(false));

    assert_eq!(
        apply_refresh_transition(&mut saved, &mut last, false, true),
        Some(false),
        "the closing edge must restore the saved original"
    );
    assert_eq!(saved, None, "the save must be consumed on the close edge");
    assert!(!last, "the edge memory must now read closed");

    assert_eq!(apply_refresh_transition(&mut saved, &mut last, false, false), None);
    assert_eq!(saved, None);

    assert_eq!(apply_refresh_transition(&mut saved, &mut last, true, true), Some(true));
    assert_eq!(saved, Some(true));

    assert_eq!(
        apply_refresh_transition(&mut saved, &mut last, false, true),
        Some(true),
        "a pre-enabled original must stay enabled after the close"
    );
    assert_eq!(saved, None);

    let mut last = true;
    assert_eq!(apply_refresh_transition(&mut saved, &mut last, false, false), None);
    assert!(!last);
}

#[test]
fn setup_exit_code_maps_to_the_outcome() {
    let outcome = map_setup_exit(0, "");
    assert!(!outcome.running, "the worker's terminal state clears running");
    assert!(outcome.done, "exit 0 must set done");
    assert!(outcome.failure.is_none(), "exit 0 must carry no failure");

    let stderr = "step 1: daemon enabled\n[ramsleuth-setup] ERROR: usermod failed (exit 3)\n\
                  [ramsleuth-setup] ERROR: step 4 failed";
    let outcome = map_setup_exit(1, stderr);
    assert!(!outcome.done, "exit 1 must not set done");
    assert_eq!(
        outcome.failure.as_deref(),
        Some("[ramsleuth-setup] ERROR: step 4 failed"),
        "exit 1 must carry the last structured ERROR line"
    );

    let outcome = map_setup_exit(1, "info line\nmodprobe: FATAL: Module ryzen_smu_drv not found\n");
    assert_eq!(outcome.failure.as_deref(), Some("modprobe: FATAL: Module ryzen_smu_drv not found"),);

    assert!(
        map_setup_exit(1, "")
            .failure
            .as_deref()
            .is_some_and(|message| message.contains("sudo ramsleuth-setup")),
        "a marker-less empty stderr must point at the manual floor"
    );

    let outcome = map_setup_exit(2, "whatever");
    assert!(
        outcome.failure.as_deref().is_some_and(|message| message.contains("usage, exit 2")),
        "exit 2 must name the usage error: {:?}",
        outcome.failure
    );

    let outcome = map_setup_exit(-1, "killed");
    assert!(!outcome.done);
    assert_eq!(outcome.failure.as_deref(), Some("killed"));
}

#[test]
fn setup_stderr_tail_trims_the_chosen_line() {
    assert_eq!(setup_stderr_tail("  spaced out  \n\n"), "spaced out");
    assert_eq!(setup_stderr_tail("a\n  [ramsleuth-setup] ERROR: x  \nb\n"), "[ramsleuth-setup] ERROR: x");
}

#[test]
fn sudo_setup_command_is_the_manual_floor() {
    assert_eq!(sudo_setup_command("alice", false), "sudo ramsleuth-setup --user alice");
    assert_eq!(sudo_setup_command("alice", true), "sudo ramsleuth-setup --user alice --with-dkms");
}

#[test]
fn setup_prompt_open_gate() {
    assert!(setup_prompt_open(true, false), "done + undismissed must open the prompt");
    assert!(!setup_prompt_open(true, true), "a dismissed prompt must stay closed");
    assert!(!setup_prompt_open(false, false), "a non-done outcome must never open the prompt");
    assert!(!setup_prompt_open(false, true));
}

#[test]
fn url_encode_percent_encoding() {
    assert_eq!(url_encode("ABCdef019-_.~"), "ABCdef019-_.~");
    assert_eq!(url_encode("a b"), "a%20b");
    assert_eq!(url_encode("[x]"), "%5Bx%5D");
    assert_eq!(url_encode("\u{00b7}"), "%C2%B7");
    assert_eq!(url_encode("#"), "%23");
    assert_eq!(url_encode("a/b"), "a%2Fb");
    assert_eq!(url_encode("a=b&c"), "a%3Db%26c");
}

#[test]
fn to_hex_is_upper_case() {
    assert_eq!(to_hex(0), b'0');
    assert_eq!(to_hex(9), b'9');
    assert_eq!(to_hex(10), b'A');
    assert_eq!(to_hex(15), b'F');
    assert_eq!(to_hex(16), b'G');
    assert_eq!(to_hex(200), 255);
}

#[test]
fn probe_issue_url_carries_the_encoded_title() {
    assert_eq!(
        probe_issue_url("[Probe] Ryzen 9 · Zen 3"),
        "https://github.com/MadGoat/RamSleuth/issues/new?title=%5BProbe%5D%20Ryzen%209%20%C2%B7%20Zen%203"
    );
}

#[test]
fn probe_state_machine_is_total() {
    let mut s = ProbeState::default();
    assert_eq!(s, ProbeState::Idle);
    s.apply(ProbeEvent::Submit);
    assert_eq!(s, ProbeState::Idle, "an event outside its state is a no-op");
    s.apply(ProbeEvent::Open);
    assert_eq!(s, ProbeState::Consent);
    s.apply(ProbeEvent::CancelConsent);
    assert_eq!(s, ProbeState::Idle);
    let mut p = ProbeState::Preview("# report".to_owned());
    p.apply(ProbeEvent::Open);
    assert_eq!(p, ProbeState::Preview("# report".to_owned()));
    p.apply(ProbeEvent::Submit);
    assert_eq!(p, ProbeState::Done);
    let mut p = ProbeState::Preview(String::new());
    p.apply(ProbeEvent::CancelPreview);
    assert_eq!(p, ProbeState::Idle);
}

#[test]
fn header_status_color_semantics() {
    assert_eq!(header_status_color(&status("connected: /tmp/x", None)), CYAN);
    assert_eq!(header_status_color(&status("connected: /tmp/x", Some("boom"))), CRIMSON);
    assert_eq!(header_status_color(&status("disconnected", None)), CRIMSON);
    assert_eq!(header_status_color(&status("", None)), CRIMSON);
}

#[test]
fn platform_tag_maps_every_vendor() {
    assert_eq!(platform_tag(&CpuVendor::Amd(AmdZen::Zen1)), "AMD AM4 Platform");
    assert_eq!(platform_tag(&CpuVendor::Amd(AmdZen::Zen3)), "AMD AM4 Platform");
    assert_eq!(platform_tag(&CpuVendor::Amd(AmdZen::Zen4)), "AMD AM5 Platform");
    assert_eq!(platform_tag(&CpuVendor::Amd(AmdZen::Zen5)), "AMD AM5 Platform");
    assert_eq!(platform_tag(&CpuVendor::Intel), "Intel LGA Platform");
    assert_eq!(platform_tag(&CpuVendor::Unknown), "Platform");
}

#[test]
fn rank_word_arms() {
    assert_eq!(rank_word(&Section::Value(1)).as_deref(), Some("Single-Rank"));
    assert_eq!(rank_word(&Section::Value(2)).as_deref(), Some("Dual-Rank"));
    assert_eq!(rank_word(&Section::Value(4)).as_deref(), Some("4-Rank"));
    assert_eq!(rank_word(&Section::Value(0)), None);
    assert_eq!(rank_word(&Section::na(NaReason::NotApplicable)), None);
}

#[test]
fn age_fragment_by_provenance() {
    let agesa = Section::Value("ComboAm4v2 PI 1.2.0.12".to_owned());
    let smu = Section::Value("56.94.0".to_owned());
    let na: Section<String> = Section::na(NaReason::NotApplicable);
    assert_eq!(age_fragment(&agesa, &smu), "AGESA ComboAm4v2 PI 1.2.0.12");
    assert_eq!(age_fragment(&na, &smu), "SMU 56.94.0");
    assert_eq!(age_fragment(&na, &na), "AGESA N/A");
}

#[test]
fn probe_issue_title_shape() {
    assert_eq!(
        probe_issue_title("Ryzen 9 5950X", "Zen 3", "Linux", "2.1.0"),
        "[Probe] Ryzen 9 5950X · Zen 3 · Linux · v2.1.0"
    );
}

#[test]
fn probe_issue_title_and_url_construction() {
    let title = probe_issue_title("Test CPU", "Unknown", "Linux / Test", "2.4.2");
    assert_eq!(title, "[Probe] Test CPU \u{00b7} Unknown \u{00b7} Linux / Test \u{00b7} v2.4.2");
    assert_eq!(
        url_encode(&title),
        "%5BProbe%5D%20Test%20CPU%20%C2%B7%20Unknown%20%C2%B7%20Linux%20%2F%20Test%20%C2%B7%20v2.4.2"
    );
    let url = probe_issue_url(&title);
    assert_eq!(
        url,
        "https://github.com/MadGoat/RamSleuth/issues/new?title=%5BProbe%5D%20Test%20CPU%20%C2%B7%20Unknown%20%C2%B7%20Linux%20%2F%20Test%20%C2%B7%20v2.4.2"
    );
    assert!(!url.contains("body="), "the body must not ride the URL: {url}");
}

#[test]
fn url_encoding_holds_only_safe_characters() {
    let every: String = (1u32..=0x2FF).filter_map(char::from_u32).collect();
    let encoded = url_encode(&every);
    assert!(encoded
        .chars()
        .all(|c| c.is_ascii_alphanumeric() || c == '-' || c == '_' || c == '.' || c == '~' || c == '%'));
    assert!(!encoded.contains('+'));
}

#[test]
fn rank_word_mirrors_the_card_rank_label() {
    for rank in [0u8, 1, 2, 3, 4, 8, 255] {
        let label = ramsleuth_gui::status::rank_label(&Section::Value(rank));
        match rank_word(&Section::Value(rank)) {
            Some(word) => assert_eq!(word, label),
            None => assert_eq!(label, "N/A"),
        }
    }
}

#[test]
fn modal_dialogs_block_the_dashboard() {
    assert!(!modal_open(false, &ProbeState::Idle));
    assert!(!modal_open(false, &ProbeState::Done));
    assert!(modal_open(true, &ProbeState::Idle));
    assert!(modal_open(false, &ProbeState::Consent));
    assert!(modal_open(false, &ProbeState::Preview("md".to_owned())));
}

#[test]
fn frame_dispatch_runs_the_button_then_a_distinct_key() {
    let d = frame_dispatch(false, false, GuiAction::NoAction, Some(GuiAction::ExportJson));
    assert!(!d.open_probe);
    assert_eq!(d.actions, vec![GuiAction::NoAction, GuiAction::ExportJson]);

    let d = frame_dispatch(false, true, GuiAction::SnapshotPng, Some(GuiAction::SnapshotPng));
    assert!(d.open_probe);
    assert_eq!(d.actions, vec![GuiAction::SnapshotPng], "the same action from a key and a button fires once");

    let d = frame_dispatch(false, false, GuiAction::Quit, None);
    assert_eq!(d.actions, vec![GuiAction::Quit]);

    let d = frame_dispatch(true, true, GuiAction::Quit, Some(GuiAction::ExportJson));
    assert!(!d.open_probe);
    assert!(d.actions.is_empty(), "a modal dialog blocks every dispatch");
}

#[test]
fn probe_landing_advances_only_the_consent_dialog() {
    let mut s = ProbeState::Consent;
    let a = s.advance(ProbeLanding::Waiting);
    assert_eq!(s, ProbeState::Consent);
    assert!(!a.consumed);

    let a = s.advance(ProbeLanding::Ready { markdown: "# RamSleuth Probe Report".to_owned(), title: "t".to_owned() });
    assert_eq!(s, ProbeState::Preview("# RamSleuth Probe Report".to_owned()));
    assert!(a.consumed);
    assert_eq!(a.title, Some("t".to_owned()));
    assert_eq!(a.notice, None);

    let mut idle = ProbeState::Idle;
    let a = idle.advance(ProbeLanding::Failed("daemon busy".to_owned()));
    assert_eq!(idle, ProbeState::Idle);
    assert!(!a.consumed, "a result outside the consent dialog stays in its slot");

    let mut s = ProbeState::Consent;
    let a = s.advance(ProbeLanding::Failed("daemon busy".to_owned()));
    assert_eq!(s, ProbeState::Idle);
    assert!(a.consumed);
    assert_eq!(a.title, None);
    assert_eq!(a.notice, Some("! daemon busy".to_owned()));
}

#[test]
fn dialog_clicks_take_effect_only_in_their_dialog() {
    // Allow arms the request from the consent dialog, not while a report
    // is in flight, not from another state.
    let mut s = ProbeState::Consent;
    assert!(s.click(DialogEvent::AllowProbe, false, false, &None).request_probe);
    assert_eq!(s, ProbeState::Consent);
    assert!(!s.click(DialogEvent::AllowProbe, true, false, &None).request_probe);
    let mut idle = ProbeState::Idle;
    assert!(!idle.click(DialogEvent::AllowProbe, false, false, &None).request_probe);

    // Cancel is ignored while in flight, else returns to idle.
    s.click(DialogEvent::CancelConsent, true, false, &None);
    assert_eq!(s, ProbeState::Consent);
    s.click(DialogEvent::CancelConsent, false, false, &None);
    assert_eq!(s, ProbeState::Idle);

    // Open GitHub Issue: copy, notice, the title's URL, done.
    let title = Some("[Probe] x".to_owned());
    let mut p = ProbeState::Preview("# report".to_owned());
    let e = p.click(DialogEvent::OpenIssue, false, false, &title);
    assert_eq!(p, ProbeState::Done);
    assert_eq!(e.copy, Some("# report".to_owned()));
    assert_eq!(e.open_url, Some(probe_issue_url("[Probe] x")));
    assert_eq!(e.notice, Some(PROBE_ISSUE_COPY_NOTICE.to_owned()));

    // No title: no URL is opened.
    let mut p = ProbeState::Preview("# report".to_owned());
    let e = p.click(DialogEvent::OpenIssue, false, false, &None);
    assert_eq!(e.open_url, None);
    assert_eq!(e.copy, Some("# report".to_owned()));

    // Copy keeps the preview open; Cancel returns to idle.
    let mut p = ProbeState::Preview("md".to_owned());
    assert_eq!(p.click(DialogEvent::CopyReport, false, false, &None).copy, Some("md".to_owned()));
    assert_eq!(p, ProbeState::Preview("md".to_owned()));
    p.click(DialogEvent::CancelPreview, false, false, &None);
    assert_eq!(p, ProbeState::Idle);

    // The setup dialogs and the strip.
    let mut i = ProbeState::Idle;
    assert!(i.click(DialogEvent::Later, false, false, &None).dismiss_prompt);
    assert!(i.click(DialogEvent::GotIt, false, false, &None).close_requirements);
    assert!(i.click(DialogEvent::RunSetup, false, false, &None).start_setup);
    assert!(!i.click(DialogEvent::RunSetup, false, true, &None).start_setup, "a pending run is not asked again");
    assert_eq!(i, ProbeState::Idle);
}
