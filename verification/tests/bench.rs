use ramsleuth_gui::style::{AMBER, CRIMSON, CYAN};
use ramsleuth_gui::bench::{burn_in_row, cell_color, status_color, track_run_start, STATUS_DONE};
use ramsleuth_gui::bench::{
    burn_in_cmd, burn_in_minutes_clamped, cell_phase, format_elapsed, memory_only_cmd, metric_name,
    run_full_cmd, run_in_flight, status_state, status_text, tier_name, BenchMode, CellPhase, Metric,
    StatusState, Tier, BURN_IN_MINUTES_MAX,
};

#[test]
fn run_in_flight_tracks_the_single_flight_state() {
    assert!(!run_in_flight(false, false), "idle");
    assert!(run_in_flight(true, false), "a normal bench in flight");
    assert!(run_in_flight(false, true), "a burn-in in flight");
    assert!(run_in_flight(true, true), "both in flight");
}

#[test]
fn tier_and_metric_names() {
    assert_eq!(tier_name(Tier::Memory), "Memory");
    assert_eq!(tier_name(Tier::L1), "L1");
    assert_eq!(tier_name(Tier::L2), "L2");
    assert_eq!(tier_name(Tier::L3), "L3");
    assert_eq!(metric_name(Metric::Read), "Read");
    assert_eq!(metric_name(Metric::Write), "Write");
    assert_eq!(metric_name(Metric::Copy), "Copy");
    assert_eq!(metric_name(Metric::Latency), "Latency");
}

#[test]
fn burn_in_minutes_clamp_to_a_day() {
    assert_eq!(burn_in_minutes_clamped(0), 0);
    assert_eq!(burn_in_minutes_clamped(5), 5);
    assert_eq!(burn_in_minutes_clamped(1440), 1440);
    assert_eq!(burn_in_minutes_clamped(1441), BURN_IN_MINUTES_MAX);
    assert_eq!(burn_in_minutes_clamped(u32::MAX), 1440);
}

#[test]
fn run_commands_carry_their_scope() {
    let cmd = burn_in_cmd(90);
    assert_eq!(cmd.mode, BenchMode::Full);
    assert_eq!(cmd.duration_minutes, Some(90));
    assert_eq!(burn_in_cmd(5000).duration_minutes, Some(1440));
    assert_eq!(burn_in_cmd(0).duration_minutes, Some(0));
    assert_eq!(run_full_cmd().mode, BenchMode::Full);
    assert_eq!(run_full_cmd().duration_minutes, None);
    assert_eq!(memory_only_cmd().mode, BenchMode::MemoryOnly);
    assert_eq!(memory_only_cmd().duration_minutes, None);
}

#[test]
fn format_elapsed_renders_minutes_and_seconds() {
    // Whole seconds (the app rounds a fractional, negative or
    // non-finite elapsed down to whole seconds, zero for the latter).
    assert_eq!(format_elapsed(0), "0:00");
    assert_eq!(format_elapsed(59), "0:59");
    assert_eq!(format_elapsed(60), "1:00");
    assert_eq!(format_elapsed(125), "2:05");
    assert_eq!(format_elapsed(3661), "61:01");
}

#[test]
fn format_elapsed_is_minutes_and_padded_seconds() {
    assert_eq!(format_elapsed(0), "0:00");
    assert_eq!(format_elapsed(42), "0:42");
    assert_eq!(format_elapsed(60), "1:00");
    assert_eq!(format_elapsed(3665), "61:05");
}

#[test]
fn status_state_priorities() {
    assert_eq!(status_state(false, false, false, false, 0, 0), StatusState::Idle);
    assert_eq!(status_state(false, false, true, false, 0, 0), StatusState::Done);
    assert_eq!(status_state(false, false, false, true, 0, 0), StatusState::Done);
    assert_eq!(
        status_state(true, false, true, true, 42, 3),
        StatusState::Running { elapsed_secs: 42, burn_in_iteration: None }
    );
    assert_eq!(
        status_state(true, true, false, false, 75, 3),
        StatusState::Running { elapsed_secs: 75, burn_in_iteration: Some(3) }
    );
}

#[test]
fn status_text_lines() {
    assert_eq!(status_text(StatusState::Idle), "Status: Idle");
    assert_eq!(status_text(StatusState::Done), "Status: Done");
    assert_eq!(
        status_text(StatusState::Running { elapsed_secs: 42, burn_in_iteration: None }),
        "Status: Running… 0:42"
    );
    assert_eq!(
        status_text(StatusState::Running { elapsed_secs: 125, burn_in_iteration: Some(7) }),
        "Status: Running… (burn-in 2:05, iter 7)"
    );
}

#[test]
fn cell_phase_by_run_state() {
    assert_eq!(cell_phase(false, true), CellPhase::Terminal);
    assert_eq!(cell_phase(false, false), CellPhase::Terminal);
    assert_eq!(cell_phase(true, true), CellPhase::Live);
    assert_eq!(cell_phase(true, false), CellPhase::NotStarted);
}


#[test]
fn status_state_tracks_the_run_states() {
    assert_eq!(status_state(false, false, false, false, 0, 0), StatusState::Idle);
    assert_eq!(
        status_state(true, false, false, true, 42, 0),
        StatusState::Running { elapsed_secs: 42, burn_in_iteration: None }
    );
    assert_eq!(
        status_state(false, true, false, false, 125, 3),
        StatusState::Running { elapsed_secs: 125, burn_in_iteration: Some(3) }
    );
    assert_eq!(
        status_state(false, true, true, false, 9, 2),
        StatusState::Running { elapsed_secs: 9, burn_in_iteration: Some(2) }
    );
    assert_eq!(status_state(false, false, true, false, 0, 0), StatusState::Done);
    assert_eq!(status_state(false, false, false, true, 0, 0), StatusState::Done);
}

#[test]
fn status_text_renders_the_flat_lines() {
    assert_eq!(status_text(StatusState::Idle), "Status: Idle");
    assert_eq!(
        status_text(StatusState::Running { elapsed_secs: 42, burn_in_iteration: None }),
        "Status: Running… 0:42"
    );
    assert_eq!(
        status_text(StatusState::Running { elapsed_secs: 125, burn_in_iteration: None }),
        "Status: Running… 2:05"
    );
    assert_eq!(
        status_text(StatusState::Running { elapsed_secs: 0, burn_in_iteration: None }),
        "Status: Running… 0:00"
    );
    assert_eq!(
        status_text(StatusState::Running { elapsed_secs: 125, burn_in_iteration: Some(3) }),
        "Status: Running… (burn-in 2:05, iter 3)"
    );
    assert_eq!(
        status_text(StatusState::Running { elapsed_secs: 0, burn_in_iteration: Some(0) }),
        "Status: Running… (burn-in 0:00, iter 0)"
    );
    assert_eq!(status_text(StatusState::Done), "Status: Done");
}

#[test]
fn status_color_tracks_the_state() {
    let dim = 0x808080;
    assert_eq!(status_color(StatusState::Idle, dim), dim, "the idle line is the dim color");
    assert_eq!(status_color(StatusState::Running { elapsed_secs: 42, burn_in_iteration: None }, dim), CYAN);
    assert_eq!(status_color(StatusState::Running { elapsed_secs: 125, burn_in_iteration: Some(3) }, dim), CYAN);
    assert_eq!(status_color(StatusState::Done, dim), STATUS_DONE);
    assert_eq!(STATUS_DONE, 0x2E9E5B, "the done green");
}

#[test]
fn cell_phase_tracks_running_and_streamed_values() {
    // Not in flight: every cell renders its terminal value.
    for measured in [false, true] {
        assert_eq!(cell_phase(false, measured), CellPhase::Terminal);
    }
    // In flight: the streamed cells are live, the rest not started.
    assert_eq!(cell_phase(true, true), CellPhase::Live);
    assert_eq!(cell_phase(true, false), CellPhase::NotStarted);
}

#[test]
fn burn_in_cmd_sends_the_duration_bearing_cmd() {
    for minutes in [0, 5, 90, 1440] {
        let cmd = burn_in_cmd(minutes);
        assert_eq!(cmd.mode, BenchMode::Full, "a full-scope burn-in");
        assert_eq!(cmd.duration_minutes, Some(minutes), "the requested minutes ride the cmd");
    }
}

#[test]
fn burn_in_cmd_clamps_the_minutes() {
    assert_eq!(burn_in_minutes_clamped(0), 0);
    assert_eq!(burn_in_minutes_clamped(1440), 1440);
    assert_eq!(burn_in_minutes_clamped(9999), BURN_IN_MINUTES_MAX);
    assert_eq!(burn_in_cmd(9999).duration_minutes, Some(BURN_IN_MINUTES_MAX));
    assert_eq!(burn_in_cmd(0).duration_minutes, Some(0));
}

#[test]
fn bench_zone_cell_color_semantics() {
    assert_eq!(cell_color(Metric::Read, "26.35 GB/s"), CYAN);
    assert_eq!(cell_color(Metric::Latency, "86.84 ns"), AMBER);
    assert_eq!(cell_color(Metric::Copy, "N/A"), CRIMSON);
    assert_eq!(cell_color(Metric::Latency, "N/A"), CRIMSON);
}

#[test]
fn burn_in_row_renders_the_per_iteration_values() {
    assert_eq!(burn_in_row(false, 0, 0, "N/A", "N/A"), None);
    assert_eq!(
        burn_in_row(true, 0, 0, "N/A", "N/A"),
        Some("Burn-in: iteration 0 · 0:00 elapsed · Memory Read N/A · N/A".to_owned())
    );
    assert_eq!(
        burn_in_row(true, 3, 125, "26.35 GB/s", "86.84 ns"),
        Some("Burn-in: iteration 3 · 2:05 elapsed · Memory Read 26.35 GB/s · 86.84 ns".to_owned())
    );
}

#[test]
fn track_run_start_stamps_the_first_in_flight_frame() {
    let mut stamp: Option<u64> = None;
    assert_eq!(track_run_start(&mut stamp, false, 5), None);
    assert_eq!(stamp, None);
    assert_eq!(track_run_start(&mut stamp, true, 10), Some(10));
    assert_eq!(track_run_start(&mut stamp, true, 12), Some(10), "the first stamp is kept");
    assert_eq!(stamp, Some(10));
    assert_eq!(track_run_start(&mut stamp, false, 14), None);
    assert_eq!(stamp, None, "the terminal clears the stamp");
    assert_eq!(track_run_start(&mut stamp, true, 20), Some(20));
}
