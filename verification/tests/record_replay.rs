use pioneer_egui::ops::{
    op_rotate_3d, op_set_checkbox, op_set_label, op_start_playback, op_start_recording,
    op_stop_playback, op_stop_recording,
};
use pioneer_egui::playback::tick_playback;
use pioneer_egui::{Command, EguiApp, Rotate3DArgs, SetCheckboxArgs, SetLabelArgs};

#[test]
fn recording_captures_commands_in_order_with_offsets() {
    let mut app = EguiApp::default();
    op_start_recording(&mut app, 1_000).unwrap();
    assert!(app.is_recording);
    assert_eq!(app.recording_start, Some(1_000));

    op_set_label(&mut app, SetLabelArgs { text: "first".to_string() }, 1_000).unwrap();
    op_set_checkbox(&mut app, SetCheckboxArgs { id: "cb".to_string(), checked: true }, 1_025)
        .unwrap();
    op_rotate_3d(&mut app, Rotate3DArgs { angle: 30_000 }, 1_100).unwrap();

    let log = op_stop_recording(&mut app, 1_200);
    assert!(!app.is_recording);
    assert_eq!(app.recording_start, None);

    assert_eq!(log.len(), 3);
    assert_eq!(log[0].event_type, "set_label");
    assert_eq!(log[0].component_id, "");
    assert_eq!(log[0].timestamp, 0);
    assert_eq!(log[1].event_type, "set_checkbox");
    assert_eq!(log[1].component_id, "cb");
    assert_eq!(log[1].timestamp, 25);
    assert_eq!(log[2].event_type, "rotate_3d");
    assert_eq!(log[2].component_id, "");
    assert_eq!(log[2].timestamp, 100);
    assert!(log[0].timestamp <= log[1].timestamp && log[1].timestamp <= log[2].timestamp);

    // The captured sequence is retained for playback.
    assert_eq!(app.recorded_events.len(), 3);
}

#[test]
fn recorded_payload_matches_command_arguments() {
    let mut app = EguiApp::default();
    op_start_recording(&mut app, 0).unwrap();
    op_set_label(&mut app, SetLabelArgs { text: "payload".to_string() }, 7).unwrap();
    let log = op_stop_recording(&mut app, 10);
    assert_eq!(log.len(), 1);
    match &log[0].event_data {
        Command::SetLabel(args) => assert_eq!(args.text, "payload"),
        other => panic!("unexpected payload: {:?}", other),
    }
}

#[test]
fn start_recording_twice_is_a_no_op() {
    let mut app = EguiApp::default();
    op_start_recording(&mut app, 100).unwrap();
    op_set_label(&mut app, SetLabelArgs { text: "kept".to_string() }, 150).unwrap();
    // A second start must not clear the running session's log or move its
    // start instant.
    op_start_recording(&mut app, 400).unwrap();
    assert_eq!(app.recording_start, Some(100));
    assert_eq!(app.recorded_events.len(), 1);
    let log = op_stop_recording(&mut app, 500);
    assert_eq!(log.len(), 1);
    assert_eq!(log[0].timestamp, 50);
}

#[test]
fn stop_recording_when_idle_returns_empty() {
    let mut app = EguiApp::default();
    let log = op_stop_recording(&mut app, 42);
    assert!(log.is_empty());
    assert!(!app.is_recording);
}

#[test]
fn control_commands_are_not_recorded() {
    let mut app = EguiApp::default();
    op_set_label(&mut app, SetLabelArgs { text: "seed".to_string() }, 0).unwrap();
    op_start_recording(&mut app, 10).unwrap();
    op_start_recording(&mut app, 20).unwrap();
    op_start_playback(&mut app, 30).unwrap();
    op_stop_playback(&mut app, 40).unwrap();
    let log = op_stop_recording(&mut app, 50);
    assert!(log.is_empty());
}

#[test]
fn start_playback_with_empty_log_is_a_no_op() {
    let mut app = EguiApp::default();
    op_start_playback(&mut app, 10).unwrap();
    assert!(!app.is_playing);
    assert!(app.playback_start.is_none());
}

#[test]
fn start_playback_with_events_resets_cursor_and_starts() {
    let mut app = EguiApp::default();
    op_start_recording(&mut app, 0).unwrap();
    op_set_label(&mut app, SetLabelArgs { text: "x".to_string() }, 5).unwrap();
    op_stop_recording(&mut app, 10);
    op_start_playback(&mut app, 2_000).unwrap();
    assert!(app.is_playing);
    assert_eq!(app.playback_index, 0);
    assert_eq!(app.playback_start, Some(2_000));
    // Starting again while playing is a no-op.
    op_start_playback(&mut app, 3_000).unwrap();
    assert_eq!(app.playback_start, Some(2_000));
}

#[test]
fn timed_replay_applies_events_at_their_offsets() {
    let mut app = EguiApp::default();
    op_start_recording(&mut app, 1_000).unwrap();
    op_set_label(&mut app, SetLabelArgs { text: "A".to_string() }, 1_000).unwrap();
    op_set_label(&mut app, SetLabelArgs { text: "B".to_string() }, 1_050).unwrap();
    let log = op_stop_recording(&mut app, 1_060);
    assert_eq!(log.len(), 2);

    op_set_label(&mut app, SetLabelArgs { text: "live".to_string() }, 1_500).unwrap();
    op_start_playback(&mut app, 2_000).unwrap();

    // A tick 10 ms in applies only the first event.
    tick_playback(&mut app, 2_010);
    assert_eq!(app.label_text, "A");
    assert!(app.is_playing);
    assert_eq!(app.playback_index, 1);

    // A tick 60 ms in applies the second event and completes the session.
    tick_playback(&mut app, 2_060);
    assert_eq!(app.label_text, "B");
    assert!(!app.is_playing);

    // A tick past the log end changes nothing further.
    tick_playback(&mut app, 2_200);
    assert!(!app.is_playing);
    assert_eq!(app.label_text, "B");
}

#[test]
fn one_tick_replays_all_due_events_in_order() {
    let mut app = EguiApp::default();
    op_start_recording(&mut app, 0).unwrap();
    op_set_label(&mut app, SetLabelArgs { text: "one".to_string() }, 10).unwrap();
    op_rotate_3d(&mut app, Rotate3DArgs { angle: 5_000 }, 20).unwrap();
    op_set_label(&mut app, SetLabelArgs { text: "two".to_string() }, 30).unwrap();
    op_stop_recording(&mut app, 40);
    assert_eq!(app.rotation, 5_000);

    op_start_playback(&mut app, 100).unwrap();
    // All three events are due at once; they replay in recorded order and the
    // rotation accumulates on top of the live value.
    tick_playback(&mut app, 200);
    assert_eq!(app.label_text, "two");
    assert_eq!(app.rotation, 10_000);
    assert!(!app.is_playing);
}

#[test]
fn tick_applies_nothing_before_the_first_event_is_due() {
    let mut app = EguiApp::default();
    op_start_recording(&mut app, 0).unwrap();
    op_set_label(&mut app, SetLabelArgs { text: "later".to_string() }, 500).unwrap();
    op_stop_recording(&mut app, 600);
    op_set_label(&mut app, SetLabelArgs { text: "now".to_string() }, 700).unwrap();
    op_start_playback(&mut app, 1_000).unwrap();
    tick_playback(&mut app, 1_100);
    assert_eq!(app.label_text, "now");
    assert!(app.is_playing);
    assert_eq!(app.playback_index, 0);
}

#[test]
fn stop_playback_mid_session_resets_without_error() {
    let mut app = EguiApp::default();
    op_start_recording(&mut app, 0).unwrap();
    op_set_label(&mut app, SetLabelArgs { text: "p".to_string() }, 10).unwrap();
    op_set_label(&mut app, SetLabelArgs { text: "q".to_string() }, 900).unwrap();
    op_stop_recording(&mut app, 1_000);

    op_start_playback(&mut app, 2_000).unwrap();
    tick_playback(&mut app, 2_020);
    assert_eq!(app.label_text, "p");
    assert_eq!(app.playback_index, 1);

    // Abrupt stop with one event still unreplayed.
    op_stop_playback(&mut app, 2_030).unwrap();
    assert!(!app.is_playing);
    assert_eq!(app.playback_index, 0);
    assert!(app.playback_start.is_none());
    // The unreplayed event never ran and the log is retained.
    assert_eq!(app.label_text, "p");
    assert_eq!(app.recorded_events.len(), 2);
}

#[test]
fn tick_when_idle_is_a_no_op() {
    let mut app = EguiApp::default();
    op_set_label(&mut app, SetLabelArgs { text: "still".to_string() }, 0).unwrap();
    tick_playback(&mut app, 9_999);
    assert_eq!(app.label_text, "still");
    assert!(!app.is_playing);
}

#[test]
fn replayed_commands_are_not_re_recorded() {
    let mut app = EguiApp::default();
    op_start_recording(&mut app, 0).unwrap();
    op_set_label(&mut app, SetLabelArgs { text: "r".to_string() }, 10).unwrap();
    op_stop_recording(&mut app, 20);
    op_start_playback(&mut app, 100).unwrap();
    // Turn recording back on while playing: replay must not grow the log.
    op_start_recording(&mut app, 110).unwrap();
    assert!(app.recorded_events.is_empty());
    tick_playback(&mut app, 200);
    assert_eq!(app.label_text, "r");
    assert!(app.recorded_events.is_empty());
    assert!(app.is_recording);
}

#[test]
fn new_recording_session_clears_the_previous_log() {
    let mut app = EguiApp::default();
    op_start_recording(&mut app, 0).unwrap();
    op_set_label(&mut app, SetLabelArgs { text: "old".to_string() }, 10).unwrap();
    op_stop_recording(&mut app, 20);
    assert_eq!(app.recorded_events.len(), 1);
    op_start_recording(&mut app, 100).unwrap();
    assert!(app.recorded_events.is_empty());
    assert_eq!(app.recording_start, Some(100));
}

#[test]
fn recorded_events_carry_component_identifiers() {
    let mut app = EguiApp::default();
    op_start_recording(&mut app, 0).unwrap();
    pioneer_egui::ops::op_set_progress(
        &mut app,
        pioneer_egui::SetProgressArgs { id: "bar".to_string(), value: 500 },
        5,
    )
    .unwrap();
    pioneer_egui::ops::op_add_3d_object(
        &mut app,
        pioneer_egui::Add3DObjectArgs { payload: "{}".to_string() },
        9,
    )
    .unwrap();
    let log = op_stop_recording(&mut app, 10);
    assert_eq!(log.len(), 2);
    assert_eq!(log[0].event_type, "set_progress");
    assert_eq!(log[0].component_id, "bar");
    assert_eq!(log[1].event_type, "add_3d_object");
    assert_eq!(log[1].component_id, "");
    assert_eq!(log[1].timestamp, 9);
}
