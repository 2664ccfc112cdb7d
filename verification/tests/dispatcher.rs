use pioneer_egui::ops::{
    dispatch, op_add_3d_object, op_rotate_3d, op_set_checkbox, op_set_combo_box, op_set_input,
    op_set_label, op_set_progress, op_set_radio, op_set_slider, op_start_recording,
    op_stop_recording,
};
use pioneer_egui::{
    Add3DObjectArgs, Command, CommandError, EguiApp, Rotate3DArgs, SetCheckboxArgs,
    SetComboBoxArgs, SetInputArgs, SetLabelArgs, SetProgressArgs, SetRadioArgs, SetSliderArgs,
};

#[test]
fn default_state_is_empty_and_idle() {
    let app = EguiApp::default();
    assert_eq!(app.label_text, "");
    assert_eq!(app.slider_value, 0);
    assert_eq!(app.input_text, "");
    assert_eq!(app.rotation, 0);
    assert!(!app.is_recording);
    assert!(app.recording_start.is_none());
    assert!(!app.is_playing);
    assert_eq!(app.playback_index, 0);
    assert!(app.playback_start.is_none());
    assert!(app.recorded_events.is_empty());
}

#[test]
fn set_label_replaces_label() {
    let mut app = EguiApp::default();
    let r = op_set_label(&mut app, SetLabelArgs { text: "hello".to_string() }, 0);
    assert!(r.is_ok());
    assert_eq!(app.label_text, "hello");
    op_set_label(&mut app, SetLabelArgs { text: "world".to_string() }, 1).unwrap();
    assert_eq!(app.label_text, "world");
}

#[test]
fn set_slider_replaces_value_without_clamping() {
    let mut app = EguiApp::default();
    op_set_slider(&mut app, SetSliderArgs { value: 42_500 }, 0).unwrap();
    assert_eq!(app.slider_value, 42_500);
    // No clamping: a value past 100 units is stored as handed in.
    op_set_slider(&mut app, SetSliderArgs { value: 250_000 }, 1).unwrap();
    assert_eq!(app.slider_value, 250_000);
}

#[test]
fn set_input_replaces_buffer() {
    let mut app = EguiApp::default();
    op_set_input(&mut app, SetInputArgs { text: "typed".to_string() }, 0).unwrap();
    assert_eq!(app.input_text, "typed");
}

#[test]
fn set_checkbox_creates_and_replaces() {
    let mut app = EguiApp::default();
    let id = "agree".to_string();
    op_set_checkbox(&mut app, SetCheckboxArgs { id: id.clone(), checked: true }, 0).unwrap();
    assert_eq!(app.get_checkbox(&id), Some(&true));
    op_set_checkbox(&mut app, SetCheckboxArgs { id: id.clone(), checked: false }, 1).unwrap();
    assert_eq!(app.get_checkbox(&id), Some(&false));
}

#[test]
fn checkbox_ids_are_independent() {
    let mut app = EguiApp::default();
    let a = "a".to_string();
    let b = "b".to_string();
    op_set_checkbox(&mut app, SetCheckboxArgs { id: a.clone(), checked: true }, 0).unwrap();
    op_set_checkbox(&mut app, SetCheckboxArgs { id: b.clone(), checked: false }, 1).unwrap();
    assert_eq!(app.get_checkbox(&a), Some(&true));
    assert_eq!(app.get_checkbox(&b), Some(&false));
    assert_eq!(app.get_checkbox(&"absent".to_string()), None);
}

#[test]
fn set_combo_box_replaces_whole_tuple() {
    let mut app = EguiApp::default();
    let id = "fruit".to_string();
    op_set_combo_box(
        &mut app,
        SetComboBoxArgs {
            id: id.clone(),
            selected: "apple".to_string(),
            options: vec!["apple".to_string(), "pear".to_string()],
        },
        0,
    )
    .unwrap();
    op_set_combo_box(
        &mut app,
        SetComboBoxArgs {
            id: id.clone(),
            selected: "plum".to_string(),
            options: vec!["plum".to_string()],
        },
        1,
    )
    .unwrap();
    let entry = app.get_combo_box(&id).unwrap();
    assert_eq!(entry.selected, "plum");
    // The option list is replaced, never merged.
    assert_eq!(entry.options, vec!["plum".to_string()]);
}

#[test]
fn combo_box_ids_are_independent() {
    let mut app = EguiApp::default();
    let a = "a".to_string();
    let b = "b".to_string();
    op_set_combo_box(
        &mut app,
        SetComboBoxArgs {
            id: a.clone(),
            selected: "one".to_string(),
            options: vec!["one".to_string(), "two".to_string()],
        },
        0,
    )
    .unwrap();
    op_set_combo_box(
        &mut app,
        SetComboBoxArgs { id: b.clone(), selected: "x".to_string(), options: vec![] },
        1,
    )
    .unwrap();
    let entry = app.get_combo_box(&a).unwrap();
    assert_eq!(entry.selected, "one");
    assert_eq!(entry.options, vec!["one".to_string(), "two".to_string()]);
}

#[test]
fn set_radio_and_progress() {
    let mut app = EguiApp::default();
    let id = "group".to_string();
    op_set_radio(&mut app, SetRadioArgs { id: id.clone(), selected: "left".to_string() }, 0)
        .unwrap();
    assert_eq!(app.get_radio(&id), Some(&"left".to_string()));
    let bar = "load".to_string();
    op_set_progress(&mut app, SetProgressArgs { id: bar.clone(), value: 750 }, 1).unwrap();
    assert_eq!(app.get_progress(&bar), Some(&750));
    // No clamping to one unit.
    op_set_progress(&mut app, SetProgressArgs { id: bar.clone(), value: 1_500 }, 2).unwrap();
    assert_eq!(app.get_progress(&bar), Some(&1_500));
}

#[test]
fn rotation_accumulates_and_is_never_overwritten() {
    let mut app = EguiApp::default();
    op_rotate_3d(&mut app, Rotate3DArgs { angle: 45_000 }, 0).unwrap();
    op_rotate_3d(&mut app, Rotate3DArgs { angle: 90_000 }, 1).unwrap();
    op_rotate_3d(&mut app, Rotate3DArgs { angle: -15_000 }, 2).unwrap();
    assert_eq!(app.rotation, 120_000);
    // Accumulation past a full turn is not normalized to [0, 360).
    op_rotate_3d(&mut app, Rotate3DArgs { angle: 350_000 }, 3).unwrap();
    assert_eq!(app.rotation, 470_000);
}

#[test]
fn rotate_overflow_is_rejected_and_state_unchanged() {
    let mut app = EguiApp::default();
    op_rotate_3d(&mut app, Rotate3DArgs { angle: i64::MAX }, 0).unwrap();
    assert_eq!(app.rotation, i64::MAX);
    let r = op_rotate_3d(&mut app, Rotate3DArgs { angle: 1 }, 1);
    assert_eq!(r, Err(CommandError::RotationOverflow));
    assert_eq!(app.rotation, i64::MAX);
}

#[test]
fn rejected_rotate_is_not_recorded() {
    let mut app = EguiApp::default();
    op_rotate_3d(&mut app, Rotate3DArgs { angle: i64::MAX }, 0).unwrap();
    op_start_recording(&mut app, 100).unwrap();
    let r = op_rotate_3d(&mut app, Rotate3DArgs { angle: 1 }, 150);
    assert!(r.is_err());
    let log = op_stop_recording(&mut app, 200);
    assert!(log.is_empty());
}

#[test]
fn add_3d_object_mutates_nothing() {
    let mut app = EguiApp::default();
    op_set_label(&mut app, SetLabelArgs { text: "kept".to_string() }, 0).unwrap();
    op_add_3d_object(
        &mut app,
        Add3DObjectArgs { payload: "{\"kind\":\"cube\"}".to_string() },
        1,
    )
    .unwrap();
    assert_eq!(app.label_text, "kept");
    assert_eq!(app.rotation, 0);
    assert!(app.recorded_events.is_empty());
}

#[test]
fn dispatch_routes_every_variant() {
    let mut app = EguiApp::default();
    dispatch(&mut app, Command::SetLabel(SetLabelArgs { text: "via bus".to_string() }), 0)
        .unwrap();
    assert_eq!(app.label_text, "via bus");
    dispatch(&mut app, Command::StartRecording, 10).unwrap();
    assert!(app.is_recording);
    dispatch(&mut app, Command::Rotate3D(Rotate3DArgs { angle: 1_000 }), 20).unwrap();
    assert_eq!(app.rotation, 1_000);
    assert_eq!(app.recorded_events.len(), 1);
    dispatch(&mut app, Command::StopRecording, 30).unwrap();
    assert!(!app.is_recording);
    dispatch(&mut app, Command::StartPlayback, 40).unwrap();
    assert!(app.is_playing);
    dispatch(&mut app, Command::StopPlayback, 50).unwrap();
    assert!(!app.is_playing);
}

#[test]
fn absent_identifiers_read_as_none() {
    let app = EguiApp::default();
    let id = "missing".to_string();
    assert!(app.get_checkbox(&id).is_none());
    assert!(app.get_combo_box(&id).is_none());
    assert!(app.get_radio(&id).is_none());
    assert!(app.get_progress(&id).is_none());
}

#[test]
fn radio_ids_are_independent() {
    let mut app = EguiApp::default();
    let a = "left".to_string();
    let b = "right".to_string();
    op_set_radio(&mut app, SetRadioArgs { id: a.clone(), selected: "on".to_string() }, 0).unwrap();
    op_set_radio(&mut app, SetRadioArgs { id: b.clone(), selected: "off".to_string() }, 1)
        .unwrap();
    assert_eq!(app.get_radio(&a), Some(&"on".to_string()));
    assert_eq!(app.get_radio(&b), Some(&"off".to_string()));
}
