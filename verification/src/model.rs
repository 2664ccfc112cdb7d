//! The mathematical model of the command bus.
//!
//! Every executable operation is specified against this model: `AppView` is
//! the abstract state, `CmdView` the abstract command, and `spec_dispatch` /
//! `spec_tick` are the transition functions. The contracts of the executable
//! dispatcher and playback scheduler state that each call performs exactly
//! one such transition, and the laws in `laws` are proved over the model.

use vstd::prelude::*;

verus! {

/// The abstract (selected value, ordered option list) entry of one combo box.
#[verifier::ext_equal]
pub ghost struct ComboView {
    pub selected: Seq<char>,
    pub options: Seq<Seq<char>>,
}

/// One command, abstractly: a tagged variant per named operation, carrying
/// the views of its arguments. Numeric values are the fixed-point integers
/// the store holds (thousandths of a unit).
#[verifier::ext_equal]
pub ghost enum CmdView {
    SetLabel { text: Seq<char> },
    SetSlider { value: i64 },
    SetInput { text: Seq<char> },
    SetCheckbox { id: Seq<char>, checked: bool },
    SetComboBox { id: Seq<char>, selected: Seq<char>, options: Seq<Seq<char>> },
    SetRadio { id: Seq<char>, selected: Seq<char> },
    SetProgress { id: Seq<char>, value: i64 },
    Rotate3D { angle: i64 },
    Add3DObject { payload: Seq<char> },
    StartRecording,
    StopRecording,
    StartPlayback,
    StopPlayback,
}

/// One recorded event: the command's tag, the originating component
/// identifier (empty for global commands), the command itself as payload, and
/// milliseconds elapsed since the recording session started.
#[verifier::ext_equal]
pub ghost struct EventView {
    pub event_type: Seq<char>,
    pub component_id: Seq<char>,
    pub event_data: CmdView,
    pub timestamp: int,
}

/// The abstract state: the store's fields plus the recording and playback
/// control fields.
#[verifier::ext_equal]
pub ghost struct AppView {
    pub label_text: Seq<char>,
    pub slider_value: i64,
    pub input_text: Seq<char>,
    pub checkboxes: Map<Seq<char>, bool>,
    pub combo_boxes: Map<Seq<char>, ComboView>,
    pub radio_groups: Map<Seq<char>, Seq<char>>,
    pub progress_bars: Map<Seq<char>, i64>,
    pub rotation: i64,
    pub is_recording: bool,
    pub recorded_events: Seq<EventView>,
    pub recording_start: Option<int>,
    pub is_playing: bool,
    pub playback_index: int,
    pub playback_start: Option<int>,
}

impl AppView {
    /// The control flags and the session-start instants stand or fall
    /// together.
    pub open spec fn wf(self) -> bool {
        &&& self.is_recording <==> self.recording_start is Some
        &&& self.is_playing <==> self.playback_start is Some
    }
}

/// Whether a command is a data command: one that mutates (or, for
/// `add_3d_object`, merely passes through) the store, and is therefore
/// captured while a recording session is active. The four session-control
/// commands are never recorded.
pub open spec fn recordable(c: CmdView) -> bool {
    match c {
        CmdView::StartRecording => false,
        CmdView::StopRecording => false,
        CmdView::StartPlayback => false,
        CmdView::StopPlayback => false,
        _ => true,
    }
}

/// The string tag naming a command variant, as stored in a recorded event.
pub open spec fn cmd_tag(c: CmdView) -> Seq<char> {
    match c {
        CmdView::SetLabel { .. } => "set_label"@,
        CmdView::SetSlider { .. } => "set_slider"@,
        CmdView::SetInput { .. } => "set_input"@,
        CmdView::SetCheckbox { .. } => "set_checkbox"@,
        CmdView::SetComboBox { .. } => "set_combo_box"@,
        CmdView::SetRadio { .. } => "set_radio"@,
        CmdView::SetProgress { .. } => "set_progress"@,
        CmdView::Rotate3D { .. } => "rotate_3d"@,
        CmdView::Add3DObject { .. } => "add_3d_object"@,
        CmdView::StartRecording => "start_recording"@,
        CmdView::StopRecording => "stop_recording"@,
        CmdView::StartPlayback => "start_playback"@,
        CmdView::StopPlayback => "stop_playback"@,
    }
}

/// The identifier of the component a command addresses; empty for global
/// commands.
pub open spec fn cmd_component_id(c: CmdView) -> Seq<char> {
    match c {
        CmdView::SetCheckbox { id, .. } => id,
        CmdView::SetComboBox { id, .. } => id,
        CmdView::SetRadio { id, .. } => id,
        CmdView::SetProgress { id, .. } => id,
        _ => Seq::empty(),
    }
}

/// Whether a command's arguments are valid for the current state. Only
/// `rotate_3d` can be rejected: the accumulator is a 64-bit fixed-point
/// integer, so an increment that would take it outside that range fails
/// validation and the invocation is refused.
pub open spec fn can_apply(v: AppView, c: CmdView) -> bool {
    match c {
        CmdView::Rotate3D { angle } => i64::MIN <= v.rotation + angle <= i64::MAX,
        _ => true,
    }
}

/// The effect of a data command on the store fields alone: recording and
/// playback control fields are untouched, and every keyed entry other than
/// the addressed one is unchanged. Control commands and `add_3d_object`
/// leave the store as it is.
pub open spec fn apply_data(v: AppView, c: CmdView) -> AppView {
    match c {
        CmdView::SetLabel { text } => AppView { label_text: text, ..v },
        CmdView::SetSlider { value } => AppView { slider_value: value, ..v },
        CmdView::SetInput { text } => AppView { input_text: text, ..v },
        CmdView::SetCheckbox { id, checked } => AppView {
            checkboxes: v.checkboxes.insert(id, checked),
            ..v
        },
        CmdView::SetComboBox { id, selected, options } => AppView {
            combo_boxes: v.combo_boxes.insert(id, ComboView { selected, options }),
            ..v
        },
        CmdView::SetRadio { id, selected } => AppView {
            radio_groups: v.radio_groups.insert(id, selected),
            ..v
        },
        CmdView::SetProgress { id, value } => AppView {
            progress_bars: v.progress_bars.insert(id, value),
            ..v
        },
        CmdView::Rotate3D { angle } => if i64::MIN <= v.rotation + angle <= i64::MAX {
            AppView { rotation: (v.rotation + angle) as i64, ..v }
        } else {
            v
        },
        _ => v,
    }
}

/// The recorded event a data command produces at a given session-relative
/// timestamp.
pub open spec fn event_of(c: CmdView, timestamp: int) -> EventView {
    EventView {
        event_type: cmd_tag(c),
        component_id: cmd_component_id(c),
        event_data: c,
        timestamp: timestamp,
    }
}

/// One dispatcher invocation at instant `now` (milliseconds on the caller's
/// monotonic clock). A valid data command is applied to the store and, while
/// recording is active, appended to the session log with a session-relative
/// timestamp; an invalid one leaves the state unchanged. The four control
/// commands drive the recorder and scheduler state machines, and starting a
/// session that is already active (or playback of an empty log) is a silent
/// no-op.
pub open spec fn spec_dispatch(v: AppView, c: CmdView, now: int) -> AppView {
    match c {
        CmdView::StartRecording => if v.is_recording {
            v
        } else {
            AppView {
                is_recording: true,
                recorded_events: Seq::empty(),
                recording_start: Some(now),
                ..v
            }
        },
        CmdView::StopRecording => if v.is_recording {
            AppView { is_recording: false, recording_start: None, ..v }
        } else {
            v
        },
        CmdView::StartPlayback => if !v.is_playing && v.recorded_events.len() > 0 {
            AppView { is_playing: true, playback_index: 0, playback_start: Some(now), ..v }
        } else {
            v
        },
        CmdView::StopPlayback => if v.is_playing {
            AppView { is_playing: false, playback_index: 0, playback_start: None, ..v }
        } else {
            v
        },
        _ => if can_apply(v, c) {
            let applied = apply_data(v, c);
            if v.is_recording {
                AppView {
                    recorded_events: applied.recorded_events.push(
                        event_of(c, now - v.recording_start->Some_0),
                    ),
                    ..applied
                }
            } else {
                applied
            }
        } else {
            v
        },
    }
}

/// Replays every due event: while the event at the cursor has a timestamp at
/// most `elapsed`, its command is applied to the store (never re-recorded)
/// and the cursor advances. Events are applied in recorded order and none is
/// skipped.
pub open spec fn spec_replay(v: AppView, elapsed: int) -> AppView
    decreases v.recorded_events.len() - v.playback_index,
{
    if 0 <= v.playback_index < v.recorded_events.len()
        && v.recorded_events[v.playback_index].timestamp <= elapsed {
        let stepped = AppView {
            playback_index: v.playback_index + 1,
            ..apply_data(v, v.recorded_events[v.playback_index].event_data)
        };
        spec_replay(stepped, elapsed)
    } else {
        v
    }
}

/// One scheduler tick at instant `now`: if a playback session is active, all
/// events due at `now - playback_start` are replayed in order, and the
/// session ends automatically once the cursor reaches the end of the log.
/// Idle states are untouched.
pub open spec fn spec_tick(v: AppView, now: int) -> AppView {
    if v.is_playing {
        let replayed = spec_replay(v, now - v.playback_start->Some_0);
        if replayed.playback_index >= replayed.recorded_events.len() {
            AppView { is_playing: false, playback_start: None, ..replayed }
        } else {
            replayed
        }
    } else {
        v
    }
}

/// The caller's clock has not gone backwards since the recording session
/// started: timestamps are computed as `now - recording_start`.
pub open spec fn rec_clock_ok(v: AppView, now: int) -> bool {
    v.is_recording ==> now >= v.recording_start->Some_0
}

/// The caller's clock has not gone backwards since the playback session
/// started: the due-time horizon is `now - playback_start`.
pub open spec fn play_clock_ok(v: AppView, now: int) -> bool {
    v.is_playing ==> now >= v.playback_start->Some_0
}

} // verus!
