//! The command dispatcher: the only path by which the state mutates, and the
//! instrumentation point for recording.
//!
//! Each named operation validates its command, applies it to the store and,
//! while a recording session is active, appends one timestamped event to the
//! session log — all specified as exactly one `spec_dispatch` transition.
//! `now_ms` is the invocation instant in milliseconds on the embedding's
//! monotonic clock; each call is meant to run inside one critical section of
//! the lock that guards the whole state.

use vstd::prelude::*;

use crate::events::RecordedEvent;
use crate::model::{apply_data, can_apply, event_of, rec_clock_ok, recordable, spec_dispatch,
    AppView, CmdView};
use crate::{Add3DObjectArgs, Command, CommandError, ComboChoice, EguiApp, Rotate3DArgs,
    SetCheckboxArgs, SetComboBoxArgs, SetInputArgs, SetLabelArgs, SetProgressArgs, SetRadioArgs,
    SetSliderArgs};

verus! {

/// Applies a data command to the store fields alone: no recording, no change
/// to the control fields. Returns whether the command passed validation; a
/// rejected command leaves the state unchanged.
pub(crate) fn apply_command(app: &mut EguiApp, cmd: Command) -> (r: bool)
    requires
        old(app).wf(),
    ensures
        final(app).wf(),
        r == can_apply(old(app)@, cmd@),
        final(app)@ == apply_data(old(app)@, cmd@),
{
    let ghost v0 = app@;
    let ghost c = cmd@;
    match cmd {
        Command::SetLabel(a) => {
            app.label_text = a.text;
            proof {
                assert(app@ =~= apply_data(v0, c));
            }
            true
        },
        Command::SetSlider(a) => {
            app.slider_value = a.value;
            proof {
                assert(app@ =~= apply_data(v0, c));
            }
            true
        },
        Command::SetInput(a) => {
            app.input_text = a.text;
            proof {
                assert(app@ =~= apply_data(v0, c));
            }
            true
        },
        Command::SetCheckbox(a) => {
            app.checkboxes.set(a.id, a.checked);
            proof {
                assert(app@ =~= apply_data(v0, c));
            }
            true
        },
        Command::SetComboBox(a) => {
            app.combo_boxes.set(a.id, ComboChoice { selected: a.selected, options: a.options });
            proof {
                assert(app@ =~= apply_data(v0, c));
            }
            true
        },
        Command::SetRadio(a) => {
            app.radio_groups.set(a.id, a.selected);
            proof {
                assert(app@ =~= apply_data(v0, c));
            }
            true
        },
        Command::SetProgress(a) => {
            app.progress_bars.set(a.id, a.value);
            proof {
                assert(app@ =~= apply_data(v0, c));
            }
            true
        },
        Command::Rotate3D(a) => {
            match app.rotation.checked_add(a.angle) {
                Some(sum) => {
                    app.rotation = sum;
                    proof {
                        assert(app@ =~= apply_data(v0, c));
                    }
                    true
                },
                None => {
                    proof {
                        assert(app@ =~= apply_data(v0, c));
                    }
                    false
                },
            }
        },
        Command::Add3DObject(..) => {
            proof {
                assert(app@ =~= apply_data(v0, c));
            }
            true
        },
        _ => {
            proof {
                assert(app@ =~= apply_data(v0, c));
            }
            true
        },
    }
}

/// Appends one event for an applied data command while a recording session is
/// active; outside a session the state is untouched.
fn record_if_recording(app: &mut EguiApp, cmd: Command, now_ms: u64)
    requires
        old(app).wf(),
        rec_clock_ok(old(app)@, now_ms as int),
    ensures
        final(app).wf(),
        final(app)@ == if old(app)@.is_recording {
            AppView {
                recorded_events: old(app)@.recorded_events.push(
                    event_of(cmd@, now_ms as int - old(app)@.recording_start->Some_0),
                ),
                ..old(app)@
            }
        } else {
            old(app)@
        },
{
    if app.is_recording {
        proof {
            assert(app.recording_start is Some);
        }
        if let Some(start) = app.recording_start {
            let ghost v0 = app@;
            let ts = now_ms - start;
            let ev = RecordedEvent::of_command(cmd, ts);
            app.recorded_events.push(ev);
            proof {
                assert(crate::events_view(app.recorded_events@) =~= v0.recorded_events.push(
                    event_of(cmd@, ts as int),
                ));
                assert(app@ =~= AppView {
                    recorded_events: v0.recorded_events.push(event_of(cmd@, ts as int)),
                    ..v0
                });
            }
        }
    }
}

/// Dispatches one data command: validate, apply to the store, and append one
/// timestamped event to the session log while recording is active. A command
/// that fails validation is neither applied nor recorded.
fn dispatch_data(app: &mut EguiApp, cmd: Command, now_ms: u64) -> (r: Result<(), CommandError>)
    requires
        old(app).wf(),
        recordable(cmd@),
        rec_clock_ok(old(app)@, now_ms as int),
    ensures
        final(app).wf(),
        final(app)@ == spec_dispatch(old(app)@, cmd@, now_ms as int),
        r is Ok <==> can_apply(old(app)@, cmd@),
{
    let ghost v0 = app@;
    let ghost c = cmd@;
    let copy = cmd.duplicate();
    let applied = apply_command(app, cmd);
    if applied {
        record_if_recording(app, copy, now_ms);
        proof {
            assert(app@ =~= spec_dispatch(v0, c, now_ms as int));
        }
        Ok(())
    } else {
        proof {
            assert(app@ =~= spec_dispatch(v0, c, now_ms as int));
        }
        Err(CommandError::RotationOverflow)
    }
}

/// `set_label`: replaces the label text.
pub fn op_set_label(app: &mut EguiApp, args: SetLabelArgs, now_ms: u64) -> (r: Result<
    (),
    CommandError,
>)
    requires
        old(app).wf(),
        rec_clock_ok(old(app)@, now_ms as int),
    ensures
        final(app).wf(),
        final(app)@ == spec_dispatch(
            old(app)@,
            CmdView::SetLabel { text: args.text@ },
            now_ms as int,
        ),
        r is Ok,
{
    dispatch_data(app, Command::SetLabel(args), now_ms)
}

/// `set_slider`: replaces the slider value (no range clamping; callers are
/// expected to stay within 0..=100 units).
pub fn op_set_slider(app: &mut EguiApp, args: SetSliderArgs, now_ms: u64) -> (r: Result<
    (),
    CommandError,
>)
    requires
        old(app).wf(),
        rec_clock_ok(old(app)@, now_ms as int),
    ensures
        final(app).wf(),
        final(app)@ == spec_dispatch(
            old(app)@,
            CmdView::SetSlider { value: args.value },
            now_ms as int,
        ),
        r is Ok,
{
    dispatch_data(app, Command::SetSlider(args), now_ms)
}

/// `set_input`: replaces the input buffer.
pub fn op_set_input(app: &mut EguiApp, args: SetInputArgs, now_ms: u64) -> (r: Result<
    (),
    CommandError,
>)
    requires
        old(app).wf(),
        rec_clock_ok(old(app)@, now_ms as int),
    ensures
        final(app).wf(),
        final(app)@ == spec_dispatch(
            old(app)@,
            CmdView::SetInput { text: args.text@ },
            now_ms as int,
        ),
        r is Ok,
{
    dispatch_data(app, Command::SetInput(args), now_ms)
}

/// `set_checkbox`: creates or replaces the boolean for `id`; every other
/// identifier's entry is unchanged.
pub fn op_set_checkbox(app: &mut EguiApp, args: SetCheckboxArgs, now_ms: u64) -> (r: Result<
    (),
    CommandError,
>)
    requires
        old(app).wf(),
        rec_clock_ok(old(app)@, now_ms as int),
    ensures
        final(app).wf(),
        final(app)@ == spec_dispatch(
            old(app)@,
            CmdView::SetCheckbox { id: args.id@, checked: args.checked },
            now_ms as int,
        ),
        r is Ok,
{
    dispatch_data(app, Command::SetCheckbox(args), now_ms)
}

/// `set_combo_box`: creates or replaces the whole (selected, options) tuple
/// for `id` — the option list is replaced, never merged.
pub fn op_set_combo_box(app: &mut EguiApp, args: SetComboBoxArgs, now_ms: u64) -> (r: Result<
    (),
    CommandError,
>)
    requires
        old(app).wf(),
        rec_clock_ok(old(app)@, now_ms as int),
    ensures
        final(app).wf(),
        final(app)@ == spec_dispatch(
            old(app)@,
            CmdView::SetComboBox {
                id: args.id@,
                selected: args.selected@,
                options: args.options.deep_view(),
            },
            now_ms as int,
        ),
        r is Ok,
{
    dispatch_data(app, Command::SetComboBox(args), now_ms)
}

/// `set_radio`: creates or replaces the selected value for `id`.
pub fn op_set_radio(app: &mut EguiApp, args: SetRadioArgs, now_ms: u64) -> (r: Result<
    (),
    CommandError,
>)
    requires
        old(app).wf(),
        rec_clock_ok(old(app)@, now_ms as int),
    ensures
        final(app).wf(),
        final(app)@ == spec_dispatch(
            old(app)@,
            CmdView::SetRadio { id: args.id@, selected: args.selected@ },
            now_ms as int,
        ),
        r is Ok,
{
    dispatch_data(app, Command::SetRadio(args), now_ms)
}

/// `set_progress`: creates or replaces the fractional progress for `id` (no
/// clamping).
pub fn op_set_progress(app: &mut EguiApp, args: SetProgressArgs, now_ms: u64) -> (r: Result<
    (),
    CommandError,
>)
    requires
        old(app).wf(),
        rec_clock_ok(old(app)@, now_ms as int),
    ensures
        final(app).wf(),
        final(app)@ == spec_dispatch(
            old(app)@,
            CmdView::SetProgress { id: args.id@, value: args.value },
            now_ms as int,
        ),
        r is Ok,
{
    dispatch_data(app, Command::SetProgress(args), now_ms)
}

/// `rotate_3d`: accumulates the rotation angle — never overwritten, never
/// normalized. The one validation failure: an increment that would take the
/// accumulator outside the 64-bit range is rejected, and the state is
/// unchanged.
pub fn op_rotate_3d(app: &mut EguiApp, args: Rotate3DArgs, now_ms: u64) -> (r: Result<
    (),
    CommandError,
>)
    requires
        old(app).wf(),
        rec_clock_ok(old(app)@, now_ms as int),
    ensures
        final(app).wf(),
        final(app)@ == spec_dispatch(
            old(app)@,
            CmdView::Rotate3D { angle: args.angle },
            now_ms as int,
        ),
        r is Ok <==> i64::MIN <= old(app)@.rotation + args.angle <= i64::MAX,
{
    dispatch_data(app, Command::Rotate3D(args), now_ms)
}

/// `add_3d_object`: logged only — the payload mutates no state in this core,
/// but the invocation is recorded like any other data command.
pub fn op_add_3d_object(app: &mut EguiApp, args: Add3DObjectArgs, now_ms: u64) -> (r: Result<
    (),
    CommandError,
>)
    requires
        old(app).wf(),
        rec_clock_ok(old(app)@, now_ms as int),
    ensures
        final(app).wf(),
        final(app)@ == spec_dispatch(
            old(app)@,
            CmdView::Add3DObject { payload: args.payload@ },
            now_ms as int,
        ),
        r is Ok,
{
    dispatch_data(app, Command::Add3DObject(args), now_ms)
}

/// `start_recording`: if no recording session is active, clears the event
/// log, records the session-start instant and raises the recording flag; a
/// second start while recording is a silent no-op that leaves the running
/// session untouched.
pub fn op_start_recording(app: &mut EguiApp, now_ms: u64) -> (r: Result<(), CommandError>)
    requires
        old(app).wf(),
    ensures
        final(app).wf(),
        final(app)@ == spec_dispatch(old(app)@, CmdView::StartRecording, now_ms as int),
        r is Ok,
{
    let ghost v0 = app@;
    if !app.is_recording {
        app.recorded_events.clear();
        app.recording_start = Some(now_ms);
        app.is_recording = true;
        proof {
            assert(crate::events_view(app.recorded_events@) =~= Seq::<
                crate::model::EventView,
            >::empty());
            assert(app@ =~= spec_dispatch(v0, CmdView::StartRecording, now_ms as int));
        }
    }
    Ok(())
}

/// `stop_recording`: if recording, lowers the flag, clears the start instant,
/// and returns the captured event sequence, which is also retained for
/// playback; otherwise returns an empty sequence and changes nothing.
pub fn op_stop_recording(app: &mut EguiApp, now_ms: u64) -> (log: Vec<RecordedEvent>)
    requires
        old(app).wf(),
    ensures
        final(app).wf(),
        final(app)@ == spec_dispatch(old(app)@, CmdView::StopRecording, now_ms as int),
        old(app)@.is_recording ==> crate::events_view(log@) == old(app)@.recorded_events,
        !old(app)@.is_recording ==> log@.len() == 0,
{
    let ghost v0 = app@;
    if app.is_recording {
        app.is_recording = false;
        app.recording_start = None;
        let log = crate::events::clone_events(&app.recorded_events);
        proof {
            assert(app@ =~= spec_dispatch(v0, CmdView::StopRecording, now_ms as int));
        }
        log
    } else {
        Vec::new()
    }
}

/// `start_playback`: if no playback session is active and the captured log is
/// non-empty, raises the playing flag, resets the cursor to the start and
/// records the session-start instant; otherwise a silent no-op.
pub fn op_start_playback(app: &mut EguiApp, now_ms: u64) -> (r: Result<(), CommandError>)
    requires
        old(app).wf(),
    ensures
        final(app).wf(),
        final(app)@ == spec_dispatch(old(app)@, CmdView::StartPlayback, now_ms as int),
        r is Ok,
{
    let ghost v0 = app@;
    if !app.is_playing && app.recorded_events.len() > 0 {
        app.is_playing = true;
        app.playback_index = 0;
        app.playback_start = Some(now_ms);
        proof {
            assert(app@ =~= spec_dispatch(v0, CmdView::StartPlayback, now_ms as int));
        }
    }
    Ok(())
}

/// `stop_playback`: if playing, lowers the flag, resets the cursor to the
/// start and clears the start instant — an abrupt stop, not an error, even if
/// events remain unreplayed; otherwise a silent no-op.
pub fn op_stop_playback(app: &mut EguiApp, now_ms: u64) -> (r: Result<(), CommandError>)
    requires
        old(app).wf(),
    ensures
        final(app).wf(),
        final(app)@ == spec_dispatch(old(app)@, CmdView::StopPlayback, now_ms as int),
        r is Ok,
{
    let ghost v0 = app@;
    if app.is_playing {
        app.is_playing = false;
        app.playback_index = 0;
        app.playback_start = None;
        proof {
            assert(app@ =~= spec_dispatch(v0, CmdView::StopPlayback, now_ms as int));
        }
    }
    Ok(())
}

/// Dispatches any command: the single entry point for every command source —
/// scripting host, network bridge or test harness alike.
pub fn dispatch(app: &mut EguiApp, cmd: Command, now_ms: u64) -> (r: Result<(), CommandError>)
    requires
        old(app).wf(),
        recordable(cmd@) ==> rec_clock_ok(old(app)@, now_ms as int),
    ensures
        final(app).wf(),
        final(app)@ == spec_dispatch(old(app)@, cmd@, now_ms as int),
        r is Ok <==> can_apply(old(app)@, cmd@),
{
    match cmd {
        Command::StartRecording => op_start_recording(app, now_ms),
        Command::StopRecording => {
            let _log = op_stop_recording(app, now_ms);
            Ok(())
        },
        Command::StartPlayback => op_start_playback(app, now_ms),
        Command::StopPlayback => op_stop_playback(app, now_ms),
        _ => dispatch_data(app, cmd, now_ms),
    }
}

} // verus!
