//! The library's general laws, proved over the model in `model`.
//!
//! Each proof function states a property of the command bus for every input
//! its `requires` admits; the executable operations' contracts tie the
//! running code to the same transitions.

use vstd::prelude::*;

use crate::model::{can_apply, event_of, recordable, spec_dispatch, spec_replay, spec_tick,
    AppView, CmdView, ComboView};

verus! {

/// The angle carried by a `rotate_3d` command; zero for any other command.
pub open spec fn angle_of(c: CmdView) -> i64 {
    match c {
        CmdView::Rotate3D { angle } => angle,
        _ => 0,
    }
}

/// The sum of a sequence of rotation increments, as an unbounded integer.
pub open spec fn angle_sum(angles: Seq<i64>) -> int
    decreases angles.len(),
{
    if angles.len() == 0 {
        0
    } else {
        angle_sum(angles.drop_last()) + angles.last()
    }
}

/// The rotation increments a script carries, in order.
pub open spec fn script_angles(script: Seq<(CmdView, int)>) -> Seq<i64> {
    Seq::new(script.len() as nat, |i: int| angle_of(script[i].0))
}

/// Running a script: one dispatcher invocation per (command, instant) pair,
/// in order.
pub open spec fn spec_run(v: AppView, script: Seq<(CmdView, int)>) -> AppView
    decreases script.len(),
{
    if script.len() == 0 {
        v
    } else {
        spec_dispatch(spec_run(v, script.drop_last()), script.last().0, script.last().1)
    }
}

/// Every command of the script passes validation in the state it reaches.
pub open spec fn run_ok(v: AppView, script: Seq<(CmdView, int)>) -> bool
    decreases script.len(),
{
    if script.len() == 0 {
        true
    } else {
        run_ok(v, script.drop_last()) && can_apply(spec_run(v, script.drop_last()), script.last().0)
    }
}

/// Rotation accumulates: for any sequence of `rotate_3d(a_1), ...,
/// rotate_3d(a_n)` dispatched at any instants, the final rotation is the
/// initial rotation plus the sum of the increments — accumulation, no
/// wraparound, never overwritten — provided every partial sum stays within
/// the 64-bit accumulator.
pub proof fn law_rotation_accumulates(v: AppView, script: Seq<(CmdView, int)>)
    requires
        forall|i: int| 0 <= i < script.len() ==> script[i].0 is Rotate3D,
        forall|k: int|
            0 <= k <= script.len() ==> i64::MIN <= v.rotation + #[trigger] angle_sum(
                script_angles(script).take(k),
            ) <= i64::MAX,
    ensures
        spec_run(v, script).rotation == v.rotation + angle_sum(script_angles(script)),
    decreases script.len(),
{
    let angles = script_angles(script);
    if script.len() == 0 {
        assert(angle_sum(angles) == 0);
    } else {
        let pre = script.drop_last();
        let pre_angles = script_angles(pre);
        assert(pre_angles =~= angles.take(script.len() - 1));
        assert forall|k: int| 0 <= k <= pre.len() implies i64::MIN <= v.rotation
            + #[trigger] angle_sum(pre_angles.take(k)) <= i64::MAX by {
            assert(pre_angles.take(k) =~= angles.take(k));
        }
        law_rotation_accumulates(v, pre);
        let v1 = spec_run(v, pre);
        assert(v1.rotation == v.rotation + angle_sum(pre_angles));
        let a = angle_of(script.last().0);
        assert(angles.last() == a);
        assert(angles.drop_last() =~= pre_angles);
        assert(angle_sum(angles) == angle_sum(pre_angles) + a);
        assert(i64::MIN <= v.rotation + angle_sum(angles) <= i64::MAX) by {
            assert(angles.take(script.len() as int) =~= angles);
        }
        assert(spec_dispatch(v1, script.last().0, script.last().1).rotation == v1.rotation + a);
    }
}

/// Checkbox writes are independent per identifier: after `set_checkbox(id,
/// val)` the stored boolean for `id` is `val`, and a later `set_checkbox` for
/// any other identifier leaves it unchanged.
pub proof fn law_checkbox_independence(
    v: AppView,
    id1: Seq<char>,
    val1: bool,
    id2: Seq<char>,
    val2: bool,
    t1: int,
    t2: int,
)
    ensures
        ({
            let v1 = spec_dispatch(v, CmdView::SetCheckbox { id: id1, checked: val1 }, t1);
            &&& v1.checkboxes.dom().contains(id1)
            &&& v1.checkboxes[id1] == val1
            &&& id2 != id1 ==> {
                let v2 = spec_dispatch(v1, CmdView::SetCheckbox { id: id2, checked: val2 }, t2);
                &&& v2.checkboxes.dom().contains(id1)
                &&& v2.checkboxes[id1] == val1
            }
        }),
{
}

/// Combo-box writes replace the whole (selected, options) tuple for their
/// identifier, and a later `set_combo_box` for a different identifier does
/// not alter it.
pub proof fn law_combo_box_independence(
    v: AppView,
    id1: Seq<char>,
    c1: ComboView,
    id2: Seq<char>,
    c2: ComboView,
    t1: int,
    t2: int,
)
    ensures
        ({
            let v1 = spec_dispatch(
                v,
                CmdView::SetComboBox { id: id1, selected: c1.selected, options: c1.options },
                t1,
            );
            &&& v1.combo_boxes.dom().contains(id1)
            &&& v1.combo_boxes[id1] == c1
            &&& id2 != id1 ==> {
                let v2 = spec_dispatch(
                    v1,
                    CmdView::SetComboBox { id: id2, selected: c2.selected, options: c2.options },
                    t2,
                );
                &&& v2.combo_boxes.dom().contains(id1)
                &&& v2.combo_boxes[id1] == c1
            }
        }),
{
    assert(ComboView { selected: c1.selected, options: c1.options } =~= c1);
}

/// A data command changes none of the recorder or scheduler control fields.
proof fn lemma_apply_data_preserves_control(v: AppView, c: CmdView)
    ensures
        crate::model::apply_data(v, c).is_recording == v.is_recording,
        crate::model::apply_data(v, c).recording_start == v.recording_start,
        crate::model::apply_data(v, c).recorded_events == v.recorded_events,
        crate::model::apply_data(v, c).is_playing == v.is_playing,
        crate::model::apply_data(v, c).playback_index == v.playback_index,
        crate::model::apply_data(v, c).playback_start == v.playback_start,
{
}

/// While a recording session is active, a script of valid data commands
/// keeps the session running and appends exactly one event per command, in
/// invocation order, each stamped with its instant relative to the session
/// start; the events already logged are untouched.
proof fn lemma_run_while_recording(v: AppView, script: Seq<(CmdView, int)>)
    requires
        v.is_recording,
        forall|i: int| 0 <= i < script.len() ==> recordable(#[trigger] script[i].0),
        run_ok(v, script),
    ensures
        spec_run(v, script).is_recording,
        spec_run(v, script).recording_start == v.recording_start,
        spec_run(v, script).recorded_events.len() == v.recorded_events.len() + script.len(),
        forall|i: int|
            0 <= i < v.recorded_events.len() ==> spec_run(v, script).recorded_events[i]
                == v.recorded_events[i],
        forall|i: int|
            0 <= i < script.len() ==> spec_run(v, script).recorded_events[v.recorded_events.len()
                + i] == event_of(script[i].0, script[i].1 - v.recording_start->Some_0),
    decreases script.len(),
{
    if script.len() > 0 {
        let pre = script.drop_last();
        let n = script.len() as int;
        assert(forall|i: int| 0 <= i < pre.len() ==> pre[i] == script[i]);
        lemma_run_while_recording(v, pre);
        let v1 = spec_run(v, pre);
        let c = script.last().0;
        let t = script.last().1;
        assert(script.last() == script[n - 1]);
        assert(recordable(c));
        assert(can_apply(v1, c));
        lemma_apply_data_preserves_control(v1, c);
        let v2 = spec_dispatch(v1, c, t);
        assert(v2.recorded_events == v1.recorded_events.push(
            event_of(c, t - v.recording_start->Some_0),
        ));
        assert forall|i: int| 0 <= i < script.len() implies v2.recorded_events[
            v.recorded_events.len() + i
        ] == event_of(script[i].0, script[i].1 - v.recording_start->Some_0) by {
            if i < n - 1 {
                assert(v1.recorded_events[v.recorded_events.len() + i] == event_of(
                    pre[i].0,
                    pre[i].1 - v.recording_start->Some_0,
                ));
            }
        }
        assert(spec_run(v, script) == v2);
    }
}

/// A recording session captures exactly its commands: starting a session,
/// applying N valid data commands at non-decreasing instants and stopping
/// yields a log of exactly N events, in invocation order, each stamped with
/// its offset from the session start, with non-decreasing timestamps; the
/// stop returns the recorder to idle and retains the log.
pub proof fn law_recording_session(v: AppView, t0: int, script: Seq<(CmdView, int)>, t_end: int)
    requires
        !v.is_recording,
        forall|i: int| 0 <= i < script.len() ==> recordable(#[trigger] script[i].0),
        run_ok(spec_dispatch(v, CmdView::StartRecording, t0), script),
        forall|i: int| 0 <= i < script.len() ==> #[trigger] script[i].1 >= t0,
        forall|i: int, j: int| 0 <= i < j < script.len() ==> script[i].1 <= script[j].1,
    ensures
        ({
            let stopped = spec_dispatch(
                spec_run(spec_dispatch(v, CmdView::StartRecording, t0), script),
                CmdView::StopRecording,
                t_end,
            );
            &&& !stopped.is_recording
            &&& stopped.recorded_events.len() == script.len()
            &&& forall|i: int|
                0 <= i < script.len() ==> stopped.recorded_events[i] == event_of(
                    script[i].0,
                    script[i].1 - t0,
                )
            &&& forall|i: int|
                0 <= i < script.len() ==> #[trigger] stopped.recorded_events[i].timestamp >= 0
            &&& forall|i: int, j: int|
                0 <= i < j < script.len() ==> stopped.recorded_events[i].timestamp
                    <= stopped.recorded_events[j].timestamp
        }),
{
    let v1 = spec_dispatch(v, CmdView::StartRecording, t0);
    assert(v1.is_recording && v1.recorded_events.len() == 0 && v1.recording_start == Some(t0));
    lemma_run_while_recording(v1, script);
    let v2 = spec_run(v1, script);
    let stopped = spec_dispatch(v2, CmdView::StopRecording, t_end);
    assert(stopped.recorded_events == v2.recorded_events);
    assert forall|i: int| 0 <= i < script.len() implies stopped.recorded_events[i] == event_of(
        script[i].0,
        script[i].1 - t0,
    ) by {
        assert(v2.recorded_events[v1.recorded_events.len() + i] == event_of(
            script[i].0,
            script[i].1 - v1.recording_start->Some_0,
        ));
        assert(v1.recorded_events.len() + i == i);
    }
    assert forall|i: int| 0 <= i < script.len() implies #[trigger] stopped.recorded_events[
        i
    ].timestamp >= 0 by {
        assert(stopped.recorded_events[i].timestamp == script[i].1 - t0);
    }
    assert forall|i: int, j: int| 0 <= i < j < script.len() implies stopped.recorded_events[
        i
    ].timestamp <= stopped.recorded_events[j].timestamp by {
        assert(stopped.recorded_events[i].timestamp == script[i].1 - t0);
        assert(stopped.recorded_events[j].timestamp == script[j].1 - t0);
    }
}

/// Starting a recording session while one is already active is a silent
/// no-op: the running session — its log and its start instant — is untouched.
pub proof fn law_start_recording_twice(v: AppView, t1: int, t2: int)
    requires
        !v.is_recording,
    ensures
        spec_dispatch(spec_dispatch(v, CmdView::StartRecording, t1), CmdView::StartRecording, t2)
            == spec_dispatch(v, CmdView::StartRecording, t1),
{
}

/// Starting playback with an empty captured log is a no-op and leaves the
/// playing flag false; with a non-empty log it resets the cursor to the start
/// and begins the session at the given instant. Starting while already
/// playing is a silent no-op too.
pub proof fn law_start_playback(v: AppView, t: int)
    ensures
        v.is_playing ==> spec_dispatch(v, CmdView::StartPlayback, t) == v,
        !v.is_playing && v.recorded_events.len() == 0 ==> spec_dispatch(
            v,
            CmdView::StartPlayback,
            t,
        ) == v && !spec_dispatch(v, CmdView::StartPlayback, t).is_playing,
        !v.is_playing && v.recorded_events.len() > 0 ==> {
            let v1 = spec_dispatch(v, CmdView::StartPlayback, t);
            &&& v1.is_playing
            &&& v1.playback_index == 0
            &&& v1.playback_start == Some(t)
        },
{
}

/// Stopping playback mid-session is an abrupt stop, not an error: the playing
/// flag falls, the cursor resets to the start, the start instant clears, and
/// the store and the captured log are untouched — even if events remain
/// unreplayed.
pub proof fn law_stop_playback(v: AppView, t: int)
    requires
        v.is_playing,
    ensures
        ({
            let v1 = spec_dispatch(v, CmdView::StopPlayback, t);
            &&& !v1.is_playing
            &&& v1.playback_index == 0
            &&& v1.playback_start is None
            &&& v1.recorded_events == v.recorded_events
            &&& v1 == AppView {
                is_playing: false,
                playback_index: 0,
                playback_start: None,
                ..v
            }
        }),
{
}

/// Replay never records: a playback tick leaves the captured log, the
/// recording flag and the recording start instant untouched, whatever the
/// recorder is doing — replayed commands are not re-recorded.
pub proof fn law_replay_never_records(v: AppView, now: int)
    ensures
        spec_tick(v, now).recorded_events == v.recorded_events,
        spec_tick(v, now).is_recording == v.is_recording,
        spec_tick(v, now).recording_start == v.recording_start,
{
    if v.is_playing {
        lemma_replay_preserves_recording(v, now - v.playback_start->Some_0);
    }
}

/// Replaying due events touches neither the log nor the recorder fields.
proof fn lemma_replay_preserves_recording(v: AppView, elapsed: int)
    ensures
        spec_replay(v, elapsed).recorded_events == v.recorded_events,
        spec_replay(v, elapsed).is_recording == v.is_recording,
        spec_replay(v, elapsed).recording_start == v.recording_start,
    decreases v.recorded_events.len() - v.playback_index,
{
    if 0 <= v.playback_index < v.recorded_events.len() && v.recorded_events[
        v.playback_index
    ].timestamp <= elapsed {
        let stepped = AppView {
            playback_index: v.playback_index + 1,
            ..crate::model::apply_data(v, v.recorded_events[v.playback_index].event_data)
        };
        lemma_replay_preserves_recording(stepped, elapsed);
    }
}

} // verus!
