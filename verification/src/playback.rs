//! The playback scheduler: replays a captured event sequence by re-applying
//! each due command at the correct relative time.
//!
//! Driven once per frame tick. A tick may replay zero, one or many events,
//! depending on how much clock time has elapsed and how densely the events
//! are packed; it never skips an event and applies due events in recorded
//! order. Replayed commands are applied to the store directly and are never
//! re-recorded, so an active recording session cannot grow its own log
//! through playback — that is this core's explicit resolution of the
//! record-during-replay feedback hazard.

use vstd::prelude::*;

use crate::model::{apply_data, play_clock_ok, spec_replay, spec_tick, AppView};
use crate::ops::apply_command;
use crate::EguiApp;

verus! {

/// Advances the playback session by one tick at instant `now_ms`: every event
/// whose timestamp is due at `now_ms - playback_start` is applied in recorded
/// order, and the session ends automatically once the cursor reaches the end
/// of the log. Idle states are untouched.
pub fn tick_playback(app: &mut EguiApp, now_ms: u64)
    requires
        old(app).wf(),
        play_clock_ok(old(app)@, now_ms as int),
    ensures
        final(app).wf(),
        final(app)@ == spec_tick(old(app)@, now_ms as int),
{
    let ghost v0 = app@;
    if !app.is_playing {
        return ;
    }
    proof {
        assert(app.playback_start is Some);
    }
    let start = if let Some(s) = app.playback_start {
        s
    } else {
        proof {
            assert(false);
        }
        0
    };
    let elapsed = now_ms - start;
    while app.playback_index < app.recorded_events.len() && app.recorded_events[
        app.playback_index
    ].timestamp <= elapsed
        invariant
            app.wf(),
            app.is_playing,
            spec_replay(app@, elapsed as int) == spec_replay(v0, elapsed as int),
        decreases app.recorded_events@.len() - app.playback_index,
    {
        let ghost vpre = app@;
        let idx = app.playback_index;
        let cmd = app.recorded_events[idx].event_data.duplicate();
        let _applied = apply_command(app, cmd);
        app.playback_index = idx + 1;
        proof {
            assert(app@ =~= AppView {
                playback_index: vpre.playback_index + 1,
                ..apply_data(vpre, vpre.recorded_events[vpre.playback_index].event_data)
            });
            assert(spec_replay(vpre, elapsed as int) == spec_replay(app@, elapsed as int));
        }
    }
    proof {
        assert(spec_replay(app@, elapsed as int) == app@);
        assert(app@ == spec_replay(v0, elapsed as int));
    }
    if app.playback_index >= app.recorded_events.len() {
        app.is_playing = false;
        app.playback_start = None;
        proof {
            assert(app@ =~= spec_tick(v0, now_ms as int));
        }
    } else {
        proof {
            assert(app@ =~= spec_tick(v0, now_ms as int));
        }
    }
}

} // verus!
