//! Recorded events: the timestamped record of one applied command.

use vstd::prelude::*;

use crate::model::{cmd_component_id, cmd_tag, event_of, EventView};
use crate::{Add3DObjectArgs, Command, Rotate3DArgs, SetCheckboxArgs, SetComboBoxArgs,
    SetInputArgs, SetLabelArgs, SetProgressArgs, SetRadioArgs, SetSliderArgs};

verus! {

/// A timestamped, serialized record of one applied command: the command's
/// string tag, the originating component identifier (empty for global
/// commands), the command itself as payload, and milliseconds elapsed since
/// the recording session started (not wall-clock epoch, not comparable across
/// sessions).
#[derive(Debug)]
pub struct RecordedEvent {
    pub event_type: String,
    pub component_id: String,
    pub event_data: Command,
    pub timestamp: u64,
}

impl View for RecordedEvent {
    type V = EventView;

    open spec fn view(&self) -> EventView {
        EventView {
            event_type: self.event_type@,
            component_id: self.component_id@,
            event_data: self.event_data@,
            timestamp: self.timestamp as int,
        }
    }
}

/// An element-wise copy of an option list.
fn clone_options(v: &Vec<String>) -> (r: Vec<String>)
    ensures
        r@ == v@,
{
    let mut r: Vec<String> = Vec::new();
    let n = v.len();
    let mut i: usize = 0;
    while i < n
        invariant
            n == v@.len(),
            i <= n,
            r@.len() == i,
            forall|j: int| 0 <= j < i ==> r@[j] == v@[j],
        decreases n - i,
    {
        r.push(v[i].clone());
        i += 1;
    }
    proof {
        assert(r@ =~= v@);
    }
    r
}

impl Command {
    /// A copy of the command, equal to it in the model.
    pub fn duplicate(&self) -> (r: Command)
        ensures
            r@ == self@,
    {
        match self {
            Command::SetLabel(a) => Command::SetLabel(SetLabelArgs { text: a.text.clone() }),
            Command::SetSlider(a) => Command::SetSlider(SetSliderArgs { value: a.value }),
            Command::SetInput(a) => Command::SetInput(SetInputArgs { text: a.text.clone() }),
            Command::SetCheckbox(a) => Command::SetCheckbox(
                SetCheckboxArgs { id: a.id.clone(), checked: a.checked },
            ),
            Command::SetComboBox(a) => {
                let r = Command::SetComboBox(
                    SetComboBoxArgs {
                        id: a.id.clone(),
                        selected: a.selected.clone(),
                        options: clone_options(&a.options),
                    },
                );
                proof {
                    assert(r@ =~= self@);
                }
                r
            },
            Command::SetRadio(a) => Command::SetRadio(
                SetRadioArgs { id: a.id.clone(), selected: a.selected.clone() },
            ),
            Command::SetProgress(a) => Command::SetProgress(
                SetProgressArgs { id: a.id.clone(), value: a.value },
            ),
            Command::Rotate3D(a) => Command::Rotate3D(Rotate3DArgs { angle: a.angle }),
            Command::Add3DObject(a) => Command::Add3DObject(
                Add3DObjectArgs { payload: a.payload.clone() },
            ),
            Command::StartRecording => Command::StartRecording,
            Command::StopRecording => Command::StopRecording,
            Command::StartPlayback => Command::StartPlayback,
            Command::StopPlayback => Command::StopPlayback,
        }
    }

    /// The string tag naming this command's variant.
    pub fn tag(&self) -> (r: String)
        ensures
            r@ == cmd_tag(self@),
    {
        match self {
            Command::SetLabel(..) => "set_label".to_owned(),
            Command::SetSlider(..) => "set_slider".to_owned(),
            Command::SetInput(..) => "set_input".to_owned(),
            Command::SetCheckbox(..) => "set_checkbox".to_owned(),
            Command::SetComboBox(..) => "set_combo_box".to_owned(),
            Command::SetRadio(..) => "set_radio".to_owned(),
            Command::SetProgress(..) => "set_progress".to_owned(),
            Command::Rotate3D(..) => "rotate_3d".to_owned(),
            Command::Add3DObject(..) => "add_3d_object".to_owned(),
            Command::StartRecording => "start_recording".to_owned(),
            Command::StopRecording => "stop_recording".to_owned(),
            Command::StartPlayback => "start_playback".to_owned(),
            Command::StopPlayback => "stop_playback".to_owned(),
        }
    }

    /// The identifier of the component this command addresses; empty for
    /// global commands.
    pub fn component_id(&self) -> (r: String)
        ensures
            r@ == cmd_component_id(self@),
    {
        match self {
            Command::SetCheckbox(a) => a.id.clone(),
            Command::SetComboBox(a) => a.id.clone(),
            Command::SetRadio(a) => a.id.clone(),
            Command::SetProgress(a) => a.id.clone(),
            _ => String::new(),
        }
    }
}

impl RecordedEvent {
    /// The event a command produces at a session-relative timestamp.
    pub fn of_command(cmd: Command, timestamp: u64) -> (r: RecordedEvent)
        ensures
            r@ == event_of(cmd@, timestamp as int),
    {
        let event_type = cmd.tag();
        let component_id = cmd.component_id();
        RecordedEvent { event_type, component_id, event_data: cmd, timestamp }
    }

    /// A copy of the event, equal to it in the model.
    pub fn duplicate(&self) -> (r: RecordedEvent)
        ensures
            r@ == self@,
    {
        RecordedEvent {
            event_type: self.event_type.clone(),
            component_id: self.component_id.clone(),
            event_data: self.event_data.duplicate(),
            timestamp: self.timestamp,
        }
    }
}

/// An element-wise copy of a recorded-event log, equal to it in the model.
pub fn clone_events(v: &Vec<RecordedEvent>) -> (r: Vec<RecordedEvent>)
    ensures
        crate::events_view(r@) == crate::events_view(v@),
        r@.len() == v@.len(),
{
    let mut r: Vec<RecordedEvent> = Vec::new();
    let n = v.len();
    let mut i: usize = 0;
    while i < n
        invariant
            n == v@.len(),
            i <= n,
            r@.len() == i,
            forall|j: int| 0 <= j < i ==> r@[j]@ == v@[j]@,
        decreases n - i,
    {
        r.push(v[i].duplicate());
        i += 1;
    }
    proof {
        assert(crate::events_view(r@) =~= crate::events_view(v@));
    }
    r
}

} // verus!
