//! Command bus and event recorder/player for a shared interactive UI/3D state.
//!
//! A single mutable state store holds the interactive state (label, slider,
//! input buffer, keyed widget maps, a cumulative 3D rotation angle). Every
//! mutation goes through the command dispatcher, which is also the
//! instrumentation point for recording: while a recording session is active,
//! each applied data command is appended to the session log as a timestamped
//! event. A playback scheduler re-applies a captured log on a timeline
//! relative to playback start, once per frame tick.
//!
//! Numeric widget values (slider value, progress, rotation angle in degrees)
//! are carried as fixed-point integers in thousandths of a unit; the embedding
//! converts at the boundary.

use vstd::prelude::*;

pub mod events;
pub mod laws;
pub mod model;
pub mod ops;
pub mod playback;
pub mod strmap;

use crate::events::RecordedEvent;
use crate::model::{AppView, CmdView, ComboView};
use crate::strmap::StrMap;

verus! {

/// Arguments of the `set_label` command: the new label text.
#[derive(Debug)]
pub struct SetLabelArgs {
    pub text: String,
}

/// Arguments of the `set_slider` command: the new slider value, in
/// thousandths of a unit (callers are expected to stay within 0..=100_000;
/// no clamping is performed).
#[derive(Debug)]
pub struct SetSliderArgs {
    pub value: i64,
}

/// Arguments of the `set_input` command: the new input buffer contents.
#[derive(Debug)]
pub struct SetInputArgs {
    pub text: String,
}

/// Arguments of the `set_checkbox` command.
#[derive(Debug)]
pub struct SetCheckboxArgs {
    pub id: String,
    pub checked: bool,
}

/// Arguments of the `set_combo_box` command: the selected value and the full
/// ordered option list; the stored tuple for `id` is replaced, never merged.
#[derive(Debug)]
pub struct SetComboBoxArgs {
    pub id: String,
    pub selected: String,
    pub options: Vec<String>,
}

/// Arguments of the `set_radio` command.
#[derive(Debug)]
pub struct SetRadioArgs {
    pub id: String,
    pub selected: String,
}

/// Arguments of the `set_progress` command: fractional progress in
/// thousandths (no clamping to 0..=1000 is performed).
#[derive(Debug)]
pub struct SetProgressArgs {
    pub id: String,
    pub value: i64,
}

/// Arguments of the `rotate_3d` command: the rotation increment in
/// thousandths of a degree; the cumulative angle only ever accumulates.
#[derive(Debug)]
pub struct Rotate3DArgs {
    pub angle: i64,
}

/// Arguments of the `add_3d_object` command: an arbitrary structured payload,
/// carried as opaque text. The command is logged only; it mutates no state in
/// this core.
#[derive(Debug)]
pub struct Add3DObjectArgs {
    pub payload: String,
}

/// A named, typed request to mutate the UI/3D state: one variant per named
/// operation. Commands are immutable once constructed.
#[derive(Debug)]
pub enum Command {
    SetLabel(SetLabelArgs),
    SetSlider(SetSliderArgs),
    SetInput(SetInputArgs),
    SetCheckbox(SetCheckboxArgs),
    SetComboBox(SetComboBoxArgs),
    SetRadio(SetRadioArgs),
    SetProgress(SetProgressArgs),
    Rotate3D(Rotate3DArgs),
    Add3DObject(Add3DObjectArgs),
    StartRecording,
    StopRecording,
    StartPlayback,
    StopPlayback,
}

impl View for Command {
    type V = CmdView;

    open spec fn view(&self) -> CmdView {
        match self {
            Command::SetLabel(a) => CmdView::SetLabel { text: a.text@ },
            Command::SetSlider(a) => CmdView::SetSlider { value: a.value },
            Command::SetInput(a) => CmdView::SetInput { text: a.text@ },
            Command::SetCheckbox(a) => CmdView::SetCheckbox { id: a.id@, checked: a.checked },
            Command::SetComboBox(a) => CmdView::SetComboBox {
                id: a.id@,
                selected: a.selected@,
                options: a.options.deep_view(),
            },
            Command::SetRadio(a) => CmdView::SetRadio { id: a.id@, selected: a.selected@ },
            Command::SetProgress(a) => CmdView::SetProgress { id: a.id@, value: a.value },
            Command::Rotate3D(a) => CmdView::Rotate3D { angle: a.angle },
            Command::Add3DObject(a) => CmdView::Add3DObject { payload: a.payload@ },
            Command::StartRecording => CmdView::StartRecording,
            Command::StopRecording => CmdView::StopRecording,
            Command::StartPlayback => CmdView::StartPlayback,
            Command::StopPlayback => CmdView::StopPlayback,
        }
    }
}

/// A validation failure: the command was rejected, and neither the store nor
/// the session log changed.
#[derive(Debug, Clone, Copy, PartialEq, Eq, Structural)]
pub enum CommandError {
    /// A `rotate_3d` increment would take the cumulative angle outside the
    /// 64-bit fixed-point accumulator's range.
    RotationOverflow,
}

/// One combo box's entry: the selected value and the full ordered option
/// list.
#[derive(Debug)]
pub struct ComboChoice {
    pub selected: String,
    pub options: Vec<String>,
}

impl View for ComboChoice {
    type V = ComboView;

    open spec fn view(&self) -> ComboView {
        ComboView { selected: self.selected@, options: self.options.deep_view() }
    }
}

/// The sequence of event views denoted by a recorded-event vector.
pub open spec fn events_view(v: Seq<RecordedEvent>) -> Seq<model::EventView> {
    Seq::new(v.len(), |i: int| v[i]@)
}

/// The single shared interactive state: the UI/3D store fields together with
/// the recording and playback control fields. All mutation goes through the
/// dispatcher operations in `ops`; the embedding guards the whole aggregate
/// with one lock and keeps each dispatch inside one critical section.
pub struct EguiApp {
    pub label_text: String,
    pub slider_value: i64,
    pub input_text: String,
    pub checkboxes: StrMap<bool>,
    pub combo_boxes: StrMap<ComboChoice>,
    pub radio_groups: StrMap<String>,
    pub progress_bars: StrMap<i64>,
    pub rotation: i64,
    pub is_recording: bool,
    pub recorded_events: Vec<RecordedEvent>,
    pub recording_start: Option<u64>,
    pub is_playing: bool,
    pub playback_index: usize,
    pub playback_start: Option<u64>,
}

impl View for EguiApp {
    type V = AppView;

    open spec fn view(&self) -> AppView {
        AppView {
            label_text: self.label_text@,
            slider_value: self.slider_value,
            input_text: self.input_text@,
            checkboxes: self.checkboxes@,
            combo_boxes: self.combo_boxes@,
            radio_groups: self.radio_groups@,
            progress_bars: self.progress_bars@,
            rotation: self.rotation,
            is_recording: self.is_recording,
            recorded_events: events_view(self.recorded_events@),
            recording_start: match self.recording_start {
                Some(t) => Some(t as int),
                None => None,
            },
            is_playing: self.is_playing,
            playback_index: self.playback_index as int,
            playback_start: match self.playback_start {
                Some(t) => Some(t as int),
                None => None,
            },
        }
    }
}

impl EguiApp {
    /// The keyed maps have pairwise-distinct keys and the control flags agree
    /// with their session-start instants.
    pub open spec fn wf(&self) -> bool {
        &&& self.checkboxes.wf()
        &&& self.combo_boxes.wf()
        &&& self.radio_groups.wf()
        &&& self.progress_bars.wf()
        &&& self@.wf()
    }

    /// Reads the checkbox entry for `id`, exactly when one exists.
    pub fn get_checkbox(&self, id: &String) -> (r: Option<&bool>)
        requires
            self.wf(),
        ensures
            match r {
                Some(v) => self@.checkboxes.dom().contains(id@) && *v == self@.checkboxes[id@],
                None => !self@.checkboxes.dom().contains(id@),
            },
    {
        self.checkboxes.get(id)
    }

    /// Reads the (selected, options) entry of the combo box `id`, exactly
    /// when one exists.
    pub fn get_combo_box(&self, id: &String) -> (r: Option<&ComboChoice>)
        requires
            self.wf(),
        ensures
            match r {
                Some(v) => self@.combo_boxes.dom().contains(id@) && v@ == self@.combo_boxes[id@],
                None => !self@.combo_boxes.dom().contains(id@),
            },
    {
        self.combo_boxes.get(id)
    }

    /// Reads the selected value of the radio group `id`, exactly when one
    /// exists.
    pub fn get_radio(&self, id: &String) -> (r: Option<&String>)
        requires
            self.wf(),
        ensures
            match r {
                Some(v) => self@.radio_groups.dom().contains(id@) && v@ == self@.radio_groups[id@],
                None => !self@.radio_groups.dom().contains(id@),
            },
    {
        self.radio_groups.get(id)
    }

    /// Reads the progress entry for `id`, exactly when one exists.
    pub fn get_progress(&self, id: &String) -> (r: Option<&i64>)
        requires
            self.wf(),
        ensures
            match r {
                Some(v) => self@.progress_bars.dom().contains(id@) && *v == self@.progress_bars[
                    id@
                ],
                None => !self@.progress_bars.dom().contains(id@),
            },
    {
        self.progress_bars.get(id)
    }
}

/// The state a fresh context starts from: everything empty, nothing
/// recording, nothing playing.
pub open spec fn initial_view() -> AppView {
    AppView {
        label_text: Seq::empty(),
        slider_value: 0,
        input_text: Seq::empty(),
        checkboxes: Map::empty(),
        combo_boxes: Map::empty(),
        radio_groups: Map::empty(),
        progress_bars: Map::empty(),
        rotation: 0,
        is_recording: false,
        recorded_events: Seq::empty(),
        recording_start: None,
        is_playing: false,
        playback_index: 0,
        playback_start: None,
    }
}

impl Default for EguiApp {
    /// A fresh context in the initial state.
    fn default() -> (r: Self)
        ensures
            r.wf(),
            r@ == initial_view(),
    {
        let r = EguiApp {
            label_text: String::new(),
            slider_value: 0,
            input_text: String::new(),
            checkboxes: StrMap::new(),
            combo_boxes: StrMap::new(),
            radio_groups: StrMap::new(),
            progress_bars: StrMap::new(),
            rotation: 0,
            is_recording: false,
            recorded_events: Vec::new(),
            recording_start: None,
            is_playing: false,
            playback_index: 0,
            playback_start: None,
        };
        proof {
            assert(events_view(r.recorded_events@) =~= Seq::empty());
            assert(r@ =~= initial_view());
        }
        r
    }
}

} // verus!
