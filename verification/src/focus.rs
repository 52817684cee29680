//! The reducer-owned interaction state: the selected context, the mode, and
//! the remembered focus on each surface.
//!
//! The PATCH main surface lists the Engine row followed by one row per effect
//! position; navigation walks only the rows whose Overview origin is enabled.
//! Adjusting up on the Engine, an effect-slot or the output-track row opens
//! that row's choice list in the modal mode. The PATCH Utility panel lists
//! master gain, trim, MIDI input, output track and voice limit, and is
//! entered at the trim row. The MIXER main surface shows, for the focused
//! track, its level and pan rows, followed by the global master-gain row.
use vstd::prelude::*;
use crate::domain::{EffectSlotIndex, MixerTrackId, PatchId, MAX_EFFECT_SLOTS, MIDI_CHANNEL_COUNT};
use crate::interaction::{
    Direction, GlobalParameter, InteractionMode, MixerControlId, MixerTrackParameter, PatchControlId,
    PatchOutputParameter, SurfaceId, TopLevelContext,
};
use crate::rejection::EventRejection;

verus! {

/// The number of rows of the PATCH main surface.
pub const PATCH_MAIN_ROW_COUNT: u8 = 4;

/// The number of rows of the PATCH Utility panel.
pub const UTILITY_ROW_COUNT: u8 = 5;

/// The Utility row focused on entry: the trim row.
pub const UTILITY_ENTRY_ROW: u8 = 1;

/// The number of rows of the MIXER main surface: level, pan, master gain.
pub const MIXER_ROW_COUNT: u8 = 3;

/// The MIXER main row of the global master gain.
pub const MIXER_GLOBAL_ROW: u8 = 2;

/// The PATCH row a choice list is opened for: the Engine row, one
/// effect-slot row, or the Utility output-track row.
#[derive(Clone, Copy, Debug, PartialEq, Eq, Hash, Structural)]
pub enum ChoiceSubject {
    Engine,
    EffectSlot(EffectSlotIndex),
    OutputTrack,
}

/// An open choice list: its subject and the focused option's position.
#[derive(Clone, Copy, Debug, PartialEq, Eq, Hash, Structural)]
pub struct ChoiceSession {
    pub subject: ChoiceSubject,
    pub option: usize,
}

/// The mathematical content of the interaction state.
pub struct InteractionView {
    pub context: TopLevelContext,
    pub mode: InteractionMode,
    pub mixer_track: u8,
    pub mixer_row: u8,
    pub patch_focus: Option<PatchId>,
    pub patch_row: u8,
    pub utility_row: Option<u8>,
    pub choice: Option<ChoiceSession>,
}

/// Every remembered row lies on its surface, PATCH is active only with a
/// focused Patch, the Utility panel is open only in PATCH, and the modal mode
/// belongs exactly to an open choice list, which is open only in PATCH.
pub open spec fn interaction_valid(v: InteractionView) -> bool {
    &&& v.mixer_track < MIDI_CHANNEL_COUNT
    &&& v.mixer_row < MIXER_ROW_COUNT
    &&& v.patch_row < PATCH_MAIN_ROW_COUNT
    &&& (v.utility_row matches Some(u) ==> u < UTILITY_ROW_COUNT)
    &&& (v.context == TopLevelContext::Patch ==> v.patch_focus is Some)
    &&& (v.context == TopLevelContext::Mixer ==> v.utility_row is None)
    &&& (v.choice is Some ==> v.context == TopLevelContext::Patch)
    &&& (v.mode == InteractionMode::Modal <==> v.choice is Some)
}

/// The state before any Patch is installed: MIXER, level of the first track.
pub open spec fn initial_interaction() -> InteractionView {
    InteractionView {
        context: TopLevelContext::Mixer,
        mode: InteractionMode::Navigate,
        mixer_track: 0,
        mixer_row: 0,
        patch_focus: None,
        patch_row: 0,
        utility_row: None,
        choice: None,
    }
}

/// The state right after installation: the first Patch's Engine row is
/// remembered for PATCH and the first MIXER row is active.
pub open spec fn installed_interaction(first: Option<PatchId>) -> InteractionView {
    InteractionView { patch_focus: first, ..initial_interaction() }
}

/// Selecting a context lands on its remembered main row in Navigate mode.
pub open spec fn context_selected(v: InteractionView, context: TopLevelContext) -> InteractionView {
    InteractionView { context, mode: InteractionMode::Navigate, utility_row: None, choice: None, ..v }
}

/// Switching Patch keeps the main row; a Utility row is not hosted by the
/// main surface, so leaving the panel lands on the Engine row.
pub open spec fn patch_selected(v: InteractionView, id: PatchId) -> InteractionView {
    InteractionView {
        patch_focus: Some(id),
        patch_row: if v.utility_row is Some {
            0
        } else {
            v.patch_row
        },
        utility_row: None,
        ..v
    }
}

/// One step along a row order of `count` rows, without wrapping.
pub open spec fn stepped(row: u8, count: u8, down: bool) -> Option<u8> {
    if down {
        if row + 1 < count {
            Some((row + 1) as u8)
        } else {
            None
        }
    } else {
        if row > 0 {
            Some((row - 1) as u8)
        } else {
            None
        }
    }
}

/// The first main row reached from `row` stepping down (or up) past the rows
/// that `off` marks disabled, without wrapping.
pub open spec fn enabled_step(row: u8, down: bool, off: Seq<bool>) -> Option<u8>
    decreases (if down {
        PATCH_MAIN_ROW_COUNT as int - row as int
    } else {
        row as int
    }),
{
    match stepped(row, PATCH_MAIN_ROW_COUNT, down) {
        None => None,
        Some(n) => if n < off.len() && off[n as int] {
            enabled_step(n, down, off)
        } else {
            Some(n)
        },
    }
}

/// The row that replaces a disabled main row: the nearest enabled row below
/// it, else the nearest enabled row above it.
pub open spec fn repaired_row(row: u8, off: Seq<bool>) -> u8 {
    match enabled_step(row, true, off) {
        Some(n) => n,
        None => match enabled_step(row, false, off) {
            Some(n) => n,
            None => row,
        },
    }
}

/// The remembered main row moved off a disabled row onto its repair; an
/// enabled row stays.
pub open spec fn landed(v: InteractionView, off: Seq<bool>) -> InteractionView {
    if v.patch_row < off.len() && off[v.patch_row as int] {
        InteractionView { patch_row: repaired_row(v.patch_row, off), ..v }
    } else {
        v
    }
}

/// The main rows from `r` on that `off` leaves enabled, in order.
pub open spec fn enabled_rows_from(off: Seq<bool>, r: nat) -> Seq<PatchControlId>
    decreases PATCH_MAIN_ROW_COUNT - r,
{
    if r >= PATCH_MAIN_ROW_COUNT {
        Seq::empty()
    } else if r < off.len() && off[r as int] {
        enabled_rows_from(off, r + 1)
    } else {
        seq![main_row_control(r as u8)] + enabled_rows_from(off, r + 1)
    }
}

/// Moving the MIXER focus.
pub open spec fn mixer_navigated(v: InteractionView, d: Direction) -> Result<InteractionView, EventRejection> {
    match d {
        Direction::Left | Direction::Right => {
            if v.mixer_row == MIXER_GLOBAL_ROW {
                Err(EventRejection::InvalidSelection)
            } else {
                match stepped(v.mixer_track, MIDI_CHANNEL_COUNT, d == Direction::Right) {
                    Some(t) => Ok(InteractionView { mixer_track: t, ..v }),
                    None => Err(EventRejection::ActionUnavailableInContext),
                }
            }
        },
        Direction::Up | Direction::Down => match stepped(v.mixer_row, MIXER_ROW_COUNT, d == Direction::Down) {
            Some(r) => Ok(InteractionView { mixer_row: r, ..v }),
            None => Err(EventRejection::ActionUnavailableInContext),
        },
    }
}

/// Moving the PATCH focus: vertically within the active surface (on the main
/// surface, past the rows `off` marks disabled), Right from the main surface
/// into Utility, Left from Utility back to its origin.
pub open spec fn patch_navigated(v: InteractionView, d: Direction, off: Seq<bool>) -> Result<
    InteractionView,
    EventRejection,
> {
    match v.utility_row {
        None => match d {
            Direction::Left => Err(EventRejection::ActionUnavailableInContext),
            Direction::Right => Ok(utility_entered(v)),
            Direction::Up | Direction::Down => match enabled_step(v.patch_row, d == Direction::Down, off) {
                Some(r) => Ok(InteractionView { patch_row: r, ..v }),
                None => Err(EventRejection::ActionUnavailableInContext),
            },
        },
        Some(u) => match d {
            Direction::Left => Ok(returned(v)),
            Direction::Right => Err(EventRejection::ActionUnavailableInContext),
            Direction::Up | Direction::Down => match stepped(u, UTILITY_ROW_COUNT, d == Direction::Down) {
                Some(r) => Ok(InteractionView { utility_row: Some(r), ..v }),
                None => Err(EventRejection::ActionUnavailableInContext),
            },
        },
    }
}

/// Entering the Utility panel at its entry row in Navigate mode.
pub open spec fn utility_entered(v: InteractionView) -> InteractionView {
    InteractionView { utility_row: Some(UTILITY_ENTRY_ROW), mode: InteractionMode::Navigate, ..v }
}

/// Returning from the Utility panel to its exact origin in Navigate mode.
pub open spec fn returned(v: InteractionView) -> InteractionView {
    InteractionView { utility_row: None, mode: InteractionMode::Navigate, ..v }
}

/// The control of a PATCH main row.
pub open spec fn main_row_control(row: u8) -> PatchControlId {
    if row == 0 {
        PatchControlId::Engine
    } else {
        PatchControlId::EffectSlot(EffectSlotIndex::spec_from((row - 1) as u8))
    }
}

/// The control of a Utility row.
pub open spec fn utility_row_control(row: u8) -> PatchControlId {
    if row == 0 {
        PatchControlId::Global(GlobalParameter::MasterGainDb)
    } else if row == 1 {
        PatchControlId::Output(PatchOutputParameter::TrimGain)
    } else if row == 2 {
        PatchControlId::MidiInput
    } else if row == 3 {
        PatchControlId::Output(PatchOutputParameter::OutputTrack)
    } else {
        PatchControlId::VoiceLimit
    }
}

/// The control of a MIXER main row on `track`.
pub open spec fn mixer_row_control(track: u8, row: u8) -> MixerControlId {
    if row == 0 {
        MixerControlId::Track { track_id: MixerTrackId::spec_from(track), parameter: MixerTrackParameter::Level }
    } else if row == 1 {
        MixerControlId::Track { track_id: MixerTrackId::spec_from(track), parameter: MixerTrackParameter::Pan }
    } else {
        MixerControlId::Global(GlobalParameter::MasterGainDb)
    }
}

/// The focused PATCH control: the open Utility row, else the main row.
pub open spec fn patch_control_of(v: InteractionView) -> Option<PatchControlId> {
    if v.patch_focus is None {
        None
    } else {
        match v.utility_row {
            Some(u) => Some(utility_row_control(u)),
            None => Some(main_row_control(v.patch_row)),
        }
    }
}

/// The active surface.
pub open spec fn surface_of(v: InteractionView) -> SurfaceId {
    match v.context {
        TopLevelContext::Mixer => SurfaceId::MixerMain,
        TopLevelContext::Patch => if v.choice is Some {
            SurfaceId::PatchChoice
        } else if v.utility_row is Some {
            SurfaceId::PatchUtility
        } else {
            SurfaceId::PatchMain
        },
    }
}

/// The row a choice list or the Utility panel returns to: the Utility row
/// a choice was opened from, else the remembered main row.
pub open spec fn origin_of(v: InteractionView) -> FocusPath {
    match v.utility_row {
        Some(u) => if v.choice is Some {
            FocusPath::Patch {
                surface: SurfaceId::PatchUtility,
                patch_id: v.patch_focus->0,
                control: utility_row_control(u),
            }
        } else {
            FocusPath::Patch {
                surface: SurfaceId::PatchMain,
                patch_id: v.patch_focus->0,
                control: main_row_control(v.patch_row),
            }
        },
        None => FocusPath::Patch {
            surface: SurfaceId::PatchMain,
            patch_id: v.patch_focus->0,
            control: main_row_control(v.patch_row),
        },
    }
}

/// A focused control together with the surface and Patch that host it.
#[derive(Clone, Debug, PartialEq, Eq)]
pub enum FocusPath {
    Patch { surface: SurfaceId, patch_id: PatchId, control: PatchControlId },
    Choice { patch_id: PatchId, subject: ChoiceSubject, option: usize },
    Mixer(MixerControlId),
}

impl FocusPath {
    /// The Patch a PATCH path belongs to.
    pub fn patch_id(&self) -> (r: Option<PatchId>)
        ensures
            r == (match self {
                FocusPath::Patch { patch_id, .. } => Some(*patch_id),
                FocusPath::Choice { patch_id, .. } => Some(*patch_id),
                FocusPath::Mixer(_) => None,
            }),
    {
        match self {
            FocusPath::Patch { patch_id, .. } => Some(*patch_id),
            FocusPath::Choice { patch_id, .. } => Some(*patch_id),
            FocusPath::Mixer(_) => None,
        }
    }

    /// The surface hosting the path.
    pub fn surface(&self) -> (r: SurfaceId)
        ensures
            r == (match self {
                FocusPath::Patch { surface, .. } => *surface,
                FocusPath::Choice { .. } => SurfaceId::PatchChoice,
                FocusPath::Mixer(_) => SurfaceId::MixerMain,
            }),
    {
        match self {
            FocusPath::Patch { surface, .. } => *surface,
            FocusPath::Choice { .. } => SurfaceId::PatchChoice,
            FocusPath::Mixer(_) => SurfaceId::MixerMain,
        }
    }
}

/// The path back from an open side panel.
#[derive(Clone, Debug, PartialEq, Eq)]
pub struct ReturnPath {
    origin: FocusPath,
}

impl View for ReturnPath {
    type V = FocusPath;

    closed spec fn view(&self) -> FocusPath {
        self.origin
    }
}

impl ReturnPath {
    /// The exact main-surface path the panel was entered from.
    pub fn origin(&self) -> (r: &FocusPath)
        ensures
            *r == self@,
    {
        &self.origin
    }
}

/// The section of the legacy MIXER selection.
#[derive(Clone, Copy, Debug, PartialEq, Eq, Hash, Structural)]
pub enum SelectionSection {
    Patch,
    Global,
}

/// The legacy read-only view of the MIXER focus: a section, a track and a
/// parameter position.
#[derive(Clone, Copy, Debug, PartialEq, Eq, Hash, Structural)]
pub struct Selection {
    section: SelectionSection,
    patch_index: usize,
    parameter_index: usize,
}

/// The mathematical content of a selection.
pub struct SelectionView {
    pub section: SelectionSection,
    pub patch_index: usize,
    pub parameter_index: usize,
}

impl View for Selection {
    type V = SelectionView;

    closed spec fn view(&self) -> SelectionView {
        SelectionView {
            section: self.section,
            patch_index: self.patch_index,
            parameter_index: self.parameter_index,
        }
    }
}

impl Selection {
    /// The first parameter of the track at `patch_index`.
    pub fn patch(patch_index: usize) -> (r: Selection)
        ensures
            r@ == (SelectionView { section: SelectionSection::Patch, patch_index, parameter_index: 0 }),
    {
        Selection { section: SelectionSection::Patch, patch_index, parameter_index: 0 }
    }

    /// The first global parameter.
    pub fn global() -> (r: Selection)
        ensures
            r@ == (SelectionView { section: SelectionSection::Global, patch_index: 0, parameter_index: 0 }),
    {
        Selection { section: SelectionSection::Global, patch_index: 0, parameter_index: 0 }
    }

    pub fn section(self) -> (r: SelectionSection)
        ensures
            r == self@.section,
    {
        self.section
    }

    pub fn patch_index(self) -> (r: usize)
        ensures
            r == self@.patch_index,
    {
        self.patch_index
    }

    pub fn parameter_index(self) -> (r: usize)
        ensures
            r == self@.parameter_index,
    {
        self.parameter_index
    }
}

/// The selection the MIXER focus shows.
pub open spec fn selection_of(v: InteractionView) -> SelectionView {
    if v.mixer_row == MIXER_GLOBAL_ROW {
        SelectionView { section: SelectionSection::Global, patch_index: 0, parameter_index: 0 }
    } else {
        SelectionView {
            section: SelectionSection::Patch,
            patch_index: v.mixer_track as usize,
            parameter_index: v.mixer_row as usize,
        }
    }
}

/// The context, the mode and the remembered focus of each surface.
#[derive(Clone, Copy, Debug, PartialEq, Eq, Hash, Structural)]
pub struct InteractionState {
    context: TopLevelContext,
    mode: InteractionMode,
    mixer_track: u8,
    mixer_row: u8,
    patch_focus: Option<PatchId>,
    patch_row: u8,
    utility_row: Option<u8>,
    choice: Option<ChoiceSession>,
}

impl View for InteractionState {
    type V = InteractionView;

    closed spec fn view(&self) -> InteractionView {
        InteractionView {
            context: self.context,
            mode: self.mode,
            mixer_track: self.mixer_track,
            mixer_row: self.mixer_row,
            patch_focus: self.patch_focus,
            patch_row: self.patch_row,
            utility_row: self.utility_row,
            choice: self.choice,
        }
    }
}

/// The view of a transition's result.
pub open spec fn interaction_result(r: Result<InteractionState, EventRejection>) -> Result<
    InteractionView,
    EventRejection,
> {
    match r {
        Ok(s) => Ok(s@),
        Err(e) => Err(e),
    }
}

impl InteractionState {
    #[verifier::type_invariant]
    closed spec fn valid(self) -> bool {
        interaction_valid(self@)
    }

    fn from_view(
        context: TopLevelContext,
        mode: InteractionMode,
        mixer_track: u8,
        mixer_row: u8,
        patch_focus: Option<PatchId>,
        patch_row: u8,
        utility_row: Option<u8>,
    ) -> (r: InteractionState)
        requires
            interaction_valid(
                InteractionView {
                    context,
                    mode,
                    mixer_track,
                    mixer_row,
                    patch_focus,
                    patch_row,
                    utility_row,
                    choice: None,
                },
            ),
        ensures
            r@ == (InteractionView {
                context,
                mode,
                mixer_track,
                mixer_row,
                patch_focus,
                patch_row,
                utility_row,
                choice: None,
            }),
    {
        InteractionState { context, mode, mixer_track, mixer_row, patch_focus, patch_row, utility_row, choice: None }
    }

    /// The state before installation.
    pub fn new() -> (r: InteractionState)
        ensures
            r@ == initial_interaction(),
            interaction_valid(r@),
    {
        InteractionState::from_view(TopLevelContext::Mixer, InteractionMode::Navigate, 0, 0, None, 0, None)
    }

    /// The state after installing a Patch set whose first Patch is `first`.
    pub fn installed(first: Option<PatchId>) -> (r: InteractionState)
        ensures
            r@ == installed_interaction(first),
            interaction_valid(r@),
    {
        InteractionState::from_view(TopLevelContext::Mixer, InteractionMode::Navigate, 0, 0, first, 0, None)
    }

    pub fn context(self) -> (r: TopLevelContext)
        ensures
            r == self@.context,
    {
        self.context
    }

    pub fn mode(self) -> (r: InteractionMode)
        ensures
            r == self@.mode,
    {
        self.mode
    }

    /// The Patch remembered for PATCH, if any is installed.
    pub fn patch_focus(self) -> (r: Option<PatchId>)
        ensures
            r == self@.patch_focus,
    {
        self.patch_focus
    }

    /// The position of the remembered PATCH main row.
    pub fn patch_row(self) -> (r: u8)
        ensures
            r == self@.patch_row,
            r < PATCH_MAIN_ROW_COUNT,
    {
        proof {
            use_type_invariant(self);
        }
        self.patch_row
    }

    /// The focused Utility row while the panel is open.
    pub fn utility_row(self) -> (r: Option<u8>)
        ensures
            r == self@.utility_row,
    {
        self.utility_row
    }

    /// The focused PATCH row, or `None` before installation.
    pub fn patch_control_focus(self) -> (r: Option<PatchControlId>)
        ensures
            r == patch_control_of(self@),
    {
        proof {
            use_type_invariant(self);
        }
        if self.patch_focus.is_none() {
            return None;
        }
        match self.utility_row {
            Some(u) => Some(utility_control(u)),
            None => Some(main_control(self.patch_row)),
        }
    }

    /// The control focused on the MIXER main surface.
    pub fn mixer_control_focus(self) -> (r: MixerControlId)
        ensures
            r == mixer_row_control(self@.mixer_track, self@.mixer_row),
    {
        proof {
            use_type_invariant(self);
        }
        let track = MixerTrackId::from_index(self.mixer_track);
        if self.mixer_row == 0 {
            MixerControlId::Track { track_id: track, parameter: MixerTrackParameter::Level }
        } else if self.mixer_row == 1 {
            MixerControlId::Track { track_id: track, parameter: MixerTrackParameter::Pan }
        } else {
            MixerControlId::Global(GlobalParameter::MasterGainDb)
        }
    }

    /// The active surface.
    pub fn active_surface(self) -> (r: SurfaceId)
        ensures
            r == surface_of(self@),
    {
        match self.context {
            TopLevelContext::Mixer => SurfaceId::MixerMain,
            TopLevelContext::Patch => if self.choice.is_some() {
                SurfaceId::PatchChoice
            } else if self.utility_row.is_some() {
                SurfaceId::PatchUtility
            } else {
                SurfaceId::PatchMain
            },
        }
    }

    /// The path of the focused control.
    pub fn focus_path(self) -> (r: FocusPath)
        ensures
            r == focus_path_of(self@),
    {
        proof {
            use_type_invariant(self);
        }
        match self.context {
            TopLevelContext::Mixer => FocusPath::Mixer(self.mixer_control_focus()),
            TopLevelContext::Patch => {
                let patch_id = self.patch_focus.unwrap();
                if let Some(c) = self.choice {
                    return FocusPath::Choice { patch_id, subject: c.subject, option: c.option };
                }
                match self.utility_row {
                    Some(u) => FocusPath::Patch {
                        surface: SurfaceId::PatchUtility,
                        patch_id,
                        control: utility_control(u),
                    },
                    None => FocusPath::Patch {
                        surface: SurfaceId::PatchMain,
                        patch_id,
                        control: main_control(self.patch_row),
                    },
                }
            },
        }
    }

    /// The way back from an open choice list or Utility panel.
    pub fn return_path(self) -> (r: Option<ReturnPath>)
        ensures
            match r {
                Some(p) => (self@.utility_row is Some || self@.choice is Some) && self@.context
                    == TopLevelContext::Patch && p@ == origin_of(self@),
                None => self@.utility_row is None && self@.choice is None,
            },
    {
        proof {
            use_type_invariant(self);
        }
        if self.utility_row.is_none() && self.choice.is_none() {
            return None;
        }
        let patch_id = self.patch_focus.unwrap();
        let origin = match self.utility_row {
            Some(u) => if self.choice.is_some() {
                FocusPath::Patch { surface: SurfaceId::PatchUtility, patch_id, control: utility_control(u) }
            } else {
                FocusPath::Patch { surface: SurfaceId::PatchMain, patch_id, control: main_control(self.patch_row) }
            },
            None => FocusPath::Patch { surface: SurfaceId::PatchMain, patch_id, control: main_control(self.patch_row) },
        };
        Some(ReturnPath { origin })
    }

    /// The open choice list, if any.
    pub fn choice(self) -> (r: Option<ChoiceSession>)
        ensures
            r == self@.choice,
    {
        self.choice
    }

    /// Opens the choice list of `subject` focused on position `option`.
    pub fn open_choice(self, subject: ChoiceSubject, option: usize) -> (r: InteractionState)
        requires
            self@.context == TopLevelContext::Patch,
        ensures
            r@ == (InteractionView {
                choice: Some(ChoiceSession { subject, option }),
                mode: InteractionMode::Modal,
                ..self@
            }),
            interaction_valid(r@),
    {
        proof {
            use_type_invariant(self);
        }
        InteractionState { choice: Some(ChoiceSession { subject, option }), mode: InteractionMode::Modal, ..self }
    }

    /// Focuses another position of the open choice list.
    pub fn with_choice_option(self, option: usize) -> (r: InteractionState)
        requires
            self@.choice is Some,
        ensures
            r@ == (InteractionView {
                choice: Some(ChoiceSession { option, ..self@.choice->0 }),
                ..self@
            }),
            interaction_valid(r@),
    {
        proof {
            use_type_invariant(self);
        }
        let c = self.choice.unwrap();
        InteractionState { choice: Some(ChoiceSession { option, ..c }), ..self }
    }

    /// Closes the open choice list onto its origin row in Navigate mode.
    pub fn close_choice(self) -> (r: InteractionState)
        ensures
            r@ == (InteractionView { choice: None, mode: InteractionMode::Navigate, ..self@ }),
            interaction_valid(r@),
    {
        proof {
            use_type_invariant(self);
        }
        InteractionState { choice: None, mode: InteractionMode::Navigate, ..self }
    }

    /// The legacy MIXER selection.
    pub fn selection(self) -> (r: Selection)
        ensures
            r@ == selection_of(self@),
    {
        if self.mixer_row == MIXER_GLOBAL_ROW {
            Selection::global()
        } else {
            Selection {
                section: SelectionSection::Patch,
                patch_index: self.mixer_track as usize,
                parameter_index: self.mixer_row as usize,
            }
        }
    }

    /// Lands on the remembered main row of `context`.
    pub fn with_context(self, context: TopLevelContext) -> (r: InteractionState)
        requires
            context == TopLevelContext::Patch ==> self@.patch_focus is Some,
        ensures
            r@ == context_selected(self@, context),
            interaction_valid(r@),
    {
        proof {
            use_type_invariant(self);
        }
        InteractionState { context, mode: InteractionMode::Navigate, utility_row: None, choice: None, ..self }
    }

    /// Focuses Patch `id` on the PATCH main surface.
    pub fn with_patch(self, id: PatchId) -> (r: InteractionState)
        ensures
            r@ == patch_selected(self@, id),
            interaction_valid(r@),
    {
        proof {
            use_type_invariant(self);
        }
        let patch_row = if self.utility_row.is_some() {
            0
        } else {
            self.patch_row
        };
        InteractionState { patch_focus: Some(id), patch_row, utility_row: None, ..self }
    }

    /// Moves a remembered main row that `off` marks disabled onto its repair.
    pub fn landed_on_enabled(self, off: &Vec<bool>) -> (r: InteractionState)
        requires
            off@.len() == PATCH_MAIN_ROW_COUNT,
        ensures
            r@ == landed(self@, off@),
            interaction_valid(r@),
    {
        proof {
            use_type_invariant(self);
        }
        if off[self.patch_row as usize] {
            let row = repair_row(self.patch_row, off);
            InteractionState { patch_row: row, ..self }
        } else {
            self
        }
    }

    /// Selects the interpretation of subsequent directions.
    pub fn with_mode(self, mode: InteractionMode) -> (r: InteractionState)
        requires
            mode != InteractionMode::Modal,
            self@.choice is None,
        ensures
            r@ == (InteractionView { mode, ..self@ }),
            interaction_valid(r@),
    {
        proof {
            use_type_invariant(self);
        }
        InteractionState { mode, ..self }
    }

    /// Moves the MIXER focus.
    pub fn navigate_mixer(self, d: Direction) -> (r: Result<InteractionState, EventRejection>)
        ensures
            interaction_result(r) == mixer_navigated(self@, d),
            r matches Ok(n) ==> interaction_valid(n@),
    {
        proof {
            use_type_invariant(self);
        }
        match d {
            Direction::Left | Direction::Right => {
                if self.mixer_row == MIXER_GLOBAL_ROW {
                    return Err(EventRejection::InvalidSelection);
                }
                match step(self.mixer_track, MIDI_CHANNEL_COUNT, d == Direction::Right) {
                    Some(t) => Ok(InteractionState { mixer_track: t, ..self }),
                    None => Err(EventRejection::ActionUnavailableInContext),
                }
            },
            Direction::Up | Direction::Down => match step(self.mixer_row, MIXER_ROW_COUNT, d == Direction::Down) {
                Some(row) => Ok(InteractionState { mixer_row: row, ..self }),
                None => Err(EventRejection::ActionUnavailableInContext),
            },
        }
    }

    /// Moves the PATCH focus.
    pub fn navigate_patch(self, d: Direction, off: &Vec<bool>) -> (r: Result<InteractionState, EventRejection>)
        requires
            self@.context == TopLevelContext::Patch,
            self@.choice is None,
            off@.len() == PATCH_MAIN_ROW_COUNT,
        ensures
            interaction_result(r) == patch_navigated(self@, d, off@),
            r matches Ok(n) ==> interaction_valid(n@),
    {
        proof {
            use_type_invariant(self);
        }
        match self.utility_row {
            None => match d {
                Direction::Left => Err(EventRejection::ActionUnavailableInContext),
                Direction::Right => Ok(self.enter_utility()),
                Direction::Up | Direction::Down => match enabled_neighbour(
                    self.patch_row,
                    d == Direction::Down,
                    off,
                ) {
                    Some(row) => Ok(InteractionState { patch_row: row, ..self }),
                    None => Err(EventRejection::ActionUnavailableInContext),
                },
            },
            Some(u) => match d {
                Direction::Left => Ok(self.return_to_origin()),
                Direction::Right => Err(EventRejection::ActionUnavailableInContext),
                Direction::Up | Direction::Down => match step(u, UTILITY_ROW_COUNT, d == Direction::Down) {
                    Some(row) => Ok(InteractionState { utility_row: Some(row), ..self }),
                    None => Err(EventRejection::ActionUnavailableInContext),
                },
            },
        }
    }

    /// Opens the Utility panel at its entry row.
    pub fn enter_utility(self) -> (r: InteractionState)
        requires
            self@.context == TopLevelContext::Patch,
            self@.choice is None,
        ensures
            r@ == utility_entered(self@),
            interaction_valid(r@),
    {
        proof {
            use_type_invariant(self);
        }
        InteractionState { utility_row: Some(UTILITY_ENTRY_ROW), mode: InteractionMode::Navigate, ..self }
    }

    /// Closes the Utility panel onto its origin.
    pub fn return_to_origin(self) -> (r: InteractionState)
        requires
            self@.choice is None,
        ensures
            r@ == returned(self@),
            interaction_valid(r@),
    {
        proof {
            use_type_invariant(self);
        }
        InteractionState { utility_row: None, mode: InteractionMode::Navigate, ..self }
    }
}

/// The path of the focused control.
pub open spec fn focus_path_of(v: InteractionView) -> FocusPath {
    match v.context {
        TopLevelContext::Mixer => FocusPath::Mixer(mixer_row_control(v.mixer_track, v.mixer_row)),
        TopLevelContext::Patch => if v.choice is Some {
            FocusPath::Choice {
                patch_id: v.patch_focus->0,
                subject: v.choice->0.subject,
                option: v.choice->0.option,
            }
        } else {
            match v.utility_row {
            Some(u) => FocusPath::Patch {
                surface: SurfaceId::PatchUtility,
                patch_id: v.patch_focus->0,
                control: utility_row_control(u),
            },
            None => FocusPath::Patch {
                surface: SurfaceId::PatchMain,
                patch_id: v.patch_focus->0,
                control: main_row_control(v.patch_row),
            },
            }
        },
    }
}

fn step(row: u8, count: u8, down: bool) -> (r: Option<u8>)
    requires
        row < count,
    ensures
        r == stepped(row, count, down),
        r matches Some(x) ==> x < count,
{
    if down {
        if row + 1 < count {
            Some(row + 1)
        } else {
            None
        }
    } else {
        if row > 0 {
            Some(row - 1)
        } else {
            None
        }
    }
}

/// The first enabled main row from `row` in one direction.
fn enabled_neighbour(row: u8, down: bool, off: &Vec<bool>) -> (r: Option<u8>)
    requires
        row < PATCH_MAIN_ROW_COUNT,
        off@.len() == PATCH_MAIN_ROW_COUNT,
    ensures
        r == enabled_step(row, down, off@),
        r matches Some(x) ==> x < PATCH_MAIN_ROW_COUNT,
    decreases (if down {
        PATCH_MAIN_ROW_COUNT as int - row as int
    } else {
        row as int
    }),
{
    match step(row, PATCH_MAIN_ROW_COUNT, down) {
        None => None,
        Some(n) => if off[n as usize] {
            enabled_neighbour(n, down, off)
        } else {
            Some(n)
        },
    }
}

/// The repair of a disabled main row.
fn repair_row(row: u8, off: &Vec<bool>) -> (r: u8)
    requires
        row < PATCH_MAIN_ROW_COUNT,
        off@.len() == PATCH_MAIN_ROW_COUNT,
    ensures
        r == repaired_row(row, off@),
        r < PATCH_MAIN_ROW_COUNT,
{
    match enabled_neighbour(row, true, off) {
        Some(n) => n,
        None => match enabled_neighbour(row, false, off) {
            Some(n) => n,
            None => row,
        },
    }
}

/// The enabled main rows, in order.
pub fn enabled_main_controls(off: &Vec<bool>) -> (r: Vec<PatchControlId>)
    requires
        off@.len() == PATCH_MAIN_ROW_COUNT,
    ensures
        r@ == enabled_rows_from(off@, 0),
{
    let mut r: Vec<PatchControlId> = Vec::new();
    let mut i: u8 = 0;
    while i < PATCH_MAIN_ROW_COUNT
        invariant
            i <= PATCH_MAIN_ROW_COUNT,
            off@.len() == PATCH_MAIN_ROW_COUNT,
            r@ + enabled_rows_from(off@, i as nat) == enabled_rows_from(off@, 0),
        decreases PATCH_MAIN_ROW_COUNT - i,
    {
        let ghost before = r@;
        if !off[i as usize] {
            r.push(main_control(i));
            assert(r@ + enabled_rows_from(off@, (i + 1) as nat) =~= before + enabled_rows_from(off@, i as nat));
        } else {
            assert(enabled_rows_from(off@, (i + 1) as nat) == enabled_rows_from(off@, i as nat));
        }
        i = i + 1;
    }
    assert(enabled_rows_from(off@, i as nat) =~= Seq::<PatchControlId>::empty());
    assert(r@ =~= r@ + enabled_rows_from(off@, i as nat));
    r
}

fn main_control(row: u8) -> (r: PatchControlId)
    requires
        row < PATCH_MAIN_ROW_COUNT,
    ensures
        r == main_row_control(row),
{
    if row == 0 {
        PatchControlId::Engine
    } else {
        PatchControlId::EffectSlot(EffectSlotIndex::from_position(row - 1))
    }
}

fn utility_control(row: u8) -> (r: PatchControlId)
    ensures
        r == utility_row_control(row),
{
    if row == 0 {
        PatchControlId::Global(GlobalParameter::MasterGainDb)
    } else if row == 1 {
        PatchControlId::Output(PatchOutputParameter::TrimGain)
    } else if row == 2 {
        PatchControlId::MidiInput
    } else if row == 3 {
        PatchControlId::Output(PatchOutputParameter::OutputTrack)
    } else {
        PatchControlId::VoiceLimit
    }
}


/// The PATCH Utility order.
pub open spec fn utility_order() -> Seq<PatchControlId> {
    Seq::new(UTILITY_ROW_COUNT as nat, |i: int| utility_row_control(i as u8))
}

impl PatchControlId {
    /// Every row of the PATCH Utility panel, in order.
    pub fn utility_surface_descriptor() -> (r: Vec<PatchControlId>)
        ensures
            r@ == utility_order(),
    {
        let mut r: Vec<PatchControlId> = Vec::new();
        let mut i: u8 = 0;
        while i < UTILITY_ROW_COUNT
            invariant
                i <= UTILITY_ROW_COUNT,
                r@.len() == i,
                forall|k: int| 0 <= k < i ==> r@[k] == utility_row_control(k as u8),
            decreases UTILITY_ROW_COUNT - i,
        {
            r.push(utility_control(i));
            i = i + 1;
        }
        assert(r@ =~= utility_order());
        r
    }
}

} // verus!
