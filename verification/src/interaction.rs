//! The vocabulary of contexts, surfaces, modes and normalized user intent.
use vstd::prelude::*;
use crate::domain::{duplicate_entry, BusId, EffectCapabilityId, EffectSlotIndex, MixerTrackId, ParameterId, PatchId};

verus! {

/// A semantic direction emitted by an input adapter.
#[derive(Clone, Copy, Debug, PartialEq, Eq, Hash, Structural)]
pub enum Direction {
    Up,
    Down,
    Left,
    Right,
}

pub open spec fn all_directions() -> Seq<Direction> {
    seq![Direction::Up, Direction::Down, Direction::Left, Direction::Right]
}

impl Direction {
    /// Every direction, in declaration order.
    pub fn all() -> (r: Vec<Direction>)
        ensures
            r@ == all_directions(),
    {
        let r = vec![Direction::Up, Direction::Down, Direction::Left, Direction::Right];
        assert(r@ =~= all_directions());
        r
    }
}

/// One of the two reducer-owned top-level contexts.
#[derive(Clone, Copy, Debug, PartialEq, Eq, Hash, Structural)]
pub enum TopLevelContext {
    Patch,
    Mixer,
}

pub open spec fn all_contexts() -> Seq<TopLevelContext> {
    seq![TopLevelContext::Patch, TopLevelContext::Mixer]
}

impl TopLevelContext {
    /// Every context exactly once.
    pub fn surface_descriptor() -> (r: Vec<TopLevelContext>)
        ensures
            r@ == all_contexts(),
    {
        let r = vec![TopLevelContext::Patch, TopLevelContext::Mixer];
        assert(r@ =~= all_contexts());
        r
    }
}

/// The reducer-owned interpretation of subsequent directions.
#[derive(Clone, Copy, Debug, PartialEq, Eq, Hash, Structural)]
pub enum InteractionMode {
    Navigate,
    Adjust,
    Modal,
}

pub open spec fn phase_two_modes() -> Seq<InteractionMode> {
    seq![InteractionMode::Navigate, InteractionMode::Adjust]
}

impl InteractionMode {
    /// The modes a user may select directly.
    pub fn phase_two() -> (r: Vec<InteractionMode>)
        ensures
            r@ == phase_two_modes(),
    {
        let r = vec![InteractionMode::Navigate, InteractionMode::Adjust];
        assert(r@ =~= phase_two_modes());
        r
    }
}

/// Every projected surface.
#[derive(Clone, Copy, Debug, PartialEq, Eq, Hash, Structural)]
pub enum SurfaceId {
    PatchMain,
    PatchUtility,
    PatchDetail,
    PatchChoice,
    SampleBrowser,
    MixerMain,
    MixerInspector,
}

/// One adjustable envelope stage.
#[derive(Clone, Copy, Debug, PartialEq, Eq, Hash, Structural)]
pub enum EnvelopeParameter {
    AttackMilliseconds,
    DecayMilliseconds,
    SustainLevel,
    ReleaseMilliseconds,
}

/// The one global mixer parameter.
#[derive(Clone, Copy, Debug, PartialEq, Eq, Hash, Structural)]
pub enum GlobalParameter {
    MasterGainDb,
}

/// The two parameters of a Patch's route to its mixer track.
#[derive(Clone, Copy, Debug, PartialEq, Eq, Hash, Structural)]
pub enum PatchOutputParameter {
    TrimGain,
    OutputTrack,
}

/// The parameters a mixer track shows on the MIXER main surface.
#[derive(Clone, Copy, Debug, PartialEq, Eq, Hash, Structural)]
pub enum MixerTrackParameter {
    Level,
    Pan,
}

/// One control hosted by the MIXER main surface.
#[derive(Clone, Copy, Debug, PartialEq, Eq, Hash, Structural)]
pub enum MixerControlId {
    Track { track_id: MixerTrackId, parameter: MixerTrackParameter },
    Global(GlobalParameter),
}

/// One control hosted by the PATCH surfaces.
#[derive(Clone, Debug, PartialEq, Eq)]
pub enum PatchControlId {
    Engine,
    EffectSlot(EffectSlotIndex),
    Capability(ParameterId),
    Envelope(EnvelopeParameter),
    Output(PatchOutputParameter),
    Global(GlobalParameter),
    MidiInput,
    VoiceLimit,
}

/// A normalized user intent produced by input adapters.
#[derive(Clone, Debug, PartialEq, Eq)]
pub enum SemanticAction {
    SelectContext(TopLevelContext),
    SelectPatch(Direction),
    Navigate(Direction),
    Adjust(Direction),
    SetInteractionMode(InteractionMode),
    OpenRelated,
    OpenMidiSettings,
    Activate,
    PreviewStart,
    PreviewStop,
    EnterSurface(SurfaceId),
    Return,
    SetSlotOccupancy { patch_id: PatchId, slot: EffectSlotIndex, entry: Option<EffectCapabilityId> },
    SetReturnOccupancy { bus: BusId, entry: Option<EffectCapabilityId> },
}

impl SemanticAction {
    /// Copies the intent.
    pub fn duplicate(&self) -> (r: SemanticAction)
        ensures
            r == *self,
    {
        match self {
            SemanticAction::SetSlotOccupancy { patch_id, slot, entry } => SemanticAction::SetSlotOccupancy {
                patch_id: *patch_id,
                slot: *slot,
                entry: duplicate_entry(entry),
            },
            SemanticAction::SetReturnOccupancy { bus, entry } => SemanticAction::SetReturnOccupancy {
                bus: *bus,
                entry: duplicate_entry(entry),
            },
            SemanticAction::SelectContext(c) => SemanticAction::SelectContext(*c),
            SemanticAction::SelectPatch(d) => SemanticAction::SelectPatch(*d),
            SemanticAction::Navigate(d) => SemanticAction::Navigate(*d),
            SemanticAction::Adjust(d) => SemanticAction::Adjust(*d),
            SemanticAction::SetInteractionMode(m) => SemanticAction::SetInteractionMode(*m),
            SemanticAction::OpenRelated => SemanticAction::OpenRelated,
            SemanticAction::OpenMidiSettings => SemanticAction::OpenMidiSettings,
            SemanticAction::Activate => SemanticAction::Activate,
            SemanticAction::PreviewStart => SemanticAction::PreviewStart,
            SemanticAction::PreviewStop => SemanticAction::PreviewStop,
            SemanticAction::EnterSurface(surface) => SemanticAction::EnterSurface(*surface),
            SemanticAction::Return => SemanticAction::Return,
        }
    }
}

} // verus!
