//! The closed surface of reasons an event can be refused.
use vstd::prelude::*;

verus! {

/// Reasons an event can be rejected without changing the control state.
#[derive(Clone, Copy, Debug, PartialEq, Eq, Hash, Structural)]
pub enum EventRejection {
    InstallationClosed,
    TooManyPatches,
    InvalidInstrumentConfig,
    InvalidEffectConfig,
    NoPatchesInstalled,
    UnknownPatch,
    InvalidSelection,
    ParameterAtBoundary,
    InvalidParameterValue,
    ActionUnavailableInContext,
    EngineSelectionUnavailable,
    StructuralEditBusy,
    StaleEngineSelection,
    MismatchedEngineSelection,
    RequestIdOverflow,
    GenerationOverflow,
}

/// Whether a rejection is reachable in the installed production scene or
/// needs an isolated reducer-table state.
#[derive(Clone, Copy, Debug, PartialEq, Eq, Hash, Structural)]
pub enum EventRejectionReachability {
    Scene,
    ReducerTable,
}

/// Every rejection in declaration order.
pub open spec fn rejection_surface() -> Seq<EventRejection> {
    seq![
        EventRejection::InstallationClosed,
        EventRejection::TooManyPatches,
        EventRejection::InvalidInstrumentConfig,
        EventRejection::InvalidEffectConfig,
        EventRejection::NoPatchesInstalled,
        EventRejection::UnknownPatch,
        EventRejection::InvalidSelection,
        EventRejection::ParameterAtBoundary,
        EventRejection::InvalidParameterValue,
        EventRejection::ActionUnavailableInContext,
        EventRejection::EngineSelectionUnavailable,
        EventRejection::StructuralEditBusy,
        EventRejection::StaleEngineSelection,
        EventRejection::MismatchedEngineSelection,
        EventRejection::RequestIdOverflow,
        EventRejection::GenerationOverflow,
    ]
}

/// The stable serialized name of a rejection.
pub open spec fn rejection_name(r: EventRejection) -> Seq<char> {
    match r {
        EventRejection::InstallationClosed => "installationClosed"@,
        EventRejection::TooManyPatches => "tooManyPatches"@,
        EventRejection::InvalidInstrumentConfig => "invalidInstrumentConfig"@,
        EventRejection::InvalidEffectConfig => "invalidEffectConfig"@,
        EventRejection::NoPatchesInstalled => "noPatchesInstalled"@,
        EventRejection::UnknownPatch => "unknownPatch"@,
        EventRejection::InvalidSelection => "invalidSelection"@,
        EventRejection::ParameterAtBoundary => "parameterAtBoundary"@,
        EventRejection::InvalidParameterValue => "invalidParameterValue"@,
        EventRejection::ActionUnavailableInContext => "actionUnavailableInContext"@,
        EventRejection::EngineSelectionUnavailable => "engineSelectionUnavailable"@,
        EventRejection::StructuralEditBusy => "structuralEditBusy"@,
        EventRejection::StaleEngineSelection => "staleEngineSelection"@,
        EventRejection::MismatchedEngineSelection => "mismatchedEngineSelection"@,
        EventRejection::RequestIdOverflow => "requestIdOverflow"@,
        EventRejection::GenerationOverflow => "generationOverflow"@,
    }
}

/// The sentence describing each refusal.
pub open spec fn rejection_message(r: EventRejection) -> Seq<char> {
    match r {
        EventRejection::InstallationClosed => "patch installation is permitted only at startup"@,
        EventRejection::TooManyPatches => "no more than 16 Patches may be installed"@,
        EventRejection::InvalidInstrumentConfig => "an installed Patch instrument config does not match the capability registry"@,
        EventRejection::InvalidEffectConfig => "an installed Patch effect config does not match the effect capability registry"@,
        EventRejection::NoPatchesInstalled => "no Patch is available for the selected operation"@,
        EventRejection::UnknownPatch => "the MIDI event targets a Patch that is not installed"@,
        EventRejection::InvalidSelection => "the current selection is outside the installed state"@,
        EventRejection::ParameterAtBoundary => "the selected parameter is already at that boundary"@,
        EventRejection::InvalidParameterValue => "the adjusted parameter value is invalid"@,
        EventRejection::ActionUnavailableInContext => "the semantic action is unavailable in the active context"@,
        EventRejection::EngineSelectionUnavailable => "the focused Patch has no adjacent installed engine choice"@,
        EventRejection::StructuralEditBusy => "another structural engine selection is already in flight"@,
        EventRejection::StaleEngineSelection => "the engine-selection event names no current request"@,
        EventRejection::MismatchedEngineSelection => "the engine-selection event does not match the current request"@,
        EventRejection::RequestIdOverflow => "the engine-selection request identity cannot be incremented"@,
        EventRejection::GenerationOverflow => "the accepted-state generation cannot be incremented"@,
    }
}

/// Where a rejection is reachable.
pub open spec fn rejection_reachability(r: EventRejection) -> EventRejectionReachability {
    match r {
        EventRejection::InstallationClosed => EventRejectionReachability::Scene,
        EventRejection::TooManyPatches => EventRejectionReachability::Scene,
        EventRejection::InvalidInstrumentConfig => EventRejectionReachability::Scene,
        EventRejection::InvalidEffectConfig => EventRejectionReachability::ReducerTable,
        EventRejection::NoPatchesInstalled => EventRejectionReachability::ReducerTable,
        EventRejection::UnknownPatch => EventRejectionReachability::Scene,
        EventRejection::InvalidSelection => EventRejectionReachability::ReducerTable,
        EventRejection::ParameterAtBoundary => EventRejectionReachability::Scene,
        EventRejection::InvalidParameterValue => EventRejectionReachability::ReducerTable,
        EventRejection::ActionUnavailableInContext => EventRejectionReachability::Scene,
        EventRejection::EngineSelectionUnavailable => EventRejectionReachability::Scene,
        EventRejection::StructuralEditBusy => EventRejectionReachability::Scene,
        EventRejection::StaleEngineSelection => EventRejectionReachability::Scene,
        EventRejection::MismatchedEngineSelection => EventRejectionReachability::Scene,
        EventRejection::RequestIdOverflow => EventRejectionReachability::ReducerTable,
        EventRejection::GenerationOverflow => EventRejectionReachability::ReducerTable,
    }
}

/// The position of a rejection in the surface.
pub open spec fn rejection_position(r: EventRejection) -> int {
    match r {
        EventRejection::InstallationClosed => 0,
        EventRejection::TooManyPatches => 1,
        EventRejection::InvalidInstrumentConfig => 2,
        EventRejection::InvalidEffectConfig => 3,
        EventRejection::NoPatchesInstalled => 4,
        EventRejection::UnknownPatch => 5,
        EventRejection::InvalidSelection => 6,
        EventRejection::ParameterAtBoundary => 7,
        EventRejection::InvalidParameterValue => 8,
        EventRejection::ActionUnavailableInContext => 9,
        EventRejection::EngineSelectionUnavailable => 10,
        EventRejection::StructuralEditBusy => 11,
        EventRejection::StaleEngineSelection => 12,
        EventRejection::MismatchedEngineSelection => 13,
        EventRejection::RequestIdOverflow => 14,
        EventRejection::GenerationOverflow => 15,
    }
}

/// One entry of the closed rejection surface.
#[derive(Clone, Copy, Debug, PartialEq, Eq, Structural)]
pub struct EventRejectionDescriptor {
    rejection: EventRejection,
    reachability: EventRejectionReachability,
}

/// The descriptor entry of one rejection.
pub open spec fn descriptor_entry(r: EventRejection) -> (EventRejection, EventRejectionReachability) {
    (r, rejection_reachability(r))
}

impl View for EventRejectionDescriptor {
    type V = (EventRejection, EventRejectionReachability);

    closed spec fn view(&self) -> (EventRejection, EventRejectionReachability) {
        (self.rejection, self.reachability)
    }
}

impl EventRejectionDescriptor {
    fn of(rejection: EventRejection) -> (r: EventRejectionDescriptor)
        ensures
            r@ == descriptor_entry(rejection),
    {
        EventRejectionDescriptor { rejection, reachability: rejection.reachability() }
    }

    pub fn rejection(self) -> (r: EventRejection)
        ensures
            r == self@.0,
    {
        self.rejection
    }

    pub fn name(self) -> (r: &'static str)
        ensures
            r@ == rejection_name(self@.0),
    {
        self.rejection.name()
    }

    pub fn reachability(self) -> (r: EventRejectionReachability)
        ensures
            r == self@.1,
    {
        self.reachability
    }
}

pub open spec fn descriptor_views(v: Seq<EventRejectionDescriptor>) -> Seq<(EventRejection, EventRejectionReachability)> {
    v.map_values(|d: EventRejectionDescriptor| d@)
}

impl EventRejection {
    /// Every rejection exactly once, in declaration order, with where it is
    /// reachable.
    pub fn surface_descriptor() -> (r: Vec<EventRejectionDescriptor>)
        ensures
            descriptor_views(r@) == rejection_surface().map_values(|e: EventRejection| descriptor_entry(e)),
    {
        let r = vec![
            EventRejectionDescriptor::of(EventRejection::InstallationClosed),
            EventRejectionDescriptor::of(EventRejection::TooManyPatches),
            EventRejectionDescriptor::of(EventRejection::InvalidInstrumentConfig),
            EventRejectionDescriptor::of(EventRejection::InvalidEffectConfig),
            EventRejectionDescriptor::of(EventRejection::NoPatchesInstalled),
            EventRejectionDescriptor::of(EventRejection::UnknownPatch),
            EventRejectionDescriptor::of(EventRejection::InvalidSelection),
            EventRejectionDescriptor::of(EventRejection::ParameterAtBoundary),
            EventRejectionDescriptor::of(EventRejection::InvalidParameterValue),
            EventRejectionDescriptor::of(EventRejection::ActionUnavailableInContext),
            EventRejectionDescriptor::of(EventRejection::EngineSelectionUnavailable),
            EventRejectionDescriptor::of(EventRejection::StructuralEditBusy),
            EventRejectionDescriptor::of(EventRejection::StaleEngineSelection),
            EventRejectionDescriptor::of(EventRejection::MismatchedEngineSelection),
            EventRejectionDescriptor::of(EventRejection::RequestIdOverflow),
            EventRejectionDescriptor::of(EventRejection::GenerationOverflow),
        ];
        assert(descriptor_views(r@) =~= rejection_surface().map_values(|e: EventRejection| descriptor_entry(e)));
        r
    }

    /// The stable serialized name.
    pub fn name(self) -> (r: &'static str)
        ensures
            r@ == rejection_name(self),
    {
        match self {
            EventRejection::InstallationClosed => "installationClosed",
            EventRejection::TooManyPatches => "tooManyPatches",
            EventRejection::InvalidInstrumentConfig => "invalidInstrumentConfig",
            EventRejection::InvalidEffectConfig => "invalidEffectConfig",
            EventRejection::NoPatchesInstalled => "noPatchesInstalled",
            EventRejection::UnknownPatch => "unknownPatch",
            EventRejection::InvalidSelection => "invalidSelection",
            EventRejection::ParameterAtBoundary => "parameterAtBoundary",
            EventRejection::InvalidParameterValue => "invalidParameterValue",
            EventRejection::ActionUnavailableInContext => "actionUnavailableInContext",
            EventRejection::EngineSelectionUnavailable => "engineSelectionUnavailable",
            EventRejection::StructuralEditBusy => "structuralEditBusy",
            EventRejection::StaleEngineSelection => "staleEngineSelection",
            EventRejection::MismatchedEngineSelection => "mismatchedEngineSelection",
            EventRejection::RequestIdOverflow => "requestIdOverflow",
            EventRejection::GenerationOverflow => "generationOverflow",
        }
    }

    /// Where this rejection is reachable.
    pub fn reachability(self) -> (r: EventRejectionReachability)
        ensures
            r == rejection_reachability(self),
    {
        match self {
            EventRejection::InstallationClosed => EventRejectionReachability::Scene,
            EventRejection::TooManyPatches => EventRejectionReachability::Scene,
            EventRejection::InvalidInstrumentConfig => EventRejectionReachability::Scene,
            EventRejection::InvalidEffectConfig => EventRejectionReachability::ReducerTable,
            EventRejection::NoPatchesInstalled => EventRejectionReachability::ReducerTable,
            EventRejection::UnknownPatch => EventRejectionReachability::Scene,
            EventRejection::InvalidSelection => EventRejectionReachability::ReducerTable,
            EventRejection::ParameterAtBoundary => EventRejectionReachability::Scene,
            EventRejection::InvalidParameterValue => EventRejectionReachability::ReducerTable,
            EventRejection::ActionUnavailableInContext => EventRejectionReachability::Scene,
            EventRejection::EngineSelectionUnavailable => EventRejectionReachability::Scene,
            EventRejection::StructuralEditBusy => EventRejectionReachability::Scene,
            EventRejection::StaleEngineSelection => EventRejectionReachability::Scene,
            EventRejection::MismatchedEngineSelection => EventRejectionReachability::Scene,
            EventRejection::RequestIdOverflow => EventRejectionReachability::ReducerTable,
            EventRejection::GenerationOverflow => EventRejectionReachability::ReducerTable,
        }
    }

    /// A sentence describing the refusal.
    pub fn message(self) -> (r: &'static str)
        ensures
            r@ == rejection_message(self),
    {
        let r = match self {
            EventRejection::InstallationClosed => "patch installation is permitted only at startup",
            EventRejection::TooManyPatches => "no more than 16 Patches may be installed",
            EventRejection::InvalidInstrumentConfig => "an installed Patch instrument config does not match the capability registry",
            EventRejection::InvalidEffectConfig => "an installed Patch effect config does not match the effect capability registry",
            EventRejection::NoPatchesInstalled => "no Patch is available for the selected operation",
            EventRejection::UnknownPatch => "the MIDI event targets a Patch that is not installed",
            EventRejection::InvalidSelection => "the current selection is outside the installed state",
            EventRejection::ParameterAtBoundary => "the selected parameter is already at that boundary",
            EventRejection::InvalidParameterValue => "the adjusted parameter value is invalid",
            EventRejection::ActionUnavailableInContext => "the semantic action is unavailable in the active context",
            EventRejection::EngineSelectionUnavailable => "the focused Patch has no adjacent installed engine choice",
            EventRejection::StructuralEditBusy => "another structural engine selection is already in flight",
            EventRejection::StaleEngineSelection => "the engine-selection event names no current request",
            EventRejection::MismatchedEngineSelection => "the engine-selection event does not match the current request",
            EventRejection::RequestIdOverflow => "the engine-selection request identity cannot be incremented",
            EventRejection::GenerationOverflow => "the accepted-state generation cannot be incremented",
        };
        r
    }
}

/// Every rejection occurs in the surface exactly at its own position, so the
/// surface lists each rejection once and nothing else.
pub proof fn lemma_rejection_surface_exact(r: EventRejection)
    ensures
        0 <= rejection_position(r) < rejection_surface().len(),
        rejection_surface()[rejection_position(r)] == r,
        forall|i: int| 0 <= i < rejection_surface().len() && rejection_surface()[i] == r ==> i == rejection_position(r),
{
}

/// No two rejections share a serialized name.
pub proof fn lemma_rejection_names_unique(a: EventRejection, b: EventRejection)
    requires
        a != b,
    ensures
        rejection_name(a) != rejection_name(b),
{
    reveal_strlit("installationClosed");
    reveal_strlit("tooManyPatches");
    reveal_strlit("invalidInstrumentConfig");
    reveal_strlit("invalidEffectConfig");
    reveal_strlit("noPatchesInstalled");
    reveal_strlit("unknownPatch");
    reveal_strlit("invalidSelection");
    reveal_strlit("parameterAtBoundary");
    reveal_strlit("invalidParameterValue");
    reveal_strlit("actionUnavailableInContext");
    reveal_strlit("engineSelectionUnavailable");
    reveal_strlit("structuralEditBusy");
    reveal_strlit("staleEngineSelection");
    reveal_strlit("mismatchedEngineSelection");
    reveal_strlit("requestIdOverflow");
    reveal_strlit("generationOverflow");
    let na = rejection_name(a);
    let nb = rejection_name(b);
    assert(na.len() != nb.len() || na[0] != nb[0]);
}

} // verus!
