//! The single app-wide structural selection lifecycle.
//!
//! A structural request enters `Preparing` with a correlation, reaches
//! `Activating` once a newer graph revision is prepared, and returns to
//! `Ready` on that revision after acknowledgement; a preparation failure
//! leaves it in `Failed` on the unchanged active revision.
use vstd::prelude::*;
use crate::domain::{
    capability_view, copy_text, duplicate_capability, duplicate_entry, entry_view, same_capability,
    same_entry, text_equal, BusId, CapabilityId, EffectCapabilityId, EffectSlotIndex, GraphRevision,
    ParameterId, PatchId,
};

verus! {

/// Monotonic correlation identity for one engine-selection attempt.
///
/// Zero is reserved for the absence of a request.
#[derive(Clone, Copy, Debug, PartialEq, Eq, Hash, PartialOrd, Ord, Structural)]
pub struct EngineSelectionRequestId(u64);

#[derive(Clone, Copy, Debug, PartialEq, Eq, Structural)]
pub enum EngineSelectionRequestIdError {
    Zero,
    Exhausted,
}

impl View for EngineSelectionRequestId {
    type V = u64;

    closed spec fn view(&self) -> u64 {
        self.0
    }
}

impl EngineSelectionRequestId {
    /// The reserved identity naming no request.
    pub fn none() -> (r: EngineSelectionRequestId)
        ensures
            r@ == 0,
    {
        EngineSelectionRequestId(0)
    }

    /// The first identity ever assigned.
    pub fn first() -> (r: EngineSelectionRequestId)
        ensures
            r@ == 1,
    {
        EngineSelectionRequestId(1)
    }

    pub fn new(value: u64) -> (r: Result<EngineSelectionRequestId, EngineSelectionRequestIdError>)
        ensures
            value == 0 <==> r is Err,
            r matches Ok(id) ==> id@ == value,
            r matches Err(e) ==> e == EngineSelectionRequestIdError::Zero,
    {
        if value == 0 {
            Err(EngineSelectionRequestIdError::Zero)
        } else {
            Ok(EngineSelectionRequestId(value))
        }
    }

    pub fn value(self) -> (r: u64)
        ensures
            r == self@,
    {
        self.0
    }

    pub fn is_none(self) -> (r: bool)
        ensures
            r == (self@ == 0),
    {
        self.0 == 0
    }

    pub fn checked_next(self) -> (r: Result<EngineSelectionRequestId, EngineSelectionRequestIdError>)
        ensures
            self@ == u64::MAX <==> r is Err,
            r matches Ok(id) ==> id@ == self@ + 1,
            r matches Err(e) ==> e == EngineSelectionRequestIdError::Exhausted,
    {
        if self.0 == u64::MAX {
            Err(EngineSelectionRequestIdError::Exhausted)
        } else {
            Ok(EngineSelectionRequestId(self.0 + 1))
        }
    }
}

/// Stable visible reasons an engine candidate could not be prepared.
#[derive(Clone, Copy, Debug, PartialEq, Eq, Hash, Structural)]
pub enum EngineSelectionFailure {
    UnknownCapability,
    MissingDefault,
    InvalidDefaultConfig,
    ProviderMismatch,
    PreparerMissing,
    AssetUnavailable,
    PresetUnavailable,
    UnsupportedAudioConfig,
    PreparationFailed,
    GraphIncompatible,
    WorkerUnavailable,
}

/// The complete failure surface in declaration order.
pub open spec fn failure_surface() -> Seq<EngineSelectionFailure> {
    seq![
        EngineSelectionFailure::UnknownCapability,
        EngineSelectionFailure::MissingDefault,
        EngineSelectionFailure::InvalidDefaultConfig,
        EngineSelectionFailure::ProviderMismatch,
        EngineSelectionFailure::PreparerMissing,
        EngineSelectionFailure::AssetUnavailable,
        EngineSelectionFailure::PresetUnavailable,
        EngineSelectionFailure::UnsupportedAudioConfig,
        EngineSelectionFailure::PreparationFailed,
        EngineSelectionFailure::GraphIncompatible,
        EngineSelectionFailure::WorkerUnavailable,
    ]
}

pub open spec fn failure_name(f: EngineSelectionFailure) -> Seq<char> {
    match f {
        EngineSelectionFailure::UnknownCapability => "unknownCapability"@,
        EngineSelectionFailure::MissingDefault => "missingDefault"@,
        EngineSelectionFailure::InvalidDefaultConfig => "invalidDefaultConfig"@,
        EngineSelectionFailure::ProviderMismatch => "providerMismatch"@,
        EngineSelectionFailure::PreparerMissing => "preparerMissing"@,
        EngineSelectionFailure::AssetUnavailable => "assetUnavailable"@,
        EngineSelectionFailure::PresetUnavailable => "presetUnavailable"@,
        EngineSelectionFailure::UnsupportedAudioConfig => "unsupportedAudioConfig"@,
        EngineSelectionFailure::PreparationFailed => "preparationFailed"@,
        EngineSelectionFailure::GraphIncompatible => "graphIncompatible"@,
        EngineSelectionFailure::WorkerUnavailable => "workerUnavailable"@,
    }
}

impl EngineSelectionFailure {
    /// Returns every failure exactly once.
    pub fn surface_descriptor() -> (r: Vec<EngineSelectionFailure>)
        ensures
            r@ == failure_surface(),
    {
        let r = vec![
            EngineSelectionFailure::UnknownCapability,
            EngineSelectionFailure::MissingDefault,
            EngineSelectionFailure::InvalidDefaultConfig,
            EngineSelectionFailure::ProviderMismatch,
            EngineSelectionFailure::PreparerMissing,
            EngineSelectionFailure::AssetUnavailable,
            EngineSelectionFailure::PresetUnavailable,
            EngineSelectionFailure::UnsupportedAudioConfig,
            EngineSelectionFailure::PreparationFailed,
            EngineSelectionFailure::GraphIncompatible,
            EngineSelectionFailure::WorkerUnavailable,
        ];
        assert(r@ =~= failure_surface());
        r
    }

    /// Returns the stable serialized name.
    pub fn name(self) -> (r: &'static str)
        ensures
            r@ == failure_name(self),
    {
        match self {
            EngineSelectionFailure::UnknownCapability => "unknownCapability",
            EngineSelectionFailure::MissingDefault => "missingDefault",
            EngineSelectionFailure::InvalidDefaultConfig => "invalidDefaultConfig",
            EngineSelectionFailure::ProviderMismatch => "providerMismatch",
            EngineSelectionFailure::PreparerMissing => "preparerMissing",
            EngineSelectionFailure::AssetUnavailable => "assetUnavailable",
            EngineSelectionFailure::PresetUnavailable => "presetUnavailable",
            EngineSelectionFailure::UnsupportedAudioConfig => "unsupportedAudioConfig",
            EngineSelectionFailure::PreparationFailed => "preparationFailed",
            EngineSelectionFailure::GraphIncompatible => "graphIncompatible",
            EngineSelectionFailure::WorkerUnavailable => "workerUnavailable",
        }
    }
}

/// The mathematical content of a structural edit intent.
pub enum IntentView {
    ReplaceCapability { target_capability_id: Seq<char> },
    ReplaceParameterChoice {
        capability_id: Seq<char>,
        parameter_id: Seq<char>,
        choice_id: Seq<char>,
    },
    SetSlotOccupancy { patch_id: PatchId, slot: EffectSlotIndex, entry: Option<Seq<char>> },
    SetReturnOccupancy { bus: BusId, entry: Option<Seq<char>> },
}

/// The complete permitted config delta for one shared structural request.
#[derive(Clone, Debug, PartialEq, Eq)]
pub enum StructuralEditIntent {
    ReplaceCapability { target_capability_id: CapabilityId },
    ReplaceParameterChoice {
        capability_id: CapabilityId,
        parameter_id: ParameterId,
        choice_id: String,
    },
    SetSlotOccupancy {
        patch_id: PatchId,
        slot: EffectSlotIndex,
        entry: Option<EffectCapabilityId>,
    },
    SetReturnOccupancy { bus: BusId, entry: Option<EffectCapabilityId> },
}

impl View for StructuralEditIntent {
    type V = IntentView;

    open spec fn view(&self) -> IntentView {
        match self {
            StructuralEditIntent::ReplaceCapability { target_capability_id } =>
                IntentView::ReplaceCapability { target_capability_id: target_capability_id@ },
            StructuralEditIntent::ReplaceParameterChoice {
                capability_id,
                parameter_id,
                choice_id,
            } => IntentView::ReplaceParameterChoice {
                capability_id: capability_id@,
                parameter_id: parameter_id@,
                choice_id: choice_id@,
            },
            StructuralEditIntent::SetSlotOccupancy { patch_id, slot, entry } =>
                IntentView::SetSlotOccupancy {
                    patch_id: *patch_id,
                    slot: *slot,
                    entry: entry_view(*entry),
                },
            StructuralEditIntent::SetReturnOccupancy { bus, entry } =>
                IntentView::SetReturnOccupancy { bus: *bus, entry: entry_view(*entry) },
        }
    }
}

/// The capability an intent targets, if it names one.
pub open spec fn intent_target_capability(i: IntentView) -> Option<Seq<char>> {
    match i {
        IntentView::ReplaceCapability { target_capability_id } => Some(target_capability_id),
        IntentView::ReplaceParameterChoice { capability_id, .. } => Some(capability_id),
        _ => None,
    }
}

pub open spec fn intent_is_occupancy(i: IntentView) -> bool {
    i is SetSlotOccupancy || i is SetReturnOccupancy
}

/// Whether a correlation's Patch and capability context agrees with its intent.
///
/// Instrument intents require the full capability pair; occupancy intents
/// require exactly the Patch context they name and no capabilities.
pub open spec fn context_matches(
    i: IntentView,
    patch_id: Option<PatchId>,
    source: Option<Seq<char>>,
    target: Option<Seq<char>>,
) -> bool {
    match i {
        IntentView::ReplaceCapability { target_capability_id } => {
            &&& patch_id is Some
            &&& source is Some
            &&& target is Some
            &&& source->0 != target->0
            &&& target_capability_id == target->0
        },
        IntentView::ReplaceParameterChoice { capability_id, .. } => {
            &&& patch_id is Some
            &&& source is Some
            &&& target is Some
            &&& source->0 == target->0
            &&& capability_id == source->0
        },
        IntentView::SetSlotOccupancy { patch_id: p, .. } => {
            &&& patch_id == Some(p)
            &&& source is None
            &&& target is None
        },
        IntentView::SetReturnOccupancy { .. } => {
            &&& patch_id is None
            &&& source is None
            &&& target is None
        },
    }
}

impl StructuralEditIntent {
    pub fn target_capability_id(&self) -> (r: Option<&CapabilityId>)
        ensures
            match r {
                Some(c) => intent_target_capability(self@) == Some(c@),
                None => intent_target_capability(self@) is None,
            },
    {
        match self {
            StructuralEditIntent::ReplaceCapability { target_capability_id } => Some(
                target_capability_id,
            ),
            StructuralEditIntent::ReplaceParameterChoice { capability_id, .. } => Some(
                capability_id,
            ),
            _ => None,
        }
    }

    pub fn parameter_id(&self) -> (r: Option<&ParameterId>)
        ensures
            match r {
                Some(p) => self@ matches IntentView::ReplaceParameterChoice { parameter_id, .. }
                    && parameter_id == p@,
                None => !(self@ is ReplaceParameterChoice),
            },
    {
        match self {
            StructuralEditIntent::ReplaceParameterChoice { parameter_id, .. } => Some(
                parameter_id,
            ),
            _ => None,
        }
    }

    pub fn choice_id(&self) -> (r: Option<&str>)
        ensures
            match r {
                Some(c) => self@ matches IntentView::ReplaceParameterChoice { choice_id, .. }
                    && choice_id == c@,
                None => !(self@ is ReplaceParameterChoice),
            },
    {
        match self {
            StructuralEditIntent::ReplaceParameterChoice { choice_id, .. } => Some(
                choice_id.as_str(),
            ),
            _ => None,
        }
    }

    /// Reports whether this intent is a slot or return occupancy change.
    pub fn is_occupancy(&self) -> (r: bool)
        ensures
            r == intent_is_occupancy(self@),
    {
        match self {
            StructuralEditIntent::SetSlotOccupancy { .. } => true,
            StructuralEditIntent::SetReturnOccupancy { .. } => true,
            _ => false,
        }
    }

    /// Validates one correlation's Patch and capability context against this intent.
    pub fn matches_context(
        &self,
        patch_id: Option<PatchId>,
        source: &Option<CapabilityId>,
        target: &Option<CapabilityId>,
    ) -> (r: bool)
        ensures
            r == context_matches(self@, patch_id, capability_view(*source), capability_view(*target)),
    {
        match self {
            StructuralEditIntent::ReplaceCapability { target_capability_id } => {
                match (patch_id, source, target) {
                    (Some(_), Some(s), Some(t)) => !s.same_as(t) && target_capability_id.same_as(t),
                    _ => false,
                }
            },
            StructuralEditIntent::ReplaceParameterChoice { capability_id, .. } => {
                match (patch_id, source, target) {
                    (Some(_), Some(s), Some(t)) => s.same_as(t) && capability_id.same_as(s),
                    _ => false,
                }
            },
            StructuralEditIntent::SetSlotOccupancy { patch_id: intent_patch_id, .. } => {
                let patch_matches = match patch_id {
                    Some(p) => p.same_as(*intent_patch_id),
                    None => false,
                };
                patch_matches && source.is_none() && target.is_none()
            },
            StructuralEditIntent::SetReturnOccupancy { .. } => {
                patch_id.is_none() && source.is_none() && target.is_none()
            },
        }
    }

    /// Copies the intent, keeping its content.
    pub fn duplicate(&self) -> (r: StructuralEditIntent)
        ensures
            r@ == self@,
    {
        match self {
            StructuralEditIntent::ReplaceCapability { target_capability_id } =>
                StructuralEditIntent::ReplaceCapability {
                    target_capability_id: target_capability_id.duplicate(),
                },
            StructuralEditIntent::ReplaceParameterChoice {
                capability_id,
                parameter_id,
                choice_id,
            } => StructuralEditIntent::ReplaceParameterChoice {
                capability_id: capability_id.duplicate(),
                parameter_id: parameter_id.duplicate(),
                choice_id: copy_text(choice_id),
            },
            StructuralEditIntent::SetSlotOccupancy { patch_id, slot, entry } =>
                StructuralEditIntent::SetSlotOccupancy {
                    patch_id: *patch_id,
                    slot: *slot,
                    entry: duplicate_entry(entry),
                },
            StructuralEditIntent::SetReturnOccupancy { bus, entry } =>
                StructuralEditIntent::SetReturnOccupancy {
                    bus: *bus,
                    entry: duplicate_entry(entry),
                },
        }
    }

    /// Compares two intents by content.
    pub fn same_as(&self, other: &StructuralEditIntent) -> (r: bool)
        ensures
            r == (self@ == other@),
    {
        match (self, other) {
            (
                StructuralEditIntent::ReplaceCapability { target_capability_id: a },
                StructuralEditIntent::ReplaceCapability { target_capability_id: b },
            ) => a.same_as(b),
            (
                StructuralEditIntent::ReplaceParameterChoice {
                    capability_id: ac,
                    parameter_id: ap,
                    choice_id: ax,
                },
                StructuralEditIntent::ReplaceParameterChoice {
                    capability_id: bc,
                    parameter_id: bp,
                    choice_id: bx,
                },
            ) => ac.same_as(bc) && ap.same_as(bp) && text_equal(ax, bx),
            (
                StructuralEditIntent::SetSlotOccupancy { patch_id: ap, slot: aslot, entry: ae },
                StructuralEditIntent::SetSlotOccupancy { patch_id: bp, slot: bslot, entry: be },
            ) => ap.same_as(*bp) && aslot.same_as(*bslot) && same_entry(ae, be),
            (
                StructuralEditIntent::SetReturnOccupancy { bus: ab, entry: ae },
                StructuralEditIntent::SetReturnOccupancy { bus: bb, entry: be },
            ) => ab.same_as(*bb) && same_entry(ae, be),
            _ => false,
        }
    }
}

/// Closed lifecycle kinds projected from canonical reducer state.
#[derive(Clone, Copy, Debug, PartialEq, Eq, Hash, Structural)]
pub enum EngineSelectionStatusKind {
    Ready,
    Preparing,
    Activating,
    Failed,
}

pub open spec fn status_kind_surface() -> Seq<EngineSelectionStatusKind> {
    seq![
        EngineSelectionStatusKind::Ready,
        EngineSelectionStatusKind::Preparing,
        EngineSelectionStatusKind::Activating,
        EngineSelectionStatusKind::Failed,
    ]
}

pub open spec fn status_kind_name(k: EngineSelectionStatusKind) -> Seq<char> {
    match k {
        EngineSelectionStatusKind::Ready => "ready"@,
        EngineSelectionStatusKind::Preparing => "preparing"@,
        EngineSelectionStatusKind::Activating => "activating"@,
        EngineSelectionStatusKind::Failed => "failed"@,
    }
}

impl EngineSelectionStatusKind {
    pub fn surface_descriptor() -> (r: Vec<EngineSelectionStatusKind>)
        ensures
            r@ == status_kind_surface(),
    {
        let r = vec![
            EngineSelectionStatusKind::Ready,
            EngineSelectionStatusKind::Preparing,
            EngineSelectionStatusKind::Activating,
            EngineSelectionStatusKind::Failed,
        ];
        assert(r@ =~= status_kind_surface());
        r
    }

    pub fn name(self) -> (r: &'static str)
        ensures
            r@ == status_kind_name(self),
    {
        match self {
            EngineSelectionStatusKind::Ready => "ready",
            EngineSelectionStatusKind::Preparing => "preparing",
            EngineSelectionStatusKind::Activating => "activating",
            EngineSelectionStatusKind::Failed => "failed",
        }
    }
}

/// Stable structural-effect kinds emitted after accepted lifecycle steps.
#[derive(Clone, Copy, Debug, PartialEq, Eq, Hash, Structural)]
pub enum EngineSelectionEffectKind {
    PrepareRequested,
    CandidateCommitted,
    GraphStaged,
    GraphPublished,
    ActivationAcknowledged,
}

pub open spec fn effect_kind_surface() -> Seq<EngineSelectionEffectKind> {
    seq![
        EngineSelectionEffectKind::PrepareRequested,
        EngineSelectionEffectKind::CandidateCommitted,
        EngineSelectionEffectKind::GraphStaged,
        EngineSelectionEffectKind::GraphPublished,
        EngineSelectionEffectKind::ActivationAcknowledged,
    ]
}

pub open spec fn effect_kind_name(k: EngineSelectionEffectKind) -> Seq<char> {
    match k {
        EngineSelectionEffectKind::PrepareRequested => "prepareRequested"@,
        EngineSelectionEffectKind::CandidateCommitted => "candidateCommitted"@,
        EngineSelectionEffectKind::GraphStaged => "graphStaged"@,
        EngineSelectionEffectKind::GraphPublished => "graphPublished"@,
        EngineSelectionEffectKind::ActivationAcknowledged => "activationAcknowledged"@,
    }
}

impl EngineSelectionEffectKind {
    pub fn surface_descriptor() -> (r: Vec<EngineSelectionEffectKind>)
        ensures
            r@ == effect_kind_surface(),
    {
        let r = vec![
            EngineSelectionEffectKind::PrepareRequested,
            EngineSelectionEffectKind::CandidateCommitted,
            EngineSelectionEffectKind::GraphStaged,
            EngineSelectionEffectKind::GraphPublished,
            EngineSelectionEffectKind::ActivationAcknowledged,
        ];
        assert(r@ =~= effect_kind_surface());
        r
    }

    pub fn name(self) -> (r: &'static str)
        ensures
            r@ == effect_kind_name(self),
    {
        match self {
            EngineSelectionEffectKind::PrepareRequested => "prepareRequested",
            EngineSelectionEffectKind::CandidateCommitted => "candidateCommitted",
            EngineSelectionEffectKind::GraphStaged => "graphStaged",
            EngineSelectionEffectKind::GraphPublished => "graphPublished",
            EngineSelectionEffectKind::ActivationAcknowledged => "activationAcknowledged",
        }
    }
}

/// Failures of lifecycle construction and transitions.
#[derive(Clone, Copy, Debug, PartialEq, Eq, Structural)]
pub enum EngineSelectionStatusError {
    MissingRequestIdentity,
    MissingCorrelation,
    MissingTargetRevision,
    TargetRevisionNotNewer,
    UnexpectedTargetRevision,
    InvalidSerializedState,
    InvalidTransition,
    IntentMismatch,
}

/// The mathematical content of a correlation.
pub struct CorrelationView {
    pub request_id: u64,
    pub patch_id: Option<PatchId>,
    pub intent: IntentView,
    pub source_capability_id: Option<Seq<char>>,
    pub target_capability_id: Option<Seq<char>>,
    pub source_graph_revision: u64,
    pub target_graph_revision: Option<u64>,
}

pub open spec fn revision_view(r: Option<GraphRevision>) -> Option<u64> {
    match r {
        Some(g) => Some(g@),
        None => None,
    }
}

/// An instrument request carries its Patch and both capabilities.
pub open spec fn instrument_context_present(c: CorrelationView) -> bool {
    !intent_is_occupancy(c.intent) ==> {
        &&& c.patch_id is Some
        &&& c.source_capability_id is Some
        &&& c.target_capability_id is Some
    }
}

/// Stable control metadata shared by preparation, activation, and evidence.
#[derive(Debug, PartialEq, Eq)]
pub struct EngineSelectionCorrelation {
    request_id: EngineSelectionRequestId,
    patch_id: Option<PatchId>,
    intent: StructuralEditIntent,
    source_capability_id: Option<CapabilityId>,
    target_capability_id: Option<CapabilityId>,
    source_graph_revision: GraphRevision,
    target_graph_revision: Option<GraphRevision>,
}

impl Clone for EngineSelectionCorrelation {
    fn clone(&self) -> (r: EngineSelectionCorrelation)
        ensures
            r@ == self@,
    {
        self.duplicate()
    }
}

impl View for EngineSelectionCorrelation {
    type V = CorrelationView;

    closed spec fn view(&self) -> CorrelationView {
        CorrelationView {
            request_id: self.request_id@,
            patch_id: self.patch_id,
            intent: self.intent@,
            source_capability_id: capability_view(self.source_capability_id),
            target_capability_id: capability_view(self.target_capability_id),
            source_graph_revision: self.source_graph_revision@,
            target_graph_revision: revision_view(self.target_graph_revision),
        }
    }
}

impl EngineSelectionCorrelation {
    /// Every correlation of an instrument request names its Patch and its
    /// capability pair.
    #[verifier::type_invariant]
    spec fn carries_instrument_context(self) -> bool {
        instrument_context_present(self@)
    }

    /// Assembles a correlation from its recorded parts, refusing an instrument
    /// request that lacks its Patch or either capability. The remaining
    /// lifecycle checks belong to the status that owns the correlation (see
    /// [`EngineSelectionStatus::from_parts`]).
    pub fn from_parts(
        request_id: EngineSelectionRequestId,
        patch_id: Option<PatchId>,
        intent: StructuralEditIntent,
        source_capability_id: Option<CapabilityId>,
        target_capability_id: Option<CapabilityId>,
        source_graph_revision: GraphRevision,
        target_graph_revision: Option<GraphRevision>,
    ) -> (r: Option<EngineSelectionCorrelation>)
        ensures
            ({
                let v = CorrelationView {
                    request_id: request_id@,
                    patch_id,
                    intent: intent@,
                    source_capability_id: capability_view(source_capability_id),
                    target_capability_id: capability_view(target_capability_id),
                    source_graph_revision: source_graph_revision@,
                    target_graph_revision: revision_view(target_graph_revision),
                };
                &&& r is Some <==> instrument_context_present(v)
                &&& r matches Some(c) ==> c@ == v
            }),
    {
        if !intent.is_occupancy() && (patch_id.is_none() || source_capability_id.is_none()
            || target_capability_id.is_none()) {
            return None;
        }
        Some(
            EngineSelectionCorrelation {
                request_id,
                patch_id,
                intent,
                source_capability_id,
                target_capability_id,
                source_graph_revision,
                target_graph_revision,
            },
        )
    }

    pub fn request_id(&self) -> (r: EngineSelectionRequestId)
        ensures
            r@ == self@.request_id,
    {
        self.request_id
    }

    pub fn patch_id(&self) -> (r: Option<PatchId>)
        ensures
            r == self@.patch_id,
            instrument_context_present(self@),
    {
        proof {
            use_type_invariant(self);
        }
        self.patch_id
    }

    pub fn intent(&self) -> (r: &StructuralEditIntent)
        ensures
            r@ == self@.intent,
    {
        &self.intent
    }

    pub fn source_capability_id(&self) -> (r: Option<&CapabilityId>)
        ensures
            match r {
                Some(c) => self@.source_capability_id == Some(c@),
                None => self@.source_capability_id is None,
            },
            instrument_context_present(self@),
    {
        proof {
            use_type_invariant(self);
        }
        match &self.source_capability_id {
            Some(c) => Some(c),
            None => None,
        }
    }

    pub fn target_capability_id(&self) -> (r: Option<&CapabilityId>)
        ensures
            match r {
                Some(c) => self@.target_capability_id == Some(c@),
                None => self@.target_capability_id is None,
            },
            instrument_context_present(self@),
    {
        proof {
            use_type_invariant(self);
        }
        match &self.target_capability_id {
            Some(c) => Some(c),
            None => None,
        }
    }

    pub fn source_graph_revision(&self) -> (r: GraphRevision)
        ensures
            r@ == self@.source_graph_revision,
    {
        self.source_graph_revision
    }

    pub fn target_graph_revision(&self) -> (r: Option<GraphRevision>)
        ensures
            revision_view(r) == self@.target_graph_revision,
    {
        self.target_graph_revision
    }

    /// Copies the correlation, keeping its content.
    pub fn duplicate(&self) -> (r: EngineSelectionCorrelation)
        ensures
            r@ == self@,
    {
        proof {
            use_type_invariant(self);
        }
        EngineSelectionCorrelation {
            request_id: self.request_id,
            patch_id: self.patch_id,
            intent: self.intent.duplicate(),
            source_capability_id: duplicate_capability(&self.source_capability_id),
            target_capability_id: duplicate_capability(&self.target_capability_id),
            source_graph_revision: self.source_graph_revision,
            target_graph_revision: self.target_graph_revision,
        }
    }
}

/// The mathematical content of a structural effect.
pub struct EffectView {
    pub kind: EngineSelectionEffectKind,
    pub correlation: CorrelationView,
}

/// One observable control-side structural effect with no graph ownership.
#[derive(Clone, Debug, PartialEq, Eq)]
pub struct EngineSelectionEffect {
    kind: EngineSelectionEffectKind,
    correlation: EngineSelectionCorrelation,
}

impl View for EngineSelectionEffect {
    type V = EffectView;

    closed spec fn view(&self) -> EffectView {
        EffectView { kind: self.kind, correlation: self.correlation@ }
    }
}

/// The revision shape each effect kind declares: only a preparation request
/// carries no target revision.
pub open spec fn effect_revision_shape_ok(
    kind: EngineSelectionEffectKind,
    target: Option<u64>,
) -> bool {
    if kind == EngineSelectionEffectKind::PrepareRequested {
        target is None
    } else {
        target is Some
    }
}

impl EngineSelectionEffect {
    /// Builds the effect of `kind` for one correlation, refusing a correlation
    /// whose target revision contradicts the kind.
    pub fn from_correlation(
        kind: EngineSelectionEffectKind,
        correlation: &EngineSelectionCorrelation,
    ) -> (r: Result<EngineSelectionEffect, EngineSelectionStatusError>)
        ensures
            r is Ok <==> effect_revision_shape_ok(kind, correlation@.target_graph_revision),
            r matches Ok(e) ==> e@ == (EffectView { kind, correlation: correlation@ }),
            r matches Err(e) ==> e == (if kind == EngineSelectionEffectKind::PrepareRequested {
                EngineSelectionStatusError::UnexpectedTargetRevision
            } else {
                EngineSelectionStatusError::MissingTargetRevision
            }),
    {
        let target = correlation.target_graph_revision();
        match kind {
            EngineSelectionEffectKind::PrepareRequested => {
                if target.is_some() {
                    return Err(EngineSelectionStatusError::UnexpectedTargetRevision);
                }
            },
            _ => {
                if target.is_none() {
                    return Err(EngineSelectionStatusError::MissingTargetRevision);
                }
            },
        }
        Ok(EngineSelectionEffect { kind, correlation: correlation.duplicate() })
    }

    pub fn kind(&self) -> (r: EngineSelectionEffectKind)
        ensures
            r == self@.kind,
    {
        self.kind
    }

    pub fn request_id(&self) -> (r: EngineSelectionRequestId)
        ensures
            r@ == self@.correlation.request_id,
    {
        self.correlation.request_id()
    }

    pub fn patch_id(&self) -> (r: Option<PatchId>)
        ensures
            r == self@.correlation.patch_id,
            instrument_context_present(self@.correlation),
    {
        self.correlation.patch_id()
    }

    pub fn intent(&self) -> (r: &StructuralEditIntent)
        ensures
            r@ == self@.correlation.intent,
    {
        self.correlation.intent()
    }

    pub fn source_capability_id(&self) -> (r: Option<&CapabilityId>)
        ensures
            match r {
                Some(c) => self@.correlation.source_capability_id == Some(c@),
                None => self@.correlation.source_capability_id is None,
            },
            instrument_context_present(self@.correlation),
    {
        self.correlation.source_capability_id()
    }

    pub fn target_capability_id(&self) -> (r: Option<&CapabilityId>)
        ensures
            match r {
                Some(c) => self@.correlation.target_capability_id == Some(c@),
                None => self@.correlation.target_capability_id is None,
            },
            instrument_context_present(self@.correlation),
    {
        self.correlation.target_capability_id()
    }

    pub fn source_graph_revision(&self) -> (r: GraphRevision)
        ensures
            r@ == self@.correlation.source_graph_revision,
    {
        self.correlation.source_graph_revision()
    }

    pub fn target_graph_revision(&self) -> (r: Option<GraphRevision>)
        ensures
            revision_view(r) == self@.correlation.target_graph_revision,
    {
        self.correlation.target_graph_revision()
    }

    /// Copies the effect, keeping its content.
    pub fn duplicate(&self) -> (r: EngineSelectionEffect)
        ensures
            r@ == self@,
    {
        EngineSelectionEffect { kind: self.kind, correlation: self.correlation.duplicate() }
    }

    /// Compares two effects by kind and correlation content.
    pub fn same_as(&self, other: &EngineSelectionEffect) -> (r: bool)
        ensures
            r == (self@ == other@),
    {
        let a = &self.correlation;
        let b = &other.correlation;
        let same_patch = match (a.patch_id, b.patch_id) {
            (Some(x), Some(y)) => x.same_as(y),
            (None, None) => true,
            _ => false,
        };
        let same_target = match (a.target_graph_revision, b.target_graph_revision) {
            (Some(x), Some(y)) => x.value() == y.value(),
            (None, None) => true,
            _ => false,
        };
        self.kind == other.kind && a.request_id.value() == b.request_id.value() && same_patch
            && a.intent.same_as(&b.intent) && same_capability(
            &a.source_capability_id,
            &b.source_capability_id,
        ) && same_capability(&a.target_capability_id, &b.target_capability_id)
            && a.source_graph_revision.value() == b.source_graph_revision.value() && same_target
    }
}

/// The mathematical content of the lifecycle state.
pub struct StatusView {
    pub kind: EngineSelectionStatusKind,
    pub active_graph_revision: u64,
    pub correlation: Option<CorrelationView>,
    pub failure: Option<EngineSelectionFailure>,
}

/// The lifecycle's invariant: correlation metadata is coherent with the
/// active revision and its intent, and each kind carries exactly the data it
/// declares.
pub open spec fn correlation_coherent(s: StatusView) -> bool {
    match s.correlation {
        None => true,
        Some(c) => {
            &&& c.request_id != 0
            &&& c.source_graph_revision == s.active_graph_revision
            &&& context_matches(
                c.intent,
                c.patch_id,
                c.source_capability_id,
                c.target_capability_id,
            )
        },
    }
}

pub open spec fn status_valid(s: StatusView) -> bool {
    &&& correlation_coherent(s)
    &&& match s.kind {
        EngineSelectionStatusKind::Ready => s.correlation is None && s.failure is None,
        EngineSelectionStatusKind::Preparing => {
            &&& s.correlation is Some
            &&& s.correlation->0.target_graph_revision is None
            &&& s.failure is None
        },
        EngineSelectionStatusKind::Activating => {
            &&& s.correlation is Some
            &&& s.correlation->0.target_graph_revision is Some
            &&& s.correlation->0.target_graph_revision->0 > s.active_graph_revision
            &&& s.failure is None
        },
        EngineSelectionStatusKind::Failed => {
            &&& s.correlation is Some
            &&& s.correlation->0.target_graph_revision is None
            &&& s.failure is Some
        },
    }
}

/// The revision scalar projections target.
pub open spec fn projection_revision(s: StatusView) -> u64 {
    if s.kind == EngineSelectionStatusKind::Activating && s.correlation is Some
        && s.correlation->0.target_graph_revision is Some {
        s.correlation->0.target_graph_revision->0
    } else {
        s.active_graph_revision
    }
}

/// Reducer-owned state for the single app-wide structural selection lifecycle.
#[derive(Clone, Debug, PartialEq, Eq)]
pub struct EngineSelectionStatus {
    kind: EngineSelectionStatusKind,
    active_graph_revision: GraphRevision,
    correlation: Option<EngineSelectionCorrelation>,
    failure: Option<EngineSelectionFailure>,
}

pub open spec fn correlation_view(c: Option<EngineSelectionCorrelation>) -> Option<CorrelationView> {
    match c {
        Some(x) => Some(x@),
        None => None,
    }
}

impl View for EngineSelectionStatus {
    type V = StatusView;

    closed spec fn view(&self) -> StatusView {
        StatusView {
            kind: self.kind,
            active_graph_revision: self.active_graph_revision@,
            correlation: correlation_view(self.correlation),
            failure: self.failure,
        }
    }
}

/// The correlation a fresh request records.
pub open spec fn fresh_correlation(
    request_id: u64,
    patch_id: Option<PatchId>,
    intent: IntentView,
    source: Option<Seq<char>>,
    target: Option<Seq<char>>,
    active: u64,
) -> CorrelationView {
    CorrelationView {
        request_id,
        patch_id,
        intent,
        source_capability_id: source,
        target_capability_id: target,
        source_graph_revision: active,
        target_graph_revision: None,
    }
}

/// The outcome of entering Preparing with a given context.
pub open spec fn preparing_outcome(
    active: u64,
    request_id: u64,
    patch_id: Option<PatchId>,
    intent: IntentView,
    source: Option<Seq<char>>,
    target: Option<Seq<char>>,
) -> Result<StatusView, EngineSelectionStatusError> {
    if request_id == 0 {
        Err(EngineSelectionStatusError::MissingRequestIdentity)
    } else if !context_matches(intent, patch_id, source, target) {
        Err(EngineSelectionStatusError::IntentMismatch)
    } else {
        Ok(
            StatusView {
                kind: EngineSelectionStatusKind::Preparing,
                active_graph_revision: active,
                correlation: Some(
                    fresh_correlation(request_id, patch_id, intent, source, target, active),
                ),
                failure: None,
            },
        )
    }
}

pub open spec fn status_result_view(r: Result<EngineSelectionStatus, EngineSelectionStatusError>) -> Result<
    StatusView,
    EngineSelectionStatusError,
> {
    match r {
        Ok(s) => Ok(s@),
        Err(e) => Err(e),
    }
}

impl EngineSelectionStatus {
    /// The idle lifecycle on one active revision.
    pub fn ready(active_graph_revision: GraphRevision) -> (r: EngineSelectionStatus)
        ensures
            r@ == (StatusView {
                kind: EngineSelectionStatusKind::Ready,
                active_graph_revision: active_graph_revision@,
                correlation: None,
                failure: None,
            }),
            status_valid(r@),
    {
        EngineSelectionStatus {
            kind: EngineSelectionStatusKind::Ready,
            active_graph_revision,
            correlation: None,
            failure: None,
        }
    }

    /// Enters Preparing for one instrument capability replacement.
    pub fn preparing(
        active_graph_revision: GraphRevision,
        request_id: EngineSelectionRequestId,
        patch_id: PatchId,
        source_capability_id: CapabilityId,
        target_capability_id: CapabilityId,
    ) -> (r: Result<EngineSelectionStatus, EngineSelectionStatusError>)
        ensures
            status_result_view(r) == preparing_outcome(
                active_graph_revision@,
                request_id@,
                Some(patch_id),
                IntentView::ReplaceCapability { target_capability_id: target_capability_id@ },
                Some(source_capability_id@),
                Some(target_capability_id@),
            ),
            r matches Ok(s) ==> status_valid(s@),
    {
        let intent = StructuralEditIntent::ReplaceCapability {
            target_capability_id: target_capability_id.duplicate(),
        };
        Self::preparing_with_intent(
            active_graph_revision,
            request_id,
            patch_id,
            intent,
            source_capability_id,
            target_capability_id,
        )
    }

    /// Enters Preparing for one instrument intent with its full Patch and
    /// capability context.
    pub fn preparing_with_intent(
        active_graph_revision: GraphRevision,
        request_id: EngineSelectionRequestId,
        patch_id: PatchId,
        intent: StructuralEditIntent,
        source_capability_id: CapabilityId,
        target_capability_id: CapabilityId,
    ) -> (r: Result<EngineSelectionStatus, EngineSelectionStatusError>)
        ensures
            status_result_view(r) == preparing_outcome(
                active_graph_revision@,
                request_id@,
                Some(patch_id),
                intent@,
                Some(source_capability_id@),
                Some(target_capability_id@),
            ),
            r matches Ok(s) ==> status_valid(s@),
    {
        Self::preparing_with_context(
            active_graph_revision,
            request_id,
            Some(patch_id),
            intent,
            Some(source_capability_id),
            Some(target_capability_id),
        )
    }

    /// Enters Preparing for one occupancy intent, deriving the Patch context
    /// the intent itself declares.
    pub fn preparing_for_occupancy(
        active_graph_revision: GraphRevision,
        request_id: EngineSelectionRequestId,
        intent: StructuralEditIntent,
    ) -> (r: Result<EngineSelectionStatus, EngineSelectionStatusError>)
        ensures
            status_result_view(r) == (match intent@ {
                IntentView::SetSlotOccupancy { patch_id, .. } => preparing_outcome(
                    active_graph_revision@,
                    request_id@,
                    Some(patch_id),
                    intent@,
                    None,
                    None,
                ),
                IntentView::SetReturnOccupancy { .. } => preparing_outcome(
                    active_graph_revision@,
                    request_id@,
                    None,
                    intent@,
                    None,
                    None,
                ),
                _ => Err(EngineSelectionStatusError::IntentMismatch),
            }),
            r matches Ok(s) ==> status_valid(s@),
    {
        let patch_id = match &intent {
            StructuralEditIntent::SetSlotOccupancy { patch_id, .. } => Some(*patch_id),
            StructuralEditIntent::SetReturnOccupancy { .. } => None,
            _ => {
                return Err(EngineSelectionStatusError::IntentMismatch);
            },
        };
        Self::preparing_with_context(active_graph_revision, request_id, patch_id, intent, None, None)
    }

    fn preparing_with_context(
        active_graph_revision: GraphRevision,
        request_id: EngineSelectionRequestId,
        patch_id: Option<PatchId>,
        intent: StructuralEditIntent,
        source_capability_id: Option<CapabilityId>,
        target_capability_id: Option<CapabilityId>,
    ) -> (r: Result<EngineSelectionStatus, EngineSelectionStatusError>)
        ensures
            status_result_view(r) == preparing_outcome(
                active_graph_revision@,
                request_id@,
                patch_id,
                intent@,
                capability_view(source_capability_id),
                capability_view(target_capability_id),
            ),
            r matches Ok(s) ==> status_valid(s@),
    {
        if request_id.is_none() {
            return Err(EngineSelectionStatusError::MissingRequestIdentity);
        }
        if !intent.matches_context(patch_id, &source_capability_id, &target_capability_id) {
            return Err(EngineSelectionStatusError::IntentMismatch);
        }
        let r = EngineSelectionStatus {
            kind: EngineSelectionStatusKind::Preparing,
            active_graph_revision,
            correlation: Some(
                EngineSelectionCorrelation {
                    request_id,
                    patch_id,
                    intent,
                    source_capability_id,
                    target_capability_id,
                    source_graph_revision: active_graph_revision,
                    target_graph_revision: None,
                },
            ),
            failure: None,
        };
        Ok(r)
    }

    /// Moves Preparing to Activating on a strictly newer target revision.
    pub fn activating(&self, target_graph_revision: GraphRevision) -> (r: Result<
        EngineSelectionStatus,
        EngineSelectionStatusError,
    >)
        ensures
            status_result_view(r) == (if self@.kind != EngineSelectionStatusKind::Preparing {
                Err(EngineSelectionStatusError::InvalidTransition)
            } else if target_graph_revision@ <= self@.active_graph_revision {
                Err(EngineSelectionStatusError::TargetRevisionNotNewer)
            } else if self@.correlation is None {
                Err(EngineSelectionStatusError::MissingCorrelation)
            } else {
                Ok(
                    StatusView {
                        kind: EngineSelectionStatusKind::Activating,
                        active_graph_revision: self@.active_graph_revision,
                        correlation: Some(
                            CorrelationView {
                                target_graph_revision: Some(target_graph_revision@),
                                ..self@.correlation->0
                            },
                        ),
                        failure: None,
                    },
                )
            }),
            status_valid(self@) && r is Ok ==> status_valid(r->Ok_0@),
    {
        if self.kind != EngineSelectionStatusKind::Preparing {
            return Err(EngineSelectionStatusError::InvalidTransition);
        }
        if !target_graph_revision.is_newer_than(self.active_graph_revision) {
            return Err(EngineSelectionStatusError::TargetRevisionNotNewer);
        }
        match &self.correlation {
            None => Err(EngineSelectionStatusError::MissingCorrelation),
            Some(c) => {
                let mut correlation = c.duplicate();
                proof {
                    use_type_invariant(&correlation);
                }
                correlation.target_graph_revision = Some(target_graph_revision);
                Ok(
                    EngineSelectionStatus {
                        kind: EngineSelectionStatusKind::Activating,
                        active_graph_revision: self.active_graph_revision,
                        correlation: Some(correlation),
                        failure: None,
                    },
                )
            },
        }
    }

    /// Records a typed preparation failure; only Preparing may fail.
    pub fn failed(&self, failure: EngineSelectionFailure) -> (r: Result<
        EngineSelectionStatus,
        EngineSelectionStatusError,
    >)
        ensures
            status_result_view(r) == (if self@.kind != EngineSelectionStatusKind::Preparing {
                Err(EngineSelectionStatusError::InvalidTransition)
            } else if self@.correlation is None {
                Err(EngineSelectionStatusError::MissingCorrelation)
            } else {
                Ok(
                    StatusView {
                        kind: EngineSelectionStatusKind::Failed,
                        active_graph_revision: self@.active_graph_revision,
                        correlation: self@.correlation,
                        failure: Some(failure),
                    },
                )
            }),
            status_valid(self@) && r is Ok ==> status_valid(r->Ok_0@),
    {
        if self.kind != EngineSelectionStatusKind::Preparing {
            return Err(EngineSelectionStatusError::InvalidTransition);
        }
        match &self.correlation {
            None => Err(EngineSelectionStatusError::MissingCorrelation),
            Some(c) => Ok(
                EngineSelectionStatus {
                    kind: EngineSelectionStatusKind::Failed,
                    active_graph_revision: self.active_graph_revision,
                    correlation: Some(c.duplicate()),
                    failure: Some(failure),
                },
            ),
        }
    }

    /// Completes activation: the lifecycle is Ready on the target revision.
    pub fn acknowledged(&self) -> (r: Result<EngineSelectionStatus, EngineSelectionStatusError>)
        ensures
            status_result_view(r) == (if self@.kind != EngineSelectionStatusKind::Activating {
                Err(EngineSelectionStatusError::InvalidTransition)
            } else if self@.correlation is None
                || self@.correlation->0.target_graph_revision is None {
                Err(EngineSelectionStatusError::MissingTargetRevision)
            } else {
                Ok(
                    StatusView {
                        kind: EngineSelectionStatusKind::Ready,
                        active_graph_revision: self@.correlation->0.target_graph_revision->0,
                        correlation: None,
                        failure: None,
                    },
                )
            }),
            r is Ok ==> status_valid(r->Ok_0@),
    {
        if self.kind != EngineSelectionStatusKind::Activating {
            return Err(EngineSelectionStatusError::InvalidTransition);
        }
        let target = match &self.correlation {
            Some(c) => c.target_graph_revision,
            None => None,
        };
        match target {
            Some(t) => Ok(Self::ready(t)),
            None => Err(EngineSelectionStatusError::MissingTargetRevision),
        }
    }

    pub fn kind(&self) -> (r: EngineSelectionStatusKind)
        ensures
            r == self@.kind,
    {
        self.kind
    }

    pub fn active_graph_revision(&self) -> (r: GraphRevision)
        ensures
            r@ == self@.active_graph_revision,
    {
        self.active_graph_revision
    }

    pub fn correlation(&self) -> (r: Option<&EngineSelectionCorrelation>)
        ensures
            match r {
                Some(c) => self@.correlation == Some(c@),
                None => self@.correlation is None,
            },
    {
        match &self.correlation {
            Some(c) => Some(c),
            None => None,
        }
    }

    pub fn failure(&self) -> (r: Option<EngineSelectionFailure>)
        ensures
            r == self@.failure,
    {
        self.failure
    }

    pub fn is_in_flight(&self) -> (r: bool)
        ensures
            r == (self@.kind == EngineSelectionStatusKind::Preparing || self@.kind
                == EngineSelectionStatusKind::Activating),
    {
        match self.kind {
            EngineSelectionStatusKind::Preparing => true,
            EngineSelectionStatusKind::Activating => true,
            _ => false,
        }
    }

    /// Returns the complete graph revision targeted by current scalar
    /// projections: an Activating candidate's newer graph, else the active one.
    pub fn projection_graph_revision(&self) -> (r: GraphRevision)
        ensures
            r@ == projection_revision(self@),
    {
        match self.kind {
            EngineSelectionStatusKind::Activating => match &self.correlation {
                Some(c) => match c.target_graph_revision {
                    Some(t) => t,
                    None => self.active_graph_revision,
                },
                None => self.active_graph_revision,
            },
            _ => self.active_graph_revision,
        }
    }

    /// Checks the lifecycle invariant of recorded state.
    fn validate_serialized(&self) -> (r: Result<(), EngineSelectionStatusError>)
        ensures
            r is Ok <==> status_valid(self@),
            r matches Err(e) ==> e == EngineSelectionStatusError::InvalidSerializedState,
    {
        let correlation_valid = match &self.correlation {
            None => true,
            Some(c) => !c.request_id.is_none() && c.source_graph_revision.value()
                == self.active_graph_revision.value() && c.intent.matches_context(
                c.patch_id,
                &c.source_capability_id,
                &c.target_capability_id,
            ),
        };
        if !correlation_valid {
            return Err(EngineSelectionStatusError::InvalidSerializedState);
        }
        let valid = match self.kind {
            EngineSelectionStatusKind::Ready => self.correlation.is_none()
                && self.failure.is_none(),
            EngineSelectionStatusKind::Preparing => match &self.correlation {
                Some(c) => c.target_graph_revision.is_none() && self.failure.is_none(),
                None => false,
            },
            EngineSelectionStatusKind::Activating => match &self.correlation {
                Some(c) => match c.target_graph_revision {
                    Some(t) => t.is_newer_than(self.active_graph_revision)
                        && self.failure.is_none(),
                    None => false,
                },
                None => false,
            },
            EngineSelectionStatusKind::Failed => match &self.correlation {
                Some(c) => c.target_graph_revision.is_none() && self.failure.is_some(),
                None => false,
            },
        };
        if valid {
            Ok(())
        } else {
            Err(EngineSelectionStatusError::InvalidSerializedState)
        }
    }

    /// Rebuilds recorded lifecycle state, accepting it exactly when it
    /// satisfies the lifecycle invariant.
    pub fn from_parts(
        kind: EngineSelectionStatusKind,
        active_graph_revision: GraphRevision,
        correlation: Option<EngineSelectionCorrelation>,
        failure: Option<EngineSelectionFailure>,
    ) -> (r: Result<EngineSelectionStatus, EngineSelectionStatusError>)
        ensures
            r is Ok <==> status_valid(
                StatusView {
                    kind,
                    active_graph_revision: active_graph_revision@,
                    correlation: correlation_view(correlation),
                    failure,
                },
            ),
            r matches Ok(s) ==> s@ == (StatusView {
                kind,
                active_graph_revision: active_graph_revision@,
                correlation: correlation_view(correlation),
                failure,
            }),
            r matches Err(e) ==> e == EngineSelectionStatusError::InvalidSerializedState,
    {
        let status = EngineSelectionStatus { kind, active_graph_revision, correlation, failure };
        match status.validate_serialized() {
            Ok(()) => Ok(status),
            Err(e) => Err(e),
        }
    }

    /// Copies the lifecycle state, keeping its content.
    pub fn duplicate(&self) -> (r: EngineSelectionStatus)
        ensures
            r@ == self@,
    {
        let correlation = match &self.correlation {
            Some(c) => Some(c.duplicate()),
            None => None,
        };
        EngineSelectionStatus {
            kind: self.kind,
            active_graph_revision: self.active_graph_revision,
            correlation,
            failure: self.failure,
        }
    }
}


/// A request that is prepared, activated on a newer revision and then
/// acknowledged leaves the lifecycle Ready on exactly that revision, with no
/// correlation and no failure.
pub proof fn lemma_lifecycle_round_trip(
    active: u64,
    request_id: u64,
    patch_id: Option<PatchId>,
    intent: IntentView,
    source: Option<Seq<char>>,
    target: Option<Seq<char>>,
    target_revision: u64,
)
    requires
        preparing_outcome(active, request_id, patch_id, intent, source, target) is Ok,
        target_revision > active,
    ensures
        ({
            let preparing = preparing_outcome(active, request_id, patch_id, intent, source, target)->Ok_0;
            let activating = StatusView {
                kind: EngineSelectionStatusKind::Activating,
                active_graph_revision: preparing.active_graph_revision,
                correlation: Some(
                    CorrelationView { target_graph_revision: Some(target_revision), ..preparing.correlation->0 },
                ),
                failure: None,
            };
            &&& status_valid(preparing)
            &&& status_valid(activating)
            &&& activating.correlation->0.request_id == request_id
            &&& activating.correlation->0.target_graph_revision->0 == target_revision
        }),
{
}

} // verus!
