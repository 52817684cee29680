//! The control loop's decisions around canonical state: which events reach
//! the reducer, what to prepare when the reducer requests a structural
//! change, and which correlated event answers each worker report and each
//! completed activation.
use vstd::prelude::*;
use crate::app_event::AppEvent;
use crate::app_state::{patch_index_of, position_of_patch, state_wf, StateView};
use crate::domain::{GraphRevision, ParameterId};
use crate::engine_selection::{
    instrument_context_present, intent_is_occupancy, CorrelationView, EffectView, EngineSelectionCorrelation, EngineSelectionEffect,
    EngineSelectionFailure, EngineSelectionStatus, EngineSelectionStatusError, IntentView, StatusView,
    StructuralEditIntent,
};
use crate::patch::{config_with_choice, patch_views, ChoiceView, ConfigView, InstrumentConfig, Patch, PatchView};
use crate::payloads::PreparedSampleVisualization;
use crate::rejection::EventRejection;
use crate::registry::{config_valid, parameter_ids, descriptor_index, CapabilityError, CapabilityRegistry, DescriptorView};
use crate::transitions::{activating_status, applied, chosen_value, failed_status};

verus! {

/// The failure reported when a capability lookup refuses a preparation.
pub open spec fn capability_failure(error: CapabilityError) -> EngineSelectionFailure {
    match error {
        CapabilityError::UnknownCapability(_) => EngineSelectionFailure::UnknownCapability,
        _ => EngineSelectionFailure::InvalidDefaultConfig,
    }
}

/// Maps a capability refusal onto the visible preparation failure.
pub fn map_capability_failure(error: &CapabilityError) -> (r: EngineSelectionFailure)
    ensures
        r == capability_failure(*error),
{
    match error {
        CapabilityError::UnknownCapability(_) => EngineSelectionFailure::UnknownCapability,
        _ => EngineSelectionFailure::InvalidDefaultConfig,
    }
}

/// Whether `e` is the correlated failure answer to the request `c`:
/// the topology event for an occupancy request, the engine event carrying
/// the Patch and capability pair otherwise.
pub open spec fn failure_event_fits(
    e: AppEvent,
    c: CorrelationView,
    target: u64,
    failure: EngineSelectionFailure,
) -> bool {
    if intent_is_occupancy(c.intent) {
        e matches AppEvent::TopologyPreparationFailed {
            request_id,
            intent,
            source_graph_revision,
            target_graph_revision: t,
            failure: f,
        } && request_id@ == c.request_id && intent@ == c.intent && source_graph_revision@
            == c.source_graph_revision && t@ == target && f == failure
    } else {
        e matches AppEvent::EnginePreparationFailed {
            request_id,
            patch_id,
            intent,
            source_capability_id,
            target_capability_id,
            source_graph_revision,
            target_graph_revision: t,
            failure: f,
        } && request_id@ == c.request_id && Some(patch_id) == c.patch_id && intent@ == c.intent
            && Some(source_capability_id@) == c.source_capability_id && Some(target_capability_id@)
            == c.target_capability_id && source_graph_revision@ == c.source_graph_revision && t@ == target
            && f == failure
    }
}

/// The correlated failure event for one requested structural effect:
/// occupancy requests answer with the topology event, instrument requests
/// with the engine event carrying their Patch and capability pair.
pub fn structural_preparation_failed_event(
    effect: &EngineSelectionEffect,
    target_graph_revision: GraphRevision,
    failure: EngineSelectionFailure,
) -> (r: AppEvent)
    ensures
        failure_event_fits(r, effect@.correlation, target_graph_revision@, failure),
{
    if effect.intent().is_occupancy() {
        return AppEvent::TopologyPreparationFailed {
            request_id: effect.request_id(),
            intent: effect.intent().duplicate(),
            source_graph_revision: effect.source_graph_revision(),
            target_graph_revision,
            failure,
        };
    }
    let patch_id = effect.patch_id().unwrap();
    let source_capability_id = effect.source_capability_id().unwrap().duplicate();
    let target_capability_id = effect.target_capability_id().unwrap().duplicate();
    AppEvent::EnginePreparationFailed {
        request_id: effect.request_id(),
        patch_id,
        intent: effect.intent().duplicate(),
        source_capability_id,
        target_capability_id,
        source_graph_revision: effect.source_graph_revision(),
        target_graph_revision,
        failure,
    }
}

/// Maps a capability refusal met while building the candidate of `intent`:
/// a structural choice the instrument cannot take is an unavailable preset.
pub open spec fn structural_capability_failure(intent: IntentView, error: CapabilityError) -> EngineSelectionFailure {
    if intent is ReplaceParameterChoice && error is InvalidConfig {
        EngineSelectionFailure::PresetUnavailable
    } else {
        capability_failure(error)
    }
}

/// Maps a refusal met while building a structural candidate onto the
/// visible preparation failure.
pub fn map_structural_capability_failure(intent: &StructuralEditIntent, error: &CapabilityError) -> (r:
    EngineSelectionFailure)
    ensures
        r == structural_capability_failure(intent@, *error),
{
    match (intent, error) {
        (StructuralEditIntent::ReplaceParameterChoice { .. }, CapabilityError::InvalidConfig(_)) => {
            EngineSelectionFailure::PresetUnavailable
        },
        _ => map_capability_failure(error),
    }
}

/// Whether the descriptor offers `choice` for its structural parameter
/// `parameter`.
pub open spec fn offers_choice(d: DescriptorView, parameter: Seq<char>, choice: Seq<char>) -> bool {
    exists|k: int|
        0 <= k < d.structural_choices.len() && #[trigger] d.structural_choices[k] == (ChoiceView {
            parameter_id: parameter,
            choice_id: choice,
        })
}

/// The configuration replacing one structural choice of `source` yields, if
/// the installed source capability offers the choice and the configuration
/// sets that parameter.
pub open spec fn structural_choice_outcome(
    registry: Seq<DescriptorView>,
    source: ConfigView,
    parameter: Seq<char>,
    choice: Seq<char>,
) -> Option<ConfigView> {
    match descriptor_index(registry, source.capability_id) {
        None => None,
        Some(i) => if offers_choice(registry[i], parameter, choice) {
            config_with_choice(source, parameter, choice)
        } else {
            None
        },
    }
}

/// Replaces one structural choice of `source`. An uninstalled source
/// capability is unknown; a choice it does not offer, or a parameter the
/// configuration does not set, makes the configuration invalid.
pub fn replace_structural_choice(
    registry: &CapabilityRegistry,
    source: &InstrumentConfig,
    parameter_id: &ParameterId,
    choice_id: &String,
) -> (r: Result<InstrumentConfig, CapabilityError>)
    ensures
        descriptor_index(registry@, source@.capability_id) is None <==> r matches Err(
            CapabilityError::UnknownCapability(_),
        ),
        match r {
            Ok(c) => structural_choice_outcome(registry@, source@, parameter_id@, choice_id@) == Some(c@),
            Err(CapabilityError::UnknownCapability(x)) => x@ == source@.capability_id,
            Err(CapabilityError::InvalidConfig(x)) => x@ == source@.capability_id && structural_choice_outcome(
                registry@,
                source@,
                parameter_id@,
                choice_id@,
            ) is None,
            Err(CapabilityError::DuplicateCapability(_)) => false,
        },
{
    let d = match registry.descriptor(source.capability_id()) {
        Some(d) => d,
        None => {
            return Err(CapabilityError::UnknownCapability(source.capability_id().duplicate()));
        },
    };
    let offered = d.structural_choices();
    let ghost ov = d@.structural_choices;
    let mut found = false;
    let mut k: usize = 0;
    while k < offered.len()
        invariant_except_break
            !found,
        invariant
            ov == crate::patch::choice_views(offered@),
            ov == d@.structural_choices,
            k <= offered@.len(),
            forall|j: int| 0 <= j < k ==> #[trigger] ov[j] != (ChoiceView { parameter_id: parameter_id@, choice_id: choice_id@ }),
        ensures
            found <==> offers_choice(d@, parameter_id@, choice_id@),
        decreases offered.len() - k,
    {
        let entry = &offered[k];
        if entry.parameter_id.same_as(parameter_id) && crate::domain::text_equal(&entry.choice_id, choice_id) {
            proof {
                assert(ov[k as int] == (ChoiceView { parameter_id: parameter_id@, choice_id: choice_id@ }));
            }
            found = true;
            break;
        }
        k = k + 1;
    }
    if !found {
        return Err(CapabilityError::InvalidConfig(source.capability_id().duplicate()));
    }
    match source.with_choice(parameter_id, choice_id) {
        Some(c) => Ok(c),
        None => Err(CapabilityError::InvalidConfig(source.capability_id().duplicate())),
    }
}

/// What the control loop does with one requested structural effect.
#[derive(Debug, PartialEq)]
pub enum StructuralRequestPlan {
    /// The source revision has no successor, so nothing can be prepared.
    RevisionExhausted,
    /// The request is answered at once with this correlated failure.
    Fail { event: AppEvent },
    /// The occupancy change is prepared toward the successor revision.
    PrepareOccupancy { target_graph_revision: GraphRevision },
    /// The instrument replacement is prepared with this candidate.
    PrepareReplacement { target_graph_revision: GraphRevision, candidate_config: InstrumentConfig },
}

/// A planned step before its target revision is attached.
pub enum PlannedStep {
    Fail(EngineSelectionFailure),
    Occupancy,
    Replacement(ConfigView),
}

/// The step one request takes: without a worker it fails at once; an
/// occupancy change needs no candidate; an engine replacement starts from
/// the target's default configuration; a structural choice is applied to the
/// requesting Patch's current configuration.
pub open spec fn planned_step(
    c: CorrelationView,
    patches: Seq<PatchView>,
    registry: Seq<DescriptorView>,
    worker_available: bool,
) -> PlannedStep {
    if !worker_available {
        PlannedStep::Fail(EngineSelectionFailure::WorkerUnavailable)
    } else if intent_is_occupancy(c.intent) {
        PlannedStep::Occupancy
    } else {
        match c.intent {
            IntentView::ReplaceParameterChoice { parameter_id, choice_id, .. } => match patch_index_of(
                patches,
                c.patch_id->0,
            ) {
                None => PlannedStep::Fail(EngineSelectionFailure::UnknownCapability),
                Some(i) => {
                    let source = patches[i].instrument_config;
                    if descriptor_index(registry, source.capability_id) is None {
                        PlannedStep::Fail(EngineSelectionFailure::UnknownCapability)
                    } else {
                        match structural_choice_outcome(registry, source, parameter_id, choice_id) {
                            Some(k) => PlannedStep::Replacement(k),
                            None => PlannedStep::Fail(EngineSelectionFailure::PresetUnavailable),
                        }
                    }
                },
            },
            _ => match descriptor_index(registry, c.target_capability_id->0) {
                Some(i) => PlannedStep::Replacement(registry[i].default_config),
                None => PlannedStep::Fail(EngineSelectionFailure::UnknownCapability),
            },
        }
    }
}

/// Whether `r` is the plan for the request of `effect`: every prepared or
/// failed step targets the successor of the source revision.
pub open spec fn plan_fits(
    r: StructuralRequestPlan,
    effect: EffectView,
    patches: Seq<PatchView>,
    registry: Seq<DescriptorView>,
    worker_available: bool,
) -> bool {
    let source = effect.correlation.source_graph_revision;
    if source == u64::MAX {
        r is RevisionExhausted
    } else {
        let t = (source + 1) as u64;
        match planned_step(effect.correlation, patches, registry, worker_available) {
            PlannedStep::Fail(f) => r matches StructuralRequestPlan::Fail { event } && failure_event_fits(
                event,
                effect.correlation,
                t,
                f,
            ),
            PlannedStep::Occupancy => r matches StructuralRequestPlan::PrepareOccupancy {
                target_graph_revision,
            } && target_graph_revision@ == t,
            PlannedStep::Replacement(k) => r matches StructuralRequestPlan::PrepareReplacement {
                target_graph_revision,
                candidate_config,
            } && target_graph_revision@ == t && candidate_config@ == k,
        }
    }
}

/// Decides how one requested structural effect is prepared: the graph
/// request itself is built and submitted by the caller. Every instrument
/// request carries its Patch and capability pair (an invariant of its
/// correlation), which a failure answer names.
pub fn plan_structural_request(
    effect: &EngineSelectionEffect,
    patches: &Vec<Patch>,
    registry: &CapabilityRegistry,
    worker_available: bool,
) -> (r: StructuralRequestPlan)
    ensures
        plan_fits(r, effect@, patch_views(patches@), registry@, worker_available),
{
    let target_graph_revision = match effect.source_graph_revision().checked_next() {
        Ok(t) => t,
        Err(_) => {
            return StructuralRequestPlan::RevisionExhausted;
        },
    };
    if !worker_available {
        let event = structural_preparation_failed_event(
            effect,
            target_graph_revision,
            EngineSelectionFailure::WorkerUnavailable,
        );
        return StructuralRequestPlan::Fail { event };
    }
    if effect.intent().is_occupancy() {
        return StructuralRequestPlan::PrepareOccupancy { target_graph_revision };
    }
    let candidate = match effect.intent() {
        StructuralEditIntent::ReplaceParameterChoice { parameter_id, choice_id, .. } => {
            let patch_id = effect.patch_id().unwrap();
            match position_of_patch(patches, patch_id) {
                None => Err(
                    CapabilityError::UnknownCapability(effect.source_capability_id().unwrap().duplicate()),
                ),
                Some(i) => replace_structural_choice(
                    registry,
                    patches[i].instrument_config(),
                    parameter_id,
                    choice_id,
                ),
            }
        },
        _ => registry.create(effect.target_capability_id().unwrap()),
    };
    match candidate {
        Ok(candidate_config) => StructuralRequestPlan::PrepareReplacement {
            target_graph_revision,
            candidate_config,
        },
        Err(error) => {
            let failure = map_structural_capability_failure(effect.intent(), &error);
            let event = structural_preparation_failed_event(effect, target_graph_revision, failure);
            StructuralRequestPlan::Fail { event }
        },
    }
}

/// What a graph-preparation worker reports for one correlated request.
#[derive(Debug, PartialEq)]
pub enum PreparationReport {
    Failed { failure: EngineSelectionFailure },
    Prepared {
        candidate_config: Option<InstrumentConfig>,
        prepared_visualization: Option<PreparedSampleVisualization>,
    },
}

/// Whether `r` answers the worker `report` on request `c` toward `target`:
/// occupancy requests answer with topology events; instrument requests with
/// engine events naming their Patch and capability pair, and a prepared one
/// needs its candidate.
pub open spec fn report_event_fits(
    r: Result<AppEvent, EngineSelectionStatusError>,
    c: CorrelationView,
    target: u64,
    report: PreparationReport,
) -> bool {
    if intent_is_occupancy(c.intent) {
        match report {
            PreparationReport::Failed { failure } => r matches Ok(e) && failure_event_fits(e, c, target, failure),
            PreparationReport::Prepared { .. } => r matches Ok(
                AppEvent::TopologyPrepared { request_id, intent, source_graph_revision, target_graph_revision: t },
            ) && request_id@ == c.request_id && intent@ == c.intent && source_graph_revision@
                == c.source_graph_revision && t@ == target,
        }
    } else {
        match report {
            PreparationReport::Failed { failure } => r matches Ok(e) && failure_event_fits(e, c, target, failure),
            PreparationReport::Prepared { candidate_config: None, .. } => r == Err::<
                AppEvent,
                EngineSelectionStatusError,
            >(EngineSelectionStatusError::MissingCorrelation),
            PreparationReport::Prepared { candidate_config: Some(k), prepared_visualization: v } => r matches Ok(
                AppEvent::EnginePrepared {
                    request_id,
                    patch_id,
                    intent,
                    source_capability_id,
                    target_capability_id,
                    source_graph_revision,
                    target_graph_revision: t,
                    candidate_config,
                    prepared_visualization,
                },
            ) && request_id@ == c.request_id && Some(patch_id) == c.patch_id && intent@ == c.intent && Some(
                source_capability_id@,
            ) == c.source_capability_id && Some(target_capability_id@) == c.target_capability_id
                && source_graph_revision@ == c.source_graph_revision && t@ == target && candidate_config@ == k@
                && prepared_visualization == v,
        }
    }
}

/// Turns one worker report into the correlated event the reducer answers.
pub fn preparation_report_event(
    correlation: &EngineSelectionCorrelation,
    target_graph_revision: GraphRevision,
    report: PreparationReport,
) -> (r: Result<AppEvent, EngineSelectionStatusError>)
    ensures
        report_event_fits(r, correlation@, target_graph_revision@, report),
{
    let request_id = correlation.request_id();
    let intent = correlation.intent().duplicate();
    let source_graph_revision = correlation.source_graph_revision();
    if correlation.intent().is_occupancy() {
        return match report {
            PreparationReport::Failed { failure } => Ok(
                AppEvent::TopologyPreparationFailed {
                    request_id,
                    intent,
                    source_graph_revision,
                    target_graph_revision,
                    failure,
                },
            ),
            PreparationReport::Prepared { .. } => Ok(
                AppEvent::TopologyPrepared { request_id, intent, source_graph_revision, target_graph_revision },
            ),
        };
    }
    let patch_id = correlation.patch_id().unwrap();
    let source_capability_id = correlation.source_capability_id().unwrap().duplicate();
    let target_capability_id = correlation.target_capability_id().unwrap().duplicate();
    match report {
        PreparationReport::Failed { failure } => Ok(
            AppEvent::EnginePreparationFailed {
                request_id,
                patch_id,
                intent,
                source_capability_id,
                target_capability_id,
                source_graph_revision,
                target_graph_revision,
                failure,
            },
        ),
        PreparationReport::Prepared { candidate_config, prepared_visualization } => match candidate_config {
            None => Err(EngineSelectionStatusError::MissingCorrelation),
            Some(candidate_config) => Ok(
                AppEvent::EnginePrepared {
                    request_id,
                    patch_id,
                    intent,
                    source_capability_id,
                    target_capability_id,
                    source_graph_revision,
                    target_graph_revision,
                    candidate_config,
                    prepared_visualization,
                },
            ),
        },
    }
}

/// Whether `r` acknowledges the activation of `completed` for the lifecycle
/// `s`: only the revision its request targets can complete it.
pub open spec fn acknowledgement_fits(
    r: Result<AppEvent, EngineSelectionStatusError>,
    s: StatusView,
    completed: u64,
) -> bool {
    match s.correlation {
        None => r == Err::<AppEvent, EngineSelectionStatusError>(EngineSelectionStatusError::MissingCorrelation),
        Some(c) => if c.target_graph_revision != Some(completed) {
            r == Err::<AppEvent, EngineSelectionStatusError>(EngineSelectionStatusError::InvalidTransition)
        } else {
            r matches Ok(
                AppEvent::EngineActivationAcknowledged {
                    request_id,
                    intent,
                    target_graph_revision,
                    retired_graph_revision,
                    collected,
                },
            ) && request_id@ == c.request_id && intent@ == c.intent && target_graph_revision@ == completed
                && retired_graph_revision@ == c.source_graph_revision && collected
        },
    }
}

/// The acknowledgement the loop sends once the graph of revision `completed`
/// is active, the source retired and collected.
pub fn activation_acknowledgement_event(status: &EngineSelectionStatus, completed: GraphRevision) -> (r: Result<
    AppEvent,
    EngineSelectionStatusError,
>)
    ensures
        acknowledgement_fits(r, status@, completed@),
{
    let correlation = match status.correlation() {
        Some(c) => c,
        None => {
            return Err(EngineSelectionStatusError::MissingCorrelation);
        },
    };
    let matches_target = match correlation.target_graph_revision() {
        Some(t) => t.value() == completed.value(),
        None => false,
    };
    if !matches_target {
        return Err(EngineSelectionStatusError::InvalidTransition);
    }
    Ok(
        AppEvent::EngineActivationAcknowledged {
            request_id: correlation.request_id(),
            intent: correlation.intent().duplicate(),
            target_graph_revision: completed,
            retired_graph_revision: correlation.source_graph_revision(),
            collected: true,
        },
    )
}

/// A failure answer to the request that is preparing, as the loop plans it
/// or a worker reports it, is accepted: the lifecycle records the failure on
/// the same request and no Patch changes.
pub proof fn lemma_failure_answer_is_accepted(
    s: StateView,
    e: AppEvent,
    target: u64,
    failure: EngineSelectionFailure,
)
    requires
        s.generation < u64::MAX,
        s.engine_selection.kind == crate::engine_selection::EngineSelectionStatusKind::Preparing,
        s.engine_selection.correlation is Some,
        target > s.engine_selection.correlation->0.source_graph_revision,
        failure_event_fits(e, s.engine_selection.correlation->0, target, failure),
    ensures
        applied(s, e) is Ok,
        applied(s, e)->Ok_0.0.patches == s.patches,
        applied(s, e)->Ok_0.0.engine_selection == failed_status(s.engine_selection, failure),
        applied(s, e)->Ok_0.1 is None,
        applied(s, e)->Ok_0.2 is None,
{
}

/// Why a graph-preparation request could not be built from canonical state.
#[derive(Clone, Copy, Debug, PartialEq, Eq, Structural)]
pub enum GraphPreparationRequestError {
    SourceCapabilityMismatch,
    TargetCapabilityMismatch,
    InvalidActiveConfig,
    InvalidActiveEffectConfig,
    InvalidCandidateConfig,
    InvalidOccupancy,
    UnknownEffectEntry,
    MissingRequestIdentity,
    CapabilityUnchanged,
    IntentMismatch,
    ConfigDeltaMismatch,
    TargetRevisionNotNewer,
    PatchCapacityExceeded,
    DuplicatePatchId,
    UnknownPatch,
}

/// The visible failure for a request that could not be built: capability
/// disagreements are provider mismatches, invalid configurations invalid
/// defaults, an unknown effect an unknown capability, and every shape
/// disagreement an incompatible graph.
pub open spec fn request_failure(error: GraphPreparationRequestError) -> EngineSelectionFailure {
    match error {
        GraphPreparationRequestError::SourceCapabilityMismatch
        | GraphPreparationRequestError::TargetCapabilityMismatch => EngineSelectionFailure::ProviderMismatch,
        GraphPreparationRequestError::InvalidActiveConfig | GraphPreparationRequestError::InvalidActiveEffectConfig
        | GraphPreparationRequestError::InvalidCandidateConfig
        | GraphPreparationRequestError::InvalidOccupancy => EngineSelectionFailure::InvalidDefaultConfig,
        GraphPreparationRequestError::UnknownEffectEntry => EngineSelectionFailure::UnknownCapability,
        _ => EngineSelectionFailure::GraphIncompatible,
    }
}

/// Maps a request that could not be built onto its visible failure.
pub fn map_request_failure(error: GraphPreparationRequestError) -> (r: EngineSelectionFailure)
    ensures
        r == request_failure(error),
{
    match error {
        GraphPreparationRequestError::SourceCapabilityMismatch
        | GraphPreparationRequestError::TargetCapabilityMismatch => EngineSelectionFailure::ProviderMismatch,
        GraphPreparationRequestError::InvalidActiveConfig | GraphPreparationRequestError::InvalidActiveEffectConfig
        | GraphPreparationRequestError::InvalidCandidateConfig
        | GraphPreparationRequestError::InvalidOccupancy => EngineSelectionFailure::InvalidDefaultConfig,
        GraphPreparationRequestError::UnknownEffectEntry => EngineSelectionFailure::UnknownCapability,
        GraphPreparationRequestError::MissingRequestIdentity | GraphPreparationRequestError::CapabilityUnchanged
        | GraphPreparationRequestError::IntentMismatch | GraphPreparationRequestError::ConfigDeltaMismatch
        | GraphPreparationRequestError::TargetRevisionNotNewer
        | GraphPreparationRequestError::PatchCapacityExceeded | GraphPreparationRequestError::DuplicatePatchId
        | GraphPreparationRequestError::UnknownPatch => EngineSelectionFailure::GraphIncompatible,
    }
}

/// The events that would touch audio or the structural lifecycle: while a
/// whole-session replacement is pending, the loop holds them back.
pub open spec fn touches_structure(e: AppEvent) -> bool {
    match e {
        AppEvent::Midi { .. } | AppEvent::Adjust(_) | AppEvent::Activate | AppEvent::SetSlotOccupancy { .. }
        | AppEvent::SetReturnOccupancy { .. } | AppEvent::EngineSelectionLifecycleAdvanced { .. }
        | AppEvent::EnginePrepared { .. } | AppEvent::EnginePreparationFailed { .. }
        | AppEvent::TopologyPrepared { .. } | AppEvent::TopologyPreparationFailed { .. } => true,
        _ => false,
    }
}

/// Whether the loop hands `event` to the reducer: during a pending
/// whole-session replacement, events that touch audio or the structural
/// lifecycle are refused as busy before they reach canonical state.
pub fn dispatch_admission(event: &AppEvent, session_replacement_pending: bool) -> (r: Result<(), EventRejection>)
    ensures
        r is Err <==> session_replacement_pending && touches_structure(*event),
        r matches Err(e) ==> e == EventRejection::StructuralEditBusy,
{
    let touches = match event {
        AppEvent::Midi { .. } | AppEvent::Adjust(_) | AppEvent::Activate | AppEvent::SetSlotOccupancy { .. }
        | AppEvent::SetReturnOccupancy { .. } | AppEvent::EngineSelectionLifecycleAdvanced { .. }
        | AppEvent::EnginePrepared { .. } | AppEvent::EnginePreparationFailed { .. }
        | AppEvent::TopologyPrepared { .. } | AppEvent::TopologyPreparationFailed { .. } => true,
        _ => false,
    };
    if session_replacement_pending && touches {
        Err(EventRejection::StructuralEditBusy)
    } else {
        Ok(())
    }
}

/// The candidate the loop plans for an engine swap, once the worker reports
/// its graph prepared, is accepted as the request's candidate: the lifecycle
/// activates toward the reported revision, the candidate waits as pending,
/// and no Patch changes before the activation is acknowledged.
pub proof fn lemma_planned_swap_is_accepted(
    s: StateView,
    target: u64,
    candidate: ConfigView,
    report: PreparationReport,
    e: AppEvent,
)
    requires
        state_wf(s),
        s.generation < u64::MAX,
        s.engine_selection.kind == crate::engine_selection::EngineSelectionStatusKind::Preparing,
        s.engine_selection.correlation is Some,
        s.engine_selection.correlation->0.intent is ReplaceCapability,
        planned_step(s.engine_selection.correlation->0, s.patches, s.capabilities, true)
            == PlannedStep::Replacement(candidate),
        ({
            let c = s.engine_selection.correlation->0;
            &&& patch_index_of(s.patches, c.patch_id->0) is Some
            &&& s.patches[patch_index_of(s.patches, c.patch_id->0)->0].instrument_config.capability_id
                == c.source_capability_id->0
        }),
        target > s.engine_selection.correlation->0.source_graph_revision,
        report matches PreparationReport::Prepared { candidate_config: Some(k), .. } && k@ == candidate,
        report_event_fits(Ok(e), s.engine_selection.correlation->0, target, report),
    ensures
        applied(s, e) is Ok,
        applied(s, e)->Ok_0.0.patches == s.patches,
        applied(s, e)->Ok_0.0.pending_instrument_config == Some(candidate),
        applied(s, e)->Ok_0.0.engine_selection == activating_status(s.engine_selection, target),
{
    let c = s.engine_selection.correlation->0;
    let i = descriptor_index(s.capabilities, c.target_capability_id->0)->0;
    assert(crate::registry::descriptor_coherent(s.capabilities[i]));
}

/// Some index holds `p` with no earlier index holding it.
proof fn lemma_first_parameter(c: Seq<ChoiceView>, p: Seq<char>, k: int)
    requires
        0 <= k < c.len(),
        c[k].parameter_id == p,
    ensures
        exists|i: int| 0 <= i < c.len() && c[i].parameter_id == p && forall|j: int| 0 <= j < i ==> c[j].parameter_id != p,
    decreases k,
{
    if exists|j: int| 0 <= j < k && c[j].parameter_id == p {
        let j = choose|j: int| 0 <= j < k && c[j].parameter_id == p;
        lemma_first_parameter(c, p, j);
    } else {
        assert(forall|j: int| 0 <= j < k ==> c[j].parameter_id != p);
    }
}

/// Setting a parameter the configuration holds makes it the chosen value
/// and keeps every parameter identity in place.
proof fn lemma_choice_set(c: ConfigView, parameter: Seq<char>, choice: Seq<char>)
    requires
        config_with_choice(c, parameter, choice) is Some,
    ensures
        chosen_value(crate::patch::choices_with(c.choices, parameter, choice), parameter) == Some(choice),
        parameter_ids(crate::patch::choices_with(c.choices, parameter, choice)) == parameter_ids(c.choices),
        config_with_choice(c, parameter, choice)->0.choices == crate::patch::choices_with(c.choices, parameter, choice),
{
    let n = crate::patch::choices_with(c.choices, parameter, choice);
    let k = choose|k: int| 0 <= k < c.choices.len() && #[trigger] c.choices[k].parameter_id == parameter;
    assert(n.len() == c.choices.len());
    assert(forall|i: int| 0 <= i < n.len() ==> #[trigger] n[i].parameter_id == c.choices[i].parameter_id);
    assert(forall|i: int| 0 <= i < n.len() && #[trigger] n[i].parameter_id == parameter ==> n[i].choice_id == choice);
    lemma_first_parameter(n, parameter, k);
    let i0 = choose|i: int| 0 <= i < n.len() && n[i].parameter_id == parameter && forall|j: int| 0 <= j < i ==> n[j].parameter_id != parameter;
    assert(n[i0].choice_id == choice);
    assert(parameter_ids(n) =~= parameter_ids(c.choices));
}

/// A structural-choice candidate built from a canonical configuration is
/// canonical and is exactly the change its intent permits.
proof fn lemma_choice_candidate_fits(
    registry: Seq<DescriptorView>,
    current: ConfigView,
    p: Seq<char>,
    ch: Seq<char>,
    intent: IntentView,
)
    requires
        intent == (IntentView::ReplaceParameterChoice {
            capability_id: current.capability_id,
            parameter_id: p,
            choice_id: ch,
        }),
        config_with_choice(current, p, ch) is Some,
        chosen_value(current.choices, p) != Some(ch),
        config_valid(registry, current),
    ensures
        crate::transitions::candidate_fits_intent(current, config_with_choice(current, p, ch)->0, intent),
        config_valid(registry, config_with_choice(current, p, ch)->0),
{
    lemma_choice_set(current, p, ch);
    let n = crate::patch::choices_with(current.choices, p, ch);
    assert forall|k: int| 0 <= k < n.len() implies (#[trigger] n[k]).parameter_id == current.choices[k].parameter_id
        && (n[k].parameter_id == p || n[k] == current.choices[k]) by {}
}

/// A prepared report whose candidate is canonical and is exactly the change
/// its intent permits on the requesting Patch is accepted.
proof fn lemma_prepared_candidate_accepted(
    s: StateView,
    target: u64,
    candidate: ConfigView,
    report: PreparationReport,
    e: AppEvent,
)
    requires
        s.generation < u64::MAX,
        s.engine_selection.kind == crate::engine_selection::EngineSelectionStatusKind::Preparing,
        s.engine_selection.correlation is Some,
        !intent_is_occupancy(s.engine_selection.correlation->0.intent),
        instrument_context_present(s.engine_selection.correlation->0),
        ({
            let c = s.engine_selection.correlation->0;
            let current = s.patches[patch_index_of(s.patches, c.patch_id->0)->0].instrument_config;
            &&& patch_index_of(s.patches, c.patch_id->0) is Some
            &&& current.capability_id == c.source_capability_id->0
            &&& candidate.capability_id == c.target_capability_id->0
            &&& config_valid(s.capabilities, candidate)
            &&& crate::transitions::candidate_fits_intent(current, candidate, c.intent)
        }),
        target > s.engine_selection.correlation->0.source_graph_revision,
        report matches PreparationReport::Prepared { candidate_config: Some(k), .. } && k@ == candidate,
        report_event_fits(Ok(e), s.engine_selection.correlation->0, target, report),
    ensures
        applied(s, e) is Ok,
        applied(s, e)->Ok_0.0.patches == s.patches,
        applied(s, e)->Ok_0.0.pending_instrument_config == Some(candidate),
        applied(s, e)->Ok_0.0.engine_selection == activating_status(s.engine_selection, target),
{
}

/// The candidate the loop plans for a structural choice, once the worker
/// reports its graph prepared, is accepted as the request's candidate,
/// provided the Patch still runs the source engine with a canonical
/// configuration that does not already hold that choice.
pub proof fn lemma_planned_choice_is_accepted(
    s: StateView,
    target: u64,
    candidate: ConfigView,
    report: PreparationReport,
    e: AppEvent,
)
    requires
        state_wf(s),
        s.generation < u64::MAX,
        s.engine_selection.kind == crate::engine_selection::EngineSelectionStatusKind::Preparing,
        s.engine_selection.correlation is Some,
        s.engine_selection.correlation->0.intent is ReplaceParameterChoice,
        planned_step(s.engine_selection.correlation->0, s.patches, s.capabilities, true)
            == PlannedStep::Replacement(candidate),
        ({
            let c = s.engine_selection.correlation->0;
            let current = s.patches[patch_index_of(s.patches, c.patch_id->0)->0].instrument_config;
            &&& patch_index_of(s.patches, c.patch_id->0) is Some
            &&& current.capability_id == c.source_capability_id->0
            &&& config_valid(s.capabilities, current)
            &&& chosen_value(current.choices, c.intent->ReplaceParameterChoice_parameter_id) != Some(
                c.intent->ReplaceParameterChoice_choice_id,
            )
        }),
        target > s.engine_selection.correlation->0.source_graph_revision,
        report matches PreparationReport::Prepared { candidate_config: Some(k), .. } && k@ == candidate,
        report_event_fits(Ok(e), s.engine_selection.correlation->0, target, report),
    ensures
        applied(s, e) is Ok,
        applied(s, e)->Ok_0.0.patches == s.patches,
        applied(s, e)->Ok_0.0.pending_instrument_config == Some(candidate),
        applied(s, e)->Ok_0.0.engine_selection == activating_status(s.engine_selection, target),
{
    let c = s.engine_selection.correlation->0;
    let current = s.patches[patch_index_of(s.patches, c.patch_id->0)->0].instrument_config;
    let p = c.intent->ReplaceParameterChoice_parameter_id;
    let ch = c.intent->ReplaceParameterChoice_choice_id;
    assert(c.intent == (IntentView::ReplaceParameterChoice {
        capability_id: current.capability_id,
        parameter_id: p,
        choice_id: ch,
    }));
    assert(c.target_capability_id == c.source_capability_id);
    assert(config_with_choice(current, p, ch) == Some(candidate)) by {
        assert(structural_choice_outcome(s.capabilities, current, p, ch) == Some(candidate));
    }
    lemma_choice_candidate_fits(s.capabilities, current, p, ch, c.intent);
    lemma_prepared_candidate_accepted(s, target, candidate, report, e);
}


/// Every plan targets the successor of the request's source revision. With
/// no worker the request fails at once as worker-unavailable; an occupancy
/// change is prepared with no candidate; an engine replacement toward an
/// installed engine is prepared with that engine's default configuration;
/// a source revision without successor cannot be planned.
pub proof fn lemma_plan_prepares_the_requested_change(
    r: StructuralRequestPlan,
    effect: EffectView,
    patches: Seq<PatchView>,
    registry: Seq<DescriptorView>,
    worker_available: bool,
)
    requires
        plan_fits(r, effect, patches, registry, worker_available),
        instrument_context_present(effect.correlation),
    ensures
        ({
            let c = effect.correlation;
            let source = c.source_graph_revision;
            &&& source == u64::MAX ==> r is RevisionExhausted
            &&& source < u64::MAX && !worker_available ==> (r matches StructuralRequestPlan::Fail { event } && (match event {
                AppEvent::EnginePreparationFailed { failure, target_graph_revision, .. } => failure
                    == EngineSelectionFailure::WorkerUnavailable && target_graph_revision@ == source + 1,
                AppEvent::TopologyPreparationFailed { failure, target_graph_revision, .. } => failure
                    == EngineSelectionFailure::WorkerUnavailable && target_graph_revision@ == source + 1,
                _ => false,
            }))
            &&& source < u64::MAX && worker_available && intent_is_occupancy(c.intent) ==> (r matches StructuralRequestPlan::PrepareOccupancy {
                target_graph_revision,
            } && target_graph_revision@ == source + 1)
            &&& source < u64::MAX && worker_available && c.intent is ReplaceCapability && descriptor_index(
                registry,
                c.target_capability_id->0,
            ) is Some ==> (r matches StructuralRequestPlan::PrepareReplacement {
                target_graph_revision,
                candidate_config,
            } && target_graph_revision@ == source + 1 && candidate_config@ == registry[descriptor_index(
                registry,
                c.target_capability_id->0,
            )->0].default_config)
        }),
{
}

} // verus!
