use synth_control::app_event::AppEvent;
use synth_control::app_state::AppState;
use synth_control::dispatch::advance_structural_step;
use synth_control::domain::{
    CapabilityId, EffectCapabilityId, GraphRevision, MidiChannel, MixerTrackId, ParameterId, PatchId,
};
use synth_control::engine_selection::{
    EngineSelectionEffect, EngineSelectionEffectKind, EngineSelectionFailure, EngineSelectionRequestId,
    EngineSelectionStatus, EngineSelectionStatusError, EngineSelectionStatusKind, StructuralEditIntent,
};
use synth_control::interaction::{Direction, TopLevelContext};
use synth_control::patch::{ChoiceValue, InstrumentConfig, Patch, PatchOutput, VoicePolicy};
use synth_control::payloads::{MidiMessage, MidiMessageKind};
use synth_control::rejection::EventRejection;
use synth_control::registry::{CapabilityDescriptor, CapabilityError, CapabilityRegistry, EffectCapabilityRegistry};
use synth_control::structural_events::{
    activation_acknowledgement_event, dispatch_admission, map_request_failure, map_structural_capability_failure,
    GraphPreparationRequestError, plan_structural_request,
    preparation_report_event, replace_structural_choice, PreparationReport, StructuralRequestPlan,
};

const HIDEF: &str = "instrument.hidef-soundfont";
const BRAIDS: &str = "instrument.braids";

fn choice(parameter: &str, value: &str) -> ChoiceValue {
    ChoiceValue { parameter_id: ParameterId::new(parameter).unwrap(), choice_id: value.to_owned() }
}

fn soundfont_config(preset: &str) -> InstrumentConfig {
    InstrumentConfig::from_parts(CapabilityId::new(HIDEF).unwrap(), vec![choice("soundfont.preset", preset)])
}

fn braids_config() -> InstrumentConfig {
    InstrumentConfig::from_parts(CapabilityId::new(BRAIDS).unwrap(), vec![choice("braids.shape", "csaw")])
}

fn soundfont_descriptor() -> CapabilityDescriptor {
    CapabilityDescriptor::new(
        VoicePolicy::FixedPerPatch { voices: 32 },
        soundfont_config("0:0"),
        vec![choice("soundfont.preset", "0:1")],
    )
}

fn braids_descriptor() -> CapabilityDescriptor {
    CapabilityDescriptor::new(VoicePolicy::FixedPerPatch { voices: 8 }, braids_config(), vec![choice("braids.shape", "fm")])
}

fn mixed_registry() -> CapabilityRegistry {
    CapabilityRegistry::new(vec![soundfont_descriptor(), braids_descriptor()]).unwrap()
}

fn soundfont_only() -> CapabilityRegistry {
    CapabilityRegistry::new(vec![soundfont_descriptor()]).unwrap()
}

fn patch(id: u32, config: InstrumentConfig) -> Patch {
    Patch::new(
        PatchId::new(id).unwrap(),
        format!("Patch {id}"),
        config,
        MidiChannel::new((id - 1) as u8).unwrap(),
        PatchOutput::to_track(MixerTrackId::new((id - 1) as u8).unwrap()),
    )
}

/// PATCH context on a soundfont Patch followed by a Braids Patch.
fn mixed_state() -> AppState {
    let mut state = AppState::new(mixed_registry());
    state.apply(AppEvent::InstallPatches(vec![patch(1, soundfont_config("0:0")), patch(2, braids_config())])).unwrap();
    state.apply(AppEvent::SelectContext(TopLevelContext::Patch)).unwrap();
    state
}

/// The PrepareRequested effect of an accepted engine request.
fn requested_engine_swap(state: &mut AppState) -> EngineSelectionEffect {
    let outcome = state.apply(AppEvent::Adjust(Direction::Right)).unwrap();
    outcome.engine_selection_effect().unwrap().clone()
}

fn revision(value: u64) -> GraphRevision {
    GraphRevision::new(value).unwrap()
}

fn choice_effect(choice_id: &str) -> EngineSelectionEffect {
    let status = EngineSelectionStatus::preparing_with_intent(
        GraphRevision::initial(),
        EngineSelectionRequestId::first(),
        PatchId::new(1).unwrap(),
        StructuralEditIntent::ReplaceParameterChoice {
            capability_id: CapabilityId::new(HIDEF).unwrap(),
            parameter_id: ParameterId::new("soundfont.preset").unwrap(),
            choice_id: choice_id.to_owned(),
        },
        CapabilityId::new(HIDEF).unwrap(),
        CapabilityId::new(HIDEF).unwrap(),
    )
    .unwrap();
    EngineSelectionEffect::from_correlation(EngineSelectionEffectKind::PrepareRequested, status.correlation().unwrap())
        .unwrap()
}

#[test]
fn a_planned_engine_swap_prepares_commits_and_acknowledges_through_the_reducer() {
    let mut state = mixed_state();
    let effect = requested_engine_swap(&mut state);

    let plan = plan_structural_request(&effect, state.patches(), state.capabilities(), true);
    assert_eq!(
        plan,
        StructuralRequestPlan::PrepareReplacement { target_graph_revision: revision(2), candidate_config: braids_config() }
    );
    let StructuralRequestPlan::PrepareReplacement { target_graph_revision, candidate_config } = plan else {
        panic!("the swap is prepared");
    };

    let correlation = state.engine_selection().correlation().unwrap().clone();
    let prepared = preparation_report_event(
        &correlation,
        target_graph_revision,
        PreparationReport::Prepared { candidate_config: Some(candidate_config), prepared_visualization: None },
    )
    .unwrap();
    let outcome = state.apply(prepared).unwrap();
    assert_eq!(outcome.engine_selection_effect().unwrap().kind(), EngineSelectionEffectKind::CandidateCommitted);
    assert_eq!(state.engine_selection().kind(), EngineSelectionStatusKind::Activating);
    assert_eq!(state.patches()[0].instrument_config(), &soundfont_config("0:0"));

    let acknowledgement = activation_acknowledgement_event(state.engine_selection(), target_graph_revision).unwrap();
    state.apply(acknowledgement).unwrap();
    assert_eq!(state.patches()[0].instrument_config(), &braids_config());
    assert_eq!(state.engine_selection().kind(), EngineSelectionStatusKind::Ready);
    assert_eq!(state.engine_selection().active_graph_revision(), revision(2));
}

#[test]
fn without_a_worker_the_request_fails_at_once_and_no_patch_changes() {
    let mut state = mixed_state();
    let effect = requested_engine_swap(&mut state);
    let before = state.patches().clone();

    let StructuralRequestPlan::Fail { event } =
        plan_structural_request(&effect, state.patches(), state.capabilities(), false)
    else {
        panic!("without a worker the request fails");
    };
    assert_eq!(
        event,
        AppEvent::EnginePreparationFailed {
            request_id: EngineSelectionRequestId::first(),
            patch_id: PatchId::new(1).unwrap(),
            intent: effect.intent().clone(),
            source_capability_id: CapabilityId::new(HIDEF).unwrap(),
            target_capability_id: CapabilityId::new(BRAIDS).unwrap(),
            source_graph_revision: GraphRevision::initial(),
            target_graph_revision: revision(2),
            failure: EngineSelectionFailure::WorkerUnavailable,
        }
    );
    state.apply(event).unwrap();
    assert_eq!(state.engine_selection().kind(), EngineSelectionStatusKind::Failed);
    assert_eq!(state.engine_selection().failure(), Some(EngineSelectionFailure::WorkerUnavailable));
    assert_eq!(state.patches(), &before);
}

#[test]
fn an_uninstalled_target_is_planned_as_an_unknown_capability_failure() {
    let mut state = mixed_state();
    let effect = requested_engine_swap(&mut state);
    let StructuralRequestPlan::Fail { event } =
        plan_structural_request(&effect, state.patches(), &soundfont_only(), true)
    else {
        panic!("an uninstalled target cannot be prepared");
    };
    assert!(matches!(
        event,
        AppEvent::EnginePreparationFailed { failure: EngineSelectionFailure::UnknownCapability, .. }
    ));
}

#[test]
fn a_structural_choice_is_applied_to_the_requesting_patch_configuration() {
    let patches = vec![patch(1, soundfont_config("0:0"))];
    assert_eq!(
        plan_structural_request(&choice_effect("0:1"), &patches, &mixed_registry(), true),
        StructuralRequestPlan::PrepareReplacement {
            target_graph_revision: revision(2),
            candidate_config: soundfont_config("0:1"),
        }
    );
    let StructuralRequestPlan::Fail { event } =
        plan_structural_request(&choice_effect("0:9"), &patches, &mixed_registry(), true)
    else {
        panic!("a choice the engine does not offer cannot be prepared");
    };
    assert!(matches!(
        event,
        AppEvent::EnginePreparationFailed { failure: EngineSelectionFailure::PresetUnavailable, .. }
    ));
    let StructuralRequestPlan::Fail { event } =
        plan_structural_request(&choice_effect("0:1"), &Vec::new(), &mixed_registry(), true)
    else {
        panic!("a missing Patch has no source configuration");
    };
    assert!(matches!(
        event,
        AppEvent::EnginePreparationFailed { failure: EngineSelectionFailure::UnknownCapability, .. }
    ));
}

#[test]
fn an_occupancy_request_targets_the_successor_revision() {
    let mut state = AppState::new_with_effects(
        soundfont_only(),
        EffectCapabilityRegistry::new(vec![EffectCapabilityId::new("effect.chorus").unwrap()]),
    );
    state.apply(AppEvent::InstallPatches(vec![patch(1, soundfont_config("0:0"))])).unwrap();
    state.apply(AppEvent::SelectContext(TopLevelContext::Patch)).unwrap();
    state.apply(AppEvent::Navigate(Direction::Down)).unwrap();
    let effect = state.apply(AppEvent::Adjust(Direction::Right)).unwrap().engine_selection_effect().unwrap().clone();
    assert!(effect.intent().is_occupancy());
    assert_eq!(
        plan_structural_request(&effect, state.patches(), state.capabilities(), true),
        StructuralRequestPlan::PrepareOccupancy { target_graph_revision: revision(2) }
    );

    let correlation = state.engine_selection().correlation().unwrap().clone();
    let prepared = preparation_report_event(
        &correlation,
        revision(2),
        PreparationReport::Prepared { candidate_config: None, prepared_visualization: None },
    )
    .unwrap();
    assert_eq!(
        prepared,
        AppEvent::TopologyPrepared {
            request_id: EngineSelectionRequestId::first(),
            intent: effect.intent().clone(),
            source_graph_revision: GraphRevision::initial(),
            target_graph_revision: revision(2),
        }
    );
}

#[test]
fn a_source_revision_without_successor_cannot_be_planned() {
    let status = EngineSelectionStatus::preparing(
        revision(u64::MAX),
        EngineSelectionRequestId::first(),
        PatchId::new(1).unwrap(),
        CapabilityId::new(HIDEF).unwrap(),
        CapabilityId::new(BRAIDS).unwrap(),
    )
    .unwrap();
    let effect =
        EngineSelectionEffect::from_correlation(EngineSelectionEffectKind::PrepareRequested, status.correlation().unwrap())
            .unwrap();
    assert_eq!(
        plan_structural_request(&effect, &Vec::new(), &mixed_registry(), true),
        StructuralRequestPlan::RevisionExhausted
    );
}

#[test]
fn a_prepared_instrument_report_needs_its_candidate() {
    let mut state = mixed_state();
    requested_engine_swap(&mut state);
    let correlation = state.engine_selection().correlation().unwrap().clone();
    assert_eq!(
        preparation_report_event(
            &correlation,
            revision(2),
            PreparationReport::Prepared { candidate_config: None, prepared_visualization: None },
        ),
        Err(EngineSelectionStatusError::MissingCorrelation)
    );
    let failed = preparation_report_event(
        &correlation,
        revision(2),
        PreparationReport::Failed { failure: EngineSelectionFailure::AssetUnavailable },
    )
    .unwrap();
    let before = state.patches().clone();
    state.apply(failed).unwrap();
    assert_eq!(state.engine_selection().failure(), Some(EngineSelectionFailure::AssetUnavailable));
    assert_eq!(state.patches(), &before);
}

#[test]
fn only_the_targeted_revision_acknowledges_an_activation() {
    assert_eq!(
        activation_acknowledgement_event(&EngineSelectionStatus::ready(GraphRevision::initial()), revision(2)),
        Err(EngineSelectionStatusError::MissingCorrelation)
    );
    let activating = EngineSelectionStatus::preparing(
        GraphRevision::initial(),
        EngineSelectionRequestId::first(),
        PatchId::new(1).unwrap(),
        CapabilityId::new(HIDEF).unwrap(),
        CapabilityId::new(BRAIDS).unwrap(),
    )
    .unwrap()
    .activating(revision(2))
    .unwrap();
    assert_eq!(
        activation_acknowledgement_event(&activating, revision(3)),
        Err(EngineSelectionStatusError::InvalidTransition)
    );
    assert_eq!(
        activation_acknowledgement_event(&activating, revision(2)),
        Ok(AppEvent::EngineActivationAcknowledged {
            request_id: EngineSelectionRequestId::first(),
            intent: StructuralEditIntent::ReplaceCapability { target_capability_id: CapabilityId::new(BRAIDS).unwrap() },
            target_graph_revision: revision(2),
            retired_graph_revision: GraphRevision::initial(),
            collected: true,
        })
    );
}

#[test]
fn structural_choice_refusals_name_the_source_capability() {
    let source = soundfont_config("0:0");
    let preset = ParameterId::new("soundfont.preset").unwrap();
    assert_eq!(
        replace_structural_choice(&mixed_registry(), &source, &preset, &"0:1".to_owned()),
        Ok(soundfont_config("0:1"))
    );
    assert_eq!(
        replace_structural_choice(&mixed_registry(), &source, &preset, &"0:2".to_owned()),
        Err(CapabilityError::InvalidConfig(CapabilityId::new(HIDEF).unwrap()))
    );
    assert_eq!(
        replace_structural_choice(&CapabilityRegistry::new(vec![braids_descriptor()]).unwrap(), &source, &preset, &"0:1".to_owned()),
        Err(CapabilityError::UnknownCapability(CapabilityId::new(HIDEF).unwrap()))
    );
    let choice_intent = StructuralEditIntent::ReplaceParameterChoice {
        capability_id: CapabilityId::new(HIDEF).unwrap(),
        parameter_id: preset,
        choice_id: "0:2".to_owned(),
    };
    let swap = StructuralEditIntent::ReplaceCapability { target_capability_id: CapabilityId::new(BRAIDS).unwrap() };
    let invalid = CapabilityError::InvalidConfig(CapabilityId::new(HIDEF).unwrap());
    assert_eq!(map_structural_capability_failure(&choice_intent, &invalid), EngineSelectionFailure::PresetUnavailable);
    assert_eq!(map_structural_capability_failure(&swap, &invalid), EngineSelectionFailure::InvalidDefaultConfig);
}

#[test]
fn a_pending_session_replacement_holds_back_structural_and_audio_events() {
    let message = MidiMessage::try_new(MidiChannel::new(0).unwrap(), MidiMessageKind::NoteOn, 60, 100).unwrap();
    let midi = AppEvent::Midi { patch_id: PatchId::new(1).unwrap(), message };
    assert_eq!(dispatch_admission(&midi, true), Err(EventRejection::StructuralEditBusy));
    assert_eq!(dispatch_admission(&AppEvent::Adjust(Direction::Up), true), Err(EventRejection::StructuralEditBusy));
    assert_eq!(dispatch_admission(&midi, false), Ok(()));
    assert_eq!(dispatch_admission(&AppEvent::Navigate(Direction::Up), true), Ok(()));
    assert_eq!(dispatch_admission(&AppEvent::SelectContext(TopLevelContext::Patch), true), Ok(()));
}

#[test]
fn unbuildable_requests_map_to_their_visible_failures() {
    assert_eq!(
        map_request_failure(GraphPreparationRequestError::TargetCapabilityMismatch),
        EngineSelectionFailure::ProviderMismatch
    );
    assert_eq!(map_request_failure(GraphPreparationRequestError::InvalidOccupancy), EngineSelectionFailure::InvalidDefaultConfig);
    assert_eq!(map_request_failure(GraphPreparationRequestError::UnknownEffectEntry), EngineSelectionFailure::UnknownCapability);
    assert_eq!(map_request_failure(GraphPreparationRequestError::DuplicatePatchId), EngineSelectionFailure::GraphIncompatible);
}

#[test]
fn a_structural_advance_dispatches_the_report_then_acknowledges_the_targeted_revision() {
    let mut state = mixed_state();
    let effect = requested_engine_swap(&mut state);
    let StructuralRequestPlan::PrepareReplacement { target_graph_revision, candidate_config } =
        plan_structural_request(&effect, state.patches(), state.capabilities(), true)
    else {
        panic!("the swap is prepared");
    };
    let correlation = state.engine_selection().correlation().unwrap().clone();
    let prepared = preparation_report_event(
        &correlation,
        target_graph_revision,
        PreparationReport::Prepared { candidate_config: Some(candidate_config), prepared_visualization: None },
    )
    .unwrap();

    let mismatched = advance_structural_step(&mut state, None, Some(prepared), Some(revision(3)));
    assert_eq!(mismatched.err(), Some(EngineSelectionStatusError::InvalidTransition));
    assert_eq!(state.engine_selection().kind(), EngineSelectionStatusKind::Activating);
    assert_eq!(state.patches()[0].instrument_config(), &soundfont_config("0:0"));

    let progress = advance_structural_step(&mut state, None, None, Some(revision(2))).unwrap();
    assert!(!progress.failure_dispatched);
    assert!(!progress.report_dispatched);
    assert_eq!(progress.activation_acknowledged, Some(revision(2)));
    assert_eq!(progress.rejected_worker_event, None);
    assert_eq!(state.engine_selection().kind(), EngineSelectionStatusKind::Ready);
    assert_eq!(state.engine_selection().active_graph_revision(), revision(2));
    assert_eq!(state.patches()[0].instrument_config(), &braids_config());

    let idle = advance_structural_step(&mut state, None, None, Some(revision(2)));
    assert_eq!(idle.err(), Some(EngineSelectionStatusError::MissingCorrelation));
}

#[test]
fn a_deferred_failure_is_dispatched_before_the_report_and_a_stale_report_is_refused() {
    let mut state = mixed_state();
    let effect = requested_engine_swap(&mut state);
    let StructuralRequestPlan::Fail { event } = plan_structural_request(&effect, state.patches(), state.capabilities(), false)
    else {
        panic!("without a worker the request fails");
    };
    let correlation = state.engine_selection().correlation().unwrap().clone();
    let late_report = preparation_report_event(
        &correlation,
        revision(2),
        PreparationReport::Failed { failure: EngineSelectionFailure::GraphIncompatible },
    )
    .unwrap();

    let progress = advance_structural_step(&mut state, Some(event), Some(late_report), None).unwrap();
    assert!(progress.failure_dispatched);
    assert!(!progress.report_dispatched);
    assert_eq!(progress.activation_acknowledged, None);
    assert!(progress.rejected_worker_event.is_some());
    assert_eq!(state.engine_selection().kind(), EngineSelectionStatusKind::Failed);
    assert_eq!(state.engine_selection().failure(), Some(EngineSelectionFailure::WorkerUnavailable));
}
