use synth_control::app_event::AppEvent;
use synth_control::app_state::{AppState, FocusRepairStatus, OverviewOrigin};
use synth_control::domain::{
    BusId, CapabilityId, EffectCapabilityId, EffectSlotIndex, GraphRevision, MidiChannel, MixerTrackId, ParameterId, PatchId,
};
use synth_control::engine_selection::{EngineSelectionEffectKind, EngineSelectionStatusKind};
use synth_control::focus::FocusPath;
use synth_control::interaction::{Direction, PatchControlId, SurfaceId, TopLevelContext};
use synth_control::patch::{ChoiceValue, InstrumentConfig, Patch, PatchOutput, VoicePolicy};
use synth_control::registry::{CapabilityDescriptor, CapabilityRegistry, EffectCapabilityRegistry};
use synth_control::rejection::EventRejection;

fn config() -> InstrumentConfig {
    InstrumentConfig::from_parts(
        CapabilityId::new("instrument.braids").unwrap(),
        vec![ChoiceValue { parameter_id: ParameterId::new("braids.shape").unwrap(), choice_id: "csaw".to_owned() }],
    )
}

fn installed() -> AppState {
    let registry =
        CapabilityRegistry::new(vec![CapabilityDescriptor::new(VoicePolicy::FixedPerPatch { voices: 8 }, config(), Vec::new())])
            .unwrap();
    let mut state = AppState::new(registry);
    let patch = Patch::new(
        PatchId::new(1).unwrap(),
        "Patch 1".to_owned(),
        config(),
        MidiChannel::new(0).unwrap(),
        PatchOutput::to_track(MixerTrackId::new(0).unwrap()),
    );
    state.apply(AppEvent::InstallPatches(vec![patch])).unwrap();
    state
}

fn toggle(patch: u32, control: PatchControlId, enabled: bool) -> AppEvent {
    AppEvent::SetPatchOverviewOriginEnabled { patch_id: PatchId::new(patch).unwrap(), control, enabled }
}

fn slot(index: u8) -> PatchControlId {
    PatchControlId::EffectSlot(EffectSlotIndex::new(index).unwrap())
}

#[test]
fn an_overview_origin_toggles_only_on_an_installed_patch_origin_row() {
    let mut state = installed();
    let patch = PatchId::new(1).unwrap();
    assert!(state.patch_overview_origin_enabled(patch, &PatchControlId::Engine));

    for refused in [
        toggle(2, PatchControlId::Engine, false),
        toggle(1, PatchControlId::MidiInput, false),
        toggle(1, PatchControlId::Engine, true),
    ] {
        let generation = state.generation();
        assert_eq!(state.apply(refused), Err(EventRejection::InvalidSelection));
        assert_eq!(state.generation(), generation);
    }

    state.apply(toggle(1, PatchControlId::Engine, false)).unwrap();
    assert!(!state.patch_overview_origin_enabled(patch, &PatchControlId::Engine));
    assert!(state.patch_overview_origin_enabled(patch, &slot(0)));
    assert!(state.patch_overview_origin_enabled(patch, &PatchControlId::VoiceLimit));
    assert_eq!(state.apply(toggle(1, PatchControlId::Engine, false)), Err(EventRejection::InvalidSelection));

    state.apply(toggle(1, PatchControlId::Engine, true)).unwrap();
    assert!(state.patch_overview_origin_enabled(patch, &PatchControlId::Engine));
}

#[test]
fn the_last_enabled_origin_of_a_patch_cannot_be_disabled() {
    let mut state = installed();
    state.apply(toggle(1, PatchControlId::Engine, false)).unwrap();
    state.apply(toggle(1, slot(0), false)).unwrap();
    state.apply(toggle(1, slot(1), false)).unwrap();
    assert_eq!(state.apply(toggle(1, slot(2), false)), Err(EventRejection::InvalidSelection));
    assert!(state.patch_overview_origin_enabled(PatchId::new(1).unwrap(), &slot(2)));
    state.apply(toggle(1, slot(1), true)).unwrap();
    state.apply(toggle(1, slot(2), false)).unwrap();
    assert!(!state.patch_overview_origin_enabled(PatchId::new(1).unwrap(), &slot(2)));
}

#[test]
fn patch_selection_and_origin_toggles_publish_no_parameters() {
    assert!(!AppEvent::SelectPatch(Direction::Right).publishes_parameters_on_acceptance());
    assert!(!AppEvent::SelectContext(TopLevelContext::Patch).publishes_parameters_on_acceptance());
    assert!(!toggle(1, PatchControlId::Engine, false).publishes_parameters_on_acceptance());
    assert!(AppEvent::Adjust(Direction::Up).publishes_parameters_on_acceptance());
}

#[test]
fn a_return_occupancy_request_commits_only_after_activation() {
    let registry =
        CapabilityRegistry::new(vec![CapabilityDescriptor::new(VoicePolicy::FixedPerPatch { voices: 8 }, config(), Vec::new())])
            .unwrap();
    let chorus = EffectCapabilityId::new("effect.chorus").unwrap();
    let mut state = AppState::new_with_effects(registry, EffectCapabilityRegistry::new(vec![chorus.clone()]));
    let bus = BusId::new(2).unwrap();
    assert_eq!(state.bus_returns().len(), 8);
    assert_eq!(
        state.apply(AppEvent::SetReturnOccupancy { bus, entry: Some(EffectCapabilityId::new("effect.unknown").unwrap()) }),
        Err(EventRejection::InvalidEffectConfig)
    );
    let outcome = state.apply(AppEvent::SetReturnOccupancy { bus, entry: Some(chorus.clone()) }).unwrap();
    let effect = outcome.engine_selection_effect().unwrap().clone();
    assert_eq!(effect.kind(), EngineSelectionEffectKind::PrepareRequested);
    assert_eq!(
        state.apply(AppEvent::SetReturnOccupancy { bus, entry: None }),
        Err(EventRejection::StructuralEditBusy)
    );
    assert_eq!(state.bus_returns()[2], None);
    let target = GraphRevision::new(2).unwrap();
    state
        .apply(AppEvent::TopologyPrepared {
            request_id: effect.request_id(),
            intent: effect.intent().clone(),
            source_graph_revision: effect.source_graph_revision(),
            target_graph_revision: target,
        })
        .unwrap();
    assert_eq!(state.bus_returns()[2], None);
    state
        .apply(AppEvent::EngineActivationAcknowledged {
            request_id: effect.request_id(),
            intent: effect.intent().clone(),
            target_graph_revision: target,
            retired_graph_revision: effect.source_graph_revision(),
            collected: true,
        })
        .unwrap();
    assert_eq!(state.bus_returns()[2], Some(chorus));
    assert_eq!(state.engine_selection().kind(), EngineSelectionStatusKind::Ready);
    assert_eq!(state.engine_selection().active_graph_revision(), target);
}

fn focused_control(state: &AppState) -> PatchControlId {
    match state.interaction().focus_path() {
        FocusPath::Patch { control, .. } => control,
        _ => panic!("the PATCH main surface or Utility is active"),
    }
}

#[test]
fn patch_navigation_walks_only_enabled_origins() {
    let mut state = installed();
    state.apply(toggle(1, slot(0), false)).unwrap();
    state.apply(AppEvent::SelectContext(TopLevelContext::Patch)).unwrap();
    assert_eq!(focused_control(&state), PatchControlId::Engine);
    assert_eq!(state.focused_patch_controls().unwrap(), vec![PatchControlId::Engine, slot(1), slot(2)]);

    state.apply(AppEvent::Navigate(Direction::Down)).unwrap();
    assert_eq!(focused_control(&state), slot(1));
    state.apply(AppEvent::Navigate(Direction::Up)).unwrap();
    assert_eq!(focused_control(&state), PatchControlId::Engine);
    let generation = state.generation();
    assert_eq!(state.apply(AppEvent::Navigate(Direction::Up)), Err(EventRejection::ActionUnavailableInContext));
    assert_eq!(state.generation(), generation);
}

#[test]
fn disabling_the_focused_origin_moves_focus_to_the_next_enabled_row() {
    let mut state = installed();
    state.apply(AppEvent::SelectContext(TopLevelContext::Patch)).unwrap();
    state.apply(toggle(1, PatchControlId::Engine, false)).unwrap();
    assert_eq!(focused_control(&state), slot(0));
    assert_eq!(
        state.focus_repair_status(),
        Some(FocusRepairStatus {
            patch_id: PatchId::new(1).unwrap(),
            removed_origin: OverviewOrigin::Engine,
            replacement_origin: OverviewOrigin::EffectSlot(EffectSlotIndex::new(0).unwrap()),
        })
    );

    state.apply(AppEvent::Navigate(Direction::Down)).unwrap();
    assert_eq!(state.focus_repair_status(), None);
    state.apply(AppEvent::Navigate(Direction::Down)).unwrap();
    assert_eq!(focused_control(&state), slot(2));
    state.apply(toggle(1, slot(2), false)).unwrap();
    assert_eq!(focused_control(&state), slot(1));
    state.apply(toggle(1, slot(0), false)).unwrap();
    assert_eq!(focused_control(&state), slot(1));
    assert_eq!(state.focus_repair_status(), None);
}

#[test]
fn disabling_the_return_origin_of_the_open_utility_panel_repairs_the_return() {
    let mut state = installed();
    state.apply(AppEvent::SelectContext(TopLevelContext::Patch)).unwrap();
    state.apply(AppEvent::EnterSurface(SurfaceId::PatchUtility)).unwrap();
    state.apply(toggle(1, PatchControlId::Engine, false)).unwrap();
    assert_eq!(state.interaction().active_surface(), SurfaceId::PatchUtility);
    assert_eq!(state.interaction().return_path().unwrap().origin().patch_id(), Some(PatchId::new(1).unwrap()));
    state.apply(AppEvent::Return).unwrap();
    assert_eq!(focused_control(&state), slot(0));
}
