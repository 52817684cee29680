use synth_control::app_event::AppEvent;
use synth_control::app_state::AppState;
use synth_control::domain::{CapabilityId, EffectCapabilityId, EffectSlotIndex, MidiChannel, MixerTrackId, ParameterId, PatchId};
use synth_control::engine_selection::{EngineSelectionEffectKind, EngineSelectionStatusKind, StructuralEditIntent};
use synth_control::focus::{ChoiceSession, ChoiceSubject, FocusPath};
use synth_control::interaction::{Direction, InteractionMode, SurfaceId, TopLevelContext};
use synth_control::patch::{ChoiceValue, InstrumentConfig, Patch, PatchOutput, VoicePolicy};
use synth_control::registry::{CapabilityDescriptor, CapabilityRegistry, EffectCapabilityRegistry};
use synth_control::rejection::EventRejection;

fn config(capability: &str, parameter: &str, choice: &str) -> InstrumentConfig {
    InstrumentConfig::from_parts(
        CapabilityId::new(capability).unwrap(),
        vec![ChoiceValue { parameter_id: ParameterId::new(parameter).unwrap(), choice_id: choice.to_owned() }],
    )
}

fn soundfont() -> InstrumentConfig {
    config("instrument.hidef-soundfont", "soundfont.preset", "0:0")
}

fn braids() -> InstrumentConfig {
    config("instrument.braids", "braids.shape", "csaw")
}

/// PATCH on a soundfont Patch, with a soundfont and a Braids engine and one
/// installed effect.
fn patch_state() -> AppState {
    let registry = CapabilityRegistry::new(vec![
        CapabilityDescriptor::new(VoicePolicy::FixedPerPatch { voices: 32 }, soundfont(), Vec::new()),
        CapabilityDescriptor::new(VoicePolicy::FixedPerPatch { voices: 8 }, braids(), Vec::new()),
    ])
    .unwrap();
    let effects = EffectCapabilityRegistry::new(vec![EffectCapabilityId::new("effect.chorus").unwrap()]);
    let mut state = AppState::new_with_effects(registry, effects);
    let patch = Patch::new(
        PatchId::new(1).unwrap(),
        "Patch 1".to_owned(),
        soundfont(),
        MidiChannel::new(0).unwrap(),
        PatchOutput::to_track(MixerTrackId::new(0).unwrap()),
    );
    state.apply(AppEvent::InstallPatches(vec![patch])).unwrap();
    state.apply(AppEvent::SelectContext(TopLevelContext::Patch)).unwrap();
    state
}

fn session(state: &AppState) -> Option<ChoiceSession> {
    state.interaction().choice()
}

#[test]
fn adjust_up_opens_the_engine_choice_on_the_current_engine() {
    let mut state = patch_state();
    state.apply(AppEvent::Adjust(Direction::Up)).unwrap();
    assert_eq!(state.interaction().active_surface(), SurfaceId::PatchChoice);
    assert_eq!(state.interaction().mode(), InteractionMode::Modal);
    assert_eq!(session(&state), Some(ChoiceSession { subject: ChoiceSubject::Engine, option: 0 }));
    assert_eq!(
        state.interaction().focus_path(),
        FocusPath::Choice { patch_id: PatchId::new(1).unwrap(), subject: ChoiceSubject::Engine, option: 0 }
    );
    assert_eq!(
        state.apply(AppEvent::SetInteractionMode(InteractionMode::Adjust)),
        Err(EventRejection::ActionUnavailableInContext)
    );
    assert_eq!(state.apply(AppEvent::Adjust(Direction::Up)), Err(EventRejection::ActionUnavailableInContext));
    assert_eq!(state.apply(AppEvent::Navigate(Direction::Up)), Err(EventRejection::ActionUnavailableInContext));

    state.apply(AppEvent::Activate).unwrap();
    assert_eq!(session(&state), None);
    assert_eq!(state.interaction().active_surface(), SurfaceId::PatchMain);
    assert_eq!(state.interaction().mode(), InteractionMode::Navigate);
    assert_eq!(state.engine_selection().kind(), EngineSelectionStatusKind::Ready);
}

#[test]
fn activating_another_engine_requests_it_and_returns_to_the_origin() {
    let mut state = patch_state();
    state.apply(AppEvent::Adjust(Direction::Up)).unwrap();
    state.apply(AppEvent::Navigate(Direction::Down)).unwrap();
    assert_eq!(session(&state), Some(ChoiceSession { subject: ChoiceSubject::Engine, option: 1 }));
    assert_eq!(state.apply(AppEvent::Navigate(Direction::Down)), Err(EventRejection::ActionUnavailableInContext));

    let outcome = state.apply(AppEvent::Activate).unwrap();
    let effect = outcome.engine_selection_effect().unwrap();
    assert_eq!(effect.kind(), EngineSelectionEffectKind::PrepareRequested);
    assert_eq!(
        effect.intent(),
        &StructuralEditIntent::ReplaceCapability { target_capability_id: CapabilityId::new("instrument.braids").unwrap() }
    );
    assert_eq!(session(&state), None);
    assert_eq!(state.engine_selection().kind(), EngineSelectionStatusKind::Preparing);
    assert_eq!(state.patches()[0].instrument_config(), &soundfont());

    state.apply(AppEvent::Adjust(Direction::Up)).unwrap();
    state.apply(AppEvent::Navigate(Direction::Down)).unwrap();
    let before = state.clone();
    assert_eq!(state.apply(AppEvent::Activate), Err(EventRejection::StructuralEditBusy));
    assert_eq!(state, before);
}

#[test]
fn an_effect_slot_choice_offers_the_empty_occupant_first() {
    let mut state = patch_state();
    state.apply(AppEvent::Navigate(Direction::Down)).unwrap();
    state.apply(AppEvent::Adjust(Direction::Up)).unwrap();
    let slot = EffectSlotIndex::new(0).unwrap();
    assert_eq!(session(&state), Some(ChoiceSession { subject: ChoiceSubject::EffectSlot(slot), option: 0 }));
    state.apply(AppEvent::Navigate(Direction::Down)).unwrap();
    let outcome = state.apply(AppEvent::Activate).unwrap();
    let effect = outcome.engine_selection_effect().unwrap();
    assert_eq!(
        effect.intent(),
        &StructuralEditIntent::SetSlotOccupancy {
            patch_id: PatchId::new(1).unwrap(),
            slot,
            entry: Some(EffectCapabilityId::new("effect.chorus").unwrap()),
        }
    );
    assert_eq!(state.interaction().active_surface(), SurfaceId::PatchMain);
}

#[test]
fn an_output_track_choice_sets_the_track_and_return_cancels() {
    let mut state = patch_state();
    state.apply(AppEvent::EnterSurface(SurfaceId::PatchUtility)).unwrap();
    state.apply(AppEvent::Navigate(Direction::Down)).unwrap();
    state.apply(AppEvent::Navigate(Direction::Down)).unwrap();
    state.apply(AppEvent::Adjust(Direction::Up)).unwrap();
    assert_eq!(session(&state), Some(ChoiceSession { subject: ChoiceSubject::OutputTrack, option: 0 }));
    state.apply(AppEvent::Navigate(Direction::Down)).unwrap();
    state.apply(AppEvent::Navigate(Direction::Down)).unwrap();

    let mut cancelled = state.clone();
    cancelled.apply(AppEvent::Return).unwrap();
    assert_eq!(cancelled.interaction().active_surface(), SurfaceId::PatchUtility);
    assert_eq!(cancelled.patches()[0].output(), PatchOutput::to_track(MixerTrackId::new(0).unwrap()));

    state.apply(AppEvent::Activate).unwrap();
    assert_eq!(state.patches()[0].output(), PatchOutput::to_track(MixerTrackId::new(2).unwrap()));
    assert_eq!(state.interaction().active_surface(), SurfaceId::PatchUtility);
}

#[test]
fn activate_without_an_open_choice_is_unavailable() {
    let mut state = patch_state();
    let before = state.clone();
    assert_eq!(state.apply(AppEvent::Activate), Err(EventRejection::ActionUnavailableInContext));
    assert_eq!(state, before);
}
