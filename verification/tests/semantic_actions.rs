use synth_control::app_event::AppEvent;
use synth_control::app_state::{AppState, SemanticActionAvailability};
use synth_control::rejection::EventRejection;
use synth_control::domain::{CapabilityId, MidiChannel, MixerTrackId, ParameterId, PatchId};
use synth_control::interaction::{Direction, InteractionMode, SemanticAction, TopLevelContext};
use synth_control::patch::{ChoiceValue, InstrumentConfig, Patch, PatchOutput, VoicePolicy};
use synth_control::registry::{CapabilityDescriptor, CapabilityRegistry};

fn config() -> InstrumentConfig {
    InstrumentConfig::from_parts(
        CapabilityId::new("instrument.braids").unwrap(),
        vec![ChoiceValue { parameter_id: ParameterId::new("braids.shape").unwrap(), choice_id: "csaw".to_owned() }],
    )
}

fn installed() -> AppState {
    let registry = CapabilityRegistry::new(vec![CapabilityDescriptor::new(
        VoicePolicy::FixedPerPatch { voices: 8 },
        config(),
        Vec::new(),
    )])
    .unwrap();
    let mut state = AppState::new(registry);
    let patch = Patch::new(
        PatchId::new(1).unwrap(),
        "Patch 1".to_owned(),
        config(),
        MidiChannel::new(0).unwrap(),
        PatchOutput::to_track(MixerTrackId::new(0).unwrap()),
    );
    state.apply(AppEvent::InstallPatches(vec![patch])).unwrap();
    state.apply(AppEvent::SelectContext(TopLevelContext::Patch)).unwrap();
    state
}

#[test]
fn availability_follows_the_interaction_mode_without_changing_state() {
    let state = installed();
    let generation = state.generation();
    assert!(state.accepts_semantic_action(&SemanticAction::Navigate(Direction::Down)));
    assert!(!state.accepts_semantic_action(&SemanticAction::Adjust(Direction::Right)));
    assert!(state.accepts_semantic_action(&SemanticAction::SetInteractionMode(InteractionMode::Adjust)));
    assert!(!state.accepts_semantic_action(&SemanticAction::SelectPatch(Direction::Left)));
    assert_eq!(state.generation(), generation);

    let mut adjusting = installed();
    adjusting.apply_semantic_action(SemanticAction::SetInteractionMode(InteractionMode::Adjust)).unwrap();
    assert!(!adjusting.accepts_semantic_action(&SemanticAction::Navigate(Direction::Down)));
}

#[test]
fn one_scratch_answers_a_whole_vocabulary_like_single_questions() {
    let state = installed();
    let vocabulary = vec![
        SemanticAction::Navigate(Direction::Down),
        SemanticAction::Navigate(Direction::Down),
        SemanticAction::Adjust(Direction::Right),
        SemanticAction::SelectPatch(Direction::Right),
        SemanticAction::SetInteractionMode(InteractionMode::Adjust),
        SemanticAction::Return,
    ];
    let mut availability = SemanticActionAvailability::new(&state);
    for action in &vocabulary {
        assert_eq!(availability.accepts(action), state.accepts_semantic_action(action));
    }
}

#[test]
fn recorded_voice_limits_are_restored_only_when_every_entry_fits_its_engine() {
    let mut state = installed();
    let patch = PatchId::new(1).unwrap();
    assert_eq!(state.patches()[0].voice_limit().value(), 8);
    let before = state.patches()[0].voice_limit();
    for refused in [vec![(patch, 9)], vec![(patch, 0)], vec![(PatchId::new(2).unwrap(), 4)], vec![(patch, 4), (patch, 4)], vec![]] {
        assert_eq!(state.restore_voice_limits(&refused), Err(EventRejection::InvalidInstrumentConfig));
        assert_eq!(state.patches()[0].voice_limit(), before);
    }
    assert_eq!(state.restore_voice_limits(&vec![(patch, 5)]), Ok(()));
    assert_eq!(state.patches()[0].voice_limit().value(), 5);
}
