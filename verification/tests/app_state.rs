use synth_control::app_event::AppEvent;
use synth_control::app_state::{
    exercise_reducer_table_rejections, validate_effect_slots, AppState, AudioCommand, EffectCapabilityError,
};
use synth_control::domain::{
    CapabilityId, EffectCapabilityId, EffectSlotId, EffectSlotIndex, MidiChannel, MixerTrackId, ParameterId, PatchId,
};
use synth_control::engine_selection::{EngineSelectionEffectKind, EngineSelectionStatusKind};
use synth_control::focus::{Selection, SelectionSection};
use synth_control::interaction::{
    Direction, GlobalParameter, InteractionMode, PatchControlId, PatchOutputParameter, SurfaceId, TopLevelContext,
};
use synth_control::patch::{
    ChoiceValue, InstrumentConfig, Patch, PatchOutput, PostEffectConfig, VoiceLimit, VoiceLimitCarryOver, VoicePolicy,
};
use synth_control::payloads::{MidiMessage, MidiMessageKind};
use synth_control::registry::{CapabilityDescriptor, CapabilityRegistry, EffectCapabilityRegistry};
use synth_control::rejection::{EventRejection, EventRejectionReachability};

const HIDEF_CAPABILITY_ID: &str = "instrument.hidef-soundfont";
const BRAIDS_CAPABILITY_ID: &str = "instrument.braids";
const HIDEF_POLYPHONY_CEILING: u16 = 32;
const BRAIDS_FIXED_VOICES: u16 = 8;

fn choice(parameter: &str, value: &str) -> ChoiceValue {
    ChoiceValue { parameter_id: ParameterId::new(parameter).unwrap(), choice_id: value.to_owned() }
}

fn soundfont_config(program: u32) -> InstrumentConfig {
    InstrumentConfig::from_parts(
        CapabilityId::new(HIDEF_CAPABILITY_ID).unwrap(),
        vec![choice("soundfont.preset", &format!("0:{program}"))],
    )
}

fn braids_config() -> InstrumentConfig {
    InstrumentConfig::from_parts(CapabilityId::new(BRAIDS_CAPABILITY_ID).unwrap(), vec![choice("braids.shape", "csaw")])
}

fn soundfont_descriptor() -> CapabilityDescriptor {
    CapabilityDescriptor::new(
        VoicePolicy::FixedPerPatch { voices: HIDEF_POLYPHONY_CEILING },
        soundfont_config(0),
        vec![choice("soundfont.preset", "0:1")],
    )
}

fn braids_descriptor() -> CapabilityDescriptor {
    CapabilityDescriptor::new(
        VoicePolicy::FixedPerPatch { voices: BRAIDS_FIXED_VOICES },
        braids_config(),
        vec![choice("braids.shape", "fm")],
    )
}

fn registry() -> CapabilityRegistry {
    CapabilityRegistry::new(vec![soundfont_descriptor()]).unwrap()
}

fn mixed_registry() -> CapabilityRegistry {
    CapabilityRegistry::new(vec![soundfont_descriptor(), braids_descriptor()]).unwrap()
}

fn effect_registry() -> EffectCapabilityRegistry {
    EffectCapabilityRegistry::new(vec![EffectCapabilityId::new("effect.chorus").unwrap()])
}

fn chorus_config(slot: u16) -> PostEffectConfig {
    PostEffectConfig::from_parts(EffectSlotId::new(slot).unwrap(), EffectCapabilityId::new("effect.chorus").unwrap())
}

fn patch(id: u32, _gain_db: f32) -> Patch {
    patch_on_channel(id, _gain_db, (id - 1) as u8)
}

fn patch_on_channel(id: u32, _gain_db: f32, channel: u8) -> Patch {
    Patch::new(
        PatchId::new(id).unwrap(),
        format!("Patch {id}"),
        soundfont_config(id),
        MidiChannel::new(channel).unwrap(),
        PatchOutput::to_track(MixerTrackId::new(channel).unwrap()),
    )
}

fn installed_state() -> AppState {
    let mut state = AppState::new(registry());
    state.apply(AppEvent::InstallPatches(vec![patch(1, 0.0), patch(2, -3.0)])).unwrap();
    state
}

fn gapped_effects_state() -> AppState {
    let mut state = AppState::new_with_effects(registry(), effect_registry());
    let mut gapped = patch(1, 0.0);
    gapped.set_slot_occupancy(EffectSlotIndex::new(1).unwrap(), Some(chorus_config(2))).unwrap();
    state.apply(AppEvent::InstallPatches(vec![gapped])).unwrap();
    state
}

fn mixed_state() -> AppState {
    let mut state = AppState::new(mixed_registry());
    let braids_patch = Patch::new(
        PatchId::new(2).unwrap(),
        "Patch 2".to_owned(),
        braids_config(),
        MidiChannel::new(1).unwrap(),
        PatchOutput::to_track(MixerTrackId::new(1).unwrap()),
    );
    state.apply(AppEvent::InstallPatches(vec![patch(1, -1.0), braids_patch])).unwrap();
    state.apply(AppEvent::SelectContext(TopLevelContext::Patch)).unwrap();
    state
}

/// Navigates PATCH Utility from its entry row to `control`.
fn focus_utility_row(state: &mut AppState, control: &PatchControlId) {
    state.apply(AppEvent::SelectContext(TopLevelContext::Patch)).unwrap();
    state.apply(AppEvent::EnterSurface(SurfaceId::PatchUtility)).unwrap();
    let order = PatchControlId::utility_surface_descriptor();
    let index = |target: &PatchControlId| {
        order.iter().position(|candidate| candidate == target).expect("the declared Utility order hosts this row")
    };
    let entry = index(&PatchControlId::Output(PatchOutputParameter::TrimGain));
    let target = index(control);
    let (direction, steps) = if target >= entry {
        (Direction::Down, target - entry)
    } else {
        (Direction::Up, entry - target)
    };
    for _ in 0..steps {
        state.apply(AppEvent::Navigate(direction)).unwrap();
    }
    assert_eq!(
        state.interaction().patch_control_focus(),
        Some(control.clone()),
        "navigation must land on the requested Utility row"
    );
}

#[test]
fn install_accepts_a_gapped_chain_and_keeps_every_position() {
    let state = gapped_effects_state();
    let slots = state.patches()[0].effect_slots();
    assert!(slots[0].is_none(), "slot 0 must stay empty after install");
    assert_eq!(
        slots[1].as_ref().map(|config| config.slot_id().value()),
        Some(2),
        "the occupant must keep its position and stable identity"
    );
    assert!(slots[2].is_none());
}

#[test]
fn validate_effect_slots_accepts_gaps_and_rejects_duplicate_identities() {
    let effects = effect_registry();
    let occupant = |slot: u16| chorus_config(slot);

    validate_effect_slots(&effects, &vec![Some(occupant(1)), None, Some(occupant(3))])
        .expect("an interior gap is a legal chain shape");
    assert!(matches!(
        validate_effect_slots(&effects, &vec![Some(occupant(1)), None, Some(occupant(1))]),
        Err(EffectCapabilityError::DuplicateSlot(_))
    ));
}

#[test]
fn rejection_descriptor_is_unique_and_reducer_table_exercises_its_partition() {
    let descriptor = EventRejection::surface_descriptor();
    assert_eq!(descriptor.len(), 16);
    for (index, entry) in descriptor.iter().enumerate() {
        assert!(!descriptor[..index]
            .iter()
            .any(|prior| prior.rejection() == entry.rejection() || prior.name() == entry.name()));
    }
    for entry in &descriptor {
        let expected_reachability = match entry.rejection() {
            EventRejection::InstallationClosed
            | EventRejection::TooManyPatches
            | EventRejection::InvalidInstrumentConfig
            | EventRejection::UnknownPatch
            | EventRejection::ParameterAtBoundary
            | EventRejection::ActionUnavailableInContext
            | EventRejection::EngineSelectionUnavailable
            | EventRejection::StructuralEditBusy
            | EventRejection::StaleEngineSelection
            | EventRejection::MismatchedEngineSelection => EventRejectionReachability::Scene,
            EventRejection::NoPatchesInstalled
            | EventRejection::InvalidEffectConfig
            | EventRejection::InvalidSelection
            | EventRejection::InvalidParameterValue
            | EventRejection::RequestIdOverflow
            | EventRejection::GenerationOverflow => EventRejectionReachability::ReducerTable,
        };
        assert_eq!(entry.reachability(), expected_reachability);
    }

    let expected = [
        EventRejection::TooManyPatches,
        EventRejection::InvalidInstrumentConfig,
        EventRejection::InvalidEffectConfig,
        EventRejection::NoPatchesInstalled,
        EventRejection::InvalidSelection,
        EventRejection::InvalidParameterValue,
        EventRejection::RequestIdOverflow,
        EventRejection::GenerationOverflow,
    ];
    let state = installed_state();
    assert_eq!(
        exercise_reducer_table_rejections(state.capabilities(), state.patches()[0].instrument_config()).as_slice(),
        expected.as_slice()
    );
}

#[test]
fn app_state_selection_is_read_only_and_typed() {
    let patch = Selection::patch(2);
    let global = Selection::global();

    assert_eq!(patch.section(), SelectionSection::Patch);
    assert_eq!(patch.patch_index(), 2);
    assert_eq!(patch.parameter_index(), 0);
    assert_eq!(global.section(), SelectionSection::Global);
    assert_eq!(global.parameter_index(), 0);
}

#[test]
fn app_state_context_defaults_to_mixer_and_installation_sets_stable_focus() {
    let mut state = AppState::new(registry());
    assert_eq!(state.context(), TopLevelContext::Mixer);
    assert_eq!(state.interaction().patch_focus(), None);
    assert_eq!(state.selection(), Selection::patch(0));

    state.apply(AppEvent::InstallPatches(vec![patch(2, -3.0), patch(1, 0.0)])).unwrap();
    assert_eq!(state.context(), TopLevelContext::Mixer);
    assert_eq!(state.interaction().patch_focus(), Some(PatchId::new(2).unwrap()));
    assert_eq!(state.selection(), Selection::patch(0));
}

#[test]
fn direct_and_repeated_context_selection_preserves_independent_focus() {
    let mut state = installed_state();
    state.apply(AppEvent::Navigate(Direction::Down)).unwrap();
    let mixer_selection = state.selection();
    let patch_focus = state.interaction().patch_focus();
    let generation = state.generation();

    let first = state.apply(AppEvent::SelectContext(TopLevelContext::Patch)).unwrap();
    assert_eq!(first.audio_command(), None);
    assert_eq!(first.accepted().generation(), generation + 1);
    assert_eq!(state.context(), TopLevelContext::Patch);
    assert_eq!(state.selection(), mixer_selection);
    assert_eq!(state.interaction().patch_focus(), patch_focus);

    let repeated = state.apply(AppEvent::SelectContext(TopLevelContext::Patch)).unwrap();
    assert_eq!(repeated.accepted().generation(), generation + 2);
    assert_eq!(repeated.audio_command(), None);
    assert_eq!(state.selection(), mixer_selection);
    assert_eq!(state.interaction().patch_focus(), patch_focus);

    state.apply(AppEvent::SelectContext(TopLevelContext::Mixer)).unwrap();
    assert_eq!(state.context(), TopLevelContext::Mixer);
    assert_eq!(state.selection(), mixer_selection);
}

#[test]
fn patch_selection_before_installation_and_patch_actions_reject_transactionally() {
    let mut empty = AppState::new(registry());
    let initial = empty.clone();
    assert_eq!(
        empty.apply(AppEvent::SelectContext(TopLevelContext::Patch)).unwrap_err(),
        EventRejection::NoPatchesInstalled
    );
    assert_eq!(empty, initial);
    empty.apply(AppEvent::Navigate(Direction::Down)).unwrap();

    let mut state = installed_state();
    state.apply(AppEvent::SelectContext(TopLevelContext::Patch)).unwrap();
    let before = state.clone();
    assert_eq!(
        state.apply(AppEvent::Navigate(Direction::Left)).unwrap_err(),
        EventRejection::ActionUnavailableInContext
    );
    assert_eq!(state, before);
    assert_eq!(
        state.apply(AppEvent::Adjust(Direction::Right)).unwrap_err(),
        EventRejection::EngineSelectionUnavailable
    );
    assert_eq!(state, before);
    state.apply(AppEvent::Navigate(Direction::Down)).unwrap();
    assert_eq!(
        state.interaction().patch_control_focus(),
        Some(PatchControlId::EffectSlot(EffectSlotIndex::all()[0]))
    );
    state.apply(AppEvent::SelectContext(TopLevelContext::Mixer)).unwrap();
    state.apply(AppEvent::Navigate(Direction::Down)).unwrap();
    assert_eq!(state.context(), TopLevelContext::Mixer);
}

#[test]
fn select_patch_moves_the_focused_patch_through_the_reducer_without_wrapping() {
    let mut state = installed_state();
    state.apply(AppEvent::SelectContext(TopLevelContext::Patch)).unwrap();

    let first = state.interaction().patch_focus().unwrap();
    assert_eq!(first, PatchId::new(1).unwrap());

    assert_eq!(
        state.apply(AppEvent::SelectPatch(Direction::Left)).unwrap_err(),
        EventRejection::ParameterAtBoundary
    );
    assert_eq!(state.interaction().patch_focus().unwrap(), first);

    state.apply(AppEvent::SelectPatch(Direction::Right)).unwrap();
    let second = state.interaction().patch_focus().unwrap();
    assert_eq!(second, PatchId::new(2).unwrap());
    assert_ne!(second, first);

    assert_eq!(state.interaction().focus_path().patch_id(), Some(PatchId::new(2).unwrap()));

    assert_eq!(
        state.apply(AppEvent::SelectPatch(Direction::Right)).unwrap_err(),
        EventRejection::ParameterAtBoundary
    );
    assert_eq!(state.interaction().patch_focus().unwrap(), second);

    state.apply(AppEvent::SelectPatch(Direction::Left)).unwrap();
    assert_eq!(state.interaction().patch_focus().unwrap(), first);
}

#[test]
fn select_patch_is_refused_outside_its_context_mode_and_axis() {
    let mut state = installed_state();

    state.apply(AppEvent::SelectContext(TopLevelContext::Mixer)).unwrap();
    assert_eq!(
        state.apply(AppEvent::SelectPatch(Direction::Right)).unwrap_err(),
        EventRejection::ActionUnavailableInContext
    );

    state.apply(AppEvent::SelectContext(TopLevelContext::Patch)).unwrap();

    for direction in [Direction::Up, Direction::Down] {
        assert_eq!(
            state.apply(AppEvent::SelectPatch(direction)).unwrap_err(),
            EventRejection::ActionUnavailableInContext
        );
    }

    state.apply(AppEvent::SetInteractionMode(InteractionMode::Adjust)).unwrap();
    assert_eq!(
        state.apply(AppEvent::SelectPatch(Direction::Right)).unwrap_err(),
        EventRejection::ActionUnavailableInContext
    );
}

#[test]
fn patch_focus_reducer_covers_every_control_edge_and_direction_without_wrapping() {
    let controls = mixed_state().focused_patch_controls().unwrap();
    assert_eq!(
        controls,
        vec![
            PatchControlId::Engine,
            PatchControlId::EffectSlot(EffectSlotIndex::all()[0]),
            PatchControlId::EffectSlot(EffectSlotIndex::all()[1]),
            PatchControlId::EffectSlot(EffectSlotIndex::all()[2]),
        ]
    );
    for (index, expected) in controls.iter().cloned().enumerate() {
        let mut focused = mixed_state();
        for _ in 0..index {
            focused.apply(AppEvent::Navigate(Direction::Down)).unwrap();
        }
        assert_eq!(focused.interaction().patch_control_focus(), Some(expected));

        let mut left = focused.clone();
        let before = left.clone();
        assert_eq!(
            left.apply(AppEvent::Navigate(Direction::Left)).unwrap_err(),
            EventRejection::ActionUnavailableInContext
        );
        assert_eq!(left, before);

        let origin = focused.interaction().focus_path();
        let mut right = focused.clone();
        right.apply(AppEvent::Navigate(Direction::Right)).unwrap();
        assert_eq!(right.interaction().active_surface(), SurfaceId::PatchUtility);
        assert_eq!(right.interaction().return_path().map(|path| path.origin().clone()), Some(origin.clone()));
        right.apply(AppEvent::Return).unwrap();
        assert_eq!(right.interaction().focus_path(), origin);

        let mut up = focused.clone();
        if index == 0 {
            let before = up.clone();
            assert_eq!(
                up.apply(AppEvent::Navigate(Direction::Up)).unwrap_err(),
                EventRejection::ActionUnavailableInContext
            );
            assert_eq!(up, before);
        } else {
            up.apply(AppEvent::Navigate(Direction::Up)).unwrap();
            assert_eq!(up.interaction().patch_control_focus(), Some(controls[index - 1].clone()));
        }

        let mut down = focused.clone();
        if index + 1 == controls.len() {
            let before = down.clone();
            assert_eq!(
                down.apply(AppEvent::Navigate(Direction::Down)).unwrap_err(),
                EventRejection::ActionUnavailableInContext
            );
            assert_eq!(down, before);
        } else {
            down.apply(AppEvent::Navigate(Direction::Down)).unwrap();
            assert_eq!(down.interaction().patch_control_focus(), Some(controls[index + 1].clone()));
        }
    }
}

#[test]
fn app_state_installation_preserves_order_and_is_startup_only() {
    let mut state = AppState::new(registry());
    let outcome = state.apply(AppEvent::InstallPatches(vec![patch(2, -3.0), patch(1, 0.0)])).unwrap();

    assert_eq!(outcome.accepted().generation(), 1);
    assert_eq!(state.generation(), 1);
    assert_eq!(state.patches()[0].id(), PatchId::new(2).unwrap());
    assert_eq!(state.patches()[1].id(), PatchId::new(1).unwrap());

    let accepted = state.clone();
    assert_eq!(
        state.apply(AppEvent::InstallPatches(Vec::new())).unwrap_err(),
        EventRejection::InstallationClosed
    );
    assert_eq!(state, accepted);
}

#[test]
fn app_state_installation_accepts_shared_midi_channels() {
    let mut state = AppState::new(registry());
    state
        .apply(AppEvent::InstallPatches(vec![patch_on_channel(1, 0.0, 3), patch_on_channel(2, -3.0, 3)]))
        .unwrap();

    assert_eq!(state.patches().len(), 2);
    assert!(
        state.patches().iter().all(|patch| patch.channel() == MidiChannel::new(3).unwrap()),
        "every Patch may subscribe to the same MIDI channel"
    );
}

#[test]
fn app_state_rejects_invalid_instrument_config_atomically_and_remains_processable() {
    let mut state = AppState::new(registry());
    let initial = state.clone();
    let invalid_config = InstrumentConfig::from_parts(CapabilityId::new("instrument.unknown").unwrap(), Vec::new());
    let invalid_patch = Patch::new(
        PatchId::new(1).unwrap(),
        "Invalid".to_owned(),
        invalid_config,
        MidiChannel::new(0).unwrap(),
        PatchOutput::default(),
    );

    assert_eq!(
        state.apply(AppEvent::InstallPatches(vec![invalid_patch])).unwrap_err(),
        EventRejection::InvalidInstrumentConfig
    );
    assert_eq!(state, initial);

    let accepted = state.apply(AppEvent::Navigate(Direction::Down)).unwrap();
    assert_eq!(accepted.accepted().generation(), 1);
    assert_eq!(state.generation(), 1);
    assert_eq!(state.capabilities(), initial.capabilities());
    assert!(state.patches().is_empty());
}

#[test]
fn app_state_installation_rejects_more_than_sixteen_patches() {
    let mut state = AppState::new(registry());
    let initial = state.clone();
    let patches = (1..=17).map(|id| patch_on_channel(id, 0.0, ((id - 1) % 16) as u8)).collect();

    assert_eq!(state.apply(AppEvent::InstallPatches(patches)).unwrap_err(), EventRejection::TooManyPatches);
    assert_eq!(state, initial);
}

#[test]
fn app_state_navigation_changes_selection_without_parameters() {
    let mut state = installed_state();
    let patches = state.patches().to_vec();

    state.apply(AppEvent::Navigate(Direction::Down)).unwrap();
    assert_eq!(state.selection().parameter_index(), 1);
    assert_eq!(state.patches(), &patches);

    state.apply(AppEvent::Navigate(Direction::Right)).unwrap();
    assert_eq!(state.selection().section(), SelectionSection::Patch);
    assert_eq!(state.selection().patch_index(), 1);

    state.apply(AppEvent::Navigate(Direction::Right)).unwrap();
    assert_eq!(state.selection().section(), SelectionSection::Patch);
    assert_eq!(state.selection().patch_index(), 2);
    assert_eq!(state.selection().parameter_index(), 1);
}

#[test]
fn app_state_midi_acceptance_returns_one_effect_without_parameter_mutation() {
    let mut state = installed_state();
    let patch_id = PatchId::new(1).unwrap();
    let message = MidiMessage::try_new(MidiChannel::new(0).unwrap(), MidiMessageKind::NoteOn, 60, 100).unwrap();
    let patches = state.patches().to_vec();

    let outcome = state.apply(AppEvent::Midi { patch_id, message }).unwrap();

    assert_eq!(outcome.accepted().generation(), 2);
    assert_eq!(outcome.audio_command(), Some(&AudioCommand::PatchMidi { patch_id, message }));
    assert_eq!(state.patches(), &patches);

    let accepted = state.clone();
    assert_eq!(
        state.apply(AppEvent::Midi { patch_id: PatchId::new(99).unwrap(), message }).unwrap_err(),
        EventRejection::UnknownPatch
    );
    assert_eq!(state, accepted);
}

#[test]
fn patch_utility_resolves_exactly_five_declared_rows_without_wrapping() {
    let mut state = installed_state();

    assert_eq!(
        PatchControlId::utility_surface_descriptor(),
        vec![
            PatchControlId::Global(GlobalParameter::MasterGainDb),
            PatchControlId::Output(PatchOutputParameter::TrimGain),
            PatchControlId::MidiInput,
            PatchControlId::Output(PatchOutputParameter::OutputTrack),
            PatchControlId::VoiceLimit,
        ]
    );

    let main = state.focused_patch_controls().unwrap();
    for control in PatchControlId::utility_surface_descriptor() {
        assert!(!main.contains(&control), "{control:?} must not appear in the PatchMain order");
    }

    focus_utility_row(&mut state, &PatchControlId::Global(GlobalParameter::MasterGainDb));
    let at_top = state.clone();
    assert_eq!(
        state.apply(AppEvent::Navigate(Direction::Up)).unwrap_err(),
        EventRejection::ActionUnavailableInContext
    );
    assert_eq!(state, at_top);

    focus_utility_row(&mut state, &PatchControlId::VoiceLimit);
    let at_bottom = state.clone();
    assert_eq!(
        state.apply(AppEvent::Navigate(Direction::Down)).unwrap_err(),
        EventRejection::ActionUnavailableInContext
    );
    assert_eq!(state, at_bottom);
}

#[test]
fn midi_input_accepts_a_shared_channel_and_touches_nothing_else() {
    let mut state = installed_state();
    let before = state.patches()[0].clone();
    let graph_before = state.engine_selection().projection_graph_revision();

    focus_utility_row(&mut state, &PatchControlId::MidiInput);
    state.apply(AppEvent::SetInteractionMode(InteractionMode::Adjust)).unwrap();
    state.apply(AppEvent::Adjust(Direction::Right)).unwrap();
    assert_eq!(state.patches()[0].channel(), state.patches()[1].channel());
    let shared = state.patches()[0].clone();

    state.apply(AppEvent::Adjust(Direction::Left)).unwrap();
    let restored = state.clone();
    assert_eq!(state.apply(AppEvent::Adjust(Direction::Left)).unwrap_err(), EventRejection::ParameterAtBoundary);
    assert_eq!(state, restored);

    assert_eq!(
        state.apply(AppEvent::Adjust(Direction::Up)).unwrap_err(),
        EventRejection::ActionUnavailableInContext
    );

    assert_eq!(shared.channel().value(), 1);
    assert_eq!(shared.id(), before.id());
    assert_eq!(shared.instrument_config(), before.instrument_config());
    assert_eq!(shared.effect_slots(), before.effect_slots());
    assert_eq!(shared.output(), before.output());
    assert_eq!(shared.voice_limit(), before.voice_limit());
    assert_eq!(
        state.engine_selection().projection_graph_revision(),
        graph_before,
        "a channel change publishes no new graph"
    );
    assert_eq!(state.patches()[0], before);
}

#[test]
fn voice_limit_uses_descriptor_steps_and_refuses_at_both_bounds() {
    let descriptor = VoiceLimit::descriptor();
    let mut state = installed_state();
    let seeded = state.patches()[0].voice_limit().value();

    focus_utility_row(&mut state, &PatchControlId::VoiceLimit);
    state.apply(AppEvent::SetInteractionMode(InteractionMode::Adjust)).unwrap();

    state.apply(AppEvent::Adjust(Direction::Left)).unwrap();
    assert_eq!(state.patches()[0].voice_limit().value(), seeded - descriptor.fine_step());
    state.apply(AppEvent::Adjust(Direction::Down)).unwrap();
    assert_eq!(
        state.patches()[0].voice_limit().value(),
        seeded - descriptor.fine_step() - descriptor.coarse_step()
    );
    state.apply(AppEvent::Adjust(Direction::Up)).unwrap();
    state.apply(AppEvent::Adjust(Direction::Right)).unwrap();
    assert_eq!(state.patches()[0].voice_limit().value(), seeded);

    while state.patches()[0].voice_limit().value() < descriptor.maximum() {
        state.apply(AppEvent::Adjust(Direction::Up)).unwrap();
    }
    let at_max = state.clone();
    assert_eq!(state.apply(AppEvent::Adjust(Direction::Right)).unwrap_err(), EventRejection::ParameterAtBoundary);
    assert_eq!(state, at_max);

    while state.patches()[0].voice_limit().value() > descriptor.minimum() {
        state.apply(AppEvent::Adjust(Direction::Down)).unwrap();
    }
    assert_eq!(state.patches()[0].voice_limit().value(), descriptor.minimum());
    let at_min = state.clone();
    assert_eq!(state.apply(AppEvent::Adjust(Direction::Left)).unwrap_err(), EventRejection::ParameterAtBoundary);
    assert_eq!(state, at_min);
}

#[test]
fn installation_seeds_each_patch_limit_from_its_own_engine_ceiling() {
    let mut state = AppState::new(mixed_registry());
    state
        .apply(AppEvent::InstallPatches(vec![
            Patch::new(
                PatchId::new(1).unwrap(),
                "SoundFont".to_owned(),
                soundfont_config(1),
                MidiChannel::new(0).unwrap(),
                PatchOutput::to_track(MixerTrackId::new(0).unwrap()),
            ),
            Patch::new(
                PatchId::new(2).unwrap(),
                "Braids".to_owned(),
                braids_config(),
                MidiChannel::new(1).unwrap(),
                PatchOutput::to_track(MixerTrackId::new(1).unwrap()),
            ),
        ]))
        .unwrap();

    assert_eq!(state.patches()[0].voice_limit().value(), HIDEF_POLYPHONY_CEILING);
    assert_eq!(
        state.patches()[1].voice_limit().value(),
        BRAIDS_FIXED_VOICES,
        "a Braids Patch must carry its own engine's ceiling, not 64"
    );
    assert_ne!(
        state.patches()[0].voice_limit(),
        state.patches()[1].voice_limit(),
        "seeding must discriminate between the two installed engines"
    );
}

#[test]
fn an_engine_swap_to_a_narrower_engine_clamps_the_limit_in_canonical_state() {
    let mut patch = patch(1, 0.0);
    patch.seed_voice_limit(VoicePolicy::EngineManaged);
    assert_eq!(patch.voice_limit().value(), VoiceLimit::MAXIMUM);

    let carry_over =
        patch.replace_instrument_config(braids_config(), VoicePolicy::FixedPerPatch { voices: BRAIDS_FIXED_VOICES });

    assert_eq!(
        carry_over,
        VoiceLimitCarryOver::Clamped {
            previous: VoiceLimit::new(VoiceLimit::MAXIMUM).unwrap(),
            limit: VoiceLimit::new(BRAIDS_FIXED_VOICES).unwrap(),
        }
    );
    assert_eq!(patch.voice_limit(), carry_over.limit(), "canonical state must hold exactly the reported carry-over limit");
    assert_eq!(patch.voice_limit().value(), BRAIDS_FIXED_VOICES);
}

#[test]
fn a_patch_switch_at_either_end_is_a_typed_unchanged_rejection() {
    let mut state = installed_state();
    state.apply(AppEvent::SelectContext(TopLevelContext::Patch)).unwrap();

    let at_first = state.clone();
    assert_eq!(
        state.apply(AppEvent::SelectPatch(Direction::Left)).unwrap_err(),
        EventRejection::ParameterAtBoundary
    );
    assert_eq!(state, at_first, "a refused switch leaves state identical");

    state.apply(AppEvent::SelectPatch(Direction::Right)).unwrap();
    let at_last = state.clone();
    assert_eq!(
        state.apply(AppEvent::SelectPatch(Direction::Right)).unwrap_err(),
        EventRejection::ParameterAtBoundary
    );
    assert_eq!(state, at_last);
}

#[test]
fn engine_request_prepares_commits_and_acknowledges_only_the_target() {
    let mut state = mixed_state();
    let source = state.patches()[0].instrument_config().clone();

    let outcome = state.apply(AppEvent::Adjust(Direction::Right)).unwrap();
    let effect = outcome.engine_selection_effect().unwrap().clone();
    assert_eq!(effect.kind(), EngineSelectionEffectKind::PrepareRequested);
    assert_eq!(effect.target_capability_id().unwrap().as_str(), BRAIDS_CAPABILITY_ID);
    assert_eq!(state.engine_selection().kind(), EngineSelectionStatusKind::Preparing);
    assert_eq!(
        state.apply(AppEvent::Adjust(Direction::Right)).unwrap_err(),
        EventRejection::StructuralEditBusy
    );

    let correlation = state.engine_selection().correlation().unwrap().clone();
    let revision_two = synth_control::domain::GraphRevision::initial().checked_next().unwrap();
    let prepared = state
        .apply(AppEvent::EnginePrepared {
            request_id: correlation.request_id(),
            patch_id: correlation.patch_id().unwrap(),
            intent: correlation.intent().clone(),
            source_capability_id: correlation.source_capability_id().unwrap().clone(),
            target_capability_id: correlation.target_capability_id().unwrap().clone(),
            source_graph_revision: correlation.source_graph_revision(),
            target_graph_revision: revision_two,
            candidate_config: braids_config(),
            prepared_visualization: None,
        })
        .unwrap();
    assert_eq!(prepared.engine_selection_effect().unwrap().kind(), EngineSelectionEffectKind::CandidateCommitted);
    assert_eq!(state.patches()[0].instrument_config(), &source);

    state
        .apply(AppEvent::EngineActivationAcknowledged {
            request_id: correlation.request_id(),
            intent: correlation.intent().clone(),
            target_graph_revision: revision_two,
            retired_graph_revision: correlation.source_graph_revision(),
            collected: true,
        })
        .unwrap();
    assert_eq!(state.patches()[0].instrument_config(), &braids_config());
    assert_eq!(state.patches()[0].voice_limit().value(), BRAIDS_FIXED_VOICES);
    assert_eq!(state.engine_selection().kind(), EngineSelectionStatusKind::Ready);
    assert_eq!(state.engine_selection().active_graph_revision(), revision_two);
}

#[test]
fn slot_occupancy_request_steps_through_the_effect_registry() {
    let mut state = AppState::new_with_effects(registry(), effect_registry());
    state.apply(AppEvent::InstallPatches(vec![patch(1, 0.0)])).unwrap();
    state.apply(AppEvent::SelectContext(TopLevelContext::Patch)).unwrap();
    state.apply(AppEvent::Navigate(Direction::Down)).unwrap();
    assert_eq!(
        state.apply(AppEvent::Adjust(Direction::Left)).unwrap_err(),
        EventRejection::ParameterAtBoundary
    );
    let outcome = state.apply(AppEvent::Adjust(Direction::Right)).unwrap();
    let effect = outcome.engine_selection_effect().unwrap();
    assert_eq!(effect.kind(), EngineSelectionEffectKind::PrepareRequested);
    assert_eq!(state.patches()[0].effect_slots()[0], None);
}

#[test]
fn midi_fans_out_to_every_subscriber_in_installation_order() {
    let mut state = AppState::new(registry());
    state
        .apply(AppEvent::InstallPatches(vec![
            patch_on_channel(3, 0.0, 2),
            patch_on_channel(1, 0.0, 0),
            patch_on_channel(2, 0.0, 2),
        ]))
        .unwrap();
    assert_eq!(
        state.midi_subscribers(MidiChannel::new(2).unwrap()),
        vec![PatchId::new(3).unwrap(), PatchId::new(2).unwrap()]
    );
    assert!(state.midi_subscribers(MidiChannel::new(9).unwrap()).is_empty());
}
