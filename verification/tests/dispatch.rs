use synth_control::app_event::AppEvent;
use synth_control::app_state::AppState;
use synth_control::app_state::AudioCommand;
use synth_control::dispatch::{dispatch_midi, dispatch_step, record_acceptance};
use synth_control::payloads::{MidiMessage, MidiMessageKind};
use synth_control::domain::{CapabilityId, MidiChannel, MixerTrackId, ParameterId, PatchId};
use synth_control::event_log::{EventLog, EventOutcome, EventSource};
use synth_control::interaction::{Direction, TopLevelContext};
use synth_control::patch::{ChoiceValue, InstrumentConfig, Patch, PatchOutput, VoicePolicy};
use synth_control::registry::{CapabilityDescriptor, CapabilityRegistry};
use synth_control::rejection::EventRejection;

fn config() -> InstrumentConfig {
    InstrumentConfig::from_parts(
        CapabilityId::new("instrument.braids").unwrap(),
        vec![ChoiceValue { parameter_id: ParameterId::new("braids.shape").unwrap(), choice_id: "csaw".to_owned() }],
    )
}

fn installed() -> AppState {
    let registry =
        CapabilityRegistry::new(vec![CapabilityDescriptor::new(VoicePolicy::FixedPerPatch { voices: 8 }, config(), Vec::new())])
            .unwrap();
    let mut state = AppState::new(registry);
    let patch = Patch::new(
        PatchId::new(1).unwrap(),
        "Patch 1".to_owned(),
        config(),
        MidiChannel::new(0).unwrap(),
        PatchOutput::to_track(MixerTrackId::new(0).unwrap()),
    );
    state.apply(AppEvent::InstallPatches(vec![patch])).unwrap();
    state
}

#[test]
fn every_dispatched_event_leaves_one_chained_record() {
    let mut state = installed();
    let mut log = EventLog::new(8).unwrap();

    let refused = dispatch_step(&mut state, &mut log, EventSource::DemoScene, AppEvent::SelectPatch(Direction::Left), "h1".to_owned(), false);
    assert_eq!(refused.err(), Some(EventRejection::ActionUnavailableInContext));
    assert_eq!(log.len(), 1);
    assert_eq!(log.records()[0].generation_before(), 1);
    assert_eq!(log.records()[0].generation_after(), 1);
    assert_eq!(log.records()[0].state_hash_after(), "h1");
    assert_eq!(log.records()[0].source(), EventSource::DemoScene);
    assert_eq!(log.records()[0].outcome(), EventOutcome::Rejected);
    assert_eq!(log.records()[0].rejection(), Some(EventRejection::ActionUnavailableInContext));

    let decision =
        dispatch_step(&mut state, &mut log, EventSource::Keyboard, AppEvent::SelectContext(TopLevelContext::Patch), "h1".to_owned(), false)
            .ok()
            .unwrap();
    assert_eq!(decision.generation_before, 1);
    assert_eq!(decision.outcome.accepted().generation(), 2);
    assert!(!decision.publishes_parameters);
    assert_eq!(log.len(), 1);
    record_acceptance(&mut log, &decision, "h1".to_owned(), "h2".to_owned());
    assert_eq!(log.len(), 2);
    assert_eq!(log.records()[1].sequence(), 1);
    assert_eq!(log.records()[1].generation_after(), 2);
    assert_eq!(log.records()[1].state_hash_before(), "h1");
    assert_eq!(log.records()[1].source(), EventSource::Keyboard);
    assert_eq!(log.records()[1].outcome(), EventOutcome::Accepted);
    assert_eq!(state.generation(), 2);
}

#[test]
fn a_pending_session_replacement_refuses_structural_events_before_the_journal() {
    let mut state = installed();
    let mut log = EventLog::new(8).unwrap();
    let refused = dispatch_step(&mut state, &mut log, EventSource::Worker, AppEvent::Adjust(Direction::Right), "h".to_owned(), true);
    assert_eq!(refused.err(), Some(EventRejection::StructuralEditBusy));
    assert_eq!(state.generation(), 1);
    assert_eq!(log.len(), 0);
    let accepted = dispatch_step(&mut state, &mut log, EventSource::Keyboard, AppEvent::SelectContext(TopLevelContext::Patch), "h".to_owned(), true);
    assert!(accepted.is_ok());
}

fn patch_on(id: u32, channel: u8) -> Patch {
    Patch::new(
        PatchId::new(id).unwrap(),
        format!("Patch {id}"),
        config(),
        MidiChannel::new(channel).unwrap(),
        PatchOutput::to_track(MixerTrackId::new(id as u8 - 1).unwrap()),
    )
}

#[test]
fn one_midi_message_fans_out_to_every_subscriber_in_installation_order() {
    let registry =
        CapabilityRegistry::new(vec![CapabilityDescriptor::new(VoicePolicy::FixedPerPatch { voices: 8 }, config(), Vec::new())])
            .unwrap();
    let mut state = AppState::new(registry);
    state.apply(AppEvent::InstallPatches(vec![patch_on(1, 0), patch_on(2, 1), patch_on(3, 0)])).unwrap();
    let message = MidiMessage::try_new(MidiChannel::new(0).unwrap(), MidiMessageKind::NoteOn, 60, 100).unwrap();

    assert_eq!(dispatch_midi(&mut state, message, true).err(), Some(EventRejection::StructuralEditBusy));
    assert_eq!(state.generation(), 1);

    let outcomes = dispatch_midi(&mut state, message, false).ok().unwrap();
    assert_eq!(outcomes.len(), 2);
    assert_eq!(outcomes[0].accepted().generation(), 2);
    assert_eq!(outcomes[0].audio_command(), Some(&AudioCommand::PatchMidi { patch_id: PatchId::new(1).unwrap(), message }));
    assert_eq!(outcomes[1].accepted().generation(), 3);
    assert_eq!(outcomes[1].audio_command(), Some(&AudioCommand::PatchMidi { patch_id: PatchId::new(3).unwrap(), message }));
    assert_eq!(state.generation(), 3);

    let silent = MidiMessage::try_new(MidiChannel::new(5).unwrap(), MidiMessageKind::NoteOn, 60, 100).unwrap();
    assert_eq!(dispatch_midi(&mut state, silent, false).ok().unwrap().len(), 0);
    assert_eq!(state.generation(), 3);
}
