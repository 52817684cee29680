use synth_control::domain::{
    BusId, CapabilityId, EffectSlotId, EffectSlotIndex, GraphRevision, GraphRevisionError, IdentityError,
    MidiChannel, MixerTrackId, ParameterId, PatchId,
};
use synth_control::patch::{
    ChoiceValue, EffectChainError, InstrumentConfig, Patch, PatchOutput, PostEffectConfig, VoiceLimit,
    VoiceLimitError,
};
use synth_control::payloads::{MidiMessage, MidiMessageError, MidiMessageKind};
use synth_control::registry::{CapabilityDescriptor, CapabilityError, CapabilityRegistry};
use synth_control::domain::EffectCapabilityId;
use synth_control::patch::VoicePolicy;

#[test]
fn bounded_identities_refuse_values_outside_their_range() {
    assert_eq!(PatchId::new(0), Err(IdentityError::OutOfRange));
    assert_eq!(PatchId::new(7).unwrap().value(), 7);
    assert_eq!(MidiChannel::new(16), Err(IdentityError::OutOfRange));
    assert_eq!(MidiChannel::new(15).unwrap().value(), 15);
    assert_eq!(MixerTrackId::new(16), Err(IdentityError::OutOfRange));
    assert_eq!(BusId::new(8), Err(IdentityError::OutOfRange));
    assert_eq!(EffectSlotIndex::new(3), Err(IdentityError::OutOfRange));
    assert_eq!(EffectSlotId::new(0), Err(IdentityError::OutOfRange));
    assert_eq!(EffectSlotIndex::new(2).unwrap().instance_identity(), EffectSlotId::new(3).unwrap());
    assert_eq!(CapabilityId::new(""), Err(IdentityError::Empty));
    assert_eq!(ParameterId::new(""), Err(IdentityError::Empty));
    assert_eq!(EffectCapabilityId::new(""), Err(IdentityError::Empty));
}

#[test]
fn graph_revisions_start_at_one_and_exhaust_at_the_top() {
    assert_eq!(GraphRevision::initial().value(), 1);
    assert_eq!(GraphRevision::new(0), Err(GraphRevisionError::Zero));
    assert_eq!(GraphRevision::initial().checked_next().unwrap().value(), 2);
    assert_eq!(GraphRevision::new(u64::MAX).unwrap().checked_next(), Err(GraphRevisionError::Exhausted));
}

#[test]
fn midi_data_bytes_are_seven_bit() {
    let channel = MidiChannel::new(0).unwrap();
    assert_eq!(MidiMessage::try_new(channel, MidiMessageKind::NoteOn, 128, 0), Err(MidiMessageError::DataOutOfRange));
    assert_eq!(MidiMessage::try_new(channel, MidiMessageKind::NoteOn, 0, 128), Err(MidiMessageError::DataOutOfRange));
    assert!(MidiMessage::try_new(channel, MidiMessageKind::NoteOn, 127, 127).is_ok());
}

#[test]
fn voice_limits_and_effect_chains_refuse_invalid_edits() {
    assert_eq!(VoiceLimit::new(0), Err(VoiceLimitError::OutOfRange));
    assert_eq!(VoiceLimit::new(65), Err(VoiceLimitError::OutOfRange));
    assert_eq!(VoiceLimit::new(64).unwrap().value(), 64);

    let mut patch = Patch::new(
        PatchId::new(1).unwrap(),
        "Patch 1".to_owned(),
        InstrumentConfig::from_parts(CapabilityId::new("instrument.braids").unwrap(), Vec::new()),
        MidiChannel::new(0).unwrap(),
        PatchOutput::to_track(MixerTrackId::new(0).unwrap()),
    );
    let chorus = |slot: u16| {
        PostEffectConfig::from_parts(EffectSlotId::new(slot).unwrap(), EffectCapabilityId::new("effect.chorus").unwrap())
    };
    patch.set_slot_occupancy(EffectSlotIndex::new(0).unwrap(), Some(chorus(1))).unwrap();
    assert_eq!(
        patch.set_slot_occupancy(EffectSlotIndex::new(2).unwrap(), Some(chorus(1))),
        Err(EffectChainError::DuplicateSlot)
    );
    assert!(patch.effect_slots()[2].is_none());
    patch.set_slot_occupancy(EffectSlotIndex::new(0).unwrap(), Some(chorus(1))).unwrap();
    assert_eq!(patch.effect_slots()[0], Some(chorus(1)));
}

#[test]
fn a_registry_refuses_a_capability_declared_twice() {
    let config = InstrumentConfig::from_parts(
        CapabilityId::new("instrument.braids").unwrap(),
        vec![ChoiceValue { parameter_id: ParameterId::new("braids.shape").unwrap(), choice_id: "csaw".to_owned() }],
    );
    let descriptor = || CapabilityDescriptor::new(VoicePolicy::FixedPerPatch { voices: 8 }, config.clone(), Vec::new());
    assert_eq!(
        CapabilityRegistry::new(vec![descriptor(), descriptor()]).err(),
        Some(CapabilityError::DuplicateCapability(CapabilityId::new("instrument.braids").unwrap()))
    );
    let registry = CapabilityRegistry::new(vec![descriptor()]).unwrap();
    assert_eq!(registry.create(&CapabilityId::new("instrument.braids").unwrap()), Ok(config.clone()));
    assert_eq!(
        registry.create(&CapabilityId::new("instrument.other").unwrap()),
        Err(CapabilityError::UnknownCapability(CapabilityId::new("instrument.other").unwrap()))
    );
    assert_eq!(
        registry.validate_config(&InstrumentConfig::from_parts(CapabilityId::new("instrument.braids").unwrap(), Vec::new())),
        Err(CapabilityError::InvalidConfig(CapabilityId::new("instrument.braids").unwrap()))
    );
}
