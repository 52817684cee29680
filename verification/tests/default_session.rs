use synth_control::default_session::{
    capture_default_session, DefaultSessionBlueprint, DefaultSessionError, PatchCreationBlueprint,
    PatchCreationError,
};
use synth_control::domain::{CapabilityId, MidiChannel, MixerTrackId, ParameterId, PatchId, MAX_ACTIVE_PATCHES};
use synth_control::interaction::{PatchControlId, TopLevelContext};
use synth_control::patch::{ChoiceValue, InstrumentConfig, Patch, PatchOutput, VoiceLimit, VoicePolicy};
use synth_control::registry::{CapabilityDescriptor, CapabilityError, CapabilityRegistry, EffectCapabilityRegistry};

const HIDEF_CAPABILITY_ID: &str = "instrument.hidef-soundfont";
const BRAIDS_CAPABILITY_ID: &str = "instrument.braids";

fn choice(parameter: &str, value: &str) -> ChoiceValue {
    ChoiceValue { parameter_id: ParameterId::new(parameter).unwrap(), choice_id: value.to_owned() }
}

fn soundfont_descriptor() -> CapabilityDescriptor {
    CapabilityDescriptor::new(
        VoicePolicy::FixedPerPatch { voices: 32 },
        InstrumentConfig::from_parts(
            CapabilityId::new(HIDEF_CAPABILITY_ID).unwrap(),
            vec![choice("soundfont.preset", "0:0")],
        ),
        vec![choice("soundfont.preset", "0:1"), choice("soundfont.preset", "0:2")],
    )
}

fn braids_descriptor() -> CapabilityDescriptor {
    CapabilityDescriptor::new(
        VoicePolicy::FixedPerPatch { voices: 8 },
        InstrumentConfig::from_parts(
            CapabilityId::new(BRAIDS_CAPABILITY_ID).unwrap(),
            vec![choice("braids.shape", "csaw")],
        ),
        vec![choice("braids.shape", "fm")],
    )
}

fn production_capability_registry() -> CapabilityRegistry {
    CapabilityRegistry::new(vec![soundfont_descriptor(), braids_descriptor()]).unwrap()
}

fn blueprint() -> DefaultSessionBlueprint {
    DefaultSessionBlueprint::new(CapabilityId::new(HIDEF_CAPABILITY_ID).unwrap())
}

fn creation_blueprint() -> PatchCreationBlueprint {
    PatchCreationBlueprint::resolve(blueprint().instrument_capability_id(), &production_capability_registry()).unwrap()
}

#[test]
fn registry_and_provider_order_cannot_change_the_declared_default() {
    let registry = CapabilityRegistry::new(vec![braids_descriptor(), soundfont_descriptor()]).unwrap();
    let state = capture_default_session(&blueprint(), &registry, EffectCapabilityRegistry::empty()).unwrap();
    assert_eq!(state.patches()[0].instrument_config().capability_id().as_str(), HIDEF_CAPABILITY_ID);
}

#[test]
fn deterministic_creation_candidate_uses_monotonic_identity_and_append_routing() {
    let blueprint = creation_blueprint();
    let existing = Patch::new(
        PatchId::new(7).unwrap(),
        "Existing".to_owned(),
        blueprint.instrument_config().clone(),
        MidiChannel::new(0).unwrap(),
        PatchOutput::default(),
    );
    let candidate = blueprint.candidate(&vec![existing]).unwrap();

    assert_eq!(candidate.id(), PatchId::new(8).unwrap());
    assert_eq!(candidate.name(), "Patch 8");
    assert_eq!(candidate.channel(), MidiChannel::new(1).unwrap());
    assert_eq!(candidate.output().track_id(), MixerTrackId::new(1).unwrap());
    assert_eq!(candidate.voice_limit(), VoiceLimit::seeded_from(blueprint.voice_policy()));
    assert!(candidate.effect_slots().iter().all(Option::is_none));
}

#[test]
fn sparse_identity_capacity_and_exhaustion_are_checked_independently() {
    let blueprint = creation_blueprint();
    let fixture = |id: u32, channel: u8| {
        Patch::new(
            PatchId::new(id).unwrap(),
            format!("Fixture {id}"),
            blueprint.instrument_config().clone(),
            MidiChannel::new(channel).unwrap(),
            PatchOutput::to_track(MixerTrackId::new(channel).unwrap()),
        )
    };
    let sparse = vec![fixture(2, 0), fixture(11, 1)];
    let candidate = blueprint.candidate(&sparse).unwrap();
    assert_eq!(candidate.id(), PatchId::new(12).unwrap());
    assert_eq!(candidate.channel(), MidiChannel::new(2).unwrap());

    let fifteen = (0..MAX_ACTIVE_PATCHES - 1)
        .map(|index| fixture((index + 1) as u32, index as u8))
        .collect::<Vec<_>>();
    let sixteenth = blueprint.candidate(&fifteen).unwrap();
    assert_eq!(sixteenth.id(), PatchId::new(16).unwrap());
    assert_eq!(sixteenth.channel(), MidiChannel::new(15).unwrap());
    assert_eq!(sixteenth.output().track_id(), MixerTrackId::new(15).unwrap());

    let full = (0..MAX_ACTIVE_PATCHES)
        .map(|index| fixture((index + 1) as u32, index as u8))
        .collect::<Vec<_>>();
    assert_eq!(blueprint.candidate(&full), Err(PatchCreationError::CapacityReached));
    assert_eq!(
        blueprint.candidate(&vec![fixture(u32::MAX, 0)]),
        Err(PatchCreationError::IdentityExhausted)
    );
}

#[test]
fn missing_declared_capability_is_typed_and_never_substituted() {
    let registry = CapabilityRegistry::new(vec![braids_descriptor()]).unwrap();
    let error = capture_default_session(&blueprint(), &registry, EffectCapabilityRegistry::empty()).unwrap_err();
    assert!(matches!(
        error,
        DefaultSessionError::Capability(CapabilityError::UnknownCapability(ref id))
            if id.as_str() == HIDEF_CAPABILITY_ID
    ));
}

#[test]
fn default_session_holds_one_init_patch_and_opens_patch_on_its_engine() {
    let registry = production_capability_registry();
    let state = capture_default_session(&blueprint(), &registry, EffectCapabilityRegistry::empty()).unwrap();
    assert_eq!(state.patches().len(), 1);
    let patch = &state.patches()[0];
    assert_eq!(patch.id(), PatchId::new(1).unwrap());
    assert_eq!(patch.name(), "INIT");
    assert_eq!(patch.channel(), MidiChannel::new(0).unwrap());
    assert_eq!(patch.output(), PatchOutput::default());
    assert_eq!(patch.voice_limit().value(), 32);
    assert!(patch.effect_slots().iter().all(Option::is_none));
    assert_eq!(state.context(), TopLevelContext::Patch);
    assert_eq!(state.interaction().patch_control_focus(), Some(PatchControlId::Engine));
    assert_eq!(state.generation(), 2);
}

#[test]
fn structural_choice_candidate_selects_the_declared_choice() {
    let blueprint = creation_blueprint();
    let candidate = blueprint
        .candidate_with_structural_choice(&Vec::new(), &ParameterId::new("soundfont.preset").unwrap(), &"0:2".to_owned())
        .unwrap();
    assert_eq!(candidate.instrument_config().choices()[0].choice_id, "0:2");
    assert_eq!(candidate.id(), PatchId::new(1).unwrap());
    assert_eq!(
        blueprint.candidate_with_structural_choice(
            &Vec::new(),
            &ParameterId::new("braids.shape").unwrap(),
            &"fm".to_owned()
        ),
        Err(PatchCreationError::DefaultUnavailable)
    );
}

#[test]
fn prospective_patch_has_no_route_at_capacity() {
    let blueprint = creation_blueprint();
    let id = CapabilityId::new(BRAIDS_CAPABILITY_ID).unwrap();
    let open = blueprint.prospective(3, &id).unwrap();
    assert!(open.creation_available());
    assert_eq!(open.channel(), Some(MidiChannel::new(3).unwrap()));
    assert_eq!(open.voice_limit().value(), 8);
    let full = blueprint.prospective(MAX_ACTIVE_PATCHES, &id).unwrap();
    assert!(!full.creation_available());
    assert_eq!(
        blueprint.prospective(0, &CapabilityId::new("instrument.absent").unwrap()),
        Err(PatchCreationError::DefaultUnavailable)
    );
}
