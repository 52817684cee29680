//! Installed instruments: their identity, routing, configuration and chain.
use vstd::prelude::*;
use crate::domain::{
    copy_text, text_equal, CapabilityId, EffectCapabilityId, EffectSlotId, EffectSlotIndex,
    MidiChannel, MixerTrackId, ParameterId, PatchId, MAX_EFFECT_SLOTS, MIDI_CHANNEL_COUNT,
};

verus! {

/// The voice ceiling of an engine that manages its own polyphony, and the
/// largest voice limit any Patch may hold.
pub const ENGINE_MANAGED_VOICE_LIMIT: u16 = 64;

/// The smallest voice limit a Patch may hold.
pub const VOICE_LIMIT_MINIMUM: u16 = 1;

/// The fine step of a voice-limit edit.
pub const VOICE_LIMIT_FINE_STEP: u16 = 1;

/// The coarse step of a voice-limit edit.
pub const VOICE_LIMIT_COARSE_STEP: u16 = 8;

/// What an instrument capability declares about its polyphony.
#[derive(Clone, Copy, Debug, PartialEq, Eq, Hash, Structural)]
pub enum VoicePolicy {
    /// The engine allocates voices itself, up to the largest voice limit.
    EngineManaged,
    /// The engine renders a fixed number of voices per Patch.
    FixedPerPatch { voices: u16 },
}

impl View for VoicePolicy {
    type V = u16;

    open spec fn view(&self) -> u16 {
        match self {
            VoicePolicy::EngineManaged => ENGINE_MANAGED_VOICE_LIMIT,
            VoicePolicy::FixedPerPatch { voices } => *voices,
        }
    }
}

impl VoicePolicy {
    /// The number of voices the engine can sound at once.
    pub fn ceiling(self) -> (r: u16)
        ensures
            r == self@,
    {
        match self {
            VoicePolicy::EngineManaged => ENGINE_MANAGED_VOICE_LIMIT,
            VoicePolicy::FixedPerPatch { voices } => voices,
        }
    }
}

/// The voice limit a Patch starts from under an engine with `ceiling`
/// voices: the ceiling, held within the declared bounds.
pub open spec fn seeded_limit(ceiling: u16) -> u16 {
    if ceiling < VOICE_LIMIT_MINIMUM {
        VOICE_LIMIT_MINIMUM
    } else if ceiling > ENGINE_MANAGED_VOICE_LIMIT {
        ENGINE_MANAGED_VOICE_LIMIT
    } else {
        ceiling
    }
}

/// A limit outside the declared voice-limit bounds.
#[derive(Clone, Copy, Debug, PartialEq, Eq, Structural)]
pub enum VoiceLimitError {
    OutOfRange,
}

/// The bounds and steps of a voice-limit edit.
#[derive(Clone, Copy, Debug, PartialEq, Eq, Structural)]
pub struct VoiceLimitDescriptor {
    pub minimum: u16,
    pub maximum: u16,
    pub fine_step: u16,
    pub coarse_step: u16,
}

impl VoiceLimitDescriptor {
    pub fn minimum(self) -> (r: u16)
        ensures
            r == self.minimum,
    {
        self.minimum
    }

    pub fn maximum(self) -> (r: u16)
        ensures
            r == self.maximum,
    {
        self.maximum
    }

    pub fn fine_step(self) -> (r: u16)
        ensures
            r == self.fine_step,
    {
        self.fine_step
    }

    pub fn coarse_step(self) -> (r: u16)
        ensures
            r == self.coarse_step,
    {
        self.coarse_step
    }
}

/// The ceiling on simultaneously sounding notes of one Patch.
#[derive(Clone, Copy, Debug, PartialEq, Eq, Hash, Structural)]
pub struct VoiceLimit(u16);

impl View for VoiceLimit {
    type V = u16;

    closed spec fn view(&self) -> u16 {
        self.0
    }
}

impl VoiceLimit {
    /// The largest voice limit.
    pub const MAXIMUM: u16 = 64;

    /// The smallest voice limit.
    pub const MINIMUM: u16 = 1;

    #[verifier::type_invariant]
    closed spec fn in_range(self) -> bool {
        VOICE_LIMIT_MINIMUM <= self.0 <= ENGINE_MANAGED_VOICE_LIMIT
    }

    /// Accepts a limit within the declared bounds.
    pub fn new(value: u16) -> (r: Result<VoiceLimit, VoiceLimitError>)
        ensures
            r is Ok <==> VOICE_LIMIT_MINIMUM <= value <= ENGINE_MANAGED_VOICE_LIMIT,
            r matches Ok(l) ==> l@ == value,
    {
        if value < VOICE_LIMIT_MINIMUM || value > ENGINE_MANAGED_VOICE_LIMIT {
            Err(VoiceLimitError::OutOfRange)
        } else {
            Ok(VoiceLimit(value))
        }
    }

    /// The limit a Patch starts from under `policy`.
    pub fn seeded_from(policy: VoicePolicy) -> (r: VoiceLimit)
        ensures
            r@ == seeded_limit(policy@),
    {
        let ceiling = policy.ceiling();
        if ceiling < VOICE_LIMIT_MINIMUM {
            VoiceLimit(VOICE_LIMIT_MINIMUM)
        } else if ceiling > ENGINE_MANAGED_VOICE_LIMIT {
            VoiceLimit(ENGINE_MANAGED_VOICE_LIMIT)
        } else {
            VoiceLimit(ceiling)
        }
    }

    pub fn value(self) -> (r: u16)
        ensures
            r == self@,
            VOICE_LIMIT_MINIMUM <= r <= ENGINE_MANAGED_VOICE_LIMIT,
    {
        proof {
            use_type_invariant(self);
        }
        self.0
    }

    /// The bounds and steps every voice-limit edit uses.
    pub fn descriptor() -> (r: VoiceLimitDescriptor)
        ensures
            r.minimum == VOICE_LIMIT_MINIMUM,
            r.maximum == ENGINE_MANAGED_VOICE_LIMIT,
            r.fine_step == VOICE_LIMIT_FINE_STEP,
            r.coarse_step == VOICE_LIMIT_COARSE_STEP,
    {
        VoiceLimitDescriptor {
            minimum: VOICE_LIMIT_MINIMUM,
            maximum: ENGINE_MANAGED_VOICE_LIMIT,
            fine_step: VOICE_LIMIT_FINE_STEP,
            coarse_step: VOICE_LIMIT_COARSE_STEP,
        }
    }
}

/// What an engine swap did to a Patch's voice limit.
#[derive(Clone, Copy, Debug, PartialEq, Eq, Structural)]
pub enum VoiceLimitCarryOver {
    /// The limit fits the new engine and is kept.
    Kept { limit: VoiceLimit },
    /// The limit exceeded the new engine's ceiling and was clamped to it.
    Clamped { previous: VoiceLimit, limit: VoiceLimit },
}

/// The limit a Patch holds after a swap.
pub open spec fn carried_limit(c: VoiceLimitCarryOver) -> VoiceLimit {
    match c {
        VoiceLimitCarryOver::Kept { limit } => limit,
        VoiceLimitCarryOver::Clamped { limit, .. } => limit,
    }
}

impl VoiceLimitCarryOver {
    /// The limit the Patch holds after the swap.
    pub fn limit(self) -> (r: VoiceLimit)
        ensures
            r == carried_limit(self),
    {
        match self {
            VoiceLimitCarryOver::Kept { limit } => limit,
            VoiceLimitCarryOver::Clamped { limit, .. } => limit,
        }
    }
}

/// One chosen value of a choice parameter.
#[derive(Clone, Debug, PartialEq, Eq)]
pub struct ChoiceValue {
    pub parameter_id: ParameterId,
    pub choice_id: String,
}

/// The mathematical content of a choice value.
pub struct ChoiceView {
    pub parameter_id: Seq<char>,
    pub choice_id: Seq<char>,
}

pub open spec fn choice_views(v: Seq<ChoiceValue>) -> Seq<ChoiceView> {
    v.map_values(|c: ChoiceValue| ChoiceView { parameter_id: c.parameter_id@, choice_id: c.choice_id@ })
}

/// The mathematical content of an instrument configuration.
pub struct ConfigView {
    pub capability_id: Seq<char>,
    pub choices: Seq<ChoiceView>,
}

/// The chosen values with parameter `parameter` set to `choice`.
pub open spec fn choices_with(c: Seq<ChoiceView>, parameter: Seq<char>, choice: Seq<char>) -> Seq<ChoiceView> {
    c.map_values(
        |v: ChoiceView|
            if v.parameter_id == parameter {
                ChoiceView { parameter_id: v.parameter_id, choice_id: choice }
            } else {
                v
            },
    )
}

/// The configuration with parameter `parameter` set to `choice`, or `None`
/// when the configuration does not set that parameter.
pub open spec fn config_with_choice(c: ConfigView, parameter: Seq<char>, choice: Seq<char>) -> Option<ConfigView> {
    if exists|k: int| 0 <= k < c.choices.len() && #[trigger] c.choices[k].parameter_id == parameter {
        Some(ConfigView { capability_id: c.capability_id, choices: choices_with(c.choices, parameter, choice) })
    } else {
        None
    }
}

/// The complete configuration of one instrument: its capability and the
/// chosen value of each of its choice parameters.
#[derive(Clone, Debug, PartialEq, Eq)]
pub struct InstrumentConfig {
    capability_id: CapabilityId,
    choices: Vec<ChoiceValue>,
}

impl View for InstrumentConfig {
    type V = ConfigView;

    closed spec fn view(&self) -> ConfigView {
        ConfigView { capability_id: self.capability_id@, choices: choice_views(self.choices@) }
    }
}

/// Copies choice values, keeping their content.
pub fn copy_choices(v: &Vec<ChoiceValue>) -> (r: Vec<ChoiceValue>)
    ensures
        choice_views(r@) == choice_views(v@),
{
    let mut r: Vec<ChoiceValue> = Vec::new();
    let mut i: usize = 0;
    while i < v.len()
        invariant
            i <= v@.len(),
            r@.len() == i,
            forall|k: int| 0 <= k < i ==> (#[trigger] r@[k]).parameter_id@ == v@[k].parameter_id@ && r@[k].choice_id@ == v@[k].choice_id@,
        decreases v.len() - i,
    {
        let c = &v[i];
        r.push(ChoiceValue { parameter_id: c.parameter_id.duplicate(), choice_id: copy_text(&c.choice_id) });
        i = i + 1;
    }
    assert(choice_views(r@) =~= choice_views(v@));
    r
}

impl InstrumentConfig {
    /// Assembles a configuration from its capability and chosen values.
    pub fn from_parts(capability_id: CapabilityId, choices: Vec<ChoiceValue>) -> (r: InstrumentConfig)
        ensures
            r@ == (ConfigView { capability_id: capability_id@, choices: choice_views(choices@) }),
    {
        InstrumentConfig { capability_id, choices }
    }

    pub fn capability_id(&self) -> (r: &CapabilityId)
        ensures
            r@ == self@.capability_id,
    {
        &self.capability_id
    }

    /// Every chosen value, in descriptor order.
    pub fn choices(&self) -> (r: &Vec<ChoiceValue>)
        ensures
            choice_views(r@) == self@.choices,
    {
        &self.choices
    }

    /// Copies the configuration, keeping its content.
    pub fn duplicate(&self) -> (r: InstrumentConfig)
        ensures
            r@ == self@,
    {
        InstrumentConfig {
            capability_id: self.capability_id.duplicate(),
            choices: copy_choices(&self.choices),
        }
    }

    /// The configuration with parameter `parameter_id` set to `choice_id`,
    /// or `None` when the configuration does not set that parameter.
    pub fn with_choice(&self, parameter_id: &ParameterId, choice_id: &String) -> (r: Option<InstrumentConfig>)
        ensures
            match r {
                Some(c) => config_with_choice(self@, parameter_id@, choice_id@) == Some(c@),
                None => config_with_choice(self@, parameter_id@, choice_id@) is None,
            },
            r is Some <==> exists|k: int| 0 <= k < self@.choices.len() && #[trigger] self@.choices[k].parameter_id == parameter_id@,
            r matches Some(c) ==> c@.capability_id == self@.capability_id && c@.choices.len() == self@.choices.len()
                && forall|k: int| 0 <= k < c@.choices.len() ==> (#[trigger] c@.choices[k]).parameter_id == self@.choices[k].parameter_id
                    && c@.choices[k].choice_id == (if self@.choices[k].parameter_id == parameter_id@ { choice_id@ } else { self@.choices[k].choice_id }),
    {
        let mut found = false;
        let mut out: Vec<ChoiceValue> = Vec::new();
        let mut i: usize = 0;
        while i < self.choices.len()
            invariant
                i <= self.choices@.len(),
                out@.len() == i,
                found == exists|k: int| 0 <= k < i && #[trigger] choice_views(self.choices@)[k].parameter_id == parameter_id@,
                forall|k: int| 0 <= k < i ==> (#[trigger] out@[k]).parameter_id@ == self.choices@[k].parameter_id@
                    && out@[k].choice_id@ == (if self.choices@[k].parameter_id@ == parameter_id@ { choice_id@ } else { self.choices@[k].choice_id@ }),
            decreases self.choices.len() - i,
        {
            let c = &self.choices[i];
            let hit = c.parameter_id.same_as(parameter_id);
            let value = if hit { copy_text(choice_id) } else { copy_text(&c.choice_id) };
            out.push(ChoiceValue { parameter_id: c.parameter_id.duplicate(), choice_id: value });
            proof {
                if hit {
                    assert(choice_views(self.choices@)[i as int].parameter_id == parameter_id@);
                }
            }
            found = found || hit;
            i = i + 1;
        }
        proof {
            let cv = choice_views(self.choices@);
            assert(self@.choices == cv);
            if found {
                let k = choose|k: int| 0 <= k < i && #[trigger] cv[k].parameter_id == parameter_id@;
                assert(self@.choices[k].parameter_id == parameter_id@);
            } else {
                assert forall|k: int| 0 <= k < self@.choices.len() implies #[trigger] self@.choices[k].parameter_id
                    != parameter_id@ by {
                    assert(cv[k].parameter_id != parameter_id@);
                }
            }
        }
        if found {
            let r = InstrumentConfig { capability_id: self.capability_id.duplicate(), choices: out };
            assert(r@.choices =~= choices_with(self@.choices, parameter_id@, choice_id@));
            Some(r)
        } else {
            None
        }
    }

    /// Compares two configurations by content.
    pub fn same_as(&self, other: &InstrumentConfig) -> (r: bool)
        ensures
            r == (self@ == other@),
    {
        if !self.capability_id.same_as(&other.capability_id) {
            return false;
        }
        if self.choices.len() != other.choices.len() {
            proof {
                assert(choice_views(self.choices@).len() != choice_views(other.choices@).len());
            }
            return false;
        }
        let mut i: usize = 0;
        while i < self.choices.len()
            invariant
                i <= self.choices@.len(),
                self.choices@.len() == other.choices@.len(),
                self.capability_id@ == other.capability_id@,
                forall|k: int| 0 <= k < i ==> #[trigger] choice_views(self.choices@)[k]
                    == choice_views(other.choices@)[k],
            decreases self.choices.len() - i,
        {
            let a = &self.choices[i];
            let b = &other.choices[i];
            if !(a.parameter_id.same_as(&b.parameter_id) && text_equal(&a.choice_id, &b.choice_id)) {
                proof {
                    assert(choice_views(self.choices@)[i as int] != choice_views(other.choices@)[i as int]);
                }
                return false;
            }
            i = i + 1;
        }
        assert(choice_views(self.choices@) =~= choice_views(other.choices@));
        true
    }
}

/// The mathematical content of one occupied effect position.
pub struct EffectConfigView {
    pub slot_id: EffectSlotId,
    pub capability_id: Seq<char>,
}

/// One effect occupying a chain position, with its stable instance identity.
#[derive(Clone, Debug, PartialEq, Eq)]
pub struct PostEffectConfig {
    slot_id: EffectSlotId,
    capability_id: EffectCapabilityId,
}

impl View for PostEffectConfig {
    type V = EffectConfigView;

    closed spec fn view(&self) -> EffectConfigView {
        EffectConfigView { slot_id: self.slot_id, capability_id: self.capability_id@ }
    }
}

impl PostEffectConfig {
    pub fn from_parts(slot_id: EffectSlotId, capability_id: EffectCapabilityId) -> (r: PostEffectConfig)
        ensures
            r@ == (EffectConfigView { slot_id, capability_id: capability_id@ }),
    {
        PostEffectConfig { slot_id, capability_id }
    }

    pub fn slot_id(&self) -> (r: EffectSlotId)
        ensures
            r == self@.slot_id,
    {
        self.slot_id
    }

    pub fn capability_id(&self) -> (r: &EffectCapabilityId)
        ensures
            r@ == self@.capability_id,
    {
        &self.capability_id
    }

    pub fn duplicate(&self) -> (r: PostEffectConfig)
        ensures
            r@ == self@,
    {
        PostEffectConfig { slot_id: self.slot_id, capability_id: self.capability_id.duplicate() }
    }
}

pub open spec fn slot_view(s: Option<PostEffectConfig>) -> Option<EffectConfigView> {
    match s {
        Some(c) => Some(c@),
        None => None,
    }
}

pub open spec fn slot_views(v: Seq<Option<PostEffectConfig>>) -> Seq<Option<EffectConfigView>> {
    v.map_values(|s: Option<PostEffectConfig>| slot_view(s))
}

/// No effect instance identity occupies two positions.
pub open spec fn chain_identities_unique(c: Seq<Option<EffectConfigView>>) -> bool {
    forall|i: int, j: int|
        0 <= i < j < c.len() && c[i] is Some && c[j] is Some ==> c[i]->0.slot_id != c[j]->0.slot_id
}

/// The route from one Patch to its mixer track.
#[derive(Clone, Copy, Debug, PartialEq, Eq, Hash, Structural)]
pub struct PatchOutput {
    track_id: MixerTrackId,
}

impl View for PatchOutput {
    type V = MixerTrackId;

    closed spec fn view(&self) -> MixerTrackId {
        self.track_id
    }
}

impl PatchOutput {
    pub fn to_track(track_id: MixerTrackId) -> (r: PatchOutput)
        ensures
            r@ == track_id,
            r == PatchOutput::with_track(track_id),
    {
        PatchOutput { track_id }
    }

    pub fn track_id(self) -> (r: MixerTrackId)
        ensures
            r == self@,
    {
        self.track_id
    }

    /// The route to the neighbouring track, refusing to step past either end
    /// of the fixed bank.
    pub fn with_adjacent_track(self, next: bool) -> (r: Option<PatchOutput>)
        ensures
            match r {
                Some(o) => o == PatchOutput::spec_to(
                    (if next {
                        self@@ + 1
                    } else {
                        self@@ - 1
                    }) as u8,
                ) && (if next {
                    self@@ + 1 < MIDI_CHANNEL_COUNT
                } else {
                    self@@ > 0
                }),
                None => if next {
                    self@@ + 1 >= MIDI_CHANNEL_COUNT
                } else {
                    self@@ == 0
                },
            },
    {
        let current = self.track_id.value();
        if next {
            if current + 1 < MIDI_CHANNEL_COUNT {
                Some(PatchOutput::to_track(MixerTrackId::from_index(current + 1)))
            } else {
                None
            }
        } else if current > 0 {
            Some(PatchOutput::to_track(MixerTrackId::from_index(current - 1)))
        } else {
            None
        }
    }

    /// The route to `track_id`.
    pub closed spec fn with_track(track_id: MixerTrackId) -> PatchOutput {
        PatchOutput { track_id }
    }

    pub broadcast proof fn lemma_with_track(track_id: MixerTrackId)
        ensures
            (#[trigger] PatchOutput::with_track(track_id))@ == track_id,
    {
    }

    /// The route to the track numbered `index`.
    pub open spec fn spec_to(index: u8) -> PatchOutput {
        PatchOutput::with_track(MixerTrackId::spec_from(index))
    }
}

impl Default for PatchOutput {
    /// Routes to the first track.
    fn default() -> (r: PatchOutput)
        ensures
            r@@ == 0,
            r == PatchOutput::spec_to(0),
    {
        PatchOutput::to_track(MixerTrackId::from_index(0))
    }
}

/// A failure to change a Patch's effect chain.
#[derive(Clone, Copy, Debug, PartialEq, Eq, Structural)]
pub enum EffectChainError {
    DuplicateSlot,
}



/// The mathematical content of a Patch.
pub struct PatchView {
    pub id: PatchId,
    pub name: Seq<char>,
    pub instrument_config: ConfigView,
    pub channel: MidiChannel,
    pub output: PatchOutput,
    pub effects: Seq<Option<EffectConfigView>>,
    pub voice_limit: u16,
}

/// One installed instrument.
#[derive(Debug, PartialEq, Eq)]
pub struct Patch {
    id: PatchId,
    name: String,
    instrument_config: InstrumentConfig,
    channel: MidiChannel,
    output: PatchOutput,
    effects: Vec<Option<PostEffectConfig>>,
    voice_limit: VoiceLimit,
}

impl View for Patch {
    type V = PatchView;

    closed spec fn view(&self) -> PatchView {
        PatchView {
            id: self.id,
            name: self.name@,
            instrument_config: self.instrument_config@,
            channel: self.channel,
            output: self.output,
            effects: slot_views(self.effects@),
            voice_limit: self.voice_limit@,
        }
    }
}

/// The content of every Patch, in order.
pub open spec fn patch_views(p: Seq<Patch>) -> Seq<PatchView> {
    p.map_values(|x: Patch| x@)
}

/// A Patch is well formed when its chain has one entry per position and no
/// instance identity twice.
pub open spec fn patch_well_formed(p: PatchView) -> bool {
    &&& p.effects.len() == MAX_EFFECT_SLOTS
    &&& chain_identities_unique(p.effects)
}

fn copy_slots(v: &Vec<Option<PostEffectConfig>>) -> (r: Vec<Option<PostEffectConfig>>)
    ensures
        slot_views(r@) == slot_views(v@),
{
    let mut r: Vec<Option<PostEffectConfig>> = Vec::new();
    let mut i: usize = 0;
    while i < v.len()
        invariant
            i <= v@.len(),
            r@.len() == i,
            forall|k: int| 0 <= k < i ==> slot_view(#[trigger] r@[k]) == slot_view(v@[k]),
        decreases v.len() - i,
    {
        let s = match &v[i] {
            Some(c) => Some(c.duplicate()),
            None => None,
        };
        r.push(s);
        i = i + 1;
    }
    assert(slot_views(r@) =~= slot_views(v@));
    r
}

impl Clone for Patch {
    fn clone(&self) -> (r: Patch)
        ensures
            r@ == self@,
    {
        self.duplicate()
    }
}

impl Patch {
    /// Every Patch has one chain entry per position and no instance identity
    /// twice.
    #[verifier::type_invariant]
    closed spec fn well_formed(self) -> bool {
        patch_well_formed(self@)
    }

    /// A new Patch with an empty chain and the engine-managed voice ceiling.
    pub fn new(
        id: PatchId,
        name: String,
        instrument_config: InstrumentConfig,
        channel: MidiChannel,
        output: PatchOutput,
    ) -> (r: Patch)
        ensures
            r@.id == id,
            r@.name == name@,
            r@.instrument_config == instrument_config@,
            r@.channel == channel,
            r@.output == output,
            r@.effects == Seq::new(MAX_EFFECT_SLOTS as nat, |i: int| None::<EffectConfigView>),
            r@.voice_limit == ENGINE_MANAGED_VOICE_LIMIT,
            patch_well_formed(r@),
    {
        let mut effects: Vec<Option<PostEffectConfig>> = Vec::new();
        let mut i: usize = 0;
        while i < MAX_EFFECT_SLOTS
            invariant
                i <= MAX_EFFECT_SLOTS,
                effects@.len() == i,
                forall|k: int| 0 <= k < i ==> effects@[k] is None,
            decreases MAX_EFFECT_SLOTS - i,
        {
            effects.push(None);
            i = i + 1;
        }
        let r = Patch {
            id,
            name,
            instrument_config,
            channel,
            output,
            effects,
            voice_limit: VoiceLimit(ENGINE_MANAGED_VOICE_LIMIT),
        };
        assert(slot_views(r.effects@) =~= Seq::new(
            MAX_EFFECT_SLOTS as nat,
            |i: int| None::<EffectConfigView>,
        ));
        r
    }

    pub fn id(&self) -> (r: PatchId)
        ensures
            r == self@.id,
    {
        self.id
    }

    pub fn name(&self) -> (r: &str)
        ensures
            r@ == self@.name,
    {
        self.name.as_str()
    }

    pub fn instrument_config(&self) -> (r: &InstrumentConfig)
        ensures
            r@ == self@.instrument_config,
    {
        &self.instrument_config
    }

    pub fn channel(&self) -> (r: MidiChannel)
        ensures
            r == self@.channel,
    {
        self.channel
    }

    pub fn output(&self) -> (r: PatchOutput)
        ensures
            r == self@.output,
    {
        self.output
    }

    /// Every chain position, occupied or empty.
    pub fn effect_slots(&self) -> (r: &Vec<Option<PostEffectConfig>>)
        ensures
            slot_views(r@) == self@.effects,
            patch_well_formed(self@),
    {
        proof {
            use_type_invariant(self);
        }
        &self.effects
    }

    pub fn voice_limit(&self) -> (r: VoiceLimit)
        ensures
            r@ == self@.voice_limit,
    {
        self.voice_limit
    }

    /// Subscribes the Patch to another MIDI channel.
    pub fn set_channel(&mut self, channel: MidiChannel)
        ensures
            final(self)@ == (PatchView { channel, ..old(self)@ }),
    {
        proof {
            use_type_invariant(&*self);
        }
        self.channel = channel;
    }

    /// Routes the Patch to another mixer track.
    pub fn set_output(&mut self, output: PatchOutput)
        ensures
            final(self)@ == (PatchView { output, ..old(self)@ }),
    {
        proof {
            use_type_invariant(&*self);
        }
        self.output = output;
    }

    /// Sets the voice limit, refusing a value outside the declared bounds.
    pub fn set_voice_limit(&mut self, value: u16) -> (r: Result<(), VoiceLimitError>)
        ensures
            r is Ok <==> VOICE_LIMIT_MINIMUM <= value <= ENGINE_MANAGED_VOICE_LIMIT,
            r is Ok ==> final(self)@ == (PatchView { voice_limit: value, ..old(self)@ }),
            r is Err ==> final(self)@ == old(self)@,
    {
        proof {
            use_type_invariant(&*self);
        }
        let limit = VoiceLimit::new(value)?;
        self.voice_limit = limit;
        Ok(())
    }

    /// Seeds the voice limit from the engine's own ceiling.
    pub fn seed_voice_limit(&mut self, policy: VoicePolicy)
        ensures
            final(self)@ == (PatchView { voice_limit: seeded_limit(policy@), ..old(self)@ }),
    {
        proof {
            use_type_invariant(&*self);
        }
        self.voice_limit = VoiceLimit::seeded_from(policy);
    }

    /// Replaces the instrument, clamping the voice limit to the new engine's
    /// ceiling, and reports what happened to the limit.
    pub fn replace_instrument_config(&mut self, config: InstrumentConfig, policy: VoicePolicy) -> (r:
        VoiceLimitCarryOver)
        ensures
            final(self)@ == (PatchView {
                instrument_config: config@,
                voice_limit: if old(self)@.voice_limit <= seeded_limit(policy@) {
                    old(self)@.voice_limit
                } else {
                    seeded_limit(policy@)
                },
                ..old(self)@
            }),
            carried_limit(r)@ == final(self)@.voice_limit,
            r is Clamped <==> old(self)@.voice_limit > seeded_limit(policy@),
            r matches VoiceLimitCarryOver::Clamped { previous, .. } ==> previous@ == old(self)@.voice_limit,
    {
        proof {
            use_type_invariant(&*self);
        }
        self.instrument_config = config;
        let ceiling = VoiceLimit::seeded_from(policy);
        let previous = self.voice_limit;
        if previous.value() > ceiling.value() {
            self.voice_limit = ceiling;
            VoiceLimitCarryOver::Clamped { previous, limit: ceiling }
        } else {
            VoiceLimitCarryOver::Kept { limit: previous }
        }
    }

    /// Occupies, replaces or clears one chain position, refusing an occupant
    /// whose instance identity already occupies another position.
    pub fn set_slot_occupancy(&mut self, slot: EffectSlotIndex, occupant: Option<PostEffectConfig>) -> (r:
        Result<(), EffectChainError>)
        ensures
            r is Err <==> (occupant is Some && exists|k: int|
                0 <= k < old(self)@.effects.len() && k != slot@ && #[trigger] old(self)@.effects[k] is Some
                    && old(self)@.effects[k]->0.slot_id == occupant->0@.slot_id),
            r is Ok ==> final(self)@ == (PatchView {
                effects: old(self)@.effects.update(slot@ as int, slot_view(occupant)),
                ..old(self)@
            }),
            r is Err ==> final(self)@ == old(self)@,
    {
        proof {
            use_type_invariant(&*self);
        }
        let index = slot.index();
        match &occupant {
            Some(config) => {
                let mut k: usize = 0;
                while k < self.effects.len()
                    invariant
                        k <= self.effects@.len(),
                        self.effects@.len() == MAX_EFFECT_SLOTS,
                        index == slot@ as usize,
                        index < MAX_EFFECT_SLOTS,
                        occupant == Some(*config),
                        forall|j: int| 0 <= j < k && j != slot@ && #[trigger] slot_views(self.effects@)[j] is Some
                            ==> slot_views(self.effects@)[j]->0.slot_id != config@.slot_id,
                    decreases self.effects.len() - k,
                {
                    if k != index {
                        match &self.effects[k] {
                            Some(existing) => {
                                if existing.slot_id().same_as(config.slot_id()) {
                                    assert(slot_views(self.effects@)[k as int] is Some);
                                    return Err(EffectChainError::DuplicateSlot);
                                }
                            },
                            None => {},
                        }
                    }
                    k = k + 1;
                }
            },
            None => {},
        }
        let ghost before = self.effects@;
        let mut effects = copy_slots(&self.effects);
        effects.set(index, occupant);
        assert(slot_views(effects@) =~= slot_views(before).update(index as int, slot_view(occupant)));
        self.effects = effects;
        Ok(())
    }

    /// Copies the Patch, keeping its content.
    pub fn duplicate(&self) -> (r: Patch)
        ensures
            r@ == self@,
    {
        proof {
            use_type_invariant(self);
        }
        Patch {
            id: self.id,
            name: copy_text(&self.name),
            instrument_config: self.instrument_config.duplicate(),
            channel: self.channel,
            output: self.output,
            effects: copy_slots(&self.effects),
            voice_limit: self.voice_limit,
        }
    }
}

} // verus!
