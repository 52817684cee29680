//! Product-authored defaults for creating Patches and the default session.
use vstd::prelude::*;
use vstd::string::StringExecFns;
use crate::domain::{
    owned_text, CapabilityId, MidiChannel, MixerTrackId, ParameterId, PatchId, MAX_ACTIVE_PATCHES,
    MAX_EFFECT_SLOTS,
};
use crate::patch::{
    patch_views, config_with_choice, ChoiceView, ConfigView, EffectConfigView, InstrumentConfig, Patch, PatchOutput, PatchView,
    seeded_limit, PostEffectConfig, VoiceLimit, VoicePolicy,
};
use crate::registry::{
    config_valid, descriptor_index, CapabilityError, CapabilityRegistry, DescriptorView, EffectCapabilityRegistry,
};
use crate::app_event::AppEvent;
use crate::app_state::{patch_index_of, slots_accepted_before, startup_state, state_wf, AppState, StateView};
use crate::focus::{context_selected, installed_interaction};
use crate::interaction::TopLevelContext;
use crate::rejection::EventRejection;
use crate::transitions::seeded_patches;

verus! {

/// The text of one decimal digit.
pub open spec fn digit_text(d: nat) -> Seq<char> {
    if d == 0 {
        "0"@
    } else if d == 1 {
        "1"@
    } else if d == 2 {
        "2"@
    } else if d == 3 {
        "3"@
    } else if d == 4 {
        "4"@
    } else if d == 5 {
        "5"@
    } else if d == 6 {
        "6"@
    } else if d == 7 {
        "7"@
    } else if d == 8 {
        "8"@
    } else {
        "9"@
    }
}

/// The decimal rendering of a natural number, most significant digit first.
pub open spec fn decimal_text(n: nat) -> Seq<char>
    decreases n,
{
    if n < 10 {
        digit_text(n)
    } else {
        decimal_text(n / 10) + digit_text(n % 10)
    }
}

fn digit_str(d: u32) -> (r: &'static str)
    requires
        d < 10,
    ensures
        r@ == digit_text(d as nat),
{
    match d {
        0 => "0",
        1 => "1",
        2 => "2",
        3 => "3",
        4 => "4",
        5 => "5",
        6 => "6",
        7 => "7",
        8 => "8",
        _ => "9",
    }
}

/// Appends the decimal rendering of `n`.
fn append_decimal(text: &mut String, n: u32)
    ensures
        final(text)@ == old(text)@ + decimal_text(n as nat),
    decreases n,
{
    if n >= 10 {
        append_decimal(text, n / 10);
    }
    text.append(digit_str(n % 10));
    proof {
        if n < 10 {
            assert(old(text)@ + decimal_text(n as nat) =~= old(text)@ + digit_text(n as nat));
        } else {
            assert(decimal_text(n as nat) == decimal_text((n / 10) as nat) + digit_text((n % 10) as nat));
        }
        assert(text@ =~= old(text)@ + decimal_text(n as nat));
    }
}

/// The name given to a created Patch.
pub open spec fn created_patch_name(id: u32) -> Seq<char> {
    "Patch "@ + decimal_text(id as nat)
}

fn patch_name(id: PatchId) -> (r: String)
    ensures
        r@ == created_patch_name(id@),
{
    let mut text = String::from_str("Patch ");
    append_decimal(&mut text, id.value());
    text
}

/// Identity-free defaults used to inspect the trailing empty Patch position.
///
/// It has no `PatchId` and no name; at active capacity its route is absent.
#[derive(Clone, Debug, PartialEq, Eq)]
pub struct ProspectivePatch {
    instrument_config: InstrumentConfig,
    channel: Option<MidiChannel>,
    output: Option<PatchOutput>,
    effects: Vec<Option<PostEffectConfig>>,
    voice_limit: VoiceLimit,
}

/// The mathematical content of a prospective Patch.
pub struct ProspectiveView {
    pub instrument_config: ConfigView,
    pub channel: Option<MidiChannel>,
    pub output: Option<PatchOutput>,
    pub effect_count: nat,
    pub effects_empty: bool,
    pub voice_limit: u16,
}

impl View for ProspectivePatch {
    type V = ProspectiveView;

    closed spec fn view(&self) -> ProspectiveView {
        ProspectiveView {
            instrument_config: self.instrument_config@,
            channel: self.channel,
            output: self.output,
            effect_count: self.effects@.len(),
            effects_empty: forall|i: int| 0 <= i < self.effects@.len() ==> self.effects@[i] is None,
            voice_limit: self.voice_limit@,
        }
    }
}

impl ProspectivePatch {
    pub fn instrument_config(&self) -> (r: &InstrumentConfig)
        ensures
            r@ == self@.instrument_config,
    {
        &self.instrument_config
    }

    pub fn channel(&self) -> (r: Option<MidiChannel>)
        ensures
            r == self@.channel,
    {
        self.channel
    }

    pub fn output(&self) -> (r: Option<PatchOutput>)
        ensures
            r == self@.output,
    {
        self.output
    }

    /// Every chain position; a prospective Patch has an empty chain.
    pub fn effect_slots(&self) -> (r: &Vec<Option<PostEffectConfig>>)
        ensures
            r@.len() == self@.effect_count,
            self@.effects_empty ==> forall|i: int| 0 <= i < r@.len() ==> r@[i] is None,
    {
        &self.effects
    }

    pub fn voice_limit(&self) -> (r: VoiceLimit)
        ensures
            r@ == self@.voice_limit,
    {
        self.voice_limit
    }

    /// A Patch can be created at this position only when it has a route.
    pub fn creation_available(&self) -> (r: bool)
        ensures
            r == (self@.channel is Some && self@.output is Some),
    {
        self.channel.is_some() && self.output.is_some()
    }
}

/// Failures to construct a creation candidate.
#[derive(Clone, Copy, Debug, PartialEq, Eq, Structural)]
pub enum PatchCreationError {
    CapacityReached,
    IdentityExhausted,
    DefaultUnavailable,
}

/// A structural choice default: the configuration selecting one choice.
#[derive(Clone, Debug, PartialEq, Eq)]
pub struct StructuralChoiceDefault {
    parameter_id: ParameterId,
    choice_id: String,
    config: InstrumentConfig,
}

/// The mathematical content of a creation blueprint.
pub struct BlueprintView {
    pub instrument_config: ConfigView,
    pub voice_policy: u16,
    pub installed_defaults: Seq<(ConfigView, u16)>,
    pub structural_choice_defaults: Seq<(Seq<char>, Seq<char>, ConfigView)>,
}

/// Immutable product-authored defaults shared by New and implicit Patch
/// creation. Registry order never participates in candidate construction.
#[derive(Clone, Debug, PartialEq, Eq)]
pub struct PatchCreationBlueprint {
    instrument_config: InstrumentConfig,
    voice_policy: VoicePolicy,
    installed_defaults: Vec<(InstrumentConfig, VoicePolicy)>,
    structural_choice_defaults: Vec<StructuralChoiceDefault>,
}

pub open spec fn installed_views(v: Seq<(InstrumentConfig, VoicePolicy)>) -> Seq<(ConfigView, u16)> {
    v.map_values(|e: (InstrumentConfig, VoicePolicy)| (e.0@, e.1@))
}

spec fn choice_default_views(v: Seq<StructuralChoiceDefault>) -> Seq<(Seq<char>, Seq<char>, ConfigView)> {
    v.map_values(|e: StructuralChoiceDefault| (e.parameter_id@, e.choice_id@, e.config@))
}

impl View for PatchCreationBlueprint {
    type V = BlueprintView;

    closed spec fn view(&self) -> BlueprintView {
        BlueprintView {
            instrument_config: self.instrument_config@,
            voice_policy: self.voice_policy@,
            installed_defaults: installed_views(self.installed_defaults@),
            structural_choice_defaults: choice_default_views(self.structural_choice_defaults@),
        }
    }
}

/// The blueprint resolved from `registry` for the descriptor at `index`.
pub open spec fn resolved_blueprint(registry: Seq<DescriptorView>, index: int) -> BlueprintView {
    BlueprintView {
        instrument_config: registry[index].default_config,
        voice_policy: registry[index].voice_policy,
        installed_defaults: registry.map_values(|d: DescriptorView| (d.default_config, d.voice_policy)),
        structural_choice_defaults: all_choice_defaults(registry),
    }
}

/// The first installed default for capability `id`, if any.
pub open spec fn installed_default_of(d: Seq<(ConfigView, u16)>, id: Seq<char>) -> Option<(ConfigView, u16)> {
    if exists|i: int| 0 <= i < d.len() && d[i].0.capability_id == id {
        let i = choose|i: int|
            0 <= i < d.len() && d[i].0.capability_id == id && forall|j: int|
                0 <= j < i ==> d[j].0.capability_id != id;
        Some(d[i])
    } else {
        None
    }
}

/// The route of the Patch appended after `count` existing ones.
pub open spec fn appended_route(count: nat) -> Option<u8> {
    if count < MAX_ACTIVE_PATCHES {
        Some(count as u8)
    } else {
        None
    }
}

/// The largest existing Patch identity, or zero.
pub open spec fn max_patch_id(p: Seq<PatchView>) -> nat
    decreases p.len(),
{
    if p.len() == 0 {
        0
    } else {
        let rest = max_patch_id(p.drop_last());
        let last = p.last().id@ as nat;
        if last > rest {
            last
        } else {
            rest
        }
    }
}


/// What creating a Patch after `existing` with capability `id` yields.
pub open spec fn candidate_outcome(b: BlueprintView, existing: Seq<PatchView>, id: Seq<char>) -> Result<
    PatchView,
    PatchCreationError,
> {
    if existing.len() >= MAX_ACTIVE_PATCHES {
        Err(PatchCreationError::CapacityReached)
    } else if installed_default_of(b.installed_defaults, id) is None {
        Err(PatchCreationError::DefaultUnavailable)
    } else if max_patch_id(existing) + 1 > u32::MAX {
        Err(PatchCreationError::IdentityExhausted)
    } else {
        let d = installed_default_of(b.installed_defaults, id)->0;
        let next = (max_patch_id(existing) + 1) as u32;
        Ok(
            PatchView {
                id: PatchId::spec_from(next),
                name: created_patch_name(next),
                instrument_config: d.0,
                channel: MidiChannel::spec_from(existing.len() as u8),
                output: PatchOutput::spec_to(existing.len() as u8),
                effects: Seq::new(MAX_EFFECT_SLOTS as nat, |i: int| None::<EffectConfigView>),
                voice_limit: seeded_limit(d.1),
            },
        )
    }
}

/// The structural choice defaults one capability contributes: for each
/// offered choice, in order, the default configuration with that choice
/// selected, where the configuration sets the parameter.
pub open spec fn choice_defaults_for(config: ConfigView, offered: Seq<ChoiceView>) -> Seq<
    (Seq<char>, Seq<char>, ConfigView),
>
    decreases offered.len(),
{
    if offered.len() == 0 {
        Seq::empty()
    } else {
        let before = choice_defaults_for(config, offered.drop_last());
        let c = offered.last();
        match config_with_choice(config, c.parameter_id, c.choice_id) {
            Some(x) => before.push((c.parameter_id, c.choice_id, x)),
            None => before,
        }
    }
}

/// The structural choice defaults of every installed capability, in
/// registry order.
pub open spec fn all_choice_defaults(d: Seq<DescriptorView>) -> Seq<(Seq<char>, Seq<char>, ConfigView)>
    decreases d.len(),
{
    if d.len() == 0 {
        Seq::empty()
    } else {
        all_choice_defaults(d.drop_last()) + choice_defaults_for(
            d.last().default_config,
            d.last().structural_choices,
        )
    }
}

impl PatchCreationBlueprint {
    /// Captures the declared instrument's default and every installed
    /// capability's default once, resolving the declared instrument only by
    /// its exact identity.
    pub fn resolve(instrument_capability_id: &CapabilityId, registry: &CapabilityRegistry) -> (r: Result<
        PatchCreationBlueprint,
        CapabilityError,
    >)
        ensures
            r is Ok <==> descriptor_index(registry@, instrument_capability_id@) is Some,
            r matches Err(e) ==> (e matches CapabilityError::UnknownCapability(x) && x@ == instrument_capability_id@),
            r matches Ok(b) ==> b@ == resolved_blueprint(
                registry@,
                descriptor_index(registry@, instrument_capability_id@)->0,
            ),
    {
        let instrument_config = registry.create(instrument_capability_id)?;
        let descriptor = match registry.descriptor(instrument_capability_id) {
            Some(d) => d,
            None => {
                return Err(CapabilityError::UnknownCapability(instrument_capability_id.duplicate()));
            },
        };
        let voice_policy = descriptor.voice_policy();
        let descriptors = registry.descriptors();
        let ghost dv = registry@;
        let mut installed_defaults: Vec<(InstrumentConfig, VoicePolicy)> = Vec::new();
        let mut structural_choice_defaults: Vec<StructuralChoiceDefault> = Vec::new();
        let mut i: usize = 0;
        while i < descriptors.len()
            invariant
                dv == registry@,
                dv == crate::registry::descriptor_views(descriptors@),
                i <= descriptors@.len(),
                installed_defaults@.len() == i,
                forall|k: int| 0 <= k < i ==> (#[trigger] installed_defaults@[k]).0@
                    == descriptors@[k]@.default_config && installed_defaults@[k].1@
                    == descriptors@[k]@.voice_policy,
                choice_default_views(structural_choice_defaults@) == all_choice_defaults(
                    dv.subrange(0, i as int),
                ),
            decreases descriptors.len() - i,
        {
            let d = &descriptors[i];
            let config = d.default_config().duplicate();
            let choices = d.structural_choices();
            let ghost before = choice_default_views(structural_choice_defaults@);
            let ghost offered = d@.structural_choices;
            let mut j: usize = 0;
            while j < choices.len()
                invariant
                    j <= choices@.len(),
                    offered == crate::patch::choice_views(choices@),
                    choice_default_views(structural_choice_defaults@) == before + choice_defaults_for(
                        config@,
                        offered.subrange(0, j as int),
                    ),
                decreases choices.len() - j,
            {
                let choice = &choices[j];
                let ghost prefix = offered.subrange(0, j as int + 1);
                proof {
                    assert(prefix.drop_last() =~= offered.subrange(0, j as int));
                    assert(prefix.last() == offered[j as int]);
                    assert(prefix.last().parameter_id == choice.parameter_id@);
                    assert(prefix.last().choice_id == choice.choice_id@);
                }
                match config.with_choice(&choice.parameter_id, &choice.choice_id) {
                    Some(candidate) => {
                        let ghost prior = structural_choice_defaults@;
                        structural_choice_defaults.push(
                            StructuralChoiceDefault {
                                parameter_id: choice.parameter_id.duplicate(),
                                choice_id: crate::domain::copy_text(&choice.choice_id),
                                config: candidate,
                            },
                        );
                        proof {
                            assert(choice_default_views(structural_choice_defaults@) =~= choice_default_views(
                                prior,
                            ).push((choice.parameter_id@, choice.choice_id@, candidate@)));
                            assert(choice_defaults_for(config@, prefix) == choice_defaults_for(
                                config@,
                                offered.subrange(0, j as int),
                            ).push((choice.parameter_id@, choice.choice_id@, candidate@)));
                            assert(choice_default_views(structural_choice_defaults@) =~= before
                                + choice_defaults_for(config@, prefix));
                        }
                    },
                    None => {},
                }
                j = j + 1;
            }
            proof {
                let upto = dv.subrange(0, i as int + 1);
                assert(upto.drop_last() =~= dv.subrange(0, i as int));
                assert(upto.last() == d@);
                assert(offered.subrange(0, choices@.len() as int) =~= offered);
            }
            installed_defaults.push((config, d.voice_policy()));
            i = i + 1;
        }
        proof {
            assert(installed_views(installed_defaults@) =~= registry@.map_values(
                |d: DescriptorView| (d.default_config, d.voice_policy),
            ));
            assert(dv.subrange(0, descriptors@.len() as int) =~= dv);
        }
        Ok(PatchCreationBlueprint { instrument_config, voice_policy, installed_defaults, structural_choice_defaults })
    }

    pub fn instrument_config(&self) -> (r: &InstrumentConfig)
        ensures
            r@ == self@.instrument_config,
    {
        &self.instrument_config
    }

    pub fn instrument_capability_id(&self) -> (r: &CapabilityId)
        ensures
            r@ == self@.instrument_config.capability_id,
    {
        self.instrument_config.capability_id()
    }

    pub fn voice_policy(&self) -> (r: VoicePolicy)
        ensures
            r@ == self@.voice_policy,
    {
        self.voice_policy
    }

    /// The first installed default whose configuration names `capability_id`.
    pub fn installed_default(&self, capability_id: &CapabilityId) -> (r: Option<(&InstrumentConfig, VoicePolicy)>)
        ensures
            match r {
                Some((c, p)) => installed_default_of(self@.installed_defaults, capability_id@) == Some(
                    (c@, p@),
                ),
                None => installed_default_of(self@.installed_defaults, capability_id@) is None,
            },
    {
        let ghost d = self@.installed_defaults;
        let mut i: usize = 0;
        while i < self.installed_defaults.len()
            invariant
                d == installed_views(self.installed_defaults@),
                i <= d.len(),
                forall|k: int| 0 <= k < i ==> #[trigger] d[k].0.capability_id != capability_id@,
            decreases self.installed_defaults.len() - i,
        {
            let entry = &self.installed_defaults[i];
            if entry.0.capability_id().same_as(capability_id) {
                proof {
                    assert(d[i as int].0.capability_id == capability_id@);
                    let c = choose|c: int|
                        0 <= c < d.len() && d[c].0.capability_id == capability_id@ && forall|j: int|
                            0 <= j < c ==> d[j].0.capability_id != capability_id@;
                    if c < i {
                    } else if c > i {
                        assert(d[i as int].0.capability_id != capability_id@);
                    }
                }
                return Some((&entry.0, entry.1));
            }
            i = i + 1;
        }
        None
    }

    /// Resolves identity-free prospective data for the empty position after
    /// `existing_count` Patches.
    pub fn prospective(&self, existing_count: usize, capability_id: &CapabilityId) -> (r: Result<
        ProspectivePatch,
        PatchCreationError,
    >)
        ensures
            r is Err <==> installed_default_of(self@.installed_defaults, capability_id@) is None,
            r matches Err(e) ==> e == PatchCreationError::DefaultUnavailable,
            r matches Ok(p) ==> {
                let d = installed_default_of(self@.installed_defaults, capability_id@)->0;
                &&& p@.instrument_config == d.0
                &&& p@.voice_limit == seeded_limit(d.1)
                &&& p@.effect_count == MAX_EFFECT_SLOTS
                &&& p@.effects_empty
                &&& p@.channel == (if existing_count < MAX_ACTIVE_PATCHES {
                    Some(MidiChannel::spec_from(existing_count as u8))
                } else {
                    None
                })
                &&& p@.output == (if existing_count < MAX_ACTIVE_PATCHES {
                    Some(PatchOutput::spec_to(existing_count as u8))
                } else {
                    None
                })
            },
    {
        let (config, policy) = match self.installed_default(capability_id) {
            Some(entry) => entry,
            None => {
                return Err(PatchCreationError::DefaultUnavailable);
            },
        };
        let (channel, output) = if existing_count < MAX_ACTIVE_PATCHES {
            let index = existing_count as u8;
            (Some(MidiChannel::from_index(index)), Some(PatchOutput::to_track(MixerTrackId::from_index(index))))
        } else {
            (None, None)
        };
        let mut effects: Vec<Option<PostEffectConfig>> = Vec::new();
        let mut i: usize = 0;
        while i < MAX_EFFECT_SLOTS
            invariant
                i <= MAX_EFFECT_SLOTS,
                effects@.len() == i,
                forall|k: int| 0 <= k < i ==> effects@[k] is None,
            decreases MAX_EFFECT_SLOTS - i,
        {
            effects.push(None);
            i = i + 1;
        }
        Ok(ProspectivePatch {
            instrument_config: config.duplicate(),
            channel,
            output,
            effects,
            voice_limit: VoiceLimit::seeded_from(policy),
        })
    }

    /// Constructs the deterministic prospective Patch for the declared
    /// instrument without installing it.
    pub fn candidate(&self, existing: &Vec<Patch>) -> (r: Result<Patch, PatchCreationError>)
        ensures
            match r {
                Ok(p) => candidate_outcome(self@, patch_views(existing@), self@.instrument_config.capability_id)
                    == Ok::<PatchView, PatchCreationError>(p@),
                Err(e) => candidate_outcome(self@, patch_views(existing@), self@.instrument_config.capability_id)
                    == Err::<PatchView, PatchCreationError>(e),
            },
    {
        self.candidate_with_capability(existing, self.instrument_capability_id())
    }

    /// Constructs the deterministic prospective Patch for `capability_id`:
    /// the next identity after the greatest existing one, routed to the
    /// appended channel and track.
    pub fn candidate_with_capability(&self, existing: &Vec<Patch>, capability_id: &CapabilityId) -> (r: Result<
        Patch,
        PatchCreationError,
    >)
        ensures
            match r {
                Ok(p) => candidate_outcome(self@, patch_views(existing@), capability_id@) == Ok::<
                    PatchView,
                    PatchCreationError,
                >(p@),
                Err(e) => candidate_outcome(self@, patch_views(existing@), capability_id@) == Err::<
                    PatchView,
                    PatchCreationError,
                >(e),
            },
    {
        if existing.len() >= MAX_ACTIVE_PATCHES {
            return Err(PatchCreationError::CapacityReached);
        }
        let prospective = self.prospective(existing.len(), capability_id)?;
        let mut max: u32 = 0;
        let mut i: usize = 0;
        while i < existing.len()
            invariant
                i <= existing@.len(),
                max as nat == max_patch_id(patch_views(existing@).subrange(0, i as int)),
            decreases existing.len() - i,
        {
            let id = existing[i].id().value();
            proof {
                let s = patch_views(existing@).subrange(0, i as int + 1);
                assert(s.drop_last() =~= patch_views(existing@).subrange(0, i as int));
            }
            if id > max {
                max = id;
            }
            i = i + 1;
        }
        proof {
            assert(patch_views(existing@).subrange(0, existing@.len() as int) =~= patch_views(existing@));
        }
        if max == u32::MAX {
            return Err(PatchCreationError::IdentityExhausted);
        }
        let patch_id = PatchId::from_nonzero(max + 1);
        let channel = match prospective.channel() {
            Some(c) => c,
            None => {
                return Err(PatchCreationError::CapacityReached);
            },
        };
        let output = match prospective.output() {
            Some(o) => o,
            None => {
                return Err(PatchCreationError::CapacityReached);
            },
        };
        let mut patch = Patch::new(
            patch_id,
            patch_name(patch_id),
            prospective.instrument_config().duplicate(),
            channel,
            output,
        );
        let policy = match self.installed_default(capability_id) {
            Some(entry) => entry.1,
            None => {
                return Err(PatchCreationError::DefaultUnavailable);
            },
        };
        patch.seed_voice_limit(policy);
        Ok(patch)
    }

    /// Constructs the creation candidate selecting one structural choice of
    /// the declared instrument.
    pub fn candidate_with_structural_choice(
        &self,
        existing: &Vec<Patch>,
        parameter_id: &ParameterId,
        choice_id: &String,
    ) -> (r: Result<Patch, PatchCreationError>)
        ensures
            match r {
                Ok(p) => structural_candidate_outcome(
                    self@,
                    patch_views(existing@),
                    parameter_id@,
                    choice_id@,
                ) == Ok::<PatchView, PatchCreationError>(p@),
                Err(e) => structural_candidate_outcome(
                    self@,
                    patch_views(existing@),
                    parameter_id@,
                    choice_id@,
                ) == Err::<PatchView, PatchCreationError>(e),
            },
    {
        let ghost d = self@.structural_choice_defaults;
        let ghost own = self@.instrument_config.capability_id;
        let mut found: Option<InstrumentConfig> = None;
        let mut i: usize = 0;
        while i < self.structural_choice_defaults.len()
            invariant_except_break
                found is None,
            invariant
                d == choice_default_views(self.structural_choice_defaults@),
                own == self@.instrument_config.capability_id,
                i <= d.len(),
                forall|k: int| 0 <= k < i ==> !choice_matches(#[trigger] d[k], parameter_id@, choice_id@, own),
            ensures
                match found {
                    Some(c) => structural_default_of(d, parameter_id@, choice_id@, own) == Some(c@),
                    None => structural_default_of(d, parameter_id@, choice_id@, own) is None,
                },
            decreases self.structural_choice_defaults.len() - i,
        {
            let entry = &self.structural_choice_defaults[i];
            if entry.parameter_id.same_as(parameter_id) && crate::domain::text_equal(
                &entry.choice_id,
                choice_id,
            ) && entry.config.capability_id().same_as(self.instrument_capability_id()) {
                found = Some(entry.config.duplicate());
                proof {
                    assert(choice_matches(d[i as int], parameter_id@, choice_id@, own));
                    lemma_first_choice(d, parameter_id@, choice_id@, own, i as int);
                }
                break;
            }
            i = i + 1;
        }
        let config = match found {
            Some(c) => c,
            None => {
                return Err(PatchCreationError::DefaultUnavailable);
            },
        };
        let mut candidate = self.candidate(existing)?;
        let _ = candidate.replace_instrument_config(config, self.voice_policy);
        Ok(candidate)
    }
}

/// Whether a structural choice default selects `choice` of `parameter` for
/// the capability `own`.
pub open spec fn choice_matches(
    e: (Seq<char>, Seq<char>, ConfigView),
    parameter: Seq<char>,
    choice: Seq<char>,
    own: Seq<char>,
) -> bool {
    e.0 == parameter && e.1 == choice && e.2.capability_id == own
}

/// The configuration of the first structural choice default that matches.
pub open spec fn structural_default_of(
    d: Seq<(Seq<char>, Seq<char>, ConfigView)>,
    parameter: Seq<char>,
    choice: Seq<char>,
    own: Seq<char>,
) -> Option<ConfigView> {
    if exists|i: int| 0 <= i < d.len() && choice_matches(d[i], parameter, choice, own) {
        let i = choose|i: int|
            0 <= i < d.len() && choice_matches(d[i], parameter, choice, own) && forall|j: int|
                0 <= j < i ==> !choice_matches(d[j], parameter, choice, own);
        Some(d[i].2)
    } else {
        None
    }
}

proof fn lemma_first_choice(
    d: Seq<(Seq<char>, Seq<char>, ConfigView)>,
    parameter: Seq<char>,
    choice: Seq<char>,
    own: Seq<char>,
    i: int,
)
    requires
        0 <= i < d.len(),
        choice_matches(d[i], parameter, choice, own),
        forall|k: int| 0 <= k < i ==> !choice_matches(#[trigger] d[k], parameter, choice, own),
    ensures
        structural_default_of(d, parameter, choice, own) == Some(d[i].2),
{
    let c = choose|c: int|
        0 <= c < d.len() && choice_matches(d[c], parameter, choice, own) && forall|j: int|
            0 <= j < c ==> !choice_matches(d[j], parameter, choice, own);
    if c < i {
        assert(!choice_matches(d[c], parameter, choice, own));
    } else if c > i {
        assert(!choice_matches(d[i], parameter, choice, own));
    }
}

/// What creating a Patch that selects `choice` of `parameter` yields: the
/// ordinary candidate with the matching configuration, its voice limit
/// clamped to the declared instrument's ceiling.
pub open spec fn structural_candidate_outcome(
    b: BlueprintView,
    existing: Seq<PatchView>,
    parameter: Seq<char>,
    choice: Seq<char>,
) -> Result<PatchView, PatchCreationError> {
    match structural_default_of(
        b.structural_choice_defaults,
        parameter,
        choice,
        b.instrument_config.capability_id,
    ) {
        None => Err(PatchCreationError::DefaultUnavailable),
        Some(c) => match candidate_outcome(b, existing, b.instrument_config.capability_id) {
            Err(e) => Err(e),
            Ok(p) => Ok(
                PatchView {
                    instrument_config: c,
                    voice_limit: if p.voice_limit <= seeded_limit(b.voice_policy) {
                        p.voice_limit
                    } else {
                        seeded_limit(b.voice_policy)
                    },
                    ..p
                },
            ),
        },
    }
}

/// Product-authored recipe for the one canonical session created at startup
/// and by New: the instrument is resolved only by this exact identity.
#[derive(Clone, Debug, PartialEq, Eq)]
pub struct DefaultSessionBlueprint {
    instrument_capability_id: CapabilityId,
}

impl DefaultSessionBlueprint {
    pub fn new(instrument_capability_id: CapabilityId) -> (r: DefaultSessionBlueprint)
        ensures
            r@ == instrument_capability_id@,
    {
        DefaultSessionBlueprint { instrument_capability_id }
    }

    pub fn instrument_capability_id(&self) -> (r: &CapabilityId)
        ensures
            r@ == self@,
    {
        &self.instrument_capability_id
    }

    /// The name of the default session's single Patch.
    pub fn patch_name() -> (r: &'static str)
        ensures
            r@ == "INIT"@,
    {
        "INIT"
    }
}

impl View for DefaultSessionBlueprint {
    type V = Seq<char>;

    closed spec fn view(&self) -> Seq<char> {
        self.instrument_capability_id@
    }
}


/// A failure to construct the declared default session. No variant
/// authorizes choosing another capability or a partial session.
#[derive(Clone, Debug, PartialEq, Eq)]
pub enum DefaultSessionError {
    /// The declared instrument could not produce its canonical configuration.
    Capability(CapabilityError),
    /// Canonical state refused the declared session.
    State(EventRejection),
}

/// The single Patch of the default session built from descriptor `d`.
pub open spec fn default_patch(d: DescriptorView) -> PatchView {
    PatchView {
        id: PatchId::spec_from(1),
        name: "INIT"@,
        instrument_config: d.default_config,
        channel: MidiChannel::spec_from(0),
        output: PatchOutput::spec_to(0),
        effects: Seq::new(MAX_EFFECT_SLOTS as nat, |i: int| None::<EffectConfigView>),
        voice_limit: seeded_limit(d.voice_policy),
    }
}

/// The default session: its Patch installed with its engine's voice
/// ceiling, PATCH selected on the Engine row, two accepted events.
pub open spec fn default_session_state(
    registry: Seq<DescriptorView>,
    effects: Seq<Seq<char>>,
    index: int,
) -> StateView {
    let p = default_patch(registry[index]);
    StateView {
        patches: seeded_patches(registry, seq![p]),
        interaction: context_selected(installed_interaction(Some(p.id)), TopLevelContext::Patch),
        generation: 2,
        ..startup_state(registry, effects, 1)
    }
}

/// Captures the canonical default session: the declared instrument's
/// default configuration in one Patch named INIT on the first channel and
/// track, installed into fresh state, with PATCH selected.
pub fn capture_default_session(
    blueprint: &DefaultSessionBlueprint,
    registry: &CapabilityRegistry,
    effects: EffectCapabilityRegistry,
) -> (r: Result<AppState, DefaultSessionError>)
    ensures
        descriptor_index(registry@, blueprint@) is None <==> r matches Err(DefaultSessionError::Capability(_)),
        r matches Err(DefaultSessionError::Capability(e)) ==> (e matches CapabilityError::UnknownCapability(x) && x@
            == blueprint@),
        descriptor_index(registry@, blueprint@) matches Some(i) ==> {
            let config = registry@[i].default_config;
            &&& (r is Ok <==> config_valid(registry@, config))
            &&& (r matches Err(e) ==> e == DefaultSessionError::State(EventRejection::InvalidInstrumentConfig))
            &&& (r matches Ok(st) ==> st@ == default_session_state(registry@, effects@, i) && state_wf(st@))
        },
{
    let creation = match PatchCreationBlueprint::resolve(blueprint.instrument_capability_id(), registry) {
        Ok(c) => c,
        Err(e) => {
            return Err(DefaultSessionError::Capability(e));
        },
    };
    let mut patch = Patch::new(
        PatchId::from_nonzero(1),
        owned_text(DefaultSessionBlueprint::patch_name()),
        creation.instrument_config().duplicate(),
        MidiChannel::from_index(0),
        PatchOutput::default(),
    );
    patch.seed_voice_limit(creation.voice_policy());
    let mut state = AppState::new_with_effects(registry.duplicate(), effects);
    let ghost before = state@;
    let ghost p = patch@;
    let patches = vec![patch];
    proof {
        assert(patch_views(patches@) =~= seq![p]);
        assert(p.effects.len() == MAX_EFFECT_SLOTS);
        assert forall|k: int| 0 <= k < p.effects.len() && #[trigger] p.effects[k] is Some implies false by {
        }
        assert(slots_accepted_before(before.effects, p.effects, p.effects.len() as int));
    }
    match state.apply(AppEvent::InstallPatches(patches)) {
        Ok(_) => {},
        Err(e) => {
            return Err(DefaultSessionError::State(e));
        },
    }
    let ghost installed_state = state@;
    proof {
        assert(installed_state.patches.len() == 1);
        assert(installed_state.patches[0].id == p.id);
        assert(patch_index_of(installed_state.patches, p.id) == Some(0int));
    }
    match state.apply(AppEvent::SelectContext(TopLevelContext::Patch)) {
        Ok(_) => {},
        Err(e) => {
            return Err(DefaultSessionError::State(e));
        },
    }
    Ok(state)
}


/// The largest identity bounds every existing identity.
proof fn lemma_max_patch_id_bounds(p: Seq<PatchView>)
    ensures
        forall|i: int| 0 <= i < p.len() ==> p[i].id@ <= max_patch_id(p),
    decreases p.len(),
{
    if p.len() > 0 {
        lemma_max_patch_id_bounds(p.drop_last());
        assert forall|i: int| 0 <= i < p.len() implies p[i].id@ <= max_patch_id(p) by {
            if i < p.len() - 1 {
                assert(p.drop_last()[i] == p[i]);
            }
        }
    }
}

/// A created Patch takes an identity newer than every existing one, the
/// routes of the appended position, an empty chain and its engine's voice
/// ceiling.
pub proof fn lemma_candidate_identity_is_monotonic(b: BlueprintView, existing: Seq<PatchView>, id: Seq<char>)
    requires
        candidate_outcome(b, existing, id) is Ok,
    ensures
        forall|i: int| 0 <= i < existing.len() ==> existing[i].id@ < candidate_outcome(b, existing, id)->Ok_0.id@,
        candidate_outcome(b, existing, id)->Ok_0.channel@ == existing.len(),
        candidate_outcome(b, existing, id)->Ok_0.output@@ == existing.len(),
{
    lemma_max_patch_id_bounds(existing);
    let next = (max_patch_id(existing) + 1) as u32;
    PatchId::lemma_spec_from(next);
    MidiChannel::lemma_spec_from(existing.len() as u8);
    MixerTrackId::lemma_spec_from(existing.len() as u8);
    PatchOutput::lemma_with_track(MixerTrackId::spec_from(existing.len() as u8));
}


/// A default installed for `id` has a first position.
proof fn lemma_first_default_exists(d: Seq<(ConfigView, u16)>, id: Seq<char>, k: int)
    requires
        0 <= k < d.len(),
        d[k].0.capability_id == id,
    ensures
        exists|i: int| 0 <= i < d.len() && d[i].0.capability_id == id && forall|j: int| 0 <= j < i ==> d[j].0.capability_id != id,
    decreases k,
{
    if exists|j: int| 0 <= j < k && d[j].0.capability_id == id {
        let j = choose|j: int| 0 <= j < k && d[j].0.capability_id == id;
        lemma_first_default_exists(d, id, j);
    } else {
        assert(forall|j: int| 0 <= j < k ==> d[j].0.capability_id != id);
    }
}

/// The greatest identity is one of the Patches' identities.
proof fn lemma_max_patch_id_attained(p: Seq<PatchView>)
    requires
        p.len() > 0,
    ensures
        exists|i: int| 0 <= i < p.len() && p[i].id@ == max_patch_id(p),
    decreases p.len(),
{
    if p.len() > 1 {
        lemma_max_patch_id_attained(p.drop_last());
        let rest = max_patch_id(p.drop_last());
        if p.last().id@ <= rest {
            let i = choose|i: int| 0 <= i < p.drop_last().len() && p.drop_last()[i].id@ == rest;
            assert(p[i] == p.drop_last()[i]);
        } else {
            assert(p[p.len() - 1].id@ == max_patch_id(p));
        }
    } else {
        assert(p.drop_last().len() == 0);
        assert(max_patch_id(p.drop_last()) == 0);
        assert(p.last() == p[0]);
        assert(p[0].id@ == max_patch_id(p));
    }
}

/// A created Patch is the next one: refused at the Patch capacity, refused
/// for an engine with no installed default; otherwise it runs the requested
/// engine's installed default with an empty effect chain, and its identity
/// is one more than the greatest existing identity (1 for the first Patch).
#[verifier::rlimit(40)]
pub proof fn lemma_candidate_is_the_next_patch(b: BlueprintView, existing: Seq<PatchView>, id: Seq<char>)
    ensures
        existing.len() >= MAX_ACTIVE_PATCHES ==> candidate_outcome(b, existing, id) == Err::<
            PatchView,
            PatchCreationError,
        >(PatchCreationError::CapacityReached),
        existing.len() < MAX_ACTIVE_PATCHES && (forall|i: int| 0 <= i < b.installed_defaults.len()
            ==> #[trigger] b.installed_defaults[i].0.capability_id != id) ==> candidate_outcome(b, existing, id)
            == Err::<PatchView, PatchCreationError>(PatchCreationError::DefaultUnavailable),
        candidate_outcome(b, existing, id) is Ok ==> {
            let p = candidate_outcome(b, existing, id)->Ok_0;
            &&& p.instrument_config.capability_id == id
            &&& exists|i: int| 0 <= i < b.installed_defaults.len() && b.installed_defaults[i].0 == p.instrument_config
            &&& p.effects.len() == MAX_EFFECT_SLOTS
            &&& forall|k: int| 0 <= k < p.effects.len() ==> #[trigger] p.effects[k] is None
            &&& forall|i: int| 0 <= i < existing.len() ==> existing[i].id@ < p.id@
            &&& existing.len() == 0 ==> p.id@ == 1
            &&& existing.len() > 0 ==> exists|i: int| 0 <= i < existing.len() && existing[i].id@ + 1 == p.id@
        },
{
    if candidate_outcome(b, existing, id) is Ok {
        lemma_candidate_identity_is_monotonic(b, existing, id);
        let p = candidate_outcome(b, existing, id)->Ok_0;
        let next = (max_patch_id(existing) + 1) as u32;
        PatchId::lemma_spec_from(next);
        assert(p.id@ == max_patch_id(existing) + 1);
        if existing.len() > 0 {
            lemma_max_patch_id_attained(existing);
            let w = choose|i: int| 0 <= i < existing.len() && existing[i].id@ == max_patch_id(existing);
            assert(existing[w].id@ + 1 == p.id@);
        }
        let d = b.installed_defaults;
        let k = choose|k: int| 0 <= k < d.len() && d[k].0.capability_id == id;
        lemma_first_default_exists(d, id, k);
        let i = choose|i: int|
            0 <= i < d.len() && d[i].0.capability_id == id && forall|j: int| 0 <= j < i ==> d[j].0.capability_id != id;
        assert(d[i].0 == p.instrument_config);
    }
}

} // verus!
