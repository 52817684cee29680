//! The installed instrument and effect capability registries.
use vstd::prelude::*;
use crate::domain::{CapabilityId, EffectCapabilityId, EffectSlotId};
use crate::patch::{
    choice_views, copy_choices, ChoiceValue, ChoiceView, ConfigView, InstrumentConfig, PostEffectConfig,
    VoicePolicy,
};

verus! {

/// Failures of capability lookup and validation.
#[derive(Clone, Debug, PartialEq, Eq)]
pub enum CapabilityError {
    UnknownCapability(CapabilityId),
    InvalidConfig(CapabilityId),
    DuplicateCapability(CapabilityId),
}

/// The mathematical content of one instrument capability descriptor.
pub struct DescriptorView {
    pub id: Seq<char>,
    pub voice_policy: u16,
    pub default_config: ConfigView,
    pub structural_choices: Seq<ChoiceView>,
}

/// What one installed instrument engine declares: its identity, polyphony,
/// and the complete canonical configuration it starts from.
#[derive(Debug, PartialEq, Eq)]
pub struct CapabilityDescriptor {
    id: CapabilityId,
    voice_policy: VoicePolicy,
    default_config: InstrumentConfig,
    structural_choices: Vec<ChoiceValue>,
}

impl View for CapabilityDescriptor {
    type V = DescriptorView;

    closed spec fn view(&self) -> DescriptorView {
        DescriptorView {
            id: self.id@,
            voice_policy: self.voice_policy@,
            default_config: self.default_config@,
            structural_choices: choice_views(self.structural_choices@),
        }
    }
}

impl Clone for CapabilityDescriptor {
    fn clone(&self) -> (r: CapabilityDescriptor)
        ensures
            r@ == self@,
    {
        self.duplicate()
    }
}

/// A descriptor's default configuration names the descriptor itself.
pub open spec fn descriptor_coherent(d: DescriptorView) -> bool {
    d.id == d.default_config.capability_id
}

/// Every descriptor's default configuration names that descriptor.
pub open spec fn descriptors_coherent(v: Seq<DescriptorView>) -> bool {
    forall|i: int| 0 <= i < v.len() ==> descriptor_coherent(#[trigger] v[i])
}

impl CapabilityDescriptor {
    #[verifier::type_invariant]
    closed spec fn names_itself(self) -> bool {
        self.id@ == self.default_config@.capability_id
    }

    /// A descriptor whose default configuration names the descriptor itself,
    /// with the alternative values its structural choice parameters offer.
    pub fn new(
        voice_policy: VoicePolicy,
        default_config: InstrumentConfig,
        structural_choices: Vec<ChoiceValue>,
    ) -> (r: CapabilityDescriptor)
        ensures
            r@ == (DescriptorView {
                id: default_config@.capability_id,
                voice_policy: voice_policy@,
                default_config: default_config@,
                structural_choices: choice_views(structural_choices@),
            }),
    {
        CapabilityDescriptor {
            id: default_config.capability_id().duplicate(),
            voice_policy,
            default_config,
            structural_choices,
        }
    }

    /// Copies the descriptor, keeping its content.
    pub fn duplicate(&self) -> (r: CapabilityDescriptor)
        ensures
            r@ == self@,
    {
        proof {
            use_type_invariant(self);
        }
        CapabilityDescriptor {
            id: self.id.duplicate(),
            voice_policy: self.voice_policy,
            default_config: self.default_config.duplicate(),
            structural_choices: copy_choices(&self.structural_choices),
        }
    }

    /// Every structural choice value this capability offers.
    pub fn structural_choices(&self) -> (r: &Vec<ChoiceValue>)
        ensures
            choice_views(r@) == self@.structural_choices,
    {
        &self.structural_choices
    }

    pub fn id(&self) -> (r: &CapabilityId)
        ensures
            r@ == self@.id,
    {
        &self.id
    }

    pub fn voice_policy(&self) -> (r: VoicePolicy)
        ensures
            r@ == self@.voice_policy,
    {
        self.voice_policy
    }

    pub fn default_config(&self) -> (r: &InstrumentConfig)
        ensures
            r@ == self@.default_config,
    {
        &self.default_config
    }
}

pub open spec fn descriptor_views(v: Seq<CapabilityDescriptor>) -> Seq<DescriptorView> {
    v.map_values(|d: CapabilityDescriptor| d@)
}

/// No capability identity is declared twice.
pub open spec fn descriptor_ids_unique(v: Seq<DescriptorView>) -> bool {
    forall|i: int, j: int| 0 <= i < j < v.len() ==> v[i].id != v[j].id
}

/// The position of the descriptor with identity `id`, if any.
pub open spec fn descriptor_index(v: Seq<DescriptorView>, id: Seq<char>) -> Option<int> {
    if exists|i: int| 0 <= i < v.len() && v[i].id == id {
        Some(choose|i: int| 0 <= i < v.len() && v[i].id == id)
    } else {
        None
    }
}

/// The parameter identities of a configuration, in order.
pub open spec fn parameter_ids(c: Seq<ChoiceView>) -> Seq<Seq<char>> {
    c.map_values(|v: ChoiceView| v.parameter_id)
}

/// A configuration is canonical for a registry when its capability is
/// installed and it sets exactly the parameters of that capability's
/// default configuration, in order.
pub open spec fn config_valid(v: Seq<DescriptorView>, c: ConfigView) -> bool {
    match descriptor_index(v, c.capability_id) {
        Some(i) => parameter_ids(c.choices) == parameter_ids(v[i].default_config.choices),
        None => false,
    }
}

/// The installed instrument capabilities, in registry order.
#[derive(Debug, PartialEq, Eq)]
pub struct CapabilityRegistry {
    descriptors: Vec<CapabilityDescriptor>,
}

impl View for CapabilityRegistry {
    type V = Seq<DescriptorView>;

    closed spec fn view(&self) -> Seq<DescriptorView> {
        descriptor_views(self.descriptors@)
    }
}

/// Compares the parameter identities of two configurations.
fn same_parameters(a: &InstrumentConfig, b: &InstrumentConfig) -> (r: bool)
    ensures
        r == (parameter_ids(a@.choices) == parameter_ids(b@.choices)),
{
    let ac = a.choices();
    let bc = b.choices();
    if ac.len() != bc.len() {
        proof {
            assert(parameter_ids(a@.choices).len() != parameter_ids(b@.choices).len());
        }
        return false;
    }
    let mut i: usize = 0;
    while i < ac.len()
        invariant
            choice_views(ac@) == a@.choices,
            choice_views(bc@) == b@.choices,
            ac@.len() == bc@.len(),
            i <= ac@.len(),
            forall|k: int| 0 <= k < i ==> #[trigger] parameter_ids(a@.choices)[k] == parameter_ids(
                b@.choices,
            )[k],
        decreases ac.len() - i,
    {
        if !ac[i].parameter_id.same_as(&bc[i].parameter_id) {
            proof {
                assert(parameter_ids(a@.choices)[i as int] != parameter_ids(b@.choices)[i as int]);
            }
            return false;
        }
        i = i + 1;
    }
    assert(parameter_ids(a@.choices) =~= parameter_ids(b@.choices));
    true
}

impl CapabilityRegistry {
    #[verifier::type_invariant]
    closed spec fn unique(self) -> bool {
        &&& descriptor_ids_unique(self@)
        &&& descriptors_coherent(self@)
    }

    /// Accepts descriptors whose identities are pairwise distinct.
    pub fn new(descriptors: Vec<CapabilityDescriptor>) -> (r: Result<CapabilityRegistry, CapabilityError>)
        ensures
            r is Ok <==> descriptor_ids_unique(descriptor_views(descriptors@)),
            r matches Ok(reg) ==> reg@ == descriptor_views(descriptors@),
    {
        let mut j: usize = 0;
        while j < descriptors.len()
            invariant
                j <= descriptors@.len(),
                forall|k: int| 0 <= k < j ==> descriptor_coherent(#[trigger] descriptor_views(descriptors@)[k]),
                forall|a: int, b: int| 0 <= a < b < j ==> #[trigger] descriptor_views(descriptors@)[a].id
                    != #[trigger] descriptor_views(descriptors@)[b].id,
            decreases descriptors.len() - j,
        {
            let current = &descriptors[j];
            proof {
                use_type_invariant(current);
            }
            let mut i: usize = 0;
            while i < j
                invariant
                    i <= j < descriptors@.len(),
                    forall|a: int, b: int| 0 <= a < b < j ==> #[trigger] descriptor_views(descriptors@)[a].id
                        != #[trigger] descriptor_views(descriptors@)[b].id,
                    forall|a: int| 0 <= a < i ==> #[trigger] descriptor_views(descriptors@)[a].id
                        != descriptor_views(descriptors@)[j as int].id,
                decreases j - i,
            {
                if descriptors[i].id().same_as(descriptors[j].id()) {
                    let id = descriptors[j].id().duplicate();
                    proof {
                        assert(descriptor_views(descriptors@)[i as int].id == descriptor_views(descriptors@)[j as int].id);
                    }
                    return Err(CapabilityError::DuplicateCapability(id));
                }
                i = i + 1;
            }
            j = j + 1;
        }
        assert(descriptors_coherent(descriptor_views(descriptors@)));
        Ok(CapabilityRegistry { descriptors })
    }

    /// Every installed descriptor, in registry order.
    pub fn descriptors(&self) -> (r: &Vec<CapabilityDescriptor>)
        ensures
            descriptor_views(r@) == self@,
            descriptor_ids_unique(self@),
            descriptors_coherent(self@),
    {
        proof {
            use_type_invariant(self);
        }
        &self.descriptors
    }

    /// The position of the descriptor with identity `id`, if installed.
    pub fn position(&self, id: &CapabilityId) -> (r: Option<usize>)
        ensures
            match r {
                Some(i) => descriptor_index(self@, id@) == Some(i as int) && i < self@.len(),
                None => descriptor_index(self@, id@) is None,
            },
    {
        proof {
            use_type_invariant(self);
        }
        let mut i: usize = 0;
        while i < self.descriptors.len()
            invariant
                i <= self@.len(),
                self@ == descriptor_views(self.descriptors@),
                descriptor_ids_unique(self@),
                forall|k: int| 0 <= k < i ==> #[trigger] self@[k].id != id@,
            decreases self.descriptors.len() - i,
        {
            if self.descriptors[i].id().same_as(id) {
                proof {
                    assert(self@[i as int].id == id@);
                    let c = choose|k: int| 0 <= k < self@.len() && self@[k].id == id@;
                    if c != i {
                        if c < i {
                            assert(self@[c].id != self@[i as int].id);
                        } else {
                            assert(self@[i as int].id != self@[c].id);
                        }
                    }
                }
                return Some(i);
            }
            i = i + 1;
        }
        None
    }

    /// The descriptor with identity `id`, if installed.
    pub fn descriptor(&self, id: &CapabilityId) -> (r: Option<&CapabilityDescriptor>)
        ensures
            match r {
                Some(d) => descriptor_index(self@, id@) is Some && d@ == self@[descriptor_index(
                    self@,
                    id@,
                )->0],
                None => descriptor_index(self@, id@) is None,
            },
    {
        match self.position(id) {
            Some(i) => Some(&self.descriptors[i]),
            None => None,
        }
    }

    /// Validates one configuration against the installed descriptors.
    pub fn validate_config(&self, config: &InstrumentConfig) -> (r: Result<(), CapabilityError>)
        ensures
            r is Ok <==> config_valid(self@, config@),
            match r {
                Ok(_) => true,
                Err(CapabilityError::UnknownCapability(x)) => x@ == config@.capability_id && descriptor_index(
                    self@,
                    config@.capability_id,
                ) is None,
                Err(CapabilityError::InvalidConfig(x)) => x@ == config@.capability_id && descriptor_index(
                    self@,
                    config@.capability_id,
                ) is Some,
                Err(CapabilityError::DuplicateCapability(_)) => false,
            },
    {
        match self.descriptor(config.capability_id()) {
            None => Err(CapabilityError::UnknownCapability(config.capability_id().duplicate())),
            Some(d) => {
                if same_parameters(config, d.default_config()) {
                    Ok(())
                } else {
                    Err(CapabilityError::InvalidConfig(config.capability_id().duplicate()))
                }
            },
        }
    }

    /// Produces the canonical default configuration of one installed capability.
    pub fn create(&self, id: &CapabilityId) -> (r: Result<InstrumentConfig, CapabilityError>)
        ensures
            r is Ok <==> descriptor_index(self@, id@) is Some,
            r matches Ok(c) ==> c@ == self@[descriptor_index(self@, id@)->0].default_config && c@.capability_id == id@,
            r matches Err(e) ==> (e matches CapabilityError::UnknownCapability(x) && x@ == id@),
    {
        proof {
            use_type_invariant(self);
        }
        match self.descriptor(id) {
            Some(d) => Ok(d.default_config().duplicate()),
            None => Err(CapabilityError::UnknownCapability(id.duplicate())),
        }
    }

    pub fn duplicate(&self) -> (r: CapabilityRegistry)
        ensures
            r@ == self@,
    {
        proof {
            use_type_invariant(self);
        }
        let mut v: Vec<CapabilityDescriptor> = Vec::new();
        let mut i: usize = 0;
        while i < self.descriptors.len()
            invariant
                i <= self.descriptors@.len(),
                v@.len() == i,
                forall|k: int| 0 <= k < i ==> (#[trigger] v@[k])@ == self.descriptors@[k]@,
            decreases self.descriptors.len() - i,
        {
            let d = &self.descriptors[i];
            v.push(d.duplicate());
            i = i + 1;
        }
        assert(descriptor_views(v@) =~= descriptor_views(self.descriptors@));
        CapabilityRegistry { descriptors: v }
    }
}

impl Clone for CapabilityRegistry {
    fn clone(&self) -> (r: CapabilityRegistry)
        ensures
            r@ == self@,
    {
        self.duplicate()
    }
}

/// The installed effect capabilities, in registry order.
#[derive(Clone, Debug, PartialEq, Eq)]
pub struct EffectCapabilityRegistry {
    ids: Vec<EffectCapabilityId>,
}

pub open spec fn effect_id_views(v: Seq<EffectCapabilityId>) -> Seq<Seq<char>> {
    v.map_values(|e: EffectCapabilityId| e@)
}

/// The first position of `id` in `ids`, if any.
pub open spec fn first_effect_index(ids: Seq<Seq<char>>, id: Seq<char>) -> Option<usize> {
    if exists|i: int| 0 <= i < ids.len() && ids[i] == id {
        Some(
            (choose|i: int| 0 <= i < ids.len() && ids[i] == id && forall|j: int| 0 <= j < i ==> ids[j] != id) as usize,
        )
    } else {
        None
    }
}

impl View for EffectCapabilityRegistry {
    type V = Seq<Seq<char>>;

    closed spec fn view(&self) -> Seq<Seq<char>> {
        effect_id_views(self.ids@)
    }
}

impl EffectCapabilityRegistry {
    pub fn new(ids: Vec<EffectCapabilityId>) -> (r: EffectCapabilityRegistry)
        ensures
            r@ == effect_id_views(ids@),
    {
        EffectCapabilityRegistry { ids }
    }

    /// Copies the registry, keeping its content.
    pub fn duplicate(&self) -> (r: EffectCapabilityRegistry)
        ensures
            r@ == self@,
    {
        let mut ids: Vec<EffectCapabilityId> = Vec::new();
        let mut i: usize = 0;
        while i < self.ids.len()
            invariant
                i <= self.ids@.len(),
                ids@.len() == i,
                forall|k: int| 0 <= k < i ==> (#[trigger] ids@[k])@ == self.ids@[k]@,
            decreases self.ids.len() - i,
        {
            ids.push(self.ids[i].duplicate());
            i = i + 1;
        }
        assert(effect_id_views(ids@) =~= effect_id_views(self.ids@));
        EffectCapabilityRegistry { ids }
    }

    /// A registry with no effect installed.
    pub fn empty() -> (r: EffectCapabilityRegistry)
        ensures
            r@ == Seq::<Seq<char>>::empty(),
    {
        let r = EffectCapabilityRegistry { ids: Vec::new() };
        assert(r@ =~= Seq::empty());
        r
    }

    /// The number of installed effects.
    pub fn len(&self) -> (r: usize)
        ensures
            r == self@.len(),
    {
        self.ids.len()
    }

    /// The identity of the effect at registry position `index`.
    pub fn id_at(&self, index: usize) -> (r: &EffectCapabilityId)
        requires
            index < self@.len(),
        ensures
            r@ == self@[index as int],
    {
        &self.ids[index]
    }

    /// The first registry position of effect `id`, if installed.
    pub fn position(&self, id: &EffectCapabilityId) -> (r: Option<usize>)
        ensures
            r == first_effect_index(self@, id@),
            r matches Some(k) ==> k < self@.len(),
    {
        let mut i: usize = 0;
        while i < self.ids.len()
            invariant
                i <= self.ids@.len(),
                forall|k: int| 0 <= k < i ==> #[trigger] effect_id_views(self.ids@)[k] != id@,
            decreases self.ids.len() - i,
        {
            if self.ids[i].same_as(id) {
                proof {
                    let v = effect_id_views(self.ids@);
                    assert(v[i as int] == id@);
                    let c = choose|c: int| 0 <= c < v.len() && v[c] == id@ && forall|j: int| 0 <= j < c ==> v[j] != id@;
                    if c < i {
                        assert(v[c] != id@);
                    } else if c > i {
                        assert(v[i as int] != id@);
                    }
                }
                return Some(i);
            }
            i = i + 1;
        }
        None
    }

    /// Reports whether `id` is installed.
    pub fn contains(&self, id: &EffectCapabilityId) -> (r: bool)
        ensures
            r == self@.contains(id@),
    {
        let mut i: usize = 0;
        while i < self.ids.len()
            invariant
                i <= self.ids@.len(),
                forall|k: int| 0 <= k < i ==> #[trigger] effect_id_views(self.ids@)[k] != id@,
            decreases self.ids.len() - i,
        {
            if self.ids[i].same_as(id) {
                assert(effect_id_views(self.ids@)[i as int] == id@);
                return true;
            }
            i = i + 1;
        }
        false
    }

    /// The canonical configuration of effect `id` occupying a position with
    /// instance identity `slot_id`.
    pub fn default_config(&self, id: &EffectCapabilityId, slot_id: EffectSlotId) -> (r: Option<
        PostEffectConfig,
    >)
        ensures
            r is Some <==> self@.contains(id@),
            r matches Some(c) ==> c@.slot_id == slot_id && c@.capability_id == id@,
    {
        if self.contains(id) {
            Some(PostEffectConfig::from_parts(slot_id, id.duplicate()))
        } else {
            None
        }
    }
}

} // verus!
