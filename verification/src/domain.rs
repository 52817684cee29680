//! Identity and value types shared by the control layer.
//!
//! Every identity is a validated value: constructors refuse raw values outside
//! the declared range, so an identity that exists is always in range.
use vstd::prelude::*;
use vstd::string::*;

verus! {

/// The fixed number of Patches the prepared audio graph can hold.
pub const MAX_ACTIVE_PATCHES: usize = 16;

/// The number of MIDI channels (and of fixed mixer tracks).
pub const MIDI_CHANNEL_COUNT: u8 = 16;

/// The number of effect positions in one Patch chain.
pub const MAX_EFFECT_SLOTS: usize = 3;

/// The number of bus returns in the fixed return bank.
pub const BUS_COUNT: u8 = 8;

/// A failure to construct a bounded identity from a raw value.
#[derive(Clone, Copy, Debug, PartialEq, Eq, Structural)]
pub enum IdentityError {
    OutOfRange,
    Empty,
}

/// Stable nonzero identity of an installed Patch.
#[derive(Clone, Copy, Debug, PartialEq, Eq, Hash, PartialOrd, Ord, Structural)]
pub struct PatchId(u32);

impl View for PatchId {
    type V = u32;

    closed spec fn view(&self) -> u32 {
        self.0
    }
}

impl PatchId {
    #[verifier::type_invariant]
    closed spec fn in_range(self) -> bool {
        self.0 != 0
    }

    /// Accepts every value except the reserved zero.
    pub fn new(value: u32) -> (r: Result<PatchId, IdentityError>)
        ensures
            value == 0 <==> r is Err,
            r matches Ok(id) ==> id@ == value,
            r matches Err(e) ==> e == IdentityError::OutOfRange,
    {
        if value == 0 {
            Err(IdentityError::OutOfRange)
        } else {
            Ok(PatchId(value))
        }
    }

    pub fn value(self) -> (r: u32)
        ensures
            r == self@,
            r != 0,
    {
        proof {
            use_type_invariant(self);
        }
        self.0
    }

    /// Compares two identities.
    pub fn same_as(self, other: PatchId) -> (r: bool)
        ensures
            r == (self@ == other@),
            r == (self == other),
    {
        self.0 == other.0
    }

    /// The identity holding `value`.
    pub closed spec fn spec_from(value: u32) -> PatchId {
        PatchId(value)
    }

    pub broadcast proof fn lemma_spec_from(value: u32)
        ensures
            (#[trigger] PatchId::spec_from(value))@ == value,
    {
    }

    /// The identity holding a value already known to be nonzero.
    pub fn from_nonzero(value: u32) -> (r: PatchId)
        requires
            value != 0,
        ensures
            r == PatchId::spec_from(value),
            r@ == value,
    {
        PatchId(value)
    }
}

/// One of the sixteen MIDI channels, numbered from zero.
#[derive(Clone, Copy, Debug, PartialEq, Eq, Hash, Structural)]
pub struct MidiChannel(u8);

impl View for MidiChannel {
    type V = u8;

    closed spec fn view(&self) -> u8 {
        self.0
    }
}

impl MidiChannel {
    #[verifier::type_invariant]
    closed spec fn in_range(self) -> bool {
        self.0 < MIDI_CHANNEL_COUNT
    }

    pub fn new(value: u8) -> (r: Result<MidiChannel, IdentityError>)
        ensures
            value < MIDI_CHANNEL_COUNT <==> r is Ok,
            r matches Ok(c) ==> c@ == value,
            r matches Err(e) ==> e == IdentityError::OutOfRange,
    {
        if value < MIDI_CHANNEL_COUNT {
            Ok(MidiChannel(value))
        } else {
            Err(IdentityError::OutOfRange)
        }
    }

    pub fn value(self) -> (r: u8)
        ensures
            r == self@,
            r < MIDI_CHANNEL_COUNT,
    {
        proof {
            use_type_invariant(self);
        }
        self.0
    }

    /// Compares two channels.
    pub fn same_as(self, other: MidiChannel) -> (r: bool)
        ensures
            r == (self == other),
            r == (self@ == other@),
    {
        self.0 == other.0
    }

    /// The channel numbered `value`.
    pub closed spec fn spec_from(value: u8) -> MidiChannel {
        MidiChannel(value)
    }

    pub broadcast proof fn lemma_spec_from(value: u8)
        ensures
            (#[trigger] MidiChannel::spec_from(value))@ == value,
    {
    }

    /// The channel at a position known to be in range.
    pub fn from_index(value: u8) -> (r: MidiChannel)
        requires
            value < MIDI_CHANNEL_COUNT,
        ensures
            r == MidiChannel::spec_from(value),
            r@ == value,
    {
        MidiChannel(value)
    }
}

/// One of the sixteen fixed mixer tracks, numbered from zero.
#[derive(Clone, Copy, Debug, PartialEq, Eq, Hash, Structural)]
pub struct MixerTrackId(u8);

impl View for MixerTrackId {
    type V = u8;

    closed spec fn view(&self) -> u8 {
        self.0
    }
}

impl MixerTrackId {
    #[verifier::type_invariant]
    closed spec fn in_range(self) -> bool {
        self.0 < MIDI_CHANNEL_COUNT
    }

    pub fn new(value: u8) -> (r: Result<MixerTrackId, IdentityError>)
        ensures
            value < MIDI_CHANNEL_COUNT <==> r is Ok,
            r matches Ok(t) ==> t@ == value,
            r matches Err(e) ==> e == IdentityError::OutOfRange,
    {
        if value < MIDI_CHANNEL_COUNT {
            Ok(MixerTrackId(value))
        } else {
            Err(IdentityError::OutOfRange)
        }
    }

    pub fn value(self) -> (r: u8)
        ensures
            r == self@,
            r < MIDI_CHANNEL_COUNT,
    {
        proof {
            use_type_invariant(self);
        }
        self.0
    }

    /// Returns the position of this track in the fixed bank.
    pub fn index(self) -> (r: usize)
        ensures
            r == self@ as usize,
            r < MIDI_CHANNEL_COUNT,
    {
        proof {
            use_type_invariant(self);
        }
        self.0 as usize
    }

    /// The track numbered `value`.
    pub closed spec fn spec_from(value: u8) -> MixerTrackId {
        MixerTrackId(value)
    }

    pub broadcast proof fn lemma_spec_from(value: u8)
        ensures
            (#[trigger] MixerTrackId::spec_from(value))@ == value,
    {
    }

    /// The track at a position known to be in range.
    pub fn from_index(value: u8) -> (r: MixerTrackId)
        requires
            value < MIDI_CHANNEL_COUNT,
        ensures
            r == MixerTrackId::spec_from(value),
            r@ == value,
    {
        MixerTrackId(value)
    }
}

/// A failure to derive a newer graph revision.
#[derive(Clone, Copy, Debug, PartialEq, Eq, Structural)]
pub enum GraphRevisionError {
    Zero,
    Exhausted,
}

/// A nonzero, monotonically increasing identity of one complete audio graph.
#[derive(Clone, Copy, Debug, PartialEq, Eq, Hash, PartialOrd, Ord, Structural)]
pub struct GraphRevision(u64);

impl View for GraphRevision {
    type V = u64;

    closed spec fn view(&self) -> u64 {
        self.0
    }
}

impl GraphRevision {
    #[verifier::type_invariant]
    closed spec fn in_range(self) -> bool {
        self.0 != 0
    }

    /// The revision of the graph prepared at startup.
    pub fn initial() -> (r: GraphRevision)
        ensures
            r@ == 1,
    {
        GraphRevision(1)
    }

    pub fn new(value: u64) -> (r: Result<GraphRevision, GraphRevisionError>)
        ensures
            value == 0 <==> r is Err,
            r matches Ok(g) ==> g@ == value,
            r matches Err(e) ==> e == GraphRevisionError::Zero,
    {
        if value == 0 {
            Err(GraphRevisionError::Zero)
        } else {
            Ok(GraphRevision(value))
        }
    }

    pub fn value(self) -> (r: u64)
        ensures
            r == self@,
            r != 0,
    {
        proof {
            use_type_invariant(self);
        }
        self.0
    }

    /// Returns the next revision, or `Exhausted` when none is representable.
    pub fn checked_next(self) -> (r: Result<GraphRevision, GraphRevisionError>)
        ensures
            self@ == u64::MAX <==> r is Err,
            r matches Ok(g) ==> g@ == self@ + 1,
            r matches Err(e) ==> e == GraphRevisionError::Exhausted,
    {
        if self.0 == u64::MAX {
            Err(GraphRevisionError::Exhausted)
        } else {
            Ok(GraphRevision(self.0 + 1))
        }
    }

    /// Reports whether this revision is strictly newer than `other`.
    pub fn is_newer_than(self, other: GraphRevision) -> (r: bool)
        ensures
            r == (self@ > other@),
    {
        self.0 > other.0
    }
}

/// Builds an owned string with exactly the characters of `value`.
pub fn owned_text(value: &str) -> (r: String)
    ensures
        r@ == value@,
{
    value.to_owned()
}

/// Copies a string, keeping its characters.
pub fn copy_text(value: &String) -> (r: String)
    ensures
        r@ == value@,
        r == *value,
{
    value.clone()
}

/// Compares two strings character by character.
pub fn text_equal(a: &String, b: &String) -> (r: bool)
    ensures
        r == (a@ == b@),
{
    a.eq(b)
}

/// Stable registry identity of one instrument capability.
#[derive(Clone, Debug, PartialEq, Eq)]
pub struct CapabilityId(String);

impl View for CapabilityId {
    type V = Seq<char>;

    closed spec fn view(&self) -> Seq<char> {
        self.0@
    }
}

impl CapabilityId {
    /// Accepts every nonempty identity.
    pub fn new(value: &str) -> (r: Result<CapabilityId, IdentityError>)
        ensures
            value@.len() == 0 <==> r is Err,
            r matches Ok(id) ==> id@ == value@,
            r matches Err(e) ==> e == IdentityError::Empty,
    {
        if value.is_empty() {
            Err(IdentityError::Empty)
        } else {
            Ok(CapabilityId(owned_text(value)))
        }
    }

    pub fn as_str(&self) -> (r: &str)
        ensures
            r@ == self@,
    {
        self.0.as_str()
    }

    pub fn duplicate(&self) -> (r: CapabilityId)
        ensures
            r@ == self@,
    {
        CapabilityId(copy_text(&self.0))
    }

    pub fn same_as(&self, other: &CapabilityId) -> (r: bool)
        ensures
            r == (self@ == other@),
    {
        text_equal(&self.0, &other.0)
    }
}

/// Stable identity of one parameter within a capability descriptor.
#[derive(Clone, Debug, PartialEq, Eq)]
pub struct ParameterId(String);

impl View for ParameterId {
    type V = Seq<char>;

    closed spec fn view(&self) -> Seq<char> {
        self.0@
    }
}

impl ParameterId {
    pub fn new(value: &str) -> (r: Result<ParameterId, IdentityError>)
        ensures
            value@.len() == 0 <==> r is Err,
            r matches Ok(id) ==> id@ == value@,
            r matches Err(e) ==> e == IdentityError::Empty,
    {
        if value.is_empty() {
            Err(IdentityError::Empty)
        } else {
            Ok(ParameterId(owned_text(value)))
        }
    }

    pub fn as_str(&self) -> (r: &str)
        ensures
            r@ == self@,
    {
        self.0.as_str()
    }

    pub fn duplicate(&self) -> (r: ParameterId)
        ensures
            r@ == self@,
    {
        ParameterId(copy_text(&self.0))
    }

    pub fn same_as(&self, other: &ParameterId) -> (r: bool)
        ensures
            r == (self@ == other@),
    {
        text_equal(&self.0, &other.0)
    }
}

/// Stable registry identity of one effect capability.
#[derive(Clone, Debug, PartialEq, Eq)]
pub struct EffectCapabilityId(String);

impl View for EffectCapabilityId {
    type V = Seq<char>;

    closed spec fn view(&self) -> Seq<char> {
        self.0@
    }
}

impl EffectCapabilityId {
    pub fn new(value: &str) -> (r: Result<EffectCapabilityId, IdentityError>)
        ensures
            value@.len() == 0 <==> r is Err,
            r matches Ok(id) ==> id@ == value@,
            r matches Err(e) ==> e == IdentityError::Empty,
    {
        if value.is_empty() {
            Err(IdentityError::Empty)
        } else {
            Ok(EffectCapabilityId(owned_text(value)))
        }
    }

    pub fn as_str(&self) -> (r: &str)
        ensures
            r@ == self@,
    {
        self.0.as_str()
    }

    pub fn duplicate(&self) -> (r: EffectCapabilityId)
        ensures
            r@ == self@,
            r == *self,
    {
        EffectCapabilityId(copy_text(&self.0))
    }

    pub fn same_as(&self, other: &EffectCapabilityId) -> (r: bool)
        ensures
            r == (self@ == other@),
    {
        text_equal(&self.0, &other.0)
    }
}

/// Copies an optional effect entry, keeping its identity.
pub fn duplicate_entry(entry: &Option<EffectCapabilityId>) -> (r: Option<EffectCapabilityId>)
    ensures
        entry_view(r) == entry_view(*entry),
        r == *entry,
{
    match entry {
        Some(e) => Some(e.duplicate()),
        None => None,
    }
}

/// Compares two optional effect entries by identity.
pub fn same_entry(a: &Option<EffectCapabilityId>, b: &Option<EffectCapabilityId>) -> (r: bool)
    ensures
        r == (entry_view(*a) == entry_view(*b)),
{
    match (a, b) {
        (Some(x), Some(y)) => x.same_as(y),
        (None, None) => true,
        _ => false,
    }
}

/// One position in a Patch effect chain.
#[derive(Clone, Copy, Debug, PartialEq, Eq, Hash, Structural)]
pub struct EffectSlotIndex(u8);

impl View for EffectSlotIndex {
    type V = u8;

    closed spec fn view(&self) -> u8 {
        self.0
    }
}

impl EffectSlotIndex {
    #[verifier::type_invariant]
    closed spec fn in_range(self) -> bool {
        (self.0 as usize) < MAX_EFFECT_SLOTS
    }

    /// Compares two identities.
    pub fn same_as(self, other: EffectSlotIndex) -> (r: bool)
        ensures
            r == (self == other),
            r == (self@ == other@),
    {
        self.0 == other.0
    }

    pub fn new(value: u8) -> (r: Result<EffectSlotIndex, IdentityError>)
        ensures
            (value as usize) < MAX_EFFECT_SLOTS <==> r is Ok,
            r matches Ok(s) ==> s@ == value,
            r matches Err(e) ==> e == IdentityError::OutOfRange,
    {
        if (value as usize) < MAX_EFFECT_SLOTS {
            Ok(EffectSlotIndex(value))
        } else {
            Err(IdentityError::OutOfRange)
        }
    }

    pub fn value(self) -> (r: u8)
        ensures
            r == self@,
            (r as usize) < MAX_EFFECT_SLOTS,
    {
        proof {
            use_type_invariant(self);
        }
        self.0
    }

    /// Returns the position as an index into a chain.
    pub fn index(self) -> (r: usize)
        ensures
            r == self@ as usize,
            r < MAX_EFFECT_SLOTS,
    {
        proof {
            use_type_invariant(self);
        }
        self.0 as usize
    }

    /// The position numbered `value`.
    pub closed spec fn spec_from(value: u8) -> EffectSlotIndex {
        EffectSlotIndex(value)
    }

    pub broadcast proof fn lemma_spec_from(value: u8)
        ensures
            (#[trigger] EffectSlotIndex::spec_from(value))@ == value,
    {
    }

    /// The position numbered `value`, known to be in range.
    pub fn from_position(value: u8) -> (r: EffectSlotIndex)
        requires
            (value as usize) < MAX_EFFECT_SLOTS,
        ensures
            r == EffectSlotIndex::spec_from(value),
            r@ == value,
    {
        EffectSlotIndex(value)
    }

    /// The stable instance identity an effect placed at this position takes:
    /// the position counted from one.
    pub fn instance_identity(self) -> (r: EffectSlotId)
        ensures
            r@ == self@ + 1,
            r == EffectSlotId::spec_from((self@ + 1) as u16),
    {
        proof {
            use_type_invariant(self);
        }
        EffectSlotId(self.0 as u16 + 1)
    }

    /// Every chain position, in order.
    pub fn all() -> (r: Vec<EffectSlotIndex>)
        ensures
            r@.len() == MAX_EFFECT_SLOTS,
            forall|i: int| 0 <= i < r@.len() ==> r@[i]@ == i,
    {
        let mut out: Vec<EffectSlotIndex> = Vec::new();
        let mut i: u8 = 0;
        while (i as usize) < MAX_EFFECT_SLOTS
            invariant
                i as usize <= MAX_EFFECT_SLOTS,
                out@.len() == i,
                forall|k: int| 0 <= k < out@.len() ==> out@[k]@ == k,
            decreases MAX_EFFECT_SLOTS - i as usize,
        {
            out.push(EffectSlotIndex(i));
            i = i + 1;
        }
        out
    }
}

/// Stable nonzero instance identity of one effect occupying a chain position.
#[derive(Clone, Copy, Debug, PartialEq, Eq, Hash, Structural)]
pub struct EffectSlotId(u16);

impl View for EffectSlotId {
    type V = u16;

    closed spec fn view(&self) -> u16 {
        self.0
    }
}

impl EffectSlotId {
    #[verifier::type_invariant]
    closed spec fn in_range(self) -> bool {
        self.0 != 0
    }

    /// Compares two identities.
    pub fn same_as(self, other: EffectSlotId) -> (r: bool)
        ensures
            r == (self == other),
            r == (self@ == other@),
    {
        self.0 == other.0
    }

    /// The identity holding `value`.
    pub closed spec fn spec_from(value: u16) -> EffectSlotId {
        EffectSlotId(value)
    }

    pub broadcast proof fn lemma_spec_from(value: u16)
        ensures
            (#[trigger] EffectSlotId::spec_from(value))@ == value,
    {
    }

    pub fn new(value: u16) -> (r: Result<EffectSlotId, IdentityError>)
        ensures
            value == 0 <==> r is Err,
            r matches Ok(s) ==> s@ == value,
            r matches Err(e) ==> e == IdentityError::OutOfRange,
    {
        if value == 0 {
            Err(IdentityError::OutOfRange)
        } else {
            Ok(EffectSlotId(value))
        }
    }

    pub fn value(self) -> (r: u16)
        ensures
            r == self@,
            r != 0,
    {
        proof {
            use_type_invariant(self);
        }
        self.0
    }
}

/// One bus of the fixed return bank.
#[derive(Clone, Copy, Debug, PartialEq, Eq, Hash, Structural)]
pub struct BusId(u8);

impl View for BusId {
    type V = u8;

    closed spec fn view(&self) -> u8 {
        self.0
    }
}

impl BusId {
    #[verifier::type_invariant]
    closed spec fn in_range(self) -> bool {
        self.0 < BUS_COUNT
    }

    /// Compares two identities.
    pub fn same_as(self, other: BusId) -> (r: bool)
        ensures
            r == (self == other),
            r == (self@ == other@),
    {
        self.0 == other.0
    }

    pub fn new(value: u8) -> (r: Result<BusId, IdentityError>)
        ensures
            value < BUS_COUNT <==> r is Ok,
            r matches Ok(b) ==> b@ == value,
            r matches Err(e) ==> e == IdentityError::OutOfRange,
    {
        if value < BUS_COUNT {
            Ok(BusId(value))
        } else {
            Err(IdentityError::OutOfRange)
        }
    }

    pub fn value(self) -> (r: u8)
        ensures
            r == self@,
            r < BUS_COUNT,
    {
        proof {
            use_type_invariant(self);
        }
        self.0
    }
}

} // verus!

verus! {

/// The characters of an optional capability identity.
pub open spec fn capability_view(c: Option<CapabilityId>) -> Option<Seq<char>> {
    match c {
        Some(id) => Some(id@),
        None => None,
    }
}

/// The characters of an optional effect entry.
pub open spec fn entry_view(e: Option<EffectCapabilityId>) -> Option<Seq<char>> {
    match e {
        Some(id) => Some(id@),
        None => None,
    }
}

/// Copies an optional capability identity, keeping its characters.
pub fn duplicate_capability(c: &Option<CapabilityId>) -> (r: Option<CapabilityId>)
    ensures
        capability_view(r) == capability_view(*c),
{
    match c {
        Some(id) => Some(id.duplicate()),
        None => None,
    }
}

/// Compares two optional capability identities by their characters.
pub fn same_capability(a: &Option<CapabilityId>, b: &Option<CapabilityId>) -> (r: bool)
    ensures
        r == (capability_view(*a) == capability_view(*b)),
{
    match (a, b) {
        (Some(x), Some(y)) => x.same_as(y),
        (None, None) => true,
        _ => false,
    }
}

} // verus!
