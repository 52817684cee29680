//! A deterministic, bounded journal of control events and its named coverage.
use vstd::prelude::*;
use crate::domain::{copy_text, text_equal};
use crate::app_event::AppEventSurfaceDescriptor;
use crate::engine_selection::{EffectView, EngineSelectionEffect};
use crate::rejection::EventRejection;
use crate::text_order::{
    contains_sorted, copy_texts, insert_sorted_unique, remove_sorted, strictly_sorted, texts,
};

verus! {

/// The mathematical content of named coverage.
pub struct CoverageView {
    pub expected: Seq<Seq<char>>,
    pub exercised: Seq<Seq<char>>,
    pub missing: Seq<Seq<char>>,
    pub unexpected: Seq<Seq<char>>,
}

/// Coverage is four strictly sorted identifier lists where `missing` is
/// exactly the expected identifiers not yet exercised and `unexpected` is
/// exactly the exercised identifiers outside the expected surface.
pub open spec fn coverage_coherent(c: CoverageView) -> bool {
    &&& strictly_sorted(c.expected)
    &&& strictly_sorted(c.exercised)
    &&& strictly_sorted(c.missing)
    &&& strictly_sorted(c.unexpected)
    &&& forall|t: Seq<char>| #[trigger]
        c.missing.contains(t) <==> c.expected.contains(t) && !c.exercised.contains(t)
    &&& forall|t: Seq<char>| #[trigger]
        c.unexpected.contains(t) <==> c.exercised.contains(t) && !c.expected.contains(t)
}

/// Named coverage identifiers carried alongside the recorded event history.
///
/// Identifiers are kept sorted and unique so repeated observations and
/// differing discovery order cannot change the recorded trace.
#[derive(Debug, PartialEq, Eq)]
pub struct EventCoverage {
    expected: Vec<String>,
    exercised: Vec<String>,
    missing: Vec<String>,
    unexpected: Vec<String>,
}

impl View for EventCoverage {
    type V = CoverageView;

    closed spec fn view(&self) -> CoverageView {
        CoverageView {
            expected: texts(self.expected@),
            exercised: texts(self.exercised@),
            missing: texts(self.missing@),
            unexpected: texts(self.unexpected@),
        }
    }
}

impl EventCoverage {
    #[verifier::type_invariant]
    closed spec fn coherent(self) -> bool {
        coverage_coherent(self@)
    }

    /// Creates coverage for the complete named surface expected by a caller.
    ///
    /// Repeated identifiers collapse and the result is sorted.
    pub fn new(expected: Vec<String>) -> (r: EventCoverage)
        ensures
            coverage_coherent(r@),
            forall|t: Seq<char>| #[trigger] r@.expected.contains(t) <==> texts(expected@).contains(t),
            r@.missing == r@.expected,
            r@.exercised.len() == 0,
            r@.unexpected.len() == 0,
    {
        let mut sorted: Vec<String> = Vec::new();
        let mut i: usize = 0;
        while i < expected.len()
            invariant
                i <= expected@.len(),
                strictly_sorted(texts(sorted@)),
                forall|t: Seq<char>| #[trigger]
                    texts(sorted@).contains(t) <==> texts(expected@).subrange(0, i as int).contains(t),
            decreases expected.len() - i,
        {
            let ghost prefix = texts(expected@).subrange(0, i as int);
            let ghost next = texts(expected@).subrange(0, i as int + 1);
            let item = copy_text(&expected[i]);
            insert_sorted_unique(&mut sorted, item);
            proof {
                assert(next =~= prefix.push(expected@[i as int]@));
                assert forall|t: Seq<char>| #[trigger] next.contains(t) <==> (prefix.contains(t)
                    || t == expected@[i as int]@) by {
                    if next.contains(t) {
                        let k = choose|k: int| 0 <= k < next.len() && next[k] == t;
                        if k < i {
                            assert(prefix[k] == t);
                        }
                    }
                    if prefix.contains(t) {
                        let k = choose|k: int| 0 <= k < prefix.len() && prefix[k] == t;
                        assert(next[k] == t);
                    }
                    if t == expected@[i as int]@ {
                        assert(next[i as int] == t);
                    }
                }
            }
            i = i + 1;
        }
        assert(texts(expected@).subrange(0, expected@.len() as int) =~= texts(expected@));
        let missing = copy_texts(&sorted);
        EventCoverage { missing, expected: sorted, exercised: Vec::new(), unexpected: Vec::new() }
    }

    /// Coverage with nothing expected.
    pub fn empty() -> (r: EventCoverage)
        ensures
            coverage_coherent(r@),
            r@.expected.len() == 0,
            r@.exercised.len() == 0,
            r@.missing.len() == 0,
            r@.unexpected.len() == 0,
    {
        let r = EventCoverage::new(Vec::new());
        proof {
            if r@.expected.len() > 0 {
                assert(r@.expected.contains(r@.expected[0]));
                assert(texts(Seq::<String>::empty()) =~= Seq::empty());
            }
        }
        r
    }

    /// Returns every expected identifier in deterministic order.
    pub fn expected(&self) -> (r: &Vec<String>)
        ensures
            texts(r@) == self@.expected,
    {
        &self.expected
    }

    /// Returns every observed identifier in deterministic order.
    pub fn exercised(&self) -> (r: &Vec<String>)
        ensures
            texts(r@) == self@.exercised,
    {
        &self.exercised
    }

    /// Returns expected identifiers that have not been observed.
    pub fn missing(&self) -> (r: &Vec<String>)
        ensures
            texts(r@) == self@.missing,
    {
        &self.missing
    }

    /// Returns observed identifiers outside the declared surface.
    pub fn unexpected(&self) -> (r: &Vec<String>)
        ensures
            texts(r@) == self@.unexpected,
    {
        &self.unexpected
    }

    /// Marks one identifier as exercised.
    ///
    /// The result is true only for the first observation. An unexpected
    /// identifier joins both the exercised and the unexpected lists; an
    /// expected one leaves the missing list.
    pub fn mark_exercised(&mut self, identifier: String) -> (r: bool)
        ensures
            coverage_coherent(final(self)@),
            r == !old(self)@.exercised.contains(identifier@),
            final(self)@.expected == old(self)@.expected,
            forall|t: Seq<char>| #[trigger] final(self)@.exercised.contains(t) <==> (old(
                self,
            )@.exercised.contains(t) || t == identifier@),
            !r ==> final(self)@ == old(self)@,
    {
        proof {
            use_type_invariant(&*self);
        }
        let probe = copy_text(&identifier);
        let mut exercised = copy_texts(&self.exercised);
        if !insert_sorted_unique(&mut exercised, identifier) {
            return false;
        }
        let mut missing = copy_texts(&self.missing);
        let mut unexpected = copy_texts(&self.unexpected);
        if !remove_sorted(&mut missing, &probe) {
            if !contains_sorted(&self.expected, &probe) {
                insert_sorted_unique(&mut unexpected, probe);
            }
        }
        *self = EventCoverage {
            expected: copy_texts(&self.expected),
            exercised,
            missing,
            unexpected,
        };
        true
    }

    /// Copies the coverage, keeping its content.
    pub fn duplicate(&self) -> (r: EventCoverage)
        ensures
            r@ == self@,
    {
        proof {
            use_type_invariant(self);
        }
        EventCoverage {
            expected: copy_texts(&self.expected),
            exercised: copy_texts(&self.exercised),
            missing: copy_texts(&self.missing),
            unexpected: copy_texts(&self.unexpected),
        }
    }

    /// Reports whether all expected coverage has been exercised and nothing
    /// outside it was.
    pub fn is_complete(&self) -> (r: bool)
        ensures
            r == (self@.missing.len() == 0 && self@.unexpected.len() == 0),
    {
        self.missing.len() == 0 && self.unexpected.len() == 0
    }
}

/// A coherence or capacity failure detected while updating an EventLog.
#[derive(Clone, Debug, PartialEq, Eq)]
#[allow(inconsistent_fields)]
pub enum EventLogError {
    ZeroCapacity,
    ObservationOverflow,
    EffectRecordUnavailable { sequence: u64 },
    DuplicateStructuralEffect { sequence: u64 },
    SequenceMismatch { expected: u64, actual: u64 },
    GenerationChainMismatch { expected: u64, actual: u64 },
    StateHashChainMismatch { expected: String, actual: String },
}

/// The mathematical content of a journal error.
pub enum LogErrorView {
    ZeroCapacity,
    ObservationOverflow,
    EffectRecordUnavailable { sequence: u64 },
    DuplicateStructuralEffect { sequence: u64 },
    SequenceMismatch { expected: u64, actual: u64 },
    GenerationChainMismatch { expected: u64, actual: u64 },
    StateHashChainMismatch { expected: Seq<char>, actual: Seq<char> },
}

impl View for EventLogError {
    type V = LogErrorView;

    open spec fn view(&self) -> LogErrorView {
        match self {
            EventLogError::ZeroCapacity => LogErrorView::ZeroCapacity,
            EventLogError::ObservationOverflow => LogErrorView::ObservationOverflow,
            EventLogError::EffectRecordUnavailable { sequence } =>
                LogErrorView::EffectRecordUnavailable { sequence: *sequence },
            EventLogError::DuplicateStructuralEffect { sequence } =>
                LogErrorView::DuplicateStructuralEffect { sequence: *sequence },
            EventLogError::SequenceMismatch { expected, actual } =>
                LogErrorView::SequenceMismatch { expected: *expected, actual: *actual },
            EventLogError::GenerationChainMismatch { expected, actual } =>
                LogErrorView::GenerationChainMismatch { expected: *expected, actual: *actual },
            EventLogError::StateHashChainMismatch { expected, actual } =>
                LogErrorView::StateHashChainMismatch { expected: expected@, actual: actual@ },
        }
    }
}

pub open spec fn log_result_view(r: Result<(), EventLogError>) -> Result<(), LogErrorView> {
    match r {
        Ok(()) => Ok(()),
        Err(e) => Err(e@),
    }
}

/// Where an observed event came from.
#[derive(Clone, Copy, Debug, PartialEq, Eq, Hash, Structural)]
pub enum EventSource {
    Keyboard,
    PhysicalMidi,
    Worker,
    System,
    DemoScene,
}

/// Whether the reducer accepted an observed event.
#[derive(Clone, Copy, Debug, PartialEq, Eq, Hash, Structural)]
pub enum EventOutcome {
    Accepted,
    Rejected,
}

/// The mathematical content of one journal record.
pub struct RecordView {
    pub sequence: u64,
    pub source: EventSource,
    pub event: AppEventSurfaceDescriptor,
    pub rejection: Option<EventRejection>,
    pub generation_before: u64,
    pub state_hash_before: Seq<char>,
    pub generation_after: u64,
    pub state_hash_after: Seq<char>,
    pub effects: Seq<EffectView>,
}

/// One observed control event: its position in the journal, its source, the
/// event's surface entry, the rejection if it was refused, and the state
/// transition it caused, with the structural effects attributed to it.
#[derive(Clone, Debug, PartialEq, Eq)]
pub struct EventRecord {
    sequence: u64,
    source: EventSource,
    event: AppEventSurfaceDescriptor,
    rejection: Option<EventRejection>,
    generation_before: u64,
    state_hash_before: String,
    generation_after: u64,
    state_hash_after: String,
    effects: Vec<EngineSelectionEffect>,
}

pub open spec fn effect_views(v: Seq<EngineSelectionEffect>) -> Seq<EffectView> {
    v.map_values(|e: EngineSelectionEffect| e@)
}

impl View for EventRecord {
    type V = RecordView;

    closed spec fn view(&self) -> RecordView {
        RecordView {
            sequence: self.sequence,
            source: self.source,
            event: self.event,
            rejection: self.rejection,
            generation_before: self.generation_before,
            state_hash_before: self.state_hash_before@,
            generation_after: self.generation_after,
            state_hash_after: self.state_hash_after@,
            effects: effect_views(self.effects@),
        }
    }
}

impl EventRecord {
    /// Records one accepted event of `source`, by its surface entry, and its
    /// transition from a state to its successor.
    pub fn new(
        sequence: u64,
        source: EventSource,
        event: AppEventSurfaceDescriptor,
        generation_before: u64,
        state_hash_before: String,
        generation_after: u64,
        state_hash_after: String,
    ) -> (r: EventRecord)
        ensures
            r@ == (RecordView {
                sequence,
                source,
                event,
                rejection: None,
                generation_before,
                state_hash_before: state_hash_before@,
                generation_after,
                state_hash_after: state_hash_after@,
                effects: Seq::empty(),
            }),
    {
        let r = EventRecord {
            sequence,
            source,
            event,
            rejection: None,
            generation_before,
            state_hash_before,
            generation_after,
            state_hash_after,
            effects: Vec::new(),
        };
        assert(effect_views(r.effects@) =~= Seq::empty());
        r
    }

    /// Records a rejected event of `source` with its rejection: the state
    /// and its generation are unchanged.
    pub fn rejected(
        sequence: u64,
        source: EventSource,
        event: AppEventSurfaceDescriptor,
        generation: u64,
        state_hash: String,
        rejection: EventRejection,
    ) -> (r: EventRecord)
        ensures
            r@ == (RecordView {
                sequence,
                source,
                event,
                rejection: Some(rejection),
                generation_before: generation,
                state_hash_before: state_hash@,
                generation_after: generation,
                state_hash_after: state_hash@,
                effects: Seq::empty(),
            }),
    {
        let after = copy_text(&state_hash);
        let r = EventRecord {
            sequence,
            source,
            event,
            rejection: Some(rejection),
            generation_before: generation,
            state_hash_before: state_hash,
            generation_after: generation,
            state_hash_after: after,
            effects: Vec::new(),
        };
        assert(effect_views(r.effects@) =~= Seq::empty());
        r
    }

    pub fn source(&self) -> (r: EventSource)
        ensures
            r == self@.source,
    {
        self.source
    }

    /// The surface entry of the recorded event.
    pub fn event(&self) -> (r: AppEventSurfaceDescriptor)
        ensures
            r == self@.event,
    {
        self.event
    }

    /// The rejection of a refused event.
    pub fn rejection(&self) -> (r: Option<EventRejection>)
        ensures
            r == self@.rejection,
    {
        self.rejection
    }

    /// Whether the recorded event was accepted or rejected.
    pub fn outcome(&self) -> (r: EventOutcome)
        ensures
            r == (if self@.rejection is None {
                EventOutcome::Accepted
            } else {
                EventOutcome::Rejected
            }),
    {
        match self.rejection {
            None => EventOutcome::Accepted,
            Some(_) => EventOutcome::Rejected,
        }
    }

    pub fn sequence(&self) -> (r: u64)
        ensures
            r == self@.sequence,
    {
        self.sequence
    }

    pub fn generation_before(&self) -> (r: u64)
        ensures
            r == self@.generation_before,
    {
        self.generation_before
    }

    pub fn generation_after(&self) -> (r: u64)
        ensures
            r == self@.generation_after,
    {
        self.generation_after
    }

    pub fn state_hash_before(&self) -> (r: &str)
        ensures
            r@ == self@.state_hash_before,
    {
        self.state_hash_before.as_str()
    }

    pub fn state_hash_after(&self) -> (r: &str)
        ensures
            r@ == self@.state_hash_after,
    {
        self.state_hash_after.as_str()
    }

    /// Returns the structural effects attributed to this record, in order.
    pub fn engine_selection_effects(&self) -> (r: &Vec<EngineSelectionEffect>)
        ensures
            effect_views(r@) == self@.effects,
    {
        &self.effects
    }

    /// Copies the record, keeping its content.
    pub fn duplicate(&self) -> (r: EventRecord)
        ensures
            r@ == self@,
    {
        let mut effects: Vec<EngineSelectionEffect> = Vec::new();
        let mut i: usize = 0;
        while i < self.effects.len()
            invariant
                i <= self.effects@.len(),
                effects@.len() == i,
                forall|k: int| 0 <= k < i ==> #[trigger] effects@[k]@ == self.effects@[k]@,
            decreases self.effects.len() - i,
        {
            effects.push(self.effects[i].duplicate());
            i = i + 1;
        }
        assert(effect_views(effects@) =~= effect_views(self.effects@));
        EventRecord {
            sequence: self.sequence,
            source: self.source,
            event: self.event,
            rejection: self.rejection,
            generation_before: self.generation_before,
            state_hash_before: copy_text(&self.state_hash_before),
            generation_after: self.generation_after,
            state_hash_after: copy_text(&self.state_hash_after),
            effects,
        }
    }

    /// Attributes one structural effect to this record unless the record
    /// already holds that exact effect.
    pub fn append_engine_selection_effect(&mut self, effect: EngineSelectionEffect) -> (r: bool)
        ensures
            r == !old(self)@.effects.contains(effect@),
            r ==> final(self)@ == (RecordView {
                effects: old(self)@.effects.push(effect@),
                ..old(self)@
            }),
            !r ==> final(self)@ == old(self)@,
    {
        let mut i: usize = 0;
        while i < self.effects.len()
            invariant
                i <= self.effects@.len(),
                forall|k: int| 0 <= k < i ==> #[trigger] effect_views(self.effects@)[k] != effect@,
            decreases self.effects.len() - i,
        {
            if self.effects[i].same_as(&effect) {
                assert(effect_views(self.effects@)[i as int] == effect@);
                return false;
            }
            i = i + 1;
        }
        let ghost before = self.effects@;
        self.effects.push(effect);
        assert(effect_views(self.effects@) =~= effect_views(before).push(effect@));
        true
    }
}

/// Copies records, keeping their content.
fn copy_records(records: &Vec<EventRecord>) -> (r: Vec<EventRecord>)
    ensures
        record_views(r@) == record_views(records@),
        r@.len() == records@.len(),
        forall|i: int| 0 <= i < r@.len() ==> #[trigger] r@[i]@ == records@[i]@,
{
    let mut r: Vec<EventRecord> = Vec::new();
    let mut i: usize = 0;
    while i < records.len()
        invariant
            i <= records@.len(),
            r@.len() == i,
            forall|k: int| 0 <= k < i ==> #[trigger] r@[k]@ == records@[k]@,
        decreases records.len() - i,
    {
        r.push(records[i].duplicate());
        i = i + 1;
    }
    assert(record_views(r@) =~= record_views(records@));
    r
}

/// The mathematical content of the journal.
pub struct LogView {
    pub schema_version: u32,
    pub coverage: CoverageView,
    pub dropped_records: u64,
    pub records: Seq<RecordView>,
    pub total_observed: u64,
    pub capacity: usize,
}

pub open spec fn record_views(v: Seq<EventRecord>) -> Seq<RecordView> {
    v.map_values(|r: EventRecord| r@)
}

/// The stable schema version emitted in every serialized log.
pub const SCHEMA_VERSION: u32 = 5;

/// The journal's invariant: it retains at most `capacity` records, every
/// observed record is either retained or counted as dropped, retained
/// records carry contiguous sequences ending at the newest observation, and
/// each retained record continues its predecessor's generation and state hash.
pub open spec fn log_coherent(l: LogView) -> bool {
    &&& l.schema_version == SCHEMA_VERSION
    &&& coverage_coherent(l.coverage)
    &&& l.capacity > 0
    &&& l.records.len() <= l.capacity
    &&& l.dropped_records + l.records.len() == l.total_observed
    &&& forall|i: int| 0 <= i < l.records.len() ==> #[trigger] l.records[i].sequence
        == l.dropped_records + i
    &&& forall|i: int| 0 < i < l.records.len() ==> (#[trigger] l.records[i]).generation_before
        == l.records[i - 1].generation_after && l.records[i].state_hash_before == l.records[i
        - 1].state_hash_after
}

/// The journal after appending `record` to a log that has room or evicts its
/// oldest record.
pub open spec fn appended(l: LogView, record: RecordView) -> LogView {
    if l.records.len() == l.capacity {
        LogView {
            dropped_records: (l.dropped_records + 1) as u64,
            records: l.records.drop_first().push(record),
            total_observed: (l.total_observed + 1) as u64,
            ..l
        }
    } else {
        LogView {
            records: l.records.push(record),
            total_observed: (l.total_observed + 1) as u64,
            ..l
        }
    }
}

/// The outcome the journal gives one appended record.
pub open spec fn append_outcome(l: LogView, record: RecordView) -> Result<(), LogErrorView> {
    if l.total_observed == u64::MAX {
        Err(LogErrorView::ObservationOverflow)
    } else if record.sequence != l.total_observed {
        Err(LogErrorView::SequenceMismatch { expected: l.total_observed, actual: record.sequence })
    } else if l.records.len() > 0 && record.generation_before != l.records.last().generation_after {
        Err(
            LogErrorView::GenerationChainMismatch {
                expected: l.records.last().generation_after,
                actual: record.generation_before,
            },
        )
    } else if l.records.len() > 0 && record.state_hash_before != l.records.last().state_hash_after {
        Err(
            LogErrorView::StateHashChainMismatch {
                expected: l.records.last().state_hash_after,
                actual: record.state_hash_before,
            },
        )
    } else {
        Ok(())
    }
}

/// Whether the record observed with `sequence` is still retained.
pub open spec fn retains_sequence(l: LogView, sequence: u64) -> bool {
    l.dropped_records <= sequence < l.total_observed
}

/// The retained record observed with `sequence`.
pub open spec fn record_at(l: LogView, sequence: u64) -> RecordView {
    l.records[sequence - l.dropped_records]
}

/// The journal with `effect` attributed to the record observed with `sequence`.
pub open spec fn with_effect(l: LogView, sequence: u64, effect: EffectView) -> LogView {
    let old_record = record_at(l, sequence);
    let new_record = RecordView { effects: old_record.effects.push(effect), ..old_record };
    LogView { records: l.records.update(sequence - l.dropped_records, new_record), ..l }
}

/// A deterministic, bounded journal of control events.
///
/// Once the configured capacity is reached, appending a coherent record
/// evicts the oldest record and increments `dropped_records`; eviction is
/// therefore always observable.
#[derive(Debug, PartialEq, Eq)]
struct Journal {
    dropped_records: u64,
    records: Vec<EventRecord>,
    total_observed: u64,
}

#[derive(Debug, PartialEq, Eq)]
pub struct EventLog {
    schema_version: u32,
    coverage: EventCoverage,
    journal: Journal,
    capacity: usize,
}

impl View for EventLog {
    type V = LogView;

    closed spec fn view(&self) -> LogView {
        LogView {
            schema_version: self.schema_version,
            coverage: self.coverage@,
            dropped_records: self.journal.dropped_records,
            records: record_views(self.journal.records@),
            total_observed: self.journal.total_observed,
            capacity: self.capacity,
        }
    }
}

/// The serialized journal property surface.
pub open spec fn serialized_properties() -> Seq<Seq<char>> {
    seq![
        "schemaVersion"@,
        "totalObserved"@,
        "droppedRecords"@,
        "records"@,
        "coverage.expected"@,
        "coverage.exercised"@,
        "coverage.missing"@,
        "coverage.unexpected"@,
    ]
}

impl EventLog {
    #[verifier::type_invariant]
    closed spec fn coherent(self) -> bool {
        log_coherent(self@)
    }

    /// Returns the serialized journal property surface.
    pub fn serialized_property_descriptor() -> (r: Vec<&'static str>)
        ensures
            r@.map_values(|s: &'static str| s@) == serialized_properties(),
    {
        let r = vec![
            "schemaVersion",
            "totalObserved",
            "droppedRecords",
            "records",
            "coverage.expected",
            "coverage.exercised",
            "coverage.missing",
            "coverage.unexpected",
        ];
        assert(r@.map_values(|s: &'static str| s@) =~= serialized_properties());
        r
    }

    /// Creates an empty bounded journal without predeclared coverage.
    pub fn new(capacity: usize) -> (r: Result<EventLog, EventLogError>)
        ensures
            capacity == 0 <==> r is Err,
            r matches Err(e) ==> e == EventLogError::ZeroCapacity,
            r matches Ok(l) ==> log_coherent(l@) && l@.capacity == capacity && l@.records.len()
                == 0 && l@.total_observed == 0 && l@.dropped_records == 0
                && l@.coverage.expected.len() == 0 && l@.coverage.exercised.len() == 0,
    {
        Self::with_coverage(capacity, EventCoverage::empty())
    }

    /// Creates an empty bounded journal with its complete expected coverage.
    pub fn with_coverage(capacity: usize, coverage: EventCoverage) -> (r: Result<
        EventLog,
        EventLogError,
    >)
        ensures
            capacity == 0 <==> r is Err,
            r matches Err(e) ==> e == EventLogError::ZeroCapacity,
            r matches Ok(l) ==> log_coherent(l@) && l@ == (LogView {
                schema_version: SCHEMA_VERSION,
                coverage: coverage@,
                dropped_records: 0,
                records: Seq::empty(),
                total_observed: 0,
                capacity,
            }),
    {
        proof {
            use_type_invariant(&coverage);
        }
        if capacity == 0 {
            return Err(EventLogError::ZeroCapacity);
        }
        let l = EventLog {
            schema_version: SCHEMA_VERSION,
            coverage,
            journal: Journal { dropped_records: 0, records: Vec::new(), total_observed: 0 },
            capacity,
        };
        assert(record_views(l.journal.records@) =~= Seq::empty());
        Ok(l)
    }

    /// Returns the sequence that must be assigned to the next record.
    pub fn next_sequence(&self) -> (r: u64)
        ensures
            r == self@.total_observed,
    {
        self.journal.total_observed
    }

    /// Appends one record after validating its complete transition chain.
    ///
    /// A rejected record leaves the journal unchanged.
    #[verifier::rlimit(40)]
    pub fn append(&mut self, record: EventRecord) -> (r: Result<(), EventLogError>)
        ensures
            log_coherent(final(self)@),
            log_result_view(r) == append_outcome(old(self)@, record@),
            r is Ok ==> final(self)@ == appended(old(self)@, record@),
            r is Err ==> final(self)@ == old(self)@,
    {
        proof {
            use_type_invariant(&*self);
        }
        let total = self.journal.total_observed;
        if total == u64::MAX {
            return Err(EventLogError::ObservationOverflow);
        }
        if record.sequence() != total {
            return Err(EventLogError::SequenceMismatch { expected: total, actual: record.sequence() });
        }
        let len = self.journal.records.len();
        if len > 0 {
            let previous = &self.journal.records[len - 1];
            assert(record_views(self.journal.records@).last() == previous@);
            if record.generation_before() != previous.generation_after() {
                return Err(
                    EventLogError::GenerationChainMismatch {
                        expected: previous.generation_after(),
                        actual: record.generation_before(),
                    },
                );
            }
            if !text_equal(&record.state_hash_before, &previous.state_hash_after) {
                return Err(
                    EventLogError::StateHashChainMismatch {
                        expected: copy_text(&previous.state_hash_after),
                        actual: copy_text(&record.state_hash_before),
                    },
                );
            }
        }
        let ghost old_view = self@;
        let ghost rv = record@;
        let mut records = copy_records(&self.journal.records);
        let mut dropped = self.journal.dropped_records;
        if len == self.capacity {
            let ghost before = records@;
            records.remove(0);
            proof {
                assert(record_views(records@) =~= record_views(before).drop_first());
            }
            dropped = dropped + 1;
        }
        let ghost before_push = records@;
        records.push(record);
        proof {
            assert(record_views(records@) =~= record_views(before_push).push(rv));
        }
        self.journal = Journal { dropped_records: dropped, records, total_observed: total + 1 };
        proof {
            assert(self@.records =~= appended(old_view, rv).records);
        }
        Ok(())
    }

    /// Marks one named event, parameter, or property identifier as exercised.
    pub fn mark_exercised(&mut self, identifier: String) -> (r: bool)
        ensures
            log_coherent(final(self)@),
            r == !old(self)@.coverage.exercised.contains(identifier@),
            final(self)@.coverage.expected == old(self)@.coverage.expected,
            forall|t: Seq<char>| #[trigger] final(self)@.coverage.exercised.contains(t) <==> (old(
                self,
            )@.coverage.exercised.contains(t) || t == identifier@),
            final(self)@.records == old(self)@.records,
            final(self)@.total_observed == old(self)@.total_observed,
            final(self)@.dropped_records == old(self)@.dropped_records,
            final(self)@.capacity == old(self)@.capacity,
    {
        proof {
            use_type_invariant(&*self);
        }
        let mut coverage = self.coverage.duplicate();
        let r = coverage.mark_exercised(identifier);
        self.coverage = coverage;
        r
    }

    /// Returns the stable schema version.
    pub fn schema_version(&self) -> (r: u32)
        ensures
            r == self@.schema_version,
            r == SCHEMA_VERSION,
    {
        proof {
            use_type_invariant(&*self);
        }
        self.schema_version
    }

    /// Attributes one structural effect to the retained record with
    /// `sequence`.
    #[verifier::rlimit(100)]
    #[verifier::spinoff_prover]
    pub fn append_engine_selection_effect(
        &mut self,
        sequence: u64,
        effect: EngineSelectionEffect,
    ) -> (r: Result<(), EventLogError>)
        ensures
            log_coherent(final(self)@),
            !retains_sequence(old(self)@, sequence) ==> r == Err::<(), EventLogError>(
                EventLogError::EffectRecordUnavailable { sequence },
            ) && final(self)@ == old(self)@,
            retains_sequence(old(self)@, sequence) && record_at(old(self)@, sequence).effects.contains(
                effect@,
            ) ==> r == Err::<(), EventLogError>(
                EventLogError::DuplicateStructuralEffect { sequence },
            ) && final(self)@ == old(self)@,
            retains_sequence(old(self)@, sequence) && !record_at(
                old(self)@,
                sequence,
            ).effects.contains(effect@) ==> r is Ok && final(self)@ == with_effect(
                old(self)@,
                sequence,
                effect@,
            ),
    {
        proof {
            use_type_invariant(&*self);
        }
        let dropped = self.journal.dropped_records;
        let total = self.journal.total_observed;
        if sequence < dropped || sequence >= total {
            return Err(EventLogError::EffectRecordUnavailable { sequence });
        }
        let index = (sequence - dropped) as usize;
        let ghost old_view = self@;
        let mut records = copy_records(&self.journal.records);
        let mut record = records.remove(index);
        proof {
            assert(record@ == old_view.records[index as int]);
        }
        if !record.append_engine_selection_effect(effect) {
            return Err(EventLogError::DuplicateStructuralEffect { sequence });
        }
        let ghost updated = record@;
        let ghost before_insert = records@;
        records.insert(index, record);
        proof {
            assert(record_views(records@) =~= old_view.records.update(index as int, updated));
        }
        self.journal = Journal {
            dropped_records: dropped,
            records,
            total_observed: total,
        };
        Ok(())
    }

    /// Returns the configured maximum number of retained records.
    pub fn capacity(&self) -> (r: usize)
        ensures
            r == self@.capacity,
            r > 0,
    {
        proof {
            use_type_invariant(&*self);
        }
        self.capacity
    }

    /// Returns retained records in chronological order.
    pub fn records(&self) -> (r: &Vec<EventRecord>)
        ensures
            record_views(r@) == self@.records,
    {
        &self.journal.records
    }

    /// Returns the number of currently retained records.
    pub fn len(&self) -> (r: usize)
        ensures
            r == self@.records.len(),
    {
        self.journal.records.len()
    }

    /// Reports whether no records are currently retained.
    pub fn is_empty(&self) -> (r: bool)
        ensures
            r == (self@.records.len() == 0),
    {
        self.journal.records.len() == 0
    }

    /// Returns the total number of coherent records ever appended.
    pub fn total_observed(&self) -> (r: u64)
        ensures
            r == self@.total_observed,
    {
        self.journal.total_observed
    }

    /// Returns the number of oldest records evicted by the bounded journal.
    pub fn dropped_records(&self) -> (r: u64)
        ensures
            r == self@.dropped_records,
    {
        self.journal.dropped_records
    }

    /// Returns named expected, exercised, and missing coverage.
    pub fn coverage(&self) -> (r: &EventCoverage)
        ensures
            r@ == self@.coverage,
    {
        &self.coverage
    }
}


/// Appending to a coherent journal puts the new record last, keeps exactly
/// the newest records up to the capacity in order, and counts one more
/// observed event.
#[verifier::rlimit(40)]
pub proof fn lemma_append_keeps_the_newest_records(l: LogView, record: RecordView)
    requires
        log_coherent(l),
        append_outcome(l, record) is Ok,
    ensures
        ({
            let n = appended(l, record);
            let all = l.records.push(record);
            &&& n.records.last() == record
            &&& n.records.len() == (if l.records.len() < l.capacity {
                l.records.len() as int + 1
            } else {
                l.capacity as int
            })
            &&& n.records == all.subrange(all.len() - n.records.len(), all.len() as int)
            &&& n.total_observed == l.total_observed + 1
            &&& n.dropped_records + n.records.len() == n.total_observed
        }),
{
    let n = appended(l, record);
    let all = l.records.push(record);
    let off: int = if l.records.len() == l.capacity {
        1
    } else {
        0
    };
    assert(n.records.len() == l.records.len() + 1 - off);
    assert(n.dropped_records == l.dropped_records + off);
    assert forall|i: int| 0 <= i < n.records.len() - 1 implies #[trigger] n.records[i] == l.records[i + off] by {}
    assert(n.records[n.records.len() - 1] == record);
    assert(n.records =~= all.subrange(all.len() - n.records.len(), all.len() as int));
}

} // verus!
