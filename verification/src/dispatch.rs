//! One dispatch of an event through canonical state and the journal: the
//! loop's admission, the reducer, and the record every event leaves.
use vstd::prelude::*;
use crate::app_event::{event_entry, event_publishes_parameters, AppEvent, AppEventSurfaceDescriptor};
use crate::app_state::{
    channel_subscribers, outcome_view, patch_index_of, state_wf, AppState, ApplyOutcome, AudioCommand, OutcomeView,
    StateView,
};
use crate::domain::PatchId;
use crate::patch::PatchView;
use crate::payloads::MidiMessage;
use crate::event_log::{appended, EventLog, EventRecord, EventSource, LogView, RecordView};
use crate::domain::GraphRevision;
use crate::engine_selection::{CorrelationView, EffectView, EngineSelectionStatusError};
use crate::rejection::EventRejection;
use crate::structural_events::{activation_acknowledgement_event, dispatch_admission, touches_structure};
use crate::transitions::{activation_acknowledged, applied};

verus! {

/// Whether the journal's next record can follow a state of generation
/// `generation` whose projection hashes to `hash`.
pub open spec fn journal_follows(l: LogView, generation: u64, hash: Seq<char>) -> bool {
    &&& l.total_observed < u64::MAX
    &&& l.records.len() > 0 ==> l.records.last().generation_after == generation
        && l.records.last().state_hash_after == hash
}

/// The record a refused event leaves: its source, its surface entry and its
/// rejection; the state and its hash are unchanged.
pub open spec fn rejected_record(
    sequence: u64,
    source: EventSource,
    event: AppEventSurfaceDescriptor,
    rejection: EventRejection,
    generation: u64,
    hash: Seq<char>,
) -> RecordView {
    RecordView {
        sequence,
        source,
        event,
        rejection: Some(rejection),
        generation_before: generation,
        state_hash_before: hash,
        generation_after: generation,
        state_hash_after: hash,
        effects: Seq::empty(),
    }
}

/// The record an accepted event leaves, carrying the structural effect the
/// event published.
pub open spec fn accepted_record(
    sequence: u64,
    source: EventSource,
    event: AppEventSurfaceDescriptor,
    generation_before: u64,
    hash_before: Seq<char>,
    generation_after: u64,
    hash_after: Seq<char>,
    effect: Option<EffectView>,
) -> RecordView {
    RecordView {
        sequence,
        source,
        event,
        rejection: None,
        generation_before,
        state_hash_before: hash_before,
        generation_after,
        state_hash_after: hash_after,
        effects: match effect {
            Some(e) => seq![e],
            None => Seq::empty(),
        },
    }
}

/// What one accepted dispatch did.
pub struct DispatchDecision {
    /// Where the event came from.
    pub source: EventSource,
    /// The surface entry of the accepted event.
    pub event: AppEventSurfaceDescriptor,
    /// The generation the event was applied to.
    pub generation_before: u64,
    /// The reducer's answer.
    pub outcome: ApplyOutcome,
    /// Whether a new scalar snapshot must cross the real-time boundary.
    pub publishes_parameters: bool,
}

/// Dispatches one event: while a whole-session replacement is pending,
/// events that touch audio or structure are refused as busy before they
/// reach the reducer or the journal; every other event goes through the
/// reducer. An event the reducer refuses leaves the state as it was and
/// exactly one rejected record in the journal; an accepted event leaves the
/// journal to [`record_acceptance`], once its new state is projected.
#[verifier::rlimit(60)]
#[verifier::spinoff_prover]
pub fn dispatch_step(
    state: &mut AppState,
    log: &mut EventLog,
    source: EventSource,
    event: AppEvent,
    state_hash: String,
    session_replacement_pending: bool,
) -> (r: Result<DispatchDecision, EventRejection>)
    requires
        state_wf(old(state)@),
        journal_follows(old(log)@, old(state)@.generation, state_hash@),
    ensures
        state_wf(final(state)@),
        session_replacement_pending && touches_structure(event) ==> r == Err::<DispatchDecision, EventRejection>(
            EventRejection::StructuralEditBusy,
        ) && *final(state) == *old(state) && final(log)@ == old(log)@,
        !(session_replacement_pending && touches_structure(event)) ==> match r {
            Ok(d) => outcome_view(Ok(d.outcome), final(state)@) == applied(old(state)@, event),
            Err(e) => applied(old(state)@, event) == Err::<
                (crate::app_state::StateView, Option<crate::app_state::AudioCommand>, Option<EffectView>),
                EventRejection,
            >(e),
        },
        r is Err && !(session_replacement_pending && touches_structure(event)) ==> *final(state) == *old(state)
            && final(log)@ == appended(
            old(log)@,
            rejected_record(
                old(log)@.total_observed,
                source,
                event_entry(event),
                r->Err_0,
                old(state)@.generation,
                state_hash@,
            ),
        ),
        r matches Ok(d) ==> final(log)@ == old(log)@ && d.generation_before == old(state)@.generation
            && d.publishes_parameters == event_publishes_parameters(event) && d.source == source
            && d.event == event_entry(event) && d.outcome@.generation
            == final(state)@.generation && final(state)@.generation == old(state)@.generation + 1,
        r is Err && !(session_replacement_pending && touches_structure(event)) && old(log)@.total_observed + 1
            < u64::MAX ==> journal_follows(
            final(log)@,
            final(state)@.generation,
            state_hash@,
        ),
{
    let generation_before = state.generation();
    let entry = event.surface_entry();
    let publishes_parameters = event.publishes_parameters_on_acceptance();
    if let Err(busy) = dispatch_admission(&event, session_replacement_pending) {
        return Err(busy);
    }
    match state.apply(event) {
        Ok(outcome) => Ok(DispatchDecision { source, event: entry, generation_before, outcome, publishes_parameters }),
        Err(rejection) => {
            let record = EventRecord::rejected(
                log.next_sequence(),
                source,
                entry,
                generation_before,
                state_hash,
                rejection,
            );
            let appended_ok = log.append(record);
            proof {
                assert(appended_ok is Ok);
            }
            Err(rejection)
        },
    }
}

/// Records one accepted dispatch once its new state is projected to
/// `hash_after`, chaining it to the record before it.
#[verifier::rlimit(40)]
#[verifier::spinoff_prover]
pub fn record_acceptance(log: &mut EventLog, decision: &DispatchDecision, hash_before: String, hash_after: String)
    requires
        journal_follows(old(log)@, decision.generation_before, hash_before@),
    ensures
        final(log)@ == appended(
            old(log)@,
            accepted_record(
                old(log)@.total_observed,
                decision.source,
                decision.event,
                decision.generation_before,
                hash_before@,
                decision.outcome@.generation,
                hash_after@,
                decision.outcome@.engine_selection_effect,
            ),
        ),
        old(log)@.total_observed + 1 < u64::MAX ==> journal_follows(
            final(log)@,
            decision.outcome@.generation,
            hash_after@,
        ),
{
    let mut record = EventRecord::new(
        log.next_sequence(),
        decision.source,
        decision.event,
        decision.generation_before,
        hash_before,
        decision.outcome.accepted().generation(),
        hash_after,
    );
    match decision.outcome.engine_selection_effect() {
        Some(effect) => {
            let _ = record.append_engine_selection_effect(effect.duplicate());
            assert(Seq::<EffectView>::empty().push(effect@) =~= seq![effect@]);
        },
        None => {},
    }
    let appended_ok = log.append(record);
    proof {
        assert(appended_ok is Ok);
    }
}

/// The state an event leaves: its successor when the reducer accepts it,
/// the same state when it is refused.
pub open spec fn kept_or_applied(s: StateView, e: Option<AppEvent>) -> StateView {
    match e {
        None => s,
        Some(ev) => match applied(s, ev) {
            Ok((n, _, _)) => n,
            Err(_) => s,
        },
    }
}

/// Whether an optional event was offered and refused, and with what.
pub open spec fn refusal_of(s: StateView, e: Option<AppEvent>) -> Option<EventRejection> {
    match e {
        None => None,
        Some(ev) => match applied(s, ev) {
            Ok(_) => None,
            Err(x) => Some(x),
        },
    }
}

/// The reducer's answer to acknowledging the activation of `target` for the
/// request `s` is activating.
pub open spec fn acknowledgement_applied(s: StateView, c: CorrelationView, target: u64) -> Result<
    StateView,
    EventRejection,
> {
    if s.generation == u64::MAX {
        Err(EventRejection::GenerationOverflow)
    } else {
        match activation_acknowledged(s, c.request_id, c.intent, target, c.source_graph_revision, true) {
            Ok((n, _)) => Ok(StateView { generation: (s.generation + 1) as u64, ..n }),
            Err(x) => Err(x),
        }
    }
}

/// What one structural advance did.
pub struct StructuralProgress {
    /// The deferred failure answer was accepted.
    pub failure_dispatched: bool,
    /// The worker's report was accepted.
    pub report_dispatched: bool,
    /// The revision whose activation was acknowledged.
    pub activation_acknowledged: Option<GraphRevision>,
    /// The refusal of the last refused answer.
    pub rejected_worker_event: Option<EventRejection>,
}

/// One structural advance of the control loop, in its fixed order: the
/// failure answer deferred at submission, then the worker's report (as
/// [`crate::structural_events::preparation_report_event`] builds it), then the
/// acknowledgement of a completed activation. Only the revision the active
/// request targets can complete it; every answer goes through the reducer.
pub fn advance_structural_step(
    state: &mut AppState,
    deferred_failure: Option<AppEvent>,
    report_event: Option<AppEvent>,
    completed: Option<GraphRevision>,
) -> (r: Result<StructuralProgress, EngineSelectionStatusError>)
    requires
        state_wf(old(state)@),
    ensures
        state_wf(final(state)@),
        ({
            let s1 = kept_or_applied(old(state)@, deferred_failure);
            let s2 = kept_or_applied(s1, report_event);
            let earlier = if refusal_of(s1, report_event) is Some {
                refusal_of(s1, report_event)
            } else {
                refusal_of(old(state)@, deferred_failure)
            };
            &&& r matches Ok(p) ==> p.failure_dispatched == (deferred_failure is Some && refusal_of(
                old(state)@,
                deferred_failure,
            ) is None) && p.report_dispatched == (report_event is Some && refusal_of(s1, report_event) is None)
            &&& match completed {
                None => r is Ok && final(state)@ == s2 && r->Ok_0.activation_acknowledged is None
                    && r->Ok_0.rejected_worker_event == earlier,
                Some(t) => match s2.engine_selection.correlation {
                    None => r == Err::<StructuralProgress, EngineSelectionStatusError>(
                        EngineSelectionStatusError::MissingCorrelation,
                    ) && final(state)@ == s2,
                    Some(c) => if c.target_graph_revision != Some(t@) {
                        r == Err::<StructuralProgress, EngineSelectionStatusError>(
                            EngineSelectionStatusError::InvalidTransition,
                        ) && final(state)@ == s2
                    } else {
                        r is Ok && match acknowledgement_applied(s2, c, t@) {
                            Ok(n) => final(state)@ == n && r->Ok_0.activation_acknowledged == Some(t)
                                && r->Ok_0.rejected_worker_event == earlier,
                            Err(x) => final(state)@ == s2 && r->Ok_0.activation_acknowledged is None
                                && r->Ok_0.rejected_worker_event == Some(x),
                        }
                    },
                },
            }
        }),
{
    let mut progress = StructuralProgress {
        failure_dispatched: false,
        report_dispatched: false,
        activation_acknowledged: None,
        rejected_worker_event: None,
    };
    if let Some(event) = deferred_failure {
        match state.apply(event) {
            Ok(_) => {
                progress.failure_dispatched = true;
            },
            Err(x) => {
                progress.rejected_worker_event = Some(x);
            },
        }
    }
    if let Some(event) = report_event {
        match state.apply(event) {
            Ok(_) => {
                progress.report_dispatched = true;
            },
            Err(x) => {
                progress.rejected_worker_event = Some(x);
            },
        }
    }
    let target = match completed {
        None => {
            return Ok(progress);
        },
        Some(t) => t,
    };
    let event = activation_acknowledgement_event(state.engine_selection(), target)?;
    match state.apply(event) {
        Ok(_) => {
            progress.activation_acknowledged = Some(target);
        },
        Err(x) => {
            progress.rejected_worker_event = Some(x);
        },
    }
    Ok(progress)
}


/// Every Patch a MIDI channel fans out to is installed.
proof fn lemma_subscribers_installed(ps: Seq<PatchView>, channel: crate::domain::MidiChannel)
    ensures
        forall|k: int| 0 <= k < channel_subscribers(ps, channel).len() ==> exists|i: int| 0 <= i < ps.len()
            && ps[i].id == #[trigger] channel_subscribers(ps, channel)[k],
    decreases ps.len(),
{
    if ps.len() > 0 {
        let before = ps.drop_last();
        lemma_subscribers_installed(before, channel);
        let subs = channel_subscribers(ps, channel);
        assert forall|k: int| 0 <= k < subs.len() implies exists|i: int| 0 <= i < ps.len() && ps[i].id
            == #[trigger] subs[k] by {
            if k < channel_subscribers(before, channel).len() {
                let i = choose|i: int| 0 <= i < before.len() && before[i].id == channel_subscribers(before, channel)[k];
                assert(ps[i] == before[i]);
            } else {
                assert(ps[ps.len() - 1].id == subs[k]);
            }
        }
    }
}

/// A MIDI event for an installed Patch is refused only at the last
/// generation, and otherwise changes nothing but the generation.
proof fn lemma_midi_step(s: StateView, patch_id: PatchId, message: MidiMessage)
    requires
        patch_index_of(s.patches, patch_id) is Some,
    ensures
        applied(s, AppEvent::Midi { patch_id, message }) == if s.generation == u64::MAX {
            Err::<(StateView, Option<AudioCommand>, Option<EffectView>), EventRejection>(
                EventRejection::GenerationOverflow,
            )
        } else {
            Ok::<(StateView, Option<AudioCommand>, Option<EffectView>), EventRejection>(
                (
                    StateView { generation: (s.generation + 1) as u64, ..s },
                    Some(AudioCommand::PatchMidi { patch_id, message }),
                    None,
                ),
            )
        },
{
}

/// Applies one MIDI event for an installed Patch.
fn apply_midi(state: &mut AppState, patch_id: PatchId, message: MidiMessage) -> (r: Result<ApplyOutcome, EventRejection>)
    requires
        state_wf(old(state)@),
        patch_index_of(old(state)@.patches, patch_id) is Some,
    ensures
        state_wf(final(state)@),
        old(state)@.generation == u64::MAX ==> r == Err::<ApplyOutcome, EventRejection>(
            EventRejection::GenerationOverflow,
        ) && final(state)@ == old(state)@,
        old(state)@.generation < u64::MAX ==> r is Ok && final(state)@ == (StateView {
            generation: (old(state)@.generation + 1) as u64,
            ..old(state)@
        }) && r->Ok_0@ == (OutcomeView {
            generation: (old(state)@.generation + 1) as u64,
            audio_command: Some(AudioCommand::PatchMidi { patch_id, message }),
            engine_selection_effect: None,
        }),
{
    proof {
        lemma_midi_step(old(state)@, patch_id, message);
    }
    state.apply(AppEvent::Midi { patch_id, message })
}

/// The outcome the `k`-th subscriber's MIDI event has when the fan-out
/// starts at generation `g`.
pub open spec fn fanned_outcome(g: u64, ids: Seq<PatchId>, message: MidiMessage, k: int) -> OutcomeView {
    OutcomeView {
        generation: (g + k + 1) as u64,
        audio_command: Some(AudioCommand::PatchMidi { patch_id: ids[k], message }),
        engine_selection_effect: None,
    }
}

/// Fans one MIDI message out to every Patch listening on its channel, in
/// installation order, each as its own reducer event; the first refusal
/// stops the fan-out and keeps what was accepted before it. While a
/// whole-session replacement is pending nothing is dispatched.
#[verifier::rlimit(40)]
pub fn dispatch_midi(state: &mut AppState, message: MidiMessage, session_replacement_pending: bool) -> (r: Result<
    Vec<ApplyOutcome>,
    EventRejection,
>)
    requires
        state_wf(old(state)@),
    ensures
        state_wf(final(state)@),
        ({
            let ids = channel_subscribers(old(state)@.patches, message@.channel);
            let g = old(state)@.generation;
            &&& session_replacement_pending ==> r == Err::<Vec<ApplyOutcome>, EventRejection>(
                EventRejection::StructuralEditBusy,
            ) && final(state)@ == old(state)@
            &&& !session_replacement_pending && g + ids.len() <= u64::MAX ==> r is Ok && final(state)@ == (StateView {
                generation: (g + ids.len()) as u64,
                ..old(state)@
            }) && r->Ok_0.len() == ids.len() && forall|k: int| 0 <= k < ids.len() ==> (#[trigger] r->Ok_0[k])@
                == fanned_outcome(g, ids, message, k)
            &&& !session_replacement_pending && g + ids.len() > u64::MAX ==> r == Err::<Vec<ApplyOutcome>, EventRejection>(
                EventRejection::GenerationOverflow,
            ) && final(state)@ == (StateView { generation: u64::MAX, ..old(state)@ })
        }),
{
    if session_replacement_pending {
        return Err(EventRejection::StructuralEditBusy);
    }
    let ghost start = state@;
    let ghost ids = channel_subscribers(start.patches, message@.channel);
    let subscribers = state.midi_subscribers(message.channel());
    proof {
        lemma_subscribers_installed(start.patches, message@.channel);
    }
    let mut outcomes: Vec<ApplyOutcome> = Vec::new();
    let mut k: usize = 0;
    while k < subscribers.len()
        invariant
            !session_replacement_pending,
            start == old(state)@,
            subscribers@ == ids,
            ids == channel_subscribers(start.patches, message@.channel),
            forall|j: int| 0 <= j < ids.len() ==> exists|i: int| 0 <= i < start.patches.len()
                && start.patches[i].id == #[trigger] ids[j],
            state_wf(start),
            k <= ids.len(),
            start.generation + k <= u64::MAX,
            state@ == (StateView { generation: (start.generation + k) as u64, ..start }),
            state_wf(state@),
            outcomes@.len() == k,
            forall|j: int| 0 <= j < k ==> (#[trigger] outcomes@[j])@ == fanned_outcome(start.generation, ids, message, j),
        decreases subscribers.len() - k,
    {
        let patch_id = subscribers[k];
        let ghost before = state@;
        proof {
            let i = choose|i: int| 0 <= i < start.patches.len() && start.patches[i].id == ids[k as int];
            assert(start.patches[i].id == patch_id);
            assert(patch_index_of(before.patches, patch_id) is Some);
        }
        match apply_midi(state, patch_id, message) {
            Ok(outcome) => {
                outcomes.push(outcome);
                k = k + 1;
            },
            Err(rejection) => {
                return Err(rejection);
            },
        }
    }
    Ok(outcomes)
}


/// The record a refused dispatch leaves last in the journal names the event's
/// source, the event and its rejection, and shows the state unchanged; the
/// record an accepted dispatch leaves names the source and event, no
/// rejection, and the generation and hash before and after.
pub proof fn lemma_journal_records_what_was_dispatched(
    l: LogView,
    source: EventSource,
    event: AppEvent,
    rejection: EventRejection,
    generation: u64,
    hash: Seq<char>,
    generation_after: u64,
    hash_after: Seq<char>,
    effect: Option<EffectView>,
)
    ensures
        ({
            let refused = appended(
                l,
                rejected_record(l.total_observed, source, event_entry(event), rejection, generation, hash),
            ).records.last();
            &&& refused.sequence == l.total_observed
            &&& refused.source == source
            &&& refused.event == event_entry(event)
            &&& refused.rejection == Some(rejection)
            &&& refused.generation_before == generation && refused.generation_after == generation
            &&& refused.state_hash_before == hash && refused.state_hash_after == hash
            &&& refused.effects.len() == 0
        }),
        ({
            let accepted = appended(
                l,
                accepted_record(
                    l.total_observed,
                    source,
                    event_entry(event),
                    generation,
                    hash,
                    generation_after,
                    hash_after,
                    effect,
                ),
            ).records.last();
            &&& accepted.sequence == l.total_observed
            &&& accepted.source == source
            &&& accepted.event == event_entry(event)
            &&& accepted.rejection is None
            &&& accepted.generation_before == generation && accepted.generation_after == generation_after
            &&& accepted.state_hash_before == hash && accepted.state_hash_after == hash_after
            &&& effect is None ==> accepted.effects.len() == 0
            &&& effect is Some ==> accepted.effects == seq![effect->0]
        }),
{
}

} // verus!
