use synth_control::app_event::AppEvent;
use synth_control::event_log::{
    EventCoverage, EventLog, EventLogError, EventOutcome, EventRecord, EventSource, SCHEMA_VERSION,
};
use synth_control::interaction::Direction;
use synth_control::rejection::EventRejection;

fn rejected_record(sequence: u64, state_marker: &str) -> EventRecord {
    let snapshot = format!("{{\"generation\":4,\"marker\":\"{state_marker}\"}}");
    EventRecord::rejected(
        sequence,
        EventSource::DemoScene,
        AppEvent::Adjust(Direction::Right).surface_entry(),
        4,
        snapshot,
        EventRejection::ParameterAtBoundary,
    )
}

fn accepted_record(sequence: u64, before: u64, hash_before: &str, after: u64, hash_after: &str) -> EventRecord {
    EventRecord::new(
        sequence,
        EventSource::Keyboard,
        AppEvent::Adjust(Direction::Right).surface_entry(),
        before,
        hash_before.to_owned(),
        after,
        hash_after.to_owned(),
    )
}

#[test]
fn bounded_control_thread_journal_reports_every_eviction() {
    let mut log = EventLog::new(2).unwrap();

    log.append(rejected_record(0, "stable")).unwrap();
    log.append(rejected_record(1, "stable")).unwrap();
    log.append(rejected_record(2, "stable")).unwrap();

    assert_eq!(log.total_observed(), 3);
    assert_eq!(log.dropped_records(), 1);
    assert_eq!(log.len(), 2);
    assert_eq!(log.records()[0].sequence(), 1);
    assert_eq!(log.records()[1].sequence(), 2);
    assert_eq!(log.next_sequence(), 3);
}

#[test]
fn exhaustive_capacity_retains_the_complete_chain_without_drops() {
    let mut log = EventLog::new(3).unwrap();

    for sequence in 0..3 {
        log.append(rejected_record(sequence, "scene")).unwrap();
    }

    assert_eq!(log.records().len(), 3);
    assert_eq!(log.total_observed(), 3);
    assert_eq!(log.dropped_records(), 0);
}

#[test]
fn append_rejects_noncontiguous_sequence_without_mutating_the_log() {
    let mut log = EventLog::new(2).unwrap();

    let error = log.append(rejected_record(1, "stable")).unwrap_err();

    assert_eq!(error, EventLogError::SequenceMismatch { expected: 0, actual: 1 });
    assert!(log.is_empty());
    assert_eq!(log.total_observed(), 0);
}

#[test]
fn append_rejects_broken_state_chain_without_evicting_history() {
    let mut log = EventLog::new(1).unwrap();
    log.append(rejected_record(0, "before")).unwrap();

    let error = log.append(rejected_record(1, "after")).unwrap_err();

    assert!(matches!(error, EventLogError::StateHashChainMismatch { .. }));
    assert_eq!(log.records()[0].sequence(), 0);
    assert_eq!(log.dropped_records(), 0);
    assert_eq!(log.total_observed(), 1);
}

#[test]
fn zero_capacity_is_rejected() {
    assert_eq!(EventLog::new(0).unwrap_err(), EventLogError::ZeroCapacity);
}

#[test]
fn generation_chain_breaks_are_refused() {
    let mut log = EventLog::new(4).unwrap();
    log.append(accepted_record(0, 1, "a", 2, "b")).unwrap();

    let error = log
        .append(accepted_record(1, 3, "b", 4, "c"))
        .unwrap_err();

    assert_eq!(error, EventLogError::GenerationChainMismatch { expected: 2, actual: 3 });
    assert_eq!(log.len(), 1);
}

#[test]
fn named_coverage_and_json_are_sorted_stable_and_explicit() {
    let coverage = EventCoverage::new(vec![
        "property.patch.pan".to_owned(),
        "event.adjust.right".to_owned(),
        "property.patch.pan".to_owned(),
    ]);
    let mut log = EventLog::with_coverage(2, coverage).unwrap();

    assert!(log.mark_exercised("property.patch.pan".to_owned()));
    assert!(!log.mark_exercised("property.patch.pan".to_owned()));
    assert!(log.mark_exercised("event.unexpected".to_owned()));
    assert!(!log.coverage().is_complete());
    assert_eq!(log.schema_version(), SCHEMA_VERSION);
    assert_eq!(log.dropped_records(), 0);
    assert_eq!(log.total_observed(), 0);
    assert_eq!(log.coverage().expected(), &vec!["event.adjust.right".to_owned(), "property.patch.pan".to_owned()]);
    assert_eq!(log.coverage().exercised(), &vec!["event.unexpected".to_owned(), "property.patch.pan".to_owned()]);
    assert_eq!(log.coverage().missing(), &vec!["event.adjust.right".to_owned()]);
    assert_eq!(log.coverage().unexpected(), &vec!["event.unexpected".to_owned()]);
}

#[test]
fn a_record_keeps_its_source_event_and_rejection() {
    let rejected = rejected_record(0, "stable");
    assert_eq!(rejected.source(), EventSource::DemoScene);
    assert_eq!(rejected.event(), AppEvent::Adjust(Direction::Right).surface_entry());
    assert_eq!(rejected.rejection(), Some(EventRejection::ParameterAtBoundary));
    assert_eq!(rejected.outcome(), EventOutcome::Rejected);
    assert_eq!(rejected.generation_before(), rejected.generation_after());
    let accepted = accepted_record(1, 4, "a", 5, "b");
    assert_eq!(accepted.source(), EventSource::Keyboard);
    assert_eq!(accepted.rejection(), None);
    assert_eq!(accepted.outcome(), EventOutcome::Accepted);
}
