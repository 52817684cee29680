use synth_control::domain::{BusId, CapabilityId, GraphRevision, PatchId};
use synth_control::engine_selection::{
    EngineSelectionCorrelation, StructuralEditIntent, EngineSelectionEffect, EngineSelectionEffectKind, EngineSelectionFailure, EngineSelectionRequestId,
    EngineSelectionRequestIdError, EngineSelectionStatus, EngineSelectionStatusError, EngineSelectionStatusKind,
};

fn capability_id(value: &str) -> CapabilityId {
    CapabilityId::new(value).unwrap()
}

fn preparing() -> EngineSelectionStatus {
    EngineSelectionStatus::preparing(
        GraphRevision::initial(),
        EngineSelectionRequestId::first(),
        PatchId::new(1).unwrap(),
        capability_id("instrument.source"),
        capability_id("instrument.target"),
    )
    .unwrap()
}

#[test]
fn engine_selection_status_enforces_the_declared_lifecycle_and_revision_boundary() {
    let preparing = preparing();
    assert_eq!(preparing.kind(), EngineSelectionStatusKind::Preparing);
    assert_eq!(preparing.active_graph_revision(), GraphRevision::initial());
    assert!(preparing.is_in_flight());
    assert_eq!(preparing.failure(), None);
    assert_eq!(
        preparing.activating(GraphRevision::initial()),
        Err(EngineSelectionStatusError::TargetRevisionNotNewer)
    );

    let target = GraphRevision::initial().checked_next().unwrap();
    let activating = preparing.activating(target).unwrap();
    assert_eq!(activating.kind(), EngineSelectionStatusKind::Activating);
    assert_eq!(activating.active_graph_revision(), GraphRevision::initial());
    assert_eq!(activating.correlation().unwrap().target_graph_revision(), Some(target));
    let ready = activating.acknowledged().unwrap();
    assert_eq!(ready, EngineSelectionStatus::ready(target));
    assert!(!ready.is_in_flight());

    let failed = preparing.failed(EngineSelectionFailure::AssetUnavailable).unwrap();
    assert_eq!(failed.kind(), EngineSelectionStatusKind::Failed);
    assert_eq!(failed.active_graph_revision(), GraphRevision::initial());
    assert_eq!(failed.failure(), Some(EngineSelectionFailure::AssetUnavailable));
    assert_eq!(failed.acknowledged(), Err(EngineSelectionStatusError::InvalidTransition));
}

#[test]
fn engine_selection_request_id_reserves_zero_and_reports_exhaustion() {
    assert!(EngineSelectionRequestId::none().is_none());
    assert_eq!(EngineSelectionRequestId::new(0), Err(EngineSelectionRequestIdError::Zero));
    assert_eq!(EngineSelectionRequestId::none().checked_next().unwrap(), EngineSelectionRequestId::first());
    assert_eq!(
        EngineSelectionRequestId::new(u64::MAX).unwrap().checked_next(),
        Err(EngineSelectionRequestIdError::Exhausted)
    );
    assert_eq!(EngineSelectionRequestId::first().value(), 1);
}

#[test]
fn engine_selection_values_have_unique_exhaustive_stable_serialized_names() {
    let failures = EngineSelectionFailure::surface_descriptor();
    assert_eq!(failures.len(), 11);
    assert_eq!(EngineSelectionStatusKind::surface_descriptor().len(), 4);
    for pair in failures.windows(2) {
        assert_ne!(pair[0], pair[1]);
    }
    for (index, failure) in failures.iter().enumerate() {
        assert!(!failures[..index].contains(failure));
    }
    let failure_names: Vec<&str> = failures.iter().map(|f| f.name()).collect();
    assert_eq!(
        failure_names,
        vec![
            "unknownCapability",
            "missingDefault",
            "invalidDefaultConfig",
            "providerMismatch",
            "preparerMissing",
            "assetUnavailable",
            "presetUnavailable",
            "unsupportedAudioConfig",
            "preparationFailed",
            "graphIncompatible",
            "workerUnavailable",
        ]
    );
    let kind_names: Vec<&str> =
        EngineSelectionStatusKind::surface_descriptor().iter().map(|k| k.name()).collect();
    assert_eq!(kind_names, vec!["ready", "preparing", "activating", "failed"]);
    let effect_names: Vec<&str> =
        EngineSelectionEffectKind::surface_descriptor().iter().map(|k| k.name()).collect();
    assert_eq!(
        effect_names,
        vec!["prepareRequested", "candidateCommitted", "graphStaged", "graphPublished", "activationAcknowledged"]
    );
}

#[test]
fn engine_selection_status_serialization_contains_only_stable_control_metadata() {
    let status = preparing();
    assert_eq!(status.kind().name(), "preparing");
    assert_eq!(status.active_graph_revision().value(), 1);
    let correlation = status.correlation().unwrap();
    assert_eq!(correlation.request_id().value(), 1);
    assert_eq!(correlation.patch_id().unwrap().value(), 1);
    assert_eq!(correlation.source_capability_id().unwrap().as_str(), "instrument.source");
    assert_eq!(correlation.target_capability_id().unwrap().as_str(), "instrument.target");
    assert_eq!(correlation.source_graph_revision().value(), 1);
    assert!(correlation.target_graph_revision().is_none());
    assert!(status.failure().is_none());
}

#[test]
fn engine_selection_effect_requires_the_revision_shape_declared_by_its_kind() {
    let preparing = preparing();
    let request =
        EngineSelectionEffect::from_correlation(EngineSelectionEffectKind::PrepareRequested, preparing.correlation().unwrap())
            .unwrap();
    assert_eq!(request.kind(), EngineSelectionEffectKind::PrepareRequested);
    assert_eq!(request.target_graph_revision(), None);
    assert_eq!(
        EngineSelectionEffect::from_correlation(EngineSelectionEffectKind::CandidateCommitted, preparing.correlation().unwrap()),
        Err(EngineSelectionStatusError::MissingTargetRevision)
    );
    let activating = preparing.activating(GraphRevision::initial().checked_next().unwrap()).unwrap();
    let committed =
        EngineSelectionEffect::from_correlation(EngineSelectionEffectKind::CandidateCommitted, activating.correlation().unwrap())
            .unwrap();
    assert_eq!(committed.kind(), EngineSelectionEffectKind::CandidateCommitted);
    assert_eq!(committed.target_graph_revision().unwrap().value(), 2);
    assert_eq!(committed.kind().name(), "candidateCommitted");
}

#[test]
fn a_correlation_refuses_an_instrument_request_without_its_patch_or_capabilities() {
    let swap = || StructuralEditIntent::ReplaceCapability { target_capability_id: capability_id("instrument.target") };
    let missing_patch = EngineSelectionCorrelation::from_parts(
        EngineSelectionRequestId::first(),
        None,
        swap(),
        Some(capability_id("instrument.source")),
        Some(capability_id("instrument.target")),
        GraphRevision::initial(),
        None,
    );
    assert!(missing_patch.is_none());
    let missing_source = EngineSelectionCorrelation::from_parts(
        EngineSelectionRequestId::first(),
        Some(PatchId::new(1).unwrap()),
        swap(),
        None,
        Some(capability_id("instrument.target")),
        GraphRevision::initial(),
        None,
    );
    assert!(missing_source.is_none());
    let complete = EngineSelectionCorrelation::from_parts(
        EngineSelectionRequestId::first(),
        Some(PatchId::new(1).unwrap()),
        swap(),
        Some(capability_id("instrument.source")),
        Some(capability_id("instrument.target")),
        GraphRevision::initial(),
        None,
    )
    .unwrap();
    assert_eq!(complete.patch_id(), Some(PatchId::new(1).unwrap()));
    let return_edit = EngineSelectionCorrelation::from_parts(
        EngineSelectionRequestId::first(),
        None,
        StructuralEditIntent::SetReturnOccupancy { bus: BusId::new(0).unwrap(), entry: None },
        None,
        None,
        GraphRevision::initial(),
        None,
    );
    assert!(return_edit.is_some());
}
