use synth_control::app_event::{AppEvent, AppEventPayloadShape, AppEventSurfaceDescriptor};
use synth_control::domain::{MidiChannel, PatchId};
use synth_control::interaction::{Direction, InteractionMode, SemanticAction, SurfaceId, TopLevelContext};
use synth_control::patch::Patch;
use synth_control::payloads::MidiMessage;

#[test]
fn navigate_and_adjust_retain_their_semantic_direction() {
    let navigate = AppEvent::Navigate(Direction::Up);
    let adjust = AppEvent::Adjust(Direction::Left);

    assert_eq!(navigate, AppEvent::Navigate(Direction::Up));
    assert_eq!(adjust, AppEvent::Adjust(Direction::Left));
    assert_ne!(navigate, adjust);
}

#[test]
fn all_direction_payloads_are_explicit_and_copyable() {
    let directions = [Direction::Up, Direction::Down, Direction::Left, Direction::Right];
    let copied = directions;

    assert_eq!(copied.len(), 4);
    assert_eq!(copied, [Direction::Up, Direction::Down, Direction::Left, Direction::Right]);
}

#[test]
fn surface_descriptor_is_unique_and_exhaustive() {
    let descriptor = AppEvent::surface_descriptor();

    assert_eq!(descriptor.len(), 49);
    for (index, entry) in descriptor.iter().enumerate() {
        assert!(!descriptor[..index].contains(entry), "duplicate descriptor entry: {entry:?}");
    }

    for context in TopLevelContext::surface_descriptor() {
        assert!(descriptor.contains(&AppEventSurfaceDescriptor::SelectContext { context }));
    }

    for direction in [Direction::Up, Direction::Down, Direction::Left, Direction::Right] {
        assert!(descriptor.contains(&AppEventSurfaceDescriptor::Navigate { direction }));
        assert!(descriptor.contains(&AppEventSurfaceDescriptor::Adjust { direction }));
    }
    for mode in InteractionMode::phase_two() {
        assert!(descriptor.contains(&AppEventSurfaceDescriptor::SetInteractionMode { mode }));
    }
    for surface in [SurfaceId::PatchUtility, SurfaceId::PatchDetail, SurfaceId::MixerInspector] {
        assert!(descriptor.contains(&AppEventSurfaceDescriptor::EnterSurface { surface }));
    }
    assert!(descriptor.contains(&AppEventSurfaceDescriptor::Return));
    assert!(descriptor.contains(&AppEventSurfaceDescriptor::InstallPatches {
        patches: AppEventPayloadShape::PatchList,
    }));
    assert!(descriptor.contains(&AppEventSurfaceDescriptor::ReplacePersistedSession {
        replacement: AppEventPayloadShape::SessionReplacement,
    }));
    assert!(descriptor.contains(&AppEventSurfaceDescriptor::Midi {
        patch_id: AppEventPayloadShape::PatchId,
        message: AppEventPayloadShape::MidiMessage,
    }));
    assert!(descriptor.contains(&AppEventSurfaceDescriptor::SetPatchOverviewOriginEnabled {
        patch_id: AppEventPayloadShape::PatchId,
        control: AppEventPayloadShape::PatchControlId,
        enabled: AppEventPayloadShape::Boolean,
    }));
    assert!(descriptor.contains(&AppEventSurfaceDescriptor::EngineSelectionLifecycleAdvanced {
        request_id: AppEventPayloadShape::EngineSelectionRequestId,
        lifecycle: AppEventPayloadShape::EngineSelectionStatusKind,
    }));
    assert!(descriptor.contains(&AppEventSurfaceDescriptor::EnginePrepared {
        request_id: AppEventPayloadShape::EngineSelectionRequestId,
        patch_id: AppEventPayloadShape::PatchId,
        intent: AppEventPayloadShape::StructuralEditIntent,
        source_capability_id: AppEventPayloadShape::CapabilityId,
        target_capability_id: AppEventPayloadShape::CapabilityId,
        source_graph_revision: AppEventPayloadShape::GraphRevision,
        target_graph_revision: AppEventPayloadShape::GraphRevision,
        candidate_config: AppEventPayloadShape::InstrumentConfig,
        prepared_visualization: AppEventPayloadShape::PreparedSampleVisualization,
    }));
    assert!(descriptor.contains(&AppEventSurfaceDescriptor::SampleAssetLifecycleAdvanced {
        request_id: AppEventPayloadShape::EngineSelectionRequestId,
        lifecycle: AppEventPayloadShape::SampleAssetLifecycle,
    }));
    assert!(descriptor.contains(&AppEventSurfaceDescriptor::SampleCatalogRefreshed {
        folder: AppEventPayloadShape::SampleFolderId,
        listing: AppEventPayloadShape::SampleCatalogListing,
        failure: AppEventPayloadShape::SampleAssetError,
    }));
    assert!(descriptor.contains(&AppEventSurfaceDescriptor::EnginePreparationFailed {
        request_id: AppEventPayloadShape::EngineSelectionRequestId,
        patch_id: AppEventPayloadShape::PatchId,
        intent: AppEventPayloadShape::StructuralEditIntent,
        source_capability_id: AppEventPayloadShape::CapabilityId,
        target_capability_id: AppEventPayloadShape::CapabilityId,
        source_graph_revision: AppEventPayloadShape::GraphRevision,
        target_graph_revision: AppEventPayloadShape::GraphRevision,
        failure: AppEventPayloadShape::EngineSelectionFailure,
    }));
    assert!(descriptor.contains(&AppEventSurfaceDescriptor::EngineActivationAcknowledged {
        request_id: AppEventPayloadShape::EngineSelectionRequestId,
        intent: AppEventPayloadShape::StructuralEditIntent,
        target_graph_revision: AppEventPayloadShape::GraphRevision,
        retired_graph_revision: AppEventPayloadShape::GraphRevision,
        collected: AppEventPayloadShape::Boolean,
    }));
}

#[test]
fn context_event_preserves_its_semantic_payload() {
    for context in TopLevelContext::surface_descriptor() {
        let event = AppEvent::SelectContext(context);
        assert_eq!(event.surface_entry(), AppEventSurfaceDescriptor::SelectContext { context });
    }
}

#[test]
fn install_event_preserves_patch_order_payload() {
    let patches: Vec<Patch> = Vec::new();
    let event = AppEvent::InstallPatches(patches);

    assert_eq!(
        event.surface_entry(),
        AppEventSurfaceDescriptor::InstallPatches { patches: AppEventPayloadShape::PatchList }
    );

    match event {
        AppEvent::InstallPatches(installed) => assert!(installed.is_empty()),
        _ => panic!("expected patch installation event"),
    }
}

#[test]
fn midi_event_preserves_its_typed_target_and_message() {
    let patch_id = PatchId::new(7).unwrap();
    let message = MidiMessage::all_notes_off(MidiChannel::new(3).unwrap());
    let event = AppEvent::Midi { patch_id, message };

    assert_eq!(
        event.surface_entry(),
        AppEventSurfaceDescriptor::Midi {
            patch_id: AppEventPayloadShape::PatchId,
            message: AppEventPayloadShape::MidiMessage,
        }
    );
    assert_eq!(event, AppEvent::Midi { patch_id, message });
}

#[test]
fn semantic_actions_translate_to_exactly_one_event() {
    assert_eq!(
        AppEvent::from_semantic_action(SemanticAction::Navigate(Direction::Down)),
        AppEvent::Navigate(Direction::Down)
    );
    assert_eq!(
        AppEvent::from_semantic_action(SemanticAction::SelectContext(TopLevelContext::Patch)),
        AppEvent::SelectContext(TopLevelContext::Patch)
    );
    assert_eq!(AppEvent::from_semantic_action(SemanticAction::Return), AppEvent::Return);
}
