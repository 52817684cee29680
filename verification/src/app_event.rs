//! The closed semantic input union accepted by the application reducer and
//! its exhaustive typed surface.
use vstd::prelude::*;
use crate::domain::{BusId, CapabilityId, EffectCapabilityId, EffectSlotIndex, GraphRevision, PatchId};
use crate::engine_selection::{
    EngineSelectionFailure, EngineSelectionRequestId, EngineSelectionStatusKind,
    StructuralEditIntent,
};
use crate::interaction::{
    Direction, InteractionMode, PatchControlId, SemanticAction, SurfaceId, TopLevelContext,
};
use crate::patch::{InstrumentConfig, Patch};
use crate::payloads::{
    MidiConnectionRequestId, MidiConnectionRevision, MidiDeviceFailure, MidiInputDescriptor,
    MidiInputDeviceId, MidiInputPreference, MidiInputScanId, MidiMessage,
    PreparedSampleVisualization, SampleAssetLifecycle, SampleCatalogResult, SampleFolderId, SessionReplacementPayload,
};

verus! {

/// The payload types carried by non-directional application events.
#[derive(Clone, Copy, Debug, PartialEq, Eq, Hash, Structural)]
pub enum AppEventPayloadShape {
    PatchList,
    SessionReplacement,
    PatchId,
    MidiMessage,
    EngineSelectionRequestId,
    CapabilityId,
    GraphRevision,
    InstrumentConfig,
    PreparedSampleVisualization,
    SampleAssetLifecycle,
    SampleFolderId,
    SampleCatalogListing,
    SampleAssetError,
    EngineSelectionFailure,
    EngineSelectionStatusKind,
    Boolean,
    StructuralEditIntent,
    InteractionMode,
    SurfaceId,
    EffectSlotIndex,
    BusId,
    OptionalEffectEntry,
    PatchControlId,
    MidiInputPreference,
    MidiInputScanId,
    MidiInputDescriptorList,
    MidiInputDeviceId,
    MidiConnectionRequestId,
    MidiConnectionRevision,
    MidiDeviceFailure,
    OptionalMidiDeviceFailure,
    OptionalMidiConnectionRequestId,
    OptionalMidiConnectionRevision,
}

/// One typed entry in the exhaustive application-event surface.
///
/// Directional variants have one entry for every admitted direction. The
/// remaining variants retain the complete names and types of their payload
/// fields.
#[derive(Clone, Copy, Debug, PartialEq, Eq, Hash, Structural)]
pub enum AppEventSurfaceDescriptor {
    SelectContext {
        context: TopLevelContext,
    },
    SelectPatch {
        direction: Direction,
    },
    Navigate {
        direction: Direction,
    },
    Adjust {
        direction: Direction,
    },
    SetInteractionMode {
        mode: InteractionMode,
    },
    OpenRelated,
    OpenMidiSettings,
    Activate,
    PreviewStart,
    PreviewStop,
    EnterSurface {
        surface: SurfaceId,
    },
    Return,
    InstallPatches {
        patches: AppEventPayloadShape,
    },
    ReplacePersistedSession {
        replacement: AppEventPayloadShape,
    },
    Midi {
        patch_id: AppEventPayloadShape,
        message: AppEventPayloadShape,
    },
    SetPatchOverviewOriginEnabled {
        patch_id: AppEventPayloadShape,
        control: AppEventPayloadShape,
        enabled: AppEventPayloadShape,
    },
    EngineSelectionLifecycleAdvanced {
        request_id: AppEventPayloadShape,
        lifecycle: AppEventPayloadShape,
    },
    EnginePrepared {
        request_id: AppEventPayloadShape,
        patch_id: AppEventPayloadShape,
        intent: AppEventPayloadShape,
        source_capability_id: AppEventPayloadShape,
        target_capability_id: AppEventPayloadShape,
        source_graph_revision: AppEventPayloadShape,
        target_graph_revision: AppEventPayloadShape,
        candidate_config: AppEventPayloadShape,
        prepared_visualization: AppEventPayloadShape,
    },
    SampleAssetLifecycleAdvanced {
        request_id: AppEventPayloadShape,
        lifecycle: AppEventPayloadShape,
    },
    SampleCatalogRefreshed {
        folder: AppEventPayloadShape,
        listing: AppEventPayloadShape,
        failure: AppEventPayloadShape,
    },
    EnginePreparationFailed {
        request_id: AppEventPayloadShape,
        patch_id: AppEventPayloadShape,
        intent: AppEventPayloadShape,
        source_capability_id: AppEventPayloadShape,
        target_capability_id: AppEventPayloadShape,
        source_graph_revision: AppEventPayloadShape,
        target_graph_revision: AppEventPayloadShape,
        failure: AppEventPayloadShape,
    },
    EngineActivationAcknowledged {
        request_id: AppEventPayloadShape,
        intent: AppEventPayloadShape,
        target_graph_revision: AppEventPayloadShape,
        retired_graph_revision: AppEventPayloadShape,
        collected: AppEventPayloadShape,
    },
    SetSlotOccupancy {
        patch_id: AppEventPayloadShape,
        slot: AppEventPayloadShape,
        entry: AppEventPayloadShape,
    },
    SetReturnOccupancy {
        bus: AppEventPayloadShape,
        entry: AppEventPayloadShape,
    },
    TopologyPrepared {
        request_id: AppEventPayloadShape,
        intent: AppEventPayloadShape,
        source_graph_revision: AppEventPayloadShape,
        target_graph_revision: AppEventPayloadShape,
    },
    TopologyPreparationFailed {
        request_id: AppEventPayloadShape,
        intent: AppEventPayloadShape,
        source_graph_revision: AppEventPayloadShape,
        target_graph_revision: AppEventPayloadShape,
        failure: AppEventPayloadShape,
    },
    MidiInputPreferenceRestored {
        preference: AppEventPayloadShape,
        failure: AppEventPayloadShape,
    },
    MidiInputPreferenceStoreFailed {
        failure: AppEventPayloadShape,
    },
    MidiInputScanStarted,
    MidiInputScanSucceeded {
        scan_id: AppEventPayloadShape,
        descriptors: AppEventPayloadShape,
    },
    MidiInputScanFailed {
        scan_id: AppEventPayloadShape,
        failure: AppEventPayloadShape,
    },
    MidiInputConnectRequested {
        identity: AppEventPayloadShape,
    },
    MidiInputConnectionPrepared {
        request_id: AppEventPayloadShape,
        revision: AppEventPayloadShape,
    },
    MidiInputActivationAcknowledged {
        request_id: AppEventPayloadShape,
        revision: AppEventPayloadShape,
    },
    MidiInputDisconnectRequested {
        identity: AppEventPayloadShape,
    },
    MidiInputConnectionLost {
        identity: AppEventPayloadShape,
        revision: AppEventPayloadShape,
    },
    MidiInputOperationFailed {
        identity: AppEventPayloadShape,
        request_id: AppEventPayloadShape,
        revision: AppEventPayloadShape,
        failure: AppEventPayloadShape,
    },
    MidiInputShutdownRequested,
}

/// The number of entries in the application-event surface.
pub const APP_EVENT_SURFACE_LEN: usize = 49;

/// The entry at one position of the application-event surface.
pub open spec fn surface_entry_at(i: int) -> AppEventSurfaceDescriptor {
    if i == 0 {
        AppEventSurfaceDescriptor::SelectContext { context: TopLevelContext::Patch, }
    } else if i == 1 {
        AppEventSurfaceDescriptor::SelectContext { context: TopLevelContext::Mixer, }
    } else if i == 2 {
        AppEventSurfaceDescriptor::SelectPatch { direction: Direction::Left, }
    } else if i == 3 {
        AppEventSurfaceDescriptor::SelectPatch { direction: Direction::Right, }
    } else if i == 4 {
        AppEventSurfaceDescriptor::Navigate { direction: Direction::Up, }
    } else if i == 5 {
        AppEventSurfaceDescriptor::Navigate { direction: Direction::Down, }
    } else if i == 6 {
        AppEventSurfaceDescriptor::Navigate { direction: Direction::Left, }
    } else if i == 7 {
        AppEventSurfaceDescriptor::Navigate { direction: Direction::Right, }
    } else if i == 8 {
        AppEventSurfaceDescriptor::Adjust { direction: Direction::Up, }
    } else if i == 9 {
        AppEventSurfaceDescriptor::Adjust { direction: Direction::Down, }
    } else if i == 10 {
        AppEventSurfaceDescriptor::Adjust { direction: Direction::Left, }
    } else if i == 11 {
        AppEventSurfaceDescriptor::Adjust { direction: Direction::Right, }
    } else if i == 12 {
        AppEventSurfaceDescriptor::SetInteractionMode { mode: InteractionMode::Navigate, }
    } else if i == 13 {
        AppEventSurfaceDescriptor::SetInteractionMode { mode: InteractionMode::Adjust, }
    } else if i == 14 {
        AppEventSurfaceDescriptor::OpenRelated
    } else if i == 15 {
        AppEventSurfaceDescriptor::OpenMidiSettings
    } else if i == 16 {
        AppEventSurfaceDescriptor::Activate
    } else if i == 17 {
        AppEventSurfaceDescriptor::PreviewStart
    } else if i == 18 {
        AppEventSurfaceDescriptor::PreviewStop
    } else if i == 19 {
        AppEventSurfaceDescriptor::EnterSurface { surface: SurfaceId::PatchUtility, }
    } else if i == 20 {
        AppEventSurfaceDescriptor::EnterSurface { surface: SurfaceId::PatchDetail, }
    } else if i == 21 {
        AppEventSurfaceDescriptor::EnterSurface { surface: SurfaceId::MixerInspector, }
    } else if i == 22 {
        AppEventSurfaceDescriptor::Return
    } else if i == 23 {
        AppEventSurfaceDescriptor::InstallPatches { patches: AppEventPayloadShape::PatchList, }
    } else if i == 24 {
        AppEventSurfaceDescriptor::ReplacePersistedSession { replacement: AppEventPayloadShape::SessionReplacement, }
    } else if i == 25 {
        AppEventSurfaceDescriptor::Midi { patch_id: AppEventPayloadShape::PatchId, message: AppEventPayloadShape::MidiMessage, }
    } else if i == 26 {
        AppEventSurfaceDescriptor::SetPatchOverviewOriginEnabled { patch_id: AppEventPayloadShape::PatchId, control: AppEventPayloadShape::PatchControlId, enabled: AppEventPayloadShape::Boolean, }
    } else if i == 27 {
        AppEventSurfaceDescriptor::EngineSelectionLifecycleAdvanced { request_id: AppEventPayloadShape::EngineSelectionRequestId, lifecycle: AppEventPayloadShape::EngineSelectionStatusKind, }
    } else if i == 28 {
        AppEventSurfaceDescriptor::EnginePrepared { request_id: AppEventPayloadShape::EngineSelectionRequestId, patch_id: AppEventPayloadShape::PatchId, intent: AppEventPayloadShape::StructuralEditIntent, source_capability_id: AppEventPayloadShape::CapabilityId, target_capability_id: AppEventPayloadShape::CapabilityId, source_graph_revision: AppEventPayloadShape::GraphRevision, target_graph_revision: AppEventPayloadShape::GraphRevision, candidate_config: AppEventPayloadShape::InstrumentConfig, prepared_visualization: AppEventPayloadShape::PreparedSampleVisualization, }
    } else if i == 29 {
        AppEventSurfaceDescriptor::SampleAssetLifecycleAdvanced { request_id: AppEventPayloadShape::EngineSelectionRequestId, lifecycle: AppEventPayloadShape::SampleAssetLifecycle, }
    } else if i == 30 {
        AppEventSurfaceDescriptor::SampleCatalogRefreshed { folder: AppEventPayloadShape::SampleFolderId, listing: AppEventPayloadShape::SampleCatalogListing, failure: AppEventPayloadShape::SampleAssetError, }
    } else if i == 31 {
        AppEventSurfaceDescriptor::EnginePreparationFailed { request_id: AppEventPayloadShape::EngineSelectionRequestId, intent: AppEventPayloadShape::StructuralEditIntent, patch_id: AppEventPayloadShape::PatchId, source_capability_id: AppEventPayloadShape::CapabilityId, target_capability_id: AppEventPayloadShape::CapabilityId, source_graph_revision: AppEventPayloadShape::GraphRevision, target_graph_revision: AppEventPayloadShape::GraphRevision, failure: AppEventPayloadShape::EngineSelectionFailure, }
    } else if i == 32 {
        AppEventSurfaceDescriptor::EngineActivationAcknowledged { request_id: AppEventPayloadShape::EngineSelectionRequestId, intent: AppEventPayloadShape::StructuralEditIntent, target_graph_revision: AppEventPayloadShape::GraphRevision, retired_graph_revision: AppEventPayloadShape::GraphRevision, collected: AppEventPayloadShape::Boolean, }
    } else if i == 33 {
        AppEventSurfaceDescriptor::SetSlotOccupancy { patch_id: AppEventPayloadShape::PatchId, slot: AppEventPayloadShape::EffectSlotIndex, entry: AppEventPayloadShape::OptionalEffectEntry, }
    } else if i == 34 {
        AppEventSurfaceDescriptor::SetReturnOccupancy { bus: AppEventPayloadShape::BusId, entry: AppEventPayloadShape::OptionalEffectEntry, }
    } else if i == 35 {
        AppEventSurfaceDescriptor::TopologyPrepared { request_id: AppEventPayloadShape::EngineSelectionRequestId, intent: AppEventPayloadShape::StructuralEditIntent, source_graph_revision: AppEventPayloadShape::GraphRevision, target_graph_revision: AppEventPayloadShape::GraphRevision, }
    } else if i == 36 {
        AppEventSurfaceDescriptor::TopologyPreparationFailed { request_id: AppEventPayloadShape::EngineSelectionRequestId, intent: AppEventPayloadShape::StructuralEditIntent, source_graph_revision: AppEventPayloadShape::GraphRevision, target_graph_revision: AppEventPayloadShape::GraphRevision, failure: AppEventPayloadShape::EngineSelectionFailure, }
    } else if i == 37 {
        AppEventSurfaceDescriptor::MidiInputPreferenceRestored { preference: AppEventPayloadShape::MidiInputPreference, failure: AppEventPayloadShape::OptionalMidiDeviceFailure, }
    } else if i == 38 {
        AppEventSurfaceDescriptor::MidiInputPreferenceStoreFailed { failure: AppEventPayloadShape::MidiDeviceFailure, }
    } else if i == 39 {
        AppEventSurfaceDescriptor::MidiInputScanStarted
    } else if i == 40 {
        AppEventSurfaceDescriptor::MidiInputScanSucceeded { scan_id: AppEventPayloadShape::MidiInputScanId, descriptors: AppEventPayloadShape::MidiInputDescriptorList, }
    } else if i == 41 {
        AppEventSurfaceDescriptor::MidiInputScanFailed { scan_id: AppEventPayloadShape::MidiInputScanId, failure: AppEventPayloadShape::MidiDeviceFailure, }
    } else if i == 42 {
        AppEventSurfaceDescriptor::MidiInputConnectRequested { identity: AppEventPayloadShape::MidiInputDeviceId, }
    } else if i == 43 {
        AppEventSurfaceDescriptor::MidiInputConnectionPrepared { request_id: AppEventPayloadShape::MidiConnectionRequestId, revision: AppEventPayloadShape::MidiConnectionRevision, }
    } else if i == 44 {
        AppEventSurfaceDescriptor::MidiInputActivationAcknowledged { request_id: AppEventPayloadShape::MidiConnectionRequestId, revision: AppEventPayloadShape::MidiConnectionRevision, }
    } else if i == 45 {
        AppEventSurfaceDescriptor::MidiInputDisconnectRequested { identity: AppEventPayloadShape::MidiInputDeviceId, }
    } else if i == 46 {
        AppEventSurfaceDescriptor::MidiInputConnectionLost { identity: AppEventPayloadShape::MidiInputDeviceId, revision: AppEventPayloadShape::MidiConnectionRevision, }
    } else if i == 47 {
        AppEventSurfaceDescriptor::MidiInputOperationFailed { identity: AppEventPayloadShape::MidiInputDeviceId, request_id: AppEventPayloadShape::OptionalMidiConnectionRequestId, revision: AppEventPayloadShape::OptionalMidiConnectionRevision, failure: AppEventPayloadShape::MidiDeviceFailure, }
    } else {
        AppEventSurfaceDescriptor::MidiInputShutdownRequested
    }
}

/// The complete application-event surface in declaration order.
pub open spec fn app_event_surface() -> Seq<AppEventSurfaceDescriptor> {
    Seq::new(APP_EVENT_SURFACE_LEN as nat, |i: int| surface_entry_at(i))
}

fn surface_entry_at_exec(i: usize) -> (r: AppEventSurfaceDescriptor)
    requires
        i < APP_EVENT_SURFACE_LEN,
    ensures
        r == surface_entry_at(i as int),
{
    match i {
        0 => AppEventSurfaceDescriptor::SelectContext { context: TopLevelContext::Patch, },
        1 => AppEventSurfaceDescriptor::SelectContext { context: TopLevelContext::Mixer, },
        2 => AppEventSurfaceDescriptor::SelectPatch { direction: Direction::Left, },
        3 => AppEventSurfaceDescriptor::SelectPatch { direction: Direction::Right, },
        4 => AppEventSurfaceDescriptor::Navigate { direction: Direction::Up, },
        5 => AppEventSurfaceDescriptor::Navigate { direction: Direction::Down, },
        6 => AppEventSurfaceDescriptor::Navigate { direction: Direction::Left, },
        7 => AppEventSurfaceDescriptor::Navigate { direction: Direction::Right, },
        8 => AppEventSurfaceDescriptor::Adjust { direction: Direction::Up, },
        9 => AppEventSurfaceDescriptor::Adjust { direction: Direction::Down, },
        10 => AppEventSurfaceDescriptor::Adjust { direction: Direction::Left, },
        11 => AppEventSurfaceDescriptor::Adjust { direction: Direction::Right, },
        12 => AppEventSurfaceDescriptor::SetInteractionMode { mode: InteractionMode::Navigate, },
        13 => AppEventSurfaceDescriptor::SetInteractionMode { mode: InteractionMode::Adjust, },
        14 => AppEventSurfaceDescriptor::OpenRelated,
        15 => AppEventSurfaceDescriptor::OpenMidiSettings,
        16 => AppEventSurfaceDescriptor::Activate,
        17 => AppEventSurfaceDescriptor::PreviewStart,
        18 => AppEventSurfaceDescriptor::PreviewStop,
        19 => AppEventSurfaceDescriptor::EnterSurface { surface: SurfaceId::PatchUtility, },
        20 => AppEventSurfaceDescriptor::EnterSurface { surface: SurfaceId::PatchDetail, },
        21 => AppEventSurfaceDescriptor::EnterSurface { surface: SurfaceId::MixerInspector, },
        22 => AppEventSurfaceDescriptor::Return,
        23 => AppEventSurfaceDescriptor::InstallPatches { patches: AppEventPayloadShape::PatchList, },
        24 => AppEventSurfaceDescriptor::ReplacePersistedSession { replacement: AppEventPayloadShape::SessionReplacement, },
        25 => AppEventSurfaceDescriptor::Midi { patch_id: AppEventPayloadShape::PatchId, message: AppEventPayloadShape::MidiMessage, },
        26 => AppEventSurfaceDescriptor::SetPatchOverviewOriginEnabled { patch_id: AppEventPayloadShape::PatchId, control: AppEventPayloadShape::PatchControlId, enabled: AppEventPayloadShape::Boolean, },
        27 => AppEventSurfaceDescriptor::EngineSelectionLifecycleAdvanced { request_id: AppEventPayloadShape::EngineSelectionRequestId, lifecycle: AppEventPayloadShape::EngineSelectionStatusKind, },
        28 => AppEventSurfaceDescriptor::EnginePrepared { request_id: AppEventPayloadShape::EngineSelectionRequestId, patch_id: AppEventPayloadShape::PatchId, intent: AppEventPayloadShape::StructuralEditIntent, source_capability_id: AppEventPayloadShape::CapabilityId, target_capability_id: AppEventPayloadShape::CapabilityId, source_graph_revision: AppEventPayloadShape::GraphRevision, target_graph_revision: AppEventPayloadShape::GraphRevision, candidate_config: AppEventPayloadShape::InstrumentConfig, prepared_visualization: AppEventPayloadShape::PreparedSampleVisualization, },
        29 => AppEventSurfaceDescriptor::SampleAssetLifecycleAdvanced { request_id: AppEventPayloadShape::EngineSelectionRequestId, lifecycle: AppEventPayloadShape::SampleAssetLifecycle, },
        30 => AppEventSurfaceDescriptor::SampleCatalogRefreshed { folder: AppEventPayloadShape::SampleFolderId, listing: AppEventPayloadShape::SampleCatalogListing, failure: AppEventPayloadShape::SampleAssetError, },
        31 => AppEventSurfaceDescriptor::EnginePreparationFailed { request_id: AppEventPayloadShape::EngineSelectionRequestId, intent: AppEventPayloadShape::StructuralEditIntent, patch_id: AppEventPayloadShape::PatchId, source_capability_id: AppEventPayloadShape::CapabilityId, target_capability_id: AppEventPayloadShape::CapabilityId, source_graph_revision: AppEventPayloadShape::GraphRevision, target_graph_revision: AppEventPayloadShape::GraphRevision, failure: AppEventPayloadShape::EngineSelectionFailure, },
        32 => AppEventSurfaceDescriptor::EngineActivationAcknowledged { request_id: AppEventPayloadShape::EngineSelectionRequestId, intent: AppEventPayloadShape::StructuralEditIntent, target_graph_revision: AppEventPayloadShape::GraphRevision, retired_graph_revision: AppEventPayloadShape::GraphRevision, collected: AppEventPayloadShape::Boolean, },
        33 => AppEventSurfaceDescriptor::SetSlotOccupancy { patch_id: AppEventPayloadShape::PatchId, slot: AppEventPayloadShape::EffectSlotIndex, entry: AppEventPayloadShape::OptionalEffectEntry, },
        34 => AppEventSurfaceDescriptor::SetReturnOccupancy { bus: AppEventPayloadShape::BusId, entry: AppEventPayloadShape::OptionalEffectEntry, },
        35 => AppEventSurfaceDescriptor::TopologyPrepared { request_id: AppEventPayloadShape::EngineSelectionRequestId, intent: AppEventPayloadShape::StructuralEditIntent, source_graph_revision: AppEventPayloadShape::GraphRevision, target_graph_revision: AppEventPayloadShape::GraphRevision, },
        36 => AppEventSurfaceDescriptor::TopologyPreparationFailed { request_id: AppEventPayloadShape::EngineSelectionRequestId, intent: AppEventPayloadShape::StructuralEditIntent, source_graph_revision: AppEventPayloadShape::GraphRevision, target_graph_revision: AppEventPayloadShape::GraphRevision, failure: AppEventPayloadShape::EngineSelectionFailure, },
        37 => AppEventSurfaceDescriptor::MidiInputPreferenceRestored { preference: AppEventPayloadShape::MidiInputPreference, failure: AppEventPayloadShape::OptionalMidiDeviceFailure, },
        38 => AppEventSurfaceDescriptor::MidiInputPreferenceStoreFailed { failure: AppEventPayloadShape::MidiDeviceFailure, },
        39 => AppEventSurfaceDescriptor::MidiInputScanStarted,
        40 => AppEventSurfaceDescriptor::MidiInputScanSucceeded { scan_id: AppEventPayloadShape::MidiInputScanId, descriptors: AppEventPayloadShape::MidiInputDescriptorList, },
        41 => AppEventSurfaceDescriptor::MidiInputScanFailed { scan_id: AppEventPayloadShape::MidiInputScanId, failure: AppEventPayloadShape::MidiDeviceFailure, },
        42 => AppEventSurfaceDescriptor::MidiInputConnectRequested { identity: AppEventPayloadShape::MidiInputDeviceId, },
        43 => AppEventSurfaceDescriptor::MidiInputConnectionPrepared { request_id: AppEventPayloadShape::MidiConnectionRequestId, revision: AppEventPayloadShape::MidiConnectionRevision, },
        44 => AppEventSurfaceDescriptor::MidiInputActivationAcknowledged { request_id: AppEventPayloadShape::MidiConnectionRequestId, revision: AppEventPayloadShape::MidiConnectionRevision, },
        45 => AppEventSurfaceDescriptor::MidiInputDisconnectRequested { identity: AppEventPayloadShape::MidiInputDeviceId, },
        46 => AppEventSurfaceDescriptor::MidiInputConnectionLost { identity: AppEventPayloadShape::MidiInputDeviceId, revision: AppEventPayloadShape::MidiConnectionRevision, },
        47 => AppEventSurfaceDescriptor::MidiInputOperationFailed { identity: AppEventPayloadShape::MidiInputDeviceId, request_id: AppEventPayloadShape::OptionalMidiConnectionRequestId, revision: AppEventPayloadShape::OptionalMidiConnectionRevision, failure: AppEventPayloadShape::MidiDeviceFailure, },
        _ => AppEventSurfaceDescriptor::MidiInputShutdownRequested,
    }
}

/// The closed semantic input union accepted by the application reducer.
///
/// It contains only domain values: adapters normalize raw devices, files,
/// clocks and windows before an event reaches the control layer.
#[derive(Clone, Debug, PartialEq)]
pub enum AppEvent {
    /// Select one of the two reducer-owned top-level contexts directly.
    SelectContext(TopLevelContext),
    /// Move the focused Patch one position along the installed order.
    SelectPatch(Direction),
    /// Move the current selection without changing a synth parameter.
    Navigate(Direction),
    /// Adjust exactly the currently selected bounded parameter.
    Adjust(Direction),
    /// Select the reducer-owned interpretation of subsequent directions.
    SetInteractionMode(InteractionMode),
    OpenRelated,
    OpenMidiSettings,
    Activate,
    PreviewStart,
    PreviewStop,
    /// Enter one context-compatible persistent side surface.
    EnterSurface(SurfaceId),
    /// Restore the exact main-surface origin of the current side surface.
    Return,
    /// Install the startup Patch set in discovery order.
    InstallPatches(Vec<Patch>),
    /// Commit all persisted content after its prepared graph activated.
    ReplacePersistedSession(Box<SessionReplacementPayload>),
    /// Route one normalized MIDI message to its target Patch.
    Midi { patch_id: PatchId, message: MidiMessage },
    /// Enable or disable one Patch Overview origin.
    SetPatchOverviewOriginEnabled { patch_id: PatchId, control: PatchControlId, enabled: bool },
    /// Advance one correlated structural request's admission phase.
    EngineSelectionLifecycleAdvanced {
        request_id: EngineSelectionRequestId,
        lifecycle: EngineSelectionStatusKind,
    },
    /// Record one provider-validated candidate after off-callback preparation.
    EnginePrepared {
        request_id: EngineSelectionRequestId,
        patch_id: PatchId,
        intent: StructuralEditIntent,
        source_capability_id: CapabilityId,
        target_capability_id: CapabilityId,
        source_graph_revision: GraphRevision,
        target_graph_revision: GraphRevision,
        candidate_config: InstrumentConfig,
        prepared_visualization: Option<PreparedSampleVisualization>,
    },
    /// Advance one correlated Sample assignment through worker-side stages.
    SampleAssetLifecycleAdvanced {
        request_id: EngineSelectionRequestId,
        lifecycle: SampleAssetLifecycle,
    },
    /// Replace one folder's correlated catalog result.
    SampleCatalogRefreshed {
        folder: SampleFolderId,
        listing: SampleCatalogResult,
    },
    /// Record one correlated typed preparation failure.
    EnginePreparationFailed {
        request_id: EngineSelectionRequestId,
        patch_id: PatchId,
        intent: StructuralEditIntent,
        source_capability_id: CapabilityId,
        target_capability_id: CapabilityId,
        source_graph_revision: GraphRevision,
        target_graph_revision: GraphRevision,
        failure: EngineSelectionFailure,
    },
    /// Reach Ready only after activation, retirement, and control collection.
    EngineActivationAcknowledged {
        request_id: EngineSelectionRequestId,
        intent: StructuralEditIntent,
        target_graph_revision: GraphRevision,
        retired_graph_revision: GraphRevision,
        collected: bool,
    },
    /// Request one Patch effect-slot occupancy change.
    SetSlotOccupancy { patch_id: PatchId, slot: EffectSlotIndex, entry: Option<EffectCapabilityId> },
    /// Request one bus-return occupancy change.
    SetReturnOccupancy { bus: BusId, entry: Option<EffectCapabilityId> },
    /// Record one prepared occupancy candidate.
    TopologyPrepared {
        request_id: EngineSelectionRequestId,
        intent: StructuralEditIntent,
        source_graph_revision: GraphRevision,
        target_graph_revision: GraphRevision,
    },
    /// Record one correlated typed occupancy refusal.
    TopologyPreparationFailed {
        request_id: EngineSelectionRequestId,
        intent: StructuralEditIntent,
        source_graph_revision: GraphRevision,
        target_graph_revision: GraphRevision,
        failure: EngineSelectionFailure,
    },
    /// Restore the persisted selected-input preference or its load failure.
    MidiInputPreferenceRestored {
        preference: Option<MidiInputPreference>,
        failure: Option<MidiDeviceFailure>,
    },
    /// Record a post-acceptance preference write failure.
    MidiInputPreferenceStoreFailed { failure: MidiDeviceFailure },
    /// Start one reducer-correlated discovery scan.
    MidiInputScanStarted,
    /// Reconcile one exact successful scan result.
    MidiInputScanSucceeded { scan_id: MidiInputScanId, descriptors: Vec<MidiInputDescriptor> },
    /// Record a typed discovery failure.
    MidiInputScanFailed { scan_id: MidiInputScanId, failure: MidiDeviceFailure },
    /// Request a connection to one present input.
    MidiInputConnectRequested { identity: MidiInputDeviceId },
    /// Record a prepared disabled connection candidate.
    MidiInputConnectionPrepared { request_id: MidiConnectionRequestId, revision: MidiConnectionRevision },
    /// Commit one matching connection candidate.
    MidiInputActivationAcknowledged {
        request_id: MidiConnectionRequestId,
        revision: MidiConnectionRevision,
    },
    /// Disconnect the selected active input for this process.
    MidiInputDisconnectRequested { identity: MidiInputDeviceId },
    /// Invalidate one exact active revision after device loss.
    MidiInputConnectionLost { identity: MidiInputDeviceId, revision: MidiConnectionRevision },
    /// Report a typed correlated worker or transport failure.
    MidiInputOperationFailed {
        identity: MidiInputDeviceId,
        request_id: Option<MidiConnectionRequestId>,
        revision: Option<MidiConnectionRevision>,
        failure: MidiDeviceFailure,
    },
    /// Invalidate every physical-input correlation before teardown.
    MidiInputShutdownRequested,
}

/// The descriptor entry of one concrete event.
pub open spec fn event_entry(e: AppEvent) -> AppEventSurfaceDescriptor {
    match e {
            AppEvent::SelectContext(context) => {
                AppEventSurfaceDescriptor::SelectContext { context: context }
            }
            AppEvent::SelectPatch(direction) => AppEventSurfaceDescriptor::SelectPatch {
                direction: direction,
            },
            AppEvent::Navigate(direction) => AppEventSurfaceDescriptor::Navigate {
                direction: direction,
            },
            AppEvent::Adjust(direction) => AppEventSurfaceDescriptor::Adjust {
                direction: direction,
            },
            AppEvent::SetInteractionMode(mode) => {
                AppEventSurfaceDescriptor::SetInteractionMode { mode: mode }
            }
            AppEvent::OpenRelated => AppEventSurfaceDescriptor::OpenRelated,
            AppEvent::OpenMidiSettings => AppEventSurfaceDescriptor::OpenMidiSettings,
            AppEvent::Activate => AppEventSurfaceDescriptor::Activate,
            AppEvent::PreviewStart => AppEventSurfaceDescriptor::PreviewStart,
            AppEvent::PreviewStop => AppEventSurfaceDescriptor::PreviewStop,
            AppEvent::EnterSurface(surface) => {
                AppEventSurfaceDescriptor::EnterSurface { surface: surface }
            }
            AppEvent::Return => AppEventSurfaceDescriptor::Return,
            AppEvent::InstallPatches(_) => AppEventSurfaceDescriptor::InstallPatches {
                patches: AppEventPayloadShape::PatchList,
            },
            AppEvent::ReplacePersistedSession(_) => {
                AppEventSurfaceDescriptor::ReplacePersistedSession {
                    replacement: AppEventPayloadShape::SessionReplacement,
                }
            }
            AppEvent::Midi { .. } => AppEventSurfaceDescriptor::Midi {
                patch_id: AppEventPayloadShape::PatchId,
                message: AppEventPayloadShape::MidiMessage,
            },
            AppEvent::SetPatchOverviewOriginEnabled { .. } => {
                AppEventSurfaceDescriptor::SetPatchOverviewOriginEnabled {
                    patch_id: AppEventPayloadShape::PatchId,
                    control: AppEventPayloadShape::PatchControlId,
                    enabled: AppEventPayloadShape::Boolean,
                }
            }
            AppEvent::EngineSelectionLifecycleAdvanced { .. } => {
                AppEventSurfaceDescriptor::EngineSelectionLifecycleAdvanced {
                    request_id: AppEventPayloadShape::EngineSelectionRequestId,
                    lifecycle: AppEventPayloadShape::EngineSelectionStatusKind,
                }
            }
            AppEvent::EnginePrepared { .. } => AppEventSurfaceDescriptor::EnginePrepared {
                request_id: AppEventPayloadShape::EngineSelectionRequestId,
                patch_id: AppEventPayloadShape::PatchId,
                intent: AppEventPayloadShape::StructuralEditIntent,
                source_capability_id: AppEventPayloadShape::CapabilityId,
                target_capability_id: AppEventPayloadShape::CapabilityId,
                source_graph_revision: AppEventPayloadShape::GraphRevision,
                target_graph_revision: AppEventPayloadShape::GraphRevision,
                candidate_config: AppEventPayloadShape::InstrumentConfig,
                prepared_visualization: AppEventPayloadShape::PreparedSampleVisualization,
            },
            AppEvent::SampleAssetLifecycleAdvanced { .. } => {
                AppEventSurfaceDescriptor::SampleAssetLifecycleAdvanced {
                    request_id: AppEventPayloadShape::EngineSelectionRequestId,
                    lifecycle: AppEventPayloadShape::SampleAssetLifecycle,
                }
            }
            AppEvent::SampleCatalogRefreshed { .. } => {
                AppEventSurfaceDescriptor::SampleCatalogRefreshed {
                    folder: AppEventPayloadShape::SampleFolderId,
                    listing: AppEventPayloadShape::SampleCatalogListing,
                    failure: AppEventPayloadShape::SampleAssetError,
                }
            }
            AppEvent::EnginePreparationFailed { .. } => {
                AppEventSurfaceDescriptor::EnginePreparationFailed {
                    request_id: AppEventPayloadShape::EngineSelectionRequestId,
                    patch_id: AppEventPayloadShape::PatchId,
                    intent: AppEventPayloadShape::StructuralEditIntent,
                    source_capability_id: AppEventPayloadShape::CapabilityId,
                    target_capability_id: AppEventPayloadShape::CapabilityId,
                    source_graph_revision: AppEventPayloadShape::GraphRevision,
                    target_graph_revision: AppEventPayloadShape::GraphRevision,
                    failure: AppEventPayloadShape::EngineSelectionFailure,
                }
            }
            AppEvent::EngineActivationAcknowledged { .. } => {
                AppEventSurfaceDescriptor::EngineActivationAcknowledged {
                    request_id: AppEventPayloadShape::EngineSelectionRequestId,
                    intent: AppEventPayloadShape::StructuralEditIntent,
                    target_graph_revision: AppEventPayloadShape::GraphRevision,
                    retired_graph_revision: AppEventPayloadShape::GraphRevision,
                    collected: AppEventPayloadShape::Boolean,
                }
            }
            AppEvent::SetSlotOccupancy { .. } => AppEventSurfaceDescriptor::SetSlotOccupancy {
                patch_id: AppEventPayloadShape::PatchId,
                slot: AppEventPayloadShape::EffectSlotIndex,
                entry: AppEventPayloadShape::OptionalEffectEntry,
            },
            AppEvent::SetReturnOccupancy { .. } => AppEventSurfaceDescriptor::SetReturnOccupancy {
                bus: AppEventPayloadShape::BusId,
                entry: AppEventPayloadShape::OptionalEffectEntry,
            },
            AppEvent::TopologyPrepared { .. } => AppEventSurfaceDescriptor::TopologyPrepared {
                request_id: AppEventPayloadShape::EngineSelectionRequestId,
                intent: AppEventPayloadShape::StructuralEditIntent,
                source_graph_revision: AppEventPayloadShape::GraphRevision,
                target_graph_revision: AppEventPayloadShape::GraphRevision,
            },
            AppEvent::TopologyPreparationFailed { .. } => {
                AppEventSurfaceDescriptor::TopologyPreparationFailed {
                    request_id: AppEventPayloadShape::EngineSelectionRequestId,
                    intent: AppEventPayloadShape::StructuralEditIntent,
                    source_graph_revision: AppEventPayloadShape::GraphRevision,
                    target_graph_revision: AppEventPayloadShape::GraphRevision,
                    failure: AppEventPayloadShape::EngineSelectionFailure,
                }
            }
            AppEvent::MidiInputPreferenceRestored { .. } => {
                AppEventSurfaceDescriptor::MidiInputPreferenceRestored {
                    preference: AppEventPayloadShape::MidiInputPreference,
                    failure: AppEventPayloadShape::OptionalMidiDeviceFailure,
                }
            }
            AppEvent::MidiInputPreferenceStoreFailed { .. } => {
                AppEventSurfaceDescriptor::MidiInputPreferenceStoreFailed {
                    failure: AppEventPayloadShape::MidiDeviceFailure,
                }
            }
            AppEvent::MidiInputScanStarted => AppEventSurfaceDescriptor::MidiInputScanStarted,
            AppEvent::MidiInputScanSucceeded { .. } => {
                AppEventSurfaceDescriptor::MidiInputScanSucceeded {
                    scan_id: AppEventPayloadShape::MidiInputScanId,
                    descriptors: AppEventPayloadShape::MidiInputDescriptorList,
                }
            }
            AppEvent::MidiInputScanFailed { .. } => AppEventSurfaceDescriptor::MidiInputScanFailed {
                scan_id: AppEventPayloadShape::MidiInputScanId,
                failure: AppEventPayloadShape::MidiDeviceFailure,
            },
            AppEvent::MidiInputConnectRequested { .. } => {
                AppEventSurfaceDescriptor::MidiInputConnectRequested {
                    identity: AppEventPayloadShape::MidiInputDeviceId,
                }
            }
            AppEvent::MidiInputConnectionPrepared { .. } => {
                AppEventSurfaceDescriptor::MidiInputConnectionPrepared {
                    request_id: AppEventPayloadShape::MidiConnectionRequestId,
                    revision: AppEventPayloadShape::MidiConnectionRevision,
                }
            }
            AppEvent::MidiInputActivationAcknowledged { .. } => {
                AppEventSurfaceDescriptor::MidiInputActivationAcknowledged {
                    request_id: AppEventPayloadShape::MidiConnectionRequestId,
                    revision: AppEventPayloadShape::MidiConnectionRevision,
                }
            }
            AppEvent::MidiInputDisconnectRequested { .. } => {
                AppEventSurfaceDescriptor::MidiInputDisconnectRequested {
                    identity: AppEventPayloadShape::MidiInputDeviceId,
                }
            }
            AppEvent::MidiInputConnectionLost { .. } => {
                AppEventSurfaceDescriptor::MidiInputConnectionLost {
                    identity: AppEventPayloadShape::MidiInputDeviceId,
                    revision: AppEventPayloadShape::MidiConnectionRevision,
                }
            }
            AppEvent::MidiInputOperationFailed { .. } => {
                AppEventSurfaceDescriptor::MidiInputOperationFailed {
                    identity: AppEventPayloadShape::MidiInputDeviceId,
                    request_id: AppEventPayloadShape::OptionalMidiConnectionRequestId,
                    revision: AppEventPayloadShape::OptionalMidiConnectionRevision,
                    failure: AppEventPayloadShape::MidiDeviceFailure,
                }
            }
            AppEvent::MidiInputShutdownRequested => {
                AppEventSurfaceDescriptor::MidiInputShutdownRequested
            }
        }
}

/// Whether accepting an event publishes a new scalar snapshot to the
/// real-time boundary: navigation (Patch selection included), surface,
/// lifecycle-admission and physical-input bookkeeping events never do.
pub open spec fn event_publishes_parameters(e: AppEvent) -> bool {
    !(e is SelectContext || e is SelectPatch || e is Navigate || e is SetInteractionMode || e is OpenRelated
        || e is OpenMidiSettings || e is PreviewStart || e is PreviewStop
        || e is SetPatchOverviewOriginEnabled || e is EngineSelectionLifecycleAdvanced
        || e is SampleAssetLifecycleAdvanced || e is SampleCatalogRefreshed || e is EnterSurface
        || e is Return || e is MidiInputPreferenceRestored || e is MidiInputPreferenceStoreFailed
        || e is MidiInputScanStarted || e is MidiInputScanSucceeded || e is MidiInputScanFailed
        || e is MidiInputConnectRequested || e is MidiInputConnectionPrepared
        || e is MidiInputActivationAcknowledged || e is MidiInputDisconnectRequested
        || e is MidiInputConnectionLost || e is MidiInputOperationFailed
        || e is MidiInputShutdownRequested)
}

/// The single typed mapping from user intent to reducer event.
pub open spec fn semantic_event(a: SemanticAction) -> AppEvent {
    match a {
        SemanticAction::SelectContext(context) => AppEvent::SelectContext(context),
        SemanticAction::SelectPatch(direction) => AppEvent::SelectPatch(direction),
        SemanticAction::Navigate(direction) => AppEvent::Navigate(direction),
        SemanticAction::Adjust(direction) => AppEvent::Adjust(direction),
        SemanticAction::SetInteractionMode(mode) => AppEvent::SetInteractionMode(mode),
        SemanticAction::OpenRelated => AppEvent::OpenRelated,
        SemanticAction::OpenMidiSettings => AppEvent::OpenMidiSettings,
        SemanticAction::Activate => AppEvent::Activate,
        SemanticAction::PreviewStart => AppEvent::PreviewStart,
        SemanticAction::PreviewStop => AppEvent::PreviewStop,
        SemanticAction::EnterSurface(surface) => AppEvent::EnterSurface(surface),
        SemanticAction::Return => AppEvent::Return,
        SemanticAction::SetSlotOccupancy { patch_id, slot, entry } =>
            AppEvent::SetSlotOccupancy { patch_id, slot, entry },
        SemanticAction::SetReturnOccupancy { bus, entry } => AppEvent::SetReturnOccupancy { bus, entry },
    }
}

impl AppEvent {
    /// Performs the single typed mapping from user intent to reducer event.
    pub fn from_semantic_action(action: SemanticAction) -> (r: AppEvent)
        ensures
            r == semantic_event(action),
    {
        match action {
            SemanticAction::SelectContext(context) => AppEvent::SelectContext(context),
            SemanticAction::SelectPatch(direction) => AppEvent::SelectPatch(direction),
            SemanticAction::Navigate(direction) => AppEvent::Navigate(direction),
            SemanticAction::Adjust(direction) => AppEvent::Adjust(direction),
            SemanticAction::SetInteractionMode(mode) => AppEvent::SetInteractionMode(mode),
            SemanticAction::OpenRelated => AppEvent::OpenRelated,
            SemanticAction::OpenMidiSettings => AppEvent::OpenMidiSettings,
            SemanticAction::Activate => AppEvent::Activate,
            SemanticAction::PreviewStart => AppEvent::PreviewStart,
            SemanticAction::PreviewStop => AppEvent::PreviewStop,
            SemanticAction::EnterSurface(surface) => AppEvent::EnterSurface(surface),
            SemanticAction::Return => AppEvent::Return,
            SemanticAction::SetSlotOccupancy { patch_id, slot, entry } =>
                AppEvent::SetSlotOccupancy { patch_id, slot, entry },
            SemanticAction::SetReturnOccupancy { bus, entry } =>
                AppEvent::SetReturnOccupancy { bus, entry },
        }
    }

    /// Reports whether accepting this event publishes a new scalar snapshot.
    pub fn publishes_parameters_on_acceptance(&self) -> (r: bool)
        ensures
            r == event_publishes_parameters(*self),
    {
        match self {
            AppEvent::SelectContext(_) | AppEvent::SelectPatch(_) | AppEvent::Navigate(_)
            | AppEvent::SetInteractionMode(_) | AppEvent::OpenRelated | AppEvent::OpenMidiSettings | AppEvent::PreviewStart
            | AppEvent::PreviewStop | AppEvent::SetPatchOverviewOriginEnabled { .. }
            | AppEvent::EngineSelectionLifecycleAdvanced { .. }
            | AppEvent::SampleAssetLifecycleAdvanced { .. }
            | AppEvent::SampleCatalogRefreshed { .. } | AppEvent::EnterSurface(_)
            | AppEvent::Return | AppEvent::MidiInputPreferenceRestored { .. }
            | AppEvent::MidiInputPreferenceStoreFailed { .. } | AppEvent::MidiInputScanStarted
            | AppEvent::MidiInputScanSucceeded { .. } | AppEvent::MidiInputScanFailed { .. }
            | AppEvent::MidiInputConnectRequested { .. }
            | AppEvent::MidiInputConnectionPrepared { .. }
            | AppEvent::MidiInputActivationAcknowledged { .. }
            | AppEvent::MidiInputDisconnectRequested { .. }
            | AppEvent::MidiInputConnectionLost { .. } | AppEvent::MidiInputOperationFailed { .. }
            | AppEvent::MidiInputShutdownRequested => false,
            _ => true,
        }
    }

    /// Returns the exhaustive descriptor entries for the closed event union.
    pub fn surface_descriptor() -> (r: Vec<AppEventSurfaceDescriptor>)
        ensures
            r@ == app_event_surface(),
    {
        let mut r: Vec<AppEventSurfaceDescriptor> = Vec::new();
        let mut i: usize = 0;
        while i < APP_EVENT_SURFACE_LEN
            invariant
                i <= APP_EVENT_SURFACE_LEN,
                r@ =~= app_event_surface().subrange(0, i as int),
            decreases APP_EVENT_SURFACE_LEN - i,
        {
            r.push(surface_entry_at_exec(i));
            i = i + 1;
        }
        assert(app_event_surface().subrange(0, APP_EVENT_SURFACE_LEN as int) =~= app_event_surface());
        r
    }

    /// Returns the descriptor entry matching this concrete event.
    pub fn surface_entry(&self) -> (r: AppEventSurfaceDescriptor)
        ensures
            r == event_entry(*self),
    {
        match self {
            AppEvent::SelectContext(context) => {
                AppEventSurfaceDescriptor::SelectContext { context: *context }
            }
            AppEvent::SelectPatch(direction) => AppEventSurfaceDescriptor::SelectPatch {
                direction: *direction,
            },
            AppEvent::Navigate(direction) => AppEventSurfaceDescriptor::Navigate {
                direction: *direction,
            },
            AppEvent::Adjust(direction) => AppEventSurfaceDescriptor::Adjust {
                direction: *direction,
            },
            AppEvent::SetInteractionMode(mode) => {
                AppEventSurfaceDescriptor::SetInteractionMode { mode: *mode }
            }
            AppEvent::OpenRelated => AppEventSurfaceDescriptor::OpenRelated,
            AppEvent::OpenMidiSettings => AppEventSurfaceDescriptor::OpenMidiSettings,
            AppEvent::Activate => AppEventSurfaceDescriptor::Activate,
            AppEvent::PreviewStart => AppEventSurfaceDescriptor::PreviewStart,
            AppEvent::PreviewStop => AppEventSurfaceDescriptor::PreviewStop,
            AppEvent::EnterSurface(surface) => {
                AppEventSurfaceDescriptor::EnterSurface { surface: *surface }
            }
            AppEvent::Return => AppEventSurfaceDescriptor::Return,
            AppEvent::InstallPatches(_) => AppEventSurfaceDescriptor::InstallPatches {
                patches: AppEventPayloadShape::PatchList,
            },
            AppEvent::ReplacePersistedSession(_) => {
                AppEventSurfaceDescriptor::ReplacePersistedSession {
                    replacement: AppEventPayloadShape::SessionReplacement,
                }
            }
            AppEvent::Midi { .. } => AppEventSurfaceDescriptor::Midi {
                patch_id: AppEventPayloadShape::PatchId,
                message: AppEventPayloadShape::MidiMessage,
            },
            AppEvent::SetPatchOverviewOriginEnabled { .. } => {
                AppEventSurfaceDescriptor::SetPatchOverviewOriginEnabled {
                    patch_id: AppEventPayloadShape::PatchId,
                    control: AppEventPayloadShape::PatchControlId,
                    enabled: AppEventPayloadShape::Boolean,
                }
            }
            AppEvent::EngineSelectionLifecycleAdvanced { .. } => {
                AppEventSurfaceDescriptor::EngineSelectionLifecycleAdvanced {
                    request_id: AppEventPayloadShape::EngineSelectionRequestId,
                    lifecycle: AppEventPayloadShape::EngineSelectionStatusKind,
                }
            }
            AppEvent::EnginePrepared { .. } => AppEventSurfaceDescriptor::EnginePrepared {
                request_id: AppEventPayloadShape::EngineSelectionRequestId,
                patch_id: AppEventPayloadShape::PatchId,
                intent: AppEventPayloadShape::StructuralEditIntent,
                source_capability_id: AppEventPayloadShape::CapabilityId,
                target_capability_id: AppEventPayloadShape::CapabilityId,
                source_graph_revision: AppEventPayloadShape::GraphRevision,
                target_graph_revision: AppEventPayloadShape::GraphRevision,
                candidate_config: AppEventPayloadShape::InstrumentConfig,
                prepared_visualization: AppEventPayloadShape::PreparedSampleVisualization,
            },
            AppEvent::SampleAssetLifecycleAdvanced { .. } => {
                AppEventSurfaceDescriptor::SampleAssetLifecycleAdvanced {
                    request_id: AppEventPayloadShape::EngineSelectionRequestId,
                    lifecycle: AppEventPayloadShape::SampleAssetLifecycle,
                }
            }
            AppEvent::SampleCatalogRefreshed { .. } => {
                AppEventSurfaceDescriptor::SampleCatalogRefreshed {
                    folder: AppEventPayloadShape::SampleFolderId,
                    listing: AppEventPayloadShape::SampleCatalogListing,
                    failure: AppEventPayloadShape::SampleAssetError,
                }
            }
            AppEvent::EnginePreparationFailed { .. } => {
                AppEventSurfaceDescriptor::EnginePreparationFailed {
                    request_id: AppEventPayloadShape::EngineSelectionRequestId,
                    patch_id: AppEventPayloadShape::PatchId,
                    intent: AppEventPayloadShape::StructuralEditIntent,
                    source_capability_id: AppEventPayloadShape::CapabilityId,
                    target_capability_id: AppEventPayloadShape::CapabilityId,
                    source_graph_revision: AppEventPayloadShape::GraphRevision,
                    target_graph_revision: AppEventPayloadShape::GraphRevision,
                    failure: AppEventPayloadShape::EngineSelectionFailure,
                }
            }
            AppEvent::EngineActivationAcknowledged { .. } => {
                AppEventSurfaceDescriptor::EngineActivationAcknowledged {
                    request_id: AppEventPayloadShape::EngineSelectionRequestId,
                    intent: AppEventPayloadShape::StructuralEditIntent,
                    target_graph_revision: AppEventPayloadShape::GraphRevision,
                    retired_graph_revision: AppEventPayloadShape::GraphRevision,
                    collected: AppEventPayloadShape::Boolean,
                }
            }
            AppEvent::SetSlotOccupancy { .. } => AppEventSurfaceDescriptor::SetSlotOccupancy {
                patch_id: AppEventPayloadShape::PatchId,
                slot: AppEventPayloadShape::EffectSlotIndex,
                entry: AppEventPayloadShape::OptionalEffectEntry,
            },
            AppEvent::SetReturnOccupancy { .. } => AppEventSurfaceDescriptor::SetReturnOccupancy {
                bus: AppEventPayloadShape::BusId,
                entry: AppEventPayloadShape::OptionalEffectEntry,
            },
            AppEvent::TopologyPrepared { .. } => AppEventSurfaceDescriptor::TopologyPrepared {
                request_id: AppEventPayloadShape::EngineSelectionRequestId,
                intent: AppEventPayloadShape::StructuralEditIntent,
                source_graph_revision: AppEventPayloadShape::GraphRevision,
                target_graph_revision: AppEventPayloadShape::GraphRevision,
            },
            AppEvent::TopologyPreparationFailed { .. } => {
                AppEventSurfaceDescriptor::TopologyPreparationFailed {
                    request_id: AppEventPayloadShape::EngineSelectionRequestId,
                    intent: AppEventPayloadShape::StructuralEditIntent,
                    source_graph_revision: AppEventPayloadShape::GraphRevision,
                    target_graph_revision: AppEventPayloadShape::GraphRevision,
                    failure: AppEventPayloadShape::EngineSelectionFailure,
                }
            }
            AppEvent::MidiInputPreferenceRestored { .. } => {
                AppEventSurfaceDescriptor::MidiInputPreferenceRestored {
                    preference: AppEventPayloadShape::MidiInputPreference,
                    failure: AppEventPayloadShape::OptionalMidiDeviceFailure,
                }
            }
            AppEvent::MidiInputPreferenceStoreFailed { .. } => {
                AppEventSurfaceDescriptor::MidiInputPreferenceStoreFailed {
                    failure: AppEventPayloadShape::MidiDeviceFailure,
                }
            }
            AppEvent::MidiInputScanStarted => AppEventSurfaceDescriptor::MidiInputScanStarted,
            AppEvent::MidiInputScanSucceeded { .. } => {
                AppEventSurfaceDescriptor::MidiInputScanSucceeded {
                    scan_id: AppEventPayloadShape::MidiInputScanId,
                    descriptors: AppEventPayloadShape::MidiInputDescriptorList,
                }
            }
            AppEvent::MidiInputScanFailed { .. } => AppEventSurfaceDescriptor::MidiInputScanFailed {
                scan_id: AppEventPayloadShape::MidiInputScanId,
                failure: AppEventPayloadShape::MidiDeviceFailure,
            },
            AppEvent::MidiInputConnectRequested { .. } => {
                AppEventSurfaceDescriptor::MidiInputConnectRequested {
                    identity: AppEventPayloadShape::MidiInputDeviceId,
                }
            }
            AppEvent::MidiInputConnectionPrepared { .. } => {
                AppEventSurfaceDescriptor::MidiInputConnectionPrepared {
                    request_id: AppEventPayloadShape::MidiConnectionRequestId,
                    revision: AppEventPayloadShape::MidiConnectionRevision,
                }
            }
            AppEvent::MidiInputActivationAcknowledged { .. } => {
                AppEventSurfaceDescriptor::MidiInputActivationAcknowledged {
                    request_id: AppEventPayloadShape::MidiConnectionRequestId,
                    revision: AppEventPayloadShape::MidiConnectionRevision,
                }
            }
            AppEvent::MidiInputDisconnectRequested { .. } => {
                AppEventSurfaceDescriptor::MidiInputDisconnectRequested {
                    identity: AppEventPayloadShape::MidiInputDeviceId,
                }
            }
            AppEvent::MidiInputConnectionLost { .. } => {
                AppEventSurfaceDescriptor::MidiInputConnectionLost {
                    identity: AppEventPayloadShape::MidiInputDeviceId,
                    revision: AppEventPayloadShape::MidiConnectionRevision,
                }
            }
            AppEvent::MidiInputOperationFailed { .. } => {
                AppEventSurfaceDescriptor::MidiInputOperationFailed {
                    identity: AppEventPayloadShape::MidiInputDeviceId,
                    request_id: AppEventPayloadShape::OptionalMidiConnectionRequestId,
                    revision: AppEventPayloadShape::OptionalMidiConnectionRevision,
                    failure: AppEventPayloadShape::MidiDeviceFailure,
                }
            }
            AppEvent::MidiInputShutdownRequested => {
                AppEventSurfaceDescriptor::MidiInputShutdownRequested
            }
        }
    }
}


/// The position a descriptor holds in the surface; descriptors the surface
/// does not list map past its end.
pub open spec fn surface_position(d: AppEventSurfaceDescriptor) -> int {
    match d {
        AppEventSurfaceDescriptor::SelectContext { context } => match context {
            TopLevelContext::Patch => 0,
            TopLevelContext::Mixer => 1,
        },
        AppEventSurfaceDescriptor::SelectPatch { direction } => match direction {
            Direction::Left => 2,
            Direction::Right => 3,
            _ => 49,
        },
        AppEventSurfaceDescriptor::Navigate { direction } => match direction {
            Direction::Up => 4,
            Direction::Down => 5,
            Direction::Left => 6,
            Direction::Right => 7,
        },
        AppEventSurfaceDescriptor::Adjust { direction } => match direction {
            Direction::Up => 8,
            Direction::Down => 9,
            Direction::Left => 10,
            Direction::Right => 11,
        },
        AppEventSurfaceDescriptor::SetInteractionMode { mode } => match mode {
            InteractionMode::Navigate => 12,
            InteractionMode::Adjust => 13,
            InteractionMode::Modal => 49,
        },
        AppEventSurfaceDescriptor::OpenRelated => 14,
        AppEventSurfaceDescriptor::OpenMidiSettings => 15,
        AppEventSurfaceDescriptor::Activate => 16,
        AppEventSurfaceDescriptor::PreviewStart => 17,
        AppEventSurfaceDescriptor::PreviewStop => 18,
        AppEventSurfaceDescriptor::EnterSurface { surface } => match surface {
            SurfaceId::PatchUtility => 19,
            SurfaceId::PatchDetail => 20,
            SurfaceId::MixerInspector => 21,
            _ => 49,
        },
        AppEventSurfaceDescriptor::Return => 22,
        AppEventSurfaceDescriptor::InstallPatches { .. } => 23,
        AppEventSurfaceDescriptor::ReplacePersistedSession { .. } => 24,
        AppEventSurfaceDescriptor::Midi { .. } => 25,
        AppEventSurfaceDescriptor::SetPatchOverviewOriginEnabled { .. } => 26,
        AppEventSurfaceDescriptor::EngineSelectionLifecycleAdvanced { .. } => 27,
        AppEventSurfaceDescriptor::EnginePrepared { .. } => 28,
        AppEventSurfaceDescriptor::SampleAssetLifecycleAdvanced { .. } => 29,
        AppEventSurfaceDescriptor::SampleCatalogRefreshed { .. } => 30,
        AppEventSurfaceDescriptor::EnginePreparationFailed { .. } => 31,
        AppEventSurfaceDescriptor::EngineActivationAcknowledged { .. } => 32,
        AppEventSurfaceDescriptor::SetSlotOccupancy { .. } => 33,
        AppEventSurfaceDescriptor::SetReturnOccupancy { .. } => 34,
        AppEventSurfaceDescriptor::TopologyPrepared { .. } => 35,
        AppEventSurfaceDescriptor::TopologyPreparationFailed { .. } => 36,
        AppEventSurfaceDescriptor::MidiInputPreferenceRestored { .. } => 37,
        AppEventSurfaceDescriptor::MidiInputPreferenceStoreFailed { .. } => 38,
        AppEventSurfaceDescriptor::MidiInputScanStarted => 39,
        AppEventSurfaceDescriptor::MidiInputScanSucceeded { .. } => 40,
        AppEventSurfaceDescriptor::MidiInputScanFailed { .. } => 41,
        AppEventSurfaceDescriptor::MidiInputConnectRequested { .. } => 42,
        AppEventSurfaceDescriptor::MidiInputConnectionPrepared { .. } => 43,
        AppEventSurfaceDescriptor::MidiInputActivationAcknowledged { .. } => 44,
        AppEventSurfaceDescriptor::MidiInputDisconnectRequested { .. } => 45,
        AppEventSurfaceDescriptor::MidiInputConnectionLost { .. } => 46,
        AppEventSurfaceDescriptor::MidiInputOperationFailed { .. } => 47,
        AppEventSurfaceDescriptor::MidiInputShutdownRequested => 48,
    }
}

proof fn lemma_surface_position(i: int)
    requires
        0 <= i < APP_EVENT_SURFACE_LEN,
    ensures
        surface_position(surface_entry_at(i)) == i,
{
}

/// No entry of the application-event surface appears twice.
pub proof fn lemma_surface_descriptor_unique(i: int, j: int)
    requires
        0 <= i < APP_EVENT_SURFACE_LEN,
        0 <= j < APP_EVENT_SURFACE_LEN,
        i != j,
    ensures
        app_event_surface()[i] != app_event_surface()[j],
{
    lemma_surface_position(i);
    lemma_surface_position(j);
}

/// The events whose payload the surface enumerates: Patch selection moves
/// only horizontally, the directly selectable modes, and the persistent
/// side surfaces.
pub open spec fn event_admitted(e: AppEvent) -> bool {
    match e {
        AppEvent::SelectPatch(direction) => direction == Direction::Left || direction
            == Direction::Right,
        AppEvent::SetInteractionMode(mode) => mode != InteractionMode::Modal,
        AppEvent::EnterSurface(surface) => surface == SurfaceId::PatchUtility || surface
            == SurfaceId::PatchDetail || surface == SurfaceId::MixerInspector,
        _ => true,
    }
}

/// Every admitted event's descriptor entry is listed in the surface.
pub proof fn lemma_surface_entry_listed(e: AppEvent)
    requires
        event_admitted(e),
    ensures
        app_event_surface().contains(event_entry(e)),
{
    let k = surface_position(event_entry(e));
    assert(0 <= k < APP_EVENT_SURFACE_LEN);
    assert(app_event_surface()[k] == event_entry(e));
}

} // verus!
