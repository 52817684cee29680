//! Event payloads produced by the MIDI, device and sample adapters.
use vstd::prelude::*;
use crate::domain::{GraphRevision, MidiChannel};
use crate::patch::Patch;

verus! {

/// The largest MIDI data byte.
pub const MIDI_DATA_MAX: u8 = 127;

/// The controller number that silences every sounding note on a channel.
pub const ALL_NOTES_OFF_CONTROLLER: u8 = 123;

/// The kind of one channel voice message.
#[derive(Clone, Copy, Debug, PartialEq, Eq, Hash, Structural)]
pub enum MidiMessageKind {
    NoteOff,
    NoteOn,
    PolyphonicPressure,
    ControlChange,
    ProgramChange,
    ChannelPressure,
    PitchBend,
}

/// A failure to build a MIDI message from raw bytes.
#[derive(Clone, Copy, Debug, PartialEq, Eq, Structural)]
pub enum MidiMessageError {
    DataOutOfRange,
}

/// One normalized channel voice message.
#[derive(Clone, Copy, Debug, PartialEq, Eq, Hash, Structural)]
pub struct MidiMessage {
    channel: MidiChannel,
    kind: MidiMessageKind,
    data1: u8,
    data2: u8,
}

/// The mathematical content of a MIDI message.
pub struct MidiMessageView {
    pub channel: MidiChannel,
    pub kind: MidiMessageKind,
    pub data1: u8,
    pub data2: u8,
}

impl View for MidiMessage {
    type V = MidiMessageView;

    closed spec fn view(&self) -> MidiMessageView {
        MidiMessageView {
            channel: self.channel,
            kind: self.kind,
            data1: self.data1,
            data2: self.data2,
        }
    }
}

impl MidiMessage {
    /// Builds a message whose data bytes are both seven-bit values.
    pub fn try_new(channel: MidiChannel, kind: MidiMessageKind, data1: u8, data2: u8) -> (r: Result<
        MidiMessage,
        MidiMessageError,
    >)
        ensures
            (data1 <= MIDI_DATA_MAX && data2 <= MIDI_DATA_MAX) <==> r is Ok,
            r matches Ok(m) ==> m@ == (MidiMessageView { channel, kind, data1, data2 }),
    {
        if data1 > MIDI_DATA_MAX || data2 > MIDI_DATA_MAX {
            Err(MidiMessageError::DataOutOfRange)
        } else {
            Ok(MidiMessage { channel, kind, data1, data2 })
        }
    }

    /// The message that silences every sounding note on `channel`.
    pub fn all_notes_off(channel: MidiChannel) -> (r: MidiMessage)
        ensures
            r@ == (MidiMessageView {
                channel,
                kind: MidiMessageKind::ControlChange,
                data1: ALL_NOTES_OFF_CONTROLLER,
                data2: 0,
            }),
    {
        MidiMessage {
            channel,
            kind: MidiMessageKind::ControlChange,
            data1: ALL_NOTES_OFF_CONTROLLER,
            data2: 0,
        }
    }

    pub fn channel(self) -> (r: MidiChannel)
        ensures
            r == self@.channel,
    {
        self.channel
    }

    pub fn kind(self) -> (r: MidiMessageKind)
        ensures
            r == self@.kind,
    {
        self.kind
    }

    pub fn data1(self) -> (r: u8)
        ensures
            r == self@.data1,
    {
        self.data1
    }

    pub fn data2(self) -> (r: u8)
        ensures
            r == self@.data2,
    {
        self.data2
    }
}

/// Opaque identity of one physical MIDI input device.
#[derive(Clone, Debug, PartialEq, Eq)]
pub struct MidiInputDeviceId {
    pub value: String,
}

/// One discovered physical MIDI input.
#[derive(Clone, Debug, PartialEq, Eq)]
pub struct MidiInputDescriptor {
    pub identity: MidiInputDeviceId,
    pub name: String,
}

/// The separately persisted selected-input preference.
#[derive(Clone, Debug, PartialEq, Eq)]
pub struct MidiInputPreference {
    pub identity: MidiInputDeviceId,
}

/// Correlation identity of one discovery scan.
#[derive(Clone, Copy, Debug, PartialEq, Eq, Hash, Structural)]
pub struct MidiInputScanId {
    pub value: u64,
}

/// Correlation identity of one connection request.
#[derive(Clone, Copy, Debug, PartialEq, Eq, Hash, Structural)]
pub struct MidiConnectionRequestId {
    pub value: u64,
}

/// Revision of one prepared or active connection.
#[derive(Clone, Copy, Debug, PartialEq, Eq, Hash, Structural)]
pub struct MidiConnectionRevision {
    pub value: u64,
}

/// Typed physical MIDI failures.
#[derive(Clone, Copy, Debug, PartialEq, Eq, Hash, Structural)]
pub enum MidiDeviceFailure {
    BackendUnavailable,
    DeviceUnavailable,
    PermissionDenied,
    TransportFailed,
    PreferenceRead,
    PreferenceDecode,
    PreferenceWrite,
    WorkerUnavailable,
}

/// Observable worker-side stages of one Sample assignment.
#[derive(Clone, Copy, Debug, PartialEq, Eq, Hash, Structural)]
pub enum SampleAssetLifecycle {
    Idle,
    Loading,
    Validating,
    Preparing,
    Activating,
    Ready,
    Failed,
}

/// Identity of one Sample folder.
#[derive(Clone, Debug, PartialEq, Eq)]
pub struct SampleFolderId {
    pub value: String,
}

/// One folder's listed Sample files.
#[derive(Clone, Debug, PartialEq, Eq)]
pub struct SampleCatalogListing {
    pub entries: Vec<String>,
}

/// Typed Sample catalog failures.
#[derive(Clone, Copy, Debug, PartialEq, Eq, Hash, Structural)]
pub enum SampleAssetError {
    FolderUnavailable,
    InvalidAsset,
    Unsupported,
}

/// One folder's catalog result: its listing or a typed failure.
#[derive(Clone, Debug, PartialEq, Eq)]
pub enum SampleCatalogResult {
    Listed(SampleCatalogListing),
    Failed(SampleAssetError),
}

/// A prepared waveform summary for one Sample.
#[derive(Clone, Debug, PartialEq, Eq)]
pub struct PreparedSampleVisualization {
    pub peaks: Vec<u8>,
}

/// The complete persisted content committed by one whole-session replacement,
/// correlated with the graph revision prepared for it.
#[derive(Clone, Debug, PartialEq, Eq)]
pub struct SessionReplacementPayload {
    pub patches: Vec<Patch>,
    pub target_graph_revision: GraphRevision,
}

} // verus!
