//! The fields that the daemon reports, as plain values.
use vstd::prelude::*;

verus! {

/// What the display reports; its progress fraction is not read here.
#[derive(Clone, Debug, Default, PartialEq, Eq)]
pub struct DisplayStatus {
    pub message: Option<String>,
}

/// The idle-timeout object's state.
#[derive(Clone, Debug, Default, PartialEq, Eq)]
pub struct IdleTimeout {
    pub state: Option<String>,
}

/// Layer progress of the current print job.
#[derive(Copy, Clone, Debug, Default, PartialEq, Eq)]
pub struct PrintStatsInfo {
    pub current_layer: Option<u16>,
    pub total_layer: Option<u16>,
}

/// The print-job statistics object: the fields that the snapshot is built
/// from. Its durations and filament use are not read here.
#[derive(Clone, Debug, Default, PartialEq, Eq)]
pub struct PrintStats {
    pub info: PrintStatsInfo,
    pub state: Option<String>,
    pub file_name: Option<String>,
    pub message: Option<String>,
}

/// One printable object of a multi-object job.
#[derive(Clone, Debug, Default, PartialEq, Eq)]
pub struct ObjectDefinition {
    pub name: String,
}

/// The object-exclusion object: every object of the job, and the names of
/// those that were excluded.
#[derive(Clone, Debug, Default, PartialEq, Eq)]
pub struct ExcludeObject {
    pub objects: Vec<ObjectDefinition>,
    pub excluded_objects: Vec<String>,
}

/// The daemon's object tree, as one status push or query delivers it.
#[derive(Clone, Debug, Default, PartialEq, Eq)]
pub struct PrinterObjectStatus {
    pub display_status: DisplayStatus,
    pub idle_timeout: IdleTimeout,
    pub print_stats: PrintStats,
    pub exclude_object: ExcludeObject,
}

/// Answer to the identity handshake.
#[derive(Clone, Debug, Default, PartialEq, Eq)]
pub struct IdentifyResult {
    pub connection_id: u64,
}

/// Answer to the server-info query.
#[derive(Clone, Debug, Default, PartialEq, Eq)]
pub struct ServerInfoResponse {
    pub klippy_connected: bool,
    pub klippy_state: String,
}

/// Answer to the webcam lookup.
#[derive(Clone, Debug, Default, PartialEq, Eq)]
pub struct WebCamInformationResult {
    pub webcam: WebCamInformation,
}

/// The part of a webcam's configuration that is used here.
#[derive(Clone, Debug, Default, PartialEq, Eq)]
pub struct WebCamInformation {
    pub snapshot_url: String,
}

} // verus!
