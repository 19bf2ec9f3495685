use vstd::prelude::*;

verus! {

/// Tracking state reported by the backend for one spatial entity. Only
/// entities in the `Tracking` state may appear in the output of a poll
/// cycle; `Stopped` and `Paused` are expected transient states.
#[derive(Clone, Copy, Debug, PartialEq, Eq, Structural)]
pub enum TrackingState {
    Stopped,
    Paused,
    Tracking,
}

/// Capability tag carried by a marker component record. The pipeline is
/// configured for QR-code tracking only; records tagged with any other
/// capability are skipped.
#[derive(Clone, Copy, Debug, PartialEq, Eq, Structural)]
pub enum MarkerCapability {
    QrCode,
    Other,
}

/// Type tag of the payload buffer attached to a marker component. Only
/// buffers tagged as text can be decoded into a payload string.
#[derive(Clone, Copy, Debug, PartialEq, Eq, Structural)]
pub enum BufferKind {
    Unknown,
    Text,
    Binary,
}

/// The buffer id the backend uses for "no buffer attached".
pub const NULL_BUFFER_ID: u64 = 0;

/// A bounded-2D pose carried through the pipeline untouched. The seven
/// components are the raw bit patterns of the backend's single-precision
/// pose fields (orientation quaternion and position vector); the pipeline
/// never interprets them, it only attaches the pose of a surviving record
/// to its decoded payload.
#[derive(Clone, Copy, Debug, PartialEq, Eq, Structural)]
pub struct Pose {
    pub orientation_x_bits: u32,
    pub orientation_y_bits: u32,
    pub orientation_z_bits: u32,
    pub orientation_w_bits: u32,
    pub position_x_bits: u32,
    pub position_y_bits: u32,
    pub position_z_bits: u32,
}

/// One row of a discovery snapshot: an entity id, its tracking state and,
/// from the chained typed result blocks, the marker capability tag, the
/// payload buffer reference (id plus type tag) and the bounded-2D pose.
#[derive(Clone, Copy, Debug, PartialEq, Eq, Structural)]
pub struct EntityRecord {
    pub entity_id: u64,
    pub state: TrackingState,
    pub capability: MarkerCapability,
    pub buffer_id: u64,
    pub buffer_kind: BufferKind,
    pub pose: Pose,
}

/// The decoded output unit of one successful poll cycle: the marker's
/// payload string and its pose. Each returned list is a full replacement
/// snapshot, never a delta.
#[derive(Debug)]
pub struct MarkerRecord {
    pub payload: String,
    pub pose: Pose,
}

/// A record is reportable when it is currently tracked, tagged with the
/// QR-code capability, and carries a present buffer reference typed as text.
pub open spec fn reportable_spec(r: EntityRecord) -> bool {
    &&& r.state == TrackingState::Tracking
    &&& r.capability == MarkerCapability::QrCode
    &&& r.buffer_id != NULL_BUFFER_ID
    &&& r.buffer_kind == BufferKind::Text
}

/// Decide whether one snapshot record survives the filter pass.
pub fn is_reportable(r: &EntityRecord) -> (b: bool)
    ensures
        b == reportable_spec(*r),
{
    r.state == TrackingState::Tracking && r.capability == MarkerCapability::QrCode
        && r.buffer_id != NULL_BUFFER_ID && r.buffer_kind == BufferKind::Text
}

} // verus!
