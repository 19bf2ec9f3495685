use vstd::prelude::*;

pub mod average;
pub mod marker;
pub mod pipeline;
pub mod scheduler;
pub mod status;

verus! {

/// Maximum number of entities one discovery snapshot can report. The backend
/// forbids changing the query buffer capacity after the first query call, so
/// all result storage is sized to this constant once and never resized.
pub const MAX_MARKERS_COUNT: usize = 32;

} // verus!
