//! The two ends of a link, as type-level markers.

use vstd::prelude::*;

verus! {

/// Marks the state of a sending link.
#[derive(Debug)]
pub struct SenderMarker {}

/// Marks the state of a receiving link.
#[derive(Debug)]
pub struct ReceiverMarker {}

} // verus!
