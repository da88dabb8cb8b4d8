//! The notifications that the bridge hands to the host shell's event bridge.

use vstd::prelude::*;

verus! {

/// A named, fire-and-forget notification for the UI layer: delivered
/// at-most-once, with no acknowledgement. `payload` is `None` for events
/// that carry nothing (the media-key events) and `Some` for those that
/// carry a value (the captured authorization code).
pub struct CrossBoundaryEvent {
    /// The event's name on the bridge.
    pub name: String,
    /// The value the event carries, if any.
    pub payload: Option<String>,
}

} // verus!
