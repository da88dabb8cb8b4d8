//! Presence client adapter: plans status updates for an external desktop
//! presence service reached over process-local IPC.
//!
//! The adapter holds only the connection's state; the IPC channel itself is
//! owned by the caller, which performs the connect and the send and reports
//! their outcomes back. `plan_publish` decides what, if anything, is sent:
//! with no connection it plans nothing, so a publish degrades to a silent
//! no-op; with a connection it builds the exact activity payload. Whether
//! the whole publish succeeded is settled by `publish_result`.

use vstd::prelude::*;

verus! {

/// A status update requested by the UI layer. `small_image` is accepted
/// but unused by the publish path.
pub struct PresenceUpdate {
    /// First line of the displayed status.
    pub details: String,
    /// Second line of the displayed status.
    pub state_text: String,
    /// Asset key of the large image, if one is to be shown.
    pub large_image: Option<String>,
    /// Accepted and ignored: the publish path never reads it.
    pub small_image: Option<String>,
}

/// The activity payload handed to the presence service's "set activity"
/// operation: exactly the fields the service displays.
pub struct ActivityPayload {
    /// First line of the displayed status.
    pub details: String,
    /// Second line of the displayed status.
    pub state_text: String,
    /// Asset key of the large image, attached only when the update holds one.
    pub large_image: Option<String>,
}

/// A publish that reached the IPC channel and failed there.
#[derive(PartialEq, Eq, Structural, Clone, Copy, Debug)]
pub enum PresenceError {
    /// The channel write failed, e.g. the peer process exited.
    PublishFailure,
}

/// The payload that an update publishes: details and state are carried
/// over, and the large-image asset key is attached exactly when the update
/// holds one.
pub open spec fn spec_payload_of(u: PresenceUpdate) -> ActivityPayload {
    ActivityPayload { details: u.details, state_text: u.state_text, large_image: u.large_image }
}

/// What a publish sends: nothing without a connection, the update's
/// payload with one.
pub open spec fn spec_plan_publish(connected: bool, u: PresenceUpdate) -> Option<ActivityPayload> {
    if connected {
        Some(spec_payload_of(u))
    } else {
        None
    }
}

/// The result a publish settles to: a planned no-op and a successful
/// write are both success; a failed write is the one error.
pub open spec fn spec_publish_result(planned: Option<ActivityPayload>, send_ok: bool) -> Result<
    (),
    PresenceError,
> {
    match planned {
        None => Ok(()),
        Some(_) => if send_ok {
            Ok(())
        } else {
            Err(PresenceError::PublishFailure)
        },
    }
}

/// The adapter's own state: whether the write-once connect step left a
/// live connection behind.
pub struct PresenceAdapter {
    /// True exactly when a live connection to the presence service exists.
    pub connected: bool,
}

impl PresenceAdapter {
    /// A fresh adapter, before the connect step: no connection.
    pub fn new() -> (a: PresenceAdapter)
        ensures
            !a.connected,
    {
        PresenceAdapter { connected: false }
    }

    /// Records the outcome of the one connect attempt. Failure is
    /// non-fatal: the adapter merely stays disconnected and every later
    /// publish becomes a no-op.
    pub fn on_connect(&mut self, ok: bool)
        ensures
            final(self).connected == ok,
    {
        self.connected = ok;
    }

    /// Decides what a publish of `u` sends over the IPC channel: `None`
    /// (send nothing) when no connection exists, otherwise exactly the
    /// payload of `u`.
    pub fn plan_publish(&self, u: &PresenceUpdate) -> (r: Option<ActivityPayload>)
        ensures
            r == spec_plan_publish(self.connected, *u),
    {
        if self.connected {
            let img = match &u.large_image {
                Some(s) => Some(s.clone()),
                None => None,
            };
            Some(ActivityPayload {
                details: u.details.clone(),
                state_text: u.state_text.clone(),
                large_image: img,
            })
        } else {
            None
        }
    }

    /// Settles the result of a publish from what was planned and, where a
    /// send happened, whether the channel write succeeded: a planned no-op
    /// is a success the caller cannot distinguish from a real publish, and
    /// a failed write is the one error.
    pub fn publish_result(&self, planned: &Option<ActivityPayload>, send_ok: bool) -> (r: Result<
        (),
        PresenceError,
    >)
        ensures
            r == spec_publish_result(*planned, send_ok),
    {
        match planned {
            None => Ok(()),
            Some(_) => {
                if send_ok {
                    Ok(())
                } else {
                    Err(PresenceError::PublishFailure)
                }
            },
        }
    }
}

/// With no active connection a publish of any update succeeds and sends
/// nothing: the plan is empty, and the settled result is success whatever
/// the channel would have said.
pub proof fn lemma_publish_disconnected_noop(a: PresenceAdapter, u: PresenceUpdate)
    requires
        !a.connected,
    ensures
        spec_plan_publish(a.connected, u) is None,
        forall|send_ok: bool|
            spec_publish_result(spec_plan_publish(a.connected, u), send_ok) == Ok::<
                (),
                PresenceError,
            >(()),
{
}

/// The payload sent for an update carries the large-image asset key if
/// and only if the update holds one, and then the very same key.
pub proof fn lemma_payload_image_iff(u: PresenceUpdate)
    ensures
        spec_payload_of(u).large_image is Some <==> u.large_image is Some,
        u.large_image matches Some(img) ==> spec_payload_of(u).large_image == Some(img),
{
}

} // verus!
