//! Hotkey dispatcher: translates the three fixed global media keys into
//! named UI events, and records per-binding registration outcomes.
//!
//! Registration itself is an OS call owned by the caller; each attempt's
//! outcome is reported back through `record_registration`, and a failure
//! for one binding is isolated from the others. A press notification is
//! turned into its event by `on_hotkey`; releases and unknown combos
//! produce nothing.

use crate::events::CrossBoundaryEvent;
use crate::text::str_eq;
use vstd::prelude::*;

verus! {

/// One global hotkey: the OS-level combo it is registered under and the
/// event name it raises on the bridge.
pub struct HotkeyBinding {
    /// The OS-provided identifier of the key, e.g. `MediaPlayPause`.
    pub combo: String,
    /// The name of the event emitted when the key is pressed.
    pub event_name: String,
}

/// The event name a hotkey notification maps to: one of the three media
/// events for a press of its key, nothing for a release or an unknown
/// combo.
pub open spec fn spec_hotkey_event(combo: Seq<char>, pressed: bool) -> Option<Seq<char>> {
    if !pressed {
        None
    } else if combo == "MediaPlayPause"@ {
        Some("media-play-pause"@)
    } else if combo == "MediaNextTrack"@ {
        Some("media-next-track"@)
    } else if combo == "MediaPrevTrack"@ {
        Some("media-prev-track"@)
    } else {
        None
    }
}

/// Translates one OS hotkey notification. A "pressed" transition of a
/// bound media key yields exactly one corresponding event with an empty
/// payload; a release, or any other combo, yields none.
pub fn on_hotkey(combo: &str, pressed: bool) -> (r: Option<CrossBoundaryEvent>)
    ensures
        match spec_hotkey_event(combo@, pressed) {
            Some(n) => {
                &&& r matches Some(e)
                &&& e.name@ == n
                &&& e.payload is None
            },
            None => r is None,
        },
{
    if !pressed {
        return None;
    }
    if str_eq(combo, "MediaPlayPause") {
        Some(CrossBoundaryEvent { name: String::from_str("media-play-pause"), payload: None })
    } else if str_eq(combo, "MediaNextTrack") {
        Some(CrossBoundaryEvent { name: String::from_str("media-next-track"), payload: None })
    } else if str_eq(combo, "MediaPrevTrack") {
        Some(CrossBoundaryEvent { name: String::from_str("media-prev-track"), payload: None })
    } else {
        None
    }
}

/// The fixed set registered at startup: play/pause, next track, previous
/// track, in that order.
pub fn media_bindings() -> (v: Vec<HotkeyBinding>)
    ensures
        v@.len() == 3,
        v@[0].combo@ == "MediaPlayPause"@ && v@[0].event_name@ == "media-play-pause"@,
        v@[1].combo@ == "MediaNextTrack"@ && v@[1].event_name@ == "media-next-track"@,
        v@[2].combo@ == "MediaPrevTrack"@ && v@[2].event_name@ == "media-prev-track"@,
{
    let mut v: Vec<HotkeyBinding> = Vec::new();
    v.push(
        HotkeyBinding {
            combo: String::from_str("MediaPlayPause"),
            event_name: String::from_str("media-play-pause"),
        },
    );
    v.push(
        HotkeyBinding {
            combo: String::from_str("MediaNextTrack"),
            event_name: String::from_str("media-next-track"),
        },
    );
    v.push(
        HotkeyBinding {
            combo: String::from_str("MediaPrevTrack"),
            event_name: String::from_str("media-prev-track"),
        },
    );
    v
}

/// What one registration outcome does to the set of active bindings: a
/// success appends the binding, a failure changes nothing.
pub open spec fn spec_record(
    active: Seq<HotkeyBinding>,
    b: HotkeyBinding,
    ok: bool,
) -> Seq<HotkeyBinding> {
    if ok {
        active.push(b)
    } else {
        active
    }
}

/// The dispatcher's registration state: which bindings the OS accepted.
pub struct HotkeyDispatcher {
    /// The bindings whose registration succeeded, in registration order.
    pub active: Vec<HotkeyBinding>,
}

impl HotkeyDispatcher {
    /// A dispatcher before any registration attempt.
    pub fn new() -> (d: HotkeyDispatcher)
        ensures
            d.active@ == Seq::<HotkeyBinding>::empty(),
    {
        HotkeyDispatcher { active: Vec::new() }
    }

    /// Records one registration attempt's outcome. Failures are swallowed
    /// per binding: a failed attempt leaves the active set exactly as it
    /// was and is not surfaced further.
    pub fn record_registration(&mut self, b: HotkeyBinding, ok: bool)
        ensures
            final(self).active@ == spec_record(old(self).active@, b, ok),
    {
        if ok {
            self.active.push(b);
        }
    }
}

/// Registration attempts are independent: a failed attempt for one
/// binding leaves the active set that any later attempt builds exactly as
/// if the failed attempt had never been made, so one binding's failure
/// neither blocks another's registration nor its dispatch — `on_hotkey`
/// reads no registration state at all.
pub proof fn lemma_registration_isolation(
    active: Seq<HotkeyBinding>,
    failed: HotkeyBinding,
    b: HotkeyBinding,
    ok: bool,
)
    ensures
        spec_record(spec_record(active, failed, false), b, ok) == spec_record(active, b, ok),
{
}

} // verus!
