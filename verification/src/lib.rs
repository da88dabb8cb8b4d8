//! Native-side event bridge of a desktop application shell.
//!
//! Three independent components translate outside occurrences into named
//! events for the shell's UI layer: a presence adapter that plans status
//! updates for an external presence service, a loopback listener session
//! that captures a single OAuth redirect and extracts its authorization
//! code, and a hotkey dispatcher that turns global media-key presses into
//! UI events. The I/O around each component (sockets, IPC, OS shortcut
//! registration) lives outside this crate; the decisions here are verified.

pub mod auth;
pub mod events;
pub mod hotkey;
pub mod presence;
pub mod text;
