//! The Windows per-session helper.
//!
//! A Windows service runs in Session 0, which cannot see the user's desktop and
//! has no user to grant a location permission. Screen and location therefore run
//! in a helper process that the service launches into the active console session.
//! The service stays the only thing that talks to the backend.

pub mod bridge;
pub mod helper;
pub mod launch;
pub mod protocol;
pub mod reader;

pub use bridge::{active_console_user, note_running_as_service, SessionBridge};
