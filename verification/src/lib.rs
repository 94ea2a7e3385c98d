//! GBOS device agent.

pub mod backend;
pub mod bytes;
pub mod calendar;
pub mod command;
pub mod console;
pub mod diagnostics;
pub mod json;
pub mod lifecycle;
pub mod location;
pub mod logging;
pub mod monitor;
pub mod platform;
pub mod service;
pub mod session;
pub mod telemetry;
pub mod text;
pub mod video;
pub mod wide;
