//! Resolve a named buildpack against a versioned registry index, plan the
//! fetch of its packaged content from an image registry, and drive the
//! detect / build / launch lifecycle as a pure state machine.
//!
//! All decision logic lives here, verified; network, filesystem and process
//! I/O is left to the program around the library, which performs each
//! commanded action and feeds its outcome back in as an event.

pub mod fetcher;
pub mod lifecycle;
pub mod orchestrator;
pub mod reference;
pub mod registry;
pub mod strutil;
pub mod version;
