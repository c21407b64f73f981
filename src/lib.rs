//! Launcher core: port negotiation, worker supervision, readiness polling and
//! the hand-off from the splash surface to the worker's page.

pub mod base64;
pub mod text;
pub mod port_scan;
pub mod probe;
pub mod supervisor;
pub mod diagnostic;
pub mod handoff;
