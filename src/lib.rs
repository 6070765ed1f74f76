//! Start-up logic of a desktop shell that launches a bundled helper
//! process ("sidecar") beside its window.
//!
//! The library decides what happens during start-up: which plugins are
//! registered, in what order, with which arguments the sidecar is launched,
//! and how each failure ends the start-up. The host application performs the
//! actions it is handed and reports what came of them.
pub mod sidecar;
pub mod startup;
pub mod runs;
