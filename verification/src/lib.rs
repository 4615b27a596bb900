//! A compiler and analyzer for deploying JavaScript functions as
//! WebAssembly "lambda" modules.
//!
//! The crate analyzes which callable bindings a script exports (over the
//! explicit JavaScript subset that [`analysis`] documents), embeds source
//! provenance and producer metadata into a compiled module, and models the
//! guest-side request-dispatch state machine.

pub mod analysis;
pub mod commands;
pub mod guest;
pub mod js;
pub mod laws;
pub mod transform;
