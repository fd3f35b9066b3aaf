//! Resolves a possibly partial runtime version against a remote release
//! index, probes the local installation, and decides what to download.
//!
//! Every network, filesystem and process operation is left to the caller:
//! the library takes what came back as plain values and decides the next step.

pub mod text;
pub mod error;
pub mod layout;
pub mod request;
pub mod semantic;
pub mod index;
pub mod selector;
pub mod probe;
pub mod install;
