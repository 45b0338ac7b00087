//! Decision core of the durable HTTP activities.
use vstd::prelude::*;

pub mod activities;
pub mod address;
pub mod encoding;
pub mod laws;
pub mod redact;
pub mod settings;
pub mod ssrf;
pub mod text;
pub mod types;
pub mod url;

verus! {

/// Schema version that the background worker records once it has initialised.
pub const WORKER_SCHEMA_VERSION: i32 = 1;

} // verus!
