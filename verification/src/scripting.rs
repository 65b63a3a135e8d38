//! The script execution engine: the dynamic value model, the configuration
//! marshaler, the script locator and the per-invocation state machines.

pub mod loader;
pub mod record;
pub mod record_serializer;
pub mod runner;
pub mod script;
