//! A telemetry relay core: stream identity, the channel registry, and the
//! decision logic of the ingest and subscribe sessions.
pub mod domain;
pub mod registry;
pub mod session;
