//! The decision and measurement engine of an in-process stack probe.
//!
//! The probe itself (symbol lookup, hook installation, register reads) is
//! carried out by the host instrumentation substrate; this library holds
//! what happens around it: the session configuration, the per-hit stack
//! measurement, the shared gauge, the rate limiter and the session's
//! state machine.
pub mod config;
pub mod measure;
pub mod session;
pub mod throttle;
