//! Network diagnostics core: a generic HTTP request planner and the
//! single-session radio stream state machine with its metadata probe.
pub mod dns;
pub mod headers;
pub mod request;
pub mod radio;
