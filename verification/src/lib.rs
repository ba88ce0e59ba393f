//! Abstractions for connecting to cryptocurrency exchanges through one typed
//! request/response interface.
//!
//! The crate covers the service-orchestration and connection-lifecycle layer:
//! the closed error taxonomy every adapter maps into, the classifier that
//! turns raw HTTP replies into typed payloads or taxonomy errors, the bounded
//! dispatch queue that makes one raw connection safe for many callers, the
//! live instrument-metadata cache, and the supervised worker state machine
//! that keeps the cache fresh and converts a dead worker into a clean,
//! detectable service failure.

pub mod cache;
pub mod error;
pub mod instrument;
pub mod make;
pub mod market;
pub mod request;
pub mod response;
pub mod transport;
