//! Lifecycle control of a shared screen-capture device: the lazily built
//! capture cache, the shared device handle, the bounding box forwarded to
//! the input-resolution service, the failure classifier and the
//! rate-limited failure log.
pub mod cache;
pub mod classify;
pub mod log_gate;
pub mod topology;
