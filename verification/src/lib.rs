//! Change detection and capture orchestration for a screenshot watcher.
//!
//! The crate decides which captured frames are worth forwarding: it computes
//! a 64-bit difference hash per frame, compares it with the last forwarded
//! frame of the same source, and drives the per-source polling loop (normal
//! interval, error backoff, abandonment after repeated failures). Pixel
//! acquisition, timers and channels belong to the caller, which hands their
//! results in as plain values.
pub mod capture;
pub mod cli;
pub mod config;
pub mod event;
pub mod text;
