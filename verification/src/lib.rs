//! Remote-host management core: session configuration resolution, the
//! single-round-trip metrics protocol and its parser, and a pooled
//! relational store for device, tunnel, metric and command-log records.

pub mod db;
pub mod logging;
pub mod metrics;
pub mod ssh;
pub mod text;
