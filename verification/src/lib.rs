//! Core of a kernel crash reproduction toolkit: a remote session manager with
//! bounded retries, jittered exponential backoff and a keyed session pool,
//! together with the pure parts of the surrounding build pipeline.
//!
//! Every function here works on plain values. Network, disk and process work
//! is done by the caller, who feeds the outcomes back in.

pub mod text;
pub mod error;
pub mod config;
pub mod backoff;
pub mod builder;
pub mod command;
pub mod session;
pub mod pool;
pub mod report;
pub mod compiler;
pub mod paths;
pub mod qemu;
pub mod download;
pub mod compile;
pub mod script;
pub mod kconfig;
