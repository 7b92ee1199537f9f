//! Provisioning and self-repair logic for an isolated Windows-compatibility
//! runtime environment (a wine prefix with a graphics-translation layer and
//! supporting redistributables) in which a game launcher runs.
//!
//! Every operation that touches the outside world (filesystem, processes,
//! network, event emission) is described here as plain data: command plans,
//! link plans, polling schedules and validation findings computed from
//! observed facts. A thin unverified shell performs the described effects
//! and feeds observations back in.
#![verifier::loop_isolation(false)]

pub mod archive;
pub mod command;
pub mod config;
pub mod environment;
pub mod error;
pub mod finalize;
pub mod launcher;
pub mod pipeline;
pub mod poll;
pub mod repair;
pub mod resource;
pub mod setup_options;
pub mod setting;
pub mod store;
pub mod strutil;
pub mod symlink;
pub mod validate;
pub mod wine;
pub mod wizard;
