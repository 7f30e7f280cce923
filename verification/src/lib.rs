//! Supervisor for a local traffic-diversion daemon: service lifecycle,
//! translation of a declarative configuration into the packet engine's
//! command line, kernel packet-interception rules, and an autostart flag.

use vstd::prelude::*;

pub mod autostart;
pub mod command;
pub mod config;
pub mod engine;
pub mod error;
pub mod lists;
pub mod rules;
pub mod service;
pub mod template;
pub mod version;

verus! {

/// Root of the module's private filesystem area (workspace, pid lock,
/// autostart sentinel, module metadata).
pub const MODULE_PATH: &'static str = "/data/adb/modules/zaprett";

/// Root of the user-visible data directory (config, strategies, lists).
pub const ZAPRETT_DIR: &'static str = "/storage/emulated/0/zaprett";

} // verus!
