//! Command-processing and configuration-resolution engine for a
//! godot-rust project manager.
//!
//! Loosely-typed textual input is turned into validated, total
//! configuration values (every parse has a documented fallback and never
//! fails), one command value is built per invocation, and a single
//! dispatch point maps each command to the scaffolding step or external
//! toolchain invocation it implies.

pub mod ftw_build_type;
pub mod ftw_command;
pub mod ftw_error;
pub mod ftw_machine_type;
pub mod ftw_node_type;
pub mod ftw_success;
pub mod ftw_target;
pub mod ftw_template;
pub mod platform;
pub mod processor;
pub mod util;
