//! Command-line dispatch runtime for the `gsoc2-cli` tool.
//!
//! The crate registers the subcommands, describes the argument parser,
//! resolves the configuration from the parsed command line, routes control
//! to the one matched subcommand and turns every outcome into an exit code.
//! Work that touches the process environment is described as actions that
//! the embedding program performs; every decision is made and proved here.

pub mod commands;
pub mod config;
pub mod engine;
pub mod invocation;
pub mod laws;
pub mod level;
pub mod parser;
pub mod registry;
