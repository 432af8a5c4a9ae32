//! Package-scaffolding library: a table of named variants is loaded from a
//! TOML document, and for each variant a fixed set of package-definition
//! templates (build recipe, description, packing list) is rendered into a
//! per-variant output directory. Further subcommands run an external build or
//! lint tool once per variant. The decisions of every subcommand — command
//! dispatch, configuration validation, render planning, and the sequential
//! process-runner state — live here with their contracts; the thin shell that
//! touches the filesystem and spawns processes sits outside.

pub mod command;
pub mod config;
pub mod errors;
pub mod render;
pub mod runner;
pub mod template;
