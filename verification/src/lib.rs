//! Manage environment across shells.
//!
//! A declarative description of environment state — environment variables,
//! `PATH` entries, aliases and abbreviations — is rendered into literal
//! shell-initialization text for one of several target shells (bash, zsh,
//! fish, PowerShell).
//!
//! The library holds the rendering engine: the typed record for a declared
//! variable, the per-shell syntax generators, the quoting policy, and the
//! shell-applicability filter. Reading the configuration file, decoding its
//! TOML text, and running `eval` commands in a subprocess are left to the
//! surrounding program, which hands this library plain values.

pub mod cli;
pub mod config;
pub mod laws;
pub mod shell;
pub mod util;
pub mod var;
