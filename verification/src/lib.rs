//! Disposable VM sandboxes for UTM: the verified core of the `utmd` tool.
//!
//! `text` holds the character-level string handling the rest builds on;
//! `cli`, `config`, `state`, `models`, `naming`, `utm`, `output` and
//! `errors` model the tool's data and rules; `commands` holds the decisions
//! of each subcommand.
pub mod cli;
pub mod commands;
pub mod config;
pub mod errors;
pub mod models;
pub mod naming;
pub mod output;
pub mod state;
pub mod text;
pub mod utm;
