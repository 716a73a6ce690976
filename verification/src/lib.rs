//! Builders for `git` subcommands and typed parsers for their output.
pub mod command;
pub mod conflicts;
pub mod error;
pub mod history;
pub mod hooks;
pub mod info;
pub mod parse;
pub mod patches;
pub mod remotes;
pub mod repo;
pub mod search;
pub mod signing;
pub mod stashes;
pub mod tags;
pub mod workflow;
pub mod text;

pub use command::{
    format_patch::FormatPatchCommand, reset::ResetCommand, restore::RestoreCommand,
    rev_parse::RevParseCommand, rm::RmCommand, show::ShowCommand, show_ref::ShowRefCommand,
    stash::StashCommand, status::StatusCommand, submodule::SubmoduleCommand,
    switch::SwitchCommand, symbolic_ref::SymbolicRefCommand, tag::TagCommand,
    update_ref::UpdateRefCommand, worktree::WorktreeCommand, CommandExecutor, CommandOutput,
    GitCommand, IntoText,
};
pub use error::{Error, Result};
pub use repo::Repository;
