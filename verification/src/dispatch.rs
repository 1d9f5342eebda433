//! Routing one invocation to the one action it asks for.
//!
//! An invocation names a subcommand, or a bare alias, or nothing. A
//! subcommand goes before an alias. Exactly one action is taken, and what it
//! came to is handed back for the caller to carry out: the lines to print,
//! the child process to spawn, the editor to open, the configuration to write.

use vstd::prelude::*;
use crate::config::{
    config_delete, config_set, delete_post, set_post, Config, DeleteReport, SetReport,
};
use crate::editor::{editor_of, open_config, EditPlan, Platform};
use crate::error::CryError;
use crate::launch::{alias_post, run_alias, run_code, run_post, Launch};
use crate::listing::{list, listing};
use crate::text::Text;

verus! {

/// A subcommand with its arguments.
#[derive(Clone, Debug, PartialEq, Eq)]
pub enum Command {
    /// Run the command mapped to the extension of a file, on that file.
    Run { file_path: String },
    /// List the mappings.
    List { list_commands: bool, list_extensions: bool },
    /// Open the configuration file in an editor.
    ConfigEdit,
    /// Bind a key to a command in one of the mappings.
    ConfigSet { key: String, value: String, add_extension: bool, add_command: bool },
    /// Remove a key from one of the mappings.
    ConfigDelete { key: String, delete_extension: bool, delete_command: bool },
}

/// What the command line asked for.
#[derive(Clone, Debug, PartialEq, Eq)]
pub struct Invocation {
    pub cmd: Option<Command>,
    /// A bare word, taken as an alias where there is no subcommand.
    pub direct_command: Option<String>,
}

/// What an action came to, and with it what is left for the caller to do.
#[derive(Debug, PartialEq, Eq)]
pub enum Outcome {
    /// Nothing was asked for, and nothing is to be done.
    Idle,
    /// A file was to be run: on success the launch is to be announced and
    /// spawned.
    Run(Result<Launch, CryError>),
    /// The lines of the listing, to be printed in order.
    List(Vec<String>),
    /// The editor to open on the configuration file and to wait for.
    Edit(EditPlan),
    /// A key was to be bound: on success the configuration is to be written
    /// out.
    Store(Result<SetReport, CryError>),
    /// A key was to be removed: on success the configuration is to be written
    /// out, whether or not the key was found.
    Delete(Result<DeleteReport, CryError>),
    /// An alias was to be run: on success the launch is to be announced and
    /// spawned.
    Alias(Result<Launch, CryError>),
}

impl Outcome {
    /// True when the configuration has to be written out: after a key was
    /// bound, and after a key was to be removed, found or not.
    pub open spec fn must_persist(&self) -> bool {
        match self {
            Outcome::Store(Ok(_)) => true,
            Outcome::Delete(Ok(_)) => true,
            _ => false,
        }
    }

    /// Tells whether the configuration has to be written out.
    pub fn persists(&self) -> (persist: bool)
        ensures
            persist == self.must_persist(),
    {
        match self {
            Outcome::Store(Ok(_)) => true,
            Outcome::Delete(Ok(_)) => true,
            _ => false,
        }
    }
}

/// What an invocation comes to, from the configuration `before` to the
/// configuration `after`. Only binding and removing a key can change the
/// configuration.
pub open spec fn dispatch_post(
    invocation: Invocation,
    before: Config,
    after: Config,
    file_path: Text,
    platform: Platform,
    outcome: Outcome,
) -> bool {
    match invocation.cmd {
        Some(Command::Run { file_path: target }) => {
            &&& after == before
            &&& outcome matches Outcome::Run(result)
            &&& run_post(before, target@, result)
        },
        Some(Command::List { list_commands, list_extensions }) => {
            &&& after == before
            &&& outcome matches Outcome::List(lines)
            &&& lines.deep_view() == listing(
                before.extensions.pairs(),
                before.commands.pairs(),
                list_extensions,
                list_commands,
            )
        },
        Some(Command::ConfigEdit) => {
            &&& after == before
            &&& outcome matches Outcome::Edit(plan)
            &&& plan.editor@ == editor_of(platform)
            &&& plan.file_path@ == file_path
        },
        Some(Command::ConfigSet { key, value, add_extension, add_command }) => {
            &&& outcome matches Outcome::Store(result)
            &&& set_post(before, after, key@, value@, add_extension, add_command, result)
        },
        Some(Command::ConfigDelete { key, delete_extension, delete_command }) => {
            &&& outcome matches Outcome::Delete(result)
            &&& delete_post(before, after, key@, delete_extension, delete_command, result)
        },
        None => match invocation.direct_command {
            Some(alias) => {
                &&& after == before
                &&& outcome matches Outcome::Alias(result)
                &&& alias_post(before, alias@, result)
            },
            None => after == before && outcome is Idle,
        },
    }
}

/// Takes the one action that `invocation` asks for.
///
/// `file_path` is where the configuration file lies and `platform` is what
/// the editor is chosen by; both matter to the editing action alone.
pub fn dispatch(
    invocation: Invocation,
    config: &mut Config,
    file_path: &str,
    platform: Platform,
) -> (outcome: Outcome)
    ensures
        dispatch_post(invocation, *old(config), *final(config), file_path@, platform, outcome),
{
    match invocation.cmd {
        Some(Command::Run { file_path: target }) => Outcome::Run(run_code(target, config)),
        Some(Command::List { list_commands, list_extensions }) => Outcome::List(
            list(config, list_extensions, list_commands),
        ),
        Some(Command::ConfigEdit) => Outcome::Edit(open_config(file_path, platform)),
        Some(Command::ConfigSet { key, value, add_extension, add_command }) => Outcome::Store(
            config_set(config, key, value, add_extension, add_command),
        ),
        Some(Command::ConfigDelete { key, delete_extension, delete_command }) => Outcome::Delete(
            config_delete(config, key, delete_extension, delete_command),
        ),
        None => match invocation.direct_command {
            Some(alias) => Outcome::Alias(run_alias(alias.as_str(), config)),
            None => Outcome::Idle,
        },
    }
}

} // verus!
