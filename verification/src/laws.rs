//! Laws that hold across the actions of the library.
//!
//! Each is stated over the predicates by which the actions describe what they
//! did, so each holds of every run of the actions themselves.

use vstd::prelude::*;
use crate::config::{delete_post, selected, set_post, Config, DeleteReport, SetReport};
use crate::dispatch::{dispatch_post, Command, Invocation, Outcome};
use crate::editor::Platform;
use crate::error::CryError;
use crate::launch::{alias_post, execute_post, run_notice, run_post, Launch};
use crate::resolve::{command_for_file, extension_of, lemma_extension_none, lemma_extension_of_joined};
use crate::template::{arguments_of, is_space, lemma_blank_has_no_tokens, program_of};
use crate::text::Text;

verus! {

/// Once an extension has been bound to a command, every file whose name ends
/// in a dot and that extension resolves to that command, whatever the stem of
/// the name and whatever the extension was bound to before: the latest
/// binding wins. The extension itself must hold no dot, since a file is
/// resolved by what follows its last dot.
pub proof fn law_set_then_resolve(
    before: Config,
    after: Config,
    extension: Text,
    command: Text,
    stem: Text,
    stored: Result<SetReport, CryError>,
)
    requires
        set_post(before, after, extension, command, true, false, stored),
        !extension.contains('.'),
    ensures
        extension_of(stem + seq!['.'] + extension) == Some(extension),
        command_for_file(after.extensions@, stem + seq!['.'] + extension) == Some(command),
{
    lemma_extension_of_joined(stem, extension);
}

/// After such a binding, running such a file is never turned down for its
/// name or for its extension: either the command bound is planned on the
/// file, or the program of that command is reported as not found.
pub proof fn law_set_then_run(
    before: Config,
    after: Config,
    extension: Text,
    command: Text,
    stem: Text,
    stored: Result<SetReport, CryError>,
    ran: Result<Launch, CryError>,
)
    requires
        set_post(before, after, extension, command, true, false, stored),
        !extension.contains('.'),
        run_post(after, stem + seq!['.'] + extension, ran),
    ensures
        match ran {
            Ok(launch) => {
                &&& launch.notice@ == run_notice(extension, command)
                &&& launch.plan.args.deep_view() == arguments_of(command).push(
                    stem + seq!['.'] + extension,
                )
            },
            Err(CryError::LaunchError { program }) => program@ == program_of(command),
            Err(_) => false,
        },
{
    law_set_then_resolve(before, after, extension, command, stem, stored);
}

/// A key that was bound under a valid pair of flags is held with its value by
/// the mapping picked, in the configuration that is then written out.
pub proof fn law_set_then_get(
    before: Config,
    after: Config,
    key: Text,
    value: Text,
    add_extension: bool,
    add_command: bool,
    stored: Result<SetReport, CryError>,
)
    requires
        set_post(before, after, key, value, add_extension, add_command, stored),
        selected(add_extension, add_command) is Some,
    ensures
        after.mapping(selected(add_extension, add_command)->0)@.contains_key(key),
        after.mapping(selected(add_extension, add_command)->0)@[key] == value,
{
}

/// A key that was removed under a valid pair of flags is no longer held by
/// the mapping picked, in the configuration that is then written out; every
/// other key is held as before.
pub proof fn law_delete_then_get(
    before: Config,
    after: Config,
    key: Text,
    delete_extension: bool,
    delete_command: bool,
    deleted: Result<DeleteReport, CryError>,
)
    requires
        delete_post(before, after, key, delete_extension, delete_command, deleted),
        selected(delete_extension, delete_command) is Some,
    ensures
        !after.mapping(selected(delete_extension, delete_command)->0)@.contains_key(key),
        forall|other: Text|
            other != key ==> (#[trigger] after.mapping(
                selected(delete_extension, delete_command)->0,
            )@.contains_key(other) <==> before.mapping(
                selected(delete_extension, delete_command)->0,
            )@.contains_key(other)),
{
}

/// A pair of flags that picks no mapping changes nothing, whether a key was
/// to be bound or to be removed.
pub proof fn law_rejected_flags_change_nothing(
    before: Config,
    after: Config,
    key: Text,
    value: Text,
    extension_flag: bool,
    command_flag: bool,
    stored: Result<SetReport, CryError>,
    deleted: Result<DeleteReport, CryError>,
)
    requires
        extension_flag == command_flag,
        set_post(before, after, key, value, extension_flag, command_flag, stored) || delete_post(
            before,
            after,
            key,
            extension_flag,
            command_flag,
            deleted,
        ),
    ensures
        after == before,
{
}

/// An invocation that binds or removes a key under a pair of flags that picks
/// no mapping changes nothing, reports the flags, and leaves nothing to be
/// written out.
pub proof fn law_rejected_flags_persist_nothing(
    invocation: Invocation,
    before: Config,
    after: Config,
    file_path: Text,
    platform: Platform,
    outcome: Outcome,
)
    requires
        dispatch_post(invocation, before, after, file_path, platform, outcome),
        match invocation.cmd {
            Some(Command::ConfigSet { add_extension, add_command, .. }) => add_extension
                == add_command,
            Some(Command::ConfigDelete { delete_extension, delete_command, .. }) => delete_extension
                == delete_command,
            _ => false,
        },
    ensures
        after == before,
        !outcome.must_persist(),
        match outcome {
            Outcome::Store(Err(CryError::FlagCombinationError { .. })) => true,
            Outcome::Delete(Err(CryError::FlagCombinationError { .. })) => true,
            _ => false,
        },
{
}

/// An invocation that removes a key under a valid pair of flags leaves the
/// configuration to be written out whether or not the key was found: a key
/// that was held is gone and its command is reported, a key that was not held
/// is reported as not found and the configuration is as it was.
pub proof fn law_delete_always_persists(
    invocation: Invocation,
    before: Config,
    after: Config,
    file_path: Text,
    platform: Platform,
    outcome: Outcome,
)
    requires
        dispatch_post(invocation, before, after, file_path, platform, outcome),
        invocation.cmd matches Some(Command::ConfigDelete { delete_extension, delete_command, .. })
            && delete_extension != delete_command,
    ensures
        outcome.must_persist(),
        invocation.cmd matches Some(Command::ConfigDelete { key, delete_extension, delete_command })
            && selected(delete_extension, delete_command) matches Some(table)
            && outcome matches Outcome::Delete(Ok(report)) && !after.mapping(table)@.contains_key(
            key@,
        ) && (report.removed is Some <==> before.mapping(table)@.contains_key(key@)) && (
        report.removed is None ==> after.mapping(table).pairs() == before.mapping(table).pairs()),
{
}

/// An invocation that binds a key under a valid pair of flags leaves the
/// configuration to be written out, with the key bound to the value.
pub proof fn law_set_always_persists(
    invocation: Invocation,
    before: Config,
    after: Config,
    file_path: Text,
    platform: Platform,
    outcome: Outcome,
)
    requires
        dispatch_post(invocation, before, after, file_path, platform, outcome),
        invocation.cmd matches Some(Command::ConfigSet { add_extension, add_command, .. })
            && add_extension != add_command,
    ensures
        outcome.must_persist(),
        invocation.cmd matches Some(Command::ConfigSet { key, value, add_extension, add_command })
            && selected(add_extension, add_command) matches Some(table) && after.mapping(
            table,
        )@.contains_key(key@) && after.mapping(table)@[key@] == value@,
{
}

/// Only binding and removing a key ever leave anything to be written out,
/// and only they can change the configuration.
pub proof fn law_other_actions_change_nothing(
    invocation: Invocation,
    before: Config,
    after: Config,
    file_path: Text,
    platform: Platform,
    outcome: Outcome,
)
    requires
        dispatch_post(invocation, before, after, file_path, platform, outcome),
        !(invocation.cmd matches Some(Command::ConfigSet { .. })),
        !(invocation.cmd matches Some(Command::ConfigDelete { .. })),
    ensures
        after == before,
        !outcome.must_persist(),
{
}

/// A command that is blank throughout is never launched: it names the empty
/// program, which is reported as not found.
pub proof fn law_blank_command_never_launches(command: Text, ran: Result<Launch, CryError>)
    requires
        forall|i: int| 0 <= i < command.len() ==> is_space(#[trigger] command[i]),
        execute_post(command, ran),
    ensures
        ran matches Err(CryError::LaunchError { program }) && program@ == Seq::<char>::empty(),
{
    lemma_blank_has_no_tokens(command);
}

/// A file name without a dot is turned down as of no known type, whatever the
/// configuration holds, and nothing is launched.
pub proof fn law_no_dot_is_invalid(config: Config, name: Text, ran: Result<Launch, CryError>)
    requires
        !name.contains('.'),
        run_post(config, name, ran),
    ensures
        ran matches Err(CryError::InvalidFileType),
{
    lemma_extension_none(name);
}

/// An alias that the commands do not hold is reported as not found and
/// nothing is launched, even where the extensions hold a key of that name.
pub proof fn law_alias_ignores_extensions(
    config: Config,
    alias: Text,
    ran: Result<Launch, CryError>,
)
    requires
        !config.commands@.contains_key(alias),
        alias_post(config, alias, ran),
    ensures
        ran matches Err(CryError::CommandNotFound { alias: missing }) && missing@ == alias,
{
}

} // verus!
