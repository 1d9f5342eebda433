//! The configuration: two mappings from a key to a command template, and the
//! two actions that change them.
//!
//! The mappings are namespaces of their own: one key may stand in both.

use vstd::prelude::*;
use vstd::string::StringExecFns;
use crate::error::{CryError, Operation};
use crate::mapping::{put, without, Mapping};
use crate::text::Text;

verus! {

/// One of the two mappings of a configuration.
#[derive(Clone, Copy, Debug, PartialEq, Eq, Structural)]
pub enum Table {
    /// From a file extension, without its dot, to a command template.
    Extensions,
    /// From an alias to a command template.
    Commands,
}

impl Table {
    /// The word by which messages call an entry of this mapping.
    pub open spec fn label_text(self) -> Text {
        match self {
            Table::Extensions => "Extension"@,
            Table::Commands => "Command"@,
        }
    }

    /// The word by which messages call an entry of this mapping.
    pub fn label(self) -> (word: &'static str)
        ensures
            word@ == self.label_text(),
    {
        match self {
            Table::Extensions => "Extension",
            Table::Commands => "Command",
        }
    }
}

/// The configuration held in memory for one invocation.
#[derive(Clone, Debug, PartialEq, Eq)]
pub struct Config {
    pub extensions: Mapping,
    pub commands: Mapping,
}

/// The mapping that a pair of flags picks: a flag given alone picks its
/// mapping, both flags or neither pick none.
pub open spec fn selected(extension_flag: bool, command_flag: bool) -> Option<Table> {
    if extension_flag && !command_flag {
        Some(Table::Extensions)
    } else if command_flag && !extension_flag {
        Some(Table::Commands)
    } else {
        None
    }
}

/// The entry that binding `key` to `value` would shadow or replace: the
/// extension of that name whose command differs from `value`, else the alias
/// of that name whose command differs from `value`.
pub open spec fn clash(
    extensions: Map<Text, Text>,
    commands: Map<Text, Text>,
    key: Text,
    value: Text,
) -> Option<(Table, Text)> {
    if extensions.contains_key(key) && extensions[key] != value {
        Some((Table::Extensions, extensions[key]))
    } else if commands.contains_key(key) && commands[key] != value {
        Some((Table::Commands, commands[key]))
    } else {
        None
    }
}

/// Picks the mapping that a pair of flags names, for the action `operation`.
pub fn select(operation: Operation, extension_flag: bool, command_flag: bool) -> (choice: Result<
    Table,
    CryError,
>)
    ensures
        match choice {
            Ok(table) => selected(extension_flag, command_flag) == Some(table),
            Err(CryError::FlagCombinationError { operation: op, both }) => selected(
                extension_flag,
                command_flag,
            ) is None && op == operation && both == (extension_flag && command_flag),
            Err(_) => false,
        },
{
    if extension_flag && !command_flag {
        Ok(Table::Extensions)
    } else if command_flag && !extension_flag {
        Ok(Table::Commands)
    } else {
        Err(CryError::FlagCombinationError { operation, both: extension_flag && command_flag })
    }
}

/// An entry that was already there under the key of a new binding.
#[derive(Clone, Debug, PartialEq, Eq)]
pub struct Existing {
    pub table: Table,
    pub value: String,
}

/// What binding a key did.
#[derive(Clone, Debug, PartialEq, Eq)]
pub struct SetReport {
    /// The mapping that took the binding.
    pub table: Table,
    pub key: String,
    pub value: String,
    /// The entry of that key, in either mapping, that held another command.
    pub existing: Option<Existing>,
}

/// What removing a key did.
#[derive(Clone, Debug, PartialEq, Eq)]
pub struct DeleteReport {
    /// The mapping that the key was to leave.
    pub table: Table,
    pub key: String,
    /// The command that the key was bound to, if it was bound.
    pub removed: Option<String>,
}

impl SetReport {
    /// The warning owed to the user before the binding is written out.
    pub open spec fn warning_text(&self) -> Option<Text> {
        match self.existing {
            Some(existing) => Some(
                "Warning: "@ + existing.table.label_text() + " '"@ + self.key@
                    + "' already exists with value '"@ + existing.value@ + "'. Overwriting..."@,
            ),
            None => None,
        }
    }

    /// The line that confirms the binding once it has been written out.
    pub open spec fn confirmation_text(&self) -> Text {
        "Mapped in config: "@ + self.key@ + " -> "@ + self.value@
    }

    /// Builds the warning owed to the user, if one is.
    pub fn warning(&self) -> (line: Option<String>)
        ensures
            match line {
                Some(l) => self.warning_text() == Some(l@),
                None => self.warning_text() is None,
            },
    {
        match &self.existing {
            Some(existing) => {
                let mut line = String::from_str("Warning: ");
                line.append(existing.table.label());
                line.append(" '");
                line.append(self.key.as_str());
                line.append("' already exists with value '");
                line.append(existing.value.as_str());
                line.append("'. Overwriting...");
                Some(line)
            },
            None => None,
        }
    }

    /// Builds the line that confirms the binding.
    pub fn confirmation(&self) -> (line: String)
        ensures
            line@ == self.confirmation_text(),
    {
        let mut line = String::from_str("Mapped in config: ");
        line.append(self.key.as_str());
        line.append(" -> ");
        line.append(self.value.as_str());
        line
    }
}

impl DeleteReport {
    /// The line that tells whether the key was found and what it held.
    pub open spec fn message_text(&self) -> Text {
        match self.removed {
            Some(value) => "Deleted "@ + self.table.label_text() + " '"@ + self.key@
                + "' with value '"@ + value@ + "'."@,
            None => self.table.label_text() + " '"@ + self.key@ + "' not found."@,
        }
    }

    /// Builds the line that tells whether the key was found and what it held.
    pub fn message(&self) -> (line: String)
        ensures
            line@ == self.message_text(),
    {
        match &self.removed {
            Some(value) => {
                let mut line = String::from_str("Deleted ");
                line.append(self.table.label());
                line.append(" '");
                line.append(self.key.as_str());
                line.append("' with value '");
                line.append(value.as_str());
                line.append("'.");
                line
            },
            None => {
                let mut line = String::from_str(self.table.label());
                line.append(" '");
                line.append(self.key.as_str());
                line.append("' not found.");
                line
            },
        }
    }
}

impl Config {
    /// A configuration with both mappings empty.
    pub fn new() -> (config: Config)
        ensures
            config.extensions@ == Map::<Text, Text>::empty(),
            config.commands@ == Map::<Text, Text>::empty(),
            config.extensions.pairs() == Seq::<(Text, Text)>::empty(),
            config.commands.pairs() == Seq::<(Text, Text)>::empty(),
    {
        Config { extensions: Mapping::new(), commands: Mapping::new() }
    }

    /// The mapping that `table` names.
    pub open spec fn mapping(&self, table: Table) -> Mapping {
        match table {
            Table::Extensions => self.extensions,
            Table::Commands => self.commands,
        }
    }

    /// The mapping that `table` does not name.
    pub open spec fn other_mapping(&self, table: Table) -> Mapping {
        match table {
            Table::Extensions => self.commands,
            Table::Commands => self.extensions,
        }
    }

    /// Finds the entry that binding `key` to `value` would shadow or replace.
    pub fn existing(&self, key: &str, value: &String) -> (found: Option<Existing>)
        ensures
            match found {
                Some(e) => clash(self.extensions@, self.commands@, key@, value@) == Some(
                    (e.table, e.value@),
                ),
                None => clash(self.extensions@, self.commands@, key@, value@) is None,
            },
    {
        match self.extensions.get(key) {
            Some(held) => {
                if !(*held == *value) {
                    return Some(Existing { table: Table::Extensions, value: held.clone() });
                }
            },
            None => {},
        }
        match self.commands.get(key) {
            Some(held) => {
                if !(*held == *value) {
                    return Some(Existing { table: Table::Commands, value: held.clone() });
                }
            },
            None => {},
        }
        None
    }
}

/// What binding `key` to `value` under a pair of flags comes to, from the
/// configuration `before` to the configuration `after`.
///
/// With both flags or neither, nothing changes and the flags are reported.
/// Otherwise the mapping picked takes the binding, the other mapping stays as
/// it was, and the report names the entry of that key that held another
/// command, whichever mapping it stood in.
pub open spec fn set_post(
    before: Config,
    after: Config,
    key: Text,
    value: Text,
    add_extension: bool,
    add_command: bool,
    outcome: Result<SetReport, CryError>,
) -> bool {
    match selected(add_extension, add_command) {
        None => {
            &&& after == before
            &&& outcome matches Err(CryError::FlagCombinationError { operation, both })
            &&& operation == Operation::Add
            &&& both == (add_extension && add_command)
        },
        Some(table) => {
            &&& after.mapping(table).pairs() == put(before.mapping(table).pairs(), key, value)
            &&& after.mapping(table)@ == before.mapping(table)@.insert(key, value)
            &&& after.other_mapping(table) == before.other_mapping(table)
            &&& outcome matches Ok(report)
            &&& report.table == table
            &&& report.key@ == key
            &&& report.value@ == value
            &&& match report.existing {
                Some(e) => clash(before.extensions@, before.commands@, key, value) == Some(
                    (e.table, e.value@),
                ),
                None => clash(before.extensions@, before.commands@, key, value) is None,
            }
        },
    }
}

/// Binds `key` to `value` in the mapping that the flags pick.
///
/// The flags are judged first: with both or neither the configuration stays
/// as it was and nothing is to be written. Otherwise the binding is made and
/// the configuration is to be written out.
pub fn config_set(
    config: &mut Config,
    key: String,
    value: String,
    add_extension: bool,
    add_command: bool,
) -> (outcome: Result<SetReport, CryError>)
    ensures
        set_post(*old(config), *final(config), key@, value@, add_extension, add_command, outcome),
        selected(add_extension, add_command) is None ==> *final(config) == *old(config)
            && outcome is Err,
        selected(add_extension, add_command) is Some ==> outcome is Ok,
{
    let table = match select(Operation::Add, add_extension, add_command) {
        Ok(table) => table,
        Err(error) => {
            return Err(error);
        },
    };
    let existing = config.existing(key.as_str(), &value);
    match table {
        Table::Extensions => {
            config.extensions.insert(key.clone(), value.clone());
        },
        Table::Commands => {
            config.commands.insert(key.clone(), value.clone());
        },
    }
    Ok(SetReport { table, key, value, existing })
}

/// What removing `key` under a pair of flags comes to, from the configuration
/// `before` to the configuration `after`.
///
/// With both flags or neither, nothing changes and the flags are reported.
/// Otherwise the key leaves the mapping picked if it was there, the other
/// mapping stays as it was, and the report holds the command that the key was
/// bound to, or none where it was not bound.
pub open spec fn delete_post(
    before: Config,
    after: Config,
    key: Text,
    delete_extension: bool,
    delete_command: bool,
    outcome: Result<DeleteReport, CryError>,
) -> bool {
    match selected(delete_extension, delete_command) {
        None => {
            &&& after == before
            &&& outcome matches Err(CryError::FlagCombinationError { operation, both })
            &&& operation == Operation::Delete
            &&& both == (delete_extension && delete_command)
        },
        Some(table) => {
            &&& after.mapping(table).pairs() == without(before.mapping(table).pairs(), key)
            &&& after.mapping(table)@ == before.mapping(table)@.remove(key)
            &&& after.other_mapping(table) == before.other_mapping(table)
            &&& outcome matches Ok(report)
            &&& report.table == table
            &&& report.key@ == key
            &&& match report.removed {
                Some(v) => before.mapping(table)@.contains_key(key) && v@ == before.mapping(
                    table,
                )@[key],
                None => !before.mapping(table)@.contains_key(key),
            }
        },
    }
}

/// Removes `key` from the mapping that the flags pick.
///
/// The flags are judged first: with both or neither the configuration stays
/// as it was and nothing is to be written. Otherwise the key leaves the
/// mapping if it was there, and the configuration is to be written out
/// whether or not the key was found.
pub fn config_delete(
    config: &mut Config,
    key: String,
    delete_extension: bool,
    delete_command: bool,
) -> (outcome: Result<DeleteReport, CryError>)
    ensures
        delete_post(*old(config), *final(config), key@, delete_extension, delete_command, outcome),
        selected(delete_extension, delete_command) is None ==> *final(config) == *old(config)
            && outcome is Err,
        selected(delete_extension, delete_command) is Some ==> outcome is Ok,
{
    let table = match select(Operation::Delete, delete_extension, delete_command) {
        Ok(table) => table,
        Err(error) => {
            return Err(error);
        },
    };
    let removed = match table {
        Table::Extensions => config.extensions.remove(key.as_str()),
        Table::Commands => config.commands.remove(key.as_str()),
    };
    Ok(DeleteReport { table, key, removed })
}

} // verus!
