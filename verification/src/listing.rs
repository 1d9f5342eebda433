//! Listing the mappings of a configuration as lines of text.
//!
//! A block is a title line followed by one line for each entry, in the order
//! of the mapping. With one flag alone the block of that mapping is listed;
//! with both flags or neither, both blocks are, the extensions first, with two
//! empty lines between them.

use vstd::prelude::*;
use vstd::string::StringExecFns;
use crate::config::Config;
use crate::mapping::Mapping;
use crate::text::Text;

verus! {

/// The line for one entry: two spaces, the key, a colon and a space, the value.
pub open spec fn entry_line(entry: (Text, Text)) -> Text {
    "  "@ + entry.0 + ": "@ + entry.1
}

/// A block: the title, then the line of each entry in order.
pub open spec fn block(title: Text, pairs: Seq<(Text, Text)>) -> Seq<Text> {
    seq![title] + pairs.map_values(|entry: (Text, Text)| entry_line(entry))
}

/// The block of the extensions.
pub open spec fn extensions_block(extensions: Seq<(Text, Text)>) -> Seq<Text> {
    block("Mapped Extensions:"@, extensions)
}

/// The block of the commands.
pub open spec fn commands_block(commands: Seq<(Text, Text)>) -> Seq<Text> {
    block("Mapped Commands:"@, commands)
}

/// What stands between the two blocks when both are listed.
pub open spec fn separator() -> Seq<Text> {
    seq![Seq::<char>::empty(), Seq::<char>::empty()]
}

/// The lines of a listing, by the two flags.
pub open spec fn listing(
    extensions: Seq<(Text, Text)>,
    commands: Seq<(Text, Text)>,
    list_extensions: bool,
    list_commands: bool,
) -> Seq<Text> {
    if list_extensions && !list_commands {
        extensions_block(extensions)
    } else if list_commands && !list_extensions {
        commands_block(commands)
    } else {
        extensions_block(extensions) + separator() + commands_block(commands)
    }
}

/// Builds the block of `mapping` under `title`.
fn block_lines(title: &str, mapping: &Mapping) -> (lines: Vec<String>)
    ensures
        lines.deep_view() == block(title@, mapping.pairs()),
{
    let entries = mapping.entries();
    let mut lines: Vec<String> = Vec::new();
    lines.push(String::from_str(title));
    let mut i: usize = 0;
    while i < entries.len()
        invariant
            i <= entries.len(),
            entries.deep_view() == mapping.pairs(),
            lines.len() == i + 1,
            lines[0]@ == title@,
            forall|k: int| 0 <= k < i ==> (#[trigger] lines[k + 1])@ == entry_line(mapping.pairs()[k]),
        decreases entries.len() - i,
    {
        assert(entries.deep_view()[i as int] == (entries[i as int].0@, entries[i as int].1@));
        let mut line = String::from_str("  ");
        line.append(entries[i].0.as_str());
        line.append(": ");
        line.append(entries[i].1.as_str());
        lines.push(line);
        i += 1;
    }
    proof {
        let wanted = block(title@, mapping.pairs());
        let rows = mapping.pairs().map_values(|entry: (Text, Text)| entry_line(entry));
        assert(wanted.len() == lines.len());
        assert forall|k: int| 0 <= k < wanted.len() implies lines.deep_view()[k] == wanted[k] by {
            if k > 0 {
                assert(wanted[k] == rows[k - 1]);
                assert(lines[k - 1 + 1]@ == entry_line(mapping.pairs()[k - 1]));
            }
        }
        assert(lines.deep_view() =~= wanted);
    }
    lines
}

/// The block of the extensions of `config`.
pub fn return_extensions(config: &Config) -> (lines: Vec<String>)
    ensures
        lines.deep_view() == extensions_block(config.extensions.pairs()),
{
    block_lines("Mapped Extensions:", &config.extensions)
}

/// The block of the commands of `config`.
pub fn return_commands(config: &Config) -> (lines: Vec<String>)
    ensures
        lines.deep_view() == commands_block(config.commands.pairs()),
{
    block_lines("Mapped Commands:", &config.commands)
}

/// The lines that list `config`: one block where one flag alone is given,
/// both blocks otherwise.
pub fn list(config: &Config, list_extensions: bool, list_commands: bool) -> (lines: Vec<String>)
    ensures
        lines.deep_view() == listing(
            config.extensions.pairs(),
            config.commands.pairs(),
            list_extensions,
            list_commands,
        ),
{
    if list_extensions && !list_commands {
        return_extensions(config)
    } else if list_commands && !list_extensions {
        return_commands(config)
    } else {
        let mut lines = return_extensions(config);
        let ghost first = lines.deep_view();
        lines.push(String::new());
        lines.push(String::new());
        assert(lines.deep_view() =~= first + separator());
        let mut rest = return_commands(config);
        let ghost second = rest.deep_view();
        let ghost head = lines.deep_view();
        lines.append(&mut rest);
        assert(lines.deep_view() =~= head + second);
        lines
    }
}

} // verus!
