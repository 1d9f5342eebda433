//! Finding the command template for a file or for an alias.
//!
//! A file is resolved by its extension, the text after its last dot, in the
//! extensions alone; an alias is resolved in the commands alone.

use vstd::prelude::*;
use crate::config::Config;
use crate::error::CryError;
use crate::text::{chars_of, Text};

verus! {

/// True when the last dot of `name` stands at index `i`.
pub open spec fn is_last_dot(name: Text, i: int) -> bool {
    &&& 0 <= i < name.len()
    &&& name[i] == '.'
    &&& forall|j: int| i < j < name.len() ==> #[trigger] name[j] != '.'
}

/// The extension of a file name: the text after its last dot, which may be
/// empty; none when the name holds no dot.
pub open spec fn extension_of(name: Text) -> Option<Text> {
    if exists|i: int| is_last_dot(name, i) {
        Some(name.skip((choose|i: int| is_last_dot(name, i)) + 1))
    } else {
        None
    }
}

/// The command that the extensions hold for the file `name`, if its name has
/// an extension and the extension is mapped.
pub open spec fn command_for_file(extensions: Map<Text, Text>, name: Text) -> Option<Text> {
    match extension_of(name) {
        Some(extension) => if extensions.contains_key(extension) {
            Some(extensions[extension])
        } else {
            None
        },
        None => None,
    }
}

/// The extension starts right after the last dot, wherever that is.
pub proof fn lemma_extension_after(name: Text, i: int)
    requires
        is_last_dot(name, i),
    ensures
        extension_of(name) == Some(name.skip(i + 1)),
{
    let chosen = choose|k: int| is_last_dot(name, k);
    assert(is_last_dot(name, chosen));
    if chosen < i {
        assert(name[i] != '.');
    } else if i < chosen {
        assert(name[chosen] != '.');
    }
}

/// A name without a dot has no extension, and only such a name has none.
pub proof fn lemma_extension_none(name: Text)
    ensures
        extension_of(name) is None <==> !name.contains('.'),
{
    if name.contains('.') {
        let last = lemma_find_last_dot(name, name.len() as int);
        assert(is_last_dot(name, last));
    } else {
        if exists|i: int| is_last_dot(name, i) {
            let i = choose|i: int| is_last_dot(name, i);
            assert(name[i] == '.');
            assert(name.contains('.'));
        }
    }
}

/// Among the first `n` characters of `name`, the dot that stands last.
proof fn lemma_find_last_dot(name: Text, n: int) -> (last: int)
    requires
        0 <= n <= name.len(),
        exists|i: int| 0 <= i < n && name[i] == '.',
        forall|j: int| n <= j < name.len() ==> #[trigger] name[j] != '.',
    ensures
        is_last_dot(name, last),
    decreases n,
{
    if name[n - 1] == '.' {
        n - 1
    } else {
        let i = choose|i: int| 0 <= i < n && name[i] == '.';
        assert(0 <= i < n - 1 && name[i] == '.');
        lemma_find_last_dot(name, n - 1)
    }
}

/// A name made of a stem, a dot and a text without dots has that text for its
/// extension, whatever the stem holds.
pub proof fn lemma_extension_of_joined(stem: Text, extension: Text)
    requires
        !extension.contains('.'),
    ensures
        extension_of(stem + seq!['.'] + extension) == Some(extension),
{
    let name = stem + seq!['.'] + extension;
    let i = stem.len() as int;
    assert(name[i] == '.');
    assert forall|j: int| i < j < name.len() implies #[trigger] name[j] != '.' by {
        assert(name[j] == extension[j - i - 1]);
        if name[j] == '.' {
            assert(extension.contains('.'));
        }
    }
    lemma_extension_after(name, i);
    assert(name.skip(i + 1) =~= extension);
}

/// The extension of `filename`: the text after its last dot.
pub fn file_extension(filename: &str) -> (extension: Option<String>)
    ensures
        match extension {
            Some(e) => extension_of(filename@) == Some(e@),
            None => extension_of(filename@) is None,
        },
{
    let chars = chars_of(filename);
    let n = chars.len();
    let mut i: usize = n;
    while i > 0
        invariant
            chars@ == filename@,
            n == chars@.len(),
            i <= n,
            forall|j: int| i <= j < n ==> #[trigger] filename@[j] != '.',
        decreases i,
    {
        if chars[i - 1] == '.' {
            proof {
                lemma_extension_after(filename@, i - 1);
                assert(filename@.skip(i as int) =~= filename@.subrange(i as int, n as int));
            }
            return Some(filename.substring_char(i, n).to_owned());
        }
        i -= 1;
    }
    proof {
        lemma_extension_none(filename@);
        if filename@.contains('.') {
            let k = choose|k: int| 0 <= k < filename@.len() && filename@[k] == '.';
            assert(filename@[k] != '.');
        }
    }
    None
}

/// Finds the command template for the file `filename` by its extension.
///
/// A name without a dot is turned down as of no known type; an extension that
/// is not mapped is reported with the extension. Aliases play no part.
pub fn resolve_by_extension(config: &Config, filename: &str) -> (found: Result<String, CryError>)
    ensures
        match found {
            Ok(command) => command_for_file(config.extensions@, filename@) == Some(command@),
            Err(CryError::InvalidFileType) => extension_of(filename@) is None,
            Err(CryError::ExtensionNotFound { extension }) => extension_of(filename@) == Some(
                extension@,
            ) && !config.extensions@.contains_key(extension@),
            Err(_) => false,
        },
{
    match file_extension(filename) {
        None => Err(CryError::InvalidFileType),
        Some(extension) => match config.extensions.get(extension.as_str()) {
            Some(command) => Ok(command.clone()),
            None => Err(CryError::ExtensionNotFound { extension }),
        },
    }
}

/// Finds the command template for `alias`, in the commands alone.
pub fn resolve_by_alias(config: &Config, alias: &str) -> (found: Result<String, CryError>)
    ensures
        match found {
            Ok(command) => config.commands@.contains_key(alias@) && command@
                == config.commands@[alias@],
            Err(CryError::CommandNotFound { alias: missing }) => missing@ == alias@
                && !config.commands@.contains_key(alias@),
            Err(_) => false,
        },
{
    match config.commands.get(alias) {
        Some(command) => Ok(command.clone()),
        None => Err(CryError::CommandNotFound { alias: alias.to_owned() }),
    }
}

} // verus!
