//! Opening the configuration file in the text editor of the platform.

use vstd::prelude::*;
use vstd::string::StringExecFns;
use crate::text::Text;

verus! {

/// The kinds of platform that differ in their editor.
#[derive(Clone, Copy, Debug, PartialEq, Eq, Structural)]
pub enum Platform {
    Windows,
    MacOs,
    /// Linux, and whatever else is neither of the other two.
    Linux,
}

/// The editor of each platform: a fixed choice.
pub open spec fn editor_of(platform: Platform) -> Text {
    match platform {
        Platform::Windows => "notepad"@,
        Platform::MacOs => "open"@,
        Platform::Linux => "gedit"@,
    }
}

/// An editor that is ready to be spawned on a file. The caller spawns it by
/// its name, with the file as its one argument, and waits until it exits.
#[derive(Clone, Debug, PartialEq, Eq)]
pub struct EditPlan {
    pub editor: String,
    pub file_path: String,
}

/// The name of the editor of `platform`.
pub fn default_editor(platform: Platform) -> (editor: &'static str)
    ensures
        editor@ == editor_of(platform),
{
    match platform {
        Platform::Windows => "notepad",
        Platform::MacOs => "open",
        Platform::Linux => "gedit",
    }
}

/// Plans the opening of the file at `file_path` in the editor of `platform`.
pub fn open_config(file_path: &str, platform: Platform) -> (plan: EditPlan)
    ensures
        plan.editor@ == editor_of(platform),
        plan.file_path@ == file_path@,
{
    EditPlan { editor: String::from_str(default_editor(platform)), file_path: file_path.to_owned() }
}

} // verus!
