//! Planning the launch of an external program from a command template.
//!
//! The first token of a template names the program, the tokens after it are
//! its fixed arguments. The program is looked up on the execution path; the
//! plan that comes back holds the path that was found. Spawning the child
//! process is left to the caller, who goes by the plan's mode.

use vstd::prelude::*;
use vstd::string::StringExecFns;
use std::path::PathBuf;
use crate::config::Config;
use crate::error::CryError;
use crate::resolve::{
    command_for_file, extension_of, file_extension, resolve_by_alias, resolve_by_extension,
};
use crate::template::{arguments_of, program_of, tokenize, tokens};
use crate::text::Text;

verus! {

/// `std::path::PathBuf`: a path of the file system. Nothing is known of what
/// it holds; it is carried through as it was found.
#[verifier::external_type_specification]
#[verifier::external_body]
pub struct ExPathBuf(PathBuf);

/// `which::Error`: the reason for which a search for an executable came back
/// empty. Nothing is known of what it holds.
#[verifier::external_type_specification]
#[verifier::external_body]
pub struct ExWhichError(which::Error);

/// Looks `name` up as an executable, by `which::which`: an absolute or
/// relative path is checked where it points, a bare name in each directory of
/// the execution path in turn. What comes back depends on the environment and
/// on the file system, so nothing is claimed of it: not that a program is
/// found, and not which path it is found at.
#[verifier::external_body]
fn find_program(name: &str) -> (found: Result<PathBuf, which::Error>) {
    which::which(name)
}

/// How the child process is to be run.
#[derive(Clone, Copy, Debug, PartialEq, Eq, Structural)]
pub enum LaunchMode {
    /// Spawned and left alone: not waited for, its output not looked at.
    Detached,
    /// Spawned on the caller's own standard streams and waited for.
    Interactive,
}

/// A child process that is ready to be spawned.
#[derive(Debug, PartialEq, Eq)]
pub struct LaunchPlan {
    /// The program, as the path it was found at.
    pub program: PathBuf,
    /// The arguments, each handed over as it is.
    pub args: Vec<String>,
    pub mode: LaunchMode,
}

/// A launch together with the line that announces it.
#[derive(Debug, PartialEq, Eq)]
pub struct Launch {
    pub notice: String,
    pub plan: LaunchPlan,
}

/// The arguments of a launch: the fixed arguments of the template, then the
/// trailing argument where there is one.
pub open spec fn launch_arguments(template: Text, trailing: Option<Text>) -> Seq<Text> {
    match trailing {
        Some(last) => arguments_of(template).push(last),
        None => arguments_of(template),
    }
}

/// The line that announces the command run for a file.
pub open spec fn run_notice(extension: Text, command: Text) -> Text {
    "Running command for file extension '"@ + extension + "': "@ + command
}

/// The line that announces the command run for an alias.
pub open spec fn execute_notice(command: Text) -> Text {
    "Executing command: "@ + command
}

/// The program that `tokens` name: the first, or the empty string when there
/// is none.
pub fn program_name(tokens: &Vec<String>) -> (name: String)
    ensures
        name@ == if tokens.len() == 0 {
            Seq::<char>::empty()
        } else {
            tokens[0]@
        },
{
    if tokens.len() == 0 {
        String::new()
    } else {
        tokens[0].clone()
    }
}

/// Makes a plan from the tokens of a template and from what the search for
/// its program brought.
///
/// There is a plan exactly when there is a first token and the search found
/// it: the plan then runs the path found, on the tokens after the first and
/// on `trailing` after them. In every other case the program named is
/// reported as not found.
pub fn plan_launch(
    tokens: Vec<String>,
    found: Result<PathBuf, which::Error>,
    trailing: Option<String>,
    mode: LaunchMode,
) -> (outcome: Result<LaunchPlan, CryError>)
    ensures
        match outcome {
            Ok(plan) => {
                &&& tokens.len() > 0
                &&& found == Ok::<PathBuf, which::Error>(plan.program)
                &&& plan.args.deep_view() == match trailing {
                    Some(last) => tokens.deep_view().skip(1).push(last@),
                    None => tokens.deep_view().skip(1),
                }
                &&& plan.mode == mode
            },
            Err(CryError::LaunchError { program }) => {
                &&& tokens.len() == 0 || found is Err
                &&& program@ == if tokens.len() == 0 {
                    Seq::<char>::empty()
                } else {
                    tokens[0]@
                }
            },
            Err(_) => false,
        },
{
    let program = match found {
        Ok(path) => path,
        Err(_) => {
            return Err(CryError::LaunchError { program: program_name(&tokens) });
        },
    };
    if tokens.len() == 0 {
        return Err(CryError::LaunchError { program: String::new() });
    }
    let mut args: Vec<String> = Vec::new();
    let mut i: usize = 1;
    while i < tokens.len()
        invariant
            1 <= i <= tokens.len(),
            args.len() == i - 1,
            forall|k: int| 0 <= k < args.len() ==> (#[trigger] args[k])@ == tokens[k + 1]@,
        decreases tokens.len() - i,
    {
        args.push(tokens[i].clone());
        i += 1;
    }
    assert(args.deep_view() =~= tokens.deep_view().skip(1));
    match trailing {
        Some(last) => {
            let ghost before = args.deep_view();
            let ghost text = last@;
            args.push(last);
            assert(args.deep_view() =~= before.push(text));
        },
        None => {},
    }
    Ok(LaunchPlan { program, args, mode })
}

/// Plans the launch of `template` in the given mode: cuts it into tokens,
/// looks the first up on the execution path and makes the plan.
fn launch(template: &str, trailing: Option<String>, mode: LaunchMode) -> (outcome: Result<
    LaunchPlan,
    CryError,
>)
    ensures
        tokens(template@).len() == 0 ==> outcome is Err,
        match outcome {
            Ok(plan) => {
                &&& plan.args.deep_view() == launch_arguments(
                    template@,
                    match trailing {
                        Some(last) => Some(last@),
                        None => None,
                    },
                )
                &&& plan.mode == mode
            },
            Err(CryError::LaunchError { program }) => program@ == program_of(template@),
            Err(_) => false,
        },
{
    let words = tokenize(template);
    if words.len() == 0 {
        return Err(CryError::LaunchError { program: String::new() });
    }
    let name = program_name(&words);
    let found = find_program(name.as_str());
    plan_launch(words, found, trailing, mode)
}

/// Plans the launch of `template` on the file `filename`, which goes last
/// among the arguments. The child is to run detached.
///
/// A template without tokens names no program and is always turned down;
/// whether any other program is found is for the execution path to say.
pub fn launch_for_file(template: &str, filename: &str) -> (outcome: Result<LaunchPlan, CryError>)
    ensures
        tokens(template@).len() == 0 ==> outcome is Err,
        match outcome {
            Ok(plan) => {
                &&& plan.args.deep_view() == arguments_of(template@).push(filename@)
                &&& plan.mode == LaunchMode::Detached
            },
            Err(CryError::LaunchError { program }) => program@ == program_of(template@),
            Err(_) => false,
        },
{
    launch(template, Some(filename.to_owned()), LaunchMode::Detached)
}

/// Plans the launch of `template` with its own arguments and no other. The
/// child is to run on the caller's standard streams and to be waited for.
///
/// A template without tokens names no program and is always turned down;
/// whether any other program is found is for the execution path to say.
pub fn launch_interactive(template: &str) -> (outcome: Result<LaunchPlan, CryError>)
    ensures
        tokens(template@).len() == 0 ==> outcome is Err,
        match outcome {
            Ok(plan) => {
                &&& plan.args.deep_view() == arguments_of(template@)
                &&& plan.mode == LaunchMode::Interactive
            },
            Err(CryError::LaunchError { program }) => program@ == program_of(template@),
            Err(_) => false,
        },
{
    launch(template, None, LaunchMode::Interactive)
}

/// What running the file `value` under `config` comes to.
///
/// A name without a dot is turned down as of no known type, an extension that
/// is not mapped is reported with the extension, and in both cases no program
/// is looked for. Otherwise the command of the extension is planned on the
/// file, detached, or its program is reported as not found.
pub open spec fn run_post(config: Config, value: Text, outcome: Result<Launch, CryError>) -> bool {
    match outcome {
        Ok(launch) => {
            &&& extension_of(value) matches Some(extension)
            &&& command_for_file(config.extensions@, value) matches Some(command)
            &&& tokens(command).len() > 0
            &&& launch.notice@ == run_notice(extension, command)
            &&& launch.plan.args.deep_view() == arguments_of(command).push(value)
            &&& launch.plan.mode == LaunchMode::Detached
        },
        Err(CryError::InvalidFileType) => extension_of(value) is None,
        Err(CryError::ExtensionNotFound { extension }) => extension_of(value) == Some(extension@)
            && !config.extensions@.contains_key(extension@),
        Err(CryError::LaunchError { program }) => {
            &&& command_for_file(config.extensions@, value) matches Some(command)
            &&& program@ == program_of(command)
        },
        Err(_) => false,
    }
}

/// Runs the command mapped to the extension of the file `value`: resolves the
/// extension and plans a detached launch of its command on the file.
pub fn run_code(value: String, config: &Config) -> (outcome: Result<Launch, CryError>)
    ensures
        run_post(*config, value@, outcome),
{
    let command = match resolve_by_extension(config, value.as_str()) {
        Ok(command) => command,
        Err(error) => {
            return Err(error);
        },
    };
    let plan = match launch_for_file(command.as_str(), value.as_str()) {
        Ok(plan) => plan,
        Err(error) => {
            return Err(error);
        },
    };
    let mut notice = String::from_str("Running command for file extension '");
    match file_extension(value.as_str()) {
        Some(extension) => {
            notice.append(extension.as_str());
        },
        None => {},
    }
    notice.append("': ");
    notice.append(command.as_str());
    Ok(Launch { notice, plan })
}

/// What executing `command` as it stands comes to: an interactive launch on
/// its own arguments, announced, or its program reported as not found.
pub open spec fn execute_post(command: Text, outcome: Result<Launch, CryError>) -> bool {
    match outcome {
        Ok(launch) => {
            &&& tokens(command).len() > 0
            &&& launch.notice@ == execute_notice(command)
            &&& launch.plan.args.deep_view() == arguments_of(command)
            &&& launch.plan.mode == LaunchMode::Interactive
        },
        Err(CryError::LaunchError { program }) => program@ == program_of(command),
        Err(_) => false,
    }
}

/// Runs a command as it stands: plans an interactive launch of `command` and
/// announces it.
pub fn execute_command(command: &str) -> (outcome: Result<Launch, CryError>)
    ensures
        execute_post(command@, outcome),
{
    let plan = match launch_interactive(command) {
        Ok(plan) => plan,
        Err(error) => {
            return Err(error);
        },
    };
    let mut notice = String::from_str("Executing command: ");
    notice.append(command);
    Ok(Launch { notice, plan })
}

/// What running `alias` under `config` comes to.
///
/// An alias that the commands do not hold is reported as not found, whatever
/// the extensions hold, and no program is looked for. Otherwise its command
/// is executed as it stands.
pub open spec fn alias_post(config: Config, alias: Text, outcome: Result<Launch, CryError>) -> bool {
    if config.commands@.contains_key(alias) {
        execute_post(config.commands@[alias], outcome)
    } else {
        outcome matches Err(CryError::CommandNotFound { alias: missing }) && missing@ == alias
    }
}

/// Runs the command that `alias` stands for, looked up in the commands alone.
pub fn run_alias(alias: &str, config: &Config) -> (outcome: Result<Launch, CryError>)
    ensures
        alias_post(*config, alias@, outcome),
        !config.commands@.contains_key(alias@) ==> outcome is Err,
{
    match resolve_by_alias(config, alias) {
        Ok(command) => execute_command(command.as_str()),
        Err(error) => Err(error),
    }
}

} // verus!
