use cry::config::{Config, DeleteReport, SetReport, Table};
use cry::dispatch::{dispatch, Command, Invocation, Outcome};
use cry::editor::{default_editor, open_config, EditPlan, Platform};
use cry::error::{CryError, Operation};
use cry::launch::LaunchMode;

const PATH: &str = "/opt/cry/config/config.json";

fn stocked() -> Config {
    let mut config = Config::new();
    config.extensions.insert("sh".to_string(), "/bin/sh -x".to_string());
    config.commands.insert("shell".to_string(), "/bin/sh -i".to_string());
    config
}

fn subcommand(cmd: Command) -> Invocation {
    Invocation { cmd: Some(cmd), direct_command: None }
}

#[test]
fn nothing_asked_is_nothing_done() {
    let mut config = stocked();
    let outcome =
        dispatch(Invocation { cmd: None, direct_command: None }, &mut config, PATH, Platform::Linux);
    assert_eq!(outcome, Outcome::Idle);
    assert!(!outcome.persists());
    assert_eq!(config, stocked());
}

#[test]
fn run_is_routed_to_the_extensions() {
    let mut config = stocked();
    let outcome = dispatch(
        subcommand(Command::Run { file_path: "job.sh".to_string() }),
        &mut config,
        PATH,
        Platform::Linux,
    );
    match outcome {
        Outcome::Run(Ok(launch)) => {
            assert_eq!(launch.notice, "Running command for file extension 'sh': /bin/sh -x");
            assert_eq!(launch.plan.args, vec!["-x".to_string(), "job.sh".to_string()]);
            assert_eq!(launch.plan.mode, LaunchMode::Detached);
        }
        other => panic!("{:?}", other),
    }
    assert_eq!(config, stocked());
}

#[test]
fn run_on_readme_reports_an_invalid_file_type() {
    let mut config = stocked();
    let outcome = dispatch(
        subcommand(Command::Run { file_path: "README".to_string() }),
        &mut config,
        PATH,
        Platform::Linux,
    );
    assert_eq!(outcome, Outcome::Run(Err(CryError::InvalidFileType)));
    assert!(!outcome.persists());
}

#[test]
fn list_is_routed_with_its_flags() {
    let mut config = stocked();
    let outcome = dispatch(
        subcommand(Command::List { list_commands: true, list_extensions: false }),
        &mut config,
        PATH,
        Platform::Linux,
    );
    assert_eq!(
        outcome,
        Outcome::List(vec!["Mapped Commands:".to_string(), "  shell: /bin/sh -i".to_string()])
    );
    assert!(!outcome.persists());
}

#[test]
fn edit_opens_the_editor_of_the_platform_on_the_file() {
    let mut config = stocked();
    let outcome = dispatch(subcommand(Command::ConfigEdit), &mut config, PATH, Platform::MacOs);
    assert_eq!(
        outcome,
        Outcome::Edit(EditPlan { editor: "open".to_string(), file_path: PATH.to_string() })
    );
    assert!(!outcome.persists());
}

#[test]
fn each_platform_has_its_editor() {
    assert_eq!(default_editor(Platform::Windows), "notepad");
    assert_eq!(default_editor(Platform::MacOs), "open");
    assert_eq!(default_editor(Platform::Linux), "gedit");
    assert_eq!(
        open_config("c.json", Platform::Windows),
        EditPlan { editor: "notepad".to_string(), file_path: "c.json".to_string() }
    );
}

#[test]
fn set_binds_and_asks_for_the_configuration_to_be_written() {
    let mut config = stocked();
    let outcome = dispatch(
        subcommand(Command::ConfigSet {
            key: "py".to_string(),
            value: "python3".to_string(),
            add_extension: true,
            add_command: false,
        }),
        &mut config,
        PATH,
        Platform::Linux,
    );
    assert_eq!(
        outcome,
        Outcome::Store(Ok(SetReport {
            table: Table::Extensions,
            key: "py".to_string(),
            value: "python3".to_string(),
            existing: None,
        }))
    );
    assert!(outcome.persists());
    assert_eq!(config.extensions.get("py"), Some(&"python3".to_string()));
}

#[test]
fn set_with_a_bad_pair_of_flags_writes_nothing() {
    for (add_extension, add_command) in [(true, true), (false, false)] {
        let mut config = stocked();
        let outcome = dispatch(
            subcommand(Command::ConfigSet {
                key: "py".to_string(),
                value: "python3".to_string(),
                add_extension,
                add_command,
            }),
            &mut config,
            PATH,
            Platform::Linux,
        );
        assert_eq!(
            outcome,
            Outcome::Store(Err(CryError::FlagCombinationError {
                operation: Operation::Add,
                both: add_extension,
            }))
        );
        assert!(!outcome.persists());
        assert_eq!(config, stocked());
    }
}

#[test]
fn delete_of_a_held_key_removes_it_and_persists() {
    let mut config = stocked();
    let outcome = dispatch(
        subcommand(Command::ConfigDelete {
            key: "shell".to_string(),
            delete_extension: false,
            delete_command: true,
        }),
        &mut config,
        PATH,
        Platform::Linux,
    );
    assert_eq!(
        outcome,
        Outcome::Delete(Ok(DeleteReport {
            table: Table::Commands,
            key: "shell".to_string(),
            removed: Some("/bin/sh -i".to_string()),
        }))
    );
    assert!(outcome.persists());
    assert_eq!(config.commands.get("shell"), None);
}

#[test]
fn delete_of_a_missing_key_still_persists() {
    let mut config = stocked();
    let outcome = dispatch(
        subcommand(Command::ConfigDelete {
            key: "absent".to_string(),
            delete_extension: true,
            delete_command: false,
        }),
        &mut config,
        PATH,
        Platform::Linux,
    );
    assert_eq!(
        outcome,
        Outcome::Delete(Ok(DeleteReport {
            table: Table::Extensions,
            key: "absent".to_string(),
            removed: None,
        }))
    );
    assert!(outcome.persists());
    assert_eq!(config, stocked());
}

#[test]
fn delete_with_a_bad_pair_of_flags_writes_nothing() {
    for (delete_extension, delete_command) in [(true, true), (false, false)] {
        let mut config = stocked();
        let outcome = dispatch(
            subcommand(Command::ConfigDelete {
                key: "sh".to_string(),
                delete_extension,
                delete_command,
            }),
            &mut config,
            PATH,
            Platform::Linux,
        );
        assert_eq!(
            outcome,
            Outcome::Delete(Err(CryError::FlagCombinationError {
                operation: Operation::Delete,
                both: delete_extension,
            }))
        );
        assert!(!outcome.persists());
        assert_eq!(config, stocked());
    }
}

#[test]
fn a_bare_word_is_run_as_an_alias() {
    let mut config = stocked();
    let outcome = dispatch(
        Invocation { cmd: None, direct_command: Some("shell".to_string()) },
        &mut config,
        PATH,
        Platform::Linux,
    );
    match outcome {
        Outcome::Alias(Ok(launch)) => {
            assert_eq!(launch.notice, "Executing command: /bin/sh -i");
            assert_eq!(launch.plan.args, vec!["-i".to_string()]);
            assert_eq!(launch.plan.mode, LaunchMode::Interactive);
        }
        other => panic!("{:?}", other),
    }
}

#[test]
fn a_bare_word_that_names_an_extension_only_is_not_found() {
    let mut config = stocked();
    let outcome = dispatch(
        Invocation { cmd: None, direct_command: Some("sh".to_string()) },
        &mut config,
        PATH,
        Platform::Linux,
    );
    assert_eq!(outcome, Outcome::Alias(Err(CryError::CommandNotFound { alias: "sh".to_string() })));
    assert!(!outcome.persists());
}

#[test]
fn a_subcommand_goes_before_a_bare_word() {
    let mut config = stocked();
    let outcome = dispatch(
        Invocation {
            cmd: Some(Command::List { list_commands: false, list_extensions: true }),
            direct_command: Some("shell".to_string()),
        },
        &mut config,
        PATH,
        Platform::Linux,
    );
    assert_eq!(
        outcome,
        Outcome::List(vec!["Mapped Extensions:".to_string(), "  sh: /bin/sh -x".to_string()])
    );
}
