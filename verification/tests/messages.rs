use cry::config::{DeleteReport, Existing, SetReport, Table};
use cry::error::{CryError, Operation};

#[test]
fn invalid_file_type_message() {
    assert_eq!(CryError::InvalidFileType.message(), "Invalid file type");
}

#[test]
fn extension_not_found_message() {
    let error = CryError::ExtensionNotFound { extension: "rs".to_string() };
    assert_eq!(error.message(), "No command found for file extension: rs");
}

#[test]
fn command_not_found_message() {
    let error = CryError::CommandNotFound { alias: "build".to_string() };
    assert_eq!(error.message(), "Command \"build\" not found in config.");
}

#[test]
fn launch_error_message() {
    let error = CryError::LaunchError { program: "pythn".to_string() };
    assert_eq!(error.message(), "Error: Program 'pythn' was not found on the execution path.");
    let empty = CryError::LaunchError { program: String::new() };
    assert_eq!(empty.message(), "Error: Program '' was not found on the execution path.");
}

#[test]
fn flag_combination_messages() {
    let message = |operation, both| CryError::FlagCombinationError { operation, both }.message();
    assert_eq!(
        message(Operation::Add, true),
        "Error: Cannot add both commands and extensions simultaneously. Please choose one."
    );
    assert_eq!(
        message(Operation::Add, false),
        "Error: Please specify whether to add a command or an extension."
    );
    assert_eq!(
        message(Operation::Delete, true),
        "Error: Cannot remove both commands and extensions simultaneously. Please choose one."
    );
    assert_eq!(
        message(Operation::Delete, false),
        "Error: Please specify whether to delete a command or an extension."
    );
}

#[test]
fn labels_of_the_two_mappings() {
    assert_eq!(Table::Extensions.label(), "Extension");
    assert_eq!(Table::Commands.label(), "Command");
}

#[test]
fn set_report_confirms_the_binding() {
    let report = SetReport {
        table: Table::Commands,
        key: "build".to_string(),
        value: "make all".to_string(),
        existing: None,
    };
    assert_eq!(report.warning(), None);
    assert_eq!(report.confirmation(), "Mapped in config: build -> make all");
}

#[test]
fn set_report_warns_of_an_extension_that_was_there() {
    let report = SetReport {
        table: Table::Extensions,
        key: "py".to_string(),
        value: "python3".to_string(),
        existing: Some(Existing { table: Table::Extensions, value: "python2".to_string() }),
    };
    assert_eq!(
        report.warning(),
        Some(
            "Warning: Extension 'py' already exists with value 'python2'. Overwriting..."
                .to_string()
        )
    );
}

#[test]
fn set_report_warns_of_a_command_that_was_there() {
    let report = SetReport {
        table: Table::Extensions,
        key: "go".to_string(),
        value: "go run".to_string(),
        existing: Some(Existing { table: Table::Commands, value: "./go.sh".to_string() }),
    };
    assert_eq!(
        report.warning(),
        Some("Warning: Command 'go' already exists with value './go.sh'. Overwriting...".to_string())
    );
}

#[test]
fn delete_report_tells_what_was_deleted() {
    let extension = DeleteReport {
        table: Table::Extensions,
        key: "py".to_string(),
        removed: Some("python3".to_string()),
    };
    assert_eq!(extension.message(), "Deleted Extension 'py' with value 'python3'.");
    let command = DeleteReport {
        table: Table::Commands,
        key: "build".to_string(),
        removed: Some("make all".to_string()),
    };
    assert_eq!(command.message(), "Deleted Command 'build' with value 'make all'.");
}

#[test]
fn delete_report_tells_what_was_not_found() {
    let extension = DeleteReport { table: Table::Extensions, key: "py".to_string(), removed: None };
    assert_eq!(extension.message(), "Extension 'py' not found.");
    let command = DeleteReport { table: Table::Commands, key: "build".to_string(), removed: None };
    assert_eq!(command.message(), "Command 'build' not found.");
}
