use cargo_fastdev::errors::{exit_code_string, FastdevError};
use cargo_fastdev::runner::{cmd_check, cmd_run, cmd_test, interpret_exit, launch_failure};

#[test]
fn test_subcommand_invocations() {
    let check = cmd_check(vec!["--all-targets".to_string()]);
    assert_eq!(check.subcommand, "check");
    assert_eq!(check.args, vec!["--all-targets".to_string()]);
    assert_eq!(check.display_name(), "cargo check");

    let test = cmd_test(vec![]);
    assert_eq!(test.subcommand, "test");
    assert!(test.args.is_empty());
    assert_eq!(test.display_name(), "cargo test");

    let run = cmd_run(vec!["--release".to_string()]);
    assert_eq!(run.subcommand, "run");
    assert_eq!(run.args, vec!["--release".to_string()]);
    assert_eq!(run.display_name(), "cargo run");
}

#[test]
fn test_interpret_exit_success() {
    assert!(interpret_exit("cargo check", true, Some(0)).is_ok());
}

#[test]
fn test_interpret_exit_failure_with_code() {
    let err = interpret_exit("cargo check", false, Some(101)).unwrap_err();
    assert!(matches!(&err, FastdevError::CommandFailed { .. }));
    assert_eq!(err.message(), "cargo check failed with exit code: Some(101)");
}

#[test]
fn test_interpret_exit_failure_without_code() {
    // A child terminated by a signal has no exit code.
    let err = interpret_exit("cargo test", false, None).unwrap_err();
    assert_eq!(err.message(), "cargo test failed with exit code: None");
}

#[test]
fn test_launch_failure_message() {
    let err = launch_failure("cargo check");
    assert_eq!(err.message(), "failed to run cargo check");
}

#[test]
fn test_exit_code_rendering() {
    assert_eq!(exit_code_string(Some(0)), "Some(0)");
    assert_eq!(exit_code_string(Some(7)), "Some(7)");
    assert_eq!(exit_code_string(Some(101)), "Some(101)");
    assert_eq!(exit_code_string(Some(-7)), "Some(-7)");
    assert_eq!(exit_code_string(Some(2147483647)), "Some(2147483647)");
    assert_eq!(exit_code_string(Some(-2147483648)), "Some(-2147483648)");
    assert_eq!(exit_code_string(None), "None");
}
