use rcc::executor::ExecError;
use rcc::executor::Execution;
use rcc::executor::ScriptedExecutor;
use rcc::executor::Executor;
use rcc::executor::validate_run_args;

fn strings(words: &[&str]) -> Vec<String> {
    words.iter().map(|w| w.to_string()).collect()
}

#[test]
fn empty_command() {
    let ex = validate_run_args(&vec![]);
    assert_eq!(ex.unwrap_err().message(), "No command given");
}

#[test]
fn nonempty_command_is_accepted() {
    let ex = validate_run_args(&strings(&["ls", "Cargo.toml"]));
    assert!(ex.is_ok());
}

#[test]
fn spawn_failure_message_names_the_command() {
    let err = ExecError::SpawnFailure {
        command: "frobnicate".to_string(),
        reason: "No such file or directory (os error 2)".to_string(),
    };
    assert_eq!(
        err.message(),
        "Could not run command 'frobnicate': No such file or directory (os error 2)"
    );
}

#[test]
fn execution_accessors_return_code_and_captured_output() {
    let es = Execution {
        exit_code: Some(0),
        stdout: Some("Cargo.toml\n".to_string()),
        stderr: Some("".to_string()),
    };
    assert_eq!(es.code().unwrap(), 0);
    assert_eq!(es.stdout(), "Cargo.toml\n");
    assert_eq!(es.stderr(), "");
}

#[test]
fn execution_accessors_default_to_empty_output() {
    let es = Execution { exit_code: None, stdout: None, stderr: None };
    assert_eq!(es.code(), None);
    assert_eq!(es.stdout(), "");
    assert_eq!(es.stderr(), "");
}

#[test]
fn scripted_executor_hands_out_outcomes_in_order_and_records_calls() {
    let mut executor = ScriptedExecutor::new(vec![
        Ok(Execution { exit_code: Some(0), stdout: None, stderr: None }),
        Ok(Execution { exit_code: Some(1), stdout: None, stderr: None }),
    ]);
    let first = executor.run(strings(&["true"])).unwrap();
    assert_eq!(first.exit_code, Some(0));
    let second = executor.run(strings(&["false"])).unwrap();
    assert_eq!(second.exit_code, Some(1));
    let third = executor.run(strings(&["true"]));
    assert!(third.is_err());
    assert_eq!(
        executor.calls(),
        &vec![strings(&["true"]), strings(&["false"]), strings(&["true"])]
    );
}
