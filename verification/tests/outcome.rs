use script_runner::outcome::{failure, ExecutionResult, RunError};

#[test]
fn exit_status_zero_is_success_without_text() {
    let result = ExecutionResult::from_exit_code(0, String::from("warning: ignored"));
    assert_eq!(result, ExecutionResult { success: true, stderr: None });
}

#[test]
fn exit_status_one_is_failure_with_the_captured_text() {
    let result = ExecutionResult::from_exit_code(1, String::from("Traceback: boom"));
    assert_eq!(
        result,
        ExecutionResult { success: false, stderr: Some(String::from("Traceback: boom")) }
    );
}

#[test]
fn every_other_exit_status_is_failure() {
    for code in [-1, 2, 3, 127, 255, i32::MAX, i32::MIN] {
        let result = ExecutionResult::from_exit_code(code, String::from("e"));
        assert!(!result.success);
        assert_eq!(result.stderr, Some(String::from("e")));
    }
}

#[test]
fn failure_with_nothing_captured_has_empty_text() {
    let result = ExecutionResult::from_exit_code(3, String::new());
    assert_eq!(result, ExecutionResult { success: false, stderr: Some(String::new()) });
}

#[test]
fn answer_without_error_is_success() {
    assert_eq!(
        ExecutionResult::from_answer(Ok(())),
        ExecutionResult { success: true, stderr: None }
    );
}

#[test]
fn answer_with_error_is_failure_with_its_text() {
    assert_eq!(
        ExecutionResult::from_answer(Err(String::from("ValueError: no"))),
        ExecutionResult { success: false, stderr: Some(String::from("ValueError: no")) }
    );
}

#[test]
fn success_has_no_failure() {
    assert_eq!(failure(&Ok(ExecutionResult { success: true, stderr: None })), None);
}

#[test]
fn failed_script_is_a_script_execution_error() {
    let report = Ok(ExecutionResult::from_exit_code(2, String::from("x")));
    assert_eq!(failure(&report), Some(RunError::ScriptExecutionError));
}

#[test]
fn errors_of_the_run_are_passed_on() {
    assert_eq!(failure(&Err(RunError::IOError)), Some(RunError::IOError));
    assert_eq!(failure(&Err(RunError::ProcessSpawnError)), Some(RunError::ProcessSpawnError));
    assert_eq!(
        failure(&Err(RunError::ScriptExecutionError)),
        Some(RunError::ScriptExecutionError)
    );
}
