use script_runner::embedded::{
    c_source, execute_literal, is_runnable, run_python_code, try_run_python_code,
};
use script_runner::outcome::ExecutionResult;
use script_runner::search_path::OrderPolicy;

fn paths(entries: &[&str]) -> Vec<String> {
    entries.iter().map(|entry| entry.to_string()).collect()
}

#[test]
fn c_source_closes_the_text_with_a_zero_byte() {
    assert_eq!(c_source("ab"), vec![b'a', b'b', 0]);
    assert_eq!(c_source(""), vec![0]);
    assert_eq!(c_source("\u{e9}"), vec![0xc3, 0xa9, 0]);
}

#[test]
fn text_with_a_zero_character_is_not_runnable() {
    assert!(is_runnable("print(1)"));
    assert!(is_runnable(""));
    assert!(is_runnable("s = '\u{e9}\u{1f600}'"));
    assert!(!is_runnable("print(1)\0"));
    assert!(!is_runnable("\0"));
    assert!(!is_runnable("a\0b"));
}

#[test]
fn literal_print_succeeds_without_stderr() {
    let result = execute_literal("print(\"ok\")", &paths(&[]), OrderPolicy::Stack);
    assert_eq!(result, Some(ExecutionResult { success: true, stderr: None }));
}

#[test]
fn run_python_code_reports_success() {
    assert_eq!(run_python_code("x = 1 + 1"), ExecutionResult { success: true, stderr: None });
}

#[test]
fn empty_script_succeeds() {
    assert_eq!(run_python_code(""), ExecutionResult { success: true, stderr: None });
}

#[test]
fn script_that_exits_non_zero_fails_with_text() {
    let result = run_python_code("import sys\nsys.exit(3)");
    assert!(!result.success);
    let text = result.stderr.expect("a failure carries text");
    assert!(text.contains("SystemExit"));
}

#[test]
fn script_that_raises_fails_with_the_error_text() {
    let result = run_python_code("raise ValueError('out of range')");
    assert!(!result.success);
    let text = result.stderr.expect("a failure carries text");
    assert!(text.contains("ValueError"));
    assert!(text.contains("out of range"));
}

#[test]
fn script_that_does_not_parse_fails() {
    let result = run_python_code("def (:");
    assert!(!result.success);
    assert!(result.stderr.expect("a failure carries text").contains("SyntaxError"));
}

#[test]
fn failure_does_not_end_the_interpreter() {
    assert!(!run_python_code("raise KeyError('k')").success);
    assert!(run_python_code("y = 2").success);
}

#[test]
fn statements_share_the_main_namespace() {
    assert!(run_python_code("shared_value = 41").success);
    assert!(run_python_code("assert shared_value + 1 == 42").success);
}

#[test]
fn try_run_refuses_a_zero_character() {
    assert_eq!(try_run_python_code("print(1)\0print(2)"), None);
    assert_eq!(
        try_run_python_code("z = 0"),
        Some(ExecutionResult { success: true, stderr: None })
    );
}

#[test]
fn execute_literal_refuses_a_zero_character_and_runs_nothing() {
    let refused = execute_literal("marker = 1\0", &paths(&["/refused"]), OrderPolicy::Stack);
    assert_eq!(refused, None);
    let check = run_python_code("import sys\nassert '/refused' not in sys.path");
    assert_eq!(check, ExecutionResult { success: true, stderr: None });
}

#[test]
fn stack_puts_the_entry_listed_last_first() {
    let script = "import sys\nassert sys.path[0] == 'B', sys.path\nassert sys.path[1] == 'A', sys.path";
    let result = execute_literal(script, &paths(&["A", "B"]), OrderPolicy::Stack);
    assert_eq!(result, Some(ExecutionResult { success: true, stderr: None }));
}

#[test]
fn preserve_keeps_the_listed_order() {
    let script = "import sys\nassert sys.path[0] == 'A', sys.path\nassert sys.path[1] == 'B', sys.path";
    let result = execute_literal(script, &paths(&["A", "B"]), OrderPolicy::Preserve);
    assert_eq!(result, Some(ExecutionResult { success: true, stderr: None }));
}

#[test]
fn listed_entries_stand_ahead_of_the_defaults() {
    assert!(run_python_code("import sys\ndefaults_before = list(sys.path)").success);
    let script = "import sys\nassert sys.path[:3] == ['c', 'b', 'a'], sys.path\nassert sys.path[3:] == defaults_before, sys.path";
    let result = execute_literal(script, &paths(&["a", "b", "c"]), OrderPolicy::Stack);
    assert_eq!(result, Some(ExecutionResult { success: true, stderr: None }));
}

#[test]
fn no_entries_leave_the_search_list_alone() {
    assert!(run_python_code("import sys\ndefaults_before = list(sys.path)").success);
    let script = "import sys\nassert sys.path == defaults_before, sys.path";
    let result = execute_literal(script, &paths(&[]), OrderPolicy::Preserve);
    assert_eq!(result, Some(ExecutionResult { success: true, stderr: None }));
}

#[test]
fn entries_reach_the_interpreter_character_for_character() {
    let entry = "it's a \\ \"dir\"\n\t\u{e9}\u{20ac}\u{1f600}\u{7f} end";
    let script = "import sys\nexpected = \"it's a \\\\ \\\"dir\\\"\\n\\t\\u00e9\\u20ac\\U0001f600\\x7f end\"\nassert sys.path[0] == expected, ascii(sys.path[0])";
    let result = execute_literal(script, &paths(&[entry]), OrderPolicy::Stack);
    assert_eq!(result, Some(ExecutionResult { success: true, stderr: None }));
}

#[test]
fn failing_payload_after_setup_is_a_failure() {
    let result = execute_literal("raise RuntimeError('late')", &paths(&["A"]), OrderPolicy::Stack)
        .expect("the script holds no zero character");
    assert!(!result.success);
    assert!(result.stderr.expect("a failure carries text").contains("late"));
}
