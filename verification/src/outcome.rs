//! What a run reports to its caller.

use vstd::prelude::*;

verus! {

/// How one execution of a script ended.
#[derive(Debug, PartialEq, Eq)]
pub struct ExecutionResult {
    /// Whether the interpreter signalled success.
    pub success: bool,
    /// What was captured of the failure; absent on success.
    pub stderr: Option<String>,
}

/// The mathematical value of an [`ExecutionResult`].
pub struct ExecutionResultView {
    pub success: bool,
    pub stderr: Option<Seq<char>>,
}

impl View for ExecutionResult {
    type V = ExecutionResultView;

    open spec fn view(&self) -> ExecutionResultView {
        ExecutionResultView { success: self.success, stderr: self.stderr.deep_view() }
    }
}

impl ExecutionResultView {
    /// A result carries captured text exactly when it is a failure.
    pub open spec fn well_formed(self) -> bool {
        self.success <==> self.stderr is None
    }
}

/// Why a run did not end in success.
#[derive(Clone, Copy, Debug, PartialEq, Eq)]
pub enum RunError {
    /// The script file is missing or cannot be read.
    IOError,
    /// The interpreter ran the script and signalled failure.
    ScriptExecutionError,
    /// The external interpreter could not be launched.
    ProcessSpawnError,
}

/// The mathematical value of what a run reports.
pub type ReportView = Result<ExecutionResultView, RunError>;

/// The mathematical value of a report.
pub open spec fn report_view(report: Result<ExecutionResult, RunError>) -> ReportView {
    match report {
        Ok(result) => Ok(result@),
        Err(error) => Err(error),
    }
}

/// The result that an exit status and the text captured from standard error
/// stand for: zero is success, anything else is failure with that text.
pub open spec fn result_of_exit(code: int, captured: Seq<char>) -> ExecutionResultView {
    if code == 0 {
        ExecutionResultView { success: true, stderr: None }
    } else {
        ExecutionResultView { success: false, stderr: Some(captured) }
    }
}

/// The result that an embedded interpreter's answer stands for: no error is
/// success, an error is failure with the error's text.
pub open spec fn result_of_answer(answer: Result<(), Seq<char>>) -> ExecutionResultView {
    match answer {
        Ok(_) => ExecutionResultView { success: true, stderr: None },
        Err(text) => ExecutionResultView { success: false, stderr: Some(text) },
    }
}

/// Why a report is not a success, if it is not.
pub open spec fn failure_of(report: ReportView) -> Option<RunError> {
    match report {
        Ok(result) => if result.success {
            None
        } else {
            Some(RunError::ScriptExecutionError)
        },
        Err(error) => Some(error),
    }
}

impl ExecutionResult {
    /// Reads an exit status. Zero is success, and the captured text is
    /// dropped; anything else is failure, and the captured text is surfaced.
    pub fn from_exit_code(code: i32, captured: String) -> (result: ExecutionResult)
        ensures
            result@ == result_of_exit(code as int, captured@),
            result.success <==> code == 0,
            result@.well_formed(),
    {
        if code == 0 {
            ExecutionResult { success: true, stderr: None }
        } else {
            ExecutionResult { success: false, stderr: Some(captured) }
        }
    }

    /// Reads the answer of an embedded interpreter, in which an error stands
    /// for a non-zero exit status and carries the text to surface.
    pub fn from_answer(answer: Result<(), String>) -> (result: ExecutionResult)
        ensures
            result@ == result_of_answer(
                match answer {
                    Ok(_) => Ok(()),
                    Err(text) => Err(text@),
                },
            ),
            result.success <==> answer is Ok,
            result@.well_formed(),
    {
        match answer {
            Ok(_) => ExecutionResult { success: true, stderr: None },
            Err(text) => ExecutionResult { success: false, stderr: Some(text) },
        }
    }
}

/// Tells why a report is not a success: the error that ended the run, or the
/// script's own failure; `None` for a success.
pub fn failure(report: &Result<ExecutionResult, RunError>) -> (kind: Option<RunError>)
    ensures
        kind == failure_of(report_view(*report)),
{
    match report {
        Ok(result) => {
            if result.success {
                None
            } else {
                Some(RunError::ScriptExecutionError)
            }
        },
        Err(error) => Some(*error),
    }
}

} // verus!
