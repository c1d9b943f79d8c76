//! Running statements in the interpreter that is embedded in this process.
//!
//! The interpreter takes its source as a C string, so a text can be handed to
//! it only if its UTF-8 encoding holds no zero byte. What the interpreter makes
//! of the statements is its own affair: the functions here fix what it is
//! given and how its answer is read.

use vstd::prelude::*;
use vstd::string::StrSliceExecFns;
use vstd::string::StringSliceAdditionalSpecFns;
use vstd::utf8::is_ascii_chars_encode_utf8;
use crate::outcome::ExecutionResult;
use crate::quoting::ascii_nonzero;
use crate::search_path::{lemma_setup_text_ascii, setup_script, OrderPolicy};

verus! {

/// `pyo3::PyErr`, the error of the interpreter's calls. Nothing inside it is
/// looked at here: it is carried from the call to [`error_text`].
#[verifier::external_type_specification]
#[verifier::external_body]
pub struct ExPyErr(pyo3::PyErr);

/// Whether a text can be handed to the interpreter: its UTF-8 encoding holds
/// no zero byte.
pub open spec fn runnable(code: &str) -> bool {
    forall|i: int| 0 <= i < code.spec_bytes().len() ==> code.spec_bytes()[i] != 0u8
}

/// The bytes of a C string: one zero byte, at the end.
pub open spec fn c_string(bytes: Seq<u8>) -> bool {
    &&& bytes.len() > 0
    &&& bytes.last() == 0u8
    &&& forall|i: int| 0 <= i < bytes.len() - 1 ==> bytes[i] != 0u8
}

/// Calls `pyo3::Python::run` on `code`, with the `__main__` module's
/// namespace as globals and locals. `run` needs the token that only
/// `pyo3::Python::with_gil` hands out, and only to a closure: the closure
/// makes that one call. `with_gil` starts the interpreter on first use; it
/// panics only in a thread that pyo3 has barred from the interpreter while a
/// `__traverse__` of one of its classes runs, and this library has no such
/// class. `code` goes through `core::ffi::CStr::from_bytes_with_nul`, which
/// accepts exactly the byte strings that `requires` admits. Nothing is
/// claimed of the answer: what it is depends on the interpreter and on all
/// that ran in it before. It is `Err` when the statements raise, a request to
/// exit included.
#[verifier::external_body]
fn run_statements(code: &Vec<u8>) -> (answer: Result<(), pyo3::PyErr>)
    requires
        c_string(code@),
{
    let source = core::ffi::CStr::from_bytes_with_nul(code).unwrap();
    pyo3::Python::with_gil(|py| py.run(source, None, None))
}

/// Renders a `pyo3::PyErr` through its `Debug` impl, which names the error's
/// type, its value and its traceback. Nothing is claimed of the text.
#[verifier::external_body]
fn error_text(error: &pyo3::PyErr) -> (text: String) {
    format!("{:?}", error)
}

/// A text of plain ASCII without a zero character can be handed to the
/// interpreter.
pub proof fn lemma_ascii_is_runnable(code: &str)
    requires
        ascii_nonzero(code@),
    ensures
        runnable(code),
{
    is_ascii_chars_encode_utf8(code@);
}

/// Tells whether `code` can be handed to the interpreter.
pub fn is_runnable(code: &str) -> (ok: bool)
    ensures
        ok == runnable(code),
{
    let bytes = code.as_bytes();
    let mut at: usize = 0;
    while at < bytes.len()
        invariant
            bytes@ == code.spec_bytes(),
            at <= bytes.len(),
            forall|i: int| 0 <= i < at ==> bytes@[i] != 0u8,
        decreases bytes.len() - at,
    {
        if bytes[at] == 0u8 {
            return false;
        }
        at = at + 1;
    }
    true
}

/// The source as the interpreter takes it: the text's UTF-8 encoding and a
/// closing zero byte.
pub fn c_source(code: &str) -> (source: Vec<u8>)
    ensures
        source@ == code.spec_bytes().push(0u8),
        runnable(code) ==> c_string(source@),
{
    let mut source = code.as_bytes_vec();
    source.push(0u8);
    source
}

/// Runs `code` as a block of statements in the embedded interpreter and reads
/// its answer: success when the statements ran to their end, failure with the
/// error's text when they raised.
pub fn run_python_code(code: &str) -> (result: ExecutionResult)
    requires
        runnable(code),
    ensures
        result@.well_formed(),
{
    let source = c_source(code);
    let answer = match run_statements(&source) {
        Ok(_) => Ok(()),
        Err(error) => Err(error_text(&error)),
    };
    ExecutionResult::from_answer(answer)
}

/// Runs `code` in the embedded interpreter if it can be handed to it.
/// Returns `None`, and runs nothing, if it cannot.
pub fn try_run_python_code(code: &str) -> (result: Option<ExecutionResult>)
    ensures
        result is Some <==> runnable(code),
        result matches Some(r) ==> r@.well_formed(),
{
    if is_runnable(code) {
        Some(run_python_code(code))
    } else {
        None
    }
}

/// Runs a literal script in the embedded interpreter after putting the listed
/// search-path entries ahead of the interpreter's own, under `policy`.
///
/// Returns `None`, and runs nothing, when the script cannot be handed to the
/// interpreter. With no entries listed no setup is run. The setup's own
/// result is not looked at: the script's result is the run's.
pub fn execute_literal(script: &str, search_paths: &Vec<String>, policy: OrderPolicy) -> (result:
    Option<ExecutionResult>)
    ensures
        result is Some <==> runnable(script),
        result matches Some(r) ==> r@.well_formed(),
{
    if !is_runnable(script) {
        return None;
    }
    if search_paths.len() > 0 {
        let setup = setup_script(search_paths, policy);
        let statements = setup.as_str();
        proof {
            lemma_setup_text_ascii(search_paths.deep_view(), policy);
            lemma_ascii_is_runnable(statements);
        }
        let _ = run_python_code(statements);
    }
    Some(run_python_code(script))
}

} // verus!
