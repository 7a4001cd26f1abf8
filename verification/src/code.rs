//! What a compiler run and a test run mean: from what was observed of the
//! process to a duration or a verdict.

use crate::languages::{CommandLine, CommandLineView, Language};
use crate::normalize::{normalize, outputs_match};
use crate::testcases::{TestCase, TestCaseView};
use crate::{result_view, Output, OutputView};
use vstd::prelude::*;

verus! {

/// What was observed of the preparation of a program.
#[derive(Debug, PartialEq, Eq)]
pub enum Compilation {
    /// The source could not be written, or the compiler could not be started
    /// or waited for.
    Failed,
    /// The source was written and no compiler was run.
    Staged,
    /// The compiler ran and ended.
    Exited { success: bool, stderr: Vec<u8> },
}

/// What was observed of one run of a program.
#[derive(Debug, PartialEq, Eq)]
pub enum Execution {
    /// The program could not be started, fed or waited for.
    Failed,
    /// The time limit passed and the program was killed.
    TimedOut,
    /// The program ended; `elapsed` is the wall-clock time in nanoseconds
    /// from just before its start to its end.
    Exited { success: bool, stdout: Vec<u8>, stderr: Vec<u8>, elapsed: u64 },
}

/// What `strip_ansi_escapes::strip` leaves of `data`: the bytes without the
/// ANSI escape sequences.
pub uninterp spec fn ansi_stripped(data: Seq<u8>) -> Seq<u8>;

/// The text that `String::from_utf8_lossy` reads in `bytes`: their UTF-8
/// decoding, with U+FFFD in place of what is not UTF-8.
pub uninterp spec fn utf8_lossy(bytes: Seq<u8>) -> Seq<char>;

/// The text shown for what a process wrote to one of its streams.
pub open spec fn output_text(bytes: Seq<u8>) -> Seq<char> {
    utf8_lossy(ansi_stripped(bytes))
}

/// Calls `strip_ansi_escapes::strip`. The result is named, not described:
/// the escape grammar is the outside crate's.
#[verifier::external_body]
fn strip_escapes(data: &Vec<u8>) -> (r: Vec<u8>)
    ensures
        r@ == ansi_stripped(data@),
{
    strip_ansi_escapes::strip(data)
}

/// Calls `String::from_utf8_lossy` and takes the text as a `String`.
#[verifier::external_body]
fn lossy_text(bytes: &Vec<u8>) -> (r: String)
    ensures
        r@ == utf8_lossy(bytes@),
{
    String::from_utf8_lossy(bytes).into_owned()
}

/// The text shown for what a process wrote to one of its streams.
pub fn decode_output(bytes: &Vec<u8>) -> (r: String)
    ensures
        r@ == output_text(bytes@),
{
    let stripped = strip_escapes(bytes);
    lossy_text(&stripped)
}

/// The verdict on a compiler that ended: it succeeded, or the program cannot
/// be compiled and the diagnostics say why.
pub open spec fn spec_compile_verdict(success: bool, diagnostics: Seq<char>) -> Result<
    (),
    OutputView,
> {
    if success {
        Ok(())
    } else {
        Err(OutputView::CannotCompile(diagnostics))
    }
}

/// Judges a compiler that ended, given its diagnostics as text.
pub fn compile_verdict(success: bool, diagnostics: String) -> (r: Result<(), Output>)
    ensures
        result_view(r) == spec_compile_verdict(success, diagnostics@),
{
    if success {
        Ok(())
    } else {
        Err(Output::CannotCompile(diagnostics))
    }
}

/// The verdict on the preparation of a program in `language`.
pub open spec fn spec_compile_code(language: Language, outcome: Compilation) -> Result<
    (),
    OutputView,
> {
    match outcome {
        Compilation::Failed => Err(OutputView::ServerError),
        Compilation::Staged => if language.spec_is_interpreted() {
            Ok(())
        } else {
            Err(OutputView::ServerError)
        },
        Compilation::Exited { success, stderr } => spec_compile_verdict(
            success,
            output_text(stderr@),
        ),
    }
}

/// Judges the preparation of a program: a failure to write or to start the
/// compiler is the server's; a compiled language that was only staged is too;
/// a compiler that failed gives its diagnostics.
pub fn compile_code(language: Language, outcome: &Compilation) -> (r: Result<(), Output>)
    ensures
        result_view(r) == spec_compile_code(language, *outcome),
{
    match outcome {
        Compilation::Failed => Err(Output::ServerError),
        Compilation::Staged => {
            if language.is_interpreted() {
                Ok(())
            } else {
                Err(Output::ServerError)
            }
        },
        Compilation::Exited { success, stderr } => {
            if *success {
                Ok(())
            } else {
                compile_verdict(false, decode_output(stderr))
            }
        },
    }
}

/// The verdict on a program that ended on `test`: a failure status is a
/// runtime error; else the output is compared with the expected one, both
/// normalized, and the run passes with its duration or is a wrong answer.
pub open spec fn spec_run_verdict(
    test: TestCaseView,
    success: bool,
    stdout: Seq<char>,
    stderr: Seq<char>,
    elapsed: u64,
) -> Result<u64, OutputView> {
    if !success {
        Err(OutputView::RuntimeError { stdout, stderr })
    } else if normalize(stdout) == normalize(test.output) {
        Ok(elapsed)
    } else {
        Err(OutputView::WrongAnswer { test, stdout, stderr })
    }
}

/// Judges a program that ended on `test`, given its streams as text.
pub fn run_verdict(
    test: &TestCase,
    success: bool,
    stdout: String,
    stderr: String,
    elapsed: u64,
) -> (r: Result<u64, Output>)
    ensures
        result_view(r) == spec_run_verdict(test@, success, stdout@, stderr@, elapsed),
{
    if !success {
        Err(Output::RuntimeError { stdout, stderr })
    } else if outputs_match(stdout.as_str(), test.output.as_str()) {
        Ok(elapsed)
    } else {
        Err(Output::WrongAnswer { test: test.clone(), stdout, stderr })
    }
}

/// The verdict on one run of `test`.
pub open spec fn spec_test_code(test: TestCaseView, outcome: Execution) -> Result<
    u64,
    OutputView,
> {
    match outcome {
        Execution::Failed => Err(OutputView::ServerError),
        Execution::TimedOut => Err(OutputView::Timeout(test)),
        Execution::Exited { success, stdout, stderr, elapsed } => spec_run_verdict(
            test,
            success,
            output_text(stdout@),
            output_text(stderr@),
            elapsed,
        ),
    }
}

/// Judges one run of `test`: the measured duration if the program passed,
/// else the verdict that ends the judging.
pub fn test_code(test: &TestCase, outcome: &Execution) -> (r: Result<u64, Output>)
    ensures
        result_view(r) == spec_test_code(test@, *outcome),
{
    match outcome {
        Execution::Failed => Err(Output::ServerError),
        Execution::TimedOut => Err(Output::Timeout(test.clone())),
        Execution::Exited { success, stdout, stderr, elapsed } => run_verdict(
            test,
            *success,
            decode_output(stdout),
            decode_output(stderr),
            *elapsed,
        ),
    }
}

} // verus!
