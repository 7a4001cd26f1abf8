//! Core of an online-judge submission evaluator: language profiles, output
//! comparison, verdict assembly, timing statistics, the session codec and the
//! progress bookkeeping, each with a machine-checked contract.

use crate::testcases::{TestCase, TestCaseView};
use vstd::prelude::*;

pub mod admin;
pub mod auth;
pub mod code;
pub mod codec;
pub mod config;
pub mod error;
pub mod languages;
pub mod models;
pub mod normalize;
pub mod progress;
pub mod routes;
pub mod session;
pub mod submit;
pub mod testcases;
pub mod timing;

verus! {

/// The outcome reported for a request.
#[derive(Debug, PartialEq, Eq)]
pub enum Output {
    /// Something failed on the server's side; nothing is said of the program.
    ServerError,
    /// The request carried no valid session or admin token.
    Unauthorized,
    /// No problem has this index.
    InvalidProblem(usize),
    /// The player has solved every problem.
    Completed,
    /// The compiler rejected the program; its diagnostics.
    CannotCompile(String),
    /// The program ended with a failure status.
    RuntimeError { stdout: String, stderr: String },
    /// The program was killed after the time limit, on this test.
    Timeout(TestCase),
    /// The program printed something else than a public test expects.
    WrongAnswer { test: TestCase, stdout: String, stderr: String },
    /// The program failed the hidden test; nothing of that test is shown.
    Hidden,
    /// Every test passed: the mean duration and the jitter, in nanoseconds.
    Accepted(u64, u64),
    /// A freshly issued token.
    Token(String),
}

/// The mathematical value of an [`Output`].
pub enum OutputView {
    ServerError,
    Unauthorized,
    InvalidProblem(usize),
    Completed,
    CannotCompile(Seq<char>),
    RuntimeError { stdout: Seq<char>, stderr: Seq<char> },
    Timeout(TestCaseView),
    WrongAnswer { test: TestCaseView, stdout: Seq<char>, stderr: Seq<char> },
    Hidden,
    Accepted(u64, u64),
    Token(Seq<char>),
}

impl View for Output {
    type V = OutputView;

    open spec fn view(&self) -> OutputView {
        match self {
            Output::ServerError => OutputView::ServerError,
            Output::Unauthorized => OutputView::Unauthorized,
            Output::InvalidProblem(index) => OutputView::InvalidProblem(*index),
            Output::Completed => OutputView::Completed,
            Output::CannotCompile(diagnostics) => OutputView::CannotCompile(diagnostics@),
            Output::RuntimeError { stdout, stderr } => OutputView::RuntimeError {
                stdout: stdout@,
                stderr: stderr@,
            },
            Output::Timeout(test) => OutputView::Timeout(test@),
            Output::WrongAnswer { test, stdout, stderr } => OutputView::WrongAnswer {
                test: test@,
                stdout: stdout@,
                stderr: stderr@,
            },
            Output::Hidden => OutputView::Hidden,
            Output::Accepted(mean, jitter) => OutputView::Accepted(*mean, *jitter),
            Output::Token(token) => OutputView::Token(token@),
        }
    }
}

impl OutputView {
    /// The verdict as it is reported for the hidden test: a wrong answer
    /// becomes `Hidden`, anything else stays.
    pub open spec fn masked(self) -> OutputView {
        if self is WrongAnswer {
            OutputView::Hidden
        } else {
            self
        }
    }
}

impl Output {
    /// Whether the submission was accepted.
    pub fn is_success(&self) -> (r: bool)
        ensures
            r == (self@ is Accepted),
    {
        matches!(self, Output::Accepted(..))
    }

    /// Hides a wrong answer: what the hidden test printed and expected is dropped.
    pub fn masked(self) -> (r: Output)
        ensures
            r@ == self@.masked(),
    {
        match self {
            Output::WrongAnswer { .. } => Output::Hidden,
            other => other,
        }
    }
}

/// The value of the result of one step of judging: a duration, or the verdict
/// that ends the judging.
pub open spec fn result_view<T>(r: Result<T, Output>) -> Result<T, OutputView> {
    match r {
        Ok(value) => Ok(value),
        Err(verdict) => Err(verdict@),
    }
}

} // verus!
