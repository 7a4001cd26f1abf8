//! The errors of the remote-judge route.

use vstd::prelude::*;

verus! {

/// What can go wrong on the remote-judge route.
#[derive(Debug, PartialEq, Eq)]
pub enum TopsyTurvyError {
    EnvVarNotFound(String),
    InvalidLanguage(u16),
    CompilationError(String),
    RuntimeError(String),
    TimeLimitExceeded(String),
    WrongAnswer(String),
    InternalError(String),
    EncodingError,
    NoSuchTestCase,
    Judge0RequestError,
}

/// The mathematical value of a [`TopsyTurvyError`].
pub enum TopsyTurvyErrorView {
    EnvVarNotFound(Seq<char>),
    InvalidLanguage(u16),
    CompilationError(Seq<char>),
    RuntimeError(Seq<char>),
    TimeLimitExceeded(Seq<char>),
    WrongAnswer(Seq<char>),
    InternalError(Seq<char>),
    EncodingError,
    NoSuchTestCase,
    Judge0RequestError,
}

impl View for TopsyTurvyError {
    type V = TopsyTurvyErrorView;

    open spec fn view(&self) -> TopsyTurvyErrorView {
        match self {
            TopsyTurvyError::EnvVarNotFound(name) => TopsyTurvyErrorView::EnvVarNotFound(name@),
            TopsyTurvyError::InvalidLanguage(id) => TopsyTurvyErrorView::InvalidLanguage(*id),
            TopsyTurvyError::CompilationError(text) => TopsyTurvyErrorView::CompilationError(
                text@,
            ),
            TopsyTurvyError::RuntimeError(text) => TopsyTurvyErrorView::RuntimeError(text@),
            TopsyTurvyError::TimeLimitExceeded(text) => TopsyTurvyErrorView::TimeLimitExceeded(
                text@,
            ),
            TopsyTurvyError::WrongAnswer(text) => TopsyTurvyErrorView::WrongAnswer(text@),
            TopsyTurvyError::InternalError(text) => TopsyTurvyErrorView::InternalError(text@),
            TopsyTurvyError::EncodingError => TopsyTurvyErrorView::EncodingError,
            TopsyTurvyError::NoSuchTestCase => TopsyTurvyErrorView::NoSuchTestCase,
            TopsyTurvyError::Judge0RequestError => TopsyTurvyErrorView::Judge0RequestError,
        }
    }
}

} // verus!
