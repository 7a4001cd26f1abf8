//! A submission as it comes in, and the batch that is sent to the remote judge.

use crate::models::test_case::TestCases;
use vstd::prelude::*;

verus! {

/// A submission as it comes in.
#[derive(Debug, PartialEq, Eq)]
pub struct SubmissionRequest {
    pub source_code: String,
    pub language_id: u16,
    pub problem_id: String,
}

/// The remote judge's handles on the runs of one submission.
#[derive(Debug, PartialEq, Eq)]
pub struct SubmissionResponse {
    pub submission_tokens: Vec<SubmissionToken>,
}

impl SubmissionResponse {
    /// A response that holds these tokens.
    pub fn new(submission_tokens: Vec<SubmissionToken>) -> (r: Self)
        ensures
            r.submission_tokens == submission_tokens,
    {
        SubmissionResponse { submission_tokens }
    }
}

/// The remote judge's handle on one run.
#[derive(Debug, PartialEq, Eq)]
pub struct SubmissionToken {
    token: String,
}

impl View for SubmissionToken {
    type V = Seq<char>;

    closed spec fn view(&self) -> Seq<char> {
        self.token@
    }
}

impl SubmissionToken {
    /// The token with this text.
    pub fn new(token: String) -> (r: Self)
        ensures
            r@ == token@,
    {
        SubmissionToken { token }
    }

    /// The token's text.
    pub fn as_str(&self) -> (r: &str)
        ensures
            r@ == self@,
    {
        self.token.as_str()
    }
}

impl Clone for SubmissionToken {
    fn clone(&self) -> (r: Self)
        ensures
            r@ == self@,
    {
        SubmissionToken { token: self.token.clone() }
    }
}

/// One run asked of the remote judge: a program on one input.
#[derive(Debug, PartialEq, Eq)]
pub struct Judge0Submission {
    pub source_code: String,
    pub language_id: u16,
    pub stdin: String,
    pub expected_output: String,
}

/// The mathematical value of a [`Judge0Submission`].
pub struct Judge0SubmissionView {
    pub source_code: Seq<char>,
    pub language_id: u16,
    pub stdin: Seq<char>,
    pub expected_output: Seq<char>,
}

impl View for Judge0Submission {
    type V = Judge0SubmissionView;

    open spec fn view(&self) -> Judge0SubmissionView {
        Judge0SubmissionView {
            source_code: self.source_code@,
            language_id: self.language_id,
            stdin: self.stdin@,
            expected_output: self.expected_output@,
        }
    }
}

/// A batch of runs asked of the remote judge.
#[derive(Debug, PartialEq, Eq)]
pub struct Judge0Submissions {
    pub submissions: Vec<Judge0Submission>,
}

impl View for Judge0Submissions {
    type V = Seq<Judge0SubmissionView>;

    open spec fn view(&self) -> Seq<Judge0SubmissionView> {
        Seq::new(self.submissions@.len(), |i: int| self.submissions@[i]@)
    }
}

/// The batch for one request: the same program once for every test case, in
/// the order of the test cases.
pub open spec fn spec_batch(request: SubmissionRequest, tests: TestCases) -> Seq<
    Judge0SubmissionView,
> {
    Seq::new(
        tests.test_cases@.len(),
        |i: int|
            Judge0SubmissionView {
                source_code: request.source_code@,
                language_id: request.language_id,
                stdin: tests.test_cases@[i].stdin@,
                expected_output: tests.test_cases@[i].expected_output@,
            },
    )
}

impl Judge0Submissions {
    /// A batch without runs.
    pub fn new() -> (r: Self)
        ensures
            r@ == Seq::<Judge0SubmissionView>::empty(),
    {
        let r = Judge0Submissions { submissions: Vec::new() };
        assert(r@ =~= Seq::<Judge0SubmissionView>::empty());
        r
    }

    /// Puts one more run at the end of the batch.
    pub fn insert(&mut self, submission: Judge0Submission)
        ensures
            final(self)@ == old(self)@.push(submission@),
    {
        self.submissions.push(submission);
        assert(self@ =~= old(self)@.push(submission@));
    }

    /// The batch for `request` on `tests`.
    pub fn batch(request: &SubmissionRequest, tests: &TestCases) -> (r: Self)
        ensures
            r@ == spec_batch(*request, *tests),
    {
        let mut body = Judge0Submissions::new();
        let mut i: usize = 0;
        while i < tests.test_cases.len()
            invariant
                i <= tests.test_cases.len(),
                body@ == spec_batch(*request, *tests).take(i as int),
            decreases tests.test_cases.len() - i,
        {
            let test_case = &tests.test_cases[i];
            body.insert(
                Judge0Submission {
                    source_code: request.source_code.clone(),
                    language_id: request.language_id,
                    stdin: test_case.stdin.clone(),
                    expected_output: test_case.expected_output.clone(),
                },
            );
            assert(body@ =~= spec_batch(*request, *tests).take(i + 1));
            i += 1;
        }
        assert(spec_batch(*request, *tests).take(i as int) =~= spec_batch(*request, *tests));
        body
    }
}

} // verus!
