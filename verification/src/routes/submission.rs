//! The remote-judge route: from a request to the batch that is sent on.

use crate::error::{TopsyTurvyError, TopsyTurvyErrorView};
use crate::models::submission::{spec_batch, Judge0SubmissionView, Judge0Submissions, SubmissionRequest};
use crate::models::test_case::{TestCaseFile, TestCases};
use vstd::prelude::*;

verus! {

/// What is sent to the remote judge for `request`: the batch over the test
/// cases of its problem, or an internal error where the problem has none.
pub open spec fn spec_submit(file: Map<Seq<char>, TestCases>, request: SubmissionRequest) -> Result<
    Seq<Judge0SubmissionView>,
    TopsyTurvyErrorView,
> {
    if file.contains_key(request.problem_id@) {
        Ok(spec_batch(request, file[request.problem_id@]))
    } else {
        Err(TopsyTurvyErrorView::InternalError("Failed to parse test cases"@))
    }
}

/// The batch that is sent to the remote judge for `request`.
pub fn submit(file: &TestCaseFile, request: &SubmissionRequest) -> (r: Result<
    Judge0Submissions,
    TopsyTurvyError,
>)
    ensures
        match r {
            Ok(body) => spec_submit(file@, *request) == Ok::<
                Seq<Judge0SubmissionView>,
                TopsyTurvyErrorView,
            >(body@),
            Err(e) => spec_submit(file@, *request) == Err::<
                Seq<Judge0SubmissionView>,
                TopsyTurvyErrorView,
            >(e@),
        },
{
    match file.get(request.problem_id.as_str()) {
        Ok(test_cases) => Ok(Judge0Submissions::batch(request, test_cases)),
        Err(_) => Err(TopsyTurvyError::InternalError("Failed to parse test cases".to_owned())),
    }
}

} // verus!
