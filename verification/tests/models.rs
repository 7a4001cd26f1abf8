use topsy_turvy::error::TopsyTurvyError;
use topsy_turvy::models::submission::{
    Judge0Submission, Judge0Submissions, SubmissionRequest, SubmissionResponse, SubmissionToken,
};
use topsy_turvy::models::test_case::{TestCase, TestCaseFile, TestCases};
use topsy_turvy::routes::submission::submit;

fn request(problem_id: &str) -> SubmissionRequest {
    SubmissionRequest {
        source_code: "print(1)".to_string(),
        language_id: 71,
        problem_id: problem_id.to_string(),
    }
}

fn two_cases() -> TestCases {
    TestCases {
        test_cases: vec![
            TestCase { id: 1, stdin: "1\n".to_string(), expected_output: "1".to_string() },
            TestCase { id: 2, stdin: "2\n".to_string(), expected_output: "4".to_string() },
        ],
    }
}

fn entry(stdin: &str, expected_output: &str) -> Judge0Submission {
    Judge0Submission {
        source_code: "print(1)".to_string(),
        language_id: 71,
        stdin: stdin.to_string(),
        expected_output: expected_output.to_string(),
    }
}

#[test]
fn a_file_gives_the_test_cases_of_its_problems() {
    let mut file = TestCaseFile::new();
    assert_eq!(file.get("squares").err(), Some(TopsyTurvyError::NoSuchTestCase));
    file.insert("squares".to_string(), two_cases());
    assert_eq!(file.get("squares"), Ok(&two_cases()));
    assert_eq!(file.get("cubes").err(), Some(TopsyTurvyError::NoSuchTestCase));
    file.insert("squares".to_string(), TestCases { test_cases: Vec::new() });
    assert_eq!(file.get("squares"), Ok(&TestCases { test_cases: Vec::new() }));
}

#[test]
fn a_batch_grows_by_insertion() {
    let mut batch = Judge0Submissions::new();
    assert!(batch.submissions.is_empty());
    batch.insert(entry("1\n", "1"));
    batch.insert(entry("2\n", "4"));
    assert_eq!(batch.submissions, vec![entry("1\n", "1"), entry("2\n", "4")]);
}

#[test]
fn the_batch_runs_the_program_once_for_every_test_case() {
    let batch = Judge0Submissions::batch(&request("squares"), &two_cases());
    assert_eq!(batch.submissions, vec![entry("1\n", "1"), entry("2\n", "4")]);
    let empty = Judge0Submissions::batch(&request("squares"), &TestCases { test_cases: Vec::new() });
    assert!(empty.submissions.is_empty());
}

#[test]
fn the_route_sends_the_batch_of_the_problem() {
    let mut file = TestCaseFile::new();
    file.insert("squares".to_string(), two_cases());
    let body = submit(&file, &request("squares")).unwrap();
    assert_eq!(body.submissions, vec![entry("1\n", "1"), entry("2\n", "4")]);
    assert_eq!(
        submit(&file, &request("cubes")).err(),
        Some(TopsyTurvyError::InternalError("Failed to parse test cases".to_string()))
    );
}

#[test]
fn a_response_holds_the_tokens_it_was_given() {
    let tokens = vec![SubmissionToken::new("a1".to_string()), SubmissionToken::new("b2".to_string())];
    let response = SubmissionResponse::new(tokens);
    assert_eq!(response.submission_tokens.len(), 2);
    assert_eq!(response.submission_tokens[0].as_str(), "a1");
    assert_eq!(response.submission_tokens[1].clone().as_str(), "b2");
}
