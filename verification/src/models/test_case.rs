//! Test cases as the remote-judge route holds them: by the problem's id.

use crate::error::TopsyTurvyError;
use vstd::hash_map::StringHashMap;
use vstd::prelude::*;

verus! {

/// One test case of a problem.
#[derive(Debug, PartialEq, Eq)]
pub struct TestCase {
    pub id: u8,
    pub stdin: String,
    pub expected_output: String,
}

/// The test cases of one problem, in their order.
#[derive(Debug, PartialEq, Eq)]
pub struct TestCases {
    pub test_cases: Vec<TestCase>,
}

/// The test cases of every problem, by the problem's id.
pub struct TestCaseFile {
    problems: StringHashMap<TestCases>,
}

impl View for TestCaseFile {
    type V = Map<Seq<char>, TestCases>;

    closed spec fn view(&self) -> Map<Seq<char>, TestCases> {
        self.problems@
    }
}

impl TestCaseFile {
    /// A file without problems.
    pub fn new() -> (r: Self)
        ensures
            r@ == Map::<Seq<char>, TestCases>::empty(),
    {
        TestCaseFile { problems: StringHashMap::new() }
    }

    /// Puts the test cases of `problem_id` in, in place of any it had.
    pub fn insert(&mut self, problem_id: String, test_cases: TestCases)
        ensures
            final(self)@ == old(self)@.insert(problem_id@, test_cases),
    {
        self.problems.insert(problem_id, test_cases);
    }

    /// The test cases of `problem_id`, or `NoSuchTestCase` where the file
    /// has no such problem.
    pub fn get(&self, problem_id: &str) -> (r: Result<&TestCases, TopsyTurvyError>)
        ensures
            match r {
                Ok(test_cases) => self@.contains_key(problem_id@) && *test_cases
                    == self@[problem_id@],
                Err(e) => !self@.contains_key(problem_id@) && e == TopsyTurvyError::NoSuchTestCase,
            },
    {
        let test_cases = self.problems.get(problem_id);
        if let Some(test_cases) = test_cases {
            Ok(test_cases)
        } else {
            Err(TopsyTurvyError::NoSuchTestCase)
        }
    }
}

} // verus!
