//! The data of the remote-judge route: what comes in, what is sent on, and
//! the test cases by problem.

pub mod submission;
pub mod test_case;
