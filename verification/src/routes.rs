//! The routes' decisions, apart from their transport.

pub mod submission;
