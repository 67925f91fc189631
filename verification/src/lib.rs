//! A test harness for competitive programming.
//!
//! A package of test cases is generated from two programs, a generator that
//! prints the input of a case and a reference program that prints the
//! expected output for an input. A candidate is then graded against the
//! package under the time limit that the package records.
//!
//! The library decides and never acts. Each task is a run (`generation`,
//! `grader`, `workspace`) that names the next thing to be done as a request of
//! `protocol`; the caller carries it out and hands the answer back. What the
//! files are called is in `layout`, the package's record in `metadata`, the
//! judging of one case in `grading`, and the command line in `command`.
//! `decimal` and `text` hold what these need of numerals and of white space.

pub mod command;
pub mod decimal;
pub mod generation;
pub mod grader;
pub mod grading;
pub mod layout;
pub mod metadata;
pub mod protocol;
pub mod text;
pub mod workspace;
