//! Classify the files of a repository and route them to the repos of an
//! ecosystem: the verified core of the `cnbl` pipeline (scan, plan, eat).

pub mod text;
pub mod paths;
pub mod model;
pub mod scanner;
pub mod classifier;
pub mod ecosystem;
pub mod cmd;
