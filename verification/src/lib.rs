//! Resolution of a named access profile into a request for temporary
//! credentials, the argument list that asks the `aws` command line tool for
//! them, and the reading of what the tool answers.

pub mod args;
pub mod error;
pub mod response;
pub mod profile;
pub mod invocation;
