//! Post-build test harness for conda packages: the decisions and text that a
//! test run is made of, proved against their contracts.

pub mod activation;
pub mod archive;
pub mod discovery;
pub mod error;
pub mod manifest;
pub mod package;
pub mod session;
pub mod setup;
pub mod text;
