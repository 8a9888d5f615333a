//! The errors of a test run, and the outside types that they carry.
use vstd::prelude::*;

verus! {

#[verifier::external_type_specification]
#[verifier::external_body]
pub struct ExIoError(std::io::Error);

#[verifier::external_type_specification]
#[verifier::external_body]
pub struct ExAnyhowError(anyhow::Error);

#[verifier::external_type_specification]
#[verifier::external_body]
pub struct ExJsonError(serde_json::Error);

#[verifier::external_type_specification]
#[verifier::external_body]
pub struct ExActivationError(rattler_shell::activation::ActivationError);

/// Why a package test run did not succeed.
#[derive(Debug)]
pub enum TestError {
    /// A test script exited unsuccessfully, or the package could not be identified.
    TestFailed,
    /// The package archive could not be read or decoded.
    PackageRead(std::io::Error),
    /// A dependency specifier was rejected; the text says which or why.
    MatchSpecParse(String),
    /// The test environment could not be created.
    TestEnvironmentSetup(anyhow::Error),
    /// The test environment could not be activated.
    TestEnvironementActivation(rattler_shell::activation::ActivationError),
    /// The test-time dependency list is not a JSON array of strings.
    TestJSONParseError(serde_json::Error),
    /// A test-time dependency is not a valid specifier; the text is the parser's message.
    TestMatchSpecParseError(String),
    /// The package path has no file name.
    MissingPackageFileName,
    /// The package file name has neither the `.conda` nor the `.tar.bz2` extension.
    ArchiveTypeNotSupported,
    /// A `.conda` archive was asked for a file outside its `info` segment.
    ArchivePathNotSupported(String),
    /// Test scripts run under bash or cmd.exe only.
    UnsupportedShell,
}

} // verus!
