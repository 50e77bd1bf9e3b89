//! The error taxonomy of the pipeline: every step reports one of these, and
//! the orchestrator records its description against the repository name.

use vstd::prelude::*;
use vstd::string::StringExecFns;

verus! {

/// What can go wrong in a pipeline step.
#[derive(Debug)]
pub enum CustomError {
    /// An external call failed or could not be started.
    CommandExecution(String),
    /// A classification failed: the branch or the repository type is not
    /// one of the configured kinds.
    UnknownBranch,
    /// A configuration or structured document could not be read.
    ConfigParsingError(String),
    /// The registry/tool profile could not be activated.
    NpmConfigError(String),
    /// No resolvable current version, or the increment cannot proceed.
    VersionBuild(String),
}

pub type CustomResult<T> = Result<T, CustomError>;

/// The descriptive text of an error, as the outcome report shows it:
/// the variant name, with the carried message in quotes.
pub open spec fn error_text(e: CustomError) -> Seq<char> {
    match e {
        CustomError::CommandExecution(m) => "CommandExecution(\""@ + m@ + "\")"@,
        CustomError::UnknownBranch => "UnknownBranch"@,
        CustomError::ConfigParsingError(m) => "ConfigParsingError(\""@ + m@ + "\")"@,
        CustomError::NpmConfigError(m) => "NpmConfigError(\""@ + m@ + "\")"@,
        CustomError::VersionBuild(m) => "VersionBuild(\""@ + m@ + "\")"@,
    }
}

impl CustomError {
    /// Renders the error for the outcome report, exactly as
    /// [`error_text`] describes.
    pub fn describe(&self) -> (r: String)
        ensures
            r@ == error_text(*self),
    {
        match self {
            CustomError::CommandExecution(m) => String::from_str("CommandExecution(\"").concat(
                m.as_str(),
            ).concat("\")"),
            CustomError::UnknownBranch => String::from_str("UnknownBranch"),
            CustomError::ConfigParsingError(m) => String::from_str("ConfigParsingError(\"").concat(
                m.as_str(),
            ).concat("\")"),
            CustomError::NpmConfigError(m) => String::from_str("NpmConfigError(\"").concat(
                m.as_str(),
            ).concat("\")"),
            CustomError::VersionBuild(m) => String::from_str("VersionBuild(\"").concat(
                m.as_str(),
            ).concat("\")"),
        }
    }
}

} // verus!
