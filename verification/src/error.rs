//! The error model of the engine.
//!
//! Every failure, at any layer, propagates unchanged to the orchestrator:
//! nothing is retried or recovered internally.

use vstd::prelude::*;
use vstd::string::StringExecFns;

verus! {

/// The mathematical shape of an [`AppError`]: the variant together with
/// its diagnostic text.
#[verifier::ext_equal]
pub enum ErrModel {
    ScriptNotFound(Seq<char>),
    ParseError(Seq<char>),
    MissingMain(Seq<char>),
    FailedToExecuteScript,
    MissingConfig,
    Io(Seq<char>),
    Json(Seq<char>),
}

/// A fatal failure of the engine.
///
/// A missing hook is not an error (hooks are optional extension points), so
/// no variant exists for it; a missing main script always is.
#[derive(Debug, PartialEq, Eq)]
pub enum AppError {
    /// The main script file of a task does not exist; holds the attempted
    /// path.
    ScriptNotFound(String),
    /// The script source failed to compile; holds the parser's diagnostic.
    ParseError(String),
    /// The compiled script has no `main` entry point; holds the script path.
    MissingMain(String),
    /// The entry point ran but the interpreter reported a runtime failure.
    FailedToExecuteScript,
    /// The orchestrator was invoked without a loaded configuration.
    MissingConfig,
    /// Reading a script file or the configuration document failed; holds the
    /// host's description of the failure.
    Io(String),
    /// The configuration document could not be deserialized; holds the
    /// decoder's diagnostic.
    Json(String),
}

pub type AppResult<T> = Result<T, AppError>;

impl View for AppError {
    type V = ErrModel;

    open spec fn view(&self) -> ErrModel {
        match self {
            AppError::ScriptNotFound(p) => ErrModel::ScriptNotFound(p@),
            AppError::ParseError(d) => ErrModel::ParseError(d@),
            AppError::MissingMain(p) => ErrModel::MissingMain(p@),
            AppError::FailedToExecuteScript => ErrModel::FailedToExecuteScript,
            AppError::MissingConfig => ErrModel::MissingConfig,
            AppError::Io(d) => ErrModel::Io(d@),
            AppError::Json(d) => ErrModel::Json(d@),
        }
    }
}

impl Clone for AppError {
    /// A clone carries the same variant and the same diagnostic text.
    fn clone(&self) -> (r: Self)
        ensures
            r@ == self@,
    {
        match self {
            AppError::ScriptNotFound(p) => AppError::ScriptNotFound(p.clone()),
            AppError::ParseError(d) => AppError::ParseError(d.clone()),
            AppError::MissingMain(p) => AppError::MissingMain(p.clone()),
            AppError::FailedToExecuteScript => AppError::FailedToExecuteScript,
            AppError::MissingConfig => AppError::MissingConfig,
            AppError::Io(d) => AppError::Io(d.clone()),
            AppError::Json(d) => AppError::Json(d.clone()),
        }
    }
}

impl AppError {
    /// The user-facing description of this error.
    pub open spec fn spec_message(&self) -> Seq<char> {
        match self {
            AppError::ScriptNotFound(p) => "could not find the script file "@ + p@,
            AppError::ParseError(d) => "failed to parse the script: "@ + d@,
            AppError::MissingMain(p) => "could not find the main method in the script file "@
                + p@,
            AppError::FailedToExecuteScript => "failed to execute script"@,
            AppError::MissingConfig => "missing config"@,
            AppError::Io(d) => "io error: "@ + d@,
            AppError::Json(d) => "json deserialization error: "@ + d@,
        }
    }

    /// Renders the user-facing description of this error.
    pub fn message(&self) -> (r: String)
        ensures
            r@ == self.spec_message(),
    {
        match self {
            AppError::ScriptNotFound(p) => {
                String::from_str("could not find the script file ").concat(p.as_str())
            },
            AppError::ParseError(d) => {
                String::from_str("failed to parse the script: ").concat(d.as_str())
            },
            AppError::MissingMain(p) => {
                String::from_str("could not find the main method in the script file ").concat(
                    p.as_str(),
                )
            },
            AppError::FailedToExecuteScript => String::from_str("failed to execute script"),
            AppError::MissingConfig => String::from_str("missing config"),
            AppError::Io(d) => String::from_str("io error: ").concat(d.as_str()),
            AppError::Json(d) => String::from_str("json deserialization error: ").concat(
                d.as_str(),
            ),
        }
    }
}

} // verus!
