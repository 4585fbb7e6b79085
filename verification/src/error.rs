//! The ways in which flag discovery fails.

use vstd::prelude::*;

verus! {

/// Why the include paths or defines could not be produced. Every failure is
/// final: nothing is retried, and no partial result accompanies it.
#[derive(Clone, Debug, PartialEq, Eq)]
pub enum BuildError {
    /// The override variable is set, but nothing exists at the path it names.
    ConfiguredPathNotFound { path: String },
    /// The override variable is unset and the search path holds no
    /// `php-config`.
    ExecutableNotFound,
    /// The operating system could not launch the resolved executable.
    SpawnFailure { reason: String },
    /// The executable ran and reported failure.
    NonZeroExit { stdout: String, stderr: String },
    /// The snapshot lacks a key that is required.
    MissingKey { key: String },
}

/// A `BuildError` with its texts as character sequences.
pub enum BuildErrorModel {
    ConfiguredPathNotFound { path: Seq<char> },
    ExecutableNotFound,
    SpawnFailure { reason: Seq<char> },
    NonZeroExit { stdout: Seq<char>, stderr: Seq<char> },
    MissingKey { key: Seq<char> },
}

impl View for BuildError {
    type V = BuildErrorModel;

    open spec fn view(&self) -> BuildErrorModel {
        match self {
            BuildError::ConfiguredPathNotFound { path } => BuildErrorModel::ConfiguredPathNotFound {
                path: path@,
            },
            BuildError::ExecutableNotFound => BuildErrorModel::ExecutableNotFound,
            BuildError::SpawnFailure { reason } => BuildErrorModel::SpawnFailure {
                reason: reason@,
            },
            BuildError::NonZeroExit { stdout, stderr } => BuildErrorModel::NonZeroExit {
                stdout: stdout@,
                stderr: stderr@,
            },
            BuildError::MissingKey { key } => BuildErrorModel::MissingKey { key: key@ },
        }
    }
}

impl BuildErrorModel {
    /// The text shown to the operator. It names the configured path between
    /// quotation marks, tells both remedies for a missing executable, carries
    /// the reason of a failed launch, and holds both captured streams
    /// verbatim.
    pub open spec fn message(self) -> Seq<char> {
        match self {
            BuildErrorModel::ConfiguredPathNotFound { path } =>
                "php-config executable not found at \""@ + path + "\""@,
            BuildErrorModel::ExecutableNotFound =>
                "Could not find `php-config` executable. Please ensure `php-config` is in your PATH or the `PHP_CONFIG` environment variable is set."@,
            BuildErrorModel::SpawnFailure { reason } => "Failed to run `php-config`: "@ + reason,
            BuildErrorModel::NonZeroExit { stdout, stderr } =>
                "Failed to run `php-config`: "@ + stdout + " "@ + stderr,
            BuildErrorModel::MissingKey { key } => "could not find "@ + key + " in env"@,
        }
    }
}

impl BuildError {
    /// Renders the error for the operator.
    pub fn message(&self) -> (text: String)
        ensures
            text@ == self@.message(),
    {
        match self {
            BuildError::ConfiguredPathNotFound { path } => {
                String::from_str("php-config executable not found at \"").concat(
                    path.as_str(),
                ).concat("\"")
            },
            BuildError::ExecutableNotFound => {
                String::from_str(
                    "Could not find `php-config` executable. Please ensure `php-config` is in your PATH or the `PHP_CONFIG` environment variable is set.",
                )
            },
            BuildError::SpawnFailure { reason } => {
                String::from_str("Failed to run `php-config`: ").concat(reason.as_str())
            },
            BuildError::NonZeroExit { stdout, stderr } => {
                String::from_str("Failed to run `php-config`: ").concat(stdout.as_str()).concat(
                    " ",
                ).concat(stderr.as_str())
            },
            BuildError::MissingKey { key } => {
                String::from_str("could not find ").concat(key.as_str()).concat(" in env")
            },
        }
    }
}

} // verus!
