//! The error taxonomy of a run, with one documented process exit code per
//! failure path. A failing per-target build propagates its own exit code;
//! the other fatal failures each have a distinct small code, so that a run
//! that found no kit is never mistaken for a successful one.

use vstd::prelude::*;
use vstd::string::*;
use crate::target::Target;

verus! {

/// The exit code of a run on which the configuration could not be resolved.
pub const CONFIG_ERROR_CODE: i32 = 1;

/// The exit code of a run on which the command-line arguments were rejected.
pub const INVALID_ARGS_CODE: i32 = 2;

/// The exit code of a run on which no kit installation was found.
pub const KIT_NOT_FOUND_CODE: i32 = 3;

/// A fatal failure of the pipeline. Strip failures are deliberately absent:
/// stripping is best-effort and never fails the run.
#[derive(Clone, Copy, PartialEq, Eq, Structural, Debug)]
pub enum NdkError {
    /// No discovery strategy produced a kit root.
    KitNotFound,
    /// The project configuration could not be loaded or parsed.
    ConfigError,
    /// The command-line arguments could not be parsed.
    InvalidArgs,
    /// The build for `target` returned the non-zero exit status `code`.
    BuildFailed { target: Target, code: i32 },
}

impl NdkError {
    /// A build failure always carries the non-zero code it was aborted with.
    pub open spec fn wf(self) -> bool {
        match self {
            NdkError::BuildFailed { code, .. } => code != 0,
            _ => true,
        }
    }

    /// The process exit code of each failure path.
    pub open spec fn exit_code_spec(self) -> i32 {
        match self {
            NdkError::KitNotFound => KIT_NOT_FOUND_CODE,
            NdkError::ConfigError => CONFIG_ERROR_CODE,
            NdkError::InvalidArgs => INVALID_ARGS_CODE,
            NdkError::BuildFailed { code, .. } => code,
        }
    }

    /// The process exit code the run must terminate with.
    pub fn exit_code(&self) -> (r: i32)
        ensures
            r == self.exit_code_spec(),
    {
        match self {
            NdkError::KitNotFound => KIT_NOT_FOUND_CODE,
            NdkError::ConfigError => CONFIG_ERROR_CODE,
            NdkError::InvalidArgs => INVALID_ARGS_CODE,
            NdkError::BuildFailed { code, .. } => *code,
        }
    }

    /// The diagnostic of each failure path.
    pub open spec fn message_spec(self) -> Seq<char> {
        match self {
            NdkError::KitNotFound => "could not find any NDK; set ANDROID_NDK_HOME to your NDK installation's root directory, or install the NDK using Android Studio"@,
            NdkError::ConfigError => "the project configuration could not be resolved"@,
            NdkError::InvalidArgs => "the arguments could not be parsed"@,
            NdkError::BuildFailed { target, .. } => "the build failed; if a compilation target is missing, run: rustup target install "@
                + target.triple_spec(),
        }
    }

    /// A diagnostic for the user, with a remediation hint where one is known.
    pub fn message(&self) -> (r: String)
        ensures
            r@ == self.message_spec(),
    {
        match self {
            NdkError::KitNotFound => String::from_str(
                "could not find any NDK; set ANDROID_NDK_HOME to your NDK installation's root directory, or install the NDK using Android Studio",
            ),
            NdkError::ConfigError => String::from_str("the project configuration could not be resolved"),
            NdkError::InvalidArgs => String::from_str("the arguments could not be parsed"),
            NdkError::BuildFailed { target, .. } => {
                let mut s = String::from_str(
                    "the build failed; if a compilation target is missing, run: rustup target install ",
                );
                s.append(target.triple());
                s
            },
        }
    }
}

/// Law: every well-formed error exits with a non-zero code, distinct from
/// the code of a successful run.
pub proof fn lemma_error_exit_nonzero(e: NdkError)
    requires
        e.wf(),
    ensures
        e.exit_code_spec() != 0,
{
}

} // verus!
