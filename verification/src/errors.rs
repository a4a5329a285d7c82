//! The error kinds of a submission run. Every error is fatal: the caller
//! reports the message on standard error and exits with status 1.

use vstd::prelude::*;

verus! {

/// Everything that can go wrong while preparing or submitting a job.
#[derive(Debug)]
pub enum SubmitError {
    /// The per-task argument file or the script file could not be read.
    /// Carries the offending path.
    FileReadError(String),
    /// The command names a shell script whose canonical path could not be
    /// determined or is not valid text. Carries the offending path.
    PathResolutionError(String),
    /// The "other" container family was chosen without an explicit image.
    MissingImageError,
    /// `sbatch` could not be launched.
    SubprocessSpawnError,
    /// The input pipe of `sbatch` was unavailable or could not be written.
    SubprocessIOError,
    /// Waiting on the `sbatch` child process failed.
    SubprocessWaitError,
    /// The child process ran but exited with a non-zero status.
    NonZeroExit,
}

impl SubmitError {
    /// The message reported for this error.
    pub open spec fn message_spec(&self) -> Seq<char> {
        match self {
            SubmitError::FileReadError(p) => "Unable to read command argument file, \""@ + p@
                + "\""@,
            SubmitError::PathResolutionError(p) => "It looks like \""@ + p@
                + "\" is a shell script, but a canonical path cannot be determined for mounting in each container"@,
            SubmitError::MissingImageError =>
                "--image must be specified if \"other\" container is chosen"@,
            SubmitError::SubprocessSpawnError => "Unable to invoke sbatch"@,
            SubmitError::SubprocessIOError => "Unable to take stdin of sbatch"@,
            SubmitError::SubprocessWaitError => "Unable to wait for sbatch"@,
            SubmitError::NonZeroExit => "Something went wrong..."@,
        }
    }

    /// Renders the message reported for this error.
    pub fn message(&self) -> (r: String)
        ensures
            r@ == self.message_spec(),
    {
        match self {
            SubmitError::FileReadError(p) => {
                let mut m = String::from_str("Unable to read command argument file, \"");
                m.append(p.as_str());
                m.append("\"");
                proof {
                    assert(m@ =~= self.message_spec());
                }
                m
            },
            SubmitError::PathResolutionError(p) => {
                let mut m = String::from_str("It looks like \"");
                m.append(p.as_str());
                m.append(
                    "\" is a shell script, but a canonical path cannot be determined for mounting in each container",
                );
                proof {
                    assert(m@ =~= self.message_spec());
                }
                m
            },
            SubmitError::MissingImageError => String::from_str(
                "--image must be specified if \"other\" container is chosen",
            ),
            SubmitError::SubprocessSpawnError => String::from_str("Unable to invoke sbatch"),
            SubmitError::SubprocessIOError => String::from_str("Unable to take stdin of sbatch"),
            SubmitError::SubprocessWaitError => String::from_str("Unable to wait for sbatch"),
            SubmitError::NonZeroExit => String::from_str("Something went wrong..."),
        }
    }
}

} // verus!
