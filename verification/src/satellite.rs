//! Running an engine as a child process: what can go wrong, and what the
//! way the child ended means for its launch.
//!
//! Starting the child, feeding it and waiting for it is the host's part.

use vstd::prelude::*;
use vstd::std_specs::cmp::PartialEqSpecImpl;
use vstd::std_specs::convert::FromSpecImpl;
use vstd::string::*;

verus! {

/// An error of std's input and output. The library only carries it.
#[verifier::external_type_specification]
#[verifier::external_body]
pub struct ExIoError(std::io::Error);

/// Why a launch gave no output.
#[derive(Debug)]
pub enum SatelliteError {
    /// The child was still running when its time was up.
    LaunchTimeOut,
    /// The child ended without success.
    LaunchFailed,
    /// The child could not be started, fed, awaited or read.
    IoFailed(std::io::Error),
}

impl SatelliteError {
    /// Whether two errors are of one kind.
    pub open spec fn same_kind(&self, other: &SatelliteError) -> bool {
        match (self, other) {
            (SatelliteError::LaunchTimeOut, SatelliteError::LaunchTimeOut) => true,
            (SatelliteError::LaunchFailed, SatelliteError::LaunchFailed) => true,
            (SatelliteError::IoFailed(_), SatelliteError::IoFailed(_)) => true,
            _ => false,
        }
    }

    /// What to tell the user, but for the cause of a failure of input or
    /// output.
    pub open spec fn summary_spec(&self) -> Seq<char> {
        match self {
            SatelliteError::LaunchTimeOut => "launch timed out"@,
            SatelliteError::LaunchFailed => "launch failed"@,
            SatelliteError::IoFailed(_) => "IO error"@,
        }
    }

    /// What to tell the user, but for the cause of a failure of input or
    /// output.
    pub fn summary(&self) -> (text: String)
        ensures
            text@ == self.summary_spec(),
    {
        match self {
            SatelliteError::LaunchTimeOut => String::from_str("launch timed out"),
            SatelliteError::LaunchFailed => String::from_str("launch failed"),
            SatelliteError::IoFailed(_) => String::from_str("IO error"),
        }
    }
}

impl From<std::io::Error> for SatelliteError {
    fn from(error: std::io::Error) -> (out: SatelliteError) {
        SatelliteError::IoFailed(error)
    }
}

impl FromSpecImpl<std::io::Error> for SatelliteError {
    open spec fn obeys_from_spec() -> bool {
        true
    }

    open spec fn from_spec(error: std::io::Error) -> SatelliteError {
        SatelliteError::IoFailed(error)
    }
}

/// Errors are equal if they are of one kind.
impl PartialEq for SatelliteError {
    fn eq(&self, other: &SatelliteError) -> (equal: bool) {
        match (self, other) {
            (SatelliteError::LaunchTimeOut, SatelliteError::LaunchTimeOut) => true,
            (SatelliteError::LaunchFailed, SatelliteError::LaunchFailed) => true,
            (SatelliteError::IoFailed(_), SatelliteError::IoFailed(_)) => true,
            _ => false,
        }
    }
}

impl PartialEqSpecImpl for SatelliteError {
    open spec fn obeys_eq_spec() -> bool {
        true
    }

    open spec fn eq_spec(&self, other: &SatelliteError) -> bool {
        self.same_kind(other)
    }
}

/// How the wait for a launched child ended.
#[derive(Debug)]
pub enum Waited {
    /// The time was up before the child ended.
    TimedOut,
    /// The child ended, with or without success.
    Exited { success: bool },
    /// Waiting failed.
    Failed(std::io::Error),
}

/// What the way the child ended means for its launch: the output of a child
/// that ended with success is to be read, and every other launch has
/// failed, each for its own reason.
pub fn after_wait(waited: Waited) -> (verdict: Result<(), SatelliteError>)
    ensures
        match waited {
            Waited::TimedOut => verdict == Err::<(), _>(SatelliteError::LaunchTimeOut),
            Waited::Exited { success } => if success {
                verdict is Ok
            } else {
                verdict == Err::<(), _>(SatelliteError::LaunchFailed)
            },
            Waited::Failed(error) => verdict == Err::<(), _>(SatelliteError::IoFailed(error)),
        },
{
    match waited {
        Waited::TimedOut => Err(SatelliteError::LaunchTimeOut),
        Waited::Exited { success } => if success {
            Ok(())
        } else {
            Err(SatelliteError::LaunchFailed)
        },
        Waited::Failed(error) => Err(SatelliteError::IoFailed(error)),
    }
}

} // verus!
