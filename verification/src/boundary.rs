//! What the engine's caller tells the process that started it: one exit
//! code for each way in which reading, writing or transforming can fail.

use vstd::prelude::*;
use crate::algorithm::Direction;
use crate::error::EngineError;

verus! {

/// Exit code of a run that wrote its output.
pub const EXIT_SUCCESS: i32 = 0;

/// Exit code when the input file does not exist.
pub const ERROR_FILE_NOT_FOUND: i32 = 1;

/// Exit code when the input file may not be opened.
pub const ERROR_PERMISSION_DENIED: i32 = 2;

/// Exit code of every failure that has no code of its own.
pub const ERROR_UNKNOWN: i32 = 3;

/// Exit code when the output file cannot be created.
pub const ERROR_CREATE_FILE_FAIL: i32 = 4;

/// Exit code when the input file cannot be read to its end.
pub const ERROR_READ_FILE: i32 = 5;

/// Exit code when the output cannot be written.
pub const ERROR_WRITE_TO_FILE: i32 = 7;

/// The ways in which the file boundary fails.
#[derive(Clone, Copy, Debug, PartialEq, Eq, Structural)]
pub enum IoFailure {
    /// The file to open does not exist.
    NotFound,
    /// The file to open is not ours to open.
    PermissionDenied,
    /// The file could not be opened, for another reason.
    Other,
    /// The file was opened and could not be read.
    ReadFailed,
    /// The file to write could not be created.
    CreateFailed,
    /// The bytes could not be written.
    WriteFailed,
    /// The bytes were written and could not be flushed.
    FlushFailed,
}

/// Why a run ended without an output: at the file boundary, or in the
/// engine.
#[derive(Clone, Copy, Debug, PartialEq, Eq, Structural)]
pub enum Failure {
    Io(IoFailure),
    Engine(EngineError),
}

impl IoFailure {
    /// The exit code of this failure.
    pub open spec fn spec_exit_code(self) -> i32 {
        match self {
            IoFailure::NotFound => 1,
            IoFailure::PermissionDenied => 2,
            IoFailure::Other => 3,
            IoFailure::ReadFailed => 5,
            IoFailure::CreateFailed => 4,
            IoFailure::WriteFailed => 7,
            IoFailure::FlushFailed => 3,
        }
    }

    /// True of the failures that have an exit code of their own.
    pub open spec fn has_own_code(self) -> bool {
        self != IoFailure::Other && self != IoFailure::FlushFailed
    }

    /// The exit code of this failure.
    pub fn exit_code(&self) -> (code: i32)
        ensures
            code == self.spec_exit_code(),
    {
        match self {
            IoFailure::NotFound => ERROR_FILE_NOT_FOUND,
            IoFailure::PermissionDenied => ERROR_PERMISSION_DENIED,
            IoFailure::Other => ERROR_UNKNOWN,
            IoFailure::ReadFailed => ERROR_READ_FILE,
            IoFailure::CreateFailed => ERROR_CREATE_FILE_FAIL,
            IoFailure::WriteFailed => ERROR_WRITE_TO_FILE,
            IoFailure::FlushFailed => ERROR_UNKNOWN,
        }
    }
}

/// The exit code of a run: zero for success, the file boundary's code for
/// its failures, and the code for the unknown for an error of the engine.
pub open spec fn spec_exit_code(outcome: Result<(), Failure>) -> i32 {
    match outcome {
        Ok(_) => 0,
        Err(Failure::Io(failure)) => failure.spec_exit_code(),
        Err(Failure::Engine(_)) => 3,
    }
}

/// The exit code of a run.
pub fn exit_code(outcome: &Result<(), Failure>) -> (code: i32)
    ensures
        code == spec_exit_code(*outcome),
        code == 0 <==> outcome is Ok,
{
    match outcome {
        Ok(_) => EXIT_SUCCESS,
        Err(Failure::Io(failure)) => failure.exit_code(),
        Err(Failure::Engine(_)) => ERROR_UNKNOWN,
    }
}

/// Failures with a code of their own are told apart by it, and from the
/// unknown.
pub proof fn lemma_own_codes_differ(a: IoFailure, b: IoFailure)
    requires
        a.has_own_code(),
        a != b,
    ensures
        a.spec_exit_code() != b.spec_exit_code(),
        a.spec_exit_code() != 3,
        a.spec_exit_code() != 0,
{
}

/// What is appended to the input's path to name the file of a generated
/// key.
pub fn key_suffix() -> (suffix: &'static str)
    ensures
        suffix@ == "_key"@,
{
    "_key"
}

impl Direction {
    /// What is appended to the input's path where no output path is given.
    pub fn output_suffix(self) -> (suffix: &'static str)
        ensures
            self == Direction::Encrypt ==> suffix@ == "_encrypted"@,
            self == Direction::Decrypt ==> suffix@ == "_decrypted"@,
    {
        match self {
            Direction::Encrypt => "_encrypted",
            Direction::Decrypt => "_decrypted",
        }
    }
}

} // verus!
