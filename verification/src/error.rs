//! Exit codes and errors.

use vstd::prelude::*;

verus! {

/// The exit codes that the actor returns to the host.
#[allow(non_camel_case_types)]
#[derive(Clone, Copy, Debug, PartialEq, Eq, Structural)]
pub enum ExitCode {
    /// The call was carried out.
    OK,
    /// An argument of the call is not acceptable.
    USR_ILLEGAL_ARGUMENT,
    /// The caller may not make this call.
    USR_FORBIDDEN,
    /// The call does not fit the state of the subnet, or the state could not be read or written.
    USR_ILLEGAL_STATE,
    /// Parameters or state could not be encoded or decoded.
    USR_SERIALIZATION,
    /// The method number is not one of the actor's.
    USR_UNHANDLED_MESSAGE,
}

impl ExitCode {
    /// The number by which the host knows the exit code.
    pub open spec fn spec_value(self) -> u32 {
        match self {
            ExitCode::OK => 0,
            ExitCode::USR_ILLEGAL_ARGUMENT => 16,
            ExitCode::USR_FORBIDDEN => 18,
            ExitCode::USR_ILLEGAL_STATE => 20,
            ExitCode::USR_SERIALIZATION => 21,
            ExitCode::USR_UNHANDLED_MESSAGE => 22,
        }
    }

    /// The number by which the host knows the exit code.
    #[verifier::when_used_as_spec(spec_value)]
    pub fn value(self) -> (n: u32)
        ensures
            n == self.spec_value(),
    {
        match self {
            ExitCode::OK => 0,
            ExitCode::USR_ILLEGAL_ARGUMENT => 16,
            ExitCode::USR_FORBIDDEN => 18,
            ExitCode::USR_ILLEGAL_STATE => 20,
            ExitCode::USR_SERIALIZATION => 21,
            ExitCode::USR_UNHANDLED_MESSAGE => 22,
        }
    }

    /// The exit code of a number, if it is one that the actor uses.
    pub fn from_value(n: u32) -> (r: Option<ExitCode>)
        ensures
            match r {
                Some(c) => c.spec_value() == n,
                None => forall|c: ExitCode| c.spec_value() != n,
            },
    {
        if n == 0 {
            Some(ExitCode::OK)
        } else if n == 16 {
            Some(ExitCode::USR_ILLEGAL_ARGUMENT)
        } else if n == 18 {
            Some(ExitCode::USR_FORBIDDEN)
        } else if n == 20 {
            Some(ExitCode::USR_ILLEGAL_STATE)
        } else if n == 21 {
            Some(ExitCode::USR_SERIALIZATION)
        } else if n == 22 {
            Some(ExitCode::USR_UNHANDLED_MESSAGE)
        } else {
            None
        }
    }
}

/// Why an operation on the state failed.
#[derive(Clone, Copy, Debug, PartialEq, Eq, Structural)]
pub enum StateError {
    /// The stake table could not be read or written.
    Store,
    /// The address holds less stake than was asked for.
    InsufficientStake,
    /// The checkpoint does not pass verification.
    InvalidCheckpoint,
}

/// An error that aborts a call: the exit code for the host and a short message.
#[derive(Clone, Debug, PartialEq, Eq)]
pub struct ActorError {
    pub exit_code: ExitCode,
    pub msg: String,
}

/// What an error is to the contracts.
pub struct ErrorView {
    pub exit_code: ExitCode,
    pub msg: Seq<char>,
}

impl View for ActorError {
    type V = ErrorView;

    open spec fn view(&self) -> ErrorView {
        ErrorView { exit_code: self.exit_code, msg: self.msg@ }
    }
}

/// The error with the given exit code and message.
pub open spec fn failure(exit_code: ExitCode, msg: &str) -> ErrorView {
    ErrorView { exit_code, msg: msg@ }
}

/// The error of a call that the stake table has failed.
pub open spec fn store_failure() -> ErrorView {
    failure(ExitCode::USR_ILLEGAL_STATE, "failed to load subnet")
}

impl ActorError {
    pub fn new(exit_code: ExitCode, msg: &str) -> (e: ActorError)
        ensures
            e.exit_code == exit_code,
            e.msg@ == msg@,
    {
        ActorError { exit_code, msg: msg.to_string() }
    }

    pub fn illegal_argument(msg: &str) -> (e: ActorError)
        ensures
            e.exit_code == ExitCode::USR_ILLEGAL_ARGUMENT,
            e.msg@ == msg@,
    {
        ActorError::new(ExitCode::USR_ILLEGAL_ARGUMENT, msg)
    }

    pub fn forbidden(msg: &str) -> (e: ActorError)
        ensures
            e.exit_code == ExitCode::USR_FORBIDDEN,
            e.msg@ == msg@,
    {
        ActorError::new(ExitCode::USR_FORBIDDEN, msg)
    }

    pub fn illegal_state(msg: &str) -> (e: ActorError)
        ensures
            e.exit_code == ExitCode::USR_ILLEGAL_STATE,
            e.msg@ == msg@,
    {
        ActorError::new(ExitCode::USR_ILLEGAL_STATE, msg)
    }

    pub fn serialization(msg: &str) -> (e: ActorError)
        ensures
            e.exit_code == ExitCode::USR_SERIALIZATION,
            e.msg@ == msg@,
    {
        ActorError::new(ExitCode::USR_SERIALIZATION, msg)
    }

    pub fn unhandled_message(msg: &str) -> (e: ActorError)
        ensures
            e.exit_code == ExitCode::USR_UNHANDLED_MESSAGE,
            e.msg@ == msg@,
    {
        ActorError::new(ExitCode::USR_UNHANDLED_MESSAGE, msg)
    }

    /// The exit code of the error.
    pub fn exit_code(&self) -> (c: ExitCode)
        ensures
            c == self.exit_code,
    {
        self.exit_code
    }

    /// The message of the error.
    pub fn msg(&self) -> (m: &str)
        ensures
            m@ == self.msg@,
    {
        self.msg.as_str()
    }
}

} // verus!
