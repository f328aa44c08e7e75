//! The failure taxonomy of the bridge, and the text each failure is
//! reported with.

use vstd::prelude::*;
use crate::text::decimal;
use crate::text::decimal_spec;

verus! {

/// The ways an operation on the bridge can fail.
#[derive(Debug, PartialEq, Eq)]
pub enum WrapperError {
    /// The child process could not be spawned or its streams not captured.
    SpawnFailed,
    /// The delivery channel's producer disappeared: the child died
    /// unexpectedly while a consumer was reading.
    BrokenPipe,
    /// A response line did not match the shape the protocol promises.
    ProtocolViolation,
    /// The child exited with the carried status code, or was terminated by a
    /// signal when no code is carried.
    ExitFailure(Option<i32>),
    /// A write to the child's input stream failed.
    IoFailure,
    /// The recovery path itself failed: the old child could not be put down
    /// or a replacement could not be brought up.
    RestartFailed,
}

/// The decimal rendering of `n`, with a leading minus sign when negative.
pub open spec fn signed_decimal_spec(n: int) -> Seq<char> {
    if n < 0 {
        "-"@ + decimal_spec(-n)
    } else {
        decimal_spec(n)
    }
}

/// The decimal rendering of `n`.
pub fn signed_decimal(n: i32) -> (r: String)
    ensures
        r@ == signed_decimal_spec(n as int),
{
    if n < 0 {
        let mag: u64 = (-(n as i64)) as u64;
        proof {
            reveal_strlit("-");
        }
        let s = String::from_str("-");
        let d = decimal(mag);
        s.concat(d.as_str())
    } else {
        decimal(n as u64)
    }
}

/// The descriptive text that `message` returns for `e`.
pub open spec fn message_spec(e: WrapperError) -> Seq<char> {
    match e {
        WrapperError::SpawnFailed => "failed to spawn the server process"@,
        WrapperError::BrokenPipe => "the stdout channel was closed unexpectedly"@,
        WrapperError::ProtocolViolation => "a response line did not have the expected shape"@,
        WrapperError::ExitFailure(Some(code)) => "the server process exited with status code "@
            + signed_decimal_spec(code as int),
        WrapperError::ExitFailure(None) => "the server process was terminated forcefully by a signal"@,
        WrapperError::IoFailure => "failed to write to the server process's stdin"@,
        WrapperError::RestartFailed => "failed to put down the old server process or bring up a new one"@,
    }
}

impl WrapperError {
    /// The descriptive text for this failure, for callers that surface it.
    pub fn message(&self) -> (r: String)
        ensures
            r@ == message_spec(*self),
    {
        match self {
            WrapperError::SpawnFailed => String::from_str("failed to spawn the server process"),
            WrapperError::BrokenPipe => String::from_str(
                "the stdout channel was closed unexpectedly",
            ),
            WrapperError::ProtocolViolation => String::from_str(
                "a response line did not have the expected shape",
            ),
            WrapperError::ExitFailure(Some(code)) => {
                let prefix = String::from_str("the server process exited with status code ");
                let d = signed_decimal(*code);
                prefix.concat(d.as_str())
            },
            WrapperError::ExitFailure(None) => String::from_str(
                "the server process was terminated forcefully by a signal",
            ),
            WrapperError::IoFailure => String::from_str(
                "failed to write to the server process's stdin",
            ),
            WrapperError::RestartFailed => String::from_str(
                "failed to put down the old server process or bring up a new one",
            ),
        }
    }
}

} // verus!
