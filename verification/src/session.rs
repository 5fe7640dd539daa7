//! What a serial session tells the application, and how it fails.

use vstd::prelude::*;
use vstd::string::StringExecFns;
use crate::text::{decimal, i32_to_decimal};

verus! {

/// Something the session reports of itself.
#[derive(Clone, Debug)]
pub struct SessionEvent {
    pub code: i32,
    pub message: String,
}

impl SessionEvent {
    /// The event as one line: its code, a colon and a space, and its
    /// message.
    pub open spec fn line_text(self) -> Seq<char> {
        decimal(self.code as int) + ": "@ + self.message@
    }

    /// The event as one line.
    pub fn describe(&self) -> (line: String)
        ensures
            line@ == self.line_text(),
    {
        let mut line = i32_to_decimal(self.code);
        line.append(": ");
        line.append(self.message.as_str());
        line
    }
}

/// What arrives from a session.
#[derive(Clone, Debug)]
pub enum SessionMessage {
    /// Bytes that the device sent.
    Data(Vec<u8>),
    /// A report of the session.
    Event(SessionEvent),
}

/// Why a session failed.
#[derive(Clone, Copy, Debug, PartialEq, Eq, Structural)]
pub enum SessionError {
    /// The port could not be opened; the driver's code.
    Open(i32),
    /// The port took no configuration; the driver's code.
    Configure(i32),
    /// The port did not start; the driver's code.
    Start(i32),
    /// The port took no data; the driver's code.
    Write(i32),
    /// The port took fewer bytes than it was given.
    Truncated,
}

impl SessionError {
    /// The error in words.
    pub open spec fn message_text(self) -> Seq<char> {
        match self {
            SessionError::Open(code) => "open failed with code "@ + decimal(code as int),
            SessionError::Configure(code) => "configuration failed with code "@ + decimal(
                code as int,
            ),
            SessionError::Start(code) => "start failed with code "@ + decimal(code as int),
            SessionError::Write(code) => "write failed with code "@ + decimal(code as int),
            SessionError::Truncated => "write truncated"@,
        }
    }

    /// The error in words.
    pub fn message(&self) -> (message: String)
        ensures
            message@ == self.message_text(),
    {
        match self {
            SessionError::Open(code) => with_code("open failed with code ", *code),
            SessionError::Configure(code) => with_code("configuration failed with code ", *code),
            SessionError::Start(code) => with_code("start failed with code ", *code),
            SessionError::Write(code) => with_code("write failed with code ", *code),
            SessionError::Truncated => String::from_str("write truncated"),
        }
    }
}

fn with_code(lead: &str, code: i32) -> (message: String)
    ensures
        message@ == lead@ + decimal(code as int),
{
    let mut message = String::from_str(lead);
    let number = i32_to_decimal(code);
    message.append(number.as_str());
    message
}

/// The phase of opening a session in which the port answered.
#[derive(Clone, Copy, Debug, PartialEq, Eq, Structural)]
pub enum OpenStep {
    Open,
    Configure,
    Start,
}

/// What the code `code`, which the port answered in the phase `step`, means
/// for opening a session: zero lets it go on, any other code fails it with
/// the error of that phase.
pub fn check_step(step: OpenStep, code: i32) -> (outcome: Result<(), SessionError>)
    ensures
        code == 0 ==> outcome is Ok,
        code != 0 ==> outcome == Err::<(), SessionError>(
            match step {
                OpenStep::Open => SessionError::Open(code),
                OpenStep::Configure => SessionError::Configure(code),
                OpenStep::Start => SessionError::Start(code),
            },
        ),
{
    if code == 0 {
        Ok(())
    } else {
        Err(
            match step {
                OpenStep::Open => SessionError::Open(code),
                OpenStep::Configure => SessionError::Configure(code),
                OpenStep::Start => SessionError::Start(code),
            },
        )
    }
}

/// What the answer `written` of the port means for a write of `length`
/// bytes: the write holds when the port took all of them, is truncated when
/// it took another number, and fails with the driver's code when the port
/// failed.
pub fn check_write(written: Result<usize, i32>, length: usize) -> (outcome: Result<
    (),
    SessionError,
>)
    ensures
        outcome == (match written {
            Ok(count) => if count == length {
                Ok::<(), SessionError>(())
            } else {
                Err::<(), SessionError>(SessionError::Truncated)
            },
            Err(code) => Err::<(), SessionError>(SessionError::Write(code)),
        }),
{
    match written {
        Ok(count) => if count != length {
            Err(SessionError::Truncated)
        } else {
            Ok(())
        },
        Err(code) => Err(SessionError::Write(code)),
    }
}

} // verus!
