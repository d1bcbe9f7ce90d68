use vstd::prelude::*;

verus! {

/// The error kinds the transport and the driver report. `NoDevice` and `Busy`
/// are the two the client interprets; `NotSupported` is passed through
/// opaquely when a driver refuses a command selector it does not know.
#[derive(Clone, Copy, Debug, PartialEq, Eq, Structural)]
pub enum ErrorCode {
    /// No driver is registered under the requested resource number.
    NoDevice,
    /// A measurement is already outstanding.
    Busy,
    /// The driver does not understand the requested command selector.
    NotSupported,
}

/// What a command call hands back: plain success, or a failure code.
#[derive(Clone, Copy, Debug, PartialEq, Eq, Structural)]
pub enum CommandReturn {
    Success,
    Failure(ErrorCode),
}

/// The command return collapsed into a plain result, the shape the client
/// operations surface to the application.
pub open spec fn result_of_command(c: CommandReturn) -> Result<(), ErrorCode> {
    match c {
        CommandReturn::Success => Ok(()),
        CommandReturn::Failure(e) => Err(e),
    }
}

impl CommandReturn {
    /// True exactly when the command succeeded.
    pub fn is_success(&self) -> (r: bool)
        ensures
            r == (*self is Success),
    {
        match self {
            CommandReturn::Success => true,
            CommandReturn::Failure(_) => false,
        }
    }

    /// The failure code when the command failed, and nothing otherwise.
    pub fn get_failure(&self) -> (r: Option<ErrorCode>)
        ensures
            *self is Success ==> r is None,
            *self matches CommandReturn::Failure(e) ==> r == Some(e),
    {
        match self {
            CommandReturn::Success => None,
            CommandReturn::Failure(e) => Some(*e),
        }
    }

    /// Collapses the command return into a plain result.
    pub fn to_result(&self) -> (r: Result<(), ErrorCode>)
        ensures
            r == result_of_command(*self),
    {
        match self {
            CommandReturn::Success => Ok(()),
            CommandReturn::Failure(e) => Err(*e),
        }
    }
}

} // verus!
