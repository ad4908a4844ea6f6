use vstd::prelude::*;

verus! {

/// The status with which the light answers a request it does not carry out.
#[derive(Clone, Copy, Debug, PartialEq, Eq, Structural)]
pub enum ErrorCode {
    /// The command is not supported by this light.
    InvalidCommand,
    /// The LED driver could not take the command now.
    Busy,
}

} // verus!
