//! One request and its reply over a transport.
use vstd::prelude::*;
use crate::command::{Command, Reply};
use crate::instructions::{Instruction, Return};
use crate::status::ErrStatus;

verus! {

/// An interface to a TMCM module
///
/// Can be RS232, RS485, CAN or I2C. Each implementation owns the framing of
/// its medium; callers sharing one interface take turns, one command and its
/// reply at a time.
pub trait Interface {
    type Error;

    /// Sends one command.
    fn transmit_command<T: Instruction>(&self, command: &Command<T>) -> Result<(), Self::Error>;

    /// Waits for one reply and reads it.
    fn receive_reply(&self) -> Result<Reply, Self::Error>;
}

/// Why a command did not yield its result.
#[derive(Debug, PartialEq, Eq, Clone, Copy)]
pub enum Error<E> {
    /// The interface failed to send or to receive.
    InterfaceError(E),
    /// The module rejected the command.
    ProtocolError(ErrStatus),
    /// The module reported success with an operand that stands for no value
    /// of the expected type.
    InvalidOperand,
}

/// What a reply yields: the decoded operand where the module reports
/// success, its error status where it does not.
pub open spec fn spec_reply_result<R: Return, E>(reply: Reply) -> Result<R, Error<E>> {
    match reply.status.0 {
        Ok(_) => match R::spec_from_operand(reply.operand) {
            Some(v) => Ok(v),
            None => Err(Error::InvalidOperand),
        },
        Err(e) => Err(Error::ProtocolError(e)),
    }
}

/// Reads the result out of a reply. The operand is read only where the
/// status reports success.
pub fn interpret_reply<R: Return, E>(reply: &Reply) -> (r: Result<R, Error<E>>)
    ensures
        r == spec_reply_result::<R, E>(*reply),
{
    match reply.status.0 {
        Ok(_) => match R::from_operand(reply.operand) {
            Some(v) => Ok(v),
            None => Err(Error::InvalidOperand),
        },
        Err(e) => Err(Error::ProtocolError(e)),
    }
}

} // verus!
