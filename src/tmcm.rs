//! TMCM modules other than TMCM-100 and Monopack 2.
use vstd::prelude::*;
use crate::axis_parameters::{AxisParameter, ReadableAxisParameter, WriteableAxisParameter};
use crate::command::Command;
use crate::instructions::{DirectInstruction, Instruction, Return};
use crate::interface::{interpret_reply, Error, Interface};

pub mod axis_parameters;
pub mod instructions;

verus! {

/// A TMCM module other than TMCM-100 and Monopack 2, reached through an
/// interface that other modules may share.
#[derive(Debug)]
pub struct TmcmModule<'a, IF: Interface> {
    /// The module address
    address: u8,
    interface: &'a IF,
}

impl<'a, IF: Interface> TmcmModule<'a, IF> {
    pub closed spec fn spec_address(&self) -> u8 {
        self.address
    }

    /// Create a new module
    pub fn new(interface: &'a IF, address: u8) -> (r: Self)
        ensures
            r.spec_address() == address,
    {
        TmcmModule { address, interface }
    }

    /// Returns the module address
    pub fn address(&self) -> (r: u8)
        ensures
            r == self.spec_address(),
    {
        self.address
    }

    /// Synchronously write a command and wait for the reply.
    ///
    /// A failure to send or receive comes back as `InterfaceError`, with no
    /// retry. What comes back otherwise is what `interpret_reply` makes of the
    /// reply.
    pub fn write_command<I: TmcmInstruction + DirectInstruction>(&self, instruction: I) -> (r: Result<
        I::Return,
        Error<IF::Error>,
    >)
        ensures
            r matches Ok(v) ==> exists|op: [u8; 4]| I::Return::spec_from_operand(op) == Some(v),
    {
        let command = Command::new(self.address, instruction);
        match self.interface.transmit_command(&command) {
            Ok(()) => {},
            Err(e) => return Err(Error::InterfaceError(e)),
        }
        match self.interface.receive_reply() {
            Ok(reply) => interpret_reply(&reply),
            Err(e) => Err(Error::InterfaceError(e)),
        }
    }
}

/// An `Instruction` useable with all TMCM modules other than TMCM-100 and Monopack 2.
pub trait TmcmInstruction: Instruction {

}

/// An `AxisParameter` useable with all TMCM modules other than TMCM-100 and Monopack 2.
pub trait TmcmAxisParameter: AxisParameter {

}

/// A `ReadableAxisParameter` useable with all TMCM modules other than TMCM-100 and Monopack 2.
pub trait ReadableTmcmAxisParameter: ReadableAxisParameter + TmcmAxisParameter {

}

/// A `WriteableAxisParameter` useable with all TMCM modules other than TMCM-100 and Monopack 2.
pub trait WriteableTmcmAxisParameter: WriteableAxisParameter + TmcmAxisParameter {

}

} // verus!
