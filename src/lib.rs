//! Binary command protocol (TMCL) for stepper-motor controller modules.
//!
//! - `codec`: native values to and from the four-byte operand.
//! - `status`: the status byte of a reply.
//! - `instructions`: the instruction model and the reply shapes.
//! - `axis_parameters`: parameter capabilities; `tmcm::axis_parameters`
//!   holds the catalog.
//! - `command`: the addressed and the bus frames, and reply parsing.
//! - `interface`: one request and its reply over a transport.
//! - `generic`, `tmcm`: the instruction sets of the module families.

pub mod axis_parameters;
pub mod codec;
pub mod command;
pub mod generic;
pub mod instructions;
pub mod interface;
pub mod status;
pub mod tmcm;
