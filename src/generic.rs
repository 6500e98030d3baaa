//! `Instruction`s available for the generic TMCM module: the axis parameter
//! instructions take a bare parameter number.
use vstd::prelude::*;
use crate::instructions::{spec_zero_operand, zero_operand, DirectInstruction, Instruction};

pub use crate::instructions::{CalcOperation, MoveOperation, ReferenceSearchAction, CALC, GIO, MST, MVP, RFS, ROL, ROR, SIO};

verus! {

/// SAP - Set Axis Parameter
///
/// Most parameters of a TMCM module can be adjusted individually for each axis.
/// Although these parameters vary widely in their formats (1 to 24 bits, signed or unsigned)
/// and physical locations, they all can be set by this function.
#[derive(Debug, PartialEq, Eq, Clone, Copy)]
pub struct SAP {
    pub motor_number: u8,
    pub parameter_number: u8,
    pub operand: [u8; 4],
}

impl SAP {
    pub fn new(motor_number: u8, parameter_number: u8, operand: [u8; 4]) -> (r: SAP)
        ensures
            r.motor_number == motor_number,
            r.parameter_number == parameter_number,
            r.operand == operand,
    {
        SAP { motor_number, parameter_number, operand }
    }
}

impl Instruction for SAP {
    open spec fn spec_instruction_number() -> u8 {
        5
    }

    open spec fn spec_type_number(&self) -> u8 {
        self.parameter_number
    }

    open spec fn spec_motor_bank_number(&self) -> u8 {
        self.motor_number
    }

    open spec fn spec_operand(&self) -> Seq<u8> {
        self.operand@
    }

    fn instruction_number() -> (r: u8) {
        5
    }

    fn type_number(&self) -> (r: u8) {
        self.parameter_number
    }

    fn motor_bank_number(&self) -> (r: u8) {
        self.motor_number
    }

    fn operand(&self) -> (r: [u8; 4]) {
        self.operand
    }
}

impl DirectInstruction for SAP {
    type Return = ();
}

/// GAP - Get Axis Parameter
///
/// Reads one parameter of one axis; the reply operand is handed back as it is.
#[derive(Debug, PartialEq, Eq, Structural, Clone, Copy)]
pub struct GAP {
    pub motor_number: u8,
    pub parameter_number: u8,
}

impl GAP {
    pub fn new(motor_number: u8, parameter_number: u8) -> (r: GAP)
        ensures
            r == (GAP { motor_number, parameter_number }),
    {
        GAP { motor_number, parameter_number }
    }
}

impl Instruction for GAP {
    open spec fn spec_instruction_number() -> u8 {
        6
    }

    open spec fn spec_type_number(&self) -> u8 {
        self.parameter_number
    }

    open spec fn spec_motor_bank_number(&self) -> u8 {
        self.motor_number
    }

    open spec fn spec_operand(&self) -> Seq<u8> {
        spec_zero_operand()
    }

    fn instruction_number() -> (r: u8) {
        6
    }

    fn type_number(&self) -> (r: u8) {
        self.parameter_number
    }

    fn motor_bank_number(&self) -> (r: u8) {
        self.motor_number
    }

    fn operand(&self) -> (r: [u8; 4]) {
        zero_operand()
    }
}

impl DirectInstruction for GAP {
    type Return = [u8; 4];
}

/// STAP - Store Axis Parameter
///
/// Axis parameters are located in RAM memory, so modifications are lost at power down.
/// This instruction enables permanent storing.
#[derive(Debug, PartialEq, Eq, Structural, Clone, Copy)]
pub struct STAP {
    pub motor_number: u8,
    pub parameter_number: u8,
}

impl STAP {
    pub fn new(motor_number: u8, parameter_number: u8) -> (r: STAP)
        ensures
            r == (STAP { motor_number, parameter_number }),
    {
        STAP { motor_number, parameter_number }
    }
}

impl Instruction for STAP {
    open spec fn spec_instruction_number() -> u8 {
        7
    }

    open spec fn spec_type_number(&self) -> u8 {
        self.parameter_number
    }

    open spec fn spec_motor_bank_number(&self) -> u8 {
        self.motor_number
    }

    open spec fn spec_operand(&self) -> Seq<u8> {
        spec_zero_operand()
    }

    fn instruction_number() -> (r: u8) {
        7
    }

    fn type_number(&self) -> (r: u8) {
        self.parameter_number
    }

    fn motor_bank_number(&self) -> (r: u8) {
        self.motor_number
    }

    fn operand(&self) -> (r: [u8; 4]) {
        zero_operand()
    }
}

impl DirectInstruction for STAP {
    type Return = ();
}

/// RSAP - Restore Axis Parameter
///
/// Resets one parameter of one axis to the value kept in non-volatile memory.
#[derive(Debug, PartialEq, Eq, Structural, Clone, Copy)]
pub struct RSAP {
    pub motor_number: u8,
    pub parameter_number: u8,
}

impl RSAP {
    pub fn new(motor_number: u8, parameter_number: u8) -> (r: RSAP)
        ensures
            r == (RSAP { motor_number, parameter_number }),
    {
        RSAP { motor_number, parameter_number }
    }
}

impl Instruction for RSAP {
    open spec fn spec_instruction_number() -> u8 {
        8
    }

    open spec fn spec_type_number(&self) -> u8 {
        self.parameter_number
    }

    open spec fn spec_motor_bank_number(&self) -> u8 {
        self.motor_number
    }

    open spec fn spec_operand(&self) -> Seq<u8> {
        spec_zero_operand()
    }

    fn instruction_number() -> (r: u8) {
        8
    }

    fn type_number(&self) -> (r: u8) {
        self.parameter_number
    }

    fn motor_bank_number(&self) -> (r: u8) {
        self.motor_number
    }

    fn operand(&self) -> (r: [u8; 4]) {
        zero_operand()
    }
}

impl DirectInstruction for RSAP {
    type Return = ();
}

} // verus!
