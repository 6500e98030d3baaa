//! The instruction model: what every instruction puts on the wire, and how
//! the operand of a successful reply is read back.
use vstd::prelude::*;
use core::marker::PhantomData;
use crate::axis_parameters::{ReadableAxisParameter, WriteableAxisParameter};
use crate::codec::{
    decode_u32, encode_bool, encode_i32, encode_u32, spec_bytes_u32, spec_encode_bool, spec_encode_i32,
    spec_u32_bytes,
};

verus! {

/// One verb of the command set.
///
/// The instruction number is fixed per type; type number, motor or bank
/// number and operand belong to the value.
pub trait Instruction {
    spec fn spec_instruction_number() -> u8;

    spec fn spec_type_number(&self) -> u8;

    spec fn spec_motor_bank_number(&self) -> u8;

    /// The four operand bytes, most significant first.
    spec fn spec_operand(&self) -> Seq<u8>;

    fn instruction_number() -> (r: u8)
        ensures
            r == Self::spec_instruction_number(),
    ;

    fn type_number(&self) -> (r: u8)
        ensures
            r == self.spec_type_number(),
    ;

    fn motor_bank_number(&self) -> (r: u8)
        ensures
            r == self.spec_motor_bank_number(),
    ;

    fn operand(&self) -> (r: [u8; 4])
        ensures
            r@ == self.spec_operand(),
    ;
}

/// A value read from the operand of a successful reply.
pub trait Return: Sized {
    /// The value that `op` stands for, or `None` where it stands for none.
    spec fn spec_from_operand(op: [u8; 4]) -> Option<Self>;

    fn from_operand(op: [u8; 4]) -> (r: Option<Self>)
        ensures
            r == Self::spec_from_operand(op),
    ;
}

/// An instruction that a module carries out directly, with the shape of
/// its reply.
pub trait DirectInstruction: Instruction {
    type Return: Return;
}

impl Return for () {
    open spec fn spec_from_operand(op: [u8; 4]) -> Option<()> {
        Some(())
    }

    fn from_operand(op: [u8; 4]) -> (r: Option<()>) {
        Some(())
    }
}

impl Return for [u8; 4] {
    open spec fn spec_from_operand(op: [u8; 4]) -> Option<[u8; 4]> {
        Some(op)
    }

    fn from_operand(op: [u8; 4]) -> (r: Option<[u8; 4]>) {
        Some(op)
    }
}

impl Return for u32 {
    open spec fn spec_from_operand(op: [u8; 4]) -> Option<u32> {
        Some(spec_bytes_u32(op@))
    }

    fn from_operand(op: [u8; 4]) -> (r: Option<u32>) {
        Some(decode_u32(op))
    }
}

const ZERO_OPERAND: [u8; 4] = [0u8, 0u8, 0u8, 0u8];

/// Four zero bytes.
pub open spec fn spec_zero_operand() -> Seq<u8> {
    seq![0u8, 0u8, 0u8, 0u8]
}

pub fn zero_operand() -> (r: [u8; 4])
    ensures
        r@ == spec_zero_operand(),
{
    let r = ZERO_OPERAND;
    assert(r@ =~= spec_zero_operand());
    r
}

/// ROR - Rotate right with the given velocity.
#[derive(Debug, PartialEq, Eq, Structural, Clone, Copy)]
pub struct ROR {
    pub motor_number: u8,
    pub velocity: u32,
}

impl ROR {
    pub fn new(motor_number: u8, velocity: u32) -> (r: ROR)
        ensures
            r == (ROR { motor_number, velocity }),
    {
        ROR { motor_number, velocity }
    }
}

impl Instruction for ROR {
    open spec fn spec_instruction_number() -> u8 {
        1
    }

    open spec fn spec_type_number(&self) -> u8 {
        0
    }

    open spec fn spec_motor_bank_number(&self) -> u8 {
        self.motor_number
    }

    open spec fn spec_operand(&self) -> Seq<u8> {
        spec_u32_bytes(self.velocity)
    }

    fn instruction_number() -> (r: u8) {
        1
    }

    fn type_number(&self) -> (r: u8) {
        0
    }

    fn motor_bank_number(&self) -> (r: u8) {
        self.motor_number
    }

    fn operand(&self) -> (r: [u8; 4]) {
        encode_u32(self.velocity)
    }
}

impl DirectInstruction for ROR {
    type Return = ();
}

/// ROL - Rotate left with the given velocity.
#[derive(Debug, PartialEq, Eq, Structural, Clone, Copy)]
pub struct ROL {
    pub motor_number: u8,
    pub velocity: u32,
}

impl ROL {
    pub fn new(motor_number: u8, velocity: u32) -> (r: ROL)
        ensures
            r == (ROL { motor_number, velocity }),
    {
        ROL { motor_number, velocity }
    }
}

impl Instruction for ROL {
    open spec fn spec_instruction_number() -> u8 {
        2
    }

    open spec fn spec_type_number(&self) -> u8 {
        0
    }

    open spec fn spec_motor_bank_number(&self) -> u8 {
        self.motor_number
    }

    open spec fn spec_operand(&self) -> Seq<u8> {
        spec_u32_bytes(self.velocity)
    }

    fn instruction_number() -> (r: u8) {
        2
    }

    fn type_number(&self) -> (r: u8) {
        0
    }

    fn motor_bank_number(&self) -> (r: u8) {
        self.motor_number
    }

    fn operand(&self) -> (r: [u8; 4]) {
        encode_u32(self.velocity)
    }
}

impl DirectInstruction for ROL {
    type Return = ();
}

/// MST - Motor stop.
#[derive(Debug, PartialEq, Eq, Structural, Clone, Copy)]
pub struct MST {
    pub motor_number: u8,
}

impl MST {
    pub fn new(motor_number: u8) -> (r: MST)
        ensures
            r == (MST { motor_number }),
    {
        MST { motor_number }
    }
}

impl Instruction for MST {
    open spec fn spec_instruction_number() -> u8 {
        3
    }

    open spec fn spec_type_number(&self) -> u8 {
        0
    }

    open spec fn spec_motor_bank_number(&self) -> u8 {
        self.motor_number
    }

    open spec fn spec_operand(&self) -> Seq<u8> {
        spec_zero_operand()
    }

    fn instruction_number() -> (r: u8) {
        3
    }

    fn type_number(&self) -> (r: u8) {
        0
    }

    fn motor_bank_number(&self) -> (r: u8) {
        self.motor_number
    }

    fn operand(&self) -> (r: [u8; 4]) {
        zero_operand()
    }
}

impl DirectInstruction for MST {
    type Return = ();
}

/// The target of a move.
#[derive(Debug, PartialEq, Eq, Structural, Clone, Copy)]
pub enum MoveOperation {
    /// Move to an absolute position.
    Absolute(i32),
    /// Move by an offset from the actual position.
    Relative(i32),
    /// Move to a stored coordinate.
    Coordinate(u32),
}

/// MVP - Move to position.
#[derive(Debug, PartialEq, Eq, Structural, Clone, Copy)]
pub struct MVP {
    pub motor_number: u8,
    pub value: MoveOperation,
}

impl MVP {
    pub fn new(motor_number: u8, value: MoveOperation) -> (r: MVP)
        ensures
            r == (MVP { motor_number, value }),
    {
        MVP { motor_number, value }
    }
}

impl Instruction for MVP {
    open spec fn spec_instruction_number() -> u8 {
        4
    }

    open spec fn spec_type_number(&self) -> u8 {
        match self.value {
            MoveOperation::Absolute(_) => 0,
            MoveOperation::Relative(_) => 1,
            MoveOperation::Coordinate(_) => 2,
        }
    }

    open spec fn spec_motor_bank_number(&self) -> u8 {
        self.motor_number
    }

    open spec fn spec_operand(&self) -> Seq<u8> {
        match self.value {
            MoveOperation::Absolute(v) => spec_encode_i32(v),
            MoveOperation::Relative(v) => spec_encode_i32(v),
            MoveOperation::Coordinate(v) => spec_u32_bytes(v),
        }
    }

    fn instruction_number() -> (r: u8) {
        4
    }

    fn type_number(&self) -> (r: u8) {
        match self.value {
            MoveOperation::Absolute(_) => 0,
            MoveOperation::Relative(_) => 1,
            MoveOperation::Coordinate(_) => 2,
        }
    }

    fn motor_bank_number(&self) -> (r: u8) {
        self.motor_number
    }

    fn operand(&self) -> (r: [u8; 4]) {
        match self.value {
            MoveOperation::Absolute(v) => encode_i32(v),
            MoveOperation::Relative(v) => encode_i32(v),
            MoveOperation::Coordinate(v) => encode_u32(v),
        }
    }
}

impl DirectInstruction for MVP {
    type Return = ();
}

/// What a reference search instruction asks for.
#[derive(Debug, PartialEq, Eq, Structural, Clone, Copy)]
pub enum ReferenceSearchAction {
    Start,
    Stop,
    /// Ask whether the search still runs: the reply operand is zero once it
    /// has ended.
    Status,
}

/// RFS - Reference search.
#[derive(Debug, PartialEq, Eq, Structural, Clone, Copy)]
pub struct RFS {
    pub motor_number: u8,
    pub action: ReferenceSearchAction,
}

impl RFS {
    pub fn new(motor_number: u8, action: ReferenceSearchAction) -> (r: RFS)
        ensures
            r == (RFS { motor_number, action }),
    {
        RFS { motor_number, action }
    }
}

impl Instruction for RFS {
    open spec fn spec_instruction_number() -> u8 {
        13
    }

    open spec fn spec_type_number(&self) -> u8 {
        match self.action {
            ReferenceSearchAction::Start => 0,
            ReferenceSearchAction::Stop => 1,
            ReferenceSearchAction::Status => 2,
        }
    }

    open spec fn spec_motor_bank_number(&self) -> u8 {
        self.motor_number
    }

    open spec fn spec_operand(&self) -> Seq<u8> {
        spec_zero_operand()
    }

    fn instruction_number() -> (r: u8) {
        13
    }

    fn type_number(&self) -> (r: u8) {
        match self.action {
            ReferenceSearchAction::Start => 0,
            ReferenceSearchAction::Stop => 1,
            ReferenceSearchAction::Status => 2,
        }
    }

    fn motor_bank_number(&self) -> (r: u8) {
        self.motor_number
    }

    fn operand(&self) -> (r: [u8; 4]) {
        zero_operand()
    }
}

impl DirectInstruction for RFS {
    type Return = u32;
}

/// SIO - Set output: drives an output port of a bank high or low.
#[derive(Debug, PartialEq, Eq, Structural, Clone, Copy)]
pub struct SIO {
    pub port_number: u8,
    pub bank_number: u8,
    pub state: bool,
}

impl SIO {
    pub fn new(port_number: u8, bank_number: u8, state: bool) -> (r: SIO)
        ensures
            r == (SIO { port_number, bank_number, state }),
    {
        SIO { port_number, bank_number, state }
    }
}

impl Instruction for SIO {
    open spec fn spec_instruction_number() -> u8 {
        14
    }

    open spec fn spec_type_number(&self) -> u8 {
        self.port_number
    }

    open spec fn spec_motor_bank_number(&self) -> u8 {
        self.bank_number
    }

    open spec fn spec_operand(&self) -> Seq<u8> {
        spec_encode_bool(self.state)
    }

    fn instruction_number() -> (r: u8) {
        14
    }

    fn type_number(&self) -> (r: u8) {
        self.port_number
    }

    fn motor_bank_number(&self) -> (r: u8) {
        self.bank_number
    }

    fn operand(&self) -> (r: [u8; 4]) {
        encode_bool(self.state)
    }
}

impl DirectInstruction for SIO {
    type Return = ();
}

/// GIO - Get input or output: reads a port of a bank.
#[derive(Debug, PartialEq, Eq, Structural, Clone, Copy)]
pub struct GIO {
    pub port_number: u8,
    pub bank_number: u8,
}

impl GIO {
    pub fn new(port_number: u8, bank_number: u8) -> (r: GIO)
        ensures
            r == (GIO { port_number, bank_number }),
    {
        GIO { port_number, bank_number }
    }
}

impl Instruction for GIO {
    open spec fn spec_instruction_number() -> u8 {
        15
    }

    open spec fn spec_type_number(&self) -> u8 {
        self.port_number
    }

    open spec fn spec_motor_bank_number(&self) -> u8 {
        self.bank_number
    }

    open spec fn spec_operand(&self) -> Seq<u8> {
        spec_zero_operand()
    }

    fn instruction_number() -> (r: u8) {
        15
    }

    fn type_number(&self) -> (r: u8) {
        self.port_number
    }

    fn motor_bank_number(&self) -> (r: u8) {
        self.bank_number
    }

    fn operand(&self) -> (r: [u8; 4]) {
        zero_operand()
    }
}

impl DirectInstruction for GIO {
    type Return = u32;
}

/// An arithmetic operation on the accumulator of a module.
#[derive(Debug, PartialEq, Eq, Structural, Clone, Copy)]
pub enum CalcOperation {
    /// Add the value to the accumulator
    Add,
    /// Subtract the value from the accumulator
    Sub,
    /// Multiply the accumulator by the value
    Mul,
    /// Divide the accumulator by the value
    Div,
    /// Take the accumulator modulo the value
    Mod,
    /// Bitwise and of the accumulator and the value
    And,
    /// Bitwise or of the accumulator and the value
    Or,
    /// Bitwise exclusive or of the accumulator and the value
    Xor,
    /// Invert the accumulator; the value is not used
    Not,
    /// Load the value into the accumulator
    Load,
}

/// CALC - Calculate: applies an operation with a value to the accumulator.
#[derive(Debug, PartialEq, Eq, Structural, Clone, Copy)]
pub struct CALC {
    pub operation: CalcOperation,
    pub value: i32,
}

impl CALC {
    pub fn new(operation: CalcOperation, value: i32) -> (r: CALC)
        ensures
            r == (CALC { operation, value }),
    {
        CALC { operation, value }
    }
}

impl Instruction for CALC {
    open spec fn spec_instruction_number() -> u8 {
        19
    }

    open spec fn spec_type_number(&self) -> u8 {
        match self.operation {
            CalcOperation::Add => 0,
            CalcOperation::Sub => 1,
            CalcOperation::Mul => 2,
            CalcOperation::Div => 3,
            CalcOperation::Mod => 4,
            CalcOperation::And => 5,
            CalcOperation::Or => 6,
            CalcOperation::Xor => 7,
            CalcOperation::Not => 8,
            CalcOperation::Load => 9,
        }
    }

    open spec fn spec_motor_bank_number(&self) -> u8 {
        0
    }

    open spec fn spec_operand(&self) -> Seq<u8> {
        spec_encode_i32(self.value)
    }

    fn instruction_number() -> (r: u8) {
        19
    }

    fn type_number(&self) -> (r: u8) {
        match self.operation {
            CalcOperation::Add => 0,
            CalcOperation::Sub => 1,
            CalcOperation::Mul => 2,
            CalcOperation::Div => 3,
            CalcOperation::Mod => 4,
            CalcOperation::And => 5,
            CalcOperation::Or => 6,
            CalcOperation::Xor => 7,
            CalcOperation::Not => 8,
            CalcOperation::Load => 9,
        }
    }

    fn motor_bank_number(&self) -> (r: u8) {
        0
    }

    fn operand(&self) -> (r: [u8; 4]) {
        encode_i32(self.value)
    }
}

impl DirectInstruction for CALC {
    type Return = ();
}

/// SAP - Set Axis Parameter: writes `value` to its parameter of one motor.
#[derive(Debug)]
pub struct SAP<T: WriteableAxisParameter> {
    pub motor_number: u8,
    pub value: T,
}

impl<T: WriteableAxisParameter> SAP<T> {
    pub fn new(motor_number: u8, value: T) -> (r: Self)
        ensures
            r.motor_number == motor_number,
            r.value == value,
    {
        SAP { motor_number, value }
    }
}

impl<T: WriteableAxisParameter> Instruction for SAP<T> {
    open spec fn spec_instruction_number() -> u8 {
        5
    }

    open spec fn spec_type_number(&self) -> u8 {
        T::spec_number()
    }

    open spec fn spec_motor_bank_number(&self) -> u8 {
        self.motor_number
    }

    open spec fn spec_operand(&self) -> Seq<u8> {
        self.value.spec_operand()
    }

    fn instruction_number() -> (r: u8) {
        5
    }

    fn type_number(&self) -> (r: u8) {
        T::number()
    }

    fn motor_bank_number(&self) -> (r: u8) {
        self.motor_number
    }

    fn operand(&self) -> (r: [u8; 4]) {
        self.value.operand()
    }
}

impl<T: WriteableAxisParameter> DirectInstruction for SAP<T> {
    type Return = ();
}

/// GAP - Get Axis Parameter: reads the parameter `T` of one motor; the reply
/// operand decodes to a `T`.
#[derive(Debug)]
pub struct GAP<T: ReadableAxisParameter> {
    pub motor_number: u8,
    pub parameter: PhantomData<T>,
}

impl<T: ReadableAxisParameter> GAP<T> {
    pub fn new(motor_number: u8) -> (r: Self)
        ensures
            r.motor_number == motor_number,
    {
        GAP { motor_number, parameter: PhantomData }
    }
}

impl<T: ReadableAxisParameter> Instruction for GAP<T> {
    open spec fn spec_instruction_number() -> u8 {
        6
    }

    open spec fn spec_type_number(&self) -> u8 {
        T::spec_number()
    }

    open spec fn spec_motor_bank_number(&self) -> u8 {
        self.motor_number
    }

    open spec fn spec_operand(&self) -> Seq<u8> {
        spec_zero_operand()
    }

    fn instruction_number() -> (r: u8) {
        6
    }

    fn type_number(&self) -> (r: u8) {
        T::number()
    }

    fn motor_bank_number(&self) -> (r: u8) {
        self.motor_number
    }

    fn operand(&self) -> (r: [u8; 4]) {
        zero_operand()
    }
}

impl<T: ReadableAxisParameter> DirectInstruction for GAP<T> {
    type Return = T;
}

/// STAP - Store Axis Parameter: stores the parameter `T` of one motor in
/// non-volatile memory.
#[derive(Debug)]
pub struct STAP<T: WriteableAxisParameter> {
    pub motor_number: u8,
    pub parameter: PhantomData<T>,
}

impl<T: WriteableAxisParameter> STAP<T> {
    pub fn new(motor_number: u8) -> (r: Self)
        ensures
            r.motor_number == motor_number,
    {
        STAP { motor_number, parameter: PhantomData }
    }
}

impl<T: WriteableAxisParameter> Instruction for STAP<T> {
    open spec fn spec_instruction_number() -> u8 {
        7
    }

    open spec fn spec_type_number(&self) -> u8 {
        T::spec_number()
    }

    open spec fn spec_motor_bank_number(&self) -> u8 {
        self.motor_number
    }

    open spec fn spec_operand(&self) -> Seq<u8> {
        spec_zero_operand()
    }

    fn instruction_number() -> (r: u8) {
        7
    }

    fn type_number(&self) -> (r: u8) {
        T::number()
    }

    fn motor_bank_number(&self) -> (r: u8) {
        self.motor_number
    }

    fn operand(&self) -> (r: [u8; 4]) {
        zero_operand()
    }
}

impl<T: WriteableAxisParameter> DirectInstruction for STAP<T> {
    type Return = ();
}

/// RSAP - Restore Axis Parameter: restores the parameter `T` of one motor
/// from non-volatile memory.
#[derive(Debug)]
pub struct RSAP<T: WriteableAxisParameter> {
    pub motor_number: u8,
    pub parameter: PhantomData<T>,
}

impl<T: WriteableAxisParameter> RSAP<T> {
    pub fn new(motor_number: u8) -> (r: Self)
        ensures
            r.motor_number == motor_number,
    {
        RSAP { motor_number, parameter: PhantomData }
    }
}

impl<T: WriteableAxisParameter> Instruction for RSAP<T> {
    open spec fn spec_instruction_number() -> u8 {
        8
    }

    open spec fn spec_type_number(&self) -> u8 {
        T::spec_number()
    }

    open spec fn spec_motor_bank_number(&self) -> u8 {
        self.motor_number
    }

    open spec fn spec_operand(&self) -> Seq<u8> {
        spec_zero_operand()
    }

    fn instruction_number() -> (r: u8) {
        8
    }

    fn type_number(&self) -> (r: u8) {
        T::number()
    }

    fn motor_bank_number(&self) -> (r: u8) {
        self.motor_number
    }

    fn operand(&self) -> (r: [u8; 4]) {
        zero_operand()
    }
}

impl<T: WriteableAxisParameter> DirectInstruction for RSAP<T> {
    type Return = ();
}

} // verus!
