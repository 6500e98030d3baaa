//! Wire frames: a command out, a reply back.
use vstd::prelude::*;
use crate::instructions::Instruction;
use crate::status::{spec_status_of, NonValidErrorCode, Status};

verus! {

/// The sum of the bytes of `s`.
pub open spec fn spec_byte_sum(s: Seq<u8>) -> nat
    decreases s.len(),
{
    if s.len() == 0 {
        0
    } else {
        spec_byte_sum(s.drop_last()) + s.last() as nat
    }
}

/// The checksum of a frame body: its byte sum modulo 256.
pub open spec fn spec_checksum(s: Seq<u8>) -> u8 {
    (spec_byte_sum(s) % 256) as u8
}

/// `[CMD_N, TYPE_N, MOTOR_N, VALUE3, VALUE2, VALUE1, VALUE0]`
pub open spec fn spec_bus_frame(instruction_number: u8, type_number: u8, motor_bank_number: u8, operand: Seq<u8>) -> Seq<u8> {
    seq![instruction_number, type_number, motor_bank_number] + operand
}

/// `[MODULE_ADR, CMD_N, TYPE_N, MOTOR_N, VALUE3, VALUE2, VALUE1, VALUE0, CHECKSUM]`
pub open spec fn spec_addressed_frame(
    module_address: u8,
    instruction_number: u8,
    type_number: u8,
    motor_bank_number: u8,
    operand: Seq<u8>,
) -> Seq<u8> {
    let body = seq![module_address] + spec_bus_frame(instruction_number, type_number, motor_bank_number, operand);
    body.push(spec_checksum(body))
}

/// The checksum of the first eight bytes of `b`.
pub fn checksum(b: &[u8; 9]) -> (r: u8)
    ensures
        r == spec_checksum(b@.subrange(0, 8)),
{
    let mut sum: u16 = 0;
    let mut i: usize = 0;
    while i < 8
        invariant
            i <= 8,
            sum as nat == spec_byte_sum(b@.subrange(0, i as int)),
            sum <= 255 * i,
        decreases 8 - i,
    {
        assert(b@.subrange(0, i as int + 1).drop_last() =~= b@.subrange(0, i as int));
        sum = sum + b[i] as u16;
        i = i + 1;
    }
    (sum % 256) as u8
}

/// An `Instruction` with a module address.
///
/// It contains everything required to serialize itself into binary command format.
#[derive(Debug, PartialEq)]
pub struct Command<T: Instruction> {
    module_address: u8,
    instruction: T,
}

impl<T: Instruction> Command<T> {
    pub closed spec fn spec_module_address(&self) -> u8 {
        self.module_address
    }

    pub closed spec fn spec_instruction(&self) -> T {
        self.instruction
    }

    pub fn new(module_address: u8, instruction: T) -> (r: Command<T>)
        ensures
            r.spec_module_address() == module_address,
            r.spec_instruction() == instruction,
    {
        Command { module_address, instruction }
    }

    /// Returns the module address
    pub fn module_address(&self) -> (r: u8)
        ensures
            r == self.spec_module_address(),
    {
        self.module_address
    }

    /// Returns the instruction
    pub fn instruction(&self) -> (r: &T)
        ensures
            *r == self.spec_instruction(),
    {
        &self.instruction
    }

    /// Serialize into binary command format suited for RS232, RS485 etc
    ///
    /// The array will look like the following:
    /// `[MODULE_ADR, CMD_N, TYPE_N, MOTOR_N, VALUE3, VALUE2, VALUE1, VALUE0, CHECKSUM]`
    pub fn serialize(&self) -> (r: [u8; 9])
        ensures
            r@ == spec_addressed_frame(
                self.spec_module_address(),
                T::spec_instruction_number(),
                self.spec_instruction().spec_type_number(),
                self.spec_instruction().spec_motor_bank_number(),
                self.spec_instruction().spec_operand(),
            ),
    {
        let op = self.instruction.operand();
        let mut r = [
            self.module_address,
            T::instruction_number(),
            self.instruction.type_number(),
            self.instruction.motor_bank_number(),
            op[0],
            op[1],
            op[2],
            op[3],
            0u8,
        ];
        let c = checksum(&r);
        let ghost before = r@;
        r[8] = c;
        proof {
            assert(r@.subrange(0, 8) =~= before.subrange(0, 8));
            let body = seq![self.module_address] + spec_bus_frame(
                T::spec_instruction_number(),
                self.instruction.spec_type_number(),
                self.instruction.spec_motor_bank_number(),
                self.instruction.spec_operand(),
            );
            assert(r@.subrange(0, 8) =~= body);
            assert(r@ =~= body.push(c));
        }
        r
    }

    /// Serialize into binary command format suited for CAN (controller area network)
    ///
    /// When using CAN the module address and checksum will be excluded.
    /// The array will look like the following:
    /// `[CMD_N, TYPE_N, MOTOR_N, VALUE3, VALUE2, VALUE1, VALUE0]`
    pub fn serialize_can(&self) -> (r: [u8; 7])
        ensures
            r@ == spec_bus_frame(
                T::spec_instruction_number(),
                self.spec_instruction().spec_type_number(),
                self.spec_instruction().spec_motor_bank_number(),
                self.spec_instruction().spec_operand(),
            ),
    {
        let op = self.instruction.operand();
        let r = [
            T::instruction_number(),
            self.instruction.type_number(),
            self.instruction.motor_bank_number(),
            op[0],
            op[1],
            op[2],
            op[3],
        ];
        assert(r@ =~= spec_bus_frame(
            T::spec_instruction_number(),
            self.instruction.spec_type_number(),
            self.instruction.spec_motor_bank_number(),
            self.instruction.spec_operand(),
        ));
        r
    }
}

/// The addressed frame is nine bytes whose last is the checksum of the
/// other eight, and the bus frame is the addressed frame without its first
/// and last byte.
pub proof fn lemma_frames_agree(
    module_address: u8,
    instruction_number: u8,
    type_number: u8,
    motor_bank_number: u8,
    operand: Seq<u8>,
)
    requires
        operand.len() == 4,
    ensures
        ({
            let a = spec_addressed_frame(module_address, instruction_number, type_number, motor_bank_number, operand);
            &&& a.len() == 9
            &&& a[8] == spec_checksum(a.subrange(0, 8))
            &&& a[8] as nat == spec_byte_sum(a.subrange(0, 8)) % 256
            &&& spec_bus_frame(instruction_number, type_number, motor_bank_number, operand) == a.subrange(1, 8)
        }),
{
    let bus = spec_bus_frame(instruction_number, type_number, motor_bank_number, operand);
    let body = seq![module_address] + bus;
    let a = body.push(spec_checksum(body));
    assert(a.subrange(0, 8) =~= body);
    assert(a.subrange(1, 8) =~= bus);
}

/// A module's answer to one command.
#[derive(Debug, PartialEq, Clone, Copy)]
pub struct Reply {
    /// The address the reply is sent to
    pub reply_address: u8,
    /// The address of the module that replies
    pub module_address: u8,
    pub status: Status,
    /// The instruction number of the command answered
    pub command_number: u8,
    /// The result, most significant byte first; read only on success
    pub operand: [u8; 4],
}

/// A reply frame that cannot be read.
#[derive(Debug, PartialEq, Eq, Structural, Clone, Copy)]
pub enum FrameError {
    /// The last byte is not the checksum of the others.
    ChecksumMismatch,
    /// The status byte is none of the documented ones.
    NonValidStatus(u8),
}

impl Reply {
    pub fn new(reply_address: u8, module_address: u8, status: Status, command_number: u8, operand: [u8; 4]) -> (r: Reply)
        ensures
            r.reply_address == reply_address,
            r.module_address == module_address,
            r.status == status,
            r.command_number == command_number,
            r.operand == operand,
    {
        Reply { reply_address, module_address, status, command_number, operand }
    }

    pub fn status(&self) -> (r: Status)
        ensures
            r == self.status,
    {
        self.status
    }

    pub fn command_number(&self) -> (r: u8)
        ensures
            r == self.command_number,
    {
        self.command_number
    }

    pub fn operand(&self) -> (r: [u8; 4])
        ensures
            r == self.operand,
    {
        self.operand
    }

    /// Parses the reply frame of RS232, RS485 etc.
    ///
    /// `[REPLY_ADR, MODULE_ADR, STATUS, CMD_N, VALUE3, VALUE2, VALUE1, VALUE0, CHECKSUM]`
    ///
    /// The checksum is checked before the status byte is read.
    pub fn deserialize(b: [u8; 9]) -> (r: Result<Reply, FrameError>)
        ensures
            b[8] != spec_checksum(b@.subrange(0, 8)) ==> r == Err::<Reply, FrameError>(FrameError::ChecksumMismatch),
            b[8] == spec_checksum(b@.subrange(0, 8)) && spec_status_of(b[2]) is None
                ==> r == Err::<Reply, FrameError>(FrameError::NonValidStatus(b[2])),
            b[8] == spec_checksum(b@.subrange(0, 8)) && spec_status_of(b[2]) is Some ==> (r matches Ok(reply)
                && reply.reply_address == b[0]
                && reply.module_address == b[1]
                && Some(reply.status) == spec_status_of(b[2])
                && reply.command_number == b[3]
                && reply.operand@ == b@.subrange(4, 8)),
    {
        if b[8] != checksum(&b) {
            return Err(FrameError::ChecksumMismatch);
        }
        match Status::try_from(b[2]) {
            Ok(status) => {
                let operand = [b[4], b[5], b[6], b[7]];
                assert(operand@ =~= b@.subrange(4, 8));
                Ok(Reply { reply_address: b[0], module_address: b[1], status, command_number: b[3], operand })
            },
            Err(_) => Err(FrameError::NonValidStatus(b[2])),
        }
    }
    /// Parses the reply data of CAN, whose frame identifier is the reply
    /// address and which carries no checksum.
    ///
    /// `[MODULE_ADR, STATUS, CMD_N, VALUE3, VALUE2, VALUE1, VALUE0]`
    pub fn deserialize_can(reply_address: u8, b: [u8; 7]) -> (r: Result<Reply, FrameError>)
        ensures
            spec_status_of(b[1]) is None ==> r == Err::<Reply, FrameError>(FrameError::NonValidStatus(b[1])),
            spec_status_of(b[1]) is Some ==> (r matches Ok(reply)
                && reply.reply_address == reply_address
                && reply.module_address == b[0]
                && Some(reply.status) == spec_status_of(b[1])
                && reply.command_number == b[2]
                && reply.operand@ == b@.subrange(3, 7)),
    {
        match Status::try_from(b[1]) {
            Ok(status) => {
                let operand = [b[3], b[4], b[5], b[6]];
                assert(operand@ =~= b@.subrange(3, 7));
                Ok(Reply { reply_address, module_address: b[0], status, command_number: b[2], operand })
            },
            Err(_) => Err(FrameError::NonValidStatus(b[1])),
        }
    }
}

} // verus!
