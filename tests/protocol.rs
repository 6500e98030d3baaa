use std::cell::RefCell;

use tmcl::codec::{
    decode_bool, decode_i16, decode_i32, decode_i8, decode_u16, decode_u32, decode_u8, encode_bool, encode_i16,
    encode_i32, encode_i8, encode_u16, encode_u32, encode_u8,
};
use tmcl::command::{checksum, Command, FrameError, Reply};
use tmcl::generic;
use tmcl::instructions::{CalcOperation, CALC, MoveOperation, ReferenceSearchAction, GAP, GIO, MST, MVP, RFS, ROL, ROR, RSAP, SAP, SIO, STAP};
use tmcl::interface::{interpret_reply, Error, Interface};
use tmcl::instructions::{Instruction, Return};
use tmcl::axis_parameters::{AxisParameter, WriteableAxisParameter};
use tmcl::status::{ErrStatus, NonValidErrorCode, OkStatus, Status};
use tmcl::tmcm::axis_parameters::{
    ActualPosition, ActualSpeed, HomeSearchMode, LeftLimitSwitchDisable, MicrostepResolution, PositionReachedFlag,
    PulseDivisor, RampDivisor, ReferenceSearchMode, RightLimitSwitchDisable, SearchMode, StandbyCurrent,
    TargetPosition,
};
use tmcl::tmcm::TmcmModule;

#[test]
fn it_works() {
    assert_eq!(2 + 2, 4);
}

#[test]
fn integers_are_big_endian_and_right_aligned() {
    assert_eq!(encode_i32(1000), [0, 0, 3, 232]);
    assert_eq!(encode_i32(-1), [255, 255, 255, 255]);
    assert_eq!(encode_i32(i32::MIN), [128, 0, 0, 0]);
    assert_eq!(encode_u32(0x01020304), [1, 2, 3, 4]);
    assert_eq!(encode_u16(0xBEEF), [0, 0, 0xBE, 0xEF]);
    assert_eq!(encode_i16(-2), [255, 255, 255, 254]);
    assert_eq!(encode_u8(200), [0, 0, 0, 200]);
    assert_eq!(encode_i8(-128), [255, 255, 255, 128]);
    assert_eq!(encode_bool(true), [0, 0, 0, 1]);
    assert_eq!(encode_bool(false), [0, 0, 0, 0]);
}

#[test]
fn integers_decode_sign_and_zero_extended() {
    assert_eq!(decode_i32([0, 0, 3, 232]), 1000);
    assert_eq!(decode_i32([255, 255, 252, 24]), -1000);
    assert_eq!(decode_u32([1, 2, 3, 4]), 0x01020304);
    assert_eq!(decode_u16([0, 0, 0xBE, 0xEF]), 0xBEEF);
    assert_eq!(decode_i16([255, 255, 255, 254]), -2);
    assert_eq!(decode_u8([0, 0, 0, 200]), 200);
    assert_eq!(decode_i8([255, 255, 255, 128]), -128);
    assert!(decode_bool([0, 0, 0, 1]));
    assert!(!decode_bool([0, 0, 0, 0]));
}

#[test]
fn native_values_round_trip() {
    for v in [i32::MIN, -1000, -1, 0, 1, 1000, i32::MAX] {
        assert_eq!(decode_i32(encode_i32(v)), v);
    }
    for v in [0u32, 1, 0x8000_0000, u32::MAX] {
        assert_eq!(decode_u32(encode_u32(v)), v);
    }
    for v in [i16::MIN, -1, 0, i16::MAX] {
        assert_eq!(decode_i16(encode_i16(v)), v);
    }
    for v in [0u16, 255, 256, u16::MAX] {
        assert_eq!(decode_u16(encode_u16(v)), v);
    }
    for v in [i8::MIN, -1, 0, i8::MAX] {
        assert_eq!(decode_i8(encode_i8(v)), v);
    }
    for v in [0u8, 1, u8::MAX] {
        assert_eq!(decode_u8(encode_u8(v)), v);
    }
    for v in [false, true] {
        assert_eq!(decode_bool(encode_bool(v)), v);
    }
}

#[test]
fn catalog_values_round_trip() {
    let p = TargetPosition::new(-123456);
    assert_eq!(TargetPosition::from_operand(p.operand()), Some(p));
    let c = StandbyCurrent::new(1500);
    assert_eq!(StandbyCurrent::from_operand(c.operand()), Some(c));
    let d = RightLimitSwitchDisable::disabled();
    assert_eq!(d.operand(), [0, 0, 0, 1]);
    assert_eq!(RightLimitSwitchDisable::from_operand(d.operand()), Some(d));
    assert_eq!(LeftLimitSwitchDisable::enabled().operand(), [0, 0, 0, 0]);
    let r = RampDivisor::new(13);
    assert_eq!(r.value(), 13);
    assert_eq!(RampDivisor::from_operand(r.operand()), Some(r));
    assert_eq!(PulseDivisor::new(3).operand(), [0, 0, 0, 3]);
    assert_eq!(PositionReachedFlag::from_operand([0, 0, 0, 1]), Some(PositionReachedFlag(true)));
    assert_eq!(ActualSpeed::from_operand([255, 255, 255, 255]), Some(ActualSpeed(-1)));
}

#[test]
fn catalog_numbers() {
    assert_eq!(TargetPosition::number(), 0);
    assert_eq!(ActualPosition::number(), 1);
    assert_eq!(ActualSpeed::number(), 3);
    assert_eq!(StandbyCurrent::number(), 7);
    assert_eq!(MicrostepResolution::number(), 140);
    assert_eq!(RampDivisor::number(), 153);
    assert_eq!(ReferenceSearchMode::number(), 193);
}

#[test]
fn status_bytes_decode_to_documented_variants() {
    assert_eq!(Status::try_from(100), Ok(Status(Ok(OkStatus::Success))));
    assert_eq!(Status::try_from(101), Ok(Status(Ok(OkStatus::LoadedIntoEEPROM))));
    assert_eq!(Status::try_from(1), Ok(Status(Err(ErrStatus::WrongChecksum))));
    assert_eq!(Status::try_from(2), Ok(Status(Err(ErrStatus::InvalidCommand))));
    assert_eq!(Status::try_from(3), Ok(Status(Err(ErrStatus::WrongType))));
    assert_eq!(Status::try_from(4), Ok(Status(Err(ErrStatus::InvalidValue))));
    assert_eq!(Status::try_from(5), Ok(Status(Err(ErrStatus::EEPROMLocked))));
    assert_eq!(Status::try_from(6), Ok(Status(Err(ErrStatus::CommandNotAvailable))));
    assert!(Status::try_from(100).unwrap().is_ok());
    assert!(!Status::try_from(4).unwrap().is_ok());
}

#[test]
fn other_status_bytes_are_refused() {
    for b in 0..=255u8 {
        let documented = matches!(b, 1..=6 | 100 | 101);
        match Status::try_from(b) {
            Ok(s) => {
                assert!(documented);
                assert_eq!(s.code(), b);
            }
            Err(e) => {
                assert!(!documented);
                assert_eq!(e, NonValidErrorCode);
            }
        }
    }
}

#[test]
fn addressed_frame_of_move_to_position() {
    let command = Command::new(1, MVP::new(0, MoveOperation::Absolute(1000)));
    let frame = command.serialize();
    assert_eq!(frame, [1, 4, 0, 0, 0, 0, 3, 232, 240]);
    let sum: u32 = frame[..8].iter().map(|b| *b as u32).sum();
    assert_eq!(frame[8] as u32, sum % 256);
    assert_eq!(command.module_address(), 1);
}

#[test]
fn bus_frame_is_addressed_frame_without_address_and_checksum() {
    let command = Command::new(1, MVP::new(0, MoveOperation::Absolute(1000)));
    let bus = command.serialize_can();
    assert_eq!(bus, [4, 0, 0, 0, 0, 3, 232]);
    assert_eq!(&bus[..], &command.serialize()[1..8]);
}

#[test]
fn checksum_wraps_modulo_256() {
    let command = Command::new(255, ROR::new(255, u32::MAX));
    let frame = command.serialize();
    assert_eq!(frame, [255, 1, 0, 255, 255, 255, 255, 255, 251]);
    assert_eq!(checksum(&frame), 251);
}

#[test]
fn instruction_fields() {
    assert_eq!(Command::new(2, ROL::new(1, 500)).serialize_can(), [2, 0, 1, 0, 0, 1, 244]);
    assert_eq!(Command::new(2, MST::new(1)).serialize_can(), [3, 0, 1, 0, 0, 0, 0]);
    assert_eq!(Command::new(2, MVP::new(0, MoveOperation::Relative(-1))).serialize_can(), [4, 1, 0, 255, 255, 255, 255]);
    assert_eq!(Command::new(2, MVP::new(0, MoveOperation::Coordinate(7))).serialize_can(), [4, 2, 0, 0, 0, 0, 7]);
    assert_eq!(Command::new(2, RFS::new(0, ReferenceSearchAction::Start)).serialize_can(), [13, 0, 0, 0, 0, 0, 0]);
    assert_eq!(Command::new(2, RFS::new(0, ReferenceSearchAction::Status)).serialize_can(), [13, 2, 0, 0, 0, 0, 0]);
    assert_eq!(Command::new(2, SIO::new(3, 2, true)).serialize_can(), [14, 3, 2, 0, 0, 0, 1]);
    assert_eq!(Command::new(2, GIO::new(3, 2)).serialize_can(), [15, 3, 2, 0, 0, 0, 0]);
    assert_eq!(Command::new(2, CALC::new(CalcOperation::Sub, -2)).serialize_can(), [19, 1, 0, 255, 255, 255, 254]);
    assert_eq!(Command::new(2, CALC::new(CalcOperation::Load, 300)).serialize_can(), [19, 9, 0, 0, 0, 1, 44]);
}

#[test]
fn typed_axis_parameter_instructions() {
    let sap = SAP::new(0, TargetPosition::new(1000));
    assert_eq!(sap.type_number(), 0);
    assert_eq!(Command::new(1, sap).serialize_can(), [5, 0, 0, 0, 0, 3, 232]);
    assert_eq!(Command::new(1, GAP::<ActualPosition>::new(0)).serialize_can(), [6, 1, 0, 0, 0, 0, 0]);
    assert_eq!(Command::new(1, GAP::<ActualSpeed>::new(2)).serialize_can(), [6, 3, 2, 0, 0, 0, 0]);
    assert_eq!(Command::new(1, STAP::<StandbyCurrent>::new(0)).serialize_can(), [7, 7, 0, 0, 0, 0, 0]);
    assert_eq!(Command::new(1, RSAP::<RampDivisor>::new(1)).serialize_can(), [8, 153, 1, 0, 0, 0, 0]);
    let mode = ReferenceSearchMode::HomeSearch {
        search_mode: HomeSearchMode::Negative,
        invert_home_switch: true,
    };
    assert_eq!(Command::new(1, SAP::new(0, mode)).serialize_can(), [5, 193, 0, 0, 0, 0, 136]);
}

#[test]
fn generic_axis_parameter_instructions() {
    let sap = generic::SAP::new(1, 140, [0, 0, 0, 4]);
    assert_eq!(Command::new(3, sap).serialize_can(), [5, 140, 1, 0, 0, 0, 4]);
    assert_eq!(Command::new(3, generic::GAP::new(1, 140)).serialize_can(), [6, 140, 1, 0, 0, 0, 0]);
    assert_eq!(Command::new(3, generic::STAP::new(1, 140)).serialize_can(), [7, 140, 1, 0, 0, 0, 0]);
    assert_eq!(Command::new(3, generic::RSAP::new(1, 140)).serialize_can(), [8, 140, 1, 0, 0, 0, 0]);
}

#[test]
fn reply_frames() {
    let ok = [2, 1, 100, 6, 0, 0, 3, 232, 88];
    let reply = Reply::deserialize(ok).unwrap();
    assert_eq!(reply.reply_address, 2);
    assert_eq!(reply.module_address, 1);
    assert_eq!(reply.status(), Status(Ok(OkStatus::Success)));
    assert_eq!(reply.command_number(), 6);
    assert_eq!(reply.operand(), [0, 0, 3, 232]);

    let mut bad_sum = ok;
    bad_sum[8] = 89;
    assert_eq!(Reply::deserialize(bad_sum), Err(FrameError::ChecksumMismatch));

    let bad_status = [2, 1, 7, 6, 0, 0, 3, 232, 251];
    assert_eq!(Reply::deserialize(bad_status), Err(FrameError::NonValidStatus(7)));

    let rejected = [2, 1, 4, 6, 0, 0, 0, 0, 13];
    assert_eq!(Reply::deserialize(rejected).unwrap().status(), Status(Err(ErrStatus::InvalidValue)));
}

#[test]
fn reference_search_mode_home_search() {
    let plain = ReferenceSearchMode::try_from_u8(6).unwrap();
    assert_eq!(
        plain,
        ReferenceSearchMode::HomeSearch {
            search_mode: HomeSearchMode::PositiveThenRight,
            invert_home_switch: false,
        }
    );
    let inverted = ReferenceSearchMode::try_from_u8(134).unwrap();
    assert_eq!(
        inverted,
        ReferenceSearchMode::HomeSearch {
            search_mode: HomeSearchMode::PositiveThenRight,
            invert_home_switch: true,
        }
    );
    assert_eq!(plain.operand(), [0, 0, 0, 6]);
    assert_eq!(inverted.operand(), [0, 0, 0, 134]);
    assert_eq!(plain.code(), 6);
    assert_eq!(inverted.code(), 134);
}

#[test]
fn reference_search_mode_table() {
    assert_eq!(
        ReferenceSearchMode::try_from_u8(1),
        Ok(ReferenceSearchMode::LimitSwitchSearch { search_mode: SearchMode::LeftSwitch, swap_left_right: false })
    );
    assert_eq!(
        ReferenceSearchMode::try_from_u8(68),
        Ok(ReferenceSearchMode::LimitSwitchSearch {
            search_mode: SearchMode::LeftFromBothSides,
            swap_left_right: true,
        })
    );
    assert_eq!(
        ReferenceSearchMode::try_from_u8(8),
        Ok(ReferenceSearchMode::HomeSearch { search_mode: HomeSearchMode::Negative, invert_home_switch: false })
    );
    for b in [0u8, 9, 64, 70, 128, 132, 137, 196, 255] {
        assert_eq!(ReferenceSearchMode::try_from_u8(b), Err(()));
    }
    for b in 0..=255u8 {
        if let Ok(m) = ReferenceSearchMode::try_from_u8(b) {
            assert_eq!(m.code(), b);
            assert_eq!(ReferenceSearchMode::from_operand(m.operand()), Some(m));
        }
    }
}

#[test]
fn microstep_resolution() {
    assert_eq!(MicrostepResolution::try_from_u8(0), Ok(MicrostepResolution::Full));
    assert_eq!(MicrostepResolution::try_from_u8(8), Ok(MicrostepResolution::Micro256));
    assert_eq!(MicrostepResolution::try_from_u8(9), Err(()));
    assert_eq!(MicrostepResolution::try_from_scaled(1), Ok(MicrostepResolution::Full));
    assert_eq!(MicrostepResolution::try_from_scaled(16), Ok(MicrostepResolution::Micro16));
    assert_eq!(MicrostepResolution::try_from_scaled(256), Ok(MicrostepResolution::Micro256));
    assert_eq!(MicrostepResolution::try_from_scaled(3), Err(()));
    assert_eq!(MicrostepResolution::try_from_scaled(0), Err(()));
    assert_eq!(MicrostepResolution::Micro64.operand(), [0, 0, 0, 6]);
    assert_eq!(MicrostepResolution::from_operand([0, 0, 0, 6]), Some(MicrostepResolution::Micro64));
    assert_eq!(MicrostepResolution::from_operand([0, 0, 0, 9]), None);
}

/// A transport that records the frames sent and hands back a fixed reply.
struct Stub {
    sent: RefCell<Vec<[u8; 9]>>,
    reply: Result<Reply, &'static str>,
}

impl Interface for Stub {
    type Error = &'static str;

    fn transmit_command<T: Instruction>(&self, command: &Command<T>) -> Result<(), Self::Error> {
        self.sent.borrow_mut().push(command.serialize());
        Ok(())
    }

    fn receive_reply(&self) -> Result<Reply, Self::Error> {
        self.reply
    }
}

fn stub(status: u8, operand: [u8; 4]) -> Stub {
    Stub {
        sent: RefCell::new(Vec::new()),
        reply: Ok(Reply::new(2, 1, Status::try_from(status).unwrap(), 6, operand)),
    }
}

#[test]
fn get_axis_parameter_decodes_reply_operand() {
    let interface = stub(100, [0, 0, 3, 232]);
    let module = TmcmModule::new(&interface, 1);
    let r = module.write_command(GAP::<ActualPosition>::new(0));
    assert_eq!(r, Ok(ActualPosition(1000)));
    assert_eq!(interface.sent.borrow()[0], [1, 6, 1, 0, 0, 0, 0, 0, 8]);
}

#[test]
fn get_axis_parameter_reports_error_status() {
    let interface = stub(4, [0, 0, 3, 232]);
    let module = TmcmModule::new(&interface, 1);
    assert_eq!(
        module.write_command(GAP::<ActualPosition>::new(0)),
        Err(Error::ProtocolError(ErrStatus::InvalidValue))
    );
}

#[test]
fn undecodable_operand_and_transport_failure() {
    let interface = stub(100, [0, 0, 0, 9]);
    let module = TmcmModule::new(&interface, 1);
    assert_eq!(module.write_command(GAP::<MicrostepResolution>::new(0)), Err(Error::InvalidOperand));

    let broken = Stub { sent: RefCell::new(Vec::new()), reply: Err("timeout") };
    let module = TmcmModule::new(&broken, 1);
    assert_eq!(module.write_command(MST::new(0)), Err(Error::InterfaceError("timeout")));
    assert_eq!(broken.sent.borrow().len(), 1);
}

#[test]
fn interpret_reply_reads_operand_only_on_success() {
    let ok = Reply::new(2, 1, Status(Ok(OkStatus::LoadedIntoEEPROM)), 6, [255, 255, 255, 255]);
    assert_eq!(interpret_reply::<TargetPosition, ()>(&ok), Ok(TargetPosition(-1)));
    assert_eq!(interpret_reply::<u32, ()>(&ok), Ok(u32::MAX));
    let err = Reply::new(2, 1, Status(Err(ErrStatus::EEPROMLocked)), 6, [255, 255, 255, 255]);
    assert_eq!(interpret_reply::<[u8; 4], ()>(&err), Err(Error::ProtocolError(ErrStatus::EEPROMLocked)));
}

#[test]
fn bus_reply_frames() {
    let reply = Reply::deserialize_can(2, [1, 100, 6, 0, 0, 3, 232]).unwrap();
    assert_eq!(reply, Reply::new(2, 1, Status(Ok(OkStatus::Success)), 6, [0, 0, 3, 232]));
    assert_eq!(Reply::deserialize_can(2, [1, 0, 6, 0, 0, 3, 232]), Err(FrameError::NonValidStatus(0)));
    assert_eq!(
        Reply::deserialize_can(2, [1, 6, 6, 0, 0, 0, 0]).unwrap().status(),
        Status(Err(ErrStatus::CommandNotAvailable))
    );
}
