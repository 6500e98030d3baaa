//! Axis parameters of the TMCM modules other than TMCM-100 and Monopack 2.
use vstd::prelude::*;
use crate::axis_parameters::{AxisParameter, ReadWriteAxisParameter, ReadableAxisParameter, WriteableAxisParameter};
use crate::codec::{
    decode_bool, decode_i32, decode_u16, decode_u32, decode_u8, encode_bool, encode_i32, encode_u16, encode_u32,
    encode_low_byte, encode_u8, lemma_native_round_trip, spec_low_byte, spec_bytes_u32, spec_decode_bool, spec_decode_i32, spec_decode_u16,
    spec_decode_u8, spec_encode_bool, spec_encode_i32, spec_encode_u16, spec_encode_u8, spec_u32_bytes,
};
use crate::instructions::Return;
use crate::tmcm::{ReadableTmcmAxisParameter, TmcmAxisParameter, WriteableTmcmAxisParameter};

verus! {

/// The desired target position in position mode
#[derive(Debug, PartialEq, Eq, Structural, Clone, Copy)]
pub struct TargetPosition(pub i32);

impl TargetPosition {
    pub fn new(position: i32) -> (r: Self)
        ensures
            r == TargetPosition(position),
    {
        TargetPosition(position)
    }
}

impl AxisParameter for TargetPosition {
    open spec fn spec_number() -> u8 {
        0
    }

    fn number() -> (r: u8) {
        0
    }
}

impl Return for TargetPosition {
    open spec fn spec_from_operand(op: [u8; 4]) -> Option<Self> {
        Some(TargetPosition(spec_decode_i32(op@)))
    }

    fn from_operand(op: [u8; 4]) -> (r: Option<Self>) {
        Some(TargetPosition(decode_i32(op)))
    }
}

impl ReadableAxisParameter for TargetPosition {

}

impl WriteableAxisParameter for TargetPosition {
    open spec fn spec_operand(&self) -> Seq<u8> {
        spec_encode_i32(self.0)
    }

    fn operand(&self) -> (r: [u8; 4]) {
        encode_i32(self.0)
    }
}

impl ReadWriteAxisParameter for TargetPosition {
    proof fn lemma_round_trip(v: Self, op: [u8; 4]) {
        lemma_native_round_trip(0u8, 0i8, 0u16, 0i16, v.0, 0u32, false);
    }
}

impl TmcmAxisParameter for TargetPosition {

}

impl ReadableTmcmAxisParameter for TargetPosition {

}

impl WriteableTmcmAxisParameter for TargetPosition {

}

/// The actual position of the motor.
///
/// Stop the motor before overwriting it. Should normally only be
/// overwritten for reference position setting.
#[derive(Debug, PartialEq, Eq, Structural, Clone, Copy)]
pub struct ActualPosition(pub i32);

impl ActualPosition {
    pub fn new(position: i32) -> (r: Self)
        ensures
            r == ActualPosition(position),
    {
        ActualPosition(position)
    }
}

impl AxisParameter for ActualPosition {
    open spec fn spec_number() -> u8 {
        1
    }

    fn number() -> (r: u8) {
        1
    }
}

impl Return for ActualPosition {
    open spec fn spec_from_operand(op: [u8; 4]) -> Option<Self> {
        Some(ActualPosition(spec_decode_i32(op@)))
    }

    fn from_operand(op: [u8; 4]) -> (r: Option<Self>) {
        Some(ActualPosition(decode_i32(op)))
    }
}

impl ReadableAxisParameter for ActualPosition {

}

impl WriteableAxisParameter for ActualPosition {
    open spec fn spec_operand(&self) -> Seq<u8> {
        spec_encode_i32(self.0)
    }

    fn operand(&self) -> (r: [u8; 4]) {
        encode_i32(self.0)
    }
}

impl ReadWriteAxisParameter for ActualPosition {
    proof fn lemma_round_trip(v: Self, op: [u8; 4]) {
        lemma_native_round_trip(0u8, 0i8, 0u16, 0i16, v.0, 0u32, false);
    }
}

impl TmcmAxisParameter for ActualPosition {

}

impl ReadableTmcmAxisParameter for ActualPosition {

}

impl WriteableTmcmAxisParameter for ActualPosition {

}

/// The target rotation speed.
///
/// The desired speed in velocity mode. Not valid in position mode.
#[derive(Debug, PartialEq, Eq, Structural, Clone, Copy)]
pub struct TargetSpeed(pub i32);

impl TargetSpeed {
    pub fn new(speed: i32) -> (r: Self)
        ensures
            r == TargetSpeed(speed),
    {
        TargetSpeed(speed)
    }
}

impl AxisParameter for TargetSpeed {
    open spec fn spec_number() -> u8 {
        2
    }

    fn number() -> (r: u8) {
        2
    }
}

impl Return for TargetSpeed {
    open spec fn spec_from_operand(op: [u8; 4]) -> Option<Self> {
        Some(TargetSpeed(spec_decode_i32(op@)))
    }

    fn from_operand(op: [u8; 4]) -> (r: Option<Self>) {
        Some(TargetSpeed(decode_i32(op)))
    }
}

impl ReadableAxisParameter for TargetSpeed {

}

impl WriteableAxisParameter for TargetSpeed {
    open spec fn spec_operand(&self) -> Seq<u8> {
        spec_encode_i32(self.0)
    }

    fn operand(&self) -> (r: [u8; 4]) {
        encode_i32(self.0)
    }
}

impl ReadWriteAxisParameter for TargetSpeed {
    proof fn lemma_round_trip(v: Self, op: [u8; 4]) {
        lemma_native_round_trip(0u8, 0i8, 0u16, 0i16, v.0, 0u32, false);
    }
}

impl TmcmAxisParameter for TargetSpeed {

}

impl ReadableTmcmAxisParameter for TargetSpeed {

}

impl WriteableTmcmAxisParameter for TargetSpeed {

}

/// The current rotation speed.
///
/// Should never be overwritten.
#[derive(Debug, PartialEq, Eq, Structural, Clone, Copy)]
pub struct ActualSpeed(pub i32);

impl AxisParameter for ActualSpeed {
    open spec fn spec_number() -> u8 {
        3
    }

    fn number() -> (r: u8) {
        3
    }
}

impl Return for ActualSpeed {
    open spec fn spec_from_operand(op: [u8; 4]) -> Option<Self> {
        Some(ActualSpeed(spec_decode_i32(op@)))
    }

    fn from_operand(op: [u8; 4]) -> (r: Option<Self>) {
        Some(ActualSpeed(decode_i32(op)))
    }
}

impl ReadableAxisParameter for ActualSpeed {

}

impl TmcmAxisParameter for ActualSpeed {

}

impl ReadableTmcmAxisParameter for ActualSpeed {

}

/// The maximum positioning speed.
///
/// Should not exceed the physically highest possible value. Adjust the pulse
/// divisor (no. 154) if the speed value is very low (<50) or above the upper limit.
#[derive(Debug, PartialEq, Eq, Structural, Clone, Copy)]
pub struct MaximumPositioningSpeed(pub u32);

impl MaximumPositioningSpeed {
    pub fn new(speed: u32) -> (r: Self)
        ensures
            r == MaximumPositioningSpeed(speed),
    {
        MaximumPositioningSpeed(speed)
    }
}

impl AxisParameter for MaximumPositioningSpeed {
    open spec fn spec_number() -> u8 {
        4
    }

    fn number() -> (r: u8) {
        4
    }
}

impl Return for MaximumPositioningSpeed {
    open spec fn spec_from_operand(op: [u8; 4]) -> Option<Self> {
        Some(MaximumPositioningSpeed(spec_bytes_u32(op@)))
    }

    fn from_operand(op: [u8; 4]) -> (r: Option<Self>) {
        Some(MaximumPositioningSpeed(decode_u32(op)))
    }
}

impl ReadableAxisParameter for MaximumPositioningSpeed {

}

impl WriteableAxisParameter for MaximumPositioningSpeed {
    open spec fn spec_operand(&self) -> Seq<u8> {
        spec_u32_bytes(self.0)
    }

    fn operand(&self) -> (r: [u8; 4]) {
        encode_u32(self.0)
    }
}

impl ReadWriteAxisParameter for MaximumPositioningSpeed {
    proof fn lemma_round_trip(v: Self, op: [u8; 4]) {
        lemma_native_round_trip(0u8, 0i8, 0u16, 0i16, 0i32, v.0, false);
    }
}

impl TmcmAxisParameter for MaximumPositioningSpeed {

}

impl ReadableTmcmAxisParameter for MaximumPositioningSpeed {

}

impl WriteableTmcmAxisParameter for MaximumPositioningSpeed {

}

/// The maximum acceleration.
///
/// Maximum acceleration during ramp-up and maximum deceleration during ramp-down.
#[derive(Debug, PartialEq, Eq, Structural, Clone, Copy)]
pub struct MaximumAcceleration(pub u32);

impl MaximumAcceleration {
    pub fn new(acc: u32) -> (r: Self)
        ensures
            r == MaximumAcceleration(acc),
    {
        MaximumAcceleration(acc)
    }
}

impl AxisParameter for MaximumAcceleration {
    open spec fn spec_number() -> u8 {
        5
    }

    fn number() -> (r: u8) {
        5
    }
}

impl Return for MaximumAcceleration {
    open spec fn spec_from_operand(op: [u8; 4]) -> Option<Self> {
        Some(MaximumAcceleration(spec_bytes_u32(op@)))
    }

    fn from_operand(op: [u8; 4]) -> (r: Option<Self>) {
        Some(MaximumAcceleration(decode_u32(op)))
    }
}

impl ReadableAxisParameter for MaximumAcceleration {

}

impl WriteableAxisParameter for MaximumAcceleration {
    open spec fn spec_operand(&self) -> Seq<u8> {
        spec_u32_bytes(self.0)
    }

    fn operand(&self) -> (r: [u8; 4]) {
        encode_u32(self.0)
    }
}

impl ReadWriteAxisParameter for MaximumAcceleration {
    proof fn lemma_round_trip(v: Self, op: [u8; 4]) {
        lemma_native_round_trip(0u8, 0i8, 0u16, 0i16, 0i32, v.0, false);
    }
}

impl TmcmAxisParameter for MaximumAcceleration {

}

impl ReadableTmcmAxisParameter for MaximumAcceleration {

}

impl WriteableTmcmAxisParameter for MaximumAcceleration {

}

/// The absolute maximum current
///
/// The most important motor setting, since too high values might cause motor damage!
#[derive(Debug, PartialEq, Eq, Structural, Clone, Copy)]
pub struct AbsoluteMaxCurrent(pub u16);

impl AbsoluteMaxCurrent {
    pub fn new(current: u16) -> (r: Self)
        ensures
            r == AbsoluteMaxCurrent(current),
    {
        AbsoluteMaxCurrent(current)
    }
}

impl AxisParameter for AbsoluteMaxCurrent {
    open spec fn spec_number() -> u8 {
        6
    }

    fn number() -> (r: u8) {
        6
    }
}

impl Return for AbsoluteMaxCurrent {
    open spec fn spec_from_operand(op: [u8; 4]) -> Option<Self> {
        Some(AbsoluteMaxCurrent(spec_decode_u16(op@)))
    }

    fn from_operand(op: [u8; 4]) -> (r: Option<Self>) {
        Some(AbsoluteMaxCurrent(decode_u16(op)))
    }
}

impl ReadableAxisParameter for AbsoluteMaxCurrent {

}

impl WriteableAxisParameter for AbsoluteMaxCurrent {
    open spec fn spec_operand(&self) -> Seq<u8> {
        spec_encode_u16(self.0)
    }

    fn operand(&self) -> (r: [u8; 4]) {
        encode_u16(self.0)
    }
}

impl ReadWriteAxisParameter for AbsoluteMaxCurrent {
    proof fn lemma_round_trip(v: Self, op: [u8; 4]) {
        lemma_native_round_trip(0u8, 0i8, v.0, 0i16, 0i32, 0u32, false);
    }
}

impl TmcmAxisParameter for AbsoluteMaxCurrent {

}

impl ReadableTmcmAxisParameter for AbsoluteMaxCurrent {

}

impl WriteableTmcmAxisParameter for AbsoluteMaxCurrent {

}

/// The current used when the motor is not running.
///
/// This value should be as low as possible so that the motor can cool down when it is
/// not moving. See also parameter 214 (`PowerDownDelay`).
#[derive(Debug, PartialEq, Eq, Structural, Clone, Copy)]
pub struct StandbyCurrent(pub u16);

impl StandbyCurrent {
    pub fn new(current: u16) -> (r: Self)
        ensures
            r == StandbyCurrent(current),
    {
        StandbyCurrent(current)
    }
}

impl AxisParameter for StandbyCurrent {
    open spec fn spec_number() -> u8 {
        7
    }

    fn number() -> (r: u8) {
        7
    }
}

impl Return for StandbyCurrent {
    open spec fn spec_from_operand(op: [u8; 4]) -> Option<Self> {
        Some(StandbyCurrent(spec_decode_u16(op@)))
    }

    fn from_operand(op: [u8; 4]) -> (r: Option<Self>) {
        Some(StandbyCurrent(decode_u16(op)))
    }
}

impl ReadableAxisParameter for StandbyCurrent {

}

impl WriteableAxisParameter for StandbyCurrent {
    open spec fn spec_operand(&self) -> Seq<u8> {
        spec_encode_u16(self.0)
    }

    fn operand(&self) -> (r: [u8; 4]) {
        encode_u16(self.0)
    }
}

impl ReadWriteAxisParameter for StandbyCurrent {
    proof fn lemma_round_trip(v: Self, op: [u8; 4]) {
        lemma_native_round_trip(0u8, 0i8, v.0, 0i16, 0i32, 0u32, false);
    }
}

impl TmcmAxisParameter for StandbyCurrent {

}

impl ReadableTmcmAxisParameter for StandbyCurrent {

}

impl WriteableTmcmAxisParameter for StandbyCurrent {

}

/// Position reached flag
///
/// This flag is always set when target position and actual position are equal.
#[derive(Debug, PartialEq, Eq, Structural, Clone, Copy)]
pub struct PositionReachedFlag(pub bool);

impl AxisParameter for PositionReachedFlag {
    open spec fn spec_number() -> u8 {
        8
    }

    fn number() -> (r: u8) {
        8
    }
}

impl Return for PositionReachedFlag {
    open spec fn spec_from_operand(op: [u8; 4]) -> Option<Self> {
        Some(PositionReachedFlag(spec_decode_bool(op@)))
    }

    fn from_operand(op: [u8; 4]) -> (r: Option<Self>) {
        Some(PositionReachedFlag(decode_bool(op)))
    }
}

impl ReadableAxisParameter for PositionReachedFlag {

}

impl TmcmAxisParameter for PositionReachedFlag {

}

impl ReadableTmcmAxisParameter for PositionReachedFlag {

}

/// Home switch state
///
/// The logical state of the home switch input.
#[derive(Debug, PartialEq, Eq, Structural, Clone, Copy)]
pub struct HomeSwitchState(pub bool);

impl AxisParameter for HomeSwitchState {
    open spec fn spec_number() -> u8 {
        9
    }

    fn number() -> (r: u8) {
        9
    }
}

impl Return for HomeSwitchState {
    open spec fn spec_from_operand(op: [u8; 4]) -> Option<Self> {
        Some(HomeSwitchState(spec_decode_bool(op@)))
    }

    fn from_operand(op: [u8; 4]) -> (r: Option<Self>) {
        Some(HomeSwitchState(decode_bool(op)))
    }
}

impl ReadableAxisParameter for HomeSwitchState {

}

impl TmcmAxisParameter for HomeSwitchState {

}

impl ReadableTmcmAxisParameter for HomeSwitchState {

}

/// Right limit switch state
///
/// The logical state of the right limit switch input.
#[derive(Debug, PartialEq, Eq, Structural, Clone, Copy)]
pub struct RightLimitSwitchState(pub bool);

impl AxisParameter for RightLimitSwitchState {
    open spec fn spec_number() -> u8 {
        10
    }

    fn number() -> (r: u8) {
        10
    }
}

impl Return for RightLimitSwitchState {
    open spec fn spec_from_operand(op: [u8; 4]) -> Option<Self> {
        Some(RightLimitSwitchState(spec_decode_bool(op@)))
    }

    fn from_operand(op: [u8; 4]) -> (r: Option<Self>) {
        Some(RightLimitSwitchState(decode_bool(op)))
    }
}

impl ReadableAxisParameter for RightLimitSwitchState {

}

impl TmcmAxisParameter for RightLimitSwitchState {

}

impl ReadableTmcmAxisParameter for RightLimitSwitchState {

}

/// Left limit switch state
///
/// The logical state of the left limit switch input.
#[derive(Debug, PartialEq, Eq, Structural, Clone, Copy)]
pub struct LeftLimitSwitchState(pub bool);

impl AxisParameter for LeftLimitSwitchState {
    open spec fn spec_number() -> u8 {
        11
    }

    fn number() -> (r: u8) {
        11
    }
}

impl Return for LeftLimitSwitchState {
    open spec fn spec_from_operand(op: [u8; 4]) -> Option<Self> {
        Some(LeftLimitSwitchState(spec_decode_bool(op@)))
    }

    fn from_operand(op: [u8; 4]) -> (r: Option<Self>) {
        Some(LeftLimitSwitchState(decode_bool(op)))
    }
}

impl ReadableAxisParameter for LeftLimitSwitchState {

}

impl TmcmAxisParameter for LeftLimitSwitchState {

}

impl ReadableTmcmAxisParameter for LeftLimitSwitchState {

}

/// If set, deactivates the stop function of the right switch
#[derive(Debug, PartialEq, Eq, Structural, Clone, Copy)]
pub struct RightLimitSwitchDisable(pub bool);

impl RightLimitSwitchDisable {
    pub fn disabled() -> (r: Self)
        ensures
            r == RightLimitSwitchDisable(true),
    {
        RightLimitSwitchDisable(true)
    }

    pub fn enabled() -> (r: Self)
        ensures
            r == RightLimitSwitchDisable(false),
    {
        RightLimitSwitchDisable(false)
    }
}

impl AxisParameter for RightLimitSwitchDisable {
    open spec fn spec_number() -> u8 {
        12
    }

    fn number() -> (r: u8) {
        12
    }
}

impl Return for RightLimitSwitchDisable {
    open spec fn spec_from_operand(op: [u8; 4]) -> Option<Self> {
        Some(RightLimitSwitchDisable(spec_decode_bool(op@)))
    }

    fn from_operand(op: [u8; 4]) -> (r: Option<Self>) {
        Some(RightLimitSwitchDisable(decode_bool(op)))
    }
}

impl ReadableAxisParameter for RightLimitSwitchDisable {

}

impl WriteableAxisParameter for RightLimitSwitchDisable {
    open spec fn spec_operand(&self) -> Seq<u8> {
        spec_encode_bool(self.0)
    }

    fn operand(&self) -> (r: [u8; 4]) {
        encode_bool(self.0)
    }
}

impl ReadWriteAxisParameter for RightLimitSwitchDisable {
    proof fn lemma_round_trip(v: Self, op: [u8; 4]) {
        lemma_native_round_trip(0u8, 0i8, 0u16, 0i16, 0i32, 0u32, v.0);
    }
}

impl TmcmAxisParameter for RightLimitSwitchDisable {

}

impl ReadableTmcmAxisParameter for RightLimitSwitchDisable {

}

impl WriteableTmcmAxisParameter for RightLimitSwitchDisable {

}

/// Deactivates the stop function of the left switch resp. reference switch if set.
#[derive(Debug, PartialEq, Eq, Structural, Clone, Copy)]
pub struct LeftLimitSwitchDisable(pub bool);

impl LeftLimitSwitchDisable {
    pub fn disabled() -> (r: Self)
        ensures
            r == LeftLimitSwitchDisable(true),
    {
        LeftLimitSwitchDisable(true)
    }

    pub fn enabled() -> (r: Self)
        ensures
            r == LeftLimitSwitchDisable(false),
    {
        LeftLimitSwitchDisable(false)
    }
}

impl AxisParameter for LeftLimitSwitchDisable {
    open spec fn spec_number() -> u8 {
        13
    }

    fn number() -> (r: u8) {
        13
    }
}

impl Return for LeftLimitSwitchDisable {
    open spec fn spec_from_operand(op: [u8; 4]) -> Option<Self> {
        Some(LeftLimitSwitchDisable(spec_decode_bool(op@)))
    }

    fn from_operand(op: [u8; 4]) -> (r: Option<Self>) {
        Some(LeftLimitSwitchDisable(decode_bool(op)))
    }
}

impl ReadableAxisParameter for LeftLimitSwitchDisable {

}

impl WriteableAxisParameter for LeftLimitSwitchDisable {
    open spec fn spec_operand(&self) -> Seq<u8> {
        spec_encode_bool(self.0)
    }

    fn operand(&self) -> (r: [u8; 4]) {
        encode_bool(self.0)
    }
}

impl ReadWriteAxisParameter for LeftLimitSwitchDisable {
    proof fn lemma_round_trip(v: Self, op: [u8; 4]) {
        lemma_native_round_trip(0u8, 0i8, 0u16, 0i16, 0i32, 0u32, v.0);
    }
}

impl TmcmAxisParameter for LeftLimitSwitchDisable {

}

impl ReadableTmcmAxisParameter for LeftLimitSwitchDisable {

}

impl WriteableTmcmAxisParameter for LeftLimitSwitchDisable {

}

/// The maximum deceleration.
///
/// Maximum deceleration in positioning ramps. Used to decelerate from
/// maximum positioning speed (axis parameter 4) to velocity V1.
#[derive(Debug, PartialEq, Eq, Structural, Clone, Copy)]
pub struct MaximumDeceleration(pub u32);

impl MaximumDeceleration {
    pub fn new(acc: u32) -> (r: Self)
        ensures
            r == MaximumDeceleration(acc),
    {
        MaximumDeceleration(acc)
    }
}

impl AxisParameter for MaximumDeceleration {
    open spec fn spec_number() -> u8 {
        17
    }

    fn number() -> (r: u8) {
        17
    }
}

impl Return for MaximumDeceleration {
    open spec fn spec_from_operand(op: [u8; 4]) -> Option<Self> {
        Some(MaximumDeceleration(spec_bytes_u32(op@)))
    }

    fn from_operand(op: [u8; 4]) -> (r: Option<Self>) {
        Some(MaximumDeceleration(decode_u32(op)))
    }
}

impl ReadableAxisParameter for MaximumDeceleration {

}

impl WriteableAxisParameter for MaximumDeceleration {
    open spec fn spec_operand(&self) -> Seq<u8> {
        spec_u32_bytes(self.0)
    }

    fn operand(&self) -> (r: [u8; 4]) {
        encode_u32(self.0)
    }
}

impl ReadWriteAxisParameter for MaximumDeceleration {
    proof fn lemma_round_trip(v: Self, op: [u8; 4]) {
        lemma_native_round_trip(0u8, 0i8, 0u16, 0i16, 0i32, v.0, false);
    }
}

impl TmcmAxisParameter for MaximumDeceleration {

}

impl ReadableTmcmAxisParameter for MaximumDeceleration {

}

impl WriteableTmcmAxisParameter for MaximumDeceleration {

}

/// Microstep Resolution
///
/// Note that modifying this parameter will affect the rotation speed in the same relation.
#[derive(Debug, PartialEq, Eq, Structural, Clone, Copy)]
pub enum MicrostepResolution {
    /// Fullstep
    Full,
    /// Halfstep
    Half,
    /// 4 microsteps
    Micro4,
    /// 8 microsteps
    Micro8,
    /// 16 microsteps
    Micro16,
    /// 32 microsteps
    Micro32,
    /// 64 microsteps
    Micro64,
    /// 128 microsteps
    Micro128,
    /// 256 microsteps
    Micro256,
}

impl MicrostepResolution {
    /// The parameter value: the binary logarithm of the microsteps per full step.
    pub open spec fn spec_code(self) -> u8 {
        match self {
            MicrostepResolution::Full => 0,
            MicrostepResolution::Half => 1,
            MicrostepResolution::Micro4 => 2,
            MicrostepResolution::Micro8 => 3,
            MicrostepResolution::Micro16 => 4,
            MicrostepResolution::Micro32 => 5,
            MicrostepResolution::Micro64 => 6,
            MicrostepResolution::Micro128 => 7,
            MicrostepResolution::Micro256 => 8,
        }
    }

    /// The number of microsteps per full step.
    pub open spec fn spec_scaled(self) -> u16 {
        match self {
            MicrostepResolution::Full => 1,
            MicrostepResolution::Half => 2,
            MicrostepResolution::Micro4 => 4,
            MicrostepResolution::Micro8 => 8,
            MicrostepResolution::Micro16 => 16,
            MicrostepResolution::Micro32 => 32,
            MicrostepResolution::Micro64 => 64,
            MicrostepResolution::Micro128 => 128,
            MicrostepResolution::Micro256 => 256,
        }
    }

    /// The resolution whose parameter value is `v`; values above 8 are refused.
    pub fn try_from_u8(v: u8) -> (r: Result<Self, ()>)
        ensures
            r == match spec_microstep_of(v) {
                Some(m) => Ok::<MicrostepResolution, ()>(m),
                None => Err(()),
            },
    {
        match v {
            0 => Ok(MicrostepResolution::Full),
            1 => Ok(MicrostepResolution::Half),
            2 => Ok(MicrostepResolution::Micro4),
            3 => Ok(MicrostepResolution::Micro8),
            4 => Ok(MicrostepResolution::Micro16),
            5 => Ok(MicrostepResolution::Micro32),
            6 => Ok(MicrostepResolution::Micro64),
            7 => Ok(MicrostepResolution::Micro128),
            8 => Ok(MicrostepResolution::Micro256),
            _ => Err(()),
        }
    }

    /// The resolution with `v` microsteps per full step; anything but a power
    /// of two up to 256 is refused.
    pub fn try_from_scaled(v: u16) -> (r: Result<Self, ()>)
        ensures
            r == match spec_microstep_of_scaled(v) {
                Some(m) => Ok::<MicrostepResolution, ()>(m),
                None => Err(()),
            },
    {
        match v {
            1 => Ok(MicrostepResolution::Full),
            2 => Ok(MicrostepResolution::Half),
            4 => Ok(MicrostepResolution::Micro4),
            8 => Ok(MicrostepResolution::Micro8),
            16 => Ok(MicrostepResolution::Micro16),
            32 => Ok(MicrostepResolution::Micro32),
            64 => Ok(MicrostepResolution::Micro64),
            128 => Ok(MicrostepResolution::Micro128),
            256 => Ok(MicrostepResolution::Micro256),
            _ => Err(()),
        }
    }

    /// The parameter value.
    pub fn code(&self) -> (r: u8)
        ensures
            r == self.spec_code(),
    {
        match self {
            MicrostepResolution::Full => 0,
            MicrostepResolution::Half => 1,
            MicrostepResolution::Micro4 => 2,
            MicrostepResolution::Micro8 => 3,
            MicrostepResolution::Micro16 => 4,
            MicrostepResolution::Micro32 => 5,
            MicrostepResolution::Micro64 => 6,
            MicrostepResolution::Micro128 => 7,
            MicrostepResolution::Micro256 => 8,
        }
    }
}

/// The resolution whose parameter value is `v`, if any.
pub open spec fn spec_microstep_of(v: u8) -> Option<MicrostepResolution> {
    match v {
        0 => Some(MicrostepResolution::Full),
        1 => Some(MicrostepResolution::Half),
        2 => Some(MicrostepResolution::Micro4),
        3 => Some(MicrostepResolution::Micro8),
        4 => Some(MicrostepResolution::Micro16),
        5 => Some(MicrostepResolution::Micro32),
        6 => Some(MicrostepResolution::Micro64),
        7 => Some(MicrostepResolution::Micro128),
        8 => Some(MicrostepResolution::Micro256),
        _ => None,
    }
}

/// The resolution with `v` microsteps per full step, if any.
pub open spec fn spec_microstep_of_scaled(v: u16) -> Option<MicrostepResolution> {
    match v {
        1 => Some(MicrostepResolution::Full),
        2 => Some(MicrostepResolution::Half),
        4 => Some(MicrostepResolution::Micro4),
        8 => Some(MicrostepResolution::Micro8),
        16 => Some(MicrostepResolution::Micro16),
        32 => Some(MicrostepResolution::Micro32),
        64 => Some(MicrostepResolution::Micro64),
        128 => Some(MicrostepResolution::Micro128),
        256 => Some(MicrostepResolution::Micro256),
        _ => None,
    }
}

/// The table of parameter values, and that of microstep counts, are each
/// one to one with the resolutions.
pub proof fn lemma_microstep_tables(v: u8, n: u16, m: MicrostepResolution)
    ensures
        spec_microstep_of(v) == Some(m) <==> m.spec_code() == v,
        spec_microstep_of_scaled(n) == Some(m) <==> m.spec_scaled() == n,
{
}

impl AxisParameter for MicrostepResolution {
    open spec fn spec_number() -> u8 {
        140
    }

    fn number() -> (r: u8) {
        140
    }
}

impl Return for MicrostepResolution {
    /// The lowest operand byte holds the parameter value.
    open spec fn spec_from_operand(op: [u8; 4]) -> Option<Self> {
        spec_microstep_of(op[3])
    }

    fn from_operand(op: [u8; 4]) -> (r: Option<Self>) {
        match MicrostepResolution::try_from_u8(op[3]) {
            Ok(m) => Some(m),
            Err(_) => None,
        }
    }
}

impl ReadableAxisParameter for MicrostepResolution {

}

impl WriteableAxisParameter for MicrostepResolution {
    open spec fn spec_operand(&self) -> Seq<u8> {
        spec_low_byte(self.spec_code())
    }

    fn operand(&self) -> (r: [u8; 4]) {
        encode_low_byte(self.code())
    }
}

impl ReadWriteAxisParameter for MicrostepResolution {
    proof fn lemma_round_trip(v: Self, op: [u8; 4]) {
        assert(op[3] == op@[3]);
        lemma_microstep_tables(op[3], 0, v);
    }
}

impl TmcmAxisParameter for MicrostepResolution {

}

impl ReadableTmcmAxisParameter for MicrostepResolution {

}

impl WriteableTmcmAxisParameter for MicrostepResolution {

}

/// Reference search mode
///
/// 1. Search left stop switch only.
/// 2. Search right stop switch, then search left stop switch.
/// 3. Search right stop switch, then search left stop switch from both sides.
/// 4. Search left stop switch from both sides.
/// 5. Search home switch in negative direction, reverse the direction when left
///    stop switch reached.
/// 6. Search home switch in positive direction, reverse the direction when
///    right stop switch reached.
/// 7. Search home switch in positive direction, ignore end switches.
/// 8. Search home switch in negative direction, ignore end switches.
///
/// Additional functions
/// - Add 128 to a mode value for inverting the home switch (modes 5 to 8).
/// - Add 64 to a mode for searching the right instead of the left reference
///   switch (modes 1 to 4).
#[derive(Debug, PartialEq, Eq, Structural, Clone, Copy)]
#[allow(inconsistent_fields)]
pub enum ReferenceSearchMode {
    LimitSwitchSearch { search_mode: SearchMode, swap_left_right: bool },
    HomeSearch { search_mode: HomeSearchMode, invert_home_switch: bool },
}

#[derive(Debug, PartialEq, Eq, Structural, Clone, Copy)]
pub enum SearchMode {
    /// Search left stop switch only.
    LeftSwitch,
    /// Search right stop switch, then search left stop switch.
    RightThenLeftSwitch,
    /// Search right stop switch, then search left stop switch from both sides.
    RightThenLeftFromBothSides,
    /// Search left stop switch from both sides.
    LeftFromBothSides,
}

#[derive(Debug, PartialEq, Eq, Structural, Clone, Copy)]
pub enum HomeSearchMode {
    /// Search home switch in negative direction, reverse the direction when
    /// left stop switch reached.
    NegativeThenLeft,
    /// Search home switch in positive direction, reverse the direction when
    /// right stop switch reached.
    PositiveThenRight,
    /// Search home switch in positive direction, ignore end switches.
    Positive,
    /// Search home switch in negative direction, ignore end switches.
    Negative,
}

impl SearchMode {
    pub open spec fn spec_code(self) -> u8 {
        match self {
            SearchMode::LeftSwitch => 1,
            SearchMode::RightThenLeftSwitch => 2,
            SearchMode::RightThenLeftFromBothSides => 3,
            SearchMode::LeftFromBothSides => 4,
        }
    }
}

impl HomeSearchMode {
    pub open spec fn spec_code(self) -> u8 {
        match self {
            HomeSearchMode::NegativeThenLeft => 5,
            HomeSearchMode::PositiveThenRight => 6,
            HomeSearchMode::Positive => 7,
            HomeSearchMode::Negative => 8,
        }
    }
}

impl ReferenceSearchMode {
    /// The parameter value: the base mode plus its modifier bit.
    pub open spec fn spec_code(self) -> u8 {
        match self {
            ReferenceSearchMode::LimitSwitchSearch { search_mode, swap_left_right } => (search_mode.spec_code()
                + if swap_left_right {
                64u8
            } else {
                0u8
            }) as u8,
            ReferenceSearchMode::HomeSearch { search_mode, invert_home_switch } => (search_mode.spec_code()
                + if invert_home_switch {
                128u8
            } else {
                0u8
            }) as u8,
        }
    }

    /// The parameter value.
    pub fn code(&self) -> (r: u8)
        ensures
            r == self.spec_code(),
    {
        match self {
            ReferenceSearchMode::LimitSwitchSearch { search_mode, swap_left_right } => {
                let base: u8 = match search_mode {
                    SearchMode::LeftSwitch => 1,
                    SearchMode::RightThenLeftSwitch => 2,
                    SearchMode::RightThenLeftFromBothSides => 3,
                    SearchMode::LeftFromBothSides => 4,
                };
                base + if *swap_left_right {
                    64
                } else {
                    0
                }
            },
            ReferenceSearchMode::HomeSearch { search_mode, invert_home_switch } => {
                let base: u8 = match search_mode {
                    HomeSearchMode::NegativeThenLeft => 5,
                    HomeSearchMode::PositiveThenRight => 6,
                    HomeSearchMode::Positive => 7,
                    HomeSearchMode::Negative => 8,
                };
                base + if *invert_home_switch {
                    128
                } else {
                    0
                }
            },
        }
    }

    /// The mode whose parameter value is `v`. The low bits select the base
    /// mode; 64 may be added to modes 1 to 4 and 128 to modes 5 to 8. Any
    /// other value is refused.
    pub fn try_from_u8(v: u8) -> (r: Result<Self, ()>)
        ensures
            r == match spec_reference_search_mode_of(v) {
                Some(m) => Ok::<ReferenceSearchMode, ()>(m),
                None => Err(()),
            },
    {
        let (base, modifier) = if v >= 128 {
            (v - 128, true)
        } else if v >= 64 {
            (v - 64, true)
        } else {
            (v, false)
        };
        if v < 128 && 1 <= base && base <= 4 {
            let search_mode = match base {
                1 => SearchMode::LeftSwitch,
                2 => SearchMode::RightThenLeftSwitch,
                3 => SearchMode::RightThenLeftFromBothSides,
                _ => SearchMode::LeftFromBothSides,
            };
            Ok(ReferenceSearchMode::LimitSwitchSearch { search_mode, swap_left_right: modifier })
        } else if (v >= 128 || v < 64) && 5 <= base && base <= 8 {
            let search_mode = match base {
                5 => HomeSearchMode::NegativeThenLeft,
                6 => HomeSearchMode::PositiveThenRight,
                7 => HomeSearchMode::Positive,
                _ => HomeSearchMode::Negative,
            };
            Ok(ReferenceSearchMode::HomeSearch { search_mode, invert_home_switch: modifier })
        } else {
            Err(())
        }
    }
}

/// The base mode of limit switch search numbered `b`, if any.
pub open spec fn spec_search_mode_of(b: u8) -> Option<SearchMode> {
    match b {
        1 => Some(SearchMode::LeftSwitch),
        2 => Some(SearchMode::RightThenLeftSwitch),
        3 => Some(SearchMode::RightThenLeftFromBothSides),
        4 => Some(SearchMode::LeftFromBothSides),
        _ => None,
    }
}

/// The base mode of home search numbered `b`, if any.
pub open spec fn spec_home_search_mode_of(b: u8) -> Option<HomeSearchMode> {
    match b {
        5 => Some(HomeSearchMode::NegativeThenLeft),
        6 => Some(HomeSearchMode::PositiveThenRight),
        7 => Some(HomeSearchMode::Positive),
        8 => Some(HomeSearchMode::Negative),
        _ => None,
    }
}

/// The mode whose parameter value is `v`, if any: a base mode of 1 to 4,
/// plus 64 to swap the switches, or a base mode of 5 to 8, plus 128 to
/// invert the home switch.
pub open spec fn spec_reference_search_mode_of(v: u8) -> Option<ReferenceSearchMode> {
    if 1 <= v <= 4 {
        Some(ReferenceSearchMode::LimitSwitchSearch { search_mode: spec_search_mode_of(v).unwrap(), swap_left_right: false })
    } else if 65 <= v <= 68 {
        Some(ReferenceSearchMode::LimitSwitchSearch { search_mode: spec_search_mode_of((v - 64) as u8).unwrap(), swap_left_right: true })
    } else if 5 <= v <= 8 {
        Some(ReferenceSearchMode::HomeSearch { search_mode: spec_home_search_mode_of(v).unwrap(), invert_home_switch: false })
    } else if 133 <= v <= 136 {
        Some(ReferenceSearchMode::HomeSearch { search_mode: spec_home_search_mode_of((v - 128) as u8).unwrap(), invert_home_switch: true })
    } else {
        None
    }
}

/// A byte decodes to a mode exactly when it is that mode's parameter value:
/// decoding and encoding undo each other.
pub proof fn lemma_reference_search_mode_table(v: u8, m: ReferenceSearchMode)
    ensures
        spec_reference_search_mode_of(v) == Some(m) <==> m.spec_code() == v,
{
}

impl AxisParameter for ReferenceSearchMode {
    open spec fn spec_number() -> u8 {
        193
    }

    fn number() -> (r: u8) {
        193
    }
}

impl Return for ReferenceSearchMode {
    /// The lowest operand byte holds the parameter value.
    open spec fn spec_from_operand(op: [u8; 4]) -> Option<Self> {
        spec_reference_search_mode_of(op[3])
    }

    fn from_operand(op: [u8; 4]) -> (r: Option<Self>) {
        match ReferenceSearchMode::try_from_u8(op[3]) {
            Ok(m) => Some(m),
            Err(_) => None,
        }
    }
}

impl ReadableAxisParameter for ReferenceSearchMode {

}

impl WriteableAxisParameter for ReferenceSearchMode {
    open spec fn spec_operand(&self) -> Seq<u8> {
        spec_low_byte(self.spec_code())
    }

    fn operand(&self) -> (r: [u8; 4]) {
        encode_low_byte(self.code())
    }
}

impl ReadWriteAxisParameter for ReferenceSearchMode {
    proof fn lemma_round_trip(v: Self, op: [u8; 4]) {
        assert(op[3] == op@[3]);
        lemma_reference_search_mode_table(op[3], v);
    }
}

impl TmcmAxisParameter for ReferenceSearchMode {

}

impl ReadableTmcmAxisParameter for ReferenceSearchMode {

}

impl WriteableTmcmAxisParameter for ReferenceSearchMode {

}

/// Ramp divisor
///
/// The exponent of the scaling factor for the ramp generator. Change this
/// parameter carefully (in steps of one) and only while the motor is not
/// moving. Lower values lead to higher accelerations.
#[derive(Debug, PartialEq, Eq, Structural, Clone, Copy)]
pub struct RampDivisor(u8);

impl RampDivisor {
    pub closed spec fn spec_value(self) -> u8 {
        self.0
    }

    /// The divisor, an exponent, is at most 13.
    pub fn new(divisor: u8) -> (r: Self)
        requires
            divisor <= 13,
        ensures
            r.spec_value() == divisor,
    {
        RampDivisor(divisor)
    }

    /// The divisor.
    pub fn value(&self) -> (r: u8)
        ensures
            r == self.spec_value(),
    {
        self.0
    }
}

impl AxisParameter for RampDivisor {
    open spec fn spec_number() -> u8 {
        153
    }

    fn number() -> (r: u8) {
        153
    }
}

impl Return for RampDivisor {
    /// The lowest operand byte, as the module reports it.
    closed spec fn spec_from_operand(op: [u8; 4]) -> Option<Self> {
        Some(RampDivisor(spec_decode_u8(op@)))
    }

    fn from_operand(op: [u8; 4]) -> (r: Option<Self>) {
        Some(RampDivisor(decode_u8(op)))
    }
}

impl ReadableAxisParameter for RampDivisor {

}

impl WriteableAxisParameter for RampDivisor {
    open spec fn spec_operand(&self) -> Seq<u8> {
        spec_encode_u8(self.spec_value())
    }

    fn operand(&self) -> (r: [u8; 4]) {
        encode_u8(self.0)
    }
}

impl ReadWriteAxisParameter for RampDivisor {
    proof fn lemma_round_trip(v: Self, op: [u8; 4]) {
        lemma_native_round_trip(v.spec_value(), 0i8, 0u16, 0i16, 0i32, 0u32, false);
    }
}

impl TmcmAxisParameter for RampDivisor {

}

impl ReadableTmcmAxisParameter for RampDivisor {

}

impl WriteableTmcmAxisParameter for RampDivisor {

}

/// Pulse divisor
///
/// The exponent of the scaling factor for the pulse (step) generator.
/// Change this parameter carefully (in steps of one) and only while the
/// motor is not moving. Lower values lead to higher speeds.
#[derive(Debug, PartialEq, Eq, Structural, Clone, Copy)]
pub struct PulseDivisor(u8);

impl PulseDivisor {
    pub closed spec fn spec_value(self) -> u8 {
        self.0
    }

    /// The divisor, an exponent, is at most 13.
    pub fn new(divisor: u8) -> (r: Self)
        requires
            divisor <= 13,
        ensures
            r.spec_value() == divisor,
    {
        PulseDivisor(divisor)
    }

    /// The divisor.
    pub fn value(&self) -> (r: u8)
        ensures
            r == self.spec_value(),
    {
        self.0
    }
}

impl AxisParameter for PulseDivisor {
    open spec fn spec_number() -> u8 {
        154
    }

    fn number() -> (r: u8) {
        154
    }
}

impl Return for PulseDivisor {
    /// The lowest operand byte, as the module reports it.
    closed spec fn spec_from_operand(op: [u8; 4]) -> Option<Self> {
        Some(PulseDivisor(spec_decode_u8(op@)))
    }

    fn from_operand(op: [u8; 4]) -> (r: Option<Self>) {
        Some(PulseDivisor(decode_u8(op)))
    }
}

impl ReadableAxisParameter for PulseDivisor {

}

impl WriteableAxisParameter for PulseDivisor {
    open spec fn spec_operand(&self) -> Seq<u8> {
        spec_encode_u8(self.spec_value())
    }

    fn operand(&self) -> (r: [u8; 4]) {
        encode_u8(self.0)
    }
}

impl ReadWriteAxisParameter for PulseDivisor {
    proof fn lemma_round_trip(v: Self, op: [u8; 4]) {
        lemma_native_round_trip(v.spec_value(), 0i8, 0u16, 0i16, 0i32, 0u32, false);
    }
}

impl TmcmAxisParameter for PulseDivisor {

}

impl ReadableTmcmAxisParameter for PulseDivisor {

}

impl WriteableTmcmAxisParameter for PulseDivisor {

}

/// Reference search speed
///
/// This value specifies the speed for roughly searching the reference switch.
#[derive(Debug, PartialEq, Eq, Structural, Clone, Copy)]
pub struct ReferenceSearchSpeed(pub u32);

impl ReferenceSearchSpeed {
    pub fn new(speed: u32) -> (r: Self)
        ensures
            r == ReferenceSearchSpeed(speed),
    {
        ReferenceSearchSpeed(speed)
    }
}

impl AxisParameter for ReferenceSearchSpeed {
    open spec fn spec_number() -> u8 {
        194
    }

    fn number() -> (r: u8) {
        194
    }
}

impl Return for ReferenceSearchSpeed {
    open spec fn spec_from_operand(op: [u8; 4]) -> Option<Self> {
        Some(ReferenceSearchSpeed(spec_bytes_u32(op@)))
    }

    fn from_operand(op: [u8; 4]) -> (r: Option<Self>) {
        Some(ReferenceSearchSpeed(decode_u32(op)))
    }
}

impl ReadableAxisParameter for ReferenceSearchSpeed {

}

impl WriteableAxisParameter for ReferenceSearchSpeed {
    open spec fn spec_operand(&self) -> Seq<u8> {
        spec_u32_bytes(self.0)
    }

    fn operand(&self) -> (r: [u8; 4]) {
        encode_u32(self.0)
    }
}

impl ReadWriteAxisParameter for ReferenceSearchSpeed {
    proof fn lemma_round_trip(v: Self, op: [u8; 4]) {
        lemma_native_round_trip(0u8, 0i8, 0u16, 0i16, 0i32, v.0, false);
    }
}

impl TmcmAxisParameter for ReferenceSearchSpeed {

}

impl ReadableTmcmAxisParameter for ReferenceSearchSpeed {

}

impl WriteableTmcmAxisParameter for ReferenceSearchSpeed {

}

/// Reference switch speed
///
/// This parameter specifies the speed for searching the switching point.
/// It should be slower than parameter 194.
#[derive(Debug, PartialEq, Eq, Structural, Clone, Copy)]
pub struct ReferenceSwitchSpeed(pub u32);

impl ReferenceSwitchSpeed {
    pub fn new(speed: u32) -> (r: Self)
        ensures
            r == ReferenceSwitchSpeed(speed),
    {
        ReferenceSwitchSpeed(speed)
    }
}

impl AxisParameter for ReferenceSwitchSpeed {
    open spec fn spec_number() -> u8 {
        195
    }

    fn number() -> (r: u8) {
        195
    }
}

impl Return for ReferenceSwitchSpeed {
    open spec fn spec_from_operand(op: [u8; 4]) -> Option<Self> {
        Some(ReferenceSwitchSpeed(spec_bytes_u32(op@)))
    }

    fn from_operand(op: [u8; 4]) -> (r: Option<Self>) {
        Some(ReferenceSwitchSpeed(decode_u32(op)))
    }
}

impl ReadableAxisParameter for ReferenceSwitchSpeed {

}

impl WriteableAxisParameter for ReferenceSwitchSpeed {
    open spec fn spec_operand(&self) -> Seq<u8> {
        spec_u32_bytes(self.0)
    }

    fn operand(&self) -> (r: [u8; 4]) {
        encode_u32(self.0)
    }
}

impl ReadWriteAxisParameter for ReferenceSwitchSpeed {
    proof fn lemma_round_trip(v: Self, op: [u8; 4]) {
        lemma_native_round_trip(0u8, 0i8, 0u16, 0i16, 0i32, v.0, false);
    }
}

impl TmcmAxisParameter for ReferenceSwitchSpeed {

}

impl ReadableTmcmAxisParameter for ReferenceSwitchSpeed {

}

impl WriteableTmcmAxisParameter for ReferenceSwitchSpeed {

}

/// End switch distance
///
/// The distance between the end switches after executing the reference
/// search (with reference search mode 2 or 3).
#[derive(Debug, PartialEq, Eq, Structural, Clone, Copy)]
pub struct EndSwitchDistance(pub i32);

impl AxisParameter for EndSwitchDistance {
    open spec fn spec_number() -> u8 {
        196
    }

    fn number() -> (r: u8) {
        196
    }
}

impl Return for EndSwitchDistance {
    open spec fn spec_from_operand(op: [u8; 4]) -> Option<Self> {
        Some(EndSwitchDistance(spec_decode_i32(op@)))
    }

    fn from_operand(op: [u8; 4]) -> (r: Option<Self>) {
        Some(EndSwitchDistance(decode_i32(op)))
    }
}

impl ReadableAxisParameter for EndSwitchDistance {

}

impl TmcmAxisParameter for EndSwitchDistance {

}

impl ReadableTmcmAxisParameter for EndSwitchDistance {

}

/// Last reference position
///
/// The last position value before the position counter is set to zero
/// during reference search.
#[derive(Debug, PartialEq, Eq, Structural, Clone, Copy)]
pub struct LastReferencePosition(pub i32);

impl AxisParameter for LastReferencePosition {
    open spec fn spec_number() -> u8 {
        197
    }

    fn number() -> (r: u8) {
        197
    }
}

impl Return for LastReferencePosition {
    open spec fn spec_from_operand(op: [u8; 4]) -> Option<Self> {
        Some(LastReferencePosition(spec_decode_i32(op@)))
    }

    fn from_operand(op: [u8; 4]) -> (r: Option<Self>) {
        Some(LastReferencePosition(decode_i32(op)))
    }
}

impl ReadableAxisParameter for LastReferencePosition {

}

impl TmcmAxisParameter for LastReferencePosition {

}

impl ReadableTmcmAxisParameter for LastReferencePosition {

}

/// Boost current
///
/// Current used for acceleration and deceleration phases. If set to 0 the
/// same current as set by axis parameter 6 will be used.
#[derive(Debug, PartialEq, Eq, Structural, Clone, Copy)]
pub struct BoostCurrent(pub u8);

impl BoostCurrent {
    pub fn new(current: u8) -> (r: Self)
        ensures
            r == BoostCurrent(current),
    {
        BoostCurrent(current)
    }
}

impl AxisParameter for BoostCurrent {
    open spec fn spec_number() -> u8 {
        200
    }

    fn number() -> (r: u8) {
        200
    }
}

impl Return for BoostCurrent {
    open spec fn spec_from_operand(op: [u8; 4]) -> Option<Self> {
        Some(BoostCurrent(spec_decode_u8(op@)))
    }

    fn from_operand(op: [u8; 4]) -> (r: Option<Self>) {
        Some(BoostCurrent(decode_u8(op)))
    }
}

impl ReadableAxisParameter for BoostCurrent {

}

impl WriteableAxisParameter for BoostCurrent {
    open spec fn spec_operand(&self) -> Seq<u8> {
        spec_encode_u8(self.0)
    }

    fn operand(&self) -> (r: [u8; 4]) {
        encode_u8(self.0)
    }
}

impl ReadWriteAxisParameter for BoostCurrent {
    proof fn lemma_round_trip(v: Self, op: [u8; 4]) {
        lemma_native_round_trip(v.0, 0i8, 0u16, 0i16, 0i32, 0u32, false);
    }
}

impl TmcmAxisParameter for BoostCurrent {

}

impl ReadableTmcmAxisParameter for BoostCurrent {

}

impl WriteableTmcmAxisParameter for BoostCurrent {

}

/// Power down delay
///
/// Standstill period before the motor current will be switched to standby
/// current, in units of 10 ms.
#[derive(Debug, PartialEq, Eq, Structural, Clone, Copy)]
pub struct PowerDownDelay(pub u16);

impl PowerDownDelay {
    pub fn new(delay: u16) -> (r: Self)
        ensures
            r == PowerDownDelay(delay),
    {
        PowerDownDelay(delay)
    }
}

impl AxisParameter for PowerDownDelay {
    open spec fn spec_number() -> u8 {
        214
    }

    fn number() -> (r: u8) {
        214
    }
}

impl Return for PowerDownDelay {
    open spec fn spec_from_operand(op: [u8; 4]) -> Option<Self> {
        Some(PowerDownDelay(spec_decode_u16(op@)))
    }

    fn from_operand(op: [u8; 4]) -> (r: Option<Self>) {
        Some(PowerDownDelay(decode_u16(op)))
    }
}

impl ReadableAxisParameter for PowerDownDelay {

}

impl WriteableAxisParameter for PowerDownDelay {
    open spec fn spec_operand(&self) -> Seq<u8> {
        spec_encode_u16(self.0)
    }

    fn operand(&self) -> (r: [u8; 4]) {
        encode_u16(self.0)
    }
}

impl ReadWriteAxisParameter for PowerDownDelay {
    proof fn lemma_round_trip(v: Self, op: [u8; 4]) {
        lemma_native_round_trip(0u8, 0i8, v.0, 0i16, 0i32, 0u32, false);
    }
}

impl TmcmAxisParameter for PowerDownDelay {

}

impl ReadableTmcmAxisParameter for PowerDownDelay {

}

impl WriteableTmcmAxisParameter for PowerDownDelay {

}

} // verus!
