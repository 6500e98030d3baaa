//! The status byte of a reply.
use vstd::prelude::*;

verus! {

/// The outcomes in which the module carried out the command.
#[derive(Debug, PartialEq, Eq, Structural, Clone, Copy)]
pub enum OkStatus {
    /// Successfully executed, no error
    Success,
    /// Command loaded into the program EEPROM
    LoadedIntoEEPROM,
}

/// The outcomes in which the module rejected the command.
#[derive(Debug, PartialEq, Eq, Structural, Clone, Copy)]
pub enum ErrStatus {
    /// Wrong checksum
    WrongChecksum,
    /// Invalid command
    InvalidCommand,
    /// Wrong type
    WrongType,
    /// Invalid value
    InvalidValue,
    /// Configuration EEPROM locked
    EEPROMLocked,
    /// Command not available
    CommandNotAvailable,
}

/// The outcome a module reports for every command.
#[must_use]
#[derive(Debug, PartialEq, Eq, Clone, Copy)]
pub struct Status(pub Result<OkStatus, ErrStatus>);

/// A status byte outside the documented set.
#[derive(Debug, PartialEq, Eq, Structural, Clone, Copy)]
pub struct NonValidErrorCode;

impl OkStatus {
    pub open spec fn spec_code(self) -> u8 {
        match self {
            OkStatus::Success => 100,
            OkStatus::LoadedIntoEEPROM => 101,
        }
    }

    /// The status byte of this outcome.
    pub fn code(&self) -> (r: u8)
        ensures
            r == self.spec_code(),
    {
        match self {
            OkStatus::Success => 100,
            OkStatus::LoadedIntoEEPROM => 101,
        }
    }
}

impl ErrStatus {
    pub open spec fn spec_code(self) -> u8 {
        match self {
            ErrStatus::WrongChecksum => 1,
            ErrStatus::InvalidCommand => 2,
            ErrStatus::WrongType => 3,
            ErrStatus::InvalidValue => 4,
            ErrStatus::EEPROMLocked => 5,
            ErrStatus::CommandNotAvailable => 6,
        }
    }

    /// The status byte of this outcome.
    pub fn code(&self) -> (r: u8)
        ensures
            r == self.spec_code(),
    {
        match self {
            ErrStatus::WrongChecksum => 1,
            ErrStatus::InvalidCommand => 2,
            ErrStatus::WrongType => 3,
            ErrStatus::InvalidValue => 4,
            ErrStatus::EEPROMLocked => 5,
            ErrStatus::CommandNotAvailable => 6,
        }
    }
}

/// The status that a byte stands for, if any.
pub open spec fn spec_status_of(b: u8) -> Option<Status> {
    match b {
        100 => Some(Status(Ok(OkStatus::Success))),
        101 => Some(Status(Ok(OkStatus::LoadedIntoEEPROM))),
        1 => Some(Status(Err(ErrStatus::WrongChecksum))),
        2 => Some(Status(Err(ErrStatus::InvalidCommand))),
        3 => Some(Status(Err(ErrStatus::WrongType))),
        4 => Some(Status(Err(ErrStatus::InvalidValue))),
        5 => Some(Status(Err(ErrStatus::EEPROMLocked))),
        6 => Some(Status(Err(ErrStatus::CommandNotAvailable))),
        _ => None,
    }
}

impl Status {
    pub open spec fn spec_code(self) -> u8 {
        match self.0 {
            Ok(s) => s.spec_code(),
            Err(e) => e.spec_code(),
        }
    }

    /// Returns `true` if `Status` is `Ok` or `LoadedIntoEEPROM`
    pub fn is_ok(&self) -> (r: bool)
        ensures
            r == (self.0 is Ok),
    {
        match self.0 {
            Ok(_) => true,
            Err(_) => false,
        }
    }

    /// The status byte of this outcome.
    pub fn code(&self) -> (r: u8)
        ensures
            r == self.spec_code(),
    {
        match self.0 {
            Ok(s) => s.code(),
            Err(e) => e.code(),
        }
    }

    /// Decodes a status byte; a byte outside the documented set is refused.
    pub fn try_from(id: u8) -> (r: Result<Status, NonValidErrorCode>)
        ensures
            match spec_status_of(id) {
                Some(s) => r == Ok::<Status, NonValidErrorCode>(s),
                None => r == Err::<Status, NonValidErrorCode>(NonValidErrorCode),
            },
    {
        match id {
            100 => Ok(Status(Ok(OkStatus::Success))),
            101 => Ok(Status(Ok(OkStatus::LoadedIntoEEPROM))),
            1 => Ok(Status(Err(ErrStatus::WrongChecksum))),
            2 => Ok(Status(Err(ErrStatus::InvalidCommand))),
            3 => Ok(Status(Err(ErrStatus::WrongType))),
            4 => Ok(Status(Err(ErrStatus::InvalidValue))),
            5 => Ok(Status(Err(ErrStatus::EEPROMLocked))),
            6 => Ok(Status(Err(ErrStatus::CommandNotAvailable))),
            _ => Err(NonValidErrorCode),
        }
    }
}

/// A byte decodes to a status exactly when it is that status's code, and
/// exactly the eight documented bytes decode at all.
pub proof fn lemma_status_codes(b: u8, s: Status)
    ensures
        spec_status_of(b) == Some(s) <==> s.spec_code() == b,
        spec_status_of(b) is Some <==> (b == 100 || b == 101 || (1 <= b && b <= 6)),
{
}

} // verus!
