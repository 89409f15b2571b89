//! The four completion codes of a command, each decoded into a named outcome.
//! A code without a name is kept as it came.

use crate::text::{append_decimal, decimal};
use vstd::prelude::*;
use vstd::string::StringExecFns;

verus! {

/// The status byte that the device returns.
#[derive(Debug, Clone, Copy, PartialEq, Eq, Structural)]
pub enum Status {
    Good,
    CheckCondition,
    ConditionMet,
    Busy,
    ReservationConflict,
    TaskSetFull,
    ACAActive,
    TaskAborted,
    Unknown(u8),
}

/// The status that the host adapter reports.
#[derive(Debug, Clone, Copy, PartialEq, Eq, Structural)]
pub enum HostStatus {
    OK,
    NoConnect,
    BusBusy,
    TimeOut,
    BadTarget,
    Abort,
    Parity,
    Error,
    Reset,
    BadIntr,
    Passthrough,
    SoftError,
    ImmRetry,
    Requeue,
    Unknown(u16),
}

/// The status that the driver reports: the low four bits of its status word.
#[derive(Debug, Clone, Copy, PartialEq, Eq, Structural)]
pub enum DriverStatus {
    OK,
    Busy,
    Soft,
    Media,
    Error,
    Invalid,
    Timeout,
    Hard,
    Sense,
    Unknown(u16),
}

/// What the driver suggests to do: bits four to seven of its status word.
#[derive(Debug, Clone, Copy, PartialEq, Eq, Structural)]
pub enum DriverSuggest {
    Nothing,
    Retry,
    Abort,
    Remap,
    Die,
    Sense,
    Unknown(u16),
}

/// The text of a code without a name: `Unknown(` the number `)`.
pub open spec fn unknown_name(raw: nat) -> Seq<char> {
    "Unknown("@ + decimal(raw) + ")"@
}

/// The text of a code without a name.
fn unknown(raw: u64) -> (name: String)
    ensures
        name@ == unknown_name(raw as nat),
{
    let mut name = String::from_str("Unknown(");
    append_decimal(&mut name, raw);
    name.append(")");
    name
}

impl Status {
    /// Whether a status byte has a name.
    pub open spec fn documented(val: u8) -> bool {
        val == 0x00 || val == 0x02 || val == 0x04 || val == 0x08 || val == 0x18 || val == 0x28
            || val == 0x30 || val == 0x40
    }

    /// The outcome that a status byte stands for.
    pub open spec fn of(val: u8) -> Status {
        if val == 0x00 {
            Status::Good
        } else if val == 0x02 {
            Status::CheckCondition
        } else if val == 0x04 {
            Status::ConditionMet
        } else if val == 0x08 {
            Status::Busy
        } else if val == 0x18 {
            Status::ReservationConflict
        } else if val == 0x28 {
            Status::TaskSetFull
        } else if val == 0x30 {
            Status::ACAActive
        } else if val == 0x40 {
            Status::TaskAborted
        } else {
            Status::Unknown(val)
        }
    }

    /// The name of the outcome.
    pub open spec fn name(self) -> Seq<char> {
        match self {
            Status::Good => "Good"@,
            Status::CheckCondition => "CheckCondition"@,
            Status::ConditionMet => "ConditionMet"@,
            Status::Busy => "Busy"@,
            Status::ReservationConflict => "ReservationConflict"@,
            Status::TaskSetFull => "TaskSetFull"@,
            Status::ACAActive => "ACAActive"@,
            Status::TaskAborted => "TaskAborted"@,
            Status::Unknown(raw) => unknown_name(raw as nat),
        }
    }

    /// A status byte with a name decodes to an outcome other than `Unknown`,
    /// and one without decodes to `Unknown` with the byte unchanged.
    pub proof fn lemma_unknown_keeps_raw(val: u8)
        ensures
            Self::documented(val) <==> !(Self::of(val) is Unknown),
            !Self::documented(val) ==> Self::of(val) == Status::Unknown(val),
    {
    }

    /// Decodes a status byte.
    pub fn from_u8(val: u8) -> (status: Status)
        ensures
            status == Self::of(val),
    {
        match val {
            0x00 => Status::Good,
            0x02 => Status::CheckCondition,
            0x04 => Status::ConditionMet,
            0x08 => Status::Busy,
            0x18 => Status::ReservationConflict,
            0x28 => Status::TaskSetFull,
            0x30 => Status::ACAActive,
            0x40 => Status::TaskAborted,
            _ => Status::Unknown(val),
        }
    }

    /// The name of the outcome.
    pub fn to_text(&self) -> (text: String)
        ensures
            text@ == self.name(),
    {
        match self {
            Status::Good => String::from_str("Good"),
            Status::CheckCondition => String::from_str("CheckCondition"),
            Status::ConditionMet => String::from_str("ConditionMet"),
            Status::Busy => String::from_str("Busy"),
            Status::ReservationConflict => String::from_str("ReservationConflict"),
            Status::TaskSetFull => String::from_str("TaskSetFull"),
            Status::ACAActive => String::from_str("ACAActive"),
            Status::TaskAborted => String::from_str("TaskAborted"),
            Status::Unknown(raw) => unknown(*raw as u64),
        }
    }
}

impl HostStatus {
    /// Whether a host status has a name.
    pub open spec fn documented(val: u16) -> bool {
        val <= 0x0D
    }

    /// The outcome that a host status stands for.
    pub open spec fn of(val: u16) -> HostStatus {
        if val == 0x00 {
            HostStatus::OK
        } else if val == 0x01 {
            HostStatus::NoConnect
        } else if val == 0x02 {
            HostStatus::BusBusy
        } else if val == 0x03 {
            HostStatus::TimeOut
        } else if val == 0x04 {
            HostStatus::BadTarget
        } else if val == 0x05 {
            HostStatus::Abort
        } else if val == 0x06 {
            HostStatus::Parity
        } else if val == 0x07 {
            HostStatus::Error
        } else if val == 0x08 {
            HostStatus::Reset
        } else if val == 0x09 {
            HostStatus::BadIntr
        } else if val == 0x0A {
            HostStatus::Passthrough
        } else if val == 0x0B {
            HostStatus::SoftError
        } else if val == 0x0C {
            HostStatus::ImmRetry
        } else if val == 0x0D {
            HostStatus::Requeue
        } else {
            HostStatus::Unknown(val)
        }
    }

    /// The name of the outcome.
    pub open spec fn name(self) -> Seq<char> {
        match self {
            HostStatus::OK => "OK"@,
            HostStatus::NoConnect => "NoConnect"@,
            HostStatus::BusBusy => "BusBusy"@,
            HostStatus::TimeOut => "TimeOut"@,
            HostStatus::BadTarget => "BadTarget"@,
            HostStatus::Abort => "Abort"@,
            HostStatus::Parity => "Parity"@,
            HostStatus::Error => "Error"@,
            HostStatus::Reset => "Reset"@,
            HostStatus::BadIntr => "BadIntr"@,
            HostStatus::Passthrough => "Passthrough"@,
            HostStatus::SoftError => "SoftError"@,
            HostStatus::ImmRetry => "ImmRetry"@,
            HostStatus::Requeue => "Requeue"@,
            HostStatus::Unknown(raw) => unknown_name(raw as nat),
        }
    }

    /// A host status with a name decodes to an outcome other than `Unknown`,
    /// and one without decodes to `Unknown` with the value unchanged.
    pub proof fn lemma_unknown_keeps_raw(val: u16)
        ensures
            Self::documented(val) <==> !(Self::of(val) is Unknown),
            !Self::documented(val) ==> Self::of(val) == HostStatus::Unknown(val),
    {
    }

    /// Decodes a host status.
    pub fn from_u16(val: u16) -> (status: HostStatus)
        ensures
            status == Self::of(val),
    {
        match val {
            0x00 => HostStatus::OK,
            0x01 => HostStatus::NoConnect,
            0x02 => HostStatus::BusBusy,
            0x03 => HostStatus::TimeOut,
            0x04 => HostStatus::BadTarget,
            0x05 => HostStatus::Abort,
            0x06 => HostStatus::Parity,
            0x07 => HostStatus::Error,
            0x08 => HostStatus::Reset,
            0x09 => HostStatus::BadIntr,
            0x0A => HostStatus::Passthrough,
            0x0B => HostStatus::SoftError,
            0x0C => HostStatus::ImmRetry,
            0x0D => HostStatus::Requeue,
            _ => HostStatus::Unknown(val),
        }
    }

    /// The name of the outcome.
    pub fn to_text(&self) -> (text: String)
        ensures
            text@ == self.name(),
    {
        match self {
            HostStatus::OK => String::from_str("OK"),
            HostStatus::NoConnect => String::from_str("NoConnect"),
            HostStatus::BusBusy => String::from_str("BusBusy"),
            HostStatus::TimeOut => String::from_str("TimeOut"),
            HostStatus::BadTarget => String::from_str("BadTarget"),
            HostStatus::Abort => String::from_str("Abort"),
            HostStatus::Parity => String::from_str("Parity"),
            HostStatus::Error => String::from_str("Error"),
            HostStatus::Reset => String::from_str("Reset"),
            HostStatus::BadIntr => String::from_str("BadIntr"),
            HostStatus::Passthrough => String::from_str("Passthrough"),
            HostStatus::SoftError => String::from_str("SoftError"),
            HostStatus::ImmRetry => String::from_str("ImmRetry"),
            HostStatus::Requeue => String::from_str("Requeue"),
            HostStatus::Unknown(raw) => unknown(*raw as u64),
        }
    }
}

impl DriverStatus {
    /// The part of the driver's status word that holds the status: its low
    /// four bits.
    pub open spec fn code(val: u16) -> nat {
        val as nat % 16
    }

    /// Whether the status in a driver status word has a name.
    pub open spec fn documented(val: u16) -> bool {
        Self::code(val) <= 0x08
    }

    /// The outcome that a driver status word stands for.
    pub open spec fn of(val: u16) -> DriverStatus {
        let code = Self::code(val);
        if code == 0x00 {
            DriverStatus::OK
        } else if code == 0x01 {
            DriverStatus::Busy
        } else if code == 0x02 {
            DriverStatus::Soft
        } else if code == 0x03 {
            DriverStatus::Media
        } else if code == 0x04 {
            DriverStatus::Error
        } else if code == 0x05 {
            DriverStatus::Invalid
        } else if code == 0x06 {
            DriverStatus::Timeout
        } else if code == 0x07 {
            DriverStatus::Hard
        } else if code == 0x08 {
            DriverStatus::Sense
        } else {
            DriverStatus::Unknown(val)
        }
    }

    /// The name of the outcome.
    pub open spec fn name(self) -> Seq<char> {
        match self {
            DriverStatus::OK => "OK"@,
            DriverStatus::Busy => "Busy"@,
            DriverStatus::Soft => "Soft"@,
            DriverStatus::Media => "Media"@,
            DriverStatus::Error => "Error"@,
            DriverStatus::Invalid => "Invalid"@,
            DriverStatus::Timeout => "Timeout"@,
            DriverStatus::Hard => "Hard"@,
            DriverStatus::Sense => "Sense"@,
            DriverStatus::Unknown(raw) => unknown_name(raw as nat),
        }
    }

    /// A status word whose status has a name decodes to an outcome other than
    /// `Unknown`, and one without decodes to `Unknown` with the whole word
    /// unchanged.
    pub proof fn lemma_unknown_keeps_raw(val: u16)
        ensures
            Self::documented(val) <==> !(Self::of(val) is Unknown),
            !Self::documented(val) ==> Self::of(val) == DriverStatus::Unknown(val),
    {
    }

    /// Decodes the status in a driver status word.
    pub fn from_u16(val: u16) -> (status: DriverStatus)
        ensures
            status == Self::of(val),
    {
        let code = val & 0x0F;
        assert(code == val % 16) by (bit_vector)
            requires
                code == val & 0x0F,
        ;
        match code {
            0x00 => DriverStatus::OK,
            0x01 => DriverStatus::Busy,
            0x02 => DriverStatus::Soft,
            0x03 => DriverStatus::Media,
            0x04 => DriverStatus::Error,
            0x05 => DriverStatus::Invalid,
            0x06 => DriverStatus::Timeout,
            0x07 => DriverStatus::Hard,
            0x08 => DriverStatus::Sense,
            _ => DriverStatus::Unknown(val),
        }
    }

    /// The name of the outcome.
    pub fn to_text(&self) -> (text: String)
        ensures
            text@ == self.name(),
    {
        match self {
            DriverStatus::OK => String::from_str("OK"),
            DriverStatus::Busy => String::from_str("Busy"),
            DriverStatus::Soft => String::from_str("Soft"),
            DriverStatus::Media => String::from_str("Media"),
            DriverStatus::Error => String::from_str("Error"),
            DriverStatus::Invalid => String::from_str("Invalid"),
            DriverStatus::Timeout => String::from_str("Timeout"),
            DriverStatus::Hard => String::from_str("Hard"),
            DriverStatus::Sense => String::from_str("Sense"),
            DriverStatus::Unknown(raw) => unknown(*raw as u64),
        }
    }
}

impl DriverSuggest {
    /// The part of the driver's status word that holds the suggestion: bits
    /// four to seven, as a number from 0 to 15.
    pub open spec fn code(val: u16) -> nat {
        (val as nat / 16) % 16
    }

    /// Whether the suggestion in a driver status word has a name.
    pub open spec fn documented(val: u16) -> bool {
        Self::code(val) <= 4 || Self::code(val) == 8
    }

    /// The outcome that a driver status word stands for.
    pub open spec fn of(val: u16) -> DriverSuggest {
        let code = Self::code(val);
        if code == 0 {
            DriverSuggest::Nothing
        } else if code == 1 {
            DriverSuggest::Retry
        } else if code == 2 {
            DriverSuggest::Abort
        } else if code == 3 {
            DriverSuggest::Remap
        } else if code == 4 {
            DriverSuggest::Die
        } else if code == 8 {
            DriverSuggest::Sense
        } else {
            DriverSuggest::Unknown(val)
        }
    }

    /// The name of the outcome.
    pub open spec fn name(self) -> Seq<char> {
        match self {
            DriverSuggest::Nothing => "Nothing"@,
            DriverSuggest::Retry => "Retry"@,
            DriverSuggest::Abort => "Abort"@,
            DriverSuggest::Remap => "Remap"@,
            DriverSuggest::Die => "Die"@,
            DriverSuggest::Sense => "Sense"@,
            DriverSuggest::Unknown(raw) => unknown_name(raw as nat),
        }
    }

    /// A status word whose suggestion has a name decodes to an outcome other
    /// than `Unknown`, and one without decodes to `Unknown` with the whole
    /// word unchanged.
    pub proof fn lemma_unknown_keeps_raw(val: u16)
        ensures
            Self::documented(val) <==> !(Self::of(val) is Unknown),
            !Self::documented(val) ==> Self::of(val) == DriverSuggest::Unknown(val),
    {
    }

    /// Decodes the suggestion in a driver status word.
    pub fn from_u16(val: u16) -> (suggest: DriverSuggest)
        ensures
            suggest == Self::of(val),
    {
        let code = val & 0xF0;
        assert(code == ((val / 16) % 16) * 16) by (bit_vector)
            requires
                code == val & 0xF0,
        ;
        match code {
            0x00 => DriverSuggest::Nothing,
            0x10 => DriverSuggest::Retry,
            0x20 => DriverSuggest::Abort,
            0x30 => DriverSuggest::Remap,
            0x40 => DriverSuggest::Die,
            0x80 => DriverSuggest::Sense,
            _ => DriverSuggest::Unknown(val),
        }
    }

    /// The name of the outcome.
    pub fn to_text(&self) -> (text: String)
        ensures
            text@ == self.name(),
    {
        match self {
            DriverSuggest::Nothing => String::from_str("Nothing"),
            DriverSuggest::Retry => String::from_str("Retry"),
            DriverSuggest::Abort => String::from_str("Abort"),
            DriverSuggest::Remap => String::from_str("Remap"),
            DriverSuggest::Die => String::from_str("Die"),
            DriverSuggest::Sense => String::from_str("Sense"),
            DriverSuggest::Unknown(raw) => unknown(*raw as u64),
        }
    }
}

} // verus!
