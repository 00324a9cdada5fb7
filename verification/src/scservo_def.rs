//! Protocol-wide constants and the two result taxonomies: the communication
//! result of a transaction and the status bits a device reports.

use vstd::prelude::*;

verus! {

/// Address that every device on the bus accepts; no device answers it.
pub const BROADCAST_ID: u8 = 0xFE;

/// Largest address of a single device.
pub const MAX_ID: u8 = 0xFC;

pub const SCS_END: u8 = 0;

/// Instructions a host can send.
#[derive(Debug, Clone, Copy, PartialEq, Eq, Structural)]
pub enum INST {
    Ping,
    Read,
    Write,
    RegWrite,
    Action,
    SyncWrite,
    SyncRead,
}

impl INST {
    /// The byte that stands for the instruction on the wire.
    pub open spec fn spec_opcode(self) -> u8 {
        match self {
            INST::Ping => 0x01,
            INST::Read => 0x02,
            INST::Write => 0x03,
            INST::RegWrite => 0x04,
            INST::Action => 0x05,
            INST::SyncRead => 0x82,
            INST::SyncWrite => 0x83,
        }
    }

    /// The byte that stands for the instruction on the wire.
    #[verifier::when_used_as_spec(spec_opcode)]
    pub fn opcode(self) -> (b: u8)
        ensures
            b == self.spec_opcode(),
    {
        match self {
            INST::Ping => 0x01,
            INST::Read => 0x02,
            INST::Write => 0x03,
            INST::RegWrite => 0x04,
            INST::Action => 0x05,
            INST::SyncRead => 0x82,
            INST::SyncWrite => 0x83,
        }
    }

    /// The instruction that `b` stands for, if any.
    pub fn from_opcode(b: u8) -> (r: Option<INST>)
        ensures
            match r {
                Some(i) => i.spec_opcode() == b,
                None => forall|i: INST| i.spec_opcode() != b,
            },
    {
        if b == 0x01 {
            Some(INST::Ping)
        } else if b == 0x02 {
            Some(INST::Read)
        } else if b == 0x03 {
            Some(INST::Write)
        } else if b == 0x04 {
            Some(INST::RegWrite)
        } else if b == 0x05 {
            Some(INST::Action)
        } else if b == 0x82 {
            Some(INST::SyncRead)
        } else if b == 0x83 {
            Some(INST::SyncWrite)
        } else {
            None
        }
    }
}

/// Outcome of a transaction as the driver sees it.
#[derive(Debug, Clone, Copy, PartialEq, Eq, Structural)]
pub enum COMM {
    Success,
    PortBusy,
    TxFail,
    RxFail,
    TxError,
    RxWaiting,
    RxTimeout,
    RxCorrupt,
    NotAvailable,
}

impl COMM {
    /// The numeric code of the result: zero for success, negative otherwise.
    pub open spec fn spec_code(self) -> i8 {
        match self {
            COMM::Success => 0i8,
            COMM::PortBusy => -1i8,
            COMM::TxFail => -2i8,
            COMM::RxFail => -3i8,
            COMM::TxError => -4i8,
            COMM::RxWaiting => -5i8,
            COMM::RxTimeout => -6i8,
            COMM::RxCorrupt => -7i8,
            COMM::NotAvailable => -9i8,
        }
    }

    /// The numeric code of the result: zero for success, negative otherwise.
    #[verifier::when_used_as_spec(spec_code)]
    pub fn code(self) -> (c: i8)
        ensures
            c == self.spec_code(),
    {
        match self {
            COMM::Success => 0,
            COMM::PortBusy => -1,
            COMM::TxFail => -2,
            COMM::RxFail => -3,
            COMM::TxError => -4,
            COMM::RxWaiting => -5,
            COMM::RxTimeout => -6,
            COMM::RxCorrupt => -7,
            COMM::NotAvailable => -9,
        }
    }
}

/// One status bit of a device's error byte.
#[derive(Debug, Clone, Copy, PartialEq, Eq, Structural)]
pub enum ErrorCode {
    Success,
    VoltageError,
    AngleError,
    OverheatError,
    OverElementError,
    OverloadError,
}

impl ErrorCode {
    /// The bit of the error byte that reports this condition; zero for
    /// `Success`.
    pub open spec fn spec_mask(self) -> u8 {
        match self {
            ErrorCode::Success => 0,
            ErrorCode::VoltageError => 1,
            ErrorCode::AngleError => 2,
            ErrorCode::OverheatError => 4,
            ErrorCode::OverElementError => 8,
            ErrorCode::OverloadError => 32,
        }
    }

    /// Whether the error byte `status` reports this condition; for
    /// `Success`, whether it reports none.
    pub open spec fn spec_is_set(self, status: u8) -> bool {
        match self {
            ErrorCode::Success => status == 0,
            _ => (status as int / self.spec_mask() as int) % 2 == 1,
        }
    }

    /// Whether the error byte `status` reports this condition; for
    /// `Success`, whether it reports none.
    pub fn is_set(self, status: u8) -> (b: bool)
        ensures
            b == self.spec_is_set(status),
    {
        match self {
            ErrorCode::Success => status == 0,
            _ => (status / self.mask()) % 2 == 1,
        }
    }

    /// The bit of the error byte that reports this condition; zero for
    /// `Success`.
    #[verifier::when_used_as_spec(spec_mask)]
    pub fn mask(self) -> (m: u8)
        ensures
            m == self.spec_mask(),
    {
        match self {
            ErrorCode::Success => 0,
            ErrorCode::VoltageError => 1,
            ErrorCode::AngleError => 2,
            ErrorCode::OverheatError => 4,
            ErrorCode::OverElementError => 8,
            ErrorCode::OverloadError => 32,
        }
    }
}

pub const SERVO_MODE: u8 = 0;

pub const MOTOR_MODE: u8 = 1;

pub const BAUD_1M: u8 = 0;

pub const BAUD_500K: u8 = 1;

pub const BAUD_250K: u8 = 2;

pub const BAUD_128K: u8 = 3;

pub const BAUD_115200: u8 = 4;

pub const BAUD_76800: u8 = 5;

pub const BAUD_57600: u8 = 6;

pub const BAUD_38400: u8 = 7;

} // verus!
