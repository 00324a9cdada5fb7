//! Master-side driver logic for a half-duplex serial bus of addressable
//! smart servo actuators.
//!
//! The crate holds the packet codec, the word codec, the group
//! transactions and the single-device operations. It performs no I/O of its
//! own: a [`port_handler::PortHandler`] is an in-memory endpoint whose
//! transmit queue the caller drains onto the wire and whose receive queue the
//! caller fills from it.
#![allow(non_camel_case_types)]
#![allow(non_snake_case)]

pub mod group_sync_read;
pub mod group_sync_write;
pub mod inst;
pub mod packet;
pub mod port_handler;
pub mod protocol_packet_handler;
pub mod scs;
pub mod scscl;
pub mod scservo;
pub mod scservo_def;
pub mod sms_sts;
pub mod stream;
pub mod transfer;
pub mod word;

pub use crate::group_sync_read::GroupSyncRead;
pub use crate::group_sync_write::GroupSyncWrite;
pub use crate::port_handler::PortHandler;
pub use crate::protocol_packet_handler::ProtocolPacketHandler;
pub use crate::scscl::Scscl;
pub use crate::scservo_def::{BROADCAST_ID, COMM, INST, MAX_ID};
pub use crate::sms_sts::SmsSts;
pub use crate::word::Endian;

use crate::port_handler::fresh_port;
use vstd::prelude::*;

verus! {

/// What can go wrong in the use of the driver.
#[derive(Debug)]
pub enum FtServoError {
    /// The serial port failed.
    SerialPort(serialport::Error),
    /// A transaction did not succeed.
    Communication(COMM),
    /// A parameter was not acceptable.
    InvalidParameter(String),
    /// No answer came in time.
    Timeout,
    /// An answer failed its checksum.
    ChecksumError,
    /// Reading or writing failed.
    Io(std::io::Error),
}

impl FtServoError {
    /// The error that stands for the communication result `result`, if it
    /// is a failure: timeout and checksum failure by their own variants, the
    /// others as they are.
    pub fn check(result: COMM) -> (r: Result<(), FtServoError>)
        ensures
            r is Ok <==> result is Success,
            r matches Err(e) ==> match result {
                COMM::RxTimeout => e is Timeout,
                COMM::RxCorrupt => e is ChecksumError,
                _ => e == FtServoError::Communication(result),
            },
    {
        match result {
            COMM::Success => Ok(()),
            COMM::RxTimeout => Err(FtServoError::Timeout),
            COMM::RxCorrupt => Err(FtServoError::ChecksumError),
            _ => Err(FtServoError::Communication(result)),
        }
    }
}

/// A closed port named `port_name`.
pub fn create_port_handler(port_name: &str) -> (p: PortHandler)
    ensures
        p@ == fresh_port(port_name@),
{
    PortHandler::new(port_name)
}

/// Servos of the SMS/STS family on the bus of `port_handler`.
pub fn create_sms_sts(port_handler: PortHandler) -> (s: SmsSts)
    ensures
        s.wf(),
        s.handler().port_handler == port_handler,
        s.handler().scs_end == Endian::SmallEndian,
        s.handler().pending@ == Seq::<u8>::empty(),
{
    SmsSts::new(port_handler)
}

/// Servos of the SCSCL family on the bus of `port_handler`.
pub fn create_scscl(port_handler: PortHandler) -> (s: Scscl)
    ensures
        s.wf(),
        s.handler().port_handler == port_handler,
        s.handler().scs_end == Endian::BigEndian,
        s.handler().pending@ == Seq::<u8>::empty(),
{
    Scscl::new(port_handler)
}

} // verus!
