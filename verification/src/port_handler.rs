//! The port: this side's end of the bus, held in memory.
//!
//! A `PortHandler` performs no I/O. Bytes written to it wait in a transmit
//! queue until the owner of the physical port takes them and puts them on the
//! wire; bytes that the owner reads from the wire are handed in and wait in a
//! receive queue until the protocol layer reads them. Time is what the owner
//! last reported, in nanoseconds on a clock of its choice that does not run
//! backwards.

use vstd::prelude::*;
use crate::stream::{join_bytes, copy_range};

verus! {

/// Baud rate of a new port.
pub const DEFAULT_BAUDRATE: u32 = 1000000;

/// Latency margin added to every packet timeout, in milliseconds.
pub const LATENCY_TIMER: u32 = 50;

/// Nanoseconds in a millisecond.
pub const NANOS_PER_MILLI: u64 = 1000000;

/// Time of ten bit periods (a byte with start and stop bit) at one baud, in
/// nanoseconds.
pub const BYTE_TIME_NUMERATOR: u64 = 10000000000;

/// Byte time at the slowest supported baud rate, in nanoseconds.
pub const MAX_TX_TIME_PER_BYTE: u64 = 2083333;

/// What went wrong at the port.
#[derive(Debug, Clone, Copy, PartialEq, Eq, Structural)]
pub enum PortFault {
    /// A parameter was not acceptable.
    InvalidInput,
    /// The port is not connected.
    NotConnected,
    /// No port to work on.
    NotFound,
    /// Data that makes no sense.
    InvalidData,
}

/// The error type of the serial-port crate, carried through as it is.
#[verifier::external_type_specification]
#[verifier::external_body]
pub struct ExSerialError(serialport::Error);

/// The error type of `std::io`, carried through as it is.
#[verifier::external_type_specification]
#[verifier::external_body]
pub struct ExIoError(std::io::Error);

/// Makes a serial-port error by `serialport::Error::new`, with the kind that
/// corresponds to `fault` and `description` as its text. Nothing is claimed
/// of the value that comes back.
#[verifier::external_body]
pub(crate) fn serial_error(fault: PortFault, description: &str) -> serialport::Error {
    let kind = match fault {
        PortFault::InvalidInput => serialport::ErrorKind::InvalidInput,
        PortFault::NotConnected => serialport::ErrorKind::Io(std::io::ErrorKind::NotConnected),
        PortFault::NotFound => serialport::ErrorKind::Io(std::io::ErrorKind::NotFound),
        PortFault::InvalidData => serialport::ErrorKind::Io(std::io::ErrorKind::InvalidData),
    };
    serialport::Error::new(kind, description)
}

/// Makes an I/O error by `std::io::Error::new`, with the kind that
/// corresponds to `fault` and `description` as its text. Nothing is claimed
/// of the value that comes back.
#[verifier::external_body]
pub(crate) fn io_error(fault: PortFault, description: &str) -> std::io::Error {
    let kind = match fault {
        PortFault::InvalidInput => std::io::ErrorKind::InvalidInput,
        PortFault::NotConnected => std::io::ErrorKind::NotConnected,
        PortFault::NotFound => std::io::ErrorKind::NotFound,
        PortFault::InvalidData => std::io::ErrorKind::InvalidData,
    };
    std::io::Error::new(kind, description)
}

/// What stands in the way of counting the bytes that wait at `port`: a
/// closed port is not connected.
pub open spec fn count_fault(port: PortState) -> Option<PortFault> {
    if port.is_open {
        None
    } else {
        Some(PortFault::NotConnected)
    }
}

/// What stands in the way of reading from `port` or writing to it: a closed
/// port is not to be found.
pub open spec fn transfer_fault(port: PortState) -> Option<PortFault> {
    if port.is_open {
        None
    } else {
        Some(PortFault::NotFound)
    }
}

/// What stands in the way of running the bus at `baudrate`: a rate that it
/// does not support is an invalid input.
pub open spec fn baudrate_fault(baudrate: u32) -> Option<PortFault> {
    if baud_supported(baudrate) {
        None
    } else {
        Some(PortFault::InvalidInput)
    }
}

/// Whether the bus can run at `baudrate`.
pub open spec fn baud_supported(baudrate: u32) -> bool {
    ||| baudrate == 4800
    ||| baudrate == 9600
    ||| baudrate == 14400
    ||| baudrate == 19200
    ||| baudrate == 38400
    ||| baudrate == 57600
    ||| baudrate == 115200
    ||| baudrate == 128000
    ||| baudrate == 250000
    ||| baudrate == 500000
    ||| baudrate == 1000000
}

/// Time on the wire of one byte at `baudrate`, in nanoseconds, rounded down.
pub open spec fn byte_time(baudrate: u32) -> int {
    10000000000int / baudrate as int
}

/// Time allowed for a packet of `packet_length` bytes: the bytes themselves,
/// three byte times of slack and the latency margin, in nanoseconds.
pub open spec fn packet_timeout_for(tx_time_per_byte: u64, packet_length: u32) -> int {
    tx_time_per_byte * packet_length + tx_time_per_byte * 3 + 50 * 1000000
}

/// `msec` milliseconds in nanoseconds, or the largest time that the clock can
/// hold if that is less.
pub open spec fn millis_timeout(msec: u64) -> int {
    if msec * 1000000 <= u64::MAX {
        msec * 1000000
    } else {
        u64::MAX as int
    }
}

/// All that a port holds.
#[verifier::ext_equal]
pub struct PortState {
    pub port_name: Seq<char>,
    pub is_open: bool,
    pub baudrate: u32,
    /// When the current packet's time began, if it has.
    pub packet_start_time: Option<u64>,
    pub packet_timeout: u64,
    pub tx_time_per_byte: u64,
    /// Whether a transaction holds the port.
    pub is_using: bool,
    /// The time last reported.
    pub now: u64,
    /// Received and not yet read.
    pub incoming: Seq<u8>,
    /// Written and not yet taken for the wire.
    pub outgoing: Seq<u8>,
}

/// A port as [`PortHandler::new`] makes it.
pub open spec fn fresh_port(port_name: Seq<char>) -> PortState {
    PortState {
        port_name,
        is_open: false,
        baudrate: 1000000,
        packet_start_time: None,
        packet_timeout: 0,
        tx_time_per_byte: 0,
        is_using: false,
        now: 0,
        incoming: Seq::empty(),
        outgoing: Seq::empty(),
    }
}

/// A port after it is set up: open, nothing waiting to be read, byte time
/// as the baud rate gives it.
pub open spec fn opened(s: PortState) -> PortState {
    PortState {
        is_open: true,
        incoming: Seq::empty(),
        tx_time_per_byte: byte_time(s.baudrate) as u64,
        ..s
    }
}

/// Time since the current packet's time began; if it has not begun, it
/// begins now.
pub open spec fn elapsed(s: PortState) -> int {
    match s.packet_start_time {
        Some(start) => s.now - start,
        None => 0,
    }
}

/// Whether the packet's time is up.
pub open spec fn timed_out(s: PortState) -> bool {
    elapsed(s) > s.packet_timeout
}

/// The state after the time since start was asked for.
pub open spec fn after_elapsed(s: PortState) -> PortState {
    match s.packet_start_time {
        Some(_) => s,
        None => PortState { packet_start_time: Some(s.now), ..s },
    }
}

/// The state after the timeout was asked for.
pub open spec fn after_timeout_check(s: PortState) -> PortState {
    if timed_out(s) {
        PortState { packet_timeout: 0, ..after_elapsed(s) }
    } else {
        after_elapsed(s)
    }
}

/// This side's end of the bus.
#[derive(Debug)]
pub struct PortHandler {
    port_name: String,
    is_open: bool,
    baudrate: u32,
    packet_start_time: Option<u64>,
    packet_timeout: u64,
    tx_time_per_byte: u64,
    is_using: bool,
    now: u64,
    incoming: Vec<u8>,
    outgoing: Vec<u8>,
}

impl View for PortHandler {
    type V = PortState;

    closed spec fn view(&self) -> PortState {
        PortState {
            port_name: self.port_name@,
            is_open: self.is_open,
            baudrate: self.baudrate,
            packet_start_time: self.packet_start_time,
            packet_timeout: self.packet_timeout,
            tx_time_per_byte: self.tx_time_per_byte,
            is_using: self.is_using,
            now: self.now,
            incoming: self.incoming@,
            outgoing: self.outgoing@,
        }
    }
}

impl PortHandler {
    /// What holds of every port: a supported baud rate, a byte time no
    /// longer than that of the slowest rate, and a packet start that is not
    /// in the future.
    #[verifier::type_invariant]
    spec fn inv(self) -> bool {
        &&& baud_supported(self.baudrate)
        &&& self.tx_time_per_byte <= MAX_TX_TIME_PER_BYTE
        &&& self.packet_start_time matches Some(start) ==> start <= self.now
    }

    /// A closed port named `port_name` at the default baud rate.
    pub fn new(port_name: &str) -> (p: Self)
        ensures
            p@ == fresh_port(port_name@),
    {
        PortHandler {
            port_name: port_name.to_owned(),
            is_open: false,
            baudrate: DEFAULT_BAUDRATE,
            packet_start_time: None,
            packet_timeout: 0,
            tx_time_per_byte: 0,
            is_using: false,
            now: 0,
            incoming: Vec::new(),
            outgoing: Vec::new(),
        }
    }

    /// Opens the port; see [`Self::setup_port`].
    pub fn open_port(&mut self)
        ensures
            final(self)@ == opened(old(self)@),
    {
        self.setup_port()
    }

    /// Closes the port. What waits to be read is dropped; what was written
    /// stays for the owner to put on the wire.
    pub fn close_port(&mut self)
        ensures
            final(self)@ == (PortState { is_open: false, incoming: Seq::empty(), ..old(self)@ }),
    {
        proof {
            use_type_invariant(&*self);
        }
        self.incoming = Vec::new();
        self.is_open = false;
    }

    /// Drops what waits in both queues of an open port; a closed port stays
    /// as it is.
    pub fn clear_port(&mut self)
        ensures
            old(self)@.is_open ==> final(self)@ == (PortState {
                incoming: Seq::empty(),
                outgoing: Seq::empty(),
                ..old(self)@
            }),
            !old(self)@.is_open ==> final(self)@ == old(self)@,
    {
        proof {
            use_type_invariant(&*self);
        }
        if self.is_open {
            self.incoming = Vec::new();
            self.outgoing = Vec::new();
        }
    }

    /// Drops what waits to be read on an open port; a closed port stays as
    /// it is.
    pub fn clear_input(&mut self)
        ensures
            old(self)@.is_open ==> final(self)@ == (PortState {
                incoming: Seq::empty(),
                ..old(self)@
            }),
            !old(self)@.is_open ==> final(self)@ == old(self)@,
    {
        proof {
            use_type_invariant(&*self);
        }
        if self.is_open {
            self.incoming = Vec::new();
        }
    }

    /// Renames the port.
    pub fn set_port_name(&mut self, port_name: String)
        ensures
            final(self)@ == (PortState { port_name: port_name@, ..old(self)@ }),
    {
        proof {
            use_type_invariant(&*self);
        }
        self.port_name = port_name;
    }

    /// The name of the port.
    pub fn get_port_name(&self) -> (name: String)
        ensures
            name@ == self@.port_name,
    {
        self.port_name.clone()
    }

    /// The baud rate of the port, one of the supported ones.
    pub fn get_baudrate(&self) -> (b: u32)
        ensures
            b == self@.baudrate,
            baud_supported(b),
    {
        proof {
            use_type_invariant(self);
        }
        self.baudrate
    }

    /// Whether the port is open.
    pub fn is_open(&self) -> (b: bool)
        ensures
            b == self@.is_open,
    {
        self.is_open
    }

    /// Whether a transaction holds the port.
    pub fn is_using(&self) -> (b: bool)
        ensures
            b == self@.is_using,
    {
        self.is_using
    }

    /// Takes or releases the port for a transaction.
    pub fn set_using(&mut self, using: bool)
        ensures
            final(self)@ == (PortState { is_using: using, ..old(self)@ }),
    {
        proof {
            use_type_invariant(&*self);
        }
        self.is_using = using;
    }

    /// What stands in the way of counting the bytes that wait, if anything.
    pub fn why_no_count(&self) -> (r: Option<PortFault>)
        ensures
            r == count_fault(self@),
    {
        if self.is_open {
            None
        } else {
            Some(PortFault::NotConnected)
        }
    }

    /// What stands in the way of reading or writing, if anything.
    pub fn why_no_transfer(&self) -> (r: Option<PortFault>)
        ensures
            r == transfer_fault(self@),
    {
        if self.is_open {
            None
        } else {
            Some(PortFault::NotFound)
        }
    }

    /// What stands in the way of running the bus at `baudrate`, if anything.
    pub fn why_no_baudrate(&self, baudrate: u32) -> (r: Option<PortFault>)
        ensures
            r == baudrate_fault(baudrate),
    {
        match self.get_c_flag_baud(baudrate) {
            Some(_) => None,
            None => Some(PortFault::InvalidInput),
        }
    }

    /// Number of bytes that wait to be read, on an open port. A count beyond
    /// `u32::MAX` is given as `u32::MAX`. On a closed port the error is made
    /// of [`count_fault`].
    pub fn get_bytes_available(&self) -> (r: Result<u32, serialport::Error>)
        ensures
            r is Ok <==> count_fault(self@) is None,
            r matches Ok(n) ==> n as int == if self@.incoming.len() <= u32::MAX {
                self@.incoming.len() as int
            } else {
                u32::MAX as int
            },
    {
        if let Some(fault) = self.why_no_count() {
            return Err(serial_error(fault, "Port not open"));
        }
        let n = self.incoming.len();
        if n > u32::MAX as usize {
            Ok(u32::MAX)
        } else {
            Ok(n as u32)
        }
    }

    /// Reads up to `length` of the bytes that wait, oldest first, and removes
    /// them from the receive queue. Fails on a closed port, with an error
    /// made of [`transfer_fault`].
    pub fn read_port(&mut self, length: usize) -> (r: Result<Vec<u8>, std::io::Error>)
        ensures
            r is Ok <==> transfer_fault(old(self)@) is None,
            r matches Ok(bytes) ==> {
                let k = if length <= old(self)@.incoming.len() {
                    length as int
                } else {
                    old(self)@.incoming.len() as int
                };
                &&& bytes@ == old(self)@.incoming.subrange(0, k)
                &&& final(self)@ == (PortState {
                    incoming: old(self)@.incoming.subrange(k, old(self)@.incoming.len() as int),
                    ..old(self)@
                })
            },
            r is Err ==> final(self)@ == old(self)@,
    {
        proof {
            use_type_invariant(&*self);
        }
        if let Some(fault) = self.why_no_transfer() {
            return Err(io_error(fault, "can not open"));
        }
        let n = self.incoming.len();
        let k = if length <= n {
            length
        } else {
            n
        };
        let head = copy_range(self.incoming.as_slice(), 0, k);
        let tail = copy_range(self.incoming.as_slice(), k, n);
        self.incoming = tail;
        Ok(head)
    }

    /// Queues all of `packet` for the wire and returns its length. Fails on a
    /// closed port, with an error made of [`transfer_fault`].
    pub fn write_port(&mut self, packet: &[u8]) -> (r: Result<usize, std::io::Error>)
        ensures
            r is Ok <==> transfer_fault(old(self)@) is None,
            r matches Ok(n) ==> {
                &&& n == packet@.len()
                &&& final(self)@ == (PortState {
                    outgoing: old(self)@.outgoing + packet@,
                    ..old(self)@
                })
            },
            r is Err ==> final(self)@ == old(self)@,
    {
        proof {
            use_type_invariant(&*self);
        }
        if let Some(fault) = self.why_no_transfer() {
            return Err(io_error(fault, "can not find"));
        }
        let n = packet.len();
        let joined = join_bytes(self.outgoing.as_slice(), packet);
        self.outgoing = joined;
        Ok(n)
    }

    /// Starts the time of a packet of `packet_length` bytes now and allows it
    /// [`packet_timeout_for`] that length.
    pub fn set_packet_timeout(&mut self, packet_length: u32)
        ensures
            final(self)@ == (PortState {
                packet_start_time: Some(old(self)@.now),
                packet_timeout: packet_timeout_for(
                    old(self)@.tx_time_per_byte,
                    packet_length,
                ) as u64,
                ..old(self)@
            }),
            packet_timeout_for(old(self)@.tx_time_per_byte, packet_length) <= u64::MAX,
    {
        proof {
            use_type_invariant(&*self);
        }
        let per_byte = self.tx_time_per_byte;
        assert(per_byte * packet_length <= 2083333 * 0xFFFF_FFFF) by (nonlinear_arith)
            requires
                per_byte <= 2083333,
                packet_length <= 0xFFFF_FFFF,
        ;
        self.packet_start_time = self.get_current_time();
        self.packet_timeout = per_byte * (packet_length as u64) + per_byte * 3 + (
        LATENCY_TIMER as u64) * NANOS_PER_MILLI;
    }

    /// Starts the time of a packet now and allows it `msec` milliseconds.
    pub fn set_packet_timeout_millis(&mut self, msec: u64)
        ensures
            final(self)@ == (PortState {
                packet_start_time: Some(old(self)@.now),
                packet_timeout: millis_timeout(msec) as u64,
                ..old(self)@
            }),
    {
        proof {
            use_type_invariant(&*self);
        }
        self.packet_start_time = self.get_current_time();
        self.packet_timeout = if msec <= u64::MAX / NANOS_PER_MILLI {
            msec * NANOS_PER_MILLI
        } else {
            u64::MAX
        };
    }

    /// The time last reported by [`Self::set_current_time`].
    pub fn get_current_time(&self) -> (t: Option<u64>)
        ensures
            t == Some(self@.now),
    {
        Some(self.now)
    }

    /// Reports the time. A time before the one last reported is ignored.
    pub fn set_current_time(&mut self, now: u64)
        ensures
            final(self)@ == (PortState {
                now: if now >= old(self)@.now {
                    now
                } else {
                    old(self)@.now
                },
                ..old(self)@
            }),
    {
        proof {
            use_type_invariant(&*self);
        }
        if now >= self.now {
            self.now = now;
        }
    }

    /// Whether the packet's time is up. If it is, the timeout is reset to
    /// zero.
    pub fn is_packet_timeout(&mut self) -> (b: bool)
        ensures
            b == timed_out(old(self)@),
            final(self)@ == after_timeout_check(old(self)@),
    {
        proof {
            use_type_invariant(&*self);
        }
        if self.get_time_since_start() > self.packet_timeout {
            proof {
                use_type_invariant(&*self);
            }
            self.packet_timeout = 0;
            return true;
        }
        false
    }

    /// Time since the packet's time began. If it has not begun, it begins
    /// now.
    pub fn get_time_since_start(&mut self) -> (t: u64)
        ensures
            t == elapsed(old(self)@),
            final(self)@ == after_elapsed(old(self)@),
    {
        proof {
            use_type_invariant(&*self);
        }
        match self.packet_start_time {
            Some(start) => self.now - start,
            None => {
                self.packet_start_time = Some(self.now);
                0
            },
        }
    }

    /// Sets the port up at its baud rate: closes it first if it is open,
    /// then opens it with an empty receive queue and the byte time of the
    /// rate.
    pub fn setup_port(&mut self)
        ensures
            final(self)@ == opened(old(self)@),
    {
        proof {
            use_type_invariant(&*self);
        }
        if self.is_open {
            self.close_port();
        }
        proof {
            use_type_invariant(&*self);
        }
        let baudrate = self.baudrate as u64;
        assert(10000000000u64 / baudrate <= 2083333) by (nonlinear_arith)
            requires
                baudrate >= 4800,
        ;
        self.incoming = Vec::new();
        self.is_open = true;
        self.tx_time_per_byte = BYTE_TIME_NUMERATOR / baudrate;
    }

    /// Changes the baud rate to `baudrate` if the bus supports it, and sets
    /// an open port up anew. Any other rate is refused with an error made of
    /// [`baudrate_fault`], and changes nothing.
    pub fn set_baudrate(&mut self, baudrate: u32) -> (r: Result<(), serialport::Error>)
        ensures
            r is Ok <==> baudrate_fault(baudrate) is None,
            r is Ok ==> final(self)@ == if old(self)@.is_open {
                opened(PortState { baudrate, ..old(self)@ })
            } else {
                PortState { baudrate, ..old(self)@ }
            },
            r is Err ==> final(self)@ == old(self)@,
    {
        proof {
            use_type_invariant(&*self);
        }
        match self.why_no_baudrate(baudrate) {
            Some(fault) => Err(serial_error(fault, "Invalid baudrate")),
            None => {
                self.baudrate = baudrate;
                if self.is_open {
                    self.setup_port();
                }
                Ok(())
            },
        }
    }

    /// `baudrate` itself if the bus supports it.
    pub fn get_c_flag_baud(&self, baudrate: u32) -> (r: Option<u32>)
        ensures
            r == if baud_supported(baudrate) {
                Some(baudrate)
            } else {
                None::<u32>
            },
    {
        let baudrate_list: [u32; 11] = [
            4800,
            9600,
            14400,
            19200,
            38400,
            57600,
            115200,
            128000,
            250000,
            500000,
            1000000,
        ];
        let mut i: usize = 0;
        while i < 11
            invariant
                i <= 11,
                baudrate_list@ == seq![
                    4800u32,
                    9600u32,
                    14400u32,
                    19200u32,
                    38400u32,
                    57600u32,
                    115200u32,
                    128000u32,
                    250000u32,
                    500000u32,
                    1000000u32,
                ],
                forall|j: int| 0 <= j < i ==> baudrate_list@[j] != baudrate,
            decreases 11 - i,
        {
            if baudrate_list[i] == baudrate {
                return Some(baudrate);
            }
            i = i + 1;
        }
        assert(baudrate_list@[0] != baudrate);
        assert(baudrate_list@[1] != baudrate);
        assert(baudrate_list@[2] != baudrate);
        assert(baudrate_list@[3] != baudrate);
        assert(baudrate_list@[4] != baudrate);
        assert(baudrate_list@[5] != baudrate);
        assert(baudrate_list@[6] != baudrate);
        assert(baudrate_list@[7] != baudrate);
        assert(baudrate_list@[8] != baudrate);
        assert(baudrate_list@[9] != baudrate);
        assert(baudrate_list@[10] != baudrate);
        None
    }

    /// Hands in bytes that arrived on the wire. On a closed port they are
    /// lost.
    pub fn push_received(&mut self, bytes: &[u8])
        ensures
            old(self)@.is_open ==> final(self)@ == (PortState {
                incoming: old(self)@.incoming + bytes@,
                ..old(self)@
            }),
            !old(self)@.is_open ==> final(self)@ == old(self)@,
    {
        proof {
            use_type_invariant(&*self);
        }
        if !self.is_open {
            return ;
        }
        let joined = join_bytes(self.incoming.as_slice(), bytes);
        self.incoming = joined;
    }

    /// Takes what waits for the wire, oldest first, and leaves the transmit
    /// queue empty.
    pub fn take_outgoing(&mut self) -> (bytes: Vec<u8>)
        ensures
            bytes@ == old(self)@.outgoing,
            final(self)@ == (PortState { outgoing: Seq::empty(), ..old(self)@ }),
    {
        proof {
            use_type_invariant(&*self);
        }
        let n = self.outgoing.len();
        let bytes = copy_range(self.outgoing.as_slice(), 0, n);
        assert(self.outgoing@.subrange(0, n as int) =~= self.outgoing@);
        self.outgoing = Vec::new();
        bytes
    }

    /// What waits to be read, oldest first; the receive queue stays as it
    /// is.
    pub fn peek_received(&self) -> (bytes: Vec<u8>)
        ensures
            bytes@ == self@.incoming,
    {
        let n = self.incoming.len();
        assert(self.incoming@.subrange(0, n as int) =~= self.incoming@);
        copy_range(self.incoming.as_slice(), 0, n)
    }
}

} // verus!
