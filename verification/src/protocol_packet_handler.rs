//! The protocol layer: one handler per bus, with the word codec under the
//! bus's byte order, the transmission of instruction packets, the reception
//! of status packets, and the single-device operations built on them.
//!
//! Nothing here blocks. A transmission queues a frame at the port. A
//! reception looks at what has arrived so far and answers `RxWaiting` while a
//! reply is still incomplete and its time is not up; the caller moves bytes
//! between the port and the wire and asks again. An operation that expects a
//! reply holds the port from its transmission until its reception ends, and
//! asking again for the same operation continues it.

use vstd::prelude::*;
use crate::packet::{
    buffer_ok, checksum_of, checksum_range, encode_raw, frame_of, lemma_frame_is_sealed,
    lemma_sealed_by_updates, request_ok, request_total, seal, sealed, sealed_in_place, PKT_ID,
    PKT_INSTRUCTION, PKT_LENGTH, PKT_PARAMETER0, well_formed,
};
use crate::port_handler::{
    after_timeout_check, packet_timeout_for, serial_error, timed_out, PortFault, PortHandler,
    PortState,
};
use crate::inst::{
    INST_PING, INST_READ, INST_REG_ACTION, INST_REG_WRITE, INST_SYNC_READ, INST_SYNC_WRITE,
    INST_WRITE,
};
use crate::scservo_def::{BROADCAST_ID, COMM, ErrorCode};
use crate::stream::{
    candidate_before, copy_range, frame_at, frame_len_at, join_bytes,
    lemma_resync_on_garbage_prefix, scan, scan_start,
};
use crate::word::{
    hibyte, lobyte, make_word, spec_hibyte, spec_lobyte, spec_make_word, spec_to_device,
    spec_to_host, to_device, to_host, Endian, MAX_SIGN_BIT,
};
use vstd::arithmetic::power2::pow2;

verus! {

/// Bits 0 to 15 of `l`.
pub open spec fn low_word(l: int) -> int {
    l % 65536
}

/// Bits 16 to 31 of `h`.
pub open spec fn high_word(h: int) -> int {
    (h / 65536) % 65536
}

/// The 32-bit value with low word `a % 65536` and high word `b % 65536`,
/// read as a signed number.
pub open spec fn dword_of(a: int, b: int) -> int {
    let u = a % 65536 + 65536 * (b % 65536);
    if u >= 0x8000_0000 {
        u - 0x1_0000_0000
    } else {
        u
    }
}

/// What status bit `error` tells of the packet: nothing for `Success`; an
/// invalid input for the voltage bit; invalid data for the others.
pub open spec fn rx_packet_fault(error: ErrorCode) -> Option<PortFault> {
    match error {
        ErrorCode::Success => None,
        ErrorCode::VoltageError => Some(PortFault::InvalidInput),
        _ => Some(PortFault::InvalidData),
    }
}

/// The text that explains a communication result.
pub open spec fn tx_rx_result_text(result: COMM) -> Seq<char> {
    match result {
        COMM::Success => "[TxRxResult] Communication success!"@,
        COMM::PortBusy => "[TxRxResult] port is in use!"@,
        COMM::TxFail => "[TxRxResult] Failed to transmit instruction packet!"@,
        COMM::RxFail => "[TxRxResult] Failed to receive instruction packet!"@,
        COMM::TxError => "[TxRxResult] Incorrect instruction packet!"@,
        COMM::RxWaiting => "[TxRxResult] Now receiving status packet!"@,
        COMM::RxTimeout => "[TxRxResult] There is no status packet!"@,
        COMM::RxCorrupt => "[TxRxResult] Received packet is corrupted!"@,
        COMM::NotAvailable => "[TxRxResult] Feature not available!"@,
    }
}

/// The text that explains a device status bit; empty for `Success`.
pub open spec fn rx_packet_error_text(error: ErrorCode) -> Seq<char> {
    match error {
        ErrorCode::VoltageError => "[ServoStatus] Input voltage error!"@,
        ErrorCode::AngleError => "[ServoStatus] Angle error!"@,
        ErrorCode::OverheatError => "[ServoStatus] Overheat error!"@,
        ErrorCode::OverElementError => "[ServoStatus] Over element error!"@,
        ErrorCode::OverloadError => "[ServoStatus] Overload error!"@,
        ErrorCode::Success => ""@,
    }
}

/// Result of a transmission from buffer `tx` at a port in state `port`.
pub open spec fn tx_result(port: PortState, tx: Seq<u8>) -> COMM {
    if port.is_using {
        COMM::PortBusy
    } else if !request_ok(tx) {
        COMM::TxError
    } else if !port.is_open {
        COMM::TxFail
    } else {
        COMM::Success
    }
}

/// The port after `frame` is handed to it: the packet's time starts, and on
/// an open port what waited to be read is dropped and the frame waits for
/// the wire behind what waits there.
pub open spec fn port_after_send(port: PortState, frame: Seq<u8>) -> PortState {
    let timed = PortState {
        packet_start_time: Some(port.now),
        packet_timeout: packet_timeout_for(port.tx_time_per_byte, frame.len() as u32) as u64,
        ..port
    };
    if port.is_open {
        PortState { incoming: Seq::empty(), outgoing: port.outgoing + frame, ..timed }
    } else {
        timed
    }
}

/// The port after a transmission from buffer `tx`.
pub open spec fn tx_port_after(port: PortState, tx: Seq<u8>) -> PortState {
    match tx_result(port, tx) {
        COMM::PortBusy | COMM::TxError => port,
        _ => port_after_send(port, sealed(tx)),
    }
}

/// Buffer `tx` after a transmission from it.
pub open spec fn tx_buffer_after(port: PortState, tx: Seq<u8>) -> Seq<u8> {
    match tx_result(port, tx) {
        COMM::PortBusy | COMM::TxError => tx,
        _ => sealed_in_place(tx),
    }
}

/// Result of looking for a status packet from a device that `id` accepts in
/// what has arrived at the port.
pub open spec fn rx_result(port: PortState, id: Option<u8>) -> COMM {
    let at = scan_start(port.incoming, id, None);
    if !port.is_open {
        COMM::RxFail
    } else if frame_at(port.incoming, at, id, None) {
        COMM::Success
    } else if candidate_before(port.incoming, at, id) {
        COMM::RxCorrupt
    } else if timed_out(port) {
        COMM::RxTimeout
    } else {
        COMM::RxWaiting
    }
}

/// The frame that a reception returns: the first intact one on success,
/// nothing otherwise.
pub open spec fn rx_frame(port: PortState, id: Option<u8>) -> Seq<u8> {
    let at = scan_start(port.incoming, id, None);
    if rx_result(port, id) is Success {
        port.incoming.subrange(at, at + frame_len_at(port.incoming, at))
    } else {
        Seq::empty()
    }
}

/// The port after a reception: what the scan is done with has left the
/// receive queue, and the port is free again unless the reply is still
/// awaited.
pub open spec fn rx_port_after(port: PortState, id: Option<u8>) -> PortState {
    let at = scan_start(port.incoming, id, None);
    let n = port.incoming.len() as int;
    match rx_result(port, id) {
        COMM::RxFail => PortState { is_using: false, ..port },
        COMM::Success => PortState {
            is_using: false,
            incoming: port.incoming.subrange(at + frame_len_at(port.incoming, at), n),
            ..port
        },
        COMM::RxCorrupt => PortState {
            is_using: false,
            incoming: port.incoming.subrange(at, n),
            ..port
        },
        COMM::RxTimeout => PortState {
            is_using: false,
            incoming: port.incoming.subrange(at, n),
            ..after_timeout_check(port)
        },
        _ => PortState { incoming: port.incoming.subrange(at, n), ..after_timeout_check(port) },
    }
}

/// How an exchange stands after one step.
pub struct Exchange {
    pub result: COMM,
    /// The reply frame, on success.
    pub frame: Seq<u8>,
    pub port: PortState,
    /// The request whose reply is awaited.
    pub pending: Seq<u8>,
}

/// One step of receiving the reply of device `id`.
pub open spec fn polled(port: PortState, pending: Seq<u8>, id: u8) -> Exchange {
    Exchange {
        result: rx_result(port, Some(id)),
        frame: rx_frame(port, Some(id)),
        port: rx_port_after(port, Some(id)),
        pending,
    }
}

/// Number of bytes of the reply to the request `frame`: a status packet
/// without parameters, or with as many as a read asks for.
pub open spec fn reply_length(frame: Seq<u8>) -> u32 {
    if frame.len() >= 8 && frame[4] == 0x02 {
        (frame[6] + 6) as u32
    } else {
        6
    }
}

/// The port once it is held for the reply to the request `frame`: the
/// packet's time starts anew and is that of the reply.
pub open spec fn awaiting(port: PortState, frame: Seq<u8>) -> PortState {
    PortState {
        is_using: true,
        packet_start_time: Some(port.now),
        packet_timeout: packet_timeout_for(port.tx_time_per_byte, reply_length(frame)) as u64,
        ..port
    }
}

/// One step of the exchange of the request `frame` at a port in state
/// `port` with `pending` as the request last awaited.
///
/// On a free port the request is sent; a broadcast ends there, any other
/// request then holds the port and waits for the reply of the device
/// addressed. On a held port the same request continues to wait; any other
/// is refused as busy.
pub open spec fn frame_exchange(port: PortState, pending: Seq<u8>, frame: Seq<u8>) -> Exchange {
    if port.is_using {
        if pending == frame {
            polled(port, pending, frame[2])
        } else {
            Exchange { result: COMM::PortBusy, frame: Seq::empty(), port, pending }
        }
    } else if !port.is_open {
        Exchange {
            result: COMM::TxFail,
            frame: Seq::empty(),
            port: port_after_send(port, frame),
            pending,
        }
    } else if frame[2] == 0xFE {
        Exchange {
            result: COMM::Success,
            frame: Seq::empty(),
            port: port_after_send(port, frame),
            pending,
        }
    } else {
        polled(awaiting(port_after_send(port, frame), frame), frame, frame[2])
    }
}

/// One step of the exchange of the request in buffer `tx`: that of its
/// frame, if it stands for one; else `PortBusy` on a held port and `TxError`
/// on a free one.
pub open spec fn exchange(port: PortState, pending: Seq<u8>, tx: Seq<u8>) -> Exchange {
    if request_ok(tx) {
        frame_exchange(port, pending, sealed(tx))
    } else {
        Exchange {
            result: if port.is_using {
                COMM::PortBusy
            } else {
                COMM::TxError
            },
            frame: Seq::empty(),
            port,
            pending,
        }
    }
}

/// Buffer `tx` after an exchange step: completed in place whenever it
/// stands for a frame.
pub open spec fn exchange_buffer_after(tx: Seq<u8>) -> Seq<u8> {
    if request_ok(tx) {
        sealed_in_place(tx)
    } else {
        tx
    }
}

/// Result of sending the instruction `op` with `params` to `id`: busy
/// before all else, then `TxError` for parameters that fit no frame, then
/// `TxFail` on a closed port.
pub open spec fn instruction_tx_result(port: PortState, id: u8, op: u8, params: Seq<u8>) -> COMM {
    if port.is_using {
        COMM::PortBusy
    } else if params.len() > 244 {
        COMM::TxError
    } else if !port.is_open {
        COMM::TxFail
    } else {
        COMM::Success
    }
}

/// The port after sending the instruction `op` with `params` to `id`.
pub open spec fn instruction_tx_port(
    port: PortState,
    id: u8,
    op: u8,
    params: Seq<u8>,
) -> PortState {
    if port.is_using || params.len() > 244 {
        port
    } else {
        port_after_send(port, frame_of(id, op, params))
    }
}

/// One step of the exchange of the instruction `op` with `params` for `id`.
pub open spec fn instruction_exchange(
    port: PortState,
    pending: Seq<u8>,
    id: u8,
    op: u8,
    params: Seq<u8>,
) -> Exchange {
    if params.len() > 244 {
        Exchange {
            result: if port.is_using {
                COMM::PortBusy
            } else {
                COMM::TxError
            },
            frame: Seq::empty(),
            port,
            pending,
        }
    } else {
        frame_exchange(port, pending, frame_of(id, op, params))
    }
}

/// Parameters of a write of the word `data` at `address` under byte order
/// `end`.
pub open spec fn word_params(address: u8, data: u16, end: Endian) -> Seq<u8> {
    seq![
        address,
        spec_lobyte(data as int, end) as u8,
        spec_hibyte(data as int, end) as u8,
    ]
}

/// `post` and `r` are what sending the instruction `op` with `params` to
/// `id` makes of `pre`.
pub open spec fn sends(
    pre: ProtocolPacketHandler,
    post: ProtocolPacketHandler,
    r: COMM,
    id: u8,
    op: u8,
    params: Seq<u8>,
) -> bool {
    &&& r == instruction_tx_result(pre.port_handler@, id, op, params)
    &&& post.port_handler@ == instruction_tx_port(pre.port_handler@, id, op, params)
    &&& post.scs_end == pre.scs_end
    &&& post.pending@ == pre.pending@
}

/// `post` and `r` are what one step of the exchange of the instruction `op`
/// with `params` for `id` makes of `pre`.
pub open spec fn exchanges(
    pre: ProtocolPacketHandler,
    post: ProtocolPacketHandler,
    r: COMM,
    id: u8,
    op: u8,
    params: Seq<u8>,
) -> bool {
    let x = instruction_exchange(pre.port_handler@, pre.pending@, id, op, params);
    &&& r == x.result
    &&& post.port_handler@ == x.port
    &&& post.pending@ == x.pending
    &&& post.scs_end == pre.scs_end
}

/// The reply frame of one step of the exchange of the instruction `op` with
/// `params` for `id`.
pub open spec fn reply_of(
    pre: ProtocolPacketHandler,
    id: u8,
    op: u8,
    params: Seq<u8>,
) -> Seq<u8> {
    instruction_exchange(pre.port_handler@, pre.pending@, id, op, params).frame
}

/// The result of one step of the exchange of the instruction `op` with
/// `params` for `id`.
pub open spec fn result_of(
    pre: ProtocolPacketHandler,
    id: u8,
    op: u8,
    params: Seq<u8>,
) -> COMM {
    instruction_exchange(pre.port_handler@, pre.pending@, id, op, params).result
}

/// `post` is what one step of reading `length` bytes at `address` of device
/// `id` makes of `pre`.
pub open spec fn reads(
    pre: ProtocolPacketHandler,
    post: ProtocolPacketHandler,
    id: u8,
    address: u8,
    length: u8,
) -> bool {
    exchanges(
        pre,
        post,
        result_of(pre, id, 0x02, seq![address, length]),
        id,
        0x02,
        seq![address, length],
    )
}

/// What has arrived is all that a group of `count` devices sends in answer
/// to a read of `data_length` bytes, or the time for it is up.
pub open spec fn group_reply_due(port: PortState, count: nat, data_length: u8) -> bool {
    ||| port.incoming.len() >= count * (data_length + 6)
    ||| timed_out(port)
}

/// Result of collecting the answers of a group.
pub open spec fn group_rx_result(port: PortState, count: nat, data_length: u8) -> COMM {
    if !port.is_open {
        COMM::RxFail
    } else if !group_reply_due(port, count, data_length) {
        COMM::RxWaiting
    } else if port.incoming.len() == 0 {
        COMM::RxTimeout
    } else {
        COMM::Success
    }
}

/// The bytes that collecting the answers of a group returns.
pub open spec fn group_rx_bytes(port: PortState, count: nat, data_length: u8) -> Seq<u8> {
    if group_rx_result(port, count, data_length) is Success {
        port.incoming
    } else {
        Seq::empty()
    }
}

/// The port after collecting the answers of a group.
pub open spec fn group_rx_port(port: PortState, count: nat, data_length: u8) -> PortState {
    match group_rx_result(port, count, data_length) {
        COMM::RxFail => PortState { is_using: false, ..port },
        COMM::RxWaiting => after_timeout_check(port),
        _ => PortState {
            is_using: false,
            incoming: Seq::empty(),
            ..if port.incoming.len() >= count * (data_length + 6) {
                port
            } else {
                after_timeout_check(port)
            }
        },
    }
}

proof fn lemma_words_of_i32(w: i32)
    ensures
        (w & 0xFFFF) as int == low_word(w as int),
        ((w >> 16u32) & 0xFFFF) as int == high_word(w as int),
{
    let u = #[verifier::truncate] (w as u32);
    assert(w & 0xFFFF == (u & 0xFFFF) as i32) by (bit_vector)
        requires
            u == w as u32,
    ;
    assert((w >> 16u32) & 0xFFFF == ((u >> 16u32) & 0xFFFF) as i32) by (bit_vector)
        requires
            u == w as u32,
    ;
    assert(u & 0xFFFF == u % 65536) by (bit_vector);
    assert((u >> 16u32) & 0xFFFF == (u / 65536) % 65536) by (bit_vector);
    assert(w < 0 ==> u as int == w as int + 0x1_0000_0000) by (bit_vector)
        requires
            u == w as u32,
    ;
    assert(w >= 0 ==> u as int == w as int) by (bit_vector)
        requires
            u == w as u32,
    ;
    if w < 0 {
        let x = w as int;
        assert((x + 0x1_0000_0000) % 65536 == x % 65536) by (nonlinear_arith);
        assert(((x + 0x1_0000_0000) / 65536) % 65536 == (x / 65536) % 65536)
            by (nonlinear_arith);
    }
}

proof fn lemma_dword_of_words(lo: i32, hi: i32)
    requires
        0 <= lo < 65536,
        0 <= hi < 65536,
    ensures
        hi < 32768 ==> (lo | (hi << 16u32)) as int == lo + 65536 * hi,
        hi >= 32768 ==> (lo | (hi << 16u32)) as int == lo + 65536 * hi - 0x1_0000_0000,
{
    assert(hi < 32768 ==> (lo | (hi << 16u32)) == lo + 65536 * hi) by (bit_vector)
        requires
            0 <= lo < 65536,
            0 <= hi < 65536,
    ;
    assert(hi >= 32768 ==> (lo | (hi << 16u32)) == lo + 65536 * hi - 0x1_0000_0000)
        by (bit_vector)
        requires
            0 <= lo < 65536,
            0 <= hi < 65536,
    ;
}

/// Whether `a` holds exactly the first `n` bytes of `b`.
fn is_prefix(a: &[u8], b: &[u8], n: usize) -> (same: bool)
    requires
        n <= b@.len(),
    ensures
        same == (a@ == b@.subrange(0, n as int)),
{
    if a.len() != n {
        return false;
    }
    let mut i: usize = 0;
    while i < n
        invariant
            i <= n == a@.len(),
            n <= b@.len(),
            forall|j: int| 0 <= j < i ==> a@[j] == b@[j],
        decreases n - i,
    {
        if a[i] != b[i] {
            assert(b@.subrange(0, n as int)[i as int] == b@[i as int]);
            return false;
        }
        i = i + 1;
    }
    assert(a@ =~= b@.subrange(0, n as int));
    true
}

/// A vector of the two bytes given.
fn pair(a: u8, b: u8) -> (v: Vec<u8>)
    ensures
        v@ == seq![a, b],
{
    let mut v: Vec<u8> = Vec::new();
    v.push(a);
    v.push(b);
    assert(v@ =~= seq![a, b]);
    v
}

/// A vector of `head` followed by the bytes of `rest`.
fn prepend(head: &[u8], rest: &[u8]) -> (v: Vec<u8>)
    ensures
        v@ == head@ + rest@,
{
    join_bytes(head, rest)
}

/// The protocol layer of one bus.
#[derive(Debug)]
pub struct ProtocolPacketHandler {
    /// The port of the bus.
    pub port_handler: PortHandler,
    /// Byte order of the words of the devices on the bus.
    pub scs_end: Endian,
    /// The request whose reply is awaited while the port is held.
    pub pending: Vec<u8>,
}

impl ProtocolPacketHandler {
    /// A handler that owns `port_handler` and packs words in `scs_end` order.
    pub fn new(port_handler: PortHandler, scs_end: Endian) -> (h: Self)
        ensures
            h.port_handler == port_handler,
            h.scs_end == scs_end,
            h.pending@ == Seq::<u8>::empty(),
    {
        ProtocolPacketHandler { port_handler, scs_end, pending: Vec::new() }
    }

    /// The byte order of the words on the bus.
    pub fn scs_getend(&self) -> (e: Endian)
        ensures
            e == self.scs_end,
    {
        self.scs_end
    }

    /// Sets the byte order of the words on the bus.
    pub fn scs_setend(&mut self, end: Endian)
        ensures
            final(self).scs_end == end,
            final(self).port_handler == old(self).port_handler,
            final(self).pending == old(self).pending,
    {
        self.scs_end = end;
    }

    /// Host value of register value `a` with direction bit `b`; see
    /// [`to_host`].
    pub fn scs_tohost(&self, a: i32, b: u32) -> (r: i32)
        requires
            b <= MAX_SIGN_BIT,
            a as int - pow2(b as nat) != i32::MIN,
        ensures
            r as int == spec_to_host(a as int, b as nat),
    {
        to_host(a, b)
    }

    /// Register value of host value `a` with direction bit `b`; see
    /// [`to_device`].
    pub fn scs_toscs(&self, a: i32, b: u32) -> (r: i32)
        requires
            b <= MAX_SIGN_BIT,
            a != i32::MIN,
        ensures
            r as int == spec_to_device(a as int, b as nat),
    {
        to_device(a, b)
    }

    /// The word made of parts `a` and `b` in the bus's byte order.
    pub fn scs_makeword(&self, a: i32, b: i32) -> (w: i32)
        ensures
            w as int == spec_make_word(a as int, b as int, self.scs_end),
            0 <= w <= 0xFFFF,
    {
        make_word(a, b, self.scs_end)
    }

    /// The double word with low word `a` and high word `b`.
    pub fn scs_makedword(&self, a: i32, b: i32) -> (d: i32)
        ensures
            d as int == dword_of(a as int, b as int),
    {
        proof {
            lemma_words_of_i32(a);
            lemma_words_of_i32(b);
            lemma_dword_of_words(a & 0xFFFF, b & 0xFFFF);
        }
        (a & 0xFFFF) | ((b & 0xFFFF) << 16u32)
    }

    /// Bits 0 to 15 of `l`.
    pub fn scs_loword(&self, l: i32) -> (w: i32)
        ensures
            w as int == low_word(l as int),
    {
        proof {
            lemma_words_of_i32(l);
        }
        l & 0xFFFF
    }

    /// Bits 16 to 31 of `h`.
    pub fn scs_hiword(&self, h: i32) -> (w: i32)
        ensures
            w as int == high_word(h as int),
    {
        proof {
            lemma_words_of_i32(h);
        }
        (h >> 16u32) & 0xFFFF
    }

    /// The low part of `w` in the bus's byte order.
    pub fn scs_lobyte(&self, w: i32) -> (b: i32)
        ensures
            b as int == spec_lobyte(w as int, self.scs_end),
            0 <= b <= 0xFF,
    {
        lobyte(w, self.scs_end)
    }

    /// The high part of `w` in the bus's byte order.
    pub fn scs_hibyte(&self, w: i32) -> (b: i32)
        ensures
            b as int == spec_hibyte(w as int, self.scs_end),
            0 <= b <= 0xFF,
    {
        hibyte(w, self.scs_end)
    }

    /// The version of the protocol.
    pub fn get_protocol_version(&self) -> (v: String)
        ensures
            v@ == "1.0"@,
    {
        "1.0".to_owned()
    }

    /// The text that explains `result`.
    pub fn get_tx_rx_result(&self, result: COMM) -> (text: String)
        ensures
            text@ == tx_rx_result_text(result),
    {
        match result {
            COMM::Success => "[TxRxResult] Communication success!".to_owned(),
            COMM::PortBusy => "[TxRxResult] port is in use!".to_owned(),
            COMM::TxFail => "[TxRxResult] Failed to transmit instruction packet!".to_owned(),
            COMM::RxFail => "[TxRxResult] Failed to receive instruction packet!".to_owned(),
            COMM::TxError => "[TxRxResult] Incorrect instruction packet!".to_owned(),
            COMM::RxWaiting => "[TxRxResult] Now receiving status packet!".to_owned(),
            COMM::RxTimeout => "[TxRxResult] There is no status packet!".to_owned(),
            COMM::RxCorrupt => "[TxRxResult] Received packet is corrupted!".to_owned(),
            COMM::NotAvailable => "[TxRxResult] Feature not available!".to_owned(),
        }
    }

    /// The text that explains status bit `error`; empty for `Success`.
    pub fn get_rx_packet_error_text(&self, error: ErrorCode) -> (text: String)
        ensures
            text@ == rx_packet_error_text(error),
    {
        match error {
            ErrorCode::VoltageError => "[ServoStatus] Input voltage error!".to_owned(),
            ErrorCode::AngleError => "[ServoStatus] Angle error!".to_owned(),
            ErrorCode::OverheatError => "[ServoStatus] Overheat error!".to_owned(),
            ErrorCode::OverElementError => "[ServoStatus] Over element error!".to_owned(),
            ErrorCode::OverloadError => "[ServoStatus] Overload error!".to_owned(),
            ErrorCode::Success => "".to_owned(),
        }
    }

    /// What status bit `error` tells of the packet, if anything: see
    /// [`rx_packet_fault`].
    pub fn get_rx_packet_fault(&self, error: ErrorCode) -> (r: Option<PortFault>)
        ensures
            r == rx_packet_fault(error),
    {
        match error {
            ErrorCode::Success => None,
            ErrorCode::VoltageError => Some(PortFault::InvalidInput),
            ErrorCode::AngleError => Some(PortFault::InvalidData),
            ErrorCode::OverheatError => Some(PortFault::InvalidData),
            ErrorCode::OverElementError => Some(PortFault::InvalidData),
            ErrorCode::OverloadError => Some(PortFault::InvalidData),
        }
    }

    /// `Ok` for `Success`; for a status bit, an error made of
    /// [`rx_packet_fault`] of it, with [`rx_packet_error_text`] of it as its
    /// text.
    pub fn get_rx_packet_error(&self, error: ErrorCode) -> (r: Result<(), serialport::Error>)
        ensures
            r is Ok <==> rx_packet_fault(error) is None,
            r is Ok <==> error is Success,
    {
        match self.get_rx_packet_fault(error) {
            None => Ok(()),
            Some(fault) => {
                let text = self.get_rx_packet_error_text(error);
                Err(serial_error(fault, text.as_str()))
            },
        }
    }

    /// Hands the frame in `tx` to the port: what waits to be read on an open
    /// port is dropped, the packet's time starts, and the frame waits for the
    /// wire. A closed port takes nothing.
    fn send(&mut self, tx: &Vec<u8>) -> (r: COMM)
        requires
            request_ok(tx@),
        ensures
            r == if old(self).port_handler@.is_open {
                COMM::Success
            } else {
                COMM::TxFail
            },
            final(self).port_handler@ == port_after_send(
                old(self).port_handler@,
                tx@.subrange(0, request_total(tx@)),
            ),
            final(self).scs_end == old(self).scs_end,
            final(self).pending == old(self).pending,
    {
        let total = tx[PKT_LENGTH] as usize + 4;
        self.port_handler.clear_input();
        self.port_handler.set_packet_timeout(total as u32);
        let frame = copy_range(tx.as_slice(), 0, total);
        match self.port_handler.write_port(frame.as_slice()) {
            Ok(written) => {
                if written != total {
                    COMM::TxFail
                } else {
                    COMM::Success
                }
            },
            Err(_) => COMM::TxFail,
        }
    }

    /// Sends the instruction packet that buffer `tx_packet` holds.
    ///
    /// The buffer holds the id, the length byte, the instruction and the
    /// parameters at their places in the frame; the header and the checksum
    /// are filled in here. The result is `PortBusy` while a transaction holds
    /// the port, `TxError` for a buffer that [`request_ok`] turns down,
    /// `TxFail` on a closed port, and `Success` once the frame waits at the
    /// port.
    pub fn tx_packet(&mut self, tx_packet: &mut Vec<u8>) -> (r: COMM)
        ensures
            r == tx_result(old(self).port_handler@, old(tx_packet)@),
            final(self).port_handler@ == tx_port_after(old(self).port_handler@, old(tx_packet)@),
            final(tx_packet)@ == tx_buffer_after(old(self).port_handler@, old(tx_packet)@),
            final(self).scs_end == old(self).scs_end,
            final(self).pending == old(self).pending,
    {
        if self.port_handler.is_using() {
            return COMM::PortBusy;
        }
        if !buffer_ok(tx_packet) {
            return COMM::TxError;
        }
        seal(tx_packet);
        proof {
            lemma_sealed_by_updates(old(tx_packet)@);
        }
        self.send(tx_packet)
    }

    /// Looks for a status packet from a device that `id` accepts in what has
    /// arrived.
    fn poll(&mut self, id: Option<u8>) -> (r: (Vec<u8>, COMM))
        ensures
            r.1 == rx_result(old(self).port_handler@, id),
            r.0@ == rx_frame(old(self).port_handler@, id),
            final(self).port_handler@ == rx_port_after(old(self).port_handler@, id),
            final(self).scs_end == old(self).scs_end,
            final(self).pending == old(self).pending,
    {
        if !self.port_handler.is_open() {
            self.port_handler.set_using(false);
            return (Vec::new(), COMM::RxFail);
        }
        let bytes = self.port_handler.peek_received();
        let n = bytes.len();
        let found = scan(bytes.as_slice(), id, None);
        if found.found {
            let total = bytes[found.start + 3] as usize + 4;
            let frame = copy_range(bytes.as_slice(), found.start, found.start + total);
            let _ = self.port_handler.read_port(found.start + total);
            self.port_handler.set_using(false);
            return (frame, COMM::Success);
        }
        let _ = self.port_handler.read_port(found.start);
        if found.corrupt {
            self.port_handler.set_using(false);
            return (Vec::new(), COMM::RxCorrupt);
        }
        if self.port_handler.is_packet_timeout() {
            self.port_handler.set_using(false);
            return (Vec::new(), COMM::RxTimeout);
        }
        (Vec::new(), COMM::RxWaiting)
    }

    /// Receives a status packet from any device.
    ///
    /// What has arrived is scanned for the first intact frame. With one
    /// found, the result is `Success` and the frame, and the frame and all
    /// before it leave the receive queue. Otherwise what can no longer start
    /// a frame leaves the queue, and the result is `RxCorrupt` if a frame was
    /// turned down, `RxTimeout` if the packet's time is up, `RxWaiting` if
    /// neither; `RxFail` on a closed port. Every result but `RxWaiting`
    /// frees the port.
    pub fn rx_packet(&mut self) -> (r: (Vec<u8>, COMM))
        ensures
            r.1 == rx_result(old(self).port_handler@, None),
            r.0@ == rx_frame(old(self).port_handler@, None),
            final(self).port_handler@ == rx_port_after(old(self).port_handler@, None),
            final(self).scs_end == old(self).scs_end,
            final(self).pending == old(self).pending,
    {
        self.poll(None)
    }

    /// One step of the exchange of the request in buffer `tx_packet`; see
    /// [`exchange`].
    ///
    /// Called on a free port, it sends the request; unless that was a
    /// broadcast, it then holds the port, allows the reply its time, and
    /// looks for the reply of the device addressed. Called again with the same request while the port is
    /// held, it looks for the reply again. The exchange is over, and the port
    /// free, with every result but `RxWaiting`.
    pub fn tx_rx_packet(&mut self, tx_packet: &mut Vec<u8>) -> (r: (Vec<u8>, COMM))
        ensures
            r.1 == exchange(
                old(self).port_handler@,
                old(self).pending@,
                old(tx_packet)@,
            ).result,
            r.0@ == exchange(old(self).port_handler@, old(self).pending@, old(tx_packet)@).frame,
            final(self).port_handler@ == exchange(
                old(self).port_handler@,
                old(self).pending@,
                old(tx_packet)@,
            ).port,
            final(self).pending@ == exchange(
                old(self).port_handler@,
                old(self).pending@,
                old(tx_packet)@,
            ).pending,
            final(tx_packet)@ == exchange_buffer_after(old(tx_packet)@),
            final(self).scs_end == old(self).scs_end,
    {
        proof {
            if request_ok(old(tx_packet)@) {
                lemma_sealed_by_updates(old(tx_packet)@);
            }
        }
        if self.port_handler.is_using() {
            if !buffer_ok(tx_packet) {
                return (Vec::new(), COMM::PortBusy);
            }
            seal(tx_packet);
            let total = tx_packet[PKT_LENGTH] as usize + 4;
            if !is_prefix(self.pending.as_slice(), tx_packet.as_slice(), total) {
                return (Vec::new(), COMM::PortBusy);
            }
            let id = tx_packet[PKT_ID];
            return self.poll(Some(id));
        }
        let sent = self.tx_packet(tx_packet);
        if sent != COMM::Success {
            return (Vec::new(), sent);
        }
        let id = tx_packet[PKT_ID];
        if id == BROADCAST_ID {
            return (Vec::new(), COMM::Success);
        }
        let total = tx_packet[PKT_LENGTH] as usize + 4;
        let expected: u32 = if total >= 8 && tx_packet[PKT_INSTRUCTION] == INST_READ {
            tx_packet[PKT_PARAMETER0 + 1] as u32 + 6
        } else {
            6
        };
        self.pending = copy_range(tx_packet.as_slice(), 0, total);
        self.port_handler.set_packet_timeout(expected);
        self.port_handler.set_using(true);
        self.poll(Some(id))
    }

    /// Sends the instruction `op` with `params` to `id` and expects no reply.
    pub fn tx_instruction(&mut self, id: u8, op: u8, params: &[u8]) -> (r: COMM)
        ensures
            r == instruction_tx_result(old(self).port_handler@, id, op, params@),
            final(self).port_handler@ == instruction_tx_port(
                old(self).port_handler@,
                id,
                op,
                params@,
            ),
            final(self).scs_end == old(self).scs_end,
            final(self).pending == old(self).pending,
    {
        if self.port_handler.is_using() {
            proof {
                if params@.len() <= 244 {
                    lemma_frame_is_sealed(id, op, params@);
                }
            }
            return COMM::PortBusy;
        }
        match encode_raw(id, op, params) {
            Err(e) => e,
            Ok(frame) => {
                let mut frame = frame;
                proof {
                    lemma_frame_is_sealed(id, op, params@);
                }
                self.tx_packet(&mut frame)
            },
        }
    }

    /// One step of the exchange of the instruction `op` with `params` for
    /// `id`; see [`Self::tx_rx_packet`].
    pub fn tx_rx_instruction(&mut self, id: u8, op: u8, params: &[u8]) -> (r: (Vec<u8>, COMM))
        ensures
            r.1 == instruction_exchange(
                old(self).port_handler@,
                old(self).pending@,
                id,
                op,
                params@,
            ).result,
            r.0@ == instruction_exchange(
                old(self).port_handler@,
                old(self).pending@,
                id,
                op,
                params@,
            ).frame,
            final(self).port_handler@ == instruction_exchange(
                old(self).port_handler@,
                old(self).pending@,
                id,
                op,
                params@,
            ).port,
            final(self).pending@ == instruction_exchange(
                old(self).port_handler@,
                old(self).pending@,
                id,
                op,
                params@,
            ).pending,
            final(self).scs_end == old(self).scs_end,
    {
        match encode_raw(id, op, params) {
            Err(e) => {
                if self.port_handler.is_using() {
                    (Vec::new(), COMM::PortBusy)
                } else {
                    (Vec::new(), e)
                }
            },
            Ok(frame) => {
                let mut frame = frame;
                proof {
                    lemma_frame_is_sealed(id, op, params@);
                }
                self.tx_rx_packet(&mut frame)
            },
        }
    }

    /// Pings device `scs_id`: one step of the exchange of a `Ping`. `Success`
    /// says that the device's status packet has arrived intact.
    pub fn ping(&mut self, scs_id: u8) -> (r: COMM)
        ensures
            exchanges(*old(self), *final(self), r, scs_id, 0x01, Seq::empty()),
    {
        let params: Vec<u8> = Vec::new();
        let (_, result) = self.tx_rx_instruction(scs_id, INST_PING, params.as_slice());
        result
    }

    /// Tells device `scs_id`, or with the broadcast id all devices, to carry
    /// out what was registered. No reply is awaited.
    pub fn action(&mut self, scs_id: u8) -> (r: COMM)
        ensures
            sends(*old(self), *final(self), r, scs_id, 0x05, Seq::empty()),
    {
        let params: Vec<u8> = Vec::new();
        self.tx_instruction(scs_id, INST_REG_ACTION, params.as_slice())
    }

    /// One step of reading `length` bytes at `address` of device `scs_id`.
    /// On `Success` the reply frame is returned whole.
    pub fn read_bytes(&mut self, scs_id: u8, address: u8, length: u8) -> (r: (Vec<u8>, COMM))
        ensures
            exchanges(*old(self), *final(self), r.1, scs_id, 0x02, seq![address, length]),
            r.0@ == reply_of(*old(self), scs_id, 0x02, seq![address, length]),
    {
        let params = pair(address, length);
        self.tx_rx_instruction(scs_id, INST_READ, params.as_slice())
    }

    /// One step of reading the byte at `address` of device `scs_id`.
    pub fn read_1byte_tx_rx(&mut self, scs_id: u8, address: u8) -> (r: (Vec<u8>, COMM))
        ensures
            exchanges(*old(self), *final(self), r.1, scs_id, 0x02, seq![address, 1u8]),
            r.0@ == reply_of(*old(self), scs_id, 0x02, seq![address, 1u8]),
    {
        self.read_bytes(scs_id, address, 1)
    }

    /// One step of reading the two bytes at `address` of device `scs_id`.
    pub fn read_2byte_tx_rx(&mut self, scs_id: u8, address: u8) -> (r: (Vec<u8>, COMM))
        ensures
            exchanges(*old(self), *final(self), r.1, scs_id, 0x02, seq![address, 2u8]),
            r.0@ == reply_of(*old(self), scs_id, 0x02, seq![address, 2u8]),
    {
        self.read_bytes(scs_id, address, 2)
    }

    /// Writes `data` at `address` of device `scs_id`. No reply is awaited.
    pub fn write_bytes(&mut self, scs_id: u8, address: u8, data: &[u8]) -> (r: COMM)
        ensures
            sends(*old(self), *final(self), r, scs_id, 0x03, seq![address] + data@),
    {
        let mut head: Vec<u8> = Vec::new();
        head.push(address);
        assert(head@ =~= seq![address]);
        let params = prepend(head.as_slice(), data);
        self.tx_instruction(scs_id, INST_WRITE, params.as_slice())
    }

    /// Writes the byte `data` at `address` of device `scs_id`.
    pub fn write_1byte_tx_rx(&mut self, scs_id: u8, address: u8, data: u8) -> (r: COMM)
        ensures
            sends(*old(self), *final(self), r, scs_id, 0x03, seq![address, data]),
    {
        let params = pair(address, data);
        self.tx_instruction(scs_id, INST_WRITE, params.as_slice())
    }

    /// Writes the word `data` at `address` of device `scs_id`, in the bus's
    /// byte order.
    pub fn write_2byte_tx_rx(&mut self, scs_id: u8, address: u8, data: u16) -> (r: COMM)
        ensures
            sends(
                *old(self),
                *final(self),
                r,
                scs_id,
                0x03,
                word_params(address, data, old(self).scs_end),
            ),
    {
        let params = self.word_at(address, data);
        self.tx_instruction(scs_id, INST_WRITE, params.as_slice())
    }

    /// Registers a write of `data` at `address` of device `scs_id`, to be
    /// carried out on the next [`Self::action`]. No reply is awaited.
    pub fn reg_write_bytes(&mut self, scs_id: u8, address: u8, data: &[u8]) -> (r: COMM)
        ensures
            sends(*old(self), *final(self), r, scs_id, 0x04, seq![address] + data@),
    {
        let mut head: Vec<u8> = Vec::new();
        head.push(address);
        assert(head@ =~= seq![address]);
        let params = prepend(head.as_slice(), data);
        self.tx_instruction(scs_id, INST_REG_WRITE, params.as_slice())
    }

    /// Registers a write of the byte `data` at `address` of device `scs_id`.
    pub fn reg_write_1byte(&mut self, scs_id: u8, address: u8, data: u8) -> (r: COMM)
        ensures
            sends(*old(self), *final(self), r, scs_id, 0x04, seq![address, data]),
    {
        let params = pair(address, data);
        self.tx_instruction(scs_id, INST_REG_WRITE, params.as_slice())
    }

    /// Registers a write of the word `data` at `address` of device `scs_id`,
    /// in the bus's byte order.
    pub fn reg_write_2byte(&mut self, scs_id: u8, address: u8, data: u16) -> (r: COMM)
        ensures
            sends(
                *old(self),
                *final(self),
                r,
                scs_id,
                0x04,
                word_params(address, data, old(self).scs_end),
            ),
    {
        let params = self.word_at(address, data);
        self.tx_instruction(scs_id, INST_REG_WRITE, params.as_slice())
    }

    /// The parameters of a write of the word `data` at `address`.
    fn word_at(&self, address: u8, data: u16) -> (v: Vec<u8>)
        ensures
            v@ == word_params(address, data, self.scs_end),
    {
        let lo = self.scs_lobyte(data as i32);
        let hi = self.scs_hibyte(data as i32);
        let mut v: Vec<u8> = Vec::new();
        v.push(address);
        v.push(lo as u8);
        v.push(hi as u8);
        assert(v@ =~= word_params(address, data, self.scs_end));
        v
    }

    /// Broadcasts a synchronous write of `data_length` bytes at
    /// `start_address`; `param` holds, device after device, the id and the
    /// bytes for it. No reply is awaited.
    pub fn sync_write_tx_only(&mut self, start_address: u8, data_length: u8, param: &[u8]) -> (r:
        COMM)
        ensures
            sends(
                *old(self),
                *final(self),
                r,
                0xFE,
                0x83,
                seq![start_address, data_length] + param@,
            ),
    {
        let head = pair(start_address, data_length);
        let params = prepend(head.as_slice(), param);
        self.tx_instruction(BROADCAST_ID, INST_SYNC_WRITE, params.as_slice())
    }

    /// Broadcasts a synchronous read of `data_length` bytes at
    /// `start_address` from the devices whose ids `param` holds.
    pub fn sync_read_tx(&mut self, start_address: u8, data_length: u8, param: &[u8]) -> (r: COMM)
        ensures
            sends(
                *old(self),
                *final(self),
                r,
                0xFE,
                0x82,
                seq![start_address, data_length] + param@,
            ),
    {
        let head = pair(start_address, data_length);
        let params = prepend(head.as_slice(), param);
        self.tx_instruction(BROADCAST_ID, INST_SYNC_READ, params.as_slice())
    }

    /// Broadcasts a read request with `param` as its whole parameter
    /// section.
    pub fn bulk_read_tx(&mut self, param: &[u8]) -> (r: COMM)
        ensures
            sends(*old(self), *final(self), r, 0xFE, 0x82, param@),
    {
        self.tx_instruction(BROADCAST_ID, INST_SYNC_READ, param)
    }

    /// Collects the answers of the devices `expected_ids` to a synchronous
    /// read of `data_length` bytes.
    ///
    /// While fewer bytes have arrived than the status packets of all of them
    /// hold and the packet's time is not up, the result is `RxWaiting` and
    /// nothing is taken. After that all that has arrived is taken and
    /// returned with `Success`, or `RxTimeout` if nothing has; `RxFail` on a
    /// closed port. Which answers are there and intact is for the caller to
    /// find out.
    pub fn sync_read_rx(&mut self, expected_ids: &[u8], data_length: u8) -> (r: (COMM, Vec<u8>))
        ensures
            r.0 == group_rx_result(old(self).port_handler@, expected_ids@.len(), data_length),
            r.1@ == group_rx_bytes(old(self).port_handler@, expected_ids@.len(), data_length),
            final(self).port_handler@ == group_rx_port(
                old(self).port_handler@,
                expected_ids@.len(),
                data_length,
            ),
            final(self).scs_end == old(self).scs_end,
            final(self).pending == old(self).pending,
    {
        let count = expected_ids.len();
        if !self.port_handler.is_open() {
            self.port_handler.set_using(false);
            return (COMM::RxFail, Vec::new());
        }
        let bytes = self.port_handler.peek_received();
        let have = bytes.len();
        let each = data_length as usize + 6;
        let enough = match count.checked_mul(each) {
            Some(want) => have >= want,
            None => false,
        };
        assert(enough == (have >= count * (data_length + 6))) by (nonlinear_arith)
            requires
                each == data_length + 6,
                enough == (count * each <= usize::MAX && have >= count * each),
                have <= usize::MAX,
        ;
        if !enough {
            if !self.port_handler.is_packet_timeout() {
                return (COMM::RxWaiting, Vec::new());
            }
        }
        let _ = self.port_handler.read_port(have);
        self.port_handler.set_using(false);
        if have == 0 {
            (COMM::RxTimeout, Vec::new())
        } else {
            (COMM::Success, bytes)
        }
    }

    /// The port of the bus.
    pub fn get_port_handler(&self) -> (p: &PortHandler)
        ensures
            *p == self.port_handler,
    {
        &self.port_handler
    }

    /// Hands the port of the bus out for the caller to move bytes between it
    /// and the wire.
    pub fn get_port_handler_mut(&mut self) -> (p: &mut PortHandler)
        ensures
            *p == old(self).port_handler,
            final(self).port_handler == *final(p),
            final(self).scs_end == old(self).scs_end,
            final(self).pending == old(self).pending,
    {
        &mut self.port_handler
    }

    /// The checksum of a frame held in `packet`: that of all its bytes from
    /// the id on.
    pub fn calculate_checksum(&self, packet: &[u8]) -> (c: u8)
        requires
            packet@.len() >= 2,
        ensures
            c == checksum_of(packet@.subrange(2, packet@.len() as int)),
    {
        checksum_range(packet, PKT_ID, packet.len())
    }
}

/// An exchange ends with its reply: when a request for a single device
/// waits on an open port and all that has arrived is one intact status
/// packet from that device, the next step of the exchange succeeds, returns
/// that packet, empties the receive queue and frees the port.
pub proof fn lemma_reply_completes_exchange(port: PortState, request: Seq<u8>, reply: Seq<u8>)
    requires
        port.is_open,
        port.is_using,
        port.incoming == reply,
        request.len() >= 3,
        request[2] != 0xFF,
        well_formed(reply),
        reply[2] == request[2],
    ensures
        frame_exchange(port, request, request).result == COMM::Success,
        frame_exchange(port, request, request).frame == reply,
        frame_exchange(port, request, request).port == (PortState {
            is_using: false,
            incoming: Seq::empty(),
            ..port
        }),
{
    let id = Some(request[2]);
    lemma_resync_on_garbage_prefix(Seq::empty(), reply, id);
    assert(Seq::<u8>::empty() + reply =~= reply);
    let done = frame_exchange(port, request, request);
    assert(done.frame =~= reply);
    assert(done.port.incoming =~= Seq::<u8>::empty());
}

} // verus!
