//! The byte-level protocol of one bus end, with its own buffers.
//!
//! An `SCS` performs no I/O. What it writes is staged in `tx_buf` and put
//! on `wire_out` by a flush; the owner of the physical port takes it from
//! there and hands what arrives into `rx_buf`. An operation that expects an
//! answer remembers its request: called first, it sends the request and
//! looks for the answer at once; called again with the same arguments while
//! the answer is outstanding, it only looks for the answer again. Until the
//! whole answer has arrived nothing is taken from `rx_buf`.

use vstd::prelude::*;
use crate::inst::{
    INST_PING, INST_READ, INST_REG_ACTION, INST_REG_WRITE, INST_SYNC_READ, INST_SYNC_WRITE,
    INST_WRITE,
};
use crate::packet::{checksum_of, checksum_range, encode_raw, frame_of};
use crate::group_sync_read::{demuxed, reply_found, zero_bytes, zeros};
use crate::stream::{join_bytes, copy_range, same_bytes, scan};
use crate::word::{lemma_mask_is_pow2, spec_to_host, to_host};

verus! {

/// One end of the bus.
#[derive(Debug)]
pub struct SCS {
    /// Whether devices answer writes: zero if they do not.
    pub level: u8,
    /// Byte order of words: zero for low byte first.
    pub end: u8,
    /// Status bits of the last answer.
    pub error: u8,
    /// Next byte of the current synchronous-read packet to hand out.
    pub sync_read_rx_packet_index: u8,
    /// Number of bytes each device answers to a synchronous read.
    pub sync_read_rx_packet_len: u8,
    /// The current synchronous-read packet.
    pub sync_read_rx_packet_packet: Vec<u8>,
    /// Room for the answers to a synchronous read; they stand at its
    /// beginning, as they arrived.
    pub sync_read_rx_buffer: Vec<u8>,
    /// Number of answer bytes in `sync_read_rx_buffer`.
    pub sync_read_rx_packet_buff_len: u16,
    /// Largest number of answer bytes that `sync_read_rx_buffer` takes.
    pub sync_read_rx_packet_buff_max: u16,
    /// Written and not yet flushed.
    pub tx_buf: Vec<u8>,
    /// Flushed and not yet taken for the wire.
    pub wire_out: Vec<u8>,
    /// Received and not yet read.
    pub rx_buf: Vec<u8>,
    /// The request whose answer is outstanding; empty if none is.
    pub pending: Vec<u8>,
}

/// The low byte of `data` if `end` is zero, the high byte otherwise.
pub open spec fn first_byte(end: u8, data: u16) -> u8 {
    if end != 0 {
        (data / 256) as u8
    } else {
        (data % 256) as u8
    }
}

/// The high byte of `data` if `end` is zero, the low byte otherwise.
pub open spec fn second_byte(end: u8, data: u16) -> u8 {
    if end != 0 {
        (data % 256) as u8
    } else {
        (data / 256) as u8
    }
}

/// The word whose bytes in the order of `end` are `data_l`, `data_h`.
pub open spec fn word_from(end: u8, data_l: u8, data_h: u8) -> u16 {
    if end != 0 {
        (data_l * 256 + data_h) as u16
    } else {
        (data_h * 256 + data_l) as u16
    }
}

/// The parameters of an instruction on `n_dat`: none without data, else
/// the address and the first `n_len` bytes.
pub open spec fn buf_params(mem_addr: u8, n_dat: Seq<u8>, n_len: u8) -> Seq<u8> {
    if n_dat.len() == 0 {
        Seq::empty()
    } else {
        seq![mem_addr] + n_dat.subrange(0, n_len as int)
    }
}

/// Whether an instruction on the first `n_len` bytes of `n_dat` can be
/// framed.
pub open spec fn buf_ok(n_dat: Seq<u8>, n_len: u8) -> bool {
    n_dat.len() > 0 ==> n_len <= n_dat.len() && n_len <= 243
}

/// All that a bus end holds.
#[verifier::ext_equal]
pub struct ScsState {
    pub level: u8,
    pub end: u8,
    pub error: u8,
    pub packet_index: u8,
    pub packet_len: u8,
    pub packet: Seq<u8>,
    pub buffer: Seq<u8>,
    pub buff_len: u16,
    pub buff_max: u16,
    /// Written and not yet flushed.
    pub tx_buf: Seq<u8>,
    /// Flushed and not yet taken for the wire.
    pub wire_out: Seq<u8>,
    /// Received and not yet read.
    pub rx_buf: Seq<u8>,
    /// The request whose answer is outstanding.
    pub pending: Seq<u8>,
}

impl View for SCS {
    type V = ScsState;

    open spec fn view(&self) -> ScsState {
        ScsState {
            level: self.level,
            end: self.end,
            error: self.error,
            packet_index: self.sync_read_rx_packet_index,
            packet_len: self.sync_read_rx_packet_len,
            packet: self.sync_read_rx_packet_packet@,
            buffer: self.sync_read_rx_buffer@,
            buff_len: self.sync_read_rx_packet_buff_len,
            buff_max: self.sync_read_rx_packet_buff_max,
            tx_buf: self.tx_buf@,
            wire_out: self.wire_out@,
            rx_buf: self.rx_buf@,
            pending: self.pending@,
        }
    }
}

/// A bus end as [`SCS::new`] makes it.
pub open spec fn fresh_scs(end: u8, level: u8) -> ScsState {
    ScsState {
        level,
        end,
        error: 0,
        packet_index: 0,
        packet_len: 0,
        packet: Seq::empty(),
        buffer: Seq::empty(),
        buff_len: 0,
        buff_max: 0,
        tx_buf: Seq::empty(),
        wire_out: Seq::empty(),
        rx_buf: Seq::empty(),
        pending: Seq::empty(),
    }
}

/// The number of bytes that a read of up to `want` takes from `have`.
pub open spec fn taken(want: int, have: int) -> int {
    if want <= have {
        want
    } else {
        have
    }
}

/// The state after the request `frame`: unchanged if that request is
/// outstanding already; else what was received is dropped, the frame goes on
/// the wire queue behind what was staged, and its answer is outstanding.
pub open spec fn after_request(s: ScsState, frame: Seq<u8>) -> ScsState {
    if s.pending == frame {
        s
    } else {
        ScsState {
            rx_buf: Seq::empty(),
            wire_out: s.wire_out + s.tx_buf + frame,
            tx_buf: Seq::empty(),
            pending: frame,
            ..s
        }
    }
}

/// Whether device `id` acknowledges a write.
pub open spec fn expects_ack(s: ScsState, id: u8) -> bool {
    id != 0xFE && s.level != 0
}

/// Whether the six bytes `b` are an intact acknowledgement of device `id`.
pub open spec fn ack_ok(b: Seq<u8>, id: u8) -> bool {
    &&& b.len() == 6
    &&& b[0] == 0xFF
    &&& b[1] == 0xFF
    &&& b[2] == id
    &&& b[3] == 2
    &&& b[5] == checksum_of(b.subrange(2, 5))
}

/// Result of looking for the acknowledgement of device `id`: 1 if none is
/// expected or an intact one has arrived, 0 if it has not arrived yet or is
/// not intact.
pub open spec fn ack_result(s: ScsState, id: u8) -> int {
    if !expects_ack(s, id) {
        1
    } else if s.rx_buf.len() < 6 {
        0
    } else if ack_ok(s.rx_buf.subrange(0, 6), id) {
        1
    } else {
        0
    }
}

/// The state after looking for the acknowledgement of device `id`.
pub open spec fn after_ack(s: ScsState, id: u8) -> ScsState {
    if !expects_ack(s, id) {
        ScsState { error: 0, pending: Seq::empty(), ..s }
    } else if s.rx_buf.len() < 6 {
        ScsState { error: 0, ..s }
    } else {
        ScsState {
            error: if ack_ok(s.rx_buf.subrange(0, 6), id) {
                s.rx_buf[4]
            } else {
                0
            },
            rx_buf: s.rx_buf.subrange(6, s.rx_buf.len() as int),
            pending: Seq::empty(),
            ..s
        }
    }
}

/// Whether `b` is an intact answer to a read: a header in front and a
/// checksum behind that agrees with the bytes between.
pub open spec fn read_ok(b: Seq<u8>) -> bool {
    &&& b.len() >= 6
    &&& b[0] == 0xFF
    &&& b[1] == 0xFF
    &&& b[b.len() - 1] == checksum_of(b.subrange(2, b.len() - 1))
}

/// Whether the answer to a read of `n_len` bytes has arrived intact.
pub open spec fn read_done(s: ScsState, n_len: u8) -> bool {
    &&& s.rx_buf.len() >= n_len + 6
    &&& read_ok(s.rx_buf.subrange(0, n_len + 6))
}

/// The state after looking for the answer to a read of `n_len` bytes.
pub open spec fn after_read(s: ScsState, n_len: u8) -> ScsState {
    if s.rx_buf.len() < n_len + 6 {
        s
    } else {
        ScsState {
            error: if read_done(s, n_len) {
                s.rx_buf[4]
            } else {
                s.error
            },
            rx_buf: s.rx_buf.subrange(n_len + 6, s.rx_buf.len() as int),
            pending: Seq::empty(),
            ..s
        }
    }
}

/// The bytes that an intact answer to a read of `n_len` bytes carries.
pub open spec fn read_data(s: ScsState, n_len: u8) -> Seq<u8> {
    s.rx_buf.subrange(5, 5 + n_len)
}

/// Whether the six bytes `b` are an intact answer to a ping of `id`: from
/// that device, or from any if all were pinged.
pub open spec fn ping_ok(b: Seq<u8>, id: u8) -> bool {
    &&& b.len() == 6
    &&& b[0] == 0xFF
    &&& b[1] == 0xFF
    &&& (b[2] == id || id == 0xFE)
    &&& b[3] == 2
    &&& b[5] == checksum_of(b.subrange(2, 5))
}

/// Result of looking for the answer to a ping of `id`: the id of the device
/// that answered, or -1.
pub open spec fn ping_result(s: ScsState, id: u8) -> int {
    if s.rx_buf.len() >= 6 && ping_ok(s.rx_buf.subrange(0, 6), id) {
        s.rx_buf[2] as int
    } else {
        -1
    }
}

/// The state after looking for the answer to a ping of `id`.
pub open spec fn after_ping(s: ScsState, id: u8) -> ScsState {
    if s.rx_buf.len() < 6 {
        s
    } else {
        ScsState {
            error: if ping_ok(s.rx_buf.subrange(0, 6), id) {
                s.rx_buf[4]
            } else {
                s.error
            },
            rx_buf: s.rx_buf.subrange(6, s.rx_buf.len() as int),
            pending: Seq::empty(),
            ..s
        }
    }
}

/// The records of a synchronous write to the first `count` devices of
/// `ids`: for each its id, then its `n_len` bytes of `data`.
pub open spec fn records(ids: Seq<u8>, data: Seq<u8>, n_len: nat, count: nat) -> Seq<u8>
    decreases count,
{
    if count == 0 {
        Seq::empty()
    } else {
        records(ids, data, n_len, (count - 1) as nat) + seq![ids[count - 1]] + data.subrange(
            (count - 1) * n_len,
            (count * n_len) as int,
        )
    }
}

/// Whether a synchronous write of `n_len` bytes each to the first `idn`
/// devices of `ids` can be framed from `data`.
pub open spec fn sync_write_ok(ids: Seq<u8>, idn: u8, data: Seq<u8>, n_len: u8) -> bool {
    &&& idn <= ids.len()
    &&& idn * n_len <= data.len()
    &&& (n_len + 1) * idn + 2 <= 244
}

/// The number of answer bytes that the synchronous-read buffer has room
/// for: its size, as far as the limit allows.
pub open spec fn answer_room(s: ScsState) -> int {
    taken(s.buff_max as int, s.buffer.len() as int)
}

/// The number of answer bytes that the synchronous-read buffer holds: the
/// count, as far as there is room.
pub open spec fn answers_held(s: ScsState) -> int {
    taken(s.buff_len as int, answer_room(s))
}

/// The answers to a synchronous read that have been collected: the beginning
/// of the buffer.
pub open spec fn answers(s: ScsState) -> Seq<u8> {
    s.buffer.subrange(0, answers_held(s))
}

/// The state after [`SCS::sync_read_begin`] for `idn` devices that answer
/// `rx_len` bytes each: the buffer is as many zero bytes as their answers
/// take, six bytes of frame around each.
pub open spec fn after_begin(s: ScsState, idn: u8, rx_len: u8) -> ScsState {
    ScsState {
        buff_max: (idn * (rx_len + 6)) as u16,
        buffer: zero_bytes((idn * (rx_len + 6)) as nat),
        ..s
    }
}

/// The state after collecting what has arrived into the synchronous-read
/// buffer, as far as there is room: the bytes go behind the answers held,
/// over what stood there.
pub open spec fn after_collect(s: ScsState) -> ScsState {
    let held = answers_held(s);
    let k = taken(answer_room(s) - held, s.rx_buf.len() as int);
    ScsState {
        buffer: answers(s) + s.rx_buf.subrange(0, k) + s.buffer.subrange(
            held + k,
            s.buffer.len() as int,
        ),
        buff_len: (held + k) as u16,
        rx_buf: s.rx_buf.subrange(k, s.rx_buf.len() as int),
        ..s
    }
}

/// The state after the request `frame` for a synchronous read of `n_len`
/// bytes: with a new request no answer is held any more.
pub open spec fn after_sync_request(s: ScsState, frame: Seq<u8>, n_len: u8) -> ScsState {
    if s.pending == frame {
        s
    } else {
        ScsState { packet_len: n_len, buff_len: 0, ..after_request(s, frame) }
    }
}

/// The host value of the word `w` with direction bit `neg_bit`; without a
/// direction bit, or with one beyond the value's bits, the word itself.
pub open spec fn signed_word(w: u16, neg_bit: u8) -> int {
    if 1 <= neg_bit <= 30 {
        spec_to_host(w as int, neg_bit as nat)
    } else {
        w as int
    }
}

/// The frame of instruction `fun` for device `id` on `n_dat`.
pub fn frame_for(id: u8, mem_addr: u8, n_dat: &[u8], n_len: u8, fun: u8) -> (frame: Vec<u8>)
    requires
        buf_ok(n_dat@, n_len),
    ensures
        frame@ == frame_of(id, fun, buf_params(mem_addr, n_dat@, n_len)),
{
    let mut params: Vec<u8> = Vec::new();
    if n_dat.len() > 0 {
        params.push(mem_addr);
        let data = copy_range(n_dat, 0, n_len as usize);
        let joined = join_bytes(params.as_slice(), data.as_slice());
        params = joined;
        assert(params@ =~= buf_params(mem_addr, n_dat@, n_len));
    }
    match encode_raw(id, fun, params.as_slice()) {
        Ok(frame) => frame,
        Err(_) => Vec::new(),
    }
}

/// The parameters of a synchronous write: the window, then the records.
fn sync_write_params(id: &[u8], idn: u8, mem_addr: u8, n_dat: &[u8], n_len: u8) -> (params: Vec<
    u8,
>)
    requires
        sync_write_ok(id@, idn, n_dat@, n_len),
    ensures
        params@ == seq![mem_addr, n_len] + records(id@, n_dat@, n_len as nat, idn as nat),
        params@.len() == (n_len + 1) * idn + 2,
{
    let mut params: Vec<u8> = Vec::new();
    params.push(mem_addr);
    params.push(n_len);
    let each = n_len as usize;
    let count = idn as usize;
    let total = n_dat.len();
    let mut i: usize = 0;
    while i < count
        invariant
            i <= count == idn,
            each == n_len,
            total == n_dat@.len(),
            sync_write_ok(id@, idn, n_dat@, n_len),
            params@ == seq![mem_addr, n_len] + records(id@, n_dat@, n_len as nat, i as nat),
            params@.len() == (n_len + 1) * i + 2,
        decreases count - i,
    {
        assert(i * each + each <= count * each && (i + 1) * each == i * each + each && (each + 1)
            * (i + 1) == (each + 1) * i + each + 1) by (nonlinear_arith)
            requires
                i < count,
        ;
        assert(0 <= i * each && i * each + each <= total) by (nonlinear_arith)
            requires
                i < count,
                count * each <= total,
        ;
        params.push(id[i]);
        let piece = copy_range(n_dat, i * each, i * each + each);
        let joined = join_bytes(params.as_slice(), piece.as_slice());
        params = joined;
        assert(params@ =~= seq![mem_addr, n_len] + records(
            id@,
            n_dat@,
            n_len as nat,
            (i + 1) as nat,
        ));
        i = i + 1;
    }
    params
}

impl SCS {
    /// A bus end with byte order `end` and answer level `level`, and
    /// nothing in its buffers.
    pub fn new(end: u8, level: u8) -> (s: Self)
        ensures
            s@ == fresh_scs(end, level),
    {
        SCS {
            level,
            end,
            error: 0,
            sync_read_rx_packet_index: 0,
            sync_read_rx_packet_len: 0,
            sync_read_rx_packet_packet: Vec::new(),
            sync_read_rx_buffer: Vec::new(),
            sync_read_rx_packet_buff_len: 0,
            sync_read_rx_packet_buff_max: 0,
            tx_buf: Vec::new(),
            wire_out: Vec::new(),
            rx_buf: Vec::new(),
            pending: Vec::new(),
        }
    }

    /// Stages the first `n_len` bytes of `n_dat`, or all of them if there
    /// are fewer, and returns how many were staged.
    pub fn write_scs(&mut self, n_dat: &[u8], n_len: u8) -> (r: i32)
        ensures
            r == taken(n_len as int, n_dat@.len() as int),
            final(self)@ == (ScsState {
                tx_buf: old(self)@.tx_buf + n_dat@.subrange(0, r as int),
                ..old(self)@
            }),
    {
        let k = if (n_len as usize) <= n_dat.len() {
            n_len as usize
        } else {
            n_dat.len()
        };
        let piece = copy_range(n_dat, 0, k);
        let joined = join_bytes(self.tx_buf.as_slice(), piece.as_slice());
        self.tx_buf = joined;
        k as i32
    }

    /// Stages the byte `b_dat` and returns 1.
    pub fn write_scs1(&mut self, b_dat: u8) -> (r: i32)
        ensures
            r == 1,
            final(self)@ == (ScsState { tx_buf: old(self)@.tx_buf.push(b_dat), ..old(self)@ }),
    {
        self.tx_buf.push(b_dat);
        1
    }

    /// Takes up to `n_len` of the bytes received, oldest first, into
    /// `n_dat`, and returns how many were taken.
    pub fn read_scs(&mut self, n_dat: &mut Vec<u8>, n_len: u8) -> (r: i32)
        ensures
            r == taken(n_len as int, old(self)@.rx_buf.len() as int),
            final(n_dat)@ == old(self)@.rx_buf.subrange(0, r as int),
            final(self)@ == (ScsState {
                rx_buf: old(self)@.rx_buf.subrange(r as int, old(self)@.rx_buf.len() as int),
                ..old(self)@
            }),
    {
        let have = self.rx_buf.len();
        let k = if (n_len as usize) <= have {
            n_len as usize
        } else {
            have
        };
        let head = copy_range(self.rx_buf.as_slice(), 0, k);
        let tail = copy_range(self.rx_buf.as_slice(), k, have);
        self.rx_buf = tail;
        *n_dat = head;
        k as i32
    }

    /// Drops what was received and not read, and with it the request whose
    /// answer was outstanding.
    pub fn r_flush_scs(&mut self)
        ensures
            final(self)@ == (ScsState {
                rx_buf: Seq::empty(),
                pending: Seq::empty(),
                ..old(self)@
            }),
    {
        self.rx_buf = Vec::new();
        self.pending = Vec::new();
    }

    /// Puts what was staged on the wire queue, behind what waits there.
    pub fn w_flush_scs(&mut self)
        ensures
            final(self)@ == (ScsState {
                wire_out: old(self)@.wire_out + old(self)@.tx_buf,
                tx_buf: Seq::empty(),
                ..old(self)@
            }),
    {
        let joined = join_bytes(self.wire_out.as_slice(), self.tx_buf.as_slice());
        self.wire_out = joined;
        self.tx_buf = Vec::new();
    }

    /// Hands in bytes that arrived on the wire.
    pub fn push_received(&mut self, bytes: &[u8])
        ensures
            final(self)@ == (ScsState { rx_buf: old(self)@.rx_buf + bytes@, ..old(self)@ }),
    {
        let joined = join_bytes(self.rx_buf.as_slice(), bytes);
        self.rx_buf = joined;
    }

    /// Takes what waits for the wire, oldest first.
    pub fn take_wire_out(&mut self) -> (bytes: Vec<u8>)
        ensures
            bytes@ == old(self)@.wire_out,
            final(self)@ == (ScsState { wire_out: Seq::empty(), ..old(self)@ }),
    {
        let n = self.wire_out.len();
        let bytes = copy_range(self.wire_out.as_slice(), 0, n);
        assert(self.wire_out@.subrange(0, n as int) =~= self.wire_out@);
        self.wire_out = Vec::new();
        bytes
    }

    /// Splits `data` into its two bytes in the order of `end`.
    pub fn host_2_scs(&self, data_l: &mut u8, data_h: &mut u8, data: u16)
        ensures
            *final(data_l) == first_byte(self.end, data),
            *final(data_h) == second_byte(self.end, data),
    {
        if self.end != 0 {
            *data_l = (data >> 8) as u8;
            *data_h = (data & 0xff) as u8;
        } else {
            *data_h = (data >> 8) as u8;
            *data_l = (data & 0xff) as u8;
        }
        assert(data >> 8 == data / 256) by (bit_vector);
        assert(data & 0xff == data % 256) by (bit_vector);
    }

    /// Joins two bytes in the order of `end` into a word.
    pub fn scs_2_host(&self, data_l: u8, data_h: u8) -> (w: u16)
        ensures
            w == word_from(self.end, data_l, data_h),
    {
        if self.end != 0 {
            data_l as u16 * 256 + data_h as u16
        } else {
            data_h as u16 * 256 + data_l as u16
        }
    }

    /// Stages the frame of instruction `fun` for device `id`: without data
    /// no parameters, else the address and the first `n_len` bytes of
    /// `n_dat`.
    pub fn write_buf(&mut self, id: u8, mem_addr: u8, n_dat: &[u8], n_len: u8, fun: u8)
        requires
            buf_ok(n_dat@, n_len),
        ensures
            final(self)@ == (ScsState {
                tx_buf: old(self)@.tx_buf + frame_of(
                    id,
                    fun,
                    buf_params(mem_addr, n_dat@, n_len),
                ),
                ..old(self)@
            }),
    {
        let frame = frame_for(id, mem_addr, n_dat, n_len, fun);
        let joined = join_bytes(self.tx_buf.as_slice(), frame.as_slice());
        self.tx_buf = joined;
    }

    /// Begins the request `frame`, unless it is the one outstanding; says
    /// whether it was.
    fn request(&mut self, frame: Vec<u8>) -> (continuing: bool)
        ensures
            continuing == (old(self)@.pending == frame@),
            final(self)@ == after_request(old(self)@, frame@),
    {
        if same_bytes(self.pending.as_slice(), frame.as_slice()) {
            return true;
        }
        self.rx_buf = Vec::new();
        let staged = join_bytes(self.tx_buf.as_slice(), frame.as_slice());
        let joined = join_bytes(self.wire_out.as_slice(), staged.as_slice());
        self.wire_out = joined;
        self.tx_buf = Vec::new();
        self.pending = frame;
        assert(self.wire_out@ =~= old(self)@.wire_out + old(self)@.tx_buf + frame@);
        false
    }

    /// Looks for the acknowledgement of device `id`.
    ///
    /// None is expected from a broadcast or at answer level zero: the result
    /// is 1. Otherwise, until six bytes have arrived the result is 0 and
    /// nothing is taken; then six bytes are taken, and the result is 1 and
    /// `error` the device's status if they are an intact acknowledgement of
    /// `id`, else 0.
    pub fn ack(&mut self, id: u8) -> (r: i32)
        ensures
            r == ack_result(old(self)@, id),
            final(self)@ == after_ack(old(self)@, id),
    {
        self.error = 0;
        if id == 0xfe || self.level == 0 {
            self.pending = Vec::new();
            return 1;
        }
        if self.rx_buf.len() < 6 {
            return 0;
        }
        let mut b_buf: Vec<u8> = Vec::new();
        let _ = self.read_scs(&mut b_buf, 6);
        self.pending = Vec::new();
        if b_buf[0] != 0xff || b_buf[1] != 0xff || b_buf[2] != id {
            return 0;
        }
        if b_buf[3] != 2 {
            return 0;
        }
        let cal_sum = checksum_range(b_buf.as_slice(), 2, 5);
        if cal_sum != b_buf[5] {
            return 0;
        }
        self.error = b_buf[4];
        1
    }

    /// Writes the first `n_len` bytes of `n_dat` at `mem_addr` of device
    /// `id`, or continues to wait for the acknowledgement of that write; the
    /// result is that of [`Self::ack`].
    pub fn gen_write(&mut self, id: u8, mem_addr: u8, n_dat: &[u8], n_len: u8) -> (r: i32)
        requires
            buf_ok(n_dat@, n_len),
        ensures
            r == ack_result(
                after_request(
                    old(self)@,
                    frame_of(id, 0x03, buf_params(mem_addr, n_dat@, n_len)),
                ),
                id,
            ),
            final(self)@ == after_ack(
                after_request(
                    old(self)@,
                    frame_of(id, 0x03, buf_params(mem_addr, n_dat@, n_len)),
                ),
                id,
            ),
    {
        let frame = frame_for(id, mem_addr, n_dat, n_len, INST_WRITE);
        self.request(frame);
        self.ack(id)
    }

    /// Registers a write of the first `n_len` bytes of `n_dat` at `mem_addr`
    /// of device `id`, to be carried out on [`Self::reg_write_action`], or
    /// continues to wait for its acknowledgement; the result is that of
    /// [`Self::ack`].
    pub fn reg_write(&mut self, id: u8, mem_addr: u8, n_dat: &[u8], n_len: u8) -> (r: i32)
        requires
            buf_ok(n_dat@, n_len),
        ensures
            r == ack_result(
                after_request(
                    old(self)@,
                    frame_of(id, 0x04, buf_params(mem_addr, n_dat@, n_len)),
                ),
                id,
            ),
            final(self)@ == after_ack(
                after_request(
                    old(self)@,
                    frame_of(id, 0x04, buf_params(mem_addr, n_dat@, n_len)),
                ),
                id,
            ),
    {
        let frame = frame_for(id, mem_addr, n_dat, n_len, INST_REG_WRITE);
        self.request(frame);
        self.ack(id)
    }

    /// Tells device `id` to carry out what was registered; zero stands for
    /// all devices. The result is that of [`Self::ack`].
    pub fn reg_write_action(&mut self, id: u8) -> (r: i32)
        ensures
            ({
                let to = if id == 0 {
                    0xFEu8
                } else {
                    id
                };
                let requested = after_request(old(self)@, frame_of(to, 0x05, Seq::empty()));
                &&& r == ack_result(requested, to)
                &&& final(self)@ == after_ack(requested, to)
            }),
    {
        let to: u8 = if id == 0 {
            0xfe
        } else {
            id
        };
        let none: Vec<u8> = Vec::new();
        let frame = frame_for(to, 0, none.as_slice(), 0, INST_REG_ACTION);
        self.request(frame);
        self.ack(to)
    }

    /// Writes the byte `b_dat` at `mem_addr` of device `id`, or continues
    /// to wait for the acknowledgement of that write; the result is that of
    /// [`Self::ack`].
    pub fn write_byte(&mut self, id: u8, mem_addr: u8, b_dat: u8) -> (r: i32)
        ensures
            r == ack_result(
                after_request(old(self)@, frame_of(id, 0x03, seq![mem_addr, b_dat])),
                id,
            ),
            final(self)@ == after_ack(
                after_request(old(self)@, frame_of(id, 0x03, seq![mem_addr, b_dat])),
                id,
            ),
    {
        let mut data: Vec<u8> = Vec::new();
        data.push(b_dat);
        assert(buf_params(mem_addr, data@, 1) =~= seq![mem_addr, b_dat]);
        self.gen_write(id, mem_addr, data.as_slice(), 1)
    }

    /// Writes the word `w_dat` at `mem_addr` of device `id` in the byte
    /// order of `end`, or continues to wait for the acknowledgement of that
    /// write; the result is that of [`Self::ack`].
    pub fn write_word(&mut self, id: u8, mem_addr: u8, w_dat: u16) -> (r: i32)
        ensures
            ({
                let params = seq![
                    mem_addr,
                    first_byte(old(self).end, w_dat),
                    second_byte(old(self).end, w_dat),
                ];
                let requested = after_request(old(self)@, frame_of(id, 0x03, params));
                &&& r == ack_result(requested, id)
                &&& final(self)@ == after_ack(requested, id)
            }),
    {
        let mut lo: u8 = 0;
        let mut hi: u8 = 0;
        self.host_2_scs(&mut lo, &mut hi, w_dat);
        let mut data: Vec<u8> = Vec::new();
        data.push(lo);
        data.push(hi);
        assert(buf_params(mem_addr, data@, 2) =~= seq![mem_addr, lo, hi]);
        self.gen_write(id, mem_addr, data.as_slice(), 2)
    }

    /// Looks for the answer to a read of `n_len` bytes.
    ///
    /// Until `n_len + 6` bytes have arrived the result is 0 and nothing is
    /// taken. Then that many bytes are taken; if they are an intact answer,
    /// its data go to `n_data`, its status to `error`, and the result is
    /// `n_len`; else the result is 0.
    pub fn read_reply(&mut self, n_data: &mut Vec<u8>, n_len: u8) -> (r: i32)
        ensures
            r == if read_done(old(self)@, n_len) {
                n_len as int
            } else {
                0
            },
            final(n_data)@ == if read_done(old(self)@, n_len) {
                read_data(old(self)@, n_len)
            } else {
                old(n_data)@
            },
            final(self)@ == after_read(old(self)@, n_len),
    {
        let need = n_len as usize + 6;
        let have = self.rx_buf.len();
        if have < need {
            return 0;
        }
        let b_buf = copy_range(self.rx_buf.as_slice(), 0, need);
        let rest = copy_range(self.rx_buf.as_slice(), need, have);
        self.rx_buf = rest;
        self.pending = Vec::new();
        if b_buf[0] != 0xff || b_buf[1] != 0xff {
            return 0;
        }
        let cal_sum = checksum_range(b_buf.as_slice(), 2, need - 1);
        if cal_sum != b_buf[need - 1] {
            return 0;
        }
        *n_data = copy_range(b_buf.as_slice(), 5, 5 + n_len as usize);
        self.error = b_buf[4];
        proof {
            assert(b_buf@.subrange(5, 5 + n_len) =~= read_data(old(self)@, n_len));
        }
        n_len as i32
    }

    /// Reads `n_len` bytes at `mem_addr` of device `id` into `n_data`, or
    /// continues to wait for the answer to that read; the result is that of
    /// [`Self::read_reply`].
    pub fn read(&mut self, id: u8, mem_addr: u8, n_data: &mut Vec<u8>, n_len: u8) -> (r: i32)
        ensures
            ({
                let requested = after_request(
                    old(self)@,
                    frame_of(id, 0x02, seq![mem_addr, n_len]),
                );
                &&& r == if read_done(requested, n_len) {
                    n_len as int
                } else {
                    0
                }
                &&& final(n_data)@ == if read_done(requested, n_len) {
                    read_data(requested, n_len)
                } else {
                    old(n_data)@
                }
                &&& final(self)@ == after_read(requested, n_len)
            }),
    {
        let mut length: Vec<u8> = Vec::new();
        length.push(n_len);
        assert(buf_params(mem_addr, length@, 1) =~= seq![mem_addr, n_len]);
        let frame = frame_for(id, mem_addr, length.as_slice(), 1, INST_READ);
        self.request(frame);
        self.read_reply(n_data, n_len)
    }

    /// Reads the byte at `mem_addr` of device `id`, or continues to wait
    /// for it: the byte, or -1 while there is no intact answer.
    pub fn read_byte(&mut self, id: u8, mem_addr: u8) -> (r: i32)
        ensures
            ({
                let requested = after_request(old(self)@, frame_of(id, 0x02, seq![mem_addr, 1u8]));
                &&& r == if read_done(requested, 1) {
                    requested.rx_buf[5] as int
                } else {
                    -1
                }
                &&& final(self)@ == after_read(requested, 1)
            }),
    {
        let mut buf: Vec<u8> = Vec::new();
        let size = self.read(id, mem_addr, &mut buf, 1);
        if size != 1 {
            -1
        } else {
            buf[0] as i32
        }
    }

    /// Reads the word at `mem_addr` of device `id` in the byte order of
    /// `end`, or continues to wait for it: the word, or -1 while there is no
    /// intact answer.
    pub fn read_word(&mut self, id: u8, mem_addr: u8) -> (r: i32)
        ensures
            ({
                let requested = after_request(old(self)@, frame_of(id, 0x02, seq![mem_addr, 2u8]));
                &&& r == if read_done(requested, 2) {
                    word_from(old(self).end, requested.rx_buf[5], requested.rx_buf[6]) as int
                } else {
                    -1
                }
                &&& final(self)@ == after_read(requested, 2)
            }),
    {
        let mut n_dat: Vec<u8> = Vec::new();
        let size = self.read(id, mem_addr, &mut n_dat, 2);
        if size != 2 {
            return -1;
        }
        let w_dat = self.scs_2_host(n_dat[0], n_dat[1]);
        w_dat as i32
    }

    /// Pings device `id`, or continues to wait for its answer.
    ///
    /// Until six bytes have arrived the result is -1 and nothing is taken.
    /// Then six bytes are taken; if they are an intact answer from `id`, or
    /// from any device if `id` is the broadcast id, `error` is the device's
    /// status and the result its id; else the result is -1.
    pub fn ping(&mut self, id: u8) -> (r: i32)
        ensures
            ({
                let requested = after_request(old(self)@, frame_of(id, 0x01, Seq::empty()));
                &&& r == ping_result(requested, id)
                &&& final(self)@ == after_ping(requested, id)
            }),
    {
        let none: Vec<u8> = Vec::new();
        let frame = frame_for(id, 0, none.as_slice(), 0, INST_PING);
        self.request(frame);
        if self.rx_buf.len() < 6 {
            return -1;
        }
        let mut b_buf: Vec<u8> = Vec::new();
        let _ = self.read_scs(&mut b_buf, 6);
        self.pending = Vec::new();
        if b_buf[0] != 0xff || b_buf[1] != 0xff {
            return -1;
        }
        if b_buf[2] != id && id != 0xfe {
            return -1;
        }
        if b_buf[3] != 2 {
            return -1;
        }
        let cal_sum = checksum_range(b_buf.as_slice(), 2, 5);
        if cal_sum != b_buf[5] {
            return -1;
        }
        self.error = b_buf[4];
        b_buf[2] as i32
    }

    /// Writes `n_len` bytes each at `mem_addr` of the first `idn` devices of
    /// `id` in one broadcast: device `i` gets the bytes of `n_dat` from
    /// `i * n_len` on. What was received is dropped, and no answer is
    /// awaited.
    pub fn sync_write(&mut self, id: &[u8], idn: u8, mem_addr: u8, n_dat: &[u8], n_len: u8)
        requires
            sync_write_ok(id@, idn, n_dat@, n_len),
        ensures
            final(self)@ == (ScsState {
                rx_buf: Seq::empty(),
                pending: Seq::empty(),
                tx_buf: Seq::empty(),
                wire_out: old(self)@.wire_out + old(self)@.tx_buf + frame_of(
                    0xFE,
                    0x83,
                    seq![mem_addr, n_len] + records(id@, n_dat@, n_len as nat, idn as nat),
                ),
                ..old(self)@
            }),
    {
        self.r_flush_scs();
        let params = sync_write_params(id, idn, mem_addr, n_dat, n_len);
        match encode_raw(0xfe, INST_SYNC_WRITE, params.as_slice()) {
            Ok(frame) => {
                let staged = join_bytes(self.tx_buf.as_slice(), frame.as_slice());
                self.tx_buf = staged;
            },
            Err(_) => {},
        }
        self.w_flush_scs();
    }

    /// Makes room for the answers of `idn` devices to a synchronous read of
    /// `rx_len` bytes: the buffer becomes `idn * (rx_len + 6)` zero bytes,
    /// and that number is the most it takes. Nothing else changes.
    pub fn sync_read_begin(&mut self, idn: u8, rx_len: u8)
        requires
            idn * (rx_len + 6) <= u16::MAX,
        ensures
            final(self)@ == after_begin(old(self)@, idn, rx_len),
    {
        assert(idn * (rx_len + 6) >= 0) by (nonlinear_arith);
        self.sync_read_rx_packet_buff_max = idn as u16 * (rx_len as u16 + 6);
        self.sync_read_rx_buffer = zeros(self.sync_read_rx_packet_buff_max as usize);
    }

    /// Ends a synchronous read. Nothing changes: the room for the answers
    /// stays as it is until [`Self::sync_read_begin`] makes it anew.
    pub fn sync_read_end(&self) {
    }

    /// Number of answer bytes that the synchronous-read buffer holds.
    fn held(&self) -> (n: usize)
        ensures
            n == answers_held(self@),
            n <= self.sync_read_rx_buffer@.len(),
            n <= self.sync_read_rx_packet_buff_max,
    {
        let size = self.sync_read_rx_buffer.len();
        let max = self.sync_read_rx_packet_buff_max as usize;
        let room = if max <= size {
            max
        } else {
            size
        };
        let count = self.sync_read_rx_packet_buff_len as usize;
        if count <= room {
            count
        } else {
            room
        }
    }

    /// Moves what has arrived into the synchronous-read buffer behind the
    /// answers held, as far as there is room.
    fn collect(&mut self)
        ensures
            final(self)@ == after_collect(old(self)@),
    {
        let held = self.held();
        let size = self.sync_read_rx_buffer.len();
        let max = self.sync_read_rx_packet_buff_max as usize;
        let room = if max <= size {
            max
        } else {
            size
        };
        let have = self.rx_buf.len();
        let k = if room - held <= have {
            room - held
        } else {
            have
        };
        let head = copy_range(self.sync_read_rx_buffer.as_slice(), 0, held);
        let piece = copy_range(self.rx_buf.as_slice(), 0, k);
        let tail = copy_range(self.sync_read_rx_buffer.as_slice(), held + k, size);
        let rest = copy_range(self.rx_buf.as_slice(), k, have);
        let front = join_bytes(head.as_slice(), piece.as_slice());
        let whole = join_bytes(front.as_slice(), tail.as_slice());
        self.rx_buf = rest;
        self.sync_read_rx_buffer = whole;
        self.sync_read_rx_packet_buff_len = (held + k) as u16;
    }

    /// Requests `n_len` bytes at `mem_addr` from the first `idn` devices of
    /// `id` in one broadcast, or continues to collect the answers to that
    /// request. With a new request no answer is held any more. What has
    /// arrived moves into the buffer behind the answers held, as far as
    /// there is room, and the result is the number of answer bytes that the
    /// buffer then holds.
    pub fn sync_read_packet_tx(&mut self, id: &[u8], idn: u8, mem_addr: u8, n_len: u8) -> (r: i32)
        requires
            idn <= id@.len(),
            idn + 2 <= 244,
        ensures
            ({
                let frame = frame_of(
                    0xFE,
                    0x82,
                    seq![mem_addr, n_len] + id@.subrange(0, idn as int),
                );
                &&& final(self)@ == after_collect(after_sync_request(old(self)@, frame, n_len))
                &&& r == final(self)@.buff_len
            }),
    {
        let mut params: Vec<u8> = Vec::new();
        params.push(mem_addr);
        params.push(n_len);
        let ids = copy_range(id, 0, idn as usize);
        let joined = join_bytes(params.as_slice(), ids.as_slice());
        assert(joined@ =~= seq![mem_addr, n_len] + id@.subrange(0, idn as int));
        match encode_raw(0xfe, INST_SYNC_READ, joined.as_slice()) {
            Ok(frame) => {
                let continuing = self.request(frame);
                if !continuing {
                    self.sync_read_rx_packet_len = n_len;
                    self.sync_read_rx_packet_buff_len = 0;
                }
            },
            Err(_) => {},
        }
        self.collect();
        self.sync_read_rx_packet_buff_len as i32
    }

    /// Looks among the answers collected for that of device `id`.
    ///
    /// They are scanned for the first intact status packet with that id
    /// and as many parameter bytes as were requested; frames that fail their
    /// checksum are passed over. With one found, its bytes become the current
    /// packet and go to `n_dat`, `error` is its status, and the result is
    /// their number. Otherwise the result is 0 and nothing changes.
    pub fn sync_read_packet_rx(&mut self, id: u8, n_dat: &mut Vec<u8>) -> (r: i32)
        ensures
            ({
                let s = old(self)@;
                let found = reply_found(answers(s), id, s.packet_len);
                let slot = demuxed(answers(s), id, s.packet_len);
                &&& r == if found {
                    s.packet_len as int
                } else {
                    0
                }
                &&& final(n_dat)@ == if found {
                    slot.data
                } else {
                    old(n_dat)@
                }
                &&& final(self)@ == if found {
                    ScsState { packet: slot.data, packet_index: 0, error: slot.error, ..s }
                } else {
                    s
                }
            }),
    {
        let want = self.sync_read_rx_packet_len;
        if want > 244 {
            return 0;
        }
        let held = self.held();
        let answers = copy_range(self.sync_read_rx_buffer.as_slice(), 0, held);
        let found = scan(answers.as_slice(), Some(id), Some(want + 2));
        if !found.found {
            return 0;
        }
        let at = found.start;
        assert(at + 3 < held);
        let status = answers[at + 4];
        let bytes = copy_range(answers.as_slice(), at + 5, at + 5 + want as usize);
        let copy = copy_range(bytes.as_slice(), 0, bytes.len());
        assert(copy@ =~= bytes@);
        self.sync_read_rx_packet_packet = copy;
        self.sync_read_rx_packet_index = 0;
        self.error = status;
        *n_dat = bytes;
        want as i32
    }

    /// Hands out the next byte of the current packet, or -1 if there is
    /// none left.
    pub fn sync_read_packet_to_byte(&mut self) -> (r: i32)
        ensures
            ({
                let s = old(self)@;
                let more = s.packet_index < s.packet.len() && s.packet_index < 255;
                &&& r == if more {
                    s.packet[s.packet_index as int] as int
                } else {
                    -1
                }
                &&& final(self)@ == if more {
                    ScsState { packet_index: (s.packet_index + 1) as u8, ..s }
                } else {
                    s
                }
            }),
    {
        let at = self.sync_read_rx_packet_index as usize;
        if at >= self.sync_read_rx_packet_packet.len() || at >= 255 {
            return -1;
        }
        let byte = self.sync_read_rx_packet_packet[at];
        self.sync_read_rx_packet_index = self.sync_read_rx_packet_index + 1;
        byte as i32
    }

    /// Hands out the next two bytes of the current packet as a word in the
    /// byte order of `end`, or -1 if fewer are left. With a direction bit
    /// `neg_bit`, the word is read as a magnitude with that bit for its
    /// direction; zero stands for none.
    pub fn sync_read_packet_to_word(&mut self, neg_bit: u8) -> (r: i32)
        ensures
            ({
                let s = old(self)@;
                let more = s.packet_index + 1 < s.packet.len() && s.packet_index < 254;
                &&& r == if more {
                    signed_word(
                        word_from(
                            s.end,
                            s.packet[s.packet_index as int],
                            s.packet[s.packet_index + 1],
                        ),
                        neg_bit,
                    )
                } else {
                    -1
                }
                &&& final(self)@ == if more {
                    ScsState { packet_index: (s.packet_index + 2) as u8, ..s }
                } else {
                    s
                }
            }),
    {
        let at = self.sync_read_rx_packet_index as usize;
        if at >= 254 || at + 1 >= self.sync_read_rx_packet_packet.len() {
            return -1;
        }
        let word = self.scs_2_host(
            self.sync_read_rx_packet_packet[at],
            self.sync_read_rx_packet_packet[at + 1],
        );
        self.sync_read_rx_packet_index = self.sync_read_rx_packet_index + 2;
        if neg_bit >= 1 && neg_bit <= 30 {
            proof {
                lemma_mask_is_pow2(neg_bit as u32);
            }
            to_host(word as i32, neg_bit as u32)
        } else {
            word as i32
        }
    }
}

/// The two bytes of a word come back as the word: joining what
/// [`SCS::host_2_scs`] splits gives the word split.
pub proof fn lemma_scs_word_round_trip(end: u8, data: u16)
    ensures
        word_from(end, first_byte(end, data), second_byte(end, data)) == data,
{
}

} // verus!
