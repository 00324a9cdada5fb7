//! Register transfers: the bytes of a word on its way to a device, and the
//! values that the reply to a read carries.

use vstd::prelude::*;
use crate::protocol_packet_handler::{reads, reply_of, result_of, ProtocolPacketHandler};
use crate::scservo_def::COMM;
use crate::stream::copy_range;
use crate::word::{
    lemma_mask_is_pow2, make_word, spec_hibyte, spec_lobyte, spec_make_word, spec_to_host,
    to_host, Endian,
};

verus! {

/// Place of the first parameter byte in a reply frame.
pub const REPLY_DATA: usize = 5;

/// The two bytes of `value` in the order in which they are written under
/// `end`.
pub open spec fn word_bytes(value: int, end: Endian) -> Seq<u8> {
    seq![spec_lobyte(value, end) as u8, spec_hibyte(value, end) as u8]
}

/// The byte that the reply `data` with result `result` carries: the first
/// parameter byte of a successful reply that has one; `RxCorrupt` for a
/// successful reply without parameters; else the result itself.
pub open spec fn reply_byte(data: Seq<u8>, result: COMM) -> Result<u8, COMM> {
    if !(result is Success) {
        Err(result)
    } else if data.len() < 7 {
        Err(COMM::RxCorrupt)
    } else {
        Ok(data[5])
    }
}

/// The word that the reply `data` with result `result` carries under byte
/// order `end`: that of its first two parameter bytes; `RxCorrupt` for a
/// successful reply with fewer.
pub open spec fn reply_word(data: Seq<u8>, result: COMM, end: Endian) -> Result<int, COMM> {
    if !(result is Success) {
        Err(result)
    } else if data.len() < 8 {
        Err(COMM::RxCorrupt)
    } else {
        Ok(spec_make_word(data[5] as int, data[6] as int, end))
    }
}

/// The signed value that the reply `data` with result `result` carries: its
/// word, read as a magnitude with the direction bit `sign_bit`.
pub open spec fn reply_signed(data: Seq<u8>, result: COMM, end: Endian, sign_bit: nat) -> Result<
    int,
    COMM,
> {
    match reply_word(data, result, end) {
        Ok(w) => Ok(spec_to_host(w, sign_bit)),
        Err(e) => Err(e),
    }
}

/// The parameter bytes that the reply `data` with result `result` carries:
/// those between the error byte and the checksum of a successful reply;
/// `RxCorrupt` for a successful reply that is no whole frame; else the
/// result itself.
pub open spec fn reply_params(data: Seq<u8>, result: COMM) -> Result<Seq<u8>, COMM> {
    if !(result is Success) {
        Err(result)
    } else if data.len() < 6 {
        Err(COMM::RxCorrupt)
    } else {
        Ok(data.subrange(5, data.len() - 1))
    }
}

/// See [`reply_params`].
pub fn params_of_reply(data: &Vec<u8>, result: COMM) -> (r: Result<Vec<u8>, COMM>)
    ensures
        match reply_params(data@, result) {
            Ok(p) => r matches Ok(v) && v@ == p,
            Err(e) => r == Err::<Vec<u8>, COMM>(e),
        },
{
    if result != COMM::Success {
        return Err(result);
    }
    let n = data.len();
    if n < 6 {
        return Err(COMM::RxCorrupt);
    }
    Ok(copy_range(data.as_slice(), REPLY_DATA, n - 1))
}

/// The two bytes of `value` in the order in which they are written under
/// `end`.
pub fn bytes_of_word(value: u32, end: Endian) -> (r: (u8, u8))
    ensures
        seq![r.0, r.1] == word_bytes(value as int, end),
{
    let lo = (value % 256) as u8;
    let hi = ((value / 256) % 256) as u8;
    let r = match end {
        Endian::SmallEndian => (lo, hi),
        Endian::BigEndian => (hi, lo),
    };
    assert(seq![r.0, r.1] =~= word_bytes(value as int, end));
    r
}

/// See [`reply_byte`].
pub fn byte_of_reply(data: &Vec<u8>, result: COMM) -> (r: Result<u8, COMM>)
    ensures
        r == reply_byte(data@, result),
{
    if result != COMM::Success {
        return Err(result);
    }
    if data.len() < 7 {
        return Err(COMM::RxCorrupt);
    }
    Ok(data[REPLY_DATA])
}

/// See [`reply_word`].
pub fn word_of_reply(data: &Vec<u8>, result: COMM, end: Endian) -> (r: Result<u16, COMM>)
    ensures
        match reply_word(data@, result, end) {
            Ok(w) => r == Ok::<u16, COMM>(w as u16) && 0 <= w <= 0xFFFF,
            Err(e) => r == Err::<u16, COMM>(e),
        },
{
    if result != COMM::Success {
        return Err(result);
    }
    if data.len() < 8 {
        return Err(COMM::RxCorrupt);
    }
    let w = make_word(data[REPLY_DATA] as i32, data[REPLY_DATA + 1] as i32, end);
    Ok(w as u16)
}

/// See [`reply_signed`].
pub fn signed_of_reply(data: &Vec<u8>, result: COMM, end: Endian, sign_bit: u32) -> (r: Result<
    i32,
    COMM,
>)
    requires
        sign_bit <= 30,
    ensures
        match reply_signed(data@, result, end, sign_bit as nat) {
            Ok(v) => r == Ok::<i32, COMM>(v as i32) && -0xFFFF <= v <= 0xFFFF,
            Err(e) => r == Err::<i32, COMM>(e),
        },
{
    match word_of_reply(data, result, end) {
        Err(e) => Err(e),
        Ok(w) => {
            proof {
                lemma_mask_is_pow2(sign_bit);
                lemma_signed_bounds(w as int, sign_bit as nat);
            }
            Ok(to_host(w as i32, sign_bit))
        },
    }
}

/// The host value of a 16-bit word lies within the word's range on either
/// side of zero.
pub proof fn lemma_signed_bounds(w: int, sign_bit: nat)
    requires
        0 <= w <= 0xFFFF,
        0 < vstd::arithmetic::power2::pow2(sign_bit),
    ensures
        -0xFFFF <= spec_to_host(w, sign_bit) <= 0xFFFF,
{
    let p = vstd::arithmetic::power2::pow2(sign_bit) as int;
    if (w / p) % 2 == 1 {
        assert(w >= p) by (nonlinear_arith)
            requires
                (w / p) % 2 == 1,
                p > 0,
                w >= 0,
        ;
    }
}

/// The byte that one step of reading the byte at `address` of device `id`
/// gives.
pub open spec fn byte_read(pre: ProtocolPacketHandler, id: u8, address: u8) -> Result<u8, COMM> {
    reply_byte(
        reply_of(pre, id, 0x02, seq![address, 1u8]),
        result_of(pre, id, 0x02, seq![address, 1u8]),
    )
}

/// The word that one step of reading the word at `address` of device `id`
/// gives.
pub open spec fn word_read(pre: ProtocolPacketHandler, id: u8, address: u8) -> Result<int, COMM> {
    reply_word(
        reply_of(pre, id, 0x02, seq![address, 2u8]),
        result_of(pre, id, 0x02, seq![address, 2u8]),
        pre.scs_end,
    )
}

/// The signed value that one step of reading the word at `address` of
/// device `id` gives, with the direction bit at `sign_bit`.
pub open spec fn signed_read(
    pre: ProtocolPacketHandler,
    id: u8,
    address: u8,
    sign_bit: nat,
) -> Result<int, COMM> {
    reply_signed(
        reply_of(pre, id, 0x02, seq![address, 2u8]),
        result_of(pre, id, 0x02, seq![address, 2u8]),
        pre.scs_end,
        sign_bit,
    )
}

/// One step of reading the byte at `address` of device `scs_id`.
pub fn read_byte(ph: &mut ProtocolPacketHandler, scs_id: u8, address: u8) -> (r: Result<u8, COMM>)
    ensures
        reads(*old(ph), *final(ph), scs_id, address, 1),
        r == byte_read(*old(ph), scs_id, address),
{
    let (data, result) = ph.read_1byte_tx_rx(scs_id, address);
    byte_of_reply(&data, result)
}

/// One step of reading the word at `address` of device `scs_id`.
pub fn read_word(ph: &mut ProtocolPacketHandler, scs_id: u8, address: u8) -> (r: Result<u16, COMM>)
    ensures
        reads(*old(ph), *final(ph), scs_id, address, 2),
        match word_read(*old(ph), scs_id, address) {
            Ok(w) => r == Ok::<u16, COMM>(w as u16) && 0 <= w <= 0xFFFF,
            Err(e) => r == Err::<u16, COMM>(e),
        },
{
    let end = ph.scs_getend();
    let (data, result) = ph.read_2byte_tx_rx(scs_id, address);
    word_of_reply(&data, result, end)
}

/// One step of reading the signed word at `address` of device `scs_id`,
/// with the direction bit at `sign_bit`.
pub fn read_signed(ph: &mut ProtocolPacketHandler, scs_id: u8, address: u8, sign_bit: u32) -> (r:
    Result<i32, COMM>)
    requires
        sign_bit <= 30,
    ensures
        reads(*old(ph), *final(ph), scs_id, address, 2),
        match signed_read(*old(ph), scs_id, address, sign_bit as nat) {
            Ok(v) => r == Ok::<i32, COMM>(v as i32) && -0xFFFF <= v <= 0xFFFF,
            Err(e) => r == Err::<i32, COMM>(e),
        },
{
    let end = ph.scs_getend();
    let (data, result) = ph.read_2byte_tx_rx(scs_id, address);
    signed_of_reply(&data, result, end, sign_bit)
}

} // verus!
