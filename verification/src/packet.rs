//! The packet codec: frame layout, checksum, encoding of instruction
//! packets and validation of whole frames.
//!
//! A frame is `FF FF ID LEN BODY.. CHECKSUM`, where `BODY` starts with the
//! instruction (host to device) or the error byte (device to host), `LEN` is
//! the number of bytes after it and the checksum is the one's complement of
//! the byte sum from `ID` through the last byte before it.

use vstd::prelude::*;
use crate::scservo_def::{COMM, INST};

verus! {

/// Both header bytes.
pub const HEADER_BYTE: u8 = 0xFF;

/// Largest frame, header and checksum included.
pub const MAX_FRAME_LEN: usize = 250;

/// Smallest frame: header, id, length, one body byte, checksum.
pub const MIN_FRAME_LEN: usize = 6;

/// Largest parameter section that still fits a frame.
pub const MAX_PARAM_LEN: usize = 244;

pub const PKT_HEADER0: usize = 0;

pub const PKT_HEADER1: usize = 1;

pub const PKT_ID: usize = 2;

pub const PKT_LENGTH: usize = 3;

pub const PKT_INSTRUCTION: usize = 4;

pub const PKT_ERROR: usize = 4;

pub const PKT_PARAMETER0: usize = 5;

/// Sum of the bytes of `s`.
pub open spec fn sum_bytes(s: Seq<u8>) -> int
    decreases s.len(),
{
    if s.len() == 0 {
        0
    } else {
        sum_bytes(s.drop_last()) + s.last() as int
    }
}

/// One's complement of the low eight bits of the byte sum of `s`.
pub open spec fn checksum_of(s: Seq<u8>) -> u8 {
    (255 - sum_bytes(s) % 256) as u8
}

/// The instruction frame for `id`, opcode `op` and `params`.
pub open spec fn frame_of(id: u8, op: u8, params: Seq<u8>) -> Seq<u8> {
    let covered = seq![id, (params.len() + 2) as u8, op] + params;
    seq![0xFFu8, 0xFFu8] + covered + seq![checksum_of(covered)]
}

/// A whole frame: header, a length byte that agrees with the size, and a
/// checksum that agrees with the bytes it covers.
pub open spec fn well_formed(f: Seq<u8>) -> bool {
    &&& 6 <= f.len() <= 250
    &&& f[0] == 0xFF
    &&& f[1] == 0xFF
    &&& f[3] as int + 4 == f.len()
    &&& f[f.len() - 1] == checksum_of(f.subrange(2, f.len() - 1))
}

/// Appending a byte adds it to the sum.
pub proof fn lemma_sum_bytes_push(s: Seq<u8>, b: u8)
    ensures
        sum_bytes(s.push(b)) == sum_bytes(s) + b as int,
{
    assert(s.push(b).drop_last() =~= s);
}

/// The sum lies between zero and 255 times the number of bytes.
pub proof fn lemma_sum_bytes_bounds(s: Seq<u8>)
    ensures
        0 <= sum_bytes(s) <= 255 * s.len(),
    decreases s.len(),
{
    if s.len() > 0 {
        lemma_sum_bytes_bounds(s.drop_last());
    }
}

/// Replacing one byte changes the sum by the difference of the two bytes.
pub proof fn lemma_sum_bytes_update(s: Seq<u8>, k: int, b: u8)
    requires
        0 <= k < s.len(),
    ensures
        sum_bytes(s.update(k, b)) == sum_bytes(s) - s[k] as int + b as int,
    decreases s.len(),
{
    if k == s.len() - 1 {
        assert(s.update(k, b).drop_last() =~= s.drop_last());
    } else {
        assert(s.update(k, b).drop_last() =~= s.drop_last().update(k, b));
        lemma_sum_bytes_update(s.drop_last(), k, b);
    }
}

/// Two byte sequences whose sums differ by less than 256, but differ, have
/// different checksums.
pub proof fn lemma_checksum_differs(a: Seq<u8>, b: Seq<u8>)
    requires
        sum_bytes(a) != sum_bytes(b),
        -256 < sum_bytes(a) - sum_bytes(b) < 256,
    ensures
        checksum_of(a) != checksum_of(b),
{
    let x = sum_bytes(a);
    let y = sum_bytes(b);
    lemma_sum_bytes_bounds(a);
    lemma_sum_bytes_bounds(b);
    assert(x % 256 != y % 256) by (nonlinear_arith)
        requires
            x != y,
            -256 < x - y < 256,
            0 <= x,
            0 <= y,
    ;
}

/// Checksum of `bytes[from..to]`.
pub fn checksum_range(bytes: &[u8], from: usize, to: usize) -> (c: u8)
    requires
        from <= to <= bytes.len(),
    ensures
        c == checksum_of(bytes@.subrange(from as int, to as int)),
{
    let mut acc: u32 = 0;
    let mut i: usize = from;
    while i < to
        invariant
            from <= i <= to <= bytes.len(),
            acc < 256,
            acc as int == sum_bytes(bytes@.subrange(from as int, i as int)) % 256,
        decreases to - i,
    {
        proof {
            let before = bytes@.subrange(from as int, i as int);
            assert(bytes@.subrange(from as int, i + 1) =~= before.push(bytes@[i as int]));
            lemma_sum_bytes_push(before, bytes@[i as int]);
            let s = sum_bytes(before);
            let b = bytes@[i as int] as int;
            assert((s % 256 + b) % 256 == (s + b) % 256) by (nonlinear_arith);
        }
        acc = (acc + bytes[i] as u32) % 256;
        i = i + 1;
    }
    (255 - acc) as u8
}

/// Checksum of all of `bytes`.
pub fn checksum(bytes: &[u8]) -> (c: u8)
    ensures
        c == checksum_of(bytes@),
{
    assert(bytes@.subrange(0, bytes@.len() as int) =~= bytes@);
    checksum_range(bytes, 0, bytes.len())
}

/// Builds the instruction frame for `id`, `instruction` and `params`.
///
/// Fails with `TxError` exactly when the frame would exceed
/// [`MAX_FRAME_LEN`], that is when there are more than [`MAX_PARAM_LEN`]
/// parameter bytes.
pub fn encode(id: u8, instruction: INST, params: &[u8]) -> (r: Result<Vec<u8>, COMM>)
    ensures
        r is Ok <==> params@.len() <= MAX_PARAM_LEN,
        r matches Ok(v) ==> v@ == frame_of(id, instruction.spec_opcode(), params@),
        r matches Err(e) ==> e == COMM::TxError,
{
    encode_raw(id, instruction.opcode(), params)
}

/// As [`encode`], for an opcode given as a byte.
pub fn encode_raw(id: u8, op: u8, params: &[u8]) -> (r: Result<Vec<u8>, COMM>)
    ensures
        r is Ok <==> params@.len() <= MAX_PARAM_LEN,
        r matches Ok(v) ==> v@ == frame_of(id, op, params@),
        r matches Err(e) ==> e == COMM::TxError,
{
    let n = params.len();
    if n > MAX_PARAM_LEN {
        return Err(COMM::TxError);
    }
    let mut v: Vec<u8> = Vec::new();
    v.push(HEADER_BYTE);
    v.push(HEADER_BYTE);
    v.push(id);
    v.push((n + 2) as u8);
    v.push(op);
    let mut i: usize = 0;
    while i < n
        invariant
            i <= n == params@.len(),
            v@ == seq![0xFFu8, 0xFFu8, id, (n + 2) as u8, op] + params@.subrange(0, i as int),
        decreases n - i,
    {
        v.push(params[i]);
        assert(params@.subrange(0, i + 1) =~= params@.subrange(0, i as int).push(params@[i as int]));
        i = i + 1;
    }
    assert(params@.subrange(0, n as int) =~= params@);
    let ghost covered = seq![id, (n + 2) as u8, op] + params@;
    assert(v@.subrange(2, v@.len() as int) =~= covered);
    let c = checksum_range(v.as_slice(), 2, v.len());
    v.push(c);
    assert(v@ =~= frame_of(id, op, params@));
    Ok(v)
}

/// Whether `frame` is one whole, intact frame.
pub fn validate_checksum(frame: &[u8]) -> (ok: bool)
    ensures
        ok == well_formed(frame@),
{
    let n = frame.len();
    if n < MIN_FRAME_LEN || n > MAX_FRAME_LEN {
        return false;
    }
    if frame[PKT_HEADER0] != HEADER_BYTE || frame[PKT_HEADER1] != HEADER_BYTE {
        return false;
    }
    if frame[PKT_LENGTH] as usize + 4 != n {
        return false;
    }
    let c = checksum_range(frame, PKT_ID, n - 1);
    frame[n - 1] == c
}

/// Every encoded frame validates.
pub proof fn lemma_encoded_frame_is_well_formed(id: u8, op: u8, params: Seq<u8>)
    requires
        params.len() <= MAX_PARAM_LEN,
    ensures
        well_formed(frame_of(id, op, params)),
        frame_of(id, op, params).len() == params.len() + 6,
{
    let covered = seq![id, (params.len() + 2) as u8, op] + params;
    let f = frame_of(id, op, params);
    assert(f.subrange(2, f.len() - 1) =~= covered);
}

/// Replacing any one byte of an intact frame by a different byte leaves a
/// frame that does not validate.
pub proof fn lemma_single_byte_change_is_detected(f: Seq<u8>, k: int, b: u8)
    requires
        well_formed(f),
        0 <= k < f.len(),
        b != f[k],
    ensures
        !well_formed(f.update(k, b)),
{
    let g = f.update(k, b);
    let n = f.len() as int;
    if k == 0 || k == 1 || k == 3 {
    } else if k == n - 1 {
        assert(g.subrange(2, n - 1) =~= f.subrange(2, n - 1));
    } else {
        let cf = f.subrange(2, n - 1);
        let cg = g.subrange(2, n - 1);
        assert(cg =~= cf.update(k - 2, b));
        lemma_sum_bytes_update(cf, k - 2, b);
        lemma_checksum_differs(cf, cg);
    }
}

/// Checksum round trip: a frame built from at most [`MAX_PARAM_LEN`]
/// parameter bytes validates, and it no longer does once any single byte of
/// it is replaced by another.
pub proof fn lemma_checksum_round_trip(id: u8, instruction: INST, params: Seq<u8>)
    requires
        params.len() <= MAX_PARAM_LEN,
    ensures
        well_formed(frame_of(id, instruction.spec_opcode(), params)),
        forall|k: int, b: u8|
            0 <= k < frame_of(id, instruction.spec_opcode(), params).len()
                && b != frame_of(id, instruction.spec_opcode(), params)[k]
                ==> !well_formed(
                #[trigger] frame_of(id, instruction.spec_opcode(), params).update(k, b),
            ),
{
    let f = frame_of(id, instruction.spec_opcode(), params);
    lemma_encoded_frame_is_well_formed(id, instruction.spec_opcode(), params);
    assert forall|k: int, b: u8| 0 <= k < f.len() && b != f[k] implies !well_formed(
        #[trigger] f.update(k, b),
    ) by {
        lemma_single_byte_change_is_detected(f, k, b);
    }
}

/// Whether a transmission can send from buffer `tx`:
/// the length byte names a frame of legal size that the buffer holds.
pub open spec fn request_ok(tx: Seq<u8>) -> bool {
    &&& tx.len() >= 6
    &&& 2 <= tx[3] <= 246
    &&& tx[3] + 4 <= tx.len()
}

/// Size of the frame that the length byte of `tx` names.
pub open spec fn request_total(tx: Seq<u8>) -> int {
    tx[3] + 4
}

/// The frame that buffer `tx` stands for: its bytes from the id through the
/// last parameter, between the header and their checksum.
#[verifier::opaque]
pub open spec fn sealed(tx: Seq<u8>) -> Seq<u8> {
    let covered = tx.subrange(2, request_total(tx) - 1);
    seq![0xFFu8, 0xFFu8] + covered + seq![checksum_of(covered)]
}

/// Buffer `tx` after its frame is completed in place.
#[verifier::opaque]
pub open spec fn sealed_in_place(tx: Seq<u8>) -> Seq<u8> {
    sealed(tx) + tx.subrange(request_total(tx), tx.len() as int)
}

/// A frame from the encoder is a request buffer that stands for itself.
pub proof fn lemma_frame_is_sealed(id: u8, op: u8, params: Seq<u8>)
    requires
        params.len() <= 244,
    ensures
        request_ok(frame_of(id, op, params)),
        sealed(frame_of(id, op, params)) == frame_of(id, op, params),
        sealed_in_place(frame_of(id, op, params)) == frame_of(id, op, params),
        frame_of(id, op, params)[2] == id,
        frame_of(id, op, params).len() == params.len() + 6,
{
    reveal(sealed);
    reveal(sealed_in_place);
    let f = frame_of(id, op, params);
    let covered = seq![id, (params.len() + 2) as u8, op] + params;
    assert(f.subrange(2, request_total(f) - 1) =~= covered);
    assert(sealed(f) =~= f);
    assert(sealed_in_place(f) =~= f);
}

/// What completing a request buffer in place comes to: the two header bytes
/// and the checksum byte are set, nothing else changes, and the frame is the
/// front of the buffer.
pub proof fn lemma_sealed_by_updates(tx: Seq<u8>)
    requires
        request_ok(tx),
    ensures
        sealed_in_place(tx) == tx.update(0, 0xFFu8).update(1, 0xFFu8).update(
            request_total(tx) - 1,
            checksum_of(tx.subrange(2, request_total(tx) - 1)),
        ),
        sealed_in_place(tx).subrange(0, request_total(tx)) == sealed(tx),
        sealed_in_place(tx).len() == tx.len(),
        sealed(tx).len() == request_total(tx),
        request_ok(sealed_in_place(tx)),
        sealed_in_place(tx)[2] == tx[2],
        sealed_in_place(tx)[3] == tx[3],
        sealed(tx)[2] == tx[2],
        sealed(sealed_in_place(tx)) == sealed(tx),
        sealed_in_place(sealed_in_place(tx)) == sealed_in_place(tx),
{
    reveal(sealed);
    reveal(sealed_in_place);
    let c = checksum_of(tx.subrange(2, request_total(tx) - 1));
    let a = tx.update(0, 0xFFu8).update(1, 0xFFu8).update(request_total(tx) - 1, c);
    let b = sealed_in_place(tx);
    assert(a =~= b);
    assert(b.subrange(0, request_total(tx)) =~= sealed(tx));
    assert(b.subrange(2, request_total(b) - 1) =~= tx.subrange(2, request_total(tx) - 1));
    assert(sealed(b) =~= sealed(tx));
    assert(sealed_in_place(b) =~= b);
}

/// Completes the frame of `tx` in place: header in front, checksum behind.
pub fn seal(tx: &mut Vec<u8>)
    requires
        request_ok(old(tx)@),
    ensures
        final(tx)@ == sealed_in_place(old(tx)@),
{
    let total = tx[PKT_LENGTH] as usize + 4;
    let c = checksum_range(tx.as_slice(), PKT_ID, total - 1);
    tx.set(PKT_HEADER0, HEADER_BYTE);
    tx.set(PKT_HEADER1, HEADER_BYTE);
    tx.set(total - 1, c);
    proof {
        lemma_sealed_by_updates(old(tx)@);
    }
}

/// Whether `tx` holds a frame that can be sent.
pub fn buffer_ok(tx: &Vec<u8>) -> (ok: bool)
    ensures
        ok == request_ok(tx@),
{
    if tx.len() < 6 {
        return false;
    }
    let l = tx[PKT_LENGTH] as usize;
    2 <= l && l <= 246 && l + 4 <= tx.len()
}

} // verus!
