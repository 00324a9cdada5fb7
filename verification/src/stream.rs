//! The resynchronizing scanner: finding a status packet in a byte stream
//! that may start in the middle of a frame, hold noise, or end early.
//!
//! Every position of the stream is judged on the bytes that are there. A
//! position is *rejected* once some byte shows that no intact frame can start
//! at it; it holds a *frame* when an intact frame starts there and lies wholly
//! inside the stream; otherwise it is undecided and more bytes are needed.
//! The scanner stops at the first position that is not rejected.

use vstd::prelude::*;
use crate::packet::{
    checksum_of, checksum_range, frame_of, lemma_encoded_frame_is_well_formed, well_formed,
    HEADER_BYTE,
};

verus! {

/// A decoded status packet.
#[derive(Debug, PartialEq, Eq)]
pub struct StatusPacket {
    /// Address of the device that answered.
    pub id: u8,
    /// The device's status bits.
    pub error: u8,
    /// The bytes between the error byte and the checksum.
    pub params: Vec<u8>,
}

/// What a scan found.
#[derive(Debug, Clone, Copy, PartialEq, Eq, Structural)]
pub struct Scan {
    /// First position that is not rejected; the stream's length if all are.
    pub start: usize,
    /// Whether an intact frame starts at `start`.
    pub found: bool,
    /// Whether a position before `start` showed a header and an accepted id
    /// and was rejected all the same.
    pub corrupt: bool,
}

/// Largest length byte of a frame that fits [`crate::packet::MAX_FRAME_LEN`].
pub const MAX_LENGTH_BYTE: u8 = 246;

/// Smallest length byte: an error byte and a checksum.
pub const MIN_LENGTH_BYTE: u8 = 2;

/// Whether a frame for `id` is looked for. `0xFF` is no address, so a third
/// header byte is never taken for one.
pub open spec fn id_accepted(expected: Option<u8>, id: u8) -> bool {
    &&& id != 0xFF
    &&& expected matches Some(e) ==> id == e
}

/// Whether a frame with length byte `l` is looked for.
pub open spec fn len_accepted(expected: Option<u8>, l: u8) -> bool {
    &&& 2 <= l <= 246
    &&& expected matches Some(e) ==> l == e
}

/// A header, an accepted id and a length byte stand at `i`.
pub open spec fn candidate_at(s: Seq<u8>, i: int, id: Option<u8>) -> bool {
    &&& 0 <= i
    &&& i + 3 < s.len()
    &&& s[i] == 0xFF
    &&& s[i + 1] == 0xFF
    &&& id_accepted(id, s[i + 2])
}

/// An intact frame that is looked for starts at `i` and ends inside `s`.
pub open spec fn frame_at(s: Seq<u8>, i: int, id: Option<u8>, len: Option<u8>) -> bool {
    &&& candidate_at(s, i, id)
    &&& len_accepted(len, s[i + 3])
    &&& i + s[i + 3] + 4 <= s.len()
    &&& s[i + s[i + 3] + 3] == checksum_of(s.subrange(i + 2, i + s[i + 3] + 3))
}

/// The bytes present show that no frame that is looked for starts at `i`.
pub open spec fn rejected_at(s: Seq<u8>, i: int, id: Option<u8>, len: Option<u8>) -> bool {
    ||| i < 0
    ||| i < s.len() && s[i] != 0xFF
    ||| i + 1 < s.len() && s[i + 1] != 0xFF
    ||| i + 2 < s.len() && !id_accepted(id, s[i + 2])
    ||| i + 3 < s.len() && !len_accepted(len, s[i + 3])
    ||| i + 3 < s.len() && i + s[i + 3] + 4 <= s.len() && s[i + s[i + 3] + 3] != checksum_of(
        s.subrange(i + 2, i + s[i + 3] + 3),
    )
}

/// First position from `i` on that is not rejected.
pub open spec fn scan_from(s: Seq<u8>, i: int, id: Option<u8>, len: Option<u8>) -> int
    decreases s.len() - i,
{
    if i >= s.len() {
        s.len() as int
    } else if rejected_at(s, i, id, len) {
        scan_from(s, i + 1, id, len)
    } else {
        i
    }
}

/// First position of `s` that is not rejected.
pub open spec fn scan_start(s: Seq<u8>, id: Option<u8>, len: Option<u8>) -> int {
    scan_from(s, 0, id, len)
}

/// Whether some position before `end` is a candidate.
pub open spec fn candidate_before(s: Seq<u8>, end: int, id: Option<u8>) -> bool {
    exists|j: int| 0 <= j < end && #[trigger] candidate_at(s, j, id)
}

/// Total size of the frame whose length byte stands at `i + 3`.
pub open spec fn frame_len_at(s: Seq<u8>, i: int) -> int {
    s[i + 3] + 4
}

/// Error byte of the frame at `i`.
pub open spec fn error_at(s: Seq<u8>, i: int) -> u8 {
    s[i + 4]
}

/// Parameter bytes of the frame at `i`.
pub open spec fn params_at(s: Seq<u8>, i: int) -> Seq<u8> {
    s.subrange(i + 5, i + s[i + 3] + 3)
}

/// A position that is not rejected and has only rejected positions before
/// it is where the scan stops.
pub proof fn lemma_scan_from_unique(
    s: Seq<u8>,
    i: int,
    at: int,
    id: Option<u8>,
    len: Option<u8>,
)
    requires
        0 <= i <= at <= s.len(),
        forall|j: int| i <= j < at ==> rejected_at(s, j, id, len),
        !rejected_at(s, at, id, len),
    ensures
        scan_from(s, i, id, len) == at,
    decreases at - i,
{
    if i < at {
        lemma_scan_from_unique(s, i + 1, at, id, len);
    }
}

/// Judgement of one position.
enum Verdict {
    Rejected,
    Undecided,
    Frame,
}

fn id_matches(expected: Option<u8>, id: u8) -> (ok: bool)
    ensures
        ok == id_accepted(expected, id),
{
    if id == HEADER_BYTE {
        return false;
    }
    match expected {
        Some(e) => id == e,
        None => true,
    }
}

fn len_matches(expected: Option<u8>, l: u8) -> (ok: bool)
    ensures
        ok == len_accepted(expected, l),
{
    if l < MIN_LENGTH_BYTE || l > MAX_LENGTH_BYTE {
        return false;
    }
    match expected {
        Some(e) => l == e,
        None => true,
    }
}

fn judge(bytes: &[u8], i: usize, id: Option<u8>, len: Option<u8>) -> (v: (Verdict, bool))
    requires
        i < bytes.len(),
    ensures
        v.0 is Rejected <==> rejected_at(bytes@, i as int, id, len),
        v.0 is Frame <==> frame_at(bytes@, i as int, id, len),
        v.1 == candidate_at(bytes@, i as int, id),
{
    let n = bytes.len();
    if bytes[i] != HEADER_BYTE {
        return (Verdict::Rejected, false);
    }
    if n - i < 2 {
        return (Verdict::Undecided, false);
    }
    if bytes[i + 1] != HEADER_BYTE {
        return (Verdict::Rejected, false);
    }
    if n - i < 3 {
        return (Verdict::Undecided, false);
    }
    if !id_matches(id, bytes[i + 2]) {
        return (Verdict::Rejected, false);
    }
    if n - i < 4 {
        return (Verdict::Undecided, false);
    }
    let l = bytes[i + 3];
    if !len_matches(len, l) {
        return (Verdict::Rejected, true);
    }
    let total = l as usize + 4;
    if n - i < total {
        return (Verdict::Undecided, true);
    }
    let c = checksum_range(bytes, i + 2, i + total - 1);
    if bytes[i + total - 1] != c {
        return (Verdict::Rejected, true);
    }
    (Verdict::Frame, true)
}

/// Scans `bytes` for the first frame from a device that `id` accepts and with
/// a length byte that `len` accepts.
pub fn scan(bytes: &[u8], id: Option<u8>, len: Option<u8>) -> (r: Scan)
    ensures
        r.start as int == scan_start(bytes@, id, len),
        r.start <= bytes@.len(),
        r.found == frame_at(bytes@, r.start as int, id, len),
        r.corrupt == candidate_before(bytes@, r.start as int, id),
{
    let n = bytes.len();
    let mut i: usize = 0;
    let mut corrupt = false;
    let mut found = false;
    while i < n
        invariant_except_break
            !found,
        invariant
            i <= n == bytes@.len(),
            forall|j: int| 0 <= j < i ==> rejected_at(bytes@, j, id, len),
            corrupt == candidate_before(bytes@, i as int, id),
        ensures
            i <= n,
            !rejected_at(bytes@, i as int, id, len),
            found == frame_at(bytes@, i as int, id, len),
        decreases n - i,
    {
        let (verdict, candidate) = judge(bytes, i, id, len);
        match verdict {
            Verdict::Rejected => {
                proof {
                    if candidate {
                        assert(candidate_at(bytes@, i as int, id));
                    } else if candidate_before(bytes@, i + 1, id) {
                        let j = choose|j: int| 0 <= j < i + 1 && candidate_at(bytes@, j, id);
                        assert(j < i);
                    }
                }
                corrupt = corrupt || candidate;
                i = i + 1;
            },
            Verdict::Undecided => {
                break ;
            },
            Verdict::Frame => {
                found = true;
                break ;
            },
        }
    }
    proof {
        lemma_scan_from_unique(bytes@, 0, i as int, id, len);
    }
    Scan { start: i, found, corrupt }
}

/// Decodes the first status packet in `bytes` that comes from a device that
/// `expected_id` accepts (`None` accepts every device).
///
/// Returns the packet, if an intact one is there, and the number of leading
/// bytes that are done with: everything before the packet and the packet
/// itself, or, without a packet, everything before the first position at
/// which a frame may still turn up once more bytes arrive.
pub fn decode_stream(bytes: &[u8], expected_id: Option<u8>) -> (r: (Option<StatusPacket>, usize))
    ensures
        r.0 is Some <==> frame_at(
            bytes@,
            scan_start(bytes@, expected_id, None),
            expected_id,
            None,
        ),
        r.0 matches Some(p) ==> {
            let at = scan_start(bytes@, expected_id, None);
            &&& p.id == bytes@[at + 2]
            &&& p.error == error_at(bytes@, at)
            &&& p.params@ == params_at(bytes@, at)
            &&& r.1 == at + frame_len_at(bytes@, at)
        },
        r.0 is None ==> r.1 == scan_start(bytes@, expected_id, None),
        r.1 <= bytes@.len(),
{
    let s = scan(bytes, expected_id, None);
    if !s.found {
        return (None, s.start);
    }
    let at = s.start;
    let n = bytes.len();
    assert(at + 3 < n);
    let l = bytes[at + 3] as usize;
    let packet = StatusPacket {
        id: bytes[at + 2],
        error: bytes[at + 4],
        params: copy_range(bytes, at + 5, at + l + 3),
    };
    (Some(packet), at + l + 4)
}

/// A fresh vector holding `bytes[from..to]`.
pub fn copy_range(bytes: &[u8], from: usize, to: usize) -> (v: Vec<u8>)
    requires
        from <= to <= bytes.len(),
    ensures
        v@ == bytes@.subrange(from as int, to as int),
{
    let mut v: Vec<u8> = Vec::new();
    let mut i: usize = from;
    while i < to
        invariant
            from <= i <= to <= bytes.len(),
            v@ == bytes@.subrange(from as int, i as int),
        decreases to - i,
    {
        v.push(bytes[i]);
        assert(bytes@.subrange(from as int, i + 1) =~= bytes@.subrange(from as int, i as int).push(
            bytes@[i as int],
        ));
        i = i + 1;
    }
    v
}

/// A fresh vector holding the bytes of `a` followed by those of `b`.
pub fn join_bytes(a: &[u8], b: &[u8]) -> (v: Vec<u8>)
    ensures
        v@ == a@ + b@,
{
    let mut v: Vec<u8> = copy_range(a, 0, a.len());
    assert(a@.subrange(0, a@.len() as int) =~= a@);
    let n = b.len();
    let mut i: usize = 0;
    while i < n
        invariant
            i <= n == b@.len(),
            v@ == a@ + b@.subrange(0, i as int),
        decreases n - i,
    {
        v.push(b[i]);
        assert(b@.subrange(0, i + 1) =~= b@.subrange(0, i as int).push(b@[i as int]));
        i = i + 1;
    }
    assert(b@.subrange(0, n as int) =~= b@);
    v
}

/// Whether `a` and `b` hold the same bytes.
pub fn same_bytes(a: &[u8], b: &[u8]) -> (same: bool)
    ensures
        same == (a@ == b@),
{
    let n = a.len();
    if b.len() != n {
        return false;
    }
    let mut i: usize = 0;
    while i < n
        invariant
            i <= n == a@.len(),
            n == b@.len(),
            forall|j: int| 0 <= j < i ==> a@[j] == b@[j],
        decreases n - i,
    {
        if a[i] != b[i] {
            return false;
        }
        i = i + 1;
    }
    assert(a@ =~= b@);
    true
}

/// Resynchronization: in front of an intact frame from an accepted device,
/// leading bytes among which no two neighbours are both `0xFF` are skipped,
/// and the scan stops exactly at the frame.
pub proof fn lemma_resync_on_garbage_prefix(
    garbage: Seq<u8>,
    frame: Seq<u8>,
    id: Option<u8>,
)
    requires
        well_formed(frame),
        id_accepted(id, frame[2]),
        forall|k: int|
            0 <= k < garbage.len() - 1 ==> !(#[trigger] garbage[k] == 0xFF && garbage[k + 1]
                == 0xFF),
    ensures
        scan_start(garbage + frame, id, None) == garbage.len(),
        frame_at(garbage + frame, garbage.len() as int, id, None),
        error_at(garbage + frame, garbage.len() as int) == frame[4],
        params_at(garbage + frame, garbage.len() as int) == frame.subrange(5, frame.len() - 1),
        garbage.len() + frame_len_at(garbage + frame, garbage.len() as int) == (garbage
            + frame).len(),
{
    let s = garbage + frame;
    let g = garbage.len() as int;
    let n = frame.len() as int;
    assert(s.subrange(g + 2, g + s[g + 3] + 3) =~= frame.subrange(2, n - 1));
    assert(s.subrange(g + 5, g + s[g + 3] + 3) =~= frame.subrange(5, n - 1));
    assert forall|j: int| 0 <= j < g implies rejected_at(s, j, id, None) by {
        if garbage[j] == 0xFF {
            if j + 1 < g {
                assert(!(garbage[j] == 0xFF && garbage[j + 1] == 0xFF));
                assert(s[j + 1] == garbage[j + 1]);
            } else {
                assert(s[j + 1] == frame[0]);
                assert(s[j + 2] == frame[1]);
            }
        } else {
            assert(s[j] == garbage[j]);
        }
    }
    lemma_scan_from_unique(s, 0, g, id, None);
}

/// Decoding undoes encoding: a frame built for a device whose id is an
/// address is found at the start of the stream that holds nothing else, with
/// the byte after the length as its error byte and the parameters it was
/// built from.
pub proof fn lemma_encoded_frame_decodes(id: u8, op: u8, params: Seq<u8>)
    requires
        params.len() <= 244,
        id != 0xFF,
    ensures
        scan_start(frame_of(id, op, params), Some(id), None) == 0,
        frame_at(frame_of(id, op, params), 0, Some(id), None),
        error_at(frame_of(id, op, params), 0) == op,
        params_at(frame_of(id, op, params), 0) == params,
        frame_len_at(frame_of(id, op, params), 0) == params.len() + 6,
{
    let f = frame_of(id, op, params);
    lemma_encoded_frame_is_well_formed(id, op, params);
    lemma_resync_on_garbage_prefix(Seq::empty(), f, Some(id));
    assert(Seq::<u8>::empty() + f =~= f);
    assert(f.subrange(5, f.len() - 1) =~= params);
}

} // verus!
