//! What the families with acceleration-first moves have in common: a move
//! is the acceleration, the position, a time of zero and the speed, seven
//! registers from the acceleration on; measurements are read from the
//! fifteen registers from the present position on.

use vstd::prelude::*;
use vstd::arithmetic::power2::lemma2_to64;
use crate::packet::frame_of;
use crate::scs::{
    ack_result, after_ack, after_read, after_request, first_byte, read_data, read_done, records,
    second_byte, signed_word, word_from, ScsState, SCS,
};
use crate::scservo::scscl::{pwm_word, writes, PWM_SIGN_BIT};
use crate::stream::join_bytes;
use crate::word::{lemma_mask_is_pow2, to_device, to_host};

verus! {

/// Number of registers of one move.
pub const MOVE_LENGTH: u8 = 7;

/// Number of registers from the present position to the present current.
pub const MEM_LENGTH: u8 = 15;

/// Value of the torque register that makes the present position the middle.
pub const CALIBRATE: u8 = 128;

/// Position of the direction bit of positions, speeds and currents.
pub const SIGN_BIT: u8 = 15;

/// Position of the direction bit of loads.
pub const LOAD_SIGN_BIT: u8 = 10;

/// The seven bytes of a move: acceleration, position, a time of zero, and
/// speed, the words in the byte order of `end`.
pub open spec fn move_bytes(end: u8, position: u16, speed: u16, acc: u8) -> Seq<u8> {
    seq![
        acc,
        first_byte(end, position),
        second_byte(end, position),
        first_byte(end, 0),
        second_byte(end, 0),
        first_byte(end, speed),
        second_byte(end, speed),
    ]
}

/// The bytes of the moves of the first `count` devices, one after the
/// other.
pub open spec fn moves_bytes(
    end: u8,
    position: Seq<u16>,
    speed: Seq<u16>,
    acc: Seq<u8>,
    count: nat,
) -> Seq<u8>
    decreases count,
{
    if count == 0 {
        Seq::empty()
    } else {
        moves_bytes(end, position, speed, acc, (count - 1) as nat) + move_bytes(
            end,
            position[count - 1],
            speed[count - 1],
            acc[count - 1],
        )
    }
}

/// The value that one step of reading the signed word at `address` of
/// device `id` gives: the word read as a magnitude with direction bit
/// `sign_bit`, or -1 while there is no intact answer.
pub open spec fn signed_step(pre: ScsState, id: u8, address: u8, sign_bit: u8) -> int {
    let requested = after_request(pre, frame_of(id, 0x02, seq![address, 2u8]));
    if read_done(requested, 2) {
        signed_word(word_from(pre.end, requested.rx_buf[5], requested.rx_buf[6]), sign_bit)
    } else {
        -1
    }
}

/// The value that one step of reading the byte at `address` of device `id`
/// gives, or -1 while there is no intact answer.
pub open spec fn byte_step(pre: ScsState, id: u8, address: u8) -> int {
    let requested = after_request(pre, frame_of(id, 0x02, seq![address, 1u8]));
    if read_done(requested, 1) {
        requested.rx_buf[5] as int
    } else {
        -1
    }
}

/// The bus end after one step of reading `length` bytes at `address` of
/// device `id`.
pub open spec fn read_step(pre: ScsState, id: u8, address: u8, length: u8) -> ScsState {
    after_read(after_request(pre, frame_of(id, 0x02, seq![address, length])), length)
}

/// The seven bytes of a move.
pub fn move_buffer(scs: &SCS, position: u16, speed: u16, acc: u8) -> (v: Vec<u8>)
    ensures
        v@ == move_bytes(scs.end, position, speed, acc),
{
    let mut v: Vec<u8> = Vec::new();
    let mut lo: u8 = 0;
    let mut hi: u8 = 0;
    v.push(acc);
    scs.host_2_scs(&mut lo, &mut hi, position);
    v.push(lo);
    v.push(hi);
    scs.host_2_scs(&mut lo, &mut hi, 0);
    v.push(lo);
    v.push(hi);
    scs.host_2_scs(&mut lo, &mut hi, speed);
    v.push(lo);
    v.push(hi);
    assert(v@ =~= move_bytes(scs.end, position, speed, acc));
    v
}

/// Moves device `id` to `position` at `speed` with acceleration `acc`: a
/// write of the move at `address`. The result is that of [`SCS::ack`].
pub fn write_pos_ex(scs: &mut SCS, id: u8, position: u16, speed: u16, acc: u8, address: u8) -> (r:
    i32)
    ensures
        writes(
            old(scs)@,
            final(scs)@,
            r,
            id,
            seq![address] + move_bytes(old(scs).end, position, speed, acc),
        ),
{
    let data = move_buffer(scs, position, speed, acc);
    assert(data@.subrange(0, 7) =~= data@);
    scs.gen_write(id, address, data.as_slice(), 7)
}

/// Registers a move of device `id` to `position` at `speed` with
/// acceleration `acc`, to be carried out on [`SCS::reg_write_action`]. The
/// result is that of [`SCS::ack`].
pub fn reg_write_pos_ex(scs: &mut SCS, id: u8, position: u16, speed: u16, acc: u8, address: u8) -> (r:
    i32)
    ensures
        ({
            let frame = frame_of(
                id,
                0x04,
                seq![address] + move_bytes(old(scs).end, position, speed, acc),
            );
            &&& r == ack_result(after_request(old(scs)@, frame), id)
            &&& final(scs)@ == after_ack(after_request(old(scs)@, frame), id)
        }),
{
    let data = move_buffer(scs, position, speed, acc);
    assert(data@.subrange(0, 7) =~= data@);
    scs.reg_write(id, address, data.as_slice(), 7)
}

/// Moves the first `idn` devices of `id` in one broadcast, device `i` to
/// `position[i]` at `speed[i]` with acceleration `acc[i]`.
pub fn sync_write_pos_ex(
    scs: &mut SCS,
    id: &[u8],
    idn: u8,
    position: &[u16],
    speed: &[u16],
    acc: &[u8],
    address: u8,
)
    requires
        idn <= id@.len(),
        idn <= position@.len(),
        idn <= speed@.len(),
        idn <= acc@.len(),
        idn <= 30,
    ensures
        final(scs)@ == (ScsState {
            rx_buf: Seq::empty(),
            pending: Seq::empty(),
            tx_buf: Seq::empty(),
            wire_out: old(scs)@.wire_out + old(scs)@.tx_buf + frame_of(
                0xFE,
                0x83,
                seq![address, 7u8] + records(
                    id@,
                    moves_bytes(old(scs).end, position@, speed@, acc@, idn as nat),
                    7,
                    idn as nat,
                ),
            ),
            ..old(scs)@
        }),
{
    let count = idn as usize;
    let mut data: Vec<u8> = Vec::new();
    let mut i: usize = 0;
    while i < count
        invariant
            i <= count == idn,
            idn <= position@.len(),
            idn <= speed@.len(),
            idn <= acc@.len(),
            *scs == *old(scs),
            data@ == moves_bytes(scs.end, position@, speed@, acc@, i as nat),
            data@.len() == 7 * i,
        decreases count - i,
    {
        let one = move_buffer(scs, position[i], speed[i], acc[i]);
        let joined = join_bytes(data.as_slice(), one.as_slice());
        data = joined;
        i = i + 1;
    }
    scs.sync_write(id, idn, address, data.as_slice(), 7);
}

/// Sets the pulse width of device `id` to `pwmout`, whose sign gives the
/// direction: a write of [`pwm_word`] at `address`. The result is that of
/// [`SCS::ack`].
pub fn write_pwm(scs: &mut SCS, id: u8, pwmout: i16, address: u8) -> (r: i32)
    ensures
        writes(
            old(scs)@,
            final(scs)@,
            r,
            id,
            seq![
                address,
                first_byte(old(scs).end, pwm_word(pwmout)),
                second_byte(old(scs).end, pwm_word(pwmout)),
            ],
        ),
{
    proof {
        lemma2_to64();
    }
    let word = to_device(pwmout as i32, PWM_SIGN_BIT) as u16;
    scs.write_word(id, address, word)
}

/// One step of reading the fifteen registers from `address` on of device
/// `id` into `mem`: 15 once they are there, -1 while there is no intact
/// answer.
pub fn feed_back(scs: &mut SCS, mem: &mut [u8; 15], id: u8, address: u8) -> (r: i32)
    ensures
        final(scs)@ == read_step(old(scs)@, id, address, 15),
        ({
            let requested = after_request(old(scs)@, frame_of(id, 0x02, seq![address, 15u8]));
            if read_done(requested, 15) {
                r == 15 && final(mem)@ == read_data(requested, 15)
            } else {
                r == -1 && final(mem)@ == old(mem)@
            }
        }),
{
    let mut buf: Vec<u8> = Vec::new();
    let n = scs.read(id, address, &mut buf, MEM_LENGTH);
    if n != 15 {
        return -1;
    }
    let mut i: usize = 0;
    while i < 15
        invariant
            i <= 15,
            buf@.len() == 15,
            mem@.len() == 15,
            forall|j: int| 0 <= j < i ==> mem@[j] == buf@[j],
        decreases 15 - i,
    {
        mem[i] = buf[i];
        i = i + 1;
    }
    assert(mem@ =~= buf@);
    15
}

/// One step of reading the signed word at `address` of device `id`; see
/// [`signed_step`].
pub fn read_signed(scs: &mut SCS, id: u8, address: u8, sign_bit: u8) -> (r: i32)
    ensures
        r == signed_step(old(scs)@, id, address, sign_bit),
        final(scs)@ == read_step(old(scs)@, id, address, 2),
{
    let mut buf: Vec<u8> = Vec::new();
    let n = scs.read(id, address, &mut buf, 2);
    if n != 2 {
        return -1;
    }
    let word = scs.scs_2_host(buf[0], buf[1]);
    if sign_bit >= 1 && sign_bit <= 30 {
        proof {
            lemma_mask_is_pow2(sign_bit as u32);
        }
        to_host(word as i32, sign_bit as u32)
    } else {
        word as i32
    }
}

/// One step of reading the byte at `address` of device `id`; see
/// [`byte_step`].
pub fn read_register(scs: &mut SCS, id: u8, address: u8) -> (r: i32)
    ensures
        r == byte_step(old(scs)@, id, address),
        final(scs)@ == read_step(old(scs)@, id, address, 1),
{
    scs.read_byte(id, address)
}

} // verus!
