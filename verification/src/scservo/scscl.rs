//! The SCSCL family: baud rates, register addresses and the operations on
//! them.

use vstd::prelude::*;
use vstd::arithmetic::power2::lemma2_to64;
use crate::packet::frame_of;
use crate::scs::{
    ack_result, after_ack, after_request, first_byte, records, second_byte, ScsState, SCS,
};
use crate::stream::join_bytes;
use crate::word::{spec_to_device, to_device};

verus! {

/// Baud rates by their register value.
#[derive(Debug, Clone, Copy, PartialEq, Eq, Structural)]
pub enum ScsclBaudRate {
    /// 1 Mbps
    SCScl1M,
    /// 0.5 Mbps
    SCScl0_5M,
    /// 250 Kbps
    SCScl250K,
    /// 128 Kbps
    SCScl128K,
    /// 115200 bps
    SCScl115200,
    /// 76800 bps
    SCScl76800,
    /// 57600 bps
    SCScl57600,
    /// 38400 bps
    SCScl38400,
}

impl ScsclBaudRate {
    /// The rate in bits per second.
    pub open spec fn spec_baud_value(&self) -> u32 {
        match self {
            Self::SCScl1M => 1000000,
            Self::SCScl0_5M => 500000,
            Self::SCScl250K => 250000,
            Self::SCScl128K => 128000,
            Self::SCScl115200 => 115200,
            Self::SCScl76800 => 76800,
            Self::SCScl57600 => 57600,
            Self::SCScl38400 => 38400,
        }
    }

    /// The value of the baud-rate register that selects the rate.
    pub open spec fn spec_register_value(&self) -> u8 {
        match self {
            Self::SCScl1M => 0,
            Self::SCScl0_5M => 1,
            Self::SCScl250K => 2,
            Self::SCScl128K => 3,
            Self::SCScl115200 => 4,
            Self::SCScl76800 => 5,
            Self::SCScl57600 => 6,
            Self::SCScl38400 => 7,
        }
    }

    /// The rate in bits per second.
    pub fn baud_value(&self) -> (v: u32)
        ensures
            v == self.spec_baud_value(),
    {
        match self {
            Self::SCScl1M => 1000000,
            Self::SCScl0_5M => 500000,
            Self::SCScl250K => 250000,
            Self::SCScl128K => 128000,
            Self::SCScl115200 => 115200,
            Self::SCScl76800 => 76800,
            Self::SCScl57600 => 57600,
            Self::SCScl38400 => 38400,
        }
    }

    /// The value of the baud-rate register that selects the rate.
    pub fn register_value(&self) -> (v: u8)
        ensures
            v == self.spec_register_value(),
    {
        match self {
            Self::SCScl1M => 0,
            Self::SCScl0_5M => 1,
            Self::SCScl250K => 2,
            Self::SCScl128K => 3,
            Self::SCScl115200 => 4,
            Self::SCScl76800 => 5,
            Self::SCScl57600 => 6,
            Self::SCScl38400 => 7,
        }
    }
}

pub const SCSCL_VERSION_L: u8 = 3;

pub const SCSCL_VERSION_H: u8 = 4;

pub const SCSCL_ID: u8 = 5;

pub const SCSCL_BAUD_RATE: u8 = 6;

pub const SCSCL_MIN_ANGLE_LIMIT_L: u8 = 9;

pub const SCSCL_MIN_ANGLE_LIMIT_H: u8 = 10;

pub const SCSCL_MAX_ANGLE_LIMIT_L: u8 = 11;

pub const SCSCL_MAX_ANGLE_LIMIT_H: u8 = 12;

pub const SCSCL_CW_DEAD: u8 = 26;

pub const SCSCL_CCW_DEAD: u8 = 27;

pub const SCSCL_TORQUE_ENABLE: u8 = 40;

pub const SCSCL_GOAL_POSITION_L: u8 = 42;

pub const SCSCL_GOAL_POSITION_H: u8 = 43;

pub const SCSCL_GOAL_TIME_L: u8 = 44;

pub const SCSCL_GOAL_TIME_H: u8 = 45;

pub const SCSCL_GOAL_SPEED_L: u8 = 46;

pub const SCSCL_GOAL_SPEED_H: u8 = 47;

pub const SCSCL_LOCK: u8 = 48;

pub const SCSCL_PRESENT_POSITION_L: u8 = 56;

pub const SCSCL_PRESENT_POSITION_H: u8 = 57;

pub const SCSCL_PRESENT_SPEED_L: u8 = 58;

pub const SCSCL_PRESENT_SPEED_H: u8 = 59;

pub const SCSCL_PRESENT_LOAD_L: u8 = 60;

pub const SCSCL_PRESENT_LOAD_H: u8 = 61;

pub const SCSCL_PRESENT_VOLTAGE: u8 = 62;

pub const SCSCL_PRESENT_TEMPERATURE: u8 = 63;

pub const SCSCL_MOVING: u8 = 66;

pub const SCSCL_PRESENT_CURRENT_L: u8 = 69;

pub const SCSCL_PRESENT_CURRENT_H: u8 = 70;

/// Number of registers from the present position to the present current.
pub const MEM_LENGTH: usize = 15;

/// Position of the direction bit of a pulse-width value.
pub const PWM_SIGN_BIT: u32 = 10;

/// The six bytes of a move: position, time and speed, each as a word in the
/// byte order of `end`.
pub open spec fn move_bytes(end: u8, position: u16, time: u16, speed: u16) -> Seq<u8> {
    seq![
        first_byte(end, position),
        second_byte(end, position),
        first_byte(end, time),
        second_byte(end, time),
        first_byte(end, speed),
        second_byte(end, speed),
    ]
}

/// The bytes of the moves of the first `count` devices, one after the
/// other.
pub open spec fn moves_bytes(
    end: u8,
    position: Seq<u16>,
    time: Seq<u16>,
    speed: Seq<u16>,
    count: nat,
) -> Seq<u8>
    decreases count,
{
    if count == 0 {
        Seq::empty()
    } else {
        moves_bytes(end, position, time, speed, (count - 1) as nat) + move_bytes(
            end,
            position[count - 1],
            time[count - 1],
            speed[count - 1],
        )
    }
}

/// The word that stands for the pulse width `pwmout`: its magnitude, with
/// the direction bit set for a negative one.
pub open spec fn pwm_word(pwmout: i16) -> u16 {
    spec_to_device(pwmout as int, 10) as u16
}

/// What a write of `params` to device `id` makes of the bus end `pre`, and
/// what it returns.
pub open spec fn writes(pre: ScsState, post: ScsState, r: i32, id: u8, params: Seq<u8>) -> bool {
    &&& r == ack_result(after_request(pre, frame_of(id, 0x03, params)), id)
    &&& post == after_ack(after_request(pre, frame_of(id, 0x03, params)), id)
}

/// A servo of the SCSCL family on a bus end.
#[derive(Debug)]
pub struct SCSCL {
    /// The bus end.
    pub scs: SCS,
    /// The registers from the present position to the present current, as
    /// last read.
    pub mem: [u8; 15],
}

impl SCSCL {
    /// A servo on a new bus end with byte order `end` and answer level
    /// `level`.
    pub fn new(end: u8, level: u8) -> (s: Self)
        ensures
            s.scs@ == crate::scs::fresh_scs(end, level),
            forall|i: int| 0 <= i < 15 ==> s.mem@[i] == 0,
    {
        SCSCL { scs: SCS::new(end, level), mem: [0;15] }
    }

    /// The six bytes of a move.
    fn move_buffer(&self, position: u16, time: u16, speed: u16) -> (v: Vec<u8>)
        ensures
            v@ == move_bytes(self.scs.end, position, time, speed),
    {
        let mut v: Vec<u8> = Vec::new();
        let mut lo: u8 = 0;
        let mut hi: u8 = 0;
        self.scs.host_2_scs(&mut lo, &mut hi, position);
        v.push(lo);
        v.push(hi);
        self.scs.host_2_scs(&mut lo, &mut hi, time);
        v.push(lo);
        v.push(hi);
        self.scs.host_2_scs(&mut lo, &mut hi, speed);
        v.push(lo);
        v.push(hi);
        assert(v@ =~= move_bytes(self.scs.end, position, time, speed));
        v
    }

    /// Moves device `id` to `position` in `time` at `speed`: a write of the
    /// three words from the goal position on. The result is that of
    /// [`SCS::ack`].
    pub fn write_pos(&mut self, id: u8, position: u16, time: u16, speed: u16) -> (r: i32)
        ensures
            writes(
                old(self).scs@,
                final(self).scs@,
                r,
                id,
                seq![42u8] + move_bytes(old(self).scs.end, position, time, speed),
            ),
            final(self).mem == old(self).mem,
    {
        let data = self.move_buffer(position, time, speed);
        assert(data@.subrange(0, 6) =~= data@);
        self.scs.gen_write(id, SCSCL_GOAL_POSITION_L, data.as_slice(), 6)
    }

    /// Registers a move of device `id` to `position` in `time` at `speed`,
    /// to be carried out on [`SCS::reg_write_action`]. The result is that of
    /// [`SCS::ack`].
    pub fn reg_write_pos(&mut self, id: u8, position: u16, time: u16, speed: u16) -> (r: i32)
        ensures
            ({
                let frame = frame_of(
                    id,
                    0x04,
                    seq![42u8] + move_bytes(old(self).scs.end, position, time, speed),
                );
                &&& r == ack_result(after_request(old(self).scs@, frame), id)
                &&& final(self).scs@ == after_ack(after_request(old(self).scs@, frame), id)
            }),
            final(self).mem == old(self).mem,
    {
        let data = self.move_buffer(position, time, speed);
        assert(data@.subrange(0, 6) =~= data@);
        self.scs.reg_write(id, SCSCL_GOAL_POSITION_L, data.as_slice(), 6)
    }

    /// Moves the first `idn` devices of `id` in one broadcast, device `i` to
    /// `position[i]` in `time[i]` at `speed[i]`.
    pub fn sync_write_pos(
        &mut self,
        id: &[u8],
        idn: u8,
        position: &[u16],
        time: &[u16],
        speed: &[u16],
    )
        requires
            idn <= id@.len(),
            idn <= position@.len(),
            idn <= time@.len(),
            idn <= speed@.len(),
            idn <= 34,
        ensures
            final(self).scs@ == (ScsState {
                rx_buf: Seq::empty(),
                pending: Seq::empty(),
                tx_buf: Seq::empty(),
                wire_out: old(self).scs@.wire_out + old(self).scs@.tx_buf + frame_of(
                    0xFE,
                    0x83,
                    seq![42u8, 6u8] + records(
                        id@,
                        moves_bytes(old(self).scs.end, position@, time@, speed@, idn as nat),
                        6,
                        idn as nat,
                    ),
                ),
                ..old(self).scs@
            }),
            final(self).mem == old(self).mem,
    {
        let count = idn as usize;
        let mut data: Vec<u8> = Vec::new();
        let mut i: usize = 0;
        while i < count
            invariant
                i <= count == idn,
                idn <= position@.len(),
                idn <= time@.len(),
                idn <= speed@.len(),
                self.scs == old(self).scs,
                self.mem == old(self).mem,
                data@ == moves_bytes(self.scs.end, position@, time@, speed@, i as nat),
                data@.len() == 6 * i,
            decreases count - i,
        {
            let one = self.move_buffer(position[i], time[i], speed[i]);
            let joined = join_bytes(data.as_slice(), one.as_slice());
            data = joined;
            i = i + 1;
        }
        self.scs.sync_write(id, idn, SCSCL_GOAL_POSITION_L, data.as_slice(), 6);
    }

    /// Puts device `id` into pulse-width mode by setting both angle limits
    /// to zero. The result is that of [`SCS::ack`].
    pub fn pwm_mode(&mut self, id: u8) -> (r: i32)
        ensures
            writes(old(self).scs@, final(self).scs@, r, id, seq![9u8, 0u8, 0u8, 0u8, 0u8]),
            final(self).mem == old(self).mem,
    {
        let mut data: Vec<u8> = Vec::new();
        data.push(0);
        data.push(0);
        data.push(0);
        data.push(0);
        assert(seq![9u8] + data@.subrange(0, 4) =~= seq![9u8, 0u8, 0u8, 0u8, 0u8]);
        self.scs.gen_write(id, SCSCL_MIN_ANGLE_LIMIT_L, data.as_slice(), 4)
    }

    /// Sets the pulse width of device `id` to `pwmout`, whose sign gives the
    /// direction: a write of [`pwm_word`] at the goal time. The result is
    /// that of [`SCS::ack`].
    pub fn write_pwm(&mut self, id: u8, pwmout: i16) -> (r: i32)
        ensures
            writes(
                old(self).scs@,
                final(self).scs@,
                r,
                id,
                seq![
                    44u8,
                    first_byte(old(self).scs.end, pwm_word(pwmout)),
                    second_byte(old(self).scs.end, pwm_word(pwmout)),
                ],
            ),
            final(self).mem == old(self).mem,
    {
        proof {
            lemma2_to64();
        }
        let word = to_device(pwmout as i32, PWM_SIGN_BIT) as u16;
        self.scs.write_word(id, SCSCL_GOAL_TIME_L, word)
    }

    /// Switches the torque of device `id` on (`enable` not zero) or off: a
    /// write of `enable` to the torque register. The result is that of
    /// [`SCS::ack`].
    pub fn enable_torque(&mut self, id: u8, enable: u8) -> (r: i32)
        ensures
            writes(old(self).scs@, final(self).scs@, r, id, seq![40u8, enable]),
            final(self).mem == old(self).mem,
    {
        self.scs.write_byte(id, SCSCL_TORQUE_ENABLE, enable)
    }

    /// Opens the permanent registers of device `id` for writing: a write of
    /// zero to the lock register. The result is that of [`SCS::ack`].
    pub fn unlock_eprom(&mut self, id: u8) -> (r: i32)
        ensures
            writes(old(self).scs@, final(self).scs@, r, id, seq![48u8, 0u8]),
            final(self).mem == old(self).mem,
    {
        self.scs.write_byte(id, SCSCL_LOCK, 0)
    }

    /// Closes the permanent registers of device `id`: a write of one to the
    /// lock register. The result is that of [`SCS::ack`].
    pub fn lock_eprom(&mut self, id: u8) -> (r: i32)
        ensures
            writes(old(self).scs@, final(self).scs@, r, id, seq![48u8, 1u8]),
            final(self).mem == old(self).mem,
    {
        self.scs.write_byte(id, SCSCL_LOCK, 1)
    }
}

} // verus!
