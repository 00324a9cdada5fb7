//! The SMS/STS family: baud rates, register addresses and the operations on
//! them.

use vstd::prelude::*;
use crate::packet::frame_of;
use crate::scs::{
    ack_result, after_ack, after_request, first_byte, fresh_scs, read_data, read_done, records,
    second_byte, ScsState, SCS,
};
use crate::scservo::scscl::{
    move_bytes as timed_move_bytes, moves_bytes as timed_moves_bytes, pwm_word, writes,
};
use crate::scservo::sms::{
    byte_step, feed_back, read_register, read_signed, read_step, signed_step, write_pwm,
    LOAD_SIGN_BIT, SIGN_BIT,
};
use crate::stream::join_bytes;

verus! {

/// Baud rates by their register value.
#[derive(Debug, Clone, Copy, PartialEq, Eq, Structural)]
pub enum SmsStsBaudRate {
    /// 1 Mbps
    SmsSts1M,
    /// 0.5 Mbps
    SmsSts0_5M,
    /// 250 Kbps
    SmsSts250K,
    /// 128 Kbps
    SmsSts128K,
    /// 115200 bps
    SmsSts115200,
    /// 76800 bps
    SmsSts76800,
    /// 57600 bps
    SmsSts57600,
    /// 38400 bps
    SmsSts38400,
}

impl SmsStsBaudRate {
    /// The rate in bits per second.
    pub open spec fn spec_baud_value(&self) -> u32 {
        match self {
            Self::SmsSts1M => 1000000,
            Self::SmsSts0_5M => 500000,
            Self::SmsSts250K => 250000,
            Self::SmsSts128K => 128000,
            Self::SmsSts115200 => 115200,
            Self::SmsSts76800 => 76800,
            Self::SmsSts57600 => 57600,
            Self::SmsSts38400 => 38400,
        }
    }

    /// The value of the baud-rate register that selects the rate.
    pub open spec fn spec_register_value(&self) -> u8 {
        match self {
            Self::SmsSts1M => 0,
            Self::SmsSts0_5M => 1,
            Self::SmsSts250K => 2,
            Self::SmsSts128K => 3,
            Self::SmsSts115200 => 4,
            Self::SmsSts76800 => 5,
            Self::SmsSts57600 => 6,
            Self::SmsSts38400 => 7,
        }
    }

    /// The rate in bits per second.
    pub fn baud_value(&self) -> (v: u32)
        ensures
            v == self.spec_baud_value(),
    {
        match self {
            Self::SmsSts1M => 1000000,
            Self::SmsSts0_5M => 500000,
            Self::SmsSts250K => 250000,
            Self::SmsSts128K => 128000,
            Self::SmsSts115200 => 115200,
            Self::SmsSts76800 => 76800,
            Self::SmsSts57600 => 57600,
            Self::SmsSts38400 => 38400,
        }
    }

    /// The value of the baud-rate register that selects the rate.
    pub fn register_value(&self) -> (v: u8)
        ensures
            v == self.spec_register_value(),
    {
        match self {
            Self::SmsSts1M => 0,
            Self::SmsSts0_5M => 1,
            Self::SmsSts250K => 2,
            Self::SmsSts128K => 3,
            Self::SmsSts115200 => 4,
            Self::SmsSts76800 => 5,
            Self::SmsSts57600 => 6,
            Self::SmsSts38400 => 7,
        }
    }
}

pub const SMS_STS_MODEL_L: u8 = 3;

pub const SMS_STS_MODEL_H: u8 = 4;

pub const SMS_STS_ID: u8 = 5;

pub const SMS_STS_BAUD_RATE: u8 = 6;

pub const SMS_STS_MIN_ANGLE_LIMIT_L: u8 = 9;

pub const SMS_STS_MIN_ANGLE_LIMIT_H: u8 = 10;

pub const SMS_STS_MAX_ANGLE_LIMIT_L: u8 = 11;

pub const SMS_STS_MAX_ANGLE_LIMIT_H: u8 = 12;

pub const SMS_STS_CW_DEAD: u8 = 26;

pub const SMS_STS_CCW_DEAD: u8 = 27;

pub const SMS_STS_OFS_L: u8 = 31;

pub const SMS_STS_OFS_H: u8 = 32;

pub const SMS_STS_MODE: u8 = 33;

pub const SMS_STS_TORQUE_ENABLE: u8 = 40;

pub const SMS_STS_ACC: u8 = 41;

pub const SMS_STS_GOAL_POSITION_L: u8 = 42;

pub const SMS_STS_GOAL_POSITION_H: u8 = 43;

pub const SMS_STS_GOAL_TIME_L: u8 = 44;

pub const SMS_STS_GOAL_TIME_H: u8 = 45;

pub const SMS_STS_GOAL_SPEED_L: u8 = 46;

pub const SMS_STS_GOAL_SPEED_H: u8 = 47;

pub const SMS_STS_LOCK: u8 = 55;

pub const SMS_STS_PRESENT_POSITION_L: u8 = 56;

pub const SMS_STS_PRESENT_POSITION_H: u8 = 57;

pub const SMS_STS_PRESENT_SPEED_L: u8 = 58;

pub const SMS_STS_PRESENT_SPEED_H: u8 = 59;

pub const SMS_STS_PRESENT_LOAD_L: u8 = 60;

pub const SMS_STS_PRESENT_LOAD_H: u8 = 61;

pub const SMS_STS_PRESENT_VOLTAGE: u8 = 62;

pub const SMS_STS_PRESENT_TEMPERATURE: u8 = 63;

pub const SMS_STS_MOVING: u8 = 66;

pub const SMS_STS_PRESENT_CURRENT_L: u8 = 69;

pub const SMS_STS_PRESENT_CURRENT_H: u8 = 70;

/// Value of the mode register for pulse-width mode.
pub const PWM_MODE: u8 = 2;

/// A servo of the SMS/STS family on a bus end.
#[derive(Debug)]
pub struct SMSSTS {
    /// The bus end.
    pub scs: SCS,
    /// The registers from the present position to the present current, as
    /// last read.
    pub mem: [u8; 15],
}

impl SMSSTS {
    /// A servo on a new bus end with byte order `end` and answer level
    /// `level`.
    pub fn new(end: u8, level: u8) -> (s: Self)
        ensures
            s.scs@ == fresh_scs(end, level),
            forall|i: int| 0 <= i < 15 ==> s.mem@[i] == 0,
    {
        SMSSTS { scs: SCS::new(end, level), mem: [0;15] }
    }

    /// The six bytes of a move.
    fn move_buffer(&self, position: u16, time: u16, speed: u16) -> (v: Vec<u8>)
        ensures
            v@ == timed_move_bytes(self.scs.end, position, time, speed),
    {
        let mut v: Vec<u8> = Vec::new();
        let mut lo: u8 = 0;
        let mut hi: u8 = 0;
        self.scs.host_2_scs(&mut lo, &mut hi, position);
        v.push(lo);
        v.push(hi);
        self.scs.host_2_scs(&mut lo, &mut hi, time);
        v.push(lo);
        v.push(hi);
        self.scs.host_2_scs(&mut lo, &mut hi, speed);
        v.push(lo);
        v.push(hi);
        assert(v@ =~= timed_move_bytes(self.scs.end, position, time, speed));
        v
    }

    /// Moves device `id` to `position` in `time` at `speed`: a write of the
    /// three words from the goal position on. The result is that of
    /// [`SCS::ack`].
    pub fn write_pos(&mut self, id: u8, position: u16, time: u16, speed: u16) -> (r: i32)
        ensures
            writes(
                old(self).scs@,
                final(self).scs@,
                r,
                id,
                seq![42u8] + timed_move_bytes(old(self).scs.end, position, time, speed),
            ),
            final(self).mem == old(self).mem,
    {
        let data = self.move_buffer(position, time, speed);
        assert(data@.subrange(0, 6) =~= data@);
        self.scs.gen_write(id, SMS_STS_GOAL_POSITION_L, data.as_slice(), 6)
    }

    /// Registers a move of device `id` to `position` in `time` at `speed`,
    /// to be carried out on [`SCS::reg_write_action`]. The result is that of
    /// [`SCS::ack`].
    pub fn reg_write_pos(&mut self, id: u8, position: u16, time: u16, speed: u16) -> (r: i32)
        ensures
            ({
                let frame = frame_of(
                    id,
                    0x04,
                    seq![42u8] + timed_move_bytes(old(self).scs.end, position, time, speed),
                );
                &&& r == ack_result(after_request(old(self).scs@, frame), id)
                &&& final(self).scs@ == after_ack(after_request(old(self).scs@, frame), id)
            }),
            final(self).mem == old(self).mem,
    {
        let data = self.move_buffer(position, time, speed);
        assert(data@.subrange(0, 6) =~= data@);
        self.scs.reg_write(id, SMS_STS_GOAL_POSITION_L, data.as_slice(), 6)
    }

    /// Moves the first `idn` devices of `id` in one broadcast, device `i` to
    /// `position[i]` in `time[i]` at `speed[i]`.
    pub fn sync_write_pos(
        &mut self,
        id: &[u8],
        idn: u8,
        position: &[u16],
        time: &[u16],
        speed: &[u16],
    )
        requires
            idn <= id@.len(),
            idn <= position@.len(),
            idn <= time@.len(),
            idn <= speed@.len(),
            idn <= 34,
        ensures
            final(self).scs@ == (ScsState {
                rx_buf: Seq::empty(),
                pending: Seq::empty(),
                tx_buf: Seq::empty(),
                wire_out: old(self).scs@.wire_out + old(self).scs@.tx_buf + frame_of(
                    0xFE,
                    0x83,
                    seq![42u8, 6u8] + records(
                        id@,
                        timed_moves_bytes(old(self).scs.end, position@, time@, speed@, idn as nat),
                        6,
                        idn as nat,
                    ),
                ),
                ..old(self).scs@
            }),
            final(self).mem == old(self).mem,
    {
        let count = idn as usize;
        let mut data: Vec<u8> = Vec::new();
        let mut i: usize = 0;
        while i < count
            invariant
                i <= count == idn,
                idn <= position@.len(),
                idn <= time@.len(),
                idn <= speed@.len(),
                self.scs == old(self).scs,
                self.mem == old(self).mem,
                data@ == timed_moves_bytes(self.scs.end, position@, time@, speed@, i as nat),
                data@.len() == 6 * i,
            decreases count - i,
        {
            let one = self.move_buffer(position[i], time[i], speed[i]);
            let joined = join_bytes(data.as_slice(), one.as_slice());
            data = joined;
            i = i + 1;
        }
        self.scs.sync_write(id, idn, SMS_STS_GOAL_POSITION_L, data.as_slice(), 6);
    }

    /// Puts device `id` into pulse-width mode: a write of two to the mode
    /// register. The result is that of [`SCS::ack`].
    pub fn pwm_mode(&mut self, id: u8) -> (r: i32)
        ensures
            writes(old(self).scs@, final(self).scs@, r, id, seq![33u8, 2u8]),
            final(self).mem == old(self).mem,
    {
        self.scs.write_byte(id, SMS_STS_MODE, PWM_MODE)
    }

    /// Sets the pulse width of device `id` to `pwmout`, whose sign gives the
    /// direction: a write of [`pwm_word`] at the goal time. The result is
    /// that of [`SCS::ack`].
    pub fn write_pwm(&mut self, id: u8, pwmout: i16) -> (r: i32)
        ensures
            writes(
                old(self).scs@,
                final(self).scs@,
                r,
                id,
                seq![
                    44u8,
                    first_byte(old(self).scs.end, pwm_word(pwmout)),
                    second_byte(old(self).scs.end, pwm_word(pwmout)),
                ],
            ),
            final(self).mem == old(self).mem,
    {
        write_pwm(&mut self.scs, id, pwmout, SMS_STS_GOAL_TIME_L)
    }

    /// Switches the torque of device `id` on (`enable` not zero) or off: a
    /// write of `enable` to the torque register. The result is that of
    /// [`SCS::ack`].
    pub fn enable_torque(&mut self, id: u8, enable: u8) -> (r: i32)
        ensures
            writes(old(self).scs@, final(self).scs@, r, id, seq![40u8, enable]),
            final(self).mem == old(self).mem,
    {
        self.scs.write_byte(id, SMS_STS_TORQUE_ENABLE, enable)
    }

    /// Opens the permanent registers of device `id` for writing: a write of
    /// zero to the lock register. The result is that of [`SCS::ack`].
    pub fn unlock_eprom(&mut self, id: u8) -> (r: i32)
        ensures
            writes(old(self).scs@, final(self).scs@, r, id, seq![55u8, 0u8]),
            final(self).mem == old(self).mem,
    {
        self.scs.write_byte(id, SMS_STS_LOCK, 0)
    }

    /// Closes the permanent registers of device `id`: a write of one to the
    /// lock register. The result is that of [`SCS::ack`].
    pub fn lock_eprom(&mut self, id: u8) -> (r: i32)
        ensures
            writes(old(self).scs@, final(self).scs@, r, id, seq![55u8, 1u8]),
            final(self).mem == old(self).mem,
    {
        self.scs.write_byte(id, SMS_STS_LOCK, 1)
    }

    /// One step of reading the fifteen registers from the present position
    /// on of device `id` into `mem`: 15 once they are there, -1 while there
    /// is no intact answer.
    pub fn feed_back(&mut self, id: u8) -> (r: i32)
        ensures
            final(self).scs@ == read_step(old(self).scs@, id, 56, 15),
            ({
                let requested = after_request(
                    old(self).scs@,
                    frame_of(id, 0x02, seq![56u8, 15u8]),
                );
                if read_done(requested, 15) {
                    r == 15 && final(self).mem@ == read_data(requested, 15)
                } else {
                    r == -1 && final(self).mem@ == old(self).mem@
                }
            }),
    {
        feed_back(&mut self.scs, &mut self.mem, id, SMS_STS_PRESENT_POSITION_L)
    }

    /// One step of reading the position of device `id`, a magnitude with
    /// direction bit 15; -1 while there is no intact answer.
    pub fn read_pos(&mut self, id: u8) -> (r: i32)
        ensures
            r == signed_step(old(self).scs@, id, 56, 15),
            final(self).scs@ == read_step(old(self).scs@, id, 56, 2),
            final(self).mem == old(self).mem,
    {
        read_signed(&mut self.scs, id, SMS_STS_PRESENT_POSITION_L, SIGN_BIT)
    }

    /// One step of reading the speed of device `id`, a magnitude with
    /// direction bit 15; -1 while there is no intact answer.
    pub fn read_speed(&mut self, id: u8) -> (r: i32)
        ensures
            r == signed_step(old(self).scs@, id, 58, 15),
            final(self).scs@ == read_step(old(self).scs@, id, 58, 2),
            final(self).mem == old(self).mem,
    {
        read_signed(&mut self.scs, id, SMS_STS_PRESENT_SPEED_L, SIGN_BIT)
    }

    /// One step of reading the load of device `id`, a magnitude with
    /// direction bit 10; -1 while there is no intact answer.
    pub fn read_load(&mut self, id: u8) -> (r: i32)
        ensures
            r == signed_step(old(self).scs@, id, 60, 10),
            final(self).scs@ == read_step(old(self).scs@, id, 60, 2),
            final(self).mem == old(self).mem,
    {
        read_signed(&mut self.scs, id, SMS_STS_PRESENT_LOAD_L, LOAD_SIGN_BIT)
    }

    /// One step of reading the supply voltage of device `id`; -1 while
    /// there is no intact answer.
    pub fn read_voltage(&mut self, id: u8) -> (r: i32)
        ensures
            r == byte_step(old(self).scs@, id, 62),
            final(self).scs@ == read_step(old(self).scs@, id, 62, 1),
            final(self).mem == old(self).mem,
    {
        read_register(&mut self.scs, id, SMS_STS_PRESENT_VOLTAGE)
    }

    /// One step of reading the temperature of device `id`; -1 while there
    /// is no intact answer.
    pub fn read_temper(&mut self, id: u8) -> (r: i32)
        ensures
            r == byte_step(old(self).scs@, id, 63),
            final(self).scs@ == read_step(old(self).scs@, id, 63, 1),
            final(self).mem == old(self).mem,
    {
        read_register(&mut self.scs, id, SMS_STS_PRESENT_TEMPERATURE)
    }

    /// One step of reading whether device `id` is moving; -1 while there is
    /// no intact answer.
    pub fn read_move(&mut self, id: u8) -> (r: i32)
        ensures
            r == byte_step(old(self).scs@, id, 66),
            final(self).scs@ == read_step(old(self).scs@, id, 66, 1),
            final(self).mem == old(self).mem,
    {
        read_register(&mut self.scs, id, SMS_STS_MOVING)
    }

    /// One step of reading the current of device `id`, a magnitude with
    /// direction bit 15; -1 while there is no intact answer.
    pub fn read_current(&mut self, id: u8) -> (r: i32)
        ensures
            r == signed_step(old(self).scs@, id, 69, 15),
            final(self).scs@ == read_step(old(self).scs@, id, 69, 2),
            final(self).mem == old(self).mem,
    {
        read_signed(&mut self.scs, id, SMS_STS_PRESENT_CURRENT_L, SIGN_BIT)
    }
}

} // verus!
