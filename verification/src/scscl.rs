//! The SCSCL family: register addresses and the operations on them. Words
//! travel high byte first.

use vstd::prelude::*;
use crate::group_sync_write::{distinct, sync_write_params, GroupSyncWrite};
use crate::port_handler::PortHandler;
use crate::protocol_packet_handler::{
    exchanges, instruction_tx_port, instruction_tx_result, reads, sends, word_params,
    ProtocolPacketHandler,
};
use crate::scservo_def::COMM;
use crate::transfer::{
    byte_read, bytes_of_word, read_byte, read_signed, read_word, signed_read, word_bytes,
    word_read,
};
use crate::word::{spec_lobyte, Endian};

verus! {

pub const SCSCL_1M: u8 = 0;

pub const SCSCL_0_5M: u8 = 1;

pub const SCSCL_250K: u8 = 2;

pub const SCSCL_128K: u8 = 3;

pub const SCSCL_115200: u8 = 4;

pub const SCSCL_76800: u8 = 5;

pub const SCSCL_57600: u8 = 6;

pub const SCSCL_38400: u8 = 7;

pub const SCSCL_MODEL_L: u8 = 3;

pub const SCSCL_MODEL_H: u8 = 4;

pub const SCSCL_ID: u8 = 5;

pub const SCSCL_BAUD_RATE: u8 = 6;

pub const SCSCL_MIN_ANGLE_LIMIT_L: u8 = 9;

pub const SCSCL_MIN_ANGLE_LIMIT_H: u8 = 10;

pub const SCSCL_MAX_ANGLE_LIMIT_L: u8 = 11;

pub const SCSCL_MAX_ANGLE_LIMIT_H: u8 = 12;

pub const SCSCL_CW_DEAD: u8 = 26;

pub const SCSCL_CCW_DEAD: u8 = 27;

pub const SCSCL_OFS_L: u8 = 31;

pub const SCSCL_OFS_H: u8 = 32;

pub const SCSCL_MODE: u8 = 33;

pub const SCSCL_TORQUE_ENABLE: u8 = 40;

pub const SCSCL_ACC: u8 = 41;

pub const SCSCL_GOAL_POSITION_L: u8 = 42;

pub const SCSCL_GOAL_POSITION_H: u8 = 43;

pub const SCSCL_GOAL_TIME_L: u8 = 44;

pub const SCSCL_GOAL_TIME_H: u8 = 45;

pub const SCSCL_GOAL_SPEED_L: u8 = 46;

pub const SCSCL_GOAL_SPEED_H: u8 = 47;

pub const SCSCL_LOCK: u8 = 55;

pub const SCSCL_PRESENT_POSITION_L: u8 = 56;

pub const SCSCL_PRESENT_POSITION_H: u8 = 57;

pub const SCSCL_PRESENT_SPEED_L: u8 = 58;

pub const SCSCL_PRESENT_SPEED_H: u8 = 59;

pub const SCSCL_PRESENT_LOAD_L: u8 = 60;

pub const SCSCL_PRESENT_LOAD_H: u8 = 61;

pub const SCSCL_PRESENT_VOLTAGE: u8 = 62;

pub const SCSCL_PRESENT_TEMPERATURE: u8 = 63;

pub const SCSCL_MOVING: u8 = 66;

pub const SCSCL_PRESENT_CURRENT_L: u8 = 69;

pub const SCSCL_PRESENT_CURRENT_H: u8 = 70;

/// Number of registers of one move, from the acceleration on.
pub const MOVE_LENGTH: u8 = 6;

/// Position of the direction bit of positions, speeds and currents.
pub const SIGN_BIT: u32 = 15;

/// Position of the direction bit of loads.
pub const LOAD_SIGN_BIT: u32 = 10;

/// The six registers of one move from the acceleration on: acceleration
/// zero, position and time as words, and the first byte of the speed.
pub open spec fn move_payload(position: i32, time: u32, speed: u32, end: Endian) -> Seq<u8> {
    seq![0u8] + word_bytes(position as int, end) + word_bytes(time as int, end) + seq![
        spec_lobyte(speed as int, end) as u8,
    ]
}

/// The payloads of the moves of a group.
pub open spec fn move_payloads(
    positions: Seq<i32>,
    times: Seq<u32>,
    speeds: Seq<u32>,
    end: Endian,
) -> Seq<Seq<u8>> {
    Seq::new(positions.len(), |i: int| move_payload(positions[i], times[i], speeds[i], end))
}

/// The registers of one move.
pub fn move_data(ph: &ProtocolPacketHandler, position: i32, time: u32, speed: u32) -> (v: Vec<u8>)
    ensures
        v@ == move_payload(position, time, speed, ph.scs_end),
        v@.len() == 6,
{
    let mut v: Vec<u8> = Vec::new();
    v.push(0);
    v.push(ph.scs_lobyte(position) as u8);
    v.push(ph.scs_hibyte(position) as u8);
    let (t0, t1) = bytes_of_word(time, ph.scs_end);
    v.push(t0);
    v.push(t1);
    let (s0, s1) = bytes_of_word(speed, ph.scs_end);
    v.push(s0);
    proof {
        let end = ph.scs_end;
        assert(seq![t0, t1][0] == t0 && seq![t0, t1][1] == t1);
        assert(seq![s0, s1][0] == s0);
        assert(v@ =~= move_payload(position, time, speed, end));
    }
    v
}

/// Result of a sequence of writes, each sent only after the one before has
/// succeeded: that of the first, which is that of all.
pub open spec fn writes_result(pre: ProtocolPacketHandler) -> COMM {
    instruction_tx_result(pre.port_handler@, 0, 0x03, Seq::empty())
}

/// Servos of the SCSCL family on a bus.
#[derive(Debug)]
pub struct Scscl {
    group_sync_write: GroupSyncWrite,
}

impl Scscl {
    /// The protocol layer of the bus.
    pub closed spec fn handler(&self) -> ProtocolPacketHandler {
        self.group_sync_write.handler()
    }

    /// The devices whose moves the group holds.
    pub closed spec fn group_ids(&self) -> Seq<u8> {
        self.group_sync_write.ids()
    }

    /// The moves that the group holds, in the order of [`Self::group_ids`].
    pub closed spec fn group_payloads(&self) -> Seq<Seq<u8>> {
        self.group_sync_write.payloads()
    }

    /// What holds of every value: moves are written in windows of six
    /// registers from the acceleration on.
    pub closed spec fn wf(&self) -> bool {
        &&& self.group_sync_write.wf()
        &&& self.group_sync_write.start() == 41
        &&& self.group_sync_write.data_length() == 6
    }

    /// Servos on the bus of `port_handler`.
    pub fn new(port_handler: PortHandler) -> (s: Self)
        ensures
            s.wf(),
            s.handler().port_handler == port_handler,
            s.handler().scs_end == Endian::BigEndian,
            s.handler().pending@ == Seq::<u8>::empty(),
            s.group_ids() == Seq::<u8>::empty(),
            s.group_payloads() == Seq::<Seq<u8>>::empty(),
    {
        let ph = ProtocolPacketHandler::new(port_handler, Endian::BigEndian);
        Scscl { group_sync_write: GroupSyncWrite::new(ph, SCSCL_ACC, MOVE_LENGTH) }
    }

    /// The port of the bus.
    pub fn get_port_handler(&self) -> (p: &PortHandler)
        ensures
            *p == self.handler().port_handler,
    {
        &self.group_sync_write.get_handler().port_handler
    }

    /// Hands the port of the bus out for the caller to move bytes between it
    /// and the wire.
    pub fn get_port_handler_mut(&mut self) -> (p: &mut PortHandler)
        ensures
            *p == old(self).handler().port_handler,
            final(self).handler().port_handler == *final(p),
            final(self).handler().scs_end == old(self).handler().scs_end,
            final(self).handler().pending == old(self).handler().pending,
            final(self).wf() == old(self).wf(),
            final(self).group_ids() == old(self).group_ids(),
            final(self).group_payloads() == old(self).group_payloads(),
    {
        &mut self.group_sync_write.get_handler_mut().port_handler
    }

    /// Adds the move of device `scs_id` to `position` in `time` at `speed`
    /// to the group and writes the whole group in one broadcast.
    ///
    /// If the group holds a move of that device already, the result is
    /// `TxError` and nothing changes.
    pub fn write_pos(&mut self, scs_id: u8, position: i32, time: u32, speed: u32) -> (r: COMM)
        requires
            old(self).wf(),
        ensures
            final(self).wf(),
            old(self).group_ids().contains(scs_id) ==> {
                &&& r == COMM::TxError
                &&& final(self).handler() == old(self).handler()
                &&& final(self).group_ids() == old(self).group_ids()
                &&& final(self).group_payloads() == old(self).group_payloads()
            },
            !old(self).group_ids().contains(scs_id) ==> {
                let pre = old(self).handler();
                &&& final(self).group_ids() == old(self).group_ids().push(scs_id)
                &&& final(self).group_payloads() == old(self).group_payloads().push(
                    move_payload(position, time, speed, pre.scs_end),
                )
                &&& sends(
                    pre,
                    final(self).handler(),
                    r,
                    0xFE,
                    0x83,
                    sync_write_params(41, 6, final(self).group_ids(), final(self).group_payloads()),
                )
            },
    {
        let data = move_data(self.group_sync_write.get_handler(), position, time, speed);
        match self.group_sync_write.add_param(scs_id, data) {
            Ok(_) => self.group_sync_write.tx_packet(),
            Err(_) => COMM::TxError,
        }
    }

    /// One step of reading the position of device `scs_id`, a magnitude with
    /// direction bit 15.
    pub fn read_pos(&mut self, scs_id: u8) -> (r: Result<i32, COMM>)
        ensures
            final(self).wf() == old(self).wf(),
            final(self).group_ids() == old(self).group_ids(),
            final(self).group_payloads() == old(self).group_payloads(),
            reads(old(self).handler(), final(self).handler(), scs_id, 56, 2),
            match signed_read(old(self).handler(), scs_id, 56, 15) {
                Ok(v) => r == Ok::<i32, COMM>(v as i32),
                Err(e) => r == Err::<i32, COMM>(e),
            },
    {
        read_signed(
            self.group_sync_write.get_handler_mut(),
            scs_id,
            SCSCL_PRESENT_POSITION_L,
            SIGN_BIT,
        )
    }

    /// One step of reading the speed of device `scs_id`, a magnitude with
    /// direction bit 15.
    pub fn read_speed(&mut self, scs_id: u8) -> (r: Result<i32, COMM>)
        ensures
            final(self).wf() == old(self).wf(),
            final(self).group_ids() == old(self).group_ids(),
            final(self).group_payloads() == old(self).group_payloads(),
            reads(old(self).handler(), final(self).handler(), scs_id, 58, 2),
            match signed_read(old(self).handler(), scs_id, 58, 15) {
                Ok(v) => r == Ok::<i32, COMM>(v as i32),
                Err(e) => r == Err::<i32, COMM>(e),
            },
    {
        read_signed(
            self.group_sync_write.get_handler_mut(),
            scs_id,
            SCSCL_PRESENT_SPEED_L,
            SIGN_BIT,
        )
    }

    /// One step of reading the load of device `scs_id`, a magnitude with
    /// direction bit 10.
    pub fn read_load(&mut self, scs_id: u8) -> (r: Result<i32, COMM>)
        ensures
            final(self).wf() == old(self).wf(),
            final(self).group_ids() == old(self).group_ids(),
            final(self).group_payloads() == old(self).group_payloads(),
            reads(old(self).handler(), final(self).handler(), scs_id, 60, 2),
            match signed_read(old(self).handler(), scs_id, 60, 10) {
                Ok(v) => r == Ok::<i32, COMM>(v as i32),
                Err(e) => r == Err::<i32, COMM>(e),
            },
    {
        read_signed(
            self.group_sync_write.get_handler_mut(),
            scs_id,
            SCSCL_PRESENT_LOAD_L,
            LOAD_SIGN_BIT,
        )
    }

    /// One step of reading the supply voltage of device `scs_id`.
    pub fn read_voltage(&mut self, scs_id: u8) -> (r: Result<u8, COMM>)
        ensures
            final(self).wf() == old(self).wf(),
            final(self).group_ids() == old(self).group_ids(),
            final(self).group_payloads() == old(self).group_payloads(),
            reads(old(self).handler(), final(self).handler(), scs_id, 62, 1),
            r == byte_read(old(self).handler(), scs_id, 62),
    {
        read_byte(self.group_sync_write.get_handler_mut(), scs_id, SCSCL_PRESENT_VOLTAGE)
    }

    /// One step of reading the temperature of device `scs_id`.
    pub fn read_temperature(&mut self, scs_id: u8) -> (r: Result<u8, COMM>)
        ensures
            final(self).wf() == old(self).wf(),
            final(self).group_ids() == old(self).group_ids(),
            final(self).group_payloads() == old(self).group_payloads(),
            reads(old(self).handler(), final(self).handler(), scs_id, 63, 1),
            r == byte_read(old(self).handler(), scs_id, 63),
    {
        read_byte(self.group_sync_write.get_handler_mut(), scs_id, SCSCL_PRESENT_TEMPERATURE)
    }

    /// One step of reading whether device `scs_id` is moving.
    pub fn read_moving(&mut self, scs_id: u8) -> (r: Result<bool, COMM>)
        ensures
            final(self).wf() == old(self).wf(),
            final(self).group_ids() == old(self).group_ids(),
            final(self).group_payloads() == old(self).group_payloads(),
            reads(old(self).handler(), final(self).handler(), scs_id, 66, 1),
            match byte_read(old(self).handler(), scs_id, 66) {
                Ok(b) => r == Ok::<bool, COMM>(b != 0),
                Err(e) => r == Err::<bool, COMM>(e),
            },
    {
        match read_byte(self.group_sync_write.get_handler_mut(), scs_id, SCSCL_MOVING) {
            Ok(b) => Ok(b != 0),
            Err(e) => Err(e),
        }
    }

    /// One step of reading the current of device `scs_id`, a magnitude with
    /// direction bit 15.
    pub fn read_current(&mut self, scs_id: u8) -> (r: Result<i32, COMM>)
        ensures
            final(self).wf() == old(self).wf(),
            final(self).group_ids() == old(self).group_ids(),
            final(self).group_payloads() == old(self).group_payloads(),
            reads(old(self).handler(), final(self).handler(), scs_id, 69, 2),
            match signed_read(old(self).handler(), scs_id, 69, 15) {
                Ok(v) => r == Ok::<i32, COMM>(v as i32),
                Err(e) => r == Err::<i32, COMM>(e),
            },
    {
        read_signed(
            self.group_sync_write.get_handler_mut(),
            scs_id,
            SCSCL_PRESENT_CURRENT_L,
            SIGN_BIT,
        )
    }

    /// One step of reading the model number of device `scs_id`.
    pub fn read_model(&mut self, scs_id: u8) -> (r: Result<u16, COMM>)
        ensures
            final(self).wf() == old(self).wf(),
            final(self).group_ids() == old(self).group_ids(),
            final(self).group_payloads() == old(self).group_payloads(),
            reads(old(self).handler(), final(self).handler(), scs_id, 3, 2),
            match word_read(old(self).handler(), scs_id, 3) {
                Ok(w) => r == Ok::<u16, COMM>(w as u16),
                Err(e) => r == Err::<u16, COMM>(e),
            },
    {
        read_word(self.group_sync_write.get_handler_mut(), scs_id, SCSCL_MODEL_L)
    }

    /// Replaces the group by the moves of the devices `scs_ids`, device `i`
    /// to `positions[i]` in `times[i]` at `speeds[i]`, and writes it in one
    /// broadcast.
    ///
    /// The result is `TxError`, and nothing is sent, if the four lists
    /// differ in length or a device occurs twice; `NotAvailable` if they are
    /// empty; else that of the transmission.
    pub fn sync_write_pos(
        &mut self,
        scs_ids: Vec<u8>,
        positions: Vec<i32>,
        times: Vec<u32>,
        speeds: Vec<u32>,
    ) -> (r: COMM)
        requires
            old(self).wf(),
        ensures
            final(self).wf(),
            ({
                let n = scs_ids@.len();
                let pre = old(self).handler();
                if n != positions@.len() || n != times@.len() || n != speeds@.len() || !distinct(
                    scs_ids@,
                ) {
                    r == COMM::TxError && final(self).handler() == pre
                } else if n == 0 {
                    r == COMM::NotAvailable && final(self).handler() == pre
                } else {
                    &&& final(self).group_ids() == scs_ids@
                    &&& final(self).group_payloads() == move_payloads(
                        positions@,
                        times@,
                        speeds@,
                        pre.scs_end,
                    )
                    &&& sends(
                        pre,
                        final(self).handler(),
                        r,
                        0xFE,
                        0x83,
                        sync_write_params(
                            41,
                            6,
                            scs_ids@,
                            move_payloads(positions@, times@, speeds@, pre.scs_end),
                        ),
                    )
                }
            }),
    {
        let n = scs_ids.len();
        if n != positions.len() || positions.len() != times.len() || times.len() != speeds.len() {
            return COMM::TxError;
        }
        self.group_sync_write.clear_param();
        let ghost end = self.handler().scs_end;
        let ghost payloads = move_payloads(positions@, times@, speeds@, end);
        let mut i: usize = 0;
        while i < n
            invariant
                i <= n == scs_ids@.len(),
                n == positions@.len(),
                n == times@.len(),
                n == speeds@.len(),
                self.wf(),
                self.handler() == old(self).handler(),
                end == self.handler().scs_end,
                payloads == move_payloads(positions@, times@, speeds@, end),
                self.group_sync_write.ids() == scs_ids@.subrange(0, i as int),
                self.group_sync_write.payloads() == payloads.subrange(0, i as int),
                distinct(scs_ids@.subrange(0, i as int)),
            decreases n - i,
        {
            let data = move_data(
                self.group_sync_write.get_handler(),
                positions[i],
                times[i],
                speeds[i],
            );
            let ghost before = scs_ids@.subrange(0, i as int);
            match self.group_sync_write.add_param(scs_ids[i], data) {
                Err(_) => {
                    proof {
                        assert(before.contains(scs_ids@[i as int]));
                        let j = choose|j: int| 0 <= j < before.len() && before[j] == scs_ids@[i as int];
                        assert(scs_ids@[j] == scs_ids@[i as int]);
                    }
                    return COMM::TxError;
                },
                Ok(_) => {
                    proof {
                        let now = scs_ids@.subrange(0, i + 1);
                        assert(now =~= before.push(scs_ids@[i as int]));
                        assert(payloads.subrange(0, i + 1) =~= payloads.subrange(0, i as int).push(
                            data@,
                        ));
                        assert forall|a: int, b: int| 0 <= a < b < now.len() implies now[a]
                            != now[b] by {
                            if b == i {
                                if now[a] == now[b] {
                                    assert(before[a] == scs_ids@[i as int]);
                                    assert(before.contains(scs_ids@[i as int]));
                                }
                            } else {
                                assert(before[a] != before[b]);
                            }
                        }
                    }
                },
            }
            i = i + 1;
        }
        proof {
            assert(scs_ids@.subrange(0, n as int) =~= scs_ids@);
            assert(payloads.subrange(0, n as int) =~= payloads);
        }
        self.group_sync_write.tx_packet()
    }

    /// A write of the byte `value` at `address` of device `scs_id`.
    fn write_register(&mut self, scs_id: u8, address: u8, value: u8) -> (r: COMM)
        ensures
            final(self).wf() == old(self).wf(),
            final(self).group_ids() == old(self).group_ids(),
            final(self).group_payloads() == old(self).group_payloads(),
            sends(
                old(self).handler(),
                final(self).handler(),
                r,
                scs_id,
                0x03,
                seq![address, value],
            ),
    {
        self.group_sync_write.get_handler_mut().write_1byte_tx_rx(scs_id, address, value)
    }

    /// A write of the word `value` at `address` of device `scs_id`.
    fn write_word_register(&mut self, scs_id: u8, address: u8, value: u16) -> (r: COMM)
        ensures
            final(self).wf() == old(self).wf(),
            final(self).group_ids() == old(self).group_ids(),
            final(self).group_payloads() == old(self).group_payloads(),
            sends(
                old(self).handler(),
                final(self).handler(),
                r,
                scs_id,
                0x03,
                word_params(address, value, old(self).handler().scs_end),
            ),
    {
        self.group_sync_write.get_handler_mut().write_2byte_tx_rx(scs_id, address, value)
    }

    /// Sets the operating mode of device `scs_id`.
    pub fn wheel_mode(&mut self, scs_id: u8, mode: u8) -> (r: COMM)
        ensures
            final(self).wf() == old(self).wf(),
            sends(old(self).handler(), final(self).handler(), r, scs_id, 0x03, seq![33u8, mode]),
    {
        self.write_register(scs_id, SCSCL_MODE, mode)
    }

    /// Switches the torque of device `scs_id` on or off.
    pub fn write_torque_enable(&mut self, scs_id: u8, enable: bool) -> (r: COMM)
        ensures
            final(self).wf() == old(self).wf(),
            sends(
                old(self).handler(),
                final(self).handler(),
                r,
                scs_id,
                0x03,
                seq![
                    40u8,
                    if enable {
                        1u8
                    } else {
                        0u8
                    },
                ],
            ),
    {
        let value: u8 = if enable {
            1
        } else {
            0
        };
        self.write_register(scs_id, SCSCL_TORQUE_ENABLE, value)
    }

    /// Sets the angle limits of device `scs_id`: the lower, then the upper,
    /// each the low 16 bits of the value. If the first write does not
    /// succeed, its result is returned and the second is not sent.
    pub fn write_angle_limit(&mut self, scs_id: u8, min_angle: i32, max_angle: i32) -> (r: COMM)
        ensures
            final(self).wf() == old(self).wf(),
            r == writes_result(old(self).handler()),
            final(self).handler().scs_end == old(self).handler().scs_end,
            final(self).handler().pending@ == old(self).handler().pending@,
            ({
                let pre = old(self).handler();
                let after_first = instruction_tx_port(
                    pre.port_handler@,
                    scs_id,
                    0x03,
                    word_params(9, min_angle as u16, pre.scs_end),
                );
                let after_second = instruction_tx_port(
                    after_first,
                    scs_id,
                    0x03,
                    word_params(11, max_angle as u16, pre.scs_end),
                );
                final(self).handler().port_handler@ == if r is Success {
                    after_second
                } else {
                    after_first
                }
            }),
    {
        let first = self.write_word_register(
            scs_id,
            SCSCL_MIN_ANGLE_LIMIT_L,
            #[verifier::truncate]
            (min_angle as u16),
        );
        if first != COMM::Success {
            return first;
        }
        self.write_word_register(
            scs_id,
            SCSCL_MAX_ANGLE_LIMIT_L,
            #[verifier::truncate]
            (max_angle as u16),
        )
    }

    /// Sets the dead zones of device `scs_id`: the clockwise, then the
    /// counterclockwise. If the first write does not succeed, its result is
    /// returned and the second is not sent.
    pub fn write_dead_zone(&mut self, scs_id: u8, cw_dead: u8, ccw_dead: u8) -> (r: COMM)
        ensures
            final(self).wf() == old(self).wf(),
            r == writes_result(old(self).handler()),
            final(self).handler().scs_end == old(self).handler().scs_end,
            final(self).handler().pending@ == old(self).handler().pending@,
            ({
                let pre = old(self).handler();
                let after_first = instruction_tx_port(pre.port_handler@, scs_id, 0x03, seq![26u8, cw_dead]);
                let after_second = instruction_tx_port(after_first, scs_id, 0x03, seq![27u8, ccw_dead]);
                final(self).handler().port_handler@ == if r is Success {
                    after_second
                } else {
                    after_first
                }
            }),
    {
        let first = self.write_register(scs_id, SCSCL_CW_DEAD, cw_dead);
        if first != COMM::Success {
            return first;
        }
        self.write_register(scs_id, SCSCL_CCW_DEAD, ccw_dead)
    }

    /// Sets the position offset of device `scs_id` to the low 16 bits of
    /// `offset`.
    pub fn write_offset(&mut self, scs_id: u8, offset: i32) -> (r: COMM)
        ensures
            final(self).wf() == old(self).wf(),
            sends(
                old(self).handler(),
                final(self).handler(),
                r,
                scs_id,
                0x03,
                word_params(31, offset as u16, old(self).handler().scs_end),
            ),
    {
        self.write_word_register(scs_id, SCSCL_OFS_L, #[verifier::truncate] (offset as u16))
    }

    /// Closes the permanent registers of device `scs_id`.
    pub fn lock_eprom(&mut self, scs_id: u8) -> (r: COMM)
        ensures
            final(self).wf() == old(self).wf(),
            sends(old(self).handler(), final(self).handler(), r, scs_id, 0x03, seq![55u8, 1u8]),
    {
        self.write_register(scs_id, SCSCL_LOCK, 1)
    }

    /// Opens the permanent registers of device `scs_id` for writing.
    pub fn unlock_eprom(&mut self, scs_id: u8) -> (r: COMM)
        ensures
            final(self).wf() == old(self).wf(),
            sends(old(self).handler(), final(self).handler(), r, scs_id, 0x03, seq![55u8, 0u8]),
    {
        self.write_register(scs_id, SCSCL_LOCK, 0)
    }

    /// Sets the baud-rate register of device `scs_id`.
    pub fn write_baudrate(&mut self, scs_id: u8, baudrate: u8) -> (r: COMM)
        ensures
            final(self).wf() == old(self).wf(),
            sends(
                old(self).handler(),
                final(self).handler(),
                r,
                scs_id,
                0x03,
                seq![6u8, baudrate],
            ),
    {
        self.write_register(scs_id, SCSCL_BAUD_RATE, baudrate)
    }

    /// Gives device `scs_id` the id `new_id`.
    pub fn write_id(&mut self, scs_id: u8, new_id: u8) -> (r: COMM)
        ensures
            final(self).wf() == old(self).wf(),
            sends(old(self).handler(), final(self).handler(), r, scs_id, 0x03, seq![5u8, new_id]),
    {
        self.write_register(scs_id, SCSCL_ID, new_id)
    }

    /// One step of a ping of device `scs_id`.
    pub fn ping(&mut self, scs_id: u8) -> (r: COMM)
        ensures
            final(self).wf() == old(self).wf(),
            exchanges(old(self).handler(), final(self).handler(), r, scs_id, 0x01, Seq::empty()),
    {
        self.group_sync_write.get_handler_mut().ping(scs_id)
    }

    /// Writes the goal position of device `scs_id`, the low 16 bits of
    /// `position`. Time and speed are left as they are in the device.
    pub fn reg_write_pos(&mut self, scs_id: u8, position: i32, time: u32, speed: u32) -> (r: COMM)
        ensures
            final(self).wf() == old(self).wf(),
            sends(
                old(self).handler(),
                final(self).handler(),
                r,
                scs_id,
                0x03,
                word_params(42, position as u16, old(self).handler().scs_end),
            ),
    {
        self.write_word_register(
            scs_id,
            SCSCL_GOAL_POSITION_L,
            #[verifier::truncate]
            (position as u16),
        )
    }

    /// Tells device `scs_id` to carry out what was registered.
    pub fn reg_action(&mut self, scs_id: u8) -> (r: COMM)
        ensures
            final(self).wf() == old(self).wf(),
            sends(old(self).handler(), final(self).handler(), r, scs_id, 0x05, Seq::empty()),
    {
        self.group_sync_write.get_handler_mut().action(scs_id)
    }
}

} // verus!
