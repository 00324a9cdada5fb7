//! The SMS/STS family: register addresses and the operations on them.
//! Words travel low byte first.

use vstd::prelude::*;
use crate::group_sync_write::{distinct, flattened, sync_write_params, GroupSyncWrite};
use crate::port_handler::PortHandler;
use crate::protocol_packet_handler::{
    exchanges, instruction_tx_port, instruction_tx_result, reads, reply_of, result_of, sends,
    word_params, ProtocolPacketHandler,
};
use crate::scservo_def::COMM;
use crate::transfer::{
    byte_read, bytes_of_word, read_byte, read_signed, signed_read, word_bytes,
};
use crate::word::{lemma_mask_is_pow2, make_word, spec_make_word, spec_to_host, to_host, Endian};

verus! {

pub const SMS_STS_1M: u8 = 0;

pub const SMS_STS_0_5M: u8 = 1;

pub const SMS_STS_250K: u8 = 2;

pub const SMS_STS_128K: u8 = 3;

pub const SMS_STS_115200: u8 = 4;

pub const SMS_STS_76800: u8 = 5;

pub const SMS_STS_57600: u8 = 6;

pub const SMS_STS_38400: u8 = 7;

pub const SMS_STS_MODEL_L: u8 = 3;

pub const SMS_STS_MODEL_H: u8 = 4;

pub const SMS_STS_ID: u8 = 5;

pub const SMS_STS_BAUD_RATE: u8 = 6;

pub const SMS_STS_MIN_ANGLE_LIMIT_L: u8 = 9;

pub const SMS_STS_MIN_ANGLE_LIMIT_H: u8 = 10;

pub const SMS_STS_MAX_ANGLE_LIMIT_L: u8 = 11;

pub const SMS_STS_MAX_ANGLE_LIMIT_H: u8 = 12;

pub const SMS_STS_CW_DEAD: u8 = 26;

pub const SMS_STS_CCW_DEAD: u8 = 27;

pub const SMS_STS_OFS_L: u8 = 31;

pub const SMS_STS_OFS_H: u8 = 32;

pub const SMS_STS_MODE: u8 = 33;

pub const SMS_STS_TORQUE_ENABLE: u8 = 40;

pub const SMS_STS_ACC: u8 = 41;

pub const SMS_STS_GOAL_POSITION_L: u8 = 42;

pub const SMS_STS_GOAL_POSITION_H: u8 = 43;

pub const SMS_STS_GOAL_TIME_L: u8 = 44;

pub const SMS_STS_GOAL_TIME_H: u8 = 45;

pub const SMS_STS_GOAL_SPEED_L: u8 = 46;

pub const SMS_STS_GOAL_SPEED_H: u8 = 47;

pub const SMS_STS_LOCK: u8 = 55;

pub const SMS_STS_PRESENT_POSITION_L: u8 = 56;

pub const SMS_STS_PRESENT_POSITION_H: u8 = 57;

pub const SMS_STS_PRESENT_SPEED_L: u8 = 58;

pub const SMS_STS_PRESENT_SPEED_H: u8 = 59;

pub const SMS_STS_PRESENT_LOAD_L: u8 = 60;

pub const SMS_STS_PRESENT_LOAD_H: u8 = 61;

pub const SMS_STS_PRESENT_VOLTAGE: u8 = 62;

pub const SMS_STS_PRESENT_TEMPERATURE: u8 = 63;

pub const SMS_STS_MOVING: u8 = 66;

pub const SMS_STS_PRESENT_CURRENT_L: u8 = 69;

pub const SMS_STS_PRESENT_CURRENT_H: u8 = 70;

/// Number of registers of one move: acceleration, position, time, speed.
pub const MOVE_LENGTH: u8 = 7;

/// Position of the direction bit of positions, speeds and currents.
pub const SIGN_BIT: u32 = 15;

/// Position of the direction bit of loads.
pub const LOAD_SIGN_BIT: u32 = 10;

/// The registers of one move: acceleration zero, then position, time and
/// speed as words.
pub open spec fn move_payload(position: i32, time: u32, speed: u32, end: Endian) -> Seq<u8> {
    seq![0u8] + word_bytes(position as int, end) + word_bytes(time as int, end) + word_bytes(
        speed as int,
        end,
    )
}

/// The payloads of the moves of a group.
pub open spec fn move_payloads(
    positions: Seq<i32>,
    times: Seq<u32>,
    speeds: Seq<u32>,
    end: Endian,
) -> Seq<Seq<u8>> {
    Seq::new(positions.len(), |i: int| move_payload(positions[i], times[i], speeds[i], end))
}

/// The registers of one move.
pub fn move_data(ph: &ProtocolPacketHandler, position: i32, time: u32, speed: u32) -> (v: Vec<u8>)
    ensures
        v@ == move_payload(position, time, speed, ph.scs_end),
        v@.len() == 7,
{
    let mut v: Vec<u8> = Vec::new();
    v.push(0);
    v.push(ph.scs_lobyte(position) as u8);
    v.push(ph.scs_hibyte(position) as u8);
    let (t0, t1) = bytes_of_word(time, ph.scs_end);
    v.push(t0);
    v.push(t1);
    let (s0, s1) = bytes_of_word(speed, ph.scs_end);
    v.push(s0);
    v.push(s1);
    proof {
        let end = ph.scs_end;
        assert(seq![t0, t1][0] == t0 && seq![t0, t1][1] == t1);
        assert(seq![s0, s1][0] == s0 && seq![s0, s1][1] == s1);
        assert(v@ =~= move_payload(position, time, speed, end));
    }
    v
}

/// The position and the speed that the reply `data` with result `result`
/// to a read of the four registers from the present position carries;
/// `RxCorrupt` for a successful reply with fewer than four parameter bytes.
pub open spec fn reply_pos_speed(data: Seq<u8>, result: COMM, end: Endian) -> Result<
    (int, int),
    COMM,
> {
    if !(result is Success) {
        Err(result)
    } else if data.len() < 10 {
        Err(COMM::RxCorrupt)
    } else {
        Ok(
            (
                spec_to_host(spec_make_word(data[5] as int, data[6] as int, end), 15),
                spec_to_host(spec_make_word(data[7] as int, data[8] as int, end), 15),
            ),
        )
    }
}

/// Result of the three writes of a registered move, one after the other:
/// that of the first that does not succeed, else success.
pub open spec fn reg_move_result(pre: ProtocolPacketHandler) -> COMM {
    instruction_tx_result(pre.port_handler@, 0, 0x03, Seq::empty())
}

/// Servos of the SMS/STS family on a bus.
#[derive(Debug)]
pub struct SmsSts {
    group_sync_write: GroupSyncWrite,
}

impl SmsSts {
    /// The protocol layer of the bus.
    pub closed spec fn handler(&self) -> ProtocolPacketHandler {
        self.group_sync_write.handler()
    }

    /// What holds of every value: moves are written in windows of seven
    /// registers from the acceleration on, low byte first.
    pub closed spec fn wf(&self) -> bool {
        &&& self.group_sync_write.wf()
        &&& self.group_sync_write.start() == 41
        &&& self.group_sync_write.data_length() == 7
    }

    /// Servos on the bus of `port_handler`.
    pub fn new(port_handler: PortHandler) -> (s: Self)
        ensures
            s.wf(),
            s.handler().port_handler == port_handler,
            s.handler().scs_end == Endian::SmallEndian,
            s.handler().pending@ == Seq::<u8>::empty(),
    {
        let ph = ProtocolPacketHandler::new(port_handler, Endian::SmallEndian);
        SmsSts { group_sync_write: GroupSyncWrite::new(ph, SMS_STS_ACC, MOVE_LENGTH) }
    }

    /// The port of the bus.
    pub fn get_port_handler(&self) -> (p: &PortHandler)
        ensures
            *p == self.handler().port_handler,
    {
        &self.group_sync_write.get_handler().port_handler
    }

    /// Hands the port of the bus out for the caller to move bytes between it
    /// and the wire.
    pub fn get_port_handler_mut(&mut self) -> (p: &mut PortHandler)
        ensures
            *p == old(self).handler().port_handler,
            final(self).handler().port_handler == *final(p),
            final(self).handler().scs_end == old(self).handler().scs_end,
            final(self).handler().pending == old(self).handler().pending,
            final(self).wf() == old(self).wf(),
    {
        &mut self.group_sync_write.get_handler_mut().port_handler
    }

    /// Moves device `scs_id` to `position` in `time` at `speed`: a
    /// synchronous write of one move, to that device alone. Only the low 16
    /// bits of each value are written.
    pub fn write_pos_ex(&mut self, scs_id: u8, position: i32, time: u32, speed: u32) -> (r: COMM)
        requires
            old(self).wf(),
        ensures
            final(self).wf(),
            sends(
                old(self).handler(),
                final(self).handler(),
                r,
                0xFE,
                0x83,
                seq![41u8, 7u8, scs_id] + move_payload(
                    position,
                    time,
                    speed,
                    old(self).handler().scs_end,
                ),
            ),
    {
        let data = move_data(self.group_sync_write.get_handler(), position, time, speed);
        self.group_sync_write.clear_param();
        proof {
            let ids = seq![scs_id];
            let payloads = seq![data@];
            assert(Seq::<u8>::empty().push(scs_id) =~= ids);
            assert(Seq::<Seq<u8>>::empty().push(data@) =~= payloads);
            assert(ids.drop_last() =~= Seq::<u8>::empty());
            assert(flattened(ids.drop_last(), payloads.drop_last()) =~= Seq::<u8>::empty());
            assert(sync_write_params(41, 7, ids, payloads) =~= seq![41u8, 7u8, scs_id] + data@);
        }
        match self.group_sync_write.add_param(scs_id, data) {
            Ok(_) => self.group_sync_write.tx_packet(),
            Err(_) => COMM::TxError,
        }
    }

    /// One step of reading the position of device `scs_id`, a magnitude with
    /// direction bit 15.
    pub fn read_pos(&mut self, scs_id: u8) -> (r: Result<i32, COMM>)
        ensures
            final(self).wf() == old(self).wf(),
            reads(old(self).handler(), final(self).handler(), scs_id, 56, 2),
            match signed_read(old(self).handler(), scs_id, 56, 15) {
                Ok(v) => r == Ok::<i32, COMM>(v as i32),
                Err(e) => r == Err::<i32, COMM>(e),
            },
    {
        read_signed(
            self.group_sync_write.get_handler_mut(),
            scs_id,
            SMS_STS_PRESENT_POSITION_L,
            SIGN_BIT,
        )
    }

    /// One step of reading the speed of device `scs_id`, a magnitude with
    /// direction bit 15.
    pub fn read_speed(&mut self, scs_id: u8) -> (r: Result<i32, COMM>)
        ensures
            final(self).wf() == old(self).wf(),
            reads(old(self).handler(), final(self).handler(), scs_id, 58, 2),
            match signed_read(old(self).handler(), scs_id, 58, 15) {
                Ok(v) => r == Ok::<i32, COMM>(v as i32),
                Err(e) => r == Err::<i32, COMM>(e),
            },
    {
        read_signed(
            self.group_sync_write.get_handler_mut(),
            scs_id,
            SMS_STS_PRESENT_SPEED_L,
            SIGN_BIT,
        )
    }

    /// One step of reading the position and the speed of device `scs_id`
    /// together: a read of the four registers from the present position.
    pub fn read_pos_speed(&mut self, scs_id: u8) -> (r: Result<(i32, i32), COMM>)
        ensures
            final(self).wf() == old(self).wf(),
            reads(old(self).handler(), final(self).handler(), scs_id, 56, 4),
            match reply_pos_speed(
                reply_of(old(self).handler(), scs_id, 0x02, seq![56u8, 4u8]),
                result_of(old(self).handler(), scs_id, 0x02, seq![56u8, 4u8]),
                old(self).handler().scs_end,
            ) {
                Ok(v) => r == Ok::<(i32, i32), COMM>((v.0 as i32, v.1 as i32)),
                Err(e) => r == Err::<(i32, i32), COMM>(e),
            },
    {
        let ph = self.group_sync_write.get_handler_mut();
        let end = ph.scs_getend();
        let (data, result) = ph.read_bytes(scs_id, SMS_STS_PRESENT_POSITION_L, 4);
        if result != COMM::Success {
            return Err(result);
        }
        if data.len() < 10 {
            return Err(COMM::RxCorrupt);
        }
        proof {
            lemma_mask_is_pow2(15);
        }
        let pos = to_host(make_word(data[5] as i32, data[6] as i32, end), SIGN_BIT);
        let speed = to_host(make_word(data[7] as i32, data[8] as i32, end), SIGN_BIT);
        Ok((pos, speed))
    }

    /// One step of reading whether device `scs_id` is moving.
    pub fn read_moving(&mut self, scs_id: u8) -> (r: Result<bool, COMM>)
        ensures
            final(self).wf() == old(self).wf(),
            reads(old(self).handler(), final(self).handler(), scs_id, 66, 1),
            match byte_read(old(self).handler(), scs_id, 66) {
                Ok(b) => r == Ok::<bool, COMM>(b != 0),
                Err(e) => r == Err::<bool, COMM>(e),
            },
    {
        match read_byte(self.group_sync_write.get_handler_mut(), scs_id, SMS_STS_MOVING) {
            Ok(b) => Ok(b != 0),
            Err(e) => Err(e),
        }
    }

    /// Moves the devices `scs_ids` in one broadcast, device `i` to
    /// `positions[i]` in `times[i]` at `speeds[i]`.
    ///
    /// The result is `TxError`, and nothing is sent, if the four lists
    /// differ in length or a device occurs twice; `NotAvailable` if they are
    /// empty; else that of the transmission.
    pub fn sync_write_pos_ex(
        &mut self,
        scs_ids: Vec<u8>,
        positions: Vec<i32>,
        times: Vec<u32>,
        speeds: Vec<u32>,
    ) -> (r: COMM)
        requires
            old(self).wf(),
        ensures
            final(self).wf(),
            ({
                let n = scs_ids@.len();
                let pre = old(self).handler();
                if n != positions@.len() || n != times@.len() || n != speeds@.len() || !distinct(
                    scs_ids@,
                ) {
                    r == COMM::TxError && final(self).handler() == pre
                } else if n == 0 {
                    r == COMM::NotAvailable && final(self).handler() == pre
                } else {
                    sends(
                        pre,
                        final(self).handler(),
                        r,
                        0xFE,
                        0x83,
                        sync_write_params(
                            41,
                            7,
                            scs_ids@,
                            move_payloads(positions@, times@, speeds@, pre.scs_end),
                        ),
                    )
                }
            }),
    {
        let n = scs_ids.len();
        if n != positions.len() || positions.len() != times.len() || times.len() != speeds.len() {
            return COMM::TxError;
        }
        self.group_sync_write.clear_param();
        let ghost end = self.handler().scs_end;
        let ghost payloads = move_payloads(positions@, times@, speeds@, end);
        let mut i: usize = 0;
        while i < n
            invariant
                i <= n == scs_ids@.len(),
                n == positions@.len(),
                n == times@.len(),
                n == speeds@.len(),
                self.wf(),
                self.handler() == old(self).handler(),
                end == self.handler().scs_end,
                payloads == move_payloads(positions@, times@, speeds@, end),
                self.group_sync_write.ids() == scs_ids@.subrange(0, i as int),
                self.group_sync_write.payloads() == payloads.subrange(0, i as int),
                distinct(scs_ids@.subrange(0, i as int)),
            decreases n - i,
        {
            let data = move_data(
                self.group_sync_write.get_handler(),
                positions[i],
                times[i],
                speeds[i],
            );
            let ghost before = scs_ids@.subrange(0, i as int);
            match self.group_sync_write.add_param(scs_ids[i], data) {
                Err(_) => {
                    proof {
                        assert(before.contains(scs_ids@[i as int]));
                        let j = choose|j: int| 0 <= j < before.len() && before[j] == scs_ids@[i as int];
                        assert(scs_ids@[j] == scs_ids@[i as int]);
                    }
                    return COMM::TxError;
                },
                Ok(_) => {
                    proof {
                        let now = scs_ids@.subrange(0, i + 1);
                        assert(now =~= before.push(scs_ids@[i as int]));
                        assert(payloads.subrange(0, i + 1) =~= payloads.subrange(0, i as int).push(
                            data@,
                        ));
                        assert forall|a: int, b: int| 0 <= a < b < now.len() implies now[a]
                            != now[b] by {
                            if b == i {
                                if now[a] == now[b] {
                                    assert(before[a] == scs_ids@[i as int]);
                                    assert(before.contains(scs_ids@[i as int]));
                                }
                            } else {
                                assert(before[a] != before[b]);
                            }
                        }
                    }
                },
            }
            i = i + 1;
        }
        proof {
            assert(scs_ids@.subrange(0, n as int) =~= scs_ids@);
            assert(payloads.subrange(0, n as int) =~= payloads);
        }
        self.group_sync_write.tx_packet()
    }

    /// Writes a move of device `scs_id` word by word: the position, then
    /// the time, then the speed, each the low 16 bits of the value. A write
    /// that does not succeed ends the sequence with its result.
    pub fn reg_write_pos_ex(&mut self, scs_id: u8, position: i32, time: u32, speed: u32) -> (r:
        COMM)
        ensures
            final(self).wf() == old(self).wf(),
            r == reg_move_result(old(self).handler()),
            final(self).handler().scs_end == old(self).handler().scs_end,
            final(self).handler().pending@ == old(self).handler().pending@,
            ({
                let pre = old(self).handler();
                let before = pre.port_handler@;
                let after_first = instruction_tx_port(
                    before,
                    scs_id,
                    0x03,
                    word_params(42, position as u16, pre.scs_end),
                );
                let after_second = instruction_tx_port(
                    after_first,
                    scs_id,
                    0x03,
                    word_params(44, time as u16, pre.scs_end),
                );
                let after_third = instruction_tx_port(
                    after_second,
                    scs_id,
                    0x03,
                    word_params(46, speed as u16, pre.scs_end),
                );
                final(self).handler().port_handler@ == if r is Success {
                    after_third
                } else {
                    after_first
                }
            }),
    {
        let ph = self.group_sync_write.get_handler_mut();
        let pos_result = ph.write_2byte_tx_rx(
            scs_id,
            SMS_STS_GOAL_POSITION_L,
            #[verifier::truncate]
            (position as u16),
        );
        if pos_result != COMM::Success {
            return pos_result;
        }
        let time_result = ph.write_2byte_tx_rx(
            scs_id,
            SMS_STS_GOAL_TIME_L,
            #[verifier::truncate]
            (time as u16),
        );
        if time_result != COMM::Success {
            return time_result;
        }
        ph.write_2byte_tx_rx(scs_id, SMS_STS_GOAL_SPEED_L, #[verifier::truncate] (speed as u16))
    }

    /// Tells device `scs_id` to carry out what was registered.
    pub fn reg_action(&mut self, scs_id: u8) -> (r: COMM)
        ensures
            final(self).wf() == old(self).wf(),
            sends(old(self).handler(), final(self).handler(), r, scs_id, 0x05, Seq::empty()),
    {
        self.group_sync_write.get_handler_mut().action(scs_id)
    }

    /// Sets the operating mode of device `scs_id`.
    pub fn wheel_mode(&mut self, scs_id: u8, mode: u8) -> (r: COMM)
        ensures
            final(self).wf() == old(self).wf(),
            sends(old(self).handler(), final(self).handler(), r, scs_id, 0x03, seq![33u8, mode]),
    {
        self.group_sync_write.get_handler_mut().write_1byte_tx_rx(scs_id, SMS_STS_MODE, mode)
    }

    /// Switches the torque of device `scs_id` on or off.
    pub fn write_torque_enable(&mut self, scs_id: u8, enable: bool) -> (r: COMM)
        ensures
            final(self).wf() == old(self).wf(),
            sends(
                old(self).handler(),
                final(self).handler(),
                r,
                scs_id,
                0x03,
                seq![
                    40u8,
                    if enable {
                        1u8
                    } else {
                        0u8
                    },
                ],
            ),
    {
        let value: u8 = if enable {
            1
        } else {
            0
        };
        self.group_sync_write.get_handler_mut().write_1byte_tx_rx(
            scs_id,
            SMS_STS_TORQUE_ENABLE,
            value,
        )
    }

    /// Closes the permanent registers of device `scs_id`.
    pub fn lock_eprom(&mut self, scs_id: u8) -> (r: COMM)
        ensures
            final(self).wf() == old(self).wf(),
            sends(old(self).handler(), final(self).handler(), r, scs_id, 0x03, seq![55u8, 1u8]),
    {
        self.group_sync_write.get_handler_mut().write_1byte_tx_rx(scs_id, SMS_STS_LOCK, 1)
    }

    /// Opens the permanent registers of device `scs_id` for writing.
    pub fn unlock_eprom(&mut self, scs_id: u8) -> (r: COMM)
        ensures
            final(self).wf() == old(self).wf(),
            sends(old(self).handler(), final(self).handler(), r, scs_id, 0x03, seq![55u8, 0u8]),
    {
        self.group_sync_write.get_handler_mut().write_1byte_tx_rx(scs_id, SMS_STS_LOCK, 0)
    }

    /// One step of a ping of device `scs_id`.
    pub fn ping(&mut self, scs_id: u8) -> (r: COMM)
        ensures
            final(self).wf() == old(self).wf(),
            exchanges(old(self).handler(), final(self).handler(), r, scs_id, 0x01, Seq::empty()),
    {
        self.group_sync_write.get_handler_mut().ping(scs_id)
    }

    /// One step of reading the supply voltage of device `scs_id`.
    pub fn read_voltage(&mut self, scs_id: u8) -> (r: Result<u8, COMM>)
        ensures
            final(self).wf() == old(self).wf(),
            reads(old(self).handler(), final(self).handler(), scs_id, 62, 1),
            r == byte_read(old(self).handler(), scs_id, 62),
    {
        read_byte(self.group_sync_write.get_handler_mut(), scs_id, SMS_STS_PRESENT_VOLTAGE)
    }

    /// One step of reading the temperature of device `scs_id`.
    pub fn read_temperature(&mut self, scs_id: u8) -> (r: Result<u8, COMM>)
        ensures
            final(self).wf() == old(self).wf(),
            reads(old(self).handler(), final(self).handler(), scs_id, 63, 1),
            r == byte_read(old(self).handler(), scs_id, 63),
    {
        read_byte(self.group_sync_write.get_handler_mut(), scs_id, SMS_STS_PRESENT_TEMPERATURE)
    }

    /// One step of reading the load of device `scs_id`, a magnitude with
    /// direction bit 10.
    pub fn read_load(&mut self, scs_id: u8) -> (r: Result<i32, COMM>)
        ensures
            final(self).wf() == old(self).wf(),
            reads(old(self).handler(), final(self).handler(), scs_id, 60, 2),
            match signed_read(old(self).handler(), scs_id, 60, 10) {
                Ok(v) => r == Ok::<i32, COMM>(v as i32),
                Err(e) => r == Err::<i32, COMM>(e),
            },
    {
        read_signed(
            self.group_sync_write.get_handler_mut(),
            scs_id,
            SMS_STS_PRESENT_LOAD_L,
            LOAD_SIGN_BIT,
        )
    }

    /// One step of reading the current of device `scs_id`, a magnitude with
    /// direction bit 15.
    pub fn read_current(&mut self, scs_id: u8) -> (r: Result<i32, COMM>)
        ensures
            final(self).wf() == old(self).wf(),
            reads(old(self).handler(), final(self).handler(), scs_id, 69, 2),
            match signed_read(old(self).handler(), scs_id, 69, 15) {
                Ok(v) => r == Ok::<i32, COMM>(v as i32),
                Err(e) => r == Err::<i32, COMM>(e),
            },
    {
        read_signed(
            self.group_sync_write.get_handler_mut(),
            scs_id,
            SMS_STS_PRESENT_CURRENT_L,
            SIGN_BIT,
        )
    }

    /// Gives device `old_id` the id `new_id`.
    pub fn set_id(&mut self, old_id: u8, new_id: u8) -> (r: COMM)
        ensures
            final(self).wf() == old(self).wf(),
            sends(old(self).handler(), final(self).handler(), r, old_id, 0x03, seq![5u8, new_id]),
    {
        self.group_sync_write.get_handler_mut().write_1byte_tx_rx(old_id, SMS_STS_ID, new_id)
    }

    /// Sets the baud-rate register of device `scs_id`.
    pub fn set_baudrate(&mut self, scs_id: u8, baudrate: u8) -> (r: COMM)
        ensures
            final(self).wf() == old(self).wf(),
            sends(
                old(self).handler(),
                final(self).handler(),
                r,
                scs_id,
                0x03,
                seq![6u8, baudrate],
            ),
    {
        self.group_sync_write.get_handler_mut().write_1byte_tx_rx(
            scs_id,
            SMS_STS_BAUD_RATE,
            baudrate,
        )
    }
}

} // verus!
