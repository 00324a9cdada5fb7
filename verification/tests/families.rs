use ftservo_sdk::packet::{encode, encode_raw};
use ftservo_sdk::port_handler::PortHandler;
use ftservo_sdk::scservo::scscl::{ScsclBaudRate, SCSCL};
use ftservo_sdk::scservo::smsbl::{SmsBlBaudRate, SMSBL};
use ftservo_sdk::scservo::smscl::{SmsClBaudRate, SMSCL};
use ftservo_sdk::scservo::smssts::{SmsStsBaudRate, SMSSTS};
use ftservo_sdk::scservo_def::{COMM, INST};
use ftservo_sdk::{create_scscl, create_sms_sts, Scscl, SmsSts};

fn status_frame(id: u8, error: u8, params: &[u8]) -> Vec<u8> {
    encode_raw(id, error, params).unwrap()
}

fn open_port() -> PortHandler {
    let mut port = PortHandler::new("bus");
    port.open_port();
    port
}

#[test]
fn sms_sts_moves_one_device_by_sync_write() {
    let mut servo = SmsSts::new(open_port());
    assert_eq!(servo.write_pos_ex(1, 2048, 1000, 2400), COMM::Success);
    let frame = servo.get_port_handler_mut().take_outgoing();
    let params = [41, 7, 1, 0, 0x00, 0x08, 0xE8, 0x03, 0x60, 0x09];
    assert_eq!(frame, encode(0xFE, INST::SyncWrite, &params).unwrap());
    assert_eq!(servo.write_pos_ex(1, 2048, 1000, 2400), COMM::Success);
    assert_eq!(servo.write_pos_ex(2, -1, 0x1_0001, 0), COMM::Success);
    servo.get_port_handler_mut().take_outgoing();
    assert_eq!(servo.write_pos_ex(2, -1, 0x1_0001, 0), COMM::Success);
    assert_eq!(
        servo.get_port_handler_mut().take_outgoing(),
        encode(0xFE, INST::SyncWrite, &[41, 7, 2, 0, 0xFF, 0xFF, 1, 0, 0, 0]).unwrap()
    );
}

#[test]
fn sms_sts_moves_a_group() {
    let mut servo = create_sms_sts(open_port());
    let result = servo.sync_write_pos_ex(
        vec![1, 2, 3],
        vec![1024, 2048, 3072],
        vec![1000, 1000, 1000],
        vec![2400, 2400, 2400],
    );
    assert_eq!(result, COMM::Success);
    let params = [
        41, 7, 1, 0, 0x00, 0x04, 0xE8, 0x03, 0x60, 0x09, 2, 0, 0x00, 0x08, 0xE8, 0x03, 0x60, 0x09,
        3, 0, 0x00, 0x0C, 0xE8, 0x03, 0x60, 0x09,
    ];
    assert_eq!(
        servo.get_port_handler_mut().take_outgoing(),
        encode(0xFE, INST::SyncWrite, &params).unwrap()
    );
    assert_eq!(servo.sync_write_pos_ex(vec![1, 2], vec![1], vec![1, 2], vec![1, 2]), COMM::TxError);
    assert_eq!(servo.sync_write_pos_ex(vec![1], vec![1], vec![1, 2], vec![1]), COMM::TxError);
    assert_eq!(servo.sync_write_pos_ex(vec![1], vec![1], vec![1], vec![]), COMM::TxError);
    assert_eq!(
        servo.sync_write_pos_ex(vec![1, 2, 1], vec![1, 2, 3], vec![1, 2, 3], vec![1, 2, 3]),
        COMM::TxError
    );
    assert_eq!(servo.sync_write_pos_ex(vec![], vec![], vec![], vec![]), COMM::NotAvailable);
    assert_eq!(servo.get_port_handler_mut().take_outgoing(), Vec::<u8>::new());
}

#[test]
fn sms_sts_reads_signed_measurements() {
    let mut servo = SmsSts::new(open_port());
    assert_eq!(servo.read_pos(1), Err(COMM::RxWaiting));
    assert_eq!(
        servo.get_port_handler_mut().take_outgoing(),
        encode(1, INST::Read, &[56, 2]).unwrap()
    );
    assert_eq!(servo.read_speed(1), Err(COMM::PortBusy));
    servo.get_port_handler_mut().push_received(&status_frame(1, 0, &[0x05, 0x80]));
    assert_eq!(servo.read_pos(1), Ok(-5));
    assert_eq!(servo.read_speed(1), Err(COMM::RxWaiting));
    assert_eq!(
        servo.get_port_handler_mut().take_outgoing(),
        encode(1, INST::Read, &[58, 2]).unwrap()
    );
    servo.get_port_handler_mut().push_received(&status_frame(1, 0, &[0x60, 0x09]));
    assert_eq!(servo.read_speed(1), Ok(2400));
    assert_eq!(servo.read_load(1), Err(COMM::RxWaiting));
    servo.get_port_handler_mut().push_received(&status_frame(1, 0, &[0x05, 0x04]));
    assert_eq!(servo.read_load(1), Ok(-5));
    assert_eq!(servo.read_current(1), Err(COMM::RxWaiting));
    servo.get_port_handler_mut().push_received(&status_frame(1, 0, &[0x05, 0x04]));
    assert_eq!(servo.read_current(1), Ok(0x0405));
    assert_eq!(servo.read_pos(1), Err(COMM::RxWaiting));
    servo.get_port_handler_mut().push_received(&status_frame(1, 0, &[0x05]));
    assert_eq!(servo.read_pos(1), Err(COMM::RxCorrupt));
}

#[test]
fn sms_sts_reads_position_and_speed_together() {
    let mut servo = SmsSts::new(open_port());
    assert_eq!(servo.read_pos_speed(1), Err(COMM::RxWaiting));
    assert_eq!(
        servo.get_port_handler_mut().take_outgoing(),
        encode(1, INST::Read, &[56, 4]).unwrap()
    );
    servo.get_port_handler_mut().push_received(&status_frame(1, 0, &[0x00, 0x08, 0x05, 0x80]));
    assert_eq!(servo.read_pos_speed(1), Ok((2048, -5)));
    assert_eq!(servo.read_pos_speed(1), Err(COMM::RxWaiting));
    servo.get_port_handler_mut().push_received(&status_frame(1, 0, &[0x00, 0x08, 0x05]));
    assert_eq!(servo.read_pos_speed(1), Err(COMM::RxCorrupt));
}

#[test]
fn sms_sts_reads_bytes() {
    let mut servo = SmsSts::new(open_port());
    assert_eq!(servo.read_voltage(1), Err(COMM::RxWaiting));
    assert_eq!(
        servo.get_port_handler_mut().take_outgoing(),
        encode(1, INST::Read, &[62, 1]).unwrap()
    );
    servo.get_port_handler_mut().push_received(&status_frame(1, 0, &[120]));
    assert_eq!(servo.read_voltage(1), Ok(120));
    assert_eq!(servo.read_temperature(1), Err(COMM::RxWaiting));
    assert_eq!(
        servo.get_port_handler_mut().take_outgoing(),
        encode(1, INST::Read, &[63, 1]).unwrap()
    );
    servo.get_port_handler_mut().push_received(&status_frame(1, 0, &[35]));
    assert_eq!(servo.read_temperature(1), Ok(35));
    assert_eq!(servo.read_moving(1), Err(COMM::RxWaiting));
    assert_eq!(
        servo.get_port_handler_mut().take_outgoing(),
        encode(1, INST::Read, &[66, 1]).unwrap()
    );
    servo.get_port_handler_mut().push_received(&status_frame(1, 0, &[1]));
    assert_eq!(servo.read_moving(1), Ok(true));
    assert_eq!(servo.read_moving(1), Err(COMM::RxWaiting));
    servo.get_port_handler_mut().push_received(&status_frame(1, 0, &[0]));
    assert_eq!(servo.read_moving(1), Ok(false));
    assert_eq!(servo.ping(1), COMM::RxWaiting);
    servo.get_port_handler_mut().push_received(&status_frame(1, 0, &[]));
    assert_eq!(servo.ping(1), COMM::Success);
}

#[test]
fn sms_sts_register_writes() {
    let mut servo = SmsSts::new(open_port());
    let mut expected = Vec::new();
    assert_eq!(servo.wheel_mode(1, 1), COMM::Success);
    expected.extend(encode(1, INST::Write, &[33, 1]).unwrap());
    assert_eq!(servo.write_torque_enable(1, true), COMM::Success);
    expected.extend(encode(1, INST::Write, &[40, 1]).unwrap());
    assert_eq!(servo.write_torque_enable(1, false), COMM::Success);
    expected.extend(encode(1, INST::Write, &[40, 0]).unwrap());
    assert_eq!(servo.lock_eprom(1), COMM::Success);
    expected.extend(encode(1, INST::Write, &[55, 1]).unwrap());
    assert_eq!(servo.unlock_eprom(1), COMM::Success);
    expected.extend(encode(1, INST::Write, &[55, 0]).unwrap());
    assert_eq!(servo.set_id(1, 9), COMM::Success);
    expected.extend(encode(1, INST::Write, &[5, 9]).unwrap());
    assert_eq!(servo.set_baudrate(9, 4), COMM::Success);
    expected.extend(encode(9, INST::Write, &[6, 4]).unwrap());
    assert_eq!(servo.reg_action(0xFE), COMM::Success);
    expected.extend(encode(0xFE, INST::Action, &[]).unwrap());
    assert_eq!(servo.reg_write_pos_ex(1, 2048, 1000, 0x1_0960), COMM::Success);
    expected.extend(encode(1, INST::Write, &[42, 0x00, 0x08]).unwrap());
    expected.extend(encode(1, INST::Write, &[44, 0xE8, 0x03]).unwrap());
    expected.extend(encode(1, INST::Write, &[46, 0x60, 0x09]).unwrap());
    assert_eq!(servo.get_port_handler_mut().take_outgoing(), expected);
    assert_eq!(servo.get_port_handler().get_baudrate(), 1_000_000);
    let mut closed = SmsSts::new(PortHandler::new("bus"));
    assert_eq!(closed.reg_write_pos_ex(1, 1, 1, 1), COMM::TxFail);
    assert_eq!(closed.write_pos_ex(1, 1, 1, 1), COMM::TxFail);
}

#[test]
fn scscl_writes_high_byte_first() {
    let mut servo = Scscl::new(open_port());
    assert_eq!(servo.write_pos(1, 0x0102, 0x0304, 0x0506), COMM::Success);
    assert_eq!(
        servo.get_port_handler_mut().take_outgoing(),
        encode(0xFE, INST::SyncWrite, &[41, 6, 1, 0, 1, 2, 3, 4, 5]).unwrap()
    );
    assert_eq!(servo.write_pos(1, 9, 9, 9), COMM::TxError);
    assert_eq!(servo.write_pos(2, 0x0A0B, 0, 0), COMM::Success);
    assert_eq!(
        servo.get_port_handler_mut().take_outgoing(),
        encode(0xFE, INST::SyncWrite, &[41, 6, 1, 0, 1, 2, 3, 4, 5, 2, 0, 0x0A, 0x0B, 0, 0, 0])
            .unwrap()
    );
    let result = servo.sync_write_pos(vec![3], vec![0x0102], vec![0x0304], vec![0x0506]);
    assert_eq!(result, COMM::Success);
    assert_eq!(
        servo.get_port_handler_mut().take_outgoing(),
        encode(0xFE, INST::SyncWrite, &[41, 6, 3, 0, 1, 2, 3, 4, 5]).unwrap()
    );
    assert_eq!(servo.sync_write_pos(vec![3, 3], vec![1, 1], vec![1, 1], vec![1, 1]), COMM::TxError);
    assert_eq!(servo.sync_write_pos(vec![3], vec![], vec![1], vec![1]), COMM::TxError);
    assert_eq!(servo.sync_write_pos(vec![], vec![], vec![], vec![]), COMM::NotAvailable);
}

#[test]
fn scscl_reads() {
    let mut servo = create_scscl(open_port());
    assert_eq!(servo.read_pos(1), Err(COMM::RxWaiting));
    servo.get_port_handler_mut().push_received(&status_frame(1, 0, &[0x80, 0x05]));
    assert_eq!(servo.read_pos(1), Ok(-5));
    assert_eq!(servo.read_speed(1), Err(COMM::RxWaiting));
    servo.get_port_handler_mut().push_received(&status_frame(1, 0, &[0x01, 0x02]));
    assert_eq!(servo.read_speed(1), Ok(0x0102));
    assert_eq!(servo.read_load(1), Err(COMM::RxWaiting));
    servo.get_port_handler_mut().push_received(&status_frame(1, 0, &[0x04, 0x05]));
    assert_eq!(servo.read_load(1), Ok(-5));
    assert_eq!(servo.read_current(1), Err(COMM::RxWaiting));
    servo.get_port_handler_mut().push_received(&status_frame(1, 0, &[0x80, 0x00]));
    assert_eq!(servo.read_current(1), Ok(0));
    assert_eq!(servo.read_model(1), Err(COMM::RxWaiting));
    servo.get_port_handler_mut().take_outgoing();
    servo.get_port_handler_mut().push_received(&status_frame(1, 0, &[0x05, 0x09]));
    assert_eq!(servo.read_model(1), Ok(0x0509));
    assert_eq!(servo.read_voltage(1), Err(COMM::RxWaiting));
    servo.get_port_handler_mut().push_received(&status_frame(1, 0, &[60]));
    assert_eq!(servo.read_voltage(1), Ok(60));
    assert_eq!(servo.read_temperature(1), Err(COMM::RxWaiting));
    servo.get_port_handler_mut().push_received(&status_frame(1, 0, &[30]));
    assert_eq!(servo.read_temperature(1), Ok(30));
    assert_eq!(servo.read_moving(1), Err(COMM::RxWaiting));
    servo.get_port_handler_mut().push_received(&status_frame(1, 0, &[2]));
    assert_eq!(servo.read_moving(1), Ok(true));
    assert_eq!(servo.ping(1), COMM::RxWaiting);
    servo.get_port_handler_mut().push_received(&status_frame(1, 0, &[]));
    assert_eq!(servo.ping(1), COMM::Success);
}

#[test]
fn scscl_register_writes() {
    let mut servo = Scscl::new(open_port());
    let mut expected = Vec::new();
    assert_eq!(servo.wheel_mode(1, 1), COMM::Success);
    expected.extend(encode(1, INST::Write, &[33, 1]).unwrap());
    assert_eq!(servo.write_torque_enable(1, true), COMM::Success);
    expected.extend(encode(1, INST::Write, &[40, 1]).unwrap());
    assert_eq!(servo.write_angle_limit(1, 0x0102, 0x1_0304), COMM::Success);
    expected.extend(encode(1, INST::Write, &[9, 1, 2]).unwrap());
    expected.extend(encode(1, INST::Write, &[11, 3, 4]).unwrap());
    assert_eq!(servo.write_dead_zone(1, 2, 3), COMM::Success);
    expected.extend(encode(1, INST::Write, &[26, 2]).unwrap());
    expected.extend(encode(1, INST::Write, &[27, 3]).unwrap());
    assert_eq!(servo.write_offset(1, -2), COMM::Success);
    expected.extend(encode(1, INST::Write, &[31, 0xFF, 0xFE]).unwrap());
    assert_eq!(servo.lock_eprom(1), COMM::Success);
    expected.extend(encode(1, INST::Write, &[55, 1]).unwrap());
    assert_eq!(servo.unlock_eprom(1), COMM::Success);
    expected.extend(encode(1, INST::Write, &[55, 0]).unwrap());
    assert_eq!(servo.write_baudrate(1, 4), COMM::Success);
    expected.extend(encode(1, INST::Write, &[6, 4]).unwrap());
    assert_eq!(servo.write_id(1, 2), COMM::Success);
    expected.extend(encode(1, INST::Write, &[5, 2]).unwrap());
    assert_eq!(servo.reg_write_pos(2, 0x0102, 7, 7), COMM::Success);
    expected.extend(encode(2, INST::Write, &[42, 1, 2]).unwrap());
    assert_eq!(servo.reg_action(2), COMM::Success);
    expected.extend(encode(2, INST::Action, &[]).unwrap());
    assert_eq!(servo.get_port_handler_mut().take_outgoing(), expected);
    assert!(servo.get_port_handler().is_open());
    let mut closed = Scscl::new(PortHandler::new("bus"));
    assert_eq!(closed.write_angle_limit(1, 1, 2), COMM::TxFail);
    assert_eq!(closed.write_dead_zone(1, 1, 2), COMM::TxFail);
}

#[test]
fn baud_rates_by_register_value() {
    assert_eq!(ScsclBaudRate::SCScl1M.baud_value(), 1_000_000);
    assert_eq!(ScsclBaudRate::SCScl0_5M.baud_value(), 500_000);
    assert_eq!(ScsclBaudRate::SCScl250K.baud_value(), 250_000);
    assert_eq!(ScsclBaudRate::SCScl128K.baud_value(), 128_000);
    assert_eq!(ScsclBaudRate::SCScl115200.baud_value(), 115_200);
    assert_eq!(ScsclBaudRate::SCScl76800.baud_value(), 76_800);
    assert_eq!(ScsclBaudRate::SCScl57600.baud_value(), 57_600);
    assert_eq!(ScsclBaudRate::SCScl38400.baud_value(), 38_400);
    assert_eq!(ScsclBaudRate::SCScl1M.register_value(), 0);
    assert_eq!(ScsclBaudRate::SCScl38400.register_value(), 7);
    assert_eq!(SmsBlBaudRate::SmsBl115200.baud_value(), 115_200);
    assert_eq!(SmsBlBaudRate::SmsBl115200.register_value(), 4);
    assert_eq!(SmsClBaudRate::SmsCl0_5M.baud_value(), 500_000);
    assert_eq!(SmsClBaudRate::SmsCl0_5M.register_value(), 1);
    assert_eq!(SmsStsBaudRate::SmsSts76800.baud_value(), 76_800);
    assert_eq!(SmsStsBaudRate::SmsSts76800.register_value(), 5);
}

#[test]
fn scscl_servo_on_a_bus_end() {
    let mut servo = SCSCL::new(1, 1);
    assert_eq!(servo.mem, [0u8; 15]);
    assert_eq!(servo.write_pos(1, 0x0102, 0x0304, 0x0506), 0);
    assert_eq!(
        servo.scs.take_wire_out(),
        encode(1, INST::Write, &[42, 1, 2, 3, 4, 5, 6]).unwrap()
    );
    servo.scs.push_received(&status_frame(1, 0, &[]));
    assert_eq!(servo.write_pos(1, 0x0102, 0x0304, 0x0506), 1);
    assert_eq!(servo.reg_write_pos(0xFE, 0x0102, 0x0304, 0x0506), 1);
    assert_eq!(
        servo.scs.take_wire_out(),
        encode(0xFE, INST::RegWrite, &[42, 1, 2, 3, 4, 5, 6]).unwrap()
    );
    servo.sync_write_pos(&[1, 2], 2, &[0x0102, 0x0A0B], &[3, 4], &[5, 6]);
    assert_eq!(
        servo.scs.take_wire_out(),
        encode(0xFE, INST::SyncWrite, &[42, 6, 1, 1, 2, 0, 3, 0, 5, 2, 0x0A, 0x0B, 0, 4, 0, 6])
            .unwrap()
    );
    assert_eq!(servo.pwm_mode(0xFE), 1);
    assert_eq!(servo.scs.take_wire_out(), encode(0xFE, INST::Write, &[9, 0, 0, 0, 0]).unwrap());
    assert_eq!(servo.write_pwm(0xFE, -5), 1);
    assert_eq!(servo.scs.take_wire_out(), encode(0xFE, INST::Write, &[44, 0x04, 0x05]).unwrap());
    assert_eq!(servo.write_pwm(0xFE, 500), 1);
    assert_eq!(servo.scs.take_wire_out(), encode(0xFE, INST::Write, &[44, 0x01, 0xF4]).unwrap());
    assert_eq!(servo.enable_torque(0xFE, 1), 1);
    assert_eq!(servo.scs.take_wire_out(), encode(0xFE, INST::Write, &[40, 1]).unwrap());
    assert_eq!(servo.unlock_eprom(0xFE), 1);
    assert_eq!(servo.scs.take_wire_out(), encode(0xFE, INST::Write, &[48, 0]).unwrap());
    assert_eq!(servo.lock_eprom(0xFE), 1);
    assert_eq!(servo.scs.take_wire_out(), encode(0xFE, INST::Write, &[48, 1]).unwrap());
}

#[test]
fn smsbl_servo_on_a_bus_end() {
    let mut servo = SMSBL::new(0, 0);
    assert_eq!(servo.write_pos_ex(1, 0x0102, 0x0304, 50), 1);
    assert_eq!(
        servo.scs.take_wire_out(),
        encode(1, INST::Write, &[41, 50, 2, 1, 0, 0, 4, 3]).unwrap()
    );
    assert_eq!(servo.reg_write_pos_ex(1, 0x0102, 0x0304, 50), 1);
    assert_eq!(
        servo.scs.take_wire_out(),
        encode(1, INST::RegWrite, &[41, 50, 2, 1, 0, 0, 4, 3]).unwrap()
    );
    servo.sync_write_pos_ex(&[1, 2], 2, &[0x0102, 0x0A0B], &[3, 4], &[5, 6]);
    assert_eq!(
        servo.scs.take_wire_out(),
        encode(
            0xFE,
            INST::SyncWrite,
            &[41, 7, 1, 5, 2, 1, 0, 0, 3, 0, 2, 6, 0x0B, 0x0A, 0, 0, 4, 0]
        )
        .unwrap()
    );
    assert_eq!(servo.wheel_mode(1), 1);
    assert_eq!(servo.scs.take_wire_out(), encode(1, INST::Write, &[33, 1]).unwrap());
    assert_eq!(servo.write_pwm(1, -5), 1);
    assert_eq!(servo.scs.take_wire_out(), encode(1, INST::Write, &[44, 0x05, 0x04]).unwrap());
    assert_eq!(servo.enable_torque(1, 0), 1);
    assert_eq!(servo.scs.take_wire_out(), encode(1, INST::Write, &[40, 0]).unwrap());
    assert_eq!(servo.unlock_eprom(1), 1);
    assert_eq!(servo.scs.take_wire_out(), encode(1, INST::Write, &[55, 0]).unwrap());
    assert_eq!(servo.lock_eprom(1), 1);
    assert_eq!(servo.scs.take_wire_out(), encode(1, INST::Write, &[55, 1]).unwrap());
    assert_eq!(servo.calibration_ofs(1), 1);
    assert_eq!(servo.scs.take_wire_out(), encode(1, INST::Write, &[40, 128]).unwrap());
}

#[test]
fn smsbl_measurements() {
    let mut servo = SMSBL::new(0, 1);
    assert_eq!(servo.read_pos(1), -1);
    assert_eq!(servo.scs.take_wire_out(), encode(1, INST::Read, &[56, 2]).unwrap());
    servo.scs.push_received(&status_frame(1, 0, &[0x05, 0x80]));
    assert_eq!(servo.read_pos(1), -5);
    assert_eq!(servo.read_speed(1), -1);
    assert_eq!(servo.scs.take_wire_out(), encode(1, INST::Read, &[58, 2]).unwrap());
    servo.scs.push_received(&status_frame(1, 0, &[0x60, 0x09]));
    assert_eq!(servo.read_speed(1), 2400);
    assert_eq!(servo.read_load(1), -1);
    assert_eq!(servo.scs.take_wire_out(), encode(1, INST::Read, &[60, 2]).unwrap());
    servo.scs.push_received(&status_frame(1, 0, &[0x05, 0x04]));
    assert_eq!(servo.read_load(1), -5);
    assert_eq!(servo.read_current(1), -1);
    assert_eq!(servo.scs.take_wire_out(), encode(1, INST::Read, &[69, 2]).unwrap());
    servo.scs.push_received(&status_frame(1, 0, &[0x05, 0x04]));
    assert_eq!(servo.read_current(1), 0x0405);
    assert_eq!(servo.read_voltage(1), -1);
    assert_eq!(servo.scs.take_wire_out(), encode(1, INST::Read, &[62, 1]).unwrap());
    servo.scs.push_received(&status_frame(1, 0, &[120]));
    assert_eq!(servo.read_voltage(1), 120);
    assert_eq!(servo.read_temper(1), -1);
    assert_eq!(servo.scs.take_wire_out(), encode(1, INST::Read, &[63, 1]).unwrap());
    servo.scs.push_received(&status_frame(1, 0, &[35]));
    assert_eq!(servo.read_temper(1), 35);
    assert_eq!(servo.read_move(1), -1);
    assert_eq!(servo.scs.take_wire_out(), encode(1, INST::Read, &[66, 1]).unwrap());
    servo.scs.push_received(&status_frame(1, 0, &[1]));
    assert_eq!(servo.read_move(1), 1);
    assert_eq!(servo.feed_back(1), -1);
    assert_eq!(servo.scs.take_wire_out(), encode(1, INST::Read, &[56, 15]).unwrap());
    let registers: Vec<u8> = (1..=15).collect();
    servo.scs.push_received(&status_frame(1, 0, &registers));
    assert_eq!(servo.feed_back(1), 15);
    assert_eq!(servo.mem.to_vec(), registers);
}

#[test]
fn smscl_has_its_own_registers() {
    let mut servo = SMSCL::new(0, 0);
    assert_eq!(servo.wheel_mode(1), 1);
    assert_eq!(servo.scs.take_wire_out(), encode(1, INST::Write, &[35, 1]).unwrap());
    assert_eq!(servo.unlock_eprom(1), 1);
    assert_eq!(servo.scs.take_wire_out(), encode(1, INST::Write, &[48, 0]).unwrap());
    assert_eq!(servo.lock_eprom(1), 1);
    assert_eq!(servo.scs.take_wire_out(), encode(1, INST::Write, &[48, 1]).unwrap());
    assert_eq!(servo.write_pos_ex(1, 0x0102, 0x0304, 50), 1);
    assert_eq!(
        servo.scs.take_wire_out(),
        encode(1, INST::Write, &[41, 50, 2, 1, 0, 0, 4, 3]).unwrap()
    );
    assert_eq!(servo.calibration_ofs(1), 1);
    assert_eq!(servo.enable_torque(1, 1), 1);
    assert_eq!(servo.write_pwm(1, 5), 1);
    assert_eq!(servo.reg_write_pos_ex(1, 1, 1, 1), 1);
    servo.sync_write_pos_ex(&[1], 1, &[1], &[1], &[1]);
    servo.scs.take_wire_out();
    let mut servo = SMSCL::new(0, 1);
    assert_eq!(servo.read_pos(1), -1);
    servo.scs.push_received(&status_frame(1, 0, &[0x05, 0x80]));
    assert_eq!(servo.read_pos(1), -5);
    assert_eq!(servo.read_speed(1), -1);
    assert_eq!(servo.read_speed(1), -1);
    servo.scs.r_flush_scs();
    assert_eq!(servo.read_load(1), -1);
    servo.scs.r_flush_scs();
    assert_eq!(servo.read_voltage(1), -1);
    servo.scs.r_flush_scs();
    assert_eq!(servo.read_temper(1), -1);
    servo.scs.r_flush_scs();
    assert_eq!(servo.read_move(1), -1);
    servo.scs.r_flush_scs();
    assert_eq!(servo.read_current(1), -1);
    servo.scs.r_flush_scs();
    assert_eq!(servo.feed_back(1), -1);
}

#[test]
fn smssts_servo_on_a_bus_end() {
    let mut servo = SMSSTS::new(0, 0);
    assert_eq!(servo.write_pos(1, 0x0102, 0x0304, 0x0506), 1);
    assert_eq!(
        servo.scs.take_wire_out(),
        encode(1, INST::Write, &[42, 2, 1, 4, 3, 6, 5]).unwrap()
    );
    assert_eq!(servo.reg_write_pos(1, 0x0102, 0x0304, 0x0506), 1);
    assert_eq!(
        servo.scs.take_wire_out(),
        encode(1, INST::RegWrite, &[42, 2, 1, 4, 3, 6, 5]).unwrap()
    );
    servo.sync_write_pos(&[7], 1, &[0x0102], &[0x0304], &[0x0506]);
    assert_eq!(
        servo.scs.take_wire_out(),
        encode(0xFE, INST::SyncWrite, &[42, 6, 7, 2, 1, 4, 3, 6, 5]).unwrap()
    );
    assert_eq!(servo.pwm_mode(1), 1);
    assert_eq!(servo.scs.take_wire_out(), encode(1, INST::Write, &[33, 2]).unwrap());
    assert_eq!(servo.write_pwm(1, -1), 1);
    assert_eq!(servo.scs.take_wire_out(), encode(1, INST::Write, &[44, 0x01, 0x04]).unwrap());
    assert_eq!(servo.enable_torque(1, 1), 1);
    assert_eq!(servo.unlock_eprom(1), 1);
    assert_eq!(servo.lock_eprom(1), 1);
    let mut expected = encode(1, INST::Write, &[40, 1]).unwrap();
    expected.extend(encode(1, INST::Write, &[55, 0]).unwrap());
    expected.extend(encode(1, INST::Write, &[55, 1]).unwrap());
    assert_eq!(servo.scs.take_wire_out(), expected);
    let mut servo = SMSSTS::new(0, 1);
    assert_eq!(servo.read_pos(1), -1);
    servo.scs.push_received(&status_frame(1, 0, &[0xFF, 0x7F]));
    assert_eq!(servo.read_pos(1), 32767);
    assert_eq!(servo.read_speed(2), -1);
    servo.scs.push_received(&status_frame(2, 0, &[0xFF, 0xFF]));
    assert_eq!(servo.read_speed(2), -32767);
    assert_eq!(servo.read_load(2), -1);
    servo.scs.push_received(&status_frame(2, 0, &[0xFF, 0x03]));
    assert_eq!(servo.read_load(2), 1023);
    assert_eq!(servo.read_current(2), -1);
    servo.scs.push_received(&status_frame(2, 0, &[0x00, 0x00]));
    assert_eq!(servo.read_current(2), 0);
    assert_eq!(servo.read_voltage(2), -1);
    servo.scs.push_received(&status_frame(2, 0, &[0xFF]));
    assert_eq!(servo.read_voltage(2), 255);
    assert_eq!(servo.read_temper(2), -1);
    servo.scs.push_received(&status_frame(2, 0, &[0]));
    assert_eq!(servo.read_temper(2), 0);
    assert_eq!(servo.read_move(2), -1);
    servo.scs.push_received(&status_frame(2, 0, &[0]));
    assert_eq!(servo.read_move(2), 0);
    assert_eq!(servo.feed_back(2), -1);
    servo.scs.push_received(&status_frame(2, 0, &[9; 15]));
    assert_eq!(servo.feed_back(2), 15);
    assert_eq!(servo.mem, [9u8; 15]);
}
