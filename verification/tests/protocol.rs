use ftservo_sdk::packet::{encode, encode_raw};
use ftservo_sdk::port_handler::{PortFault, PortHandler};
use ftservo_sdk::protocol_packet_handler::ProtocolPacketHandler;
use ftservo_sdk::scservo_def::{ErrorCode, COMM, INST};
use ftservo_sdk::transfer::{
    byte_of_reply, bytes_of_word, params_of_reply, read_byte, read_signed, read_word,
    signed_of_reply, word_of_reply,
};
use ftservo_sdk::word::Endian;

fn open_handler(end: Endian) -> ProtocolPacketHandler {
    let mut port = PortHandler::new("bus");
    port.open_port();
    ProtocolPacketHandler::new(port, end)
}

fn status_frame(id: u8, error: u8, params: &[u8]) -> Vec<u8> {
    encode_raw(id, error, params).unwrap()
}

#[test]
fn tx_packet_completes_and_queues_the_frame() {
    let mut ph = open_handler(Endian::SmallEndian);
    let mut buffer = vec![0, 0, 1, 4, 3, 40, 1, 0];
    assert_eq!(ph.tx_packet(&mut buffer), COMM::Success);
    let frame = encode(1, INST::Write, &[40, 1]).unwrap();
    assert_eq!(buffer, frame);
    assert_eq!(ph.port_handler.take_outgoing(), frame);
    assert!(!ph.port_handler.is_using());
}

#[test]
fn tx_packet_refuses_in_order_busy_malformed_closed() {
    let mut ph = ProtocolPacketHandler::new(PortHandler::new("bus"), Endian::SmallEndian);
    let mut good = vec![0, 0, 1, 2, 1, 0];
    let mut bad = vec![0, 0, 1, 250, 1, 0];
    let mut short = vec![0, 0, 1];
    assert_eq!(ph.tx_packet(&mut good), COMM::TxFail);
    assert_eq!(ph.tx_packet(&mut bad), COMM::TxError);
    assert_eq!(ph.tx_packet(&mut short), COMM::TxError);
    ph.port_handler.set_using(true);
    assert_eq!(ph.tx_packet(&mut bad), COMM::PortBusy);
    assert_eq!(ph.tx_packet(&mut good), COMM::PortBusy);
    ph.port_handler.set_using(false);
    ph.port_handler.open_port();
    assert_eq!(ph.tx_packet(&mut bad), COMM::TxError);
    assert_eq!(ph.port_handler.take_outgoing(), Vec::<u8>::new());
    assert_eq!(ph.tx_packet(&mut good), COMM::Success);
}

#[test]
fn transmission_drops_stale_input_and_keeps_queued_output() {
    let mut ph = open_handler(Endian::SmallEndian);
    ph.port_handler.push_received(&[1, 2, 3]);
    assert_eq!(ph.write_1byte_tx_rx(1, 40, 1), COMM::Success);
    assert_eq!(ph.port_handler.peek_received(), Vec::<u8>::new());
    assert_eq!(ph.write_1byte_tx_rx(2, 40, 0), COMM::Success);
    let mut expected = encode(1, INST::Write, &[40, 1]).unwrap();
    expected.extend(encode(2, INST::Write, &[40, 0]).unwrap());
    assert_eq!(ph.port_handler.take_outgoing(), expected);
}

#[test]
fn write_operations_send_the_documented_frames() {
    let mut ph = open_handler(Endian::SmallEndian);
    assert_eq!(ph.write_2byte_tx_rx(1, 42, 0x1234), COMM::Success);
    assert_eq!(ph.port_handler.take_outgoing(), encode(1, INST::Write, &[42, 0x34, 0x12]).unwrap());
    ph.scs_setend(Endian::BigEndian);
    assert_eq!(ph.write_2byte_tx_rx(1, 42, 0x1234), COMM::Success);
    assert_eq!(ph.port_handler.take_outgoing(), encode(1, INST::Write, &[42, 0x12, 0x34]).unwrap());
    assert_eq!(ph.reg_write_1byte(3, 40, 1), COMM::Success);
    assert_eq!(ph.port_handler.take_outgoing(), encode(3, INST::RegWrite, &[40, 1]).unwrap());
    assert_eq!(ph.reg_write_2byte(3, 42, 0x0102), COMM::Success);
    assert_eq!(ph.port_handler.take_outgoing(), encode(3, INST::RegWrite, &[42, 1, 2]).unwrap());
    assert_eq!(ph.action(0xFE), COMM::Success);
    assert_eq!(ph.port_handler.take_outgoing(), encode(0xFE, INST::Action, &[]).unwrap());
    assert_eq!(ph.write_bytes(5, 9, &[1, 2, 3, 4]), COMM::Success);
    assert_eq!(ph.port_handler.take_outgoing(), encode(5, INST::Write, &[9, 1, 2, 3, 4]).unwrap());
    assert_eq!(ph.reg_write_bytes(5, 9, &[7]), COMM::Success);
    assert_eq!(ph.port_handler.take_outgoing(), encode(5, INST::RegWrite, &[9, 7]).unwrap());
    assert_eq!(ph.sync_write_tx_only(42, 2, &[1, 0, 8, 2, 0, 9]), COMM::Success);
    assert_eq!(
        ph.port_handler.take_outgoing(),
        encode(0xFE, INST::SyncWrite, &[42, 2, 1, 0, 8, 2, 0, 9]).unwrap()
    );
    assert_eq!(ph.sync_read_tx(56, 2, &[1, 2, 3]), COMM::Success);
    assert_eq!(
        ph.port_handler.take_outgoing(),
        encode(0xFE, INST::SyncRead, &[56, 2, 1, 2, 3]).unwrap()
    );
    assert_eq!(ph.bulk_read_tx(&[1, 2]), COMM::Success);
    assert_eq!(ph.port_handler.take_outgoing(), encode(0xFE, INST::SyncRead, &[1, 2]).unwrap());
    assert_eq!(ph.tx_instruction(1, 0x03, &[0u8; 245]), COMM::TxError);
    assert_eq!(ph.write_bytes(1, 0, &[0u8; 244]), COMM::TxError);
    assert_eq!(ph.write_bytes(1, 0, &[0u8; 243]), COMM::Success);
}

#[test]
fn a_read_waits_until_the_reply_has_arrived() {
    let mut ph = open_handler(Endian::SmallEndian);
    let (data, result) = ph.read_2byte_tx_rx(1, 56);
    assert_eq!(result, COMM::RxWaiting);
    assert!(data.is_empty());
    assert!(ph.port_handler.is_using());
    let request = encode(1, INST::Read, &[56, 2]).unwrap();
    assert_eq!(ph.port_handler.take_outgoing(), request);
    let reply = status_frame(1, 0, &[0x34, 0x12]);
    ph.port_handler.push_received(&reply[..4]);
    let (data, result) = ph.read_2byte_tx_rx(1, 56);
    assert_eq!(result, COMM::RxWaiting);
    assert!(data.is_empty());
    assert_eq!(ph.port_handler.take_outgoing(), Vec::<u8>::new());
    ph.port_handler.push_received(&reply[4..]);
    let (data, result) = ph.read_2byte_tx_rx(1, 56);
    assert_eq!(result, COMM::Success);
    assert_eq!(data, reply);
    assert!(!ph.port_handler.is_using());
    assert_eq!(ph.port_handler.peek_received(), Vec::<u8>::new());
}

#[test]
fn another_request_is_refused_while_one_is_outstanding() {
    let mut ph = open_handler(Endian::SmallEndian);
    assert_eq!(ph.read_1byte_tx_rx(1, 62).1, COMM::RxWaiting);
    assert_eq!(ph.read_1byte_tx_rx(2, 62).1, COMM::PortBusy);
    assert_eq!(ph.read_1byte_tx_rx(1, 63).1, COMM::PortBusy);
    assert_eq!(ph.write_1byte_tx_rx(1, 40, 1), COMM::PortBusy);
    assert_eq!(ph.ping(1), COMM::PortBusy);
    assert_eq!(ph.tx_rx_instruction(1, 0x02, &[0u8; 245]).1, COMM::PortBusy);
    assert_eq!(ph.port_handler.take_outgoing(), encode(1, INST::Read, &[62, 1]).unwrap());
    ph.port_handler.push_received(&status_frame(1, 0, &[77]));
    let (data, result) = ph.read_1byte_tx_rx(1, 62);
    assert_eq!(result, COMM::Success);
    assert_eq!(data[5], 77);
    assert_eq!(ph.read_1byte_tx_rx(2, 62).1, COMM::RxWaiting);
}

#[test]
fn a_reply_that_does_not_come_times_out() {
    let mut ph = open_handler(Endian::SmallEndian);
    ph.port_handler.set_current_time(10);
    assert_eq!(ph.ping(1), COMM::RxWaiting);
    ph.port_handler.set_current_time(10 + 6 * 10_000 + 30_000 + 50_000_000);
    assert_eq!(ph.ping(1), COMM::RxWaiting);
    ph.port_handler.set_current_time(10 + 6 * 10_000 + 30_000 + 50_000_000 + 1);
    assert_eq!(ph.ping(1), COMM::RxTimeout);
    assert!(!ph.port_handler.is_using());
    assert_eq!(ph.port_handler.take_outgoing(), encode(1, INST::Ping, &[]).unwrap());
    assert_eq!(ph.ping(1), COMM::RxWaiting);
    assert_eq!(ph.port_handler.take_outgoing(), encode(1, INST::Ping, &[]).unwrap());
}

#[test]
fn a_corrupt_reply_is_reported_and_frees_the_port() {
    let mut ph = open_handler(Endian::SmallEndian);
    assert_eq!(ph.ping(1), COMM::RxWaiting);
    let mut reply = status_frame(1, 0, &[]);
    reply[5] ^= 0xFF;
    ph.port_handler.push_received(&reply);
    assert_eq!(ph.ping(1), COMM::RxCorrupt);
    assert!(!ph.port_handler.is_using());
}

#[test]
fn a_reply_behind_noise_and_a_corrupt_frame_is_found() {
    let mut ph = open_handler(Endian::SmallEndian);
    assert_eq!(ph.ping(1), COMM::RxWaiting);
    let mut corrupt = status_frame(1, 0, &[]);
    corrupt[5] ^= 0x01;
    ph.port_handler.push_received(&[0x00, 0xFF, 0x13]);
    ph.port_handler.push_received(&corrupt);
    ph.port_handler.push_received(&status_frame(2, 0, &[]));
    ph.port_handler.push_received(&status_frame(1, 4, &[]));
    ph.port_handler.push_received(&[0xAB]);
    assert_eq!(ph.ping(1), COMM::Success);
    assert_eq!(ph.port_handler.peek_received(), vec![0xAB]);
}

#[test]
fn a_broadcast_exchange_ends_with_the_transmission() {
    let mut ph = open_handler(Endian::SmallEndian);
    assert_eq!(ph.ping(0xFE), COMM::Success);
    assert!(!ph.port_handler.is_using());
    let mut buffer = vec![0, 0, 0xFE, 2, 5, 0];
    let (data, result) = ph.tx_rx_packet(&mut buffer);
    assert_eq!(result, COMM::Success);
    assert!(data.is_empty());
}

#[test]
fn exchanges_fail_on_a_closed_port_and_on_malformed_requests() {
    let mut ph = ProtocolPacketHandler::new(PortHandler::new("bus"), Endian::SmallEndian);
    assert_eq!(ph.ping(1), COMM::TxFail);
    assert_eq!(ph.read_bytes(1, 56, 2).1, COMM::TxFail);
    let mut bad = vec![0, 0, 1, 1, 1, 0];
    assert_eq!(ph.tx_rx_packet(&mut bad).1, COMM::TxError);
    assert_eq!(ph.tx_rx_instruction(1, 0x02, &[0u8; 245]).1, COMM::TxError);
    assert_eq!(ph.rx_packet().1, COMM::RxFail);
}

#[test]
fn rx_packet_takes_any_device() {
    let mut ph = open_handler(Endian::SmallEndian);
    assert_eq!(ph.rx_packet().1, COMM::RxWaiting);
    let first = status_frame(9, 1, &[5]);
    let second = status_frame(3, 0, &[]);
    ph.port_handler.push_received(&first);
    ph.port_handler.push_received(&second);
    assert_eq!(ph.rx_packet(), (first, COMM::Success));
    assert_eq!(ph.rx_packet(), (second, COMM::Success));
    ph.port_handler.set_packet_timeout_millis(1);
    ph.port_handler.set_current_time(1_000_001);
    assert_eq!(ph.rx_packet().1, COMM::RxTimeout);
}

#[test]
fn group_answers_are_collected_when_due() {
    let mut ph = open_handler(Endian::SmallEndian);
    assert_eq!(ph.sync_read_tx(56, 2, &[1, 2]), COMM::Success);
    assert_eq!(ph.sync_read_rx(&[1, 2], 2), (COMM::RxWaiting, vec![]));
    let first = status_frame(1, 0, &[1, 2]);
    let second = status_frame(2, 0, &[3, 4]);
    ph.port_handler.push_received(&first);
    assert_eq!(ph.sync_read_rx(&[1, 2], 2), (COMM::RxWaiting, vec![]));
    ph.port_handler.push_received(&second);
    let mut all = first.clone();
    all.extend(second);
    assert_eq!(ph.sync_read_rx(&[1, 2], 2), (COMM::Success, all));
    assert_eq!(ph.sync_read_rx(&[1, 2], 2), (COMM::RxWaiting, vec![]));
    ph.port_handler.push_received(&first);
    ph.port_handler.set_current_time(1_000_000_000);
    assert_eq!(ph.sync_read_rx(&[1, 2], 2), (COMM::Success, first));
    assert_eq!(ph.sync_read_rx(&[1, 2], 2), (COMM::RxTimeout, vec![]));
    assert_eq!(ph.sync_read_rx(&[], 2), (COMM::RxTimeout, vec![]));
}

#[test]
fn result_and_status_texts() {
    let ph = open_handler(Endian::SmallEndian);
    assert_eq!(ph.get_tx_rx_result(COMM::Success), "[TxRxResult] Communication success!");
    assert_eq!(ph.get_tx_rx_result(COMM::PortBusy), "[TxRxResult] port is in use!");
    assert_eq!(
        ph.get_tx_rx_result(COMM::TxFail),
        "[TxRxResult] Failed to transmit instruction packet!"
    );
    assert_eq!(
        ph.get_tx_rx_result(COMM::RxFail),
        "[TxRxResult] Failed to receive instruction packet!"
    );
    assert_eq!(ph.get_tx_rx_result(COMM::TxError), "[TxRxResult] Incorrect instruction packet!");
    assert_eq!(ph.get_tx_rx_result(COMM::RxWaiting), "[TxRxResult] Now receiving status packet!");
    assert_eq!(ph.get_tx_rx_result(COMM::RxTimeout), "[TxRxResult] There is no status packet!");
    assert_eq!(ph.get_tx_rx_result(COMM::RxCorrupt), "[TxRxResult] Received packet is corrupted!");
    assert_eq!(ph.get_tx_rx_result(COMM::NotAvailable), "[TxRxResult] Feature not available!");
    assert!(ph.get_rx_packet_error(ErrorCode::Success).is_ok());
    let error = ph.get_rx_packet_error(ErrorCode::VoltageError).unwrap_err();
    assert_eq!(error.kind(), serialport::ErrorKind::InvalidInput);
    assert_eq!(error.description, "[ServoStatus] Input voltage error!");
    let cases = [
        (ErrorCode::AngleError, "[ServoStatus] Angle error!"),
        (ErrorCode::OverheatError, "[ServoStatus] Overheat error!"),
        (ErrorCode::OverElementError, "[ServoStatus] Over element error!"),
        (ErrorCode::OverloadError, "[ServoStatus] Overload error!"),
    ];
    for (code, text) in cases {
        let error = ph.get_rx_packet_error(code).unwrap_err();
        assert_eq!(error.kind(), serialport::ErrorKind::Io(std::io::ErrorKind::InvalidData));
        assert_eq!(error.description, text);
        assert_eq!(ph.get_rx_packet_error_text(code), text);
    }
}

#[test]
fn replies_are_decoded_by_kind() {
    let frame = status_frame(1, 0, &[0x05, 0x80]);
    assert_eq!(byte_of_reply(&frame, COMM::Success), Ok(0x05));
    assert_eq!(word_of_reply(&frame, COMM::Success, Endian::SmallEndian), Ok(0x8005));
    assert_eq!(word_of_reply(&frame, COMM::Success, Endian::BigEndian), Ok(0x0580));
    assert_eq!(signed_of_reply(&frame, COMM::Success, Endian::SmallEndian, 15), Ok(-5));
    assert_eq!(signed_of_reply(&frame, COMM::Success, Endian::BigEndian, 10), Ok(-0x0180));
    assert_eq!(byte_of_reply(&frame, COMM::RxTimeout), Err(COMM::RxTimeout));
    assert_eq!(word_of_reply(&frame, COMM::RxWaiting, Endian::SmallEndian), Err(COMM::RxWaiting));
    let short = status_frame(1, 0, &[]);
    assert_eq!(byte_of_reply(&short, COMM::Success), Err(COMM::RxCorrupt));
    let one = status_frame(1, 0, &[9]);
    assert_eq!(byte_of_reply(&one, COMM::Success), Ok(9));
    assert_eq!(word_of_reply(&one, COMM::Success, Endian::SmallEndian), Err(COMM::RxCorrupt));
    assert_eq!(word_of_reply(&short, COMM::Success, Endian::SmallEndian), Err(COMM::RxCorrupt));
    assert_eq!(
        signed_of_reply(&short, COMM::Success, Endian::SmallEndian, 15),
        Err(COMM::RxCorrupt)
    );
    assert_eq!(bytes_of_word(0x1234, Endian::SmallEndian), (0x34, 0x12));
    assert_eq!(bytes_of_word(0x1234, Endian::BigEndian), (0x12, 0x34));
    assert_eq!(bytes_of_word(0xABCD_1234, Endian::SmallEndian), (0x34, 0x12));
}

#[test]
fn read_steps_on_a_handler() {
    let mut ph = open_handler(Endian::SmallEndian);
    assert_eq!(read_signed(&mut ph, 1, 56, 15), Err(COMM::RxWaiting));
    ph.port_handler.push_received(&status_frame(1, 0, &[0x05, 0x80]));
    assert_eq!(read_signed(&mut ph, 1, 56, 15), Ok(-5));
    assert_eq!(read_word(&mut ph, 1, 3), Err(COMM::RxWaiting));
    ph.port_handler.push_received(&status_frame(1, 0, &[0x05, 0x80]));
    assert_eq!(read_word(&mut ph, 1, 3), Ok(0x8005));
    assert_eq!(read_byte(&mut ph, 1, 62), Err(COMM::RxWaiting));
    ph.port_handler.push_received(&status_frame(1, 0, &[120]));
    assert_eq!(read_byte(&mut ph, 1, 62), Ok(120));
}

#[test]
fn a_read_is_allowed_the_time_of_its_reply() {
    let mut ph = open_handler(Endian::SmallEndian);
    ph.port_handler.set_current_time(100);
    assert_eq!(ph.read_bytes(1, 56, 15).1, COMM::RxWaiting);
    let allowed = (15 + 6 + 3) * 10_000 + 50_000_000;
    ph.port_handler.set_current_time(100 + allowed);
    assert_eq!(ph.read_bytes(1, 56, 15).1, COMM::RxWaiting);
    ph.port_handler.set_current_time(100 + allowed + 1);
    assert_eq!(ph.read_bytes(1, 56, 15).1, COMM::RxTimeout);
    ph.port_handler.set_current_time(1_000_000_000);
    assert_eq!(ph.tx_rx_instruction(1, 0x03, &[40, 1]).1, COMM::RxWaiting);
    let allowed = (6 + 3) * 10_000 + 50_000_000;
    ph.port_handler.set_current_time(1_000_000_000 + allowed);
    assert_eq!(ph.tx_rx_instruction(1, 0x03, &[40, 1]).1, COMM::RxWaiting);
    ph.port_handler.set_current_time(1_000_000_000 + allowed + 1);
    assert_eq!(ph.tx_rx_instruction(1, 0x03, &[40, 1]).1, COMM::RxTimeout);
}

#[test]
fn parameters_of_a_reply() {
    let frame = status_frame(1, 0, &[1, 2, 3]);
    assert_eq!(params_of_reply(&frame, COMM::Success), Ok(vec![1, 2, 3]));
    assert_eq!(params_of_reply(&status_frame(1, 0, &[]), COMM::Success), Ok(vec![]));
    assert_eq!(params_of_reply(&frame, COMM::RxCorrupt), Err(COMM::RxCorrupt));
    assert_eq!(params_of_reply(&vec![0xFF, 0xFF, 1], COMM::Success), Err(COMM::RxCorrupt));
}

#[test]
fn status_bits_are_told_apart() {
    assert!(ErrorCode::Success.is_set(0));
    assert!(!ErrorCode::Success.is_set(1));
    assert!(ErrorCode::VoltageError.is_set(1));
    assert!(ErrorCode::VoltageError.is_set(0x21));
    assert!(!ErrorCode::VoltageError.is_set(0x22));
    assert!(ErrorCode::AngleError.is_set(0x22));
    assert!(ErrorCode::OverheatError.is_set(4));
    assert!(ErrorCode::OverElementError.is_set(0xFF));
    assert!(ErrorCode::OverloadError.is_set(0x20));
    assert!(!ErrorCode::OverloadError.is_set(0x1F));
}

#[test]
fn handler_gives_its_port_and_checksums() {
    let mut ph = open_handler(Endian::BigEndian);
    assert!(ph.get_port_handler().is_open());
    ph.get_port_handler_mut().push_received(&[1]);
    assert_eq!(ph.port_handler.peek_received(), vec![1]);
    let frame = encode(1, INST::Write, &[40, 1]).unwrap();
    assert_eq!(ph.calculate_checksum(&frame[..7]), frame[7]);
    assert_eq!(ph.calculate_checksum(&[0xFF, 0xFF]), 0xFF);
    assert_eq!(Endian::BigEndian.name(), "BigEndian");
    assert_eq!(Endian::SmallEndian.name(), "SmallEndian");
}

#[test]
fn status_bits_name_their_fault() {
    let ph = open_handler(Endian::BigEndian);
    assert_eq!(ph.get_rx_packet_fault(ErrorCode::Success), None);
    assert_eq!(ph.get_rx_packet_fault(ErrorCode::VoltageError), Some(PortFault::InvalidInput));
    for code in [
        ErrorCode::AngleError,
        ErrorCode::OverheatError,
        ErrorCode::OverElementError,
        ErrorCode::OverloadError,
    ] {
        assert_eq!(ph.get_rx_packet_fault(code), Some(PortFault::InvalidData));
    }
}
