use ftservo_sdk::group_sync_write::GroupError;
use ftservo_sdk::packet::{encode, encode_raw};
use ftservo_sdk::port_handler::PortHandler;
use ftservo_sdk::scservo_def::{COMM, INST};
use ftservo_sdk::word::Endian;
use ftservo_sdk::{GroupSyncRead, GroupSyncWrite, ProtocolPacketHandler};

fn open_handler() -> ProtocolPacketHandler {
    let mut port = PortHandler::new("bus");
    port.open_port();
    ProtocolPacketHandler::new(port, Endian::BigEndian)
}

fn status_frame(id: u8, error: u8, params: &[u8]) -> Vec<u8> {
    encode_raw(id, error, params).unwrap()
}

fn sent(ph: &mut ProtocolPacketHandler) -> Vec<u8> {
    ph.port_handler.take_outgoing()
}

#[test]
fn sync_write_of_two_devices_is_one_frame() {
    let mut group = GroupSyncWrite::new(open_handler(), 42, 6);
    assert_eq!(group.add_param(1, vec![0, 0, 8, 0xE8, 3, 0x09]), Ok(()));
    assert_eq!(group.add_param(2, vec![0, 0, 0, 0, 0, 0]), Ok(()));
    assert_eq!(group.tx_packet(), COMM::Success);
    let frame = sent(group.get_handler_mut());
    let params = [
        0x2A, 0x06, 0x01, 0x00, 0x00, 0x08, 0xE8, 0x03, 0x09, 0x02, 0x00, 0x00, 0x00, 0x00, 0x00,
        0x00,
    ];
    assert_eq!(frame, encode(0xFE, INST::SyncWrite, &params).unwrap());
    assert_eq!(&frame[..5], &[0xFF, 0xFF, 0xFE, 18, 0x83]);
    assert_eq!(&frame[5..21], &params);
    assert_eq!(frame.len(), 22);
    assert!(!group.get_handler().port_handler.is_using());
}

#[test]
fn transmitting_twice_sends_the_same_bytes() {
    let mut group = GroupSyncWrite::new(open_handler(), 42, 2);
    for id in 1..=20u8 {
        assert_eq!(group.add_param(id, vec![id, 255 - id]), Ok(()));
    }
    assert_eq!(group.tx_packet(), COMM::Success);
    let first = sent(group.get_handler_mut());
    assert_eq!(group.tx_packet(), COMM::Success);
    let second = sent(group.get_handler_mut());
    assert_eq!(first, second);
    assert_eq!(first.len(), 6 + 2 + 20 * 3);
    group.make_param();
    assert_eq!(group.tx_packet(), COMM::Success);
    assert_eq!(sent(group.get_handler_mut()), first);
}

#[test]
fn the_table_refuses_duplicates_and_long_payloads() {
    let mut group = GroupSyncWrite::new(open_handler(), 42, 2);
    assert_eq!(group.add_param(1, vec![1, 2]), Ok(()));
    assert_eq!(group.add_param(1, vec![3, 4]), Err(GroupError::DuplicateId));
    assert_eq!(group.add_param(1, vec![3, 4, 5]), Err(GroupError::DuplicateId));
    assert_eq!(group.add_param(2, vec![3, 4, 5]), Err(GroupError::PayloadTooLong));
    assert_eq!(group.add_param(2, vec![3]), Ok(()));
    assert_eq!(group.add_param(3, vec![]), Ok(()));
    assert_eq!(group.tx_packet(), COMM::Success);
    assert_eq!(
        sent(group.get_handler_mut()),
        encode(0xFE, INST::SyncWrite, &[42, 2, 1, 1, 2, 2, 3, 3]).unwrap()
    );
}

#[test]
fn removing_and_changing_rebuild_the_buffer() {
    let mut group = GroupSyncWrite::new(open_handler(), 42, 2);
    assert_eq!(group.remove_param(1), Err(GroupError::NotFound));
    assert_eq!(group.change_param(1, vec![0, 0]), Err(GroupError::NotFound));
    assert_eq!(group.change_param(1, vec![0, 0, 0]), Err(GroupError::NotFound));
    group.add_param(1, vec![1, 1]).unwrap();
    group.add_param(2, vec![2, 2]).unwrap();
    group.add_param(3, vec![3, 3]).unwrap();
    assert_eq!(group.tx_packet(), COMM::Success);
    sent(group.get_handler_mut());
    assert_eq!(group.change_param(2, vec![9, 9, 9]), Err(GroupError::PayloadTooLong));
    assert_eq!(group.change_param(2, vec![9, 8]), Ok(()));
    assert_eq!(group.remove_param(1), Ok(()));
    assert_eq!(group.remove_param(1), Err(GroupError::NotFound));
    assert_eq!(group.tx_packet(), COMM::Success);
    assert_eq!(
        sent(group.get_handler_mut()),
        encode(0xFE, INST::SyncWrite, &[42, 2, 2, 9, 8, 3, 3, 3]).unwrap()
    );
    assert_eq!(group.add_param(1, vec![7, 7]), Ok(()));
    assert_eq!(group.tx_packet(), COMM::Success);
    assert_eq!(
        sent(group.get_handler_mut()),
        encode(0xFE, INST::SyncWrite, &[42, 2, 2, 9, 8, 3, 3, 3, 1, 7, 7]).unwrap()
    );
}

#[test]
fn an_empty_group_has_nothing_to_send() {
    let mut group = GroupSyncWrite::new(open_handler(), 42, 2);
    assert_eq!(group.tx_packet(), COMM::NotAvailable);
    group.add_param(1, vec![1, 1]).unwrap();
    group.clear_param();
    assert_eq!(group.tx_packet(), COMM::NotAvailable);
    assert_eq!(sent(group.get_handler_mut()), Vec::<u8>::new());
    let mut read = GroupSyncRead::new(open_handler(), 56, 2);
    assert_eq!(read.tx_packet(), COMM::NotAvailable);
    assert_eq!(read.rx_packet(), COMM::NotAvailable);
    assert_eq!(read.tx_rx_packet(), COMM::NotAvailable);
}

#[test]
fn a_group_too_large_for_a_frame_is_a_tx_error() {
    let mut group = GroupSyncWrite::new(open_handler(), 42, 6);
    for id in 0..35u8 {
        group.add_param(id, vec![0; 6]).unwrap();
    }
    assert_eq!(group.tx_packet(), COMM::TxError);
    assert_eq!(group.remove_param(34), Ok(()));
    assert_eq!(group.tx_packet(), COMM::Success);
    assert_eq!(sent(group.get_handler_mut()).len(), 6 + 2 + 34 * 7);
}

#[test]
fn transmission_results_pass_through() {
    let closed = ProtocolPacketHandler::new(PortHandler::new("bus"), Endian::BigEndian);
    let mut group = GroupSyncWrite::new(closed, 42, 1);
    group.add_param(1, vec![1]).unwrap();
    assert_eq!(group.tx_packet(), COMM::TxFail);
    group.get_handler_mut().port_handler.open_port();
    group.get_handler_mut().port_handler.set_using(true);
    assert_eq!(group.tx_packet(), COMM::PortBusy);
}

fn read_group(ids: &[u8]) -> GroupSyncRead {
    let mut group = GroupSyncRead::new(open_handler(), 56, 2);
    for id in ids {
        assert_eq!(group.add_param(*id), Ok(()));
    }
    group
}

#[test]
fn sync_read_requests_the_window_from_the_group() {
    let mut group = read_group(&[1, 2, 3]);
    assert_eq!(group.add_param(2), Err(GroupError::DuplicateId));
    assert_eq!(group.tx_packet(), COMM::Success);
    assert_eq!(
        group.ph.port_handler.take_outgoing(),
        encode(0xFE, INST::SyncRead, &[56, 2, 1, 2, 3]).unwrap()
    );
    assert_eq!(group.remove_param(2), Ok(()));
    assert_eq!(group.remove_param(2), Err(GroupError::NotFound));
    assert!(group.ph.port_handler.is_using());
    assert_eq!(group.tx_packet(), COMM::PortBusy);
    assert_eq!(group.ph.ping(1), COMM::PortBusy);
    group.ph.port_handler.set_current_time(1_000_000_000);
    assert_eq!(group.rx_packet(), COMM::RxTimeout);
    assert!(!group.ph.port_handler.is_using());
    assert_eq!(group.tx_packet(), COMM::Success);
    assert_eq!(
        group.ph.port_handler.take_outgoing(),
        encode(0xFE, INST::SyncRead, &[56, 2, 1, 3]).unwrap()
    );
    group.clear_param();
    assert_eq!(group.tx_packet(), COMM::NotAvailable);
}

#[test]
fn all_answers_intact() {
    let mut group = read_group(&[1, 2, 3]);
    assert_eq!(group.tx_rx_packet(), COMM::RxWaiting);
    assert_eq!(group.is_available(1, 56, 2), (false, 0));
    assert_eq!(group.get_data(1, 56, 1), Some(0));
    group.ph.port_handler.push_received(&status_frame(1, 0, &[0x11, 0x12]));
    group.ph.port_handler.push_received(&status_frame(2, 4, &[0x21, 0x22]));
    assert_eq!(group.rx_packet(), COMM::RxWaiting);
    group.ph.port_handler.push_received(&status_frame(3, 0, &[0x31, 0x32]));
    assert_eq!(group.rx_packet(), COMM::Success);
    assert_eq!(group.is_available(1, 56, 2), (true, 0));
    assert_eq!(group.is_available(2, 56, 2), (true, 4));
    assert_eq!(group.is_available(2, 57, 1), (true, 4));
    assert_eq!(group.get_data(1, 56, 1), Some(0x11));
    assert_eq!(group.get_data(1, 57, 1), Some(0x12));
    assert_eq!(group.get_data(2, 56, 1), Some(0x21));
    assert_eq!(group.get_data(3, 57, 1), Some(0x32));
}

#[test]
fn a_corrupt_answer_leaves_the_others_intact() {
    let mut group = read_group(&[1, 2, 3]);
    assert_eq!(group.tx_packet(), COMM::Success);
    let mut corrupt = status_frame(2, 0, &[0x21, 0x22]);
    corrupt[7] ^= 0x10;
    group.ph.port_handler.push_received(&status_frame(1, 0, &[0x11, 0x12]));
    group.ph.port_handler.push_received(&corrupt);
    group.ph.port_handler.push_received(&status_frame(3, 1, &[0x31, 0x32]));
    let result = group.rx_packet();
    assert_ne!(result, COMM::Success);
    assert_eq!(result, COMM::RxCorrupt);
    assert_eq!(group.is_available(1, 56, 2), (true, 0));
    assert_eq!(group.is_available(2, 56, 2), (false, 0));
    assert_eq!(group.is_available(3, 56, 2), (true, 1));
    assert_eq!(group.get_data(1, 56, 1), Some(0x11));
    assert_eq!(group.get_data(1, 57, 1), Some(0x12));
    assert_eq!(group.get_data(2, 56, 1), Some(0));
    assert_eq!(group.get_data(3, 56, 1), Some(0x31));
    assert_eq!(group.get_data(3, 57, 1), Some(0x32));
    assert!(!group.ph.port_handler.is_using());
}

#[test]
fn answers_are_found_in_any_order_and_behind_noise() {
    let mut group = read_group(&[1, 2]);
    assert_eq!(group.tx_packet(), COMM::Success);
    group.ph.port_handler.push_received(&[0x00, 0xFF, 0x42]);
    group.ph.port_handler.push_received(&status_frame(2, 0, &[0x21, 0x22]));
    group.ph.port_handler.push_received(&status_frame(1, 0, &[0x11, 0x12]));
    assert_eq!(group.rx_packet(), COMM::Success);
    assert_eq!(group.get_data(1, 56, 1), Some(0x11));
    assert_eq!(group.get_data(2, 57, 1), Some(0x22));
}

#[test]
fn missing_answers_show_after_the_timeout() {
    let mut group = read_group(&[1, 2]);
    assert_eq!(group.tx_packet(), COMM::Success);
    group.ph.port_handler.push_received(&status_frame(2, 0, &[0x21, 0x22]));
    assert_eq!(group.rx_packet(), COMM::RxWaiting);
    group.ph.port_handler.set_current_time(1_000_000_000);
    assert_eq!(group.rx_packet(), COMM::RxCorrupt);
    assert_eq!(group.is_available(1, 56, 2), (false, 0));
    assert_eq!(group.is_available(2, 56, 2), (true, 0));
    assert!(!group.ph.port_handler.is_using());
    assert_eq!(group.tx_packet(), COMM::Success);
    assert!(group.ph.port_handler.is_using());
    group.ph.port_handler.set_current_time(2_000_000_000);
    assert_eq!(group.rx_packet(), COMM::RxTimeout);
    assert_eq!(group.is_available(2, 56, 2), (true, 0));
}

#[test]
fn availability_is_bounded_by_the_window() {
    let mut group = read_group(&[1]);
    assert_eq!(group.tx_packet(), COMM::Success);
    group.ph.port_handler.push_received(&status_frame(1, 0, &[0x11, 0x12]));
    assert_eq!(group.rx_packet(), COMM::Success);
    assert_eq!(group.is_available(1, 55, 1), (false, 0));
    assert_eq!(group.is_available(1, 56, 0), (true, 0));
    assert_eq!(group.is_available(1, 56, 3), (false, 0));
    assert_eq!(group.is_available(1, 57, 2), (false, 0));
    assert_eq!(group.is_available(1, 58, 0), (true, 0));
    assert_eq!(group.is_available(1, 58, 1), (false, 0));
    assert_eq!(group.is_available(9, 56, 1), (false, 0));
    assert_eq!(group.is_available(1, 255, 255), (false, 0));
    assert_eq!(group.get_data(1, 55, 1), None);
    assert_eq!(group.get_data(1, 58, 1), None);
    assert_eq!(group.get_data(1, 56, 2), None);
    assert_eq!(group.get_data(1, 56, 0), None);
    assert_eq!(group.get_data(9, 56, 1), None);
}

#[test]
fn read_rx_finds_one_devices_answer() {
    let group = read_group(&[1]);
    let mut stream = status_frame(2, 0, &[0x21, 0x22]);
    stream.extend(status_frame(1, 8, &[0x11, 0x12]));
    assert_eq!(group.read_rx(&stream, 1, 2), (vec![8, 0x11, 0x12], COMM::Success));
    assert_eq!(group.read_rx(&stream, 2, 2), (vec![0, 0x21, 0x22], COMM::Success));
    assert_eq!(group.read_rx(&stream, 3, 2), (vec![], COMM::RxCorrupt));
    assert_eq!(group.read_rx(&stream, 1, 3), (vec![], COMM::RxCorrupt));
    assert_eq!(group.read_rx(&stream, 1, 255), (vec![], COMM::RxCorrupt));
    assert_eq!(group.read_rx(&stream[..stream.len() - 1], 1, 2), (vec![], COMM::RxCorrupt));
    let mut twice = status_frame(1, 0, &[1, 2]);
    twice[5] ^= 0xFF;
    twice.extend(status_frame(1, 0, &[3, 4]));
    assert_eq!(group.read_rx(&twice, 1, 2), (vec![0, 3, 4], COMM::Success));
}

#[test]
fn the_group_is_allowed_the_time_of_all_answers() {
    let mut group = read_group(&[1, 2, 3]);
    group.get_handler_mut().port_handler.set_current_time(50);
    assert_eq!(group.tx_packet(), COMM::Success);
    let allowed = (3 * 8 + 3) * 10_000 + 50_000_000;
    group.get_handler_mut().port_handler.push_received(&status_frame(1, 0, &[1, 2]));
    group.get_handler_mut().port_handler.set_current_time(50 + allowed);
    assert_eq!(group.rx_packet(), COMM::RxWaiting);
    group.get_handler_mut().port_handler.set_current_time(50 + allowed + 1);
    assert_eq!(group.rx_packet(), COMM::RxCorrupt);
    assert_eq!(group.is_available(1, 56, 2), (true, 0));
    assert!(group.get_handler().port_handler.is_open());
}

#[test]
fn an_emptied_group_releases_the_port() {
    let mut group = read_group(&[1, 2]);
    assert_eq!(group.tx_packet(), COMM::Success);
    assert!(group.ph.port_handler.is_using());
    group.clear_param();
    assert!(group.ph.port_handler.is_using());
    assert_eq!(group.ph.ping(1), COMM::PortBusy);
    assert_eq!(group.rx_packet(), COMM::NotAvailable);
    assert!(!group.ph.port_handler.is_using());
    assert_eq!(group.ph.ping(1), COMM::RxWaiting);
}

#[test]
fn a_removed_device_is_asked_no_more() {
    let mut group = read_group(&[7, 8, 9]);
    assert_eq!(group.remove_param(8), Ok(()));
    assert_eq!(group.is_available(8, 56, 2), (false, 0));
    assert_eq!(group.add_param(8), Ok(()));
    assert_eq!(group.is_available(8, 56, 2), (false, 0));
    assert_eq!(group.remove_param(7), Ok(()));
    group.make_param();
    assert_eq!(group.tx_packet(), COMM::Success);
    assert_eq!(
        group.ph.port_handler.take_outgoing(),
        encode(0xFE, INST::SyncRead, &[56, 2, 9, 8]).unwrap()
    );
}
