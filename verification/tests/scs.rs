use ftservo_sdk::packet::{encode, encode_raw};
use ftservo_sdk::scs::{frame_for, SCS};
use ftservo_sdk::scservo_def::INST;

fn status_frame(id: u8, error: u8, params: &[u8]) -> Vec<u8> {
    encode_raw(id, error, params).unwrap()
}

#[test]
fn a_new_bus_end_is_empty() {
    let scs = SCS::new(1, 2);
    assert_eq!(scs.end, 1);
    assert_eq!(scs.level, 2);
    assert_eq!(scs.error, 0);
    assert!(scs.tx_buf.is_empty());
    assert!(scs.wire_out.is_empty());
    assert!(scs.rx_buf.is_empty());
    assert!(scs.pending.is_empty());
    assert!(scs.sync_read_rx_buffer.is_empty());
    assert_eq!(scs.sync_read_rx_packet_buff_max, 0);
}

#[test]
fn bytes_are_staged_then_flushed() {
    let mut scs = SCS::new(0, 1);
    assert_eq!(scs.write_scs(&[1, 2, 3], 2), 2);
    assert_eq!(scs.write_scs(&[4, 5], 9), 2);
    assert_eq!(scs.write_scs1(6), 1);
    assert_eq!(scs.tx_buf, vec![1, 2, 4, 5, 6]);
    assert!(scs.wire_out.is_empty());
    scs.w_flush_scs();
    assert!(scs.tx_buf.is_empty());
    assert_eq!(scs.write_scs1(7), 1);
    scs.w_flush_scs();
    assert_eq!(scs.take_wire_out(), vec![1, 2, 4, 5, 6, 7]);
    assert!(scs.take_wire_out().is_empty());
}

#[test]
fn received_bytes_are_read_oldest_first() {
    let mut scs = SCS::new(0, 1);
    scs.push_received(&[1, 2, 3]);
    scs.push_received(&[4]);
    let mut buf = vec![9];
    assert_eq!(scs.read_scs(&mut buf, 3), 3);
    assert_eq!(buf, vec![1, 2, 3]);
    assert_eq!(scs.read_scs(&mut buf, 3), 1);
    assert_eq!(buf, vec![4]);
    assert_eq!(scs.read_scs(&mut buf, 3), 0);
    assert!(buf.is_empty());
    scs.push_received(&[5]);
    scs.r_flush_scs();
    assert_eq!(scs.read_scs(&mut buf, 1), 0);
}

#[test]
fn words_split_and_join_by_the_byte_order() {
    let low_first = SCS::new(0, 1);
    let high_first = SCS::new(1, 1);
    let (mut a, mut b) = (0u8, 0u8);
    low_first.host_2_scs(&mut a, &mut b, 0x1234);
    assert_eq!((a, b), (0x34, 0x12));
    assert_eq!(low_first.scs_2_host(0x34, 0x12), 0x1234);
    high_first.host_2_scs(&mut a, &mut b, 0x1234);
    assert_eq!((a, b), (0x12, 0x34));
    assert_eq!(high_first.scs_2_host(0x12, 0x34), 0x1234);
    for end in [0u8, 1] {
        let scs = SCS::new(end, 1);
        for w in [0u16, 1, 0x00FF, 0x0100, 0x8000, 0xFFFF] {
            scs.host_2_scs(&mut a, &mut b, w);
            assert_eq!(scs.scs_2_host(a, b), w);
        }
    }
}

#[test]
fn write_buf_stages_the_instruction_frame() {
    let mut scs = SCS::new(0, 1);
    scs.write_buf(1, 0x2A, &[0x00, 0x08], 2, 0x03);
    assert_eq!(scs.tx_buf, encode(1, INST::Write, &[0x2A, 0x00, 0x08]).unwrap());
    let mut scs = SCS::new(0, 1);
    scs.write_buf(1, 7, &[], 0, 0x01);
    assert_eq!(scs.tx_buf, encode(1, INST::Ping, &[]).unwrap());
    let mut scs = SCS::new(0, 1);
    scs.write_buf(1, 7, &[1, 2, 3], 1, 0x04);
    assert_eq!(scs.tx_buf, encode(1, INST::RegWrite, &[7, 1]).unwrap());
    assert_eq!(frame_for(2, 9, &[5], 1, 0x03), encode(2, INST::Write, &[9, 5]).unwrap());
}

#[test]
fn a_write_is_acknowledged_once_the_answer_is_there() {
    let mut scs = SCS::new(0, 1);
    scs.push_received(&[1, 2, 3]);
    assert_eq!(scs.gen_write(1, 40, &[1], 1), 0);
    let request = encode(1, INST::Write, &[40, 1]).unwrap();
    assert_eq!(scs.pending, request);
    assert!(scs.rx_buf.is_empty());
    assert_eq!(scs.take_wire_out(), request);
    let answer = status_frame(1, 4, &[]);
    scs.push_received(&answer[..3]);
    assert_eq!(scs.gen_write(1, 40, &[1], 1), 0);
    assert!(scs.take_wire_out().is_empty());
    assert_eq!(scs.rx_buf.len(), 3);
    scs.push_received(&answer[3..]);
    assert_eq!(scs.gen_write(1, 40, &[1], 1), 1);
    assert_eq!(scs.error, 4);
    assert!(scs.pending.is_empty());
    assert!(scs.rx_buf.is_empty());
    assert_eq!(scs.gen_write(1, 40, &[1], 1), 0);
    assert_eq!(scs.take_wire_out(), request);
}

#[test]
fn ack_judges_six_bytes() {
    let mut scs = SCS::new(0, 1);
    assert_eq!(scs.ack(0xFE), 1);
    assert_eq!(scs.ack(1), 0);
    scs.push_received(&status_frame(1, 32, &[]));
    assert_eq!(scs.ack(1), 1);
    assert_eq!(scs.error, 32);
    scs.push_received(&status_frame(2, 32, &[]));
    assert_eq!(scs.ack(1), 0);
    assert_eq!(scs.error, 0);
    assert!(scs.rx_buf.is_empty());
    let mut bad = status_frame(1, 0, &[]);
    bad[5] ^= 1;
    scs.push_received(&bad);
    assert_eq!(scs.ack(1), 0);
    let mut bad = status_frame(1, 0, &[]);
    bad[0] = 0xFE;
    scs.push_received(&bad);
    assert_eq!(scs.ack(1), 0);
    scs.push_received(&status_frame(1, 0, &[9]));
    assert_eq!(scs.ack(1), 0);
    assert_eq!(scs.rx_buf.len(), 1);
    let mut quiet = SCS::new(0, 0);
    quiet.push_received(&[1, 2, 3, 4, 5, 6, 7]);
    assert_eq!(quiet.ack(1), 1);
    assert_eq!(quiet.rx_buf.len(), 7);
}

#[test]
fn writes_without_answer_end_at_once() {
    let mut scs = SCS::new(0, 0);
    assert_eq!(scs.write_byte(1, 40, 1), 1);
    assert_eq!(scs.write_byte(1, 40, 1), 1);
    let frame = encode(1, INST::Write, &[40, 1]).unwrap();
    let mut twice = frame.clone();
    twice.extend(frame);
    assert_eq!(scs.take_wire_out(), twice);
    let mut scs = SCS::new(0, 1);
    assert_eq!(scs.write_word(0xFE, 42, 0x1234), 1);
    assert_eq!(scs.take_wire_out(), encode(0xFE, INST::Write, &[42, 0x34, 0x12]).unwrap());
    let mut scs = SCS::new(1, 1);
    assert_eq!(scs.write_word(0xFE, 42, 0x1234), 1);
    assert_eq!(scs.take_wire_out(), encode(0xFE, INST::Write, &[42, 0x12, 0x34]).unwrap());
    assert_eq!(scs.reg_write(0xFE, 42, &[1, 2], 2), 1);
    assert_eq!(scs.take_wire_out(), encode(0xFE, INST::RegWrite, &[42, 1, 2]).unwrap());
    assert_eq!(scs.reg_write_action(0), 1);
    assert_eq!(scs.take_wire_out(), encode(0xFE, INST::Action, &[]).unwrap());
    assert_eq!(scs.reg_write_action(5), 0);
    assert_eq!(scs.take_wire_out(), encode(5, INST::Action, &[]).unwrap());
}

#[test]
fn staged_bytes_go_out_in_front_of_a_request() {
    let mut scs = SCS::new(0, 0);
    scs.write_scs1(0x55);
    assert_eq!(scs.write_byte(1, 40, 1), 1);
    let mut expected = vec![0x55];
    expected.extend(encode(1, INST::Write, &[40, 1]).unwrap());
    assert_eq!(scs.take_wire_out(), expected);
}

#[test]
fn a_read_returns_the_data_once_the_answer_is_there() {
    let mut scs = SCS::new(0, 1);
    let mut data = vec![0xAA];
    assert_eq!(scs.read(1, 56, &mut data, 2), 0);
    assert_eq!(data, vec![0xAA]);
    assert_eq!(scs.take_wire_out(), encode(1, INST::Read, &[56, 2]).unwrap());
    let answer = status_frame(1, 2, &[0x34, 0x12]);
    scs.push_received(&answer[..7]);
    assert_eq!(scs.read(1, 56, &mut data, 2), 0);
    assert_eq!(scs.rx_buf.len(), 7);
    scs.push_received(&answer[7..]);
    scs.push_received(&[0x77]);
    assert_eq!(scs.read(1, 56, &mut data, 2), 2);
    assert_eq!(data, vec![0x34, 0x12]);
    assert_eq!(scs.error, 2);
    assert_eq!(scs.rx_buf, vec![0x77]);
    assert!(scs.take_wire_out().is_empty());
}

#[test]
fn a_damaged_read_answer_gives_nothing() {
    let mut scs = SCS::new(0, 1);
    let mut data = vec![];
    assert_eq!(scs.read(1, 56, &mut data, 2), 0);
    let mut answer = status_frame(1, 2, &[0x34, 0x12]);
    answer[6] ^= 0x40;
    scs.push_received(&answer);
    assert_eq!(scs.read(1, 56, &mut data, 2), 0);
    assert!(data.is_empty());
    assert_eq!(scs.error, 0);
    assert!(scs.pending.is_empty());
    let mut scs = SCS::new(0, 1);
    scs.pending = encode(1, INST::Read, &[56, 2]).unwrap();
    let mut answer = status_frame(1, 2, &[0x34, 0x12]);
    answer[1] = 0;
    scs.push_received(&answer);
    assert_eq!(scs.read_reply(&mut data, 2), 0);
}

#[test]
fn bytes_and_words_are_read_or_minus_one() {
    let mut scs = SCS::new(0, 1);
    assert_eq!(scs.read_byte(1, 62), -1);
    scs.push_received(&status_frame(1, 0, &[120]));
    assert_eq!(scs.read_byte(1, 62), 120);
    assert_eq!(scs.read_word(1, 56), -1);
    scs.push_received(&status_frame(1, 0, &[0x34, 0x12]));
    assert_eq!(scs.read_word(1, 56), 0x1234);
    let mut scs = SCS::new(1, 1);
    assert_eq!(scs.read_word(1, 56), -1);
    scs.push_received(&status_frame(1, 0, &[0x34, 0x12]));
    assert_eq!(scs.read_word(1, 56), 0x3412);
}

#[test]
fn ping_returns_the_id_that_answered() {
    let mut scs = SCS::new(0, 1);
    assert_eq!(scs.ping(3), -1);
    assert_eq!(scs.take_wire_out(), encode(3, INST::Ping, &[]).unwrap());
    scs.push_received(&status_frame(3, 8, &[]));
    assert_eq!(scs.ping(3), 3);
    assert_eq!(scs.error, 8);
    assert_eq!(scs.ping(0xFE), -1);
    scs.push_received(&status_frame(7, 0, &[]));
    assert_eq!(scs.ping(0xFE), 7);
    assert_eq!(scs.ping(3), -1);
    scs.push_received(&status_frame(4, 0, &[]));
    assert_eq!(scs.ping(3), -1);
    assert!(scs.pending.is_empty());
}

#[test]
fn sync_write_interleaves_ids_and_data() {
    let mut scs = SCS::new(0, 1);
    scs.push_received(&[1]);
    scs.sync_write(&[1, 2, 3], 2, 42, &[0x10, 0x11, 0x20, 0x21, 0x30, 0x31], 2);
    assert_eq!(
        scs.take_wire_out(),
        encode(0xFE, INST::SyncWrite, &[42, 2, 1, 0x10, 0x11, 2, 0x20, 0x21]).unwrap()
    );
    assert!(scs.rx_buf.is_empty());
    scs.sync_write(&[], 0, 42, &[], 2);
    assert_eq!(scs.take_wire_out(), encode(0xFE, INST::SyncWrite, &[42, 2]).unwrap());
}

#[test]
fn sync_read_collects_and_takes_apart() {
    let mut scs = SCS::new(0, 1);
    scs.sync_read_begin(3, 2);
    assert_eq!(scs.sync_read_rx_packet_buff_max, 24);
    assert_eq!(scs.sync_read_rx_buffer, vec![0u8; 24]);
    assert_eq!(scs.sync_read_rx_packet_buff_len, 0);
    assert_eq!(scs.sync_read_packet_tx(&[1, 2, 3], 3, 56, 2), 0);
    assert_eq!(scs.take_wire_out(), encode(0xFE, INST::SyncRead, &[56, 2, 1, 2, 3]).unwrap());
    assert_eq!(scs.sync_read_rx_packet_len, 2);
    let mut corrupt = status_frame(2, 0, &[0x21, 0x22]);
    corrupt[7] ^= 1;
    scs.push_received(&status_frame(1, 0, &[0x34, 0x92]));
    assert_eq!(scs.sync_read_packet_tx(&[1, 2, 3], 3, 56, 2), 8);
    assert_eq!(scs.sync_read_rx_buffer.len(), 24);
    assert_eq!(&scs.sync_read_rx_buffer[..8], &status_frame(1, 0, &[0x34, 0x92])[..]);
    assert_eq!(&scs.sync_read_rx_buffer[8..], &[0u8; 16][..]);
    scs.push_received(&corrupt);
    scs.push_received(&status_frame(3, 4, &[0x05, 0x04]));
    scs.push_received(&[0xEE]);
    assert_eq!(scs.sync_read_packet_tx(&[1, 2, 3], 3, 56, 2), 24);
    assert_eq!(scs.rx_buf, vec![0xEE]);
    assert!(scs.take_wire_out().is_empty());
    let mut data = vec![];
    assert_eq!(scs.sync_read_packet_rx(1, &mut data), 2);
    assert_eq!(data, vec![0x34, 0x92]);
    assert_eq!(scs.sync_read_packet_to_word(15), -0x1234);
    assert_eq!(scs.sync_read_packet_to_word(15), -1);
    assert_eq!(scs.sync_read_packet_rx(2, &mut data), 0);
    assert_eq!(data, vec![0x34, 0x92]);
    assert_eq!(scs.sync_read_packet_rx(3, &mut data), 2);
    assert_eq!(scs.error, 4);
    assert_eq!(scs.sync_read_packet_to_byte(), 0x05);
    assert_eq!(scs.sync_read_packet_to_byte(), 0x04);
    assert_eq!(scs.sync_read_packet_to_byte(), -1);
    assert_eq!(scs.sync_read_packet_rx(3, &mut data), 2);
    assert_eq!(scs.sync_read_packet_to_word(0), 0x0405);
    assert_eq!(scs.sync_read_packet_rx(3, &mut data), 2);
    assert_eq!(scs.sync_read_packet_to_word(10), -5);
    scs.sync_read_end();
    assert_eq!(scs.sync_read_rx_buffer.len(), 24);
    assert_eq!(scs.sync_read_rx_packet_buff_len, 24);
    assert_eq!(scs.sync_read_rx_packet_buff_max, 24);
    assert_eq!(scs.sync_read_packet_rx(1, &mut data), 2);
    assert_eq!(data, vec![0x34, 0x92]);
    scs.sync_read_begin(3, 2);
    assert_eq!(scs.sync_read_packet_rx(1, &mut data), 0);
}

#[test]
fn sync_read_begin_changes_the_room_alone() {
    let mut scs = SCS::new(1, 1);
    scs.sync_read_begin(1, 2);
    assert_eq!(scs.sync_read_packet_tx(&[1], 1, 56, 2), 0);
    scs.push_received(&status_frame(1, 0, &[7, 8]));
    assert_eq!(scs.sync_read_packet_tx(&[1], 1, 56, 2), 8);
    let mut data = vec![];
    assert_eq!(scs.sync_read_packet_rx(1, &mut data), 2);
    scs.sync_read_begin(2, 0);
    assert_eq!(scs.sync_read_rx_packet_buff_max, 12);
    assert_eq!(scs.sync_read_rx_buffer, vec![0u8; 12]);
    assert_eq!(scs.sync_read_rx_packet_buff_len, 8);
    assert_eq!(scs.sync_read_rx_packet_len, 2);
    assert_eq!(scs.sync_read_rx_packet_packet, vec![7, 8]);
    assert_eq!((scs.level, scs.end, scs.error), (1, 1, 0));
    assert_eq!(scs.sync_read_packet_rx(1, &mut data), 0);
    scs.sync_read_begin(255, 249);
    assert_eq!(scs.sync_read_rx_packet_buff_max, 65025);
    assert_eq!(scs.sync_read_rx_buffer.len(), 65025);
    scs.sync_read_begin(0, 9);
    assert_eq!(scs.sync_read_rx_packet_buff_max, 0);
    assert!(scs.sync_read_rx_buffer.is_empty());
}

#[test]
fn no_answer_is_collected_without_room() {
    let mut scs = SCS::new(0, 1);
    assert_eq!(scs.sync_read_packet_tx(&[1], 1, 62, 1), 0);
    scs.push_received(&status_frame(1, 0, &[120]));
    assert_eq!(scs.sync_read_packet_tx(&[1], 1, 62, 1), 0);
    assert_eq!(scs.rx_buf, status_frame(1, 0, &[120]));
    let mut data = vec![];
    assert_eq!(scs.sync_read_packet_rx(1, &mut data), 0);
}

#[test]
fn a_new_sync_read_request_holds_no_answer() {
    let mut scs = SCS::new(0, 1);
    scs.sync_read_begin(1, 1);
    assert_eq!(scs.sync_read_packet_tx(&[1], 1, 62, 1), 0);
    scs.push_received(&status_frame(1, 0, &[120]));
    scs.push_received(&[1, 2, 3]);
    assert_eq!(scs.sync_read_packet_tx(&[1], 1, 62, 1), 7);
    assert_eq!(scs.rx_buf, vec![1, 2, 3]);
    assert_eq!(scs.sync_read_packet_tx(&[1], 1, 63, 1), 0);
    assert_eq!(scs.sync_read_rx_packet_buff_len, 0);
    assert_eq!(scs.sync_read_rx_buffer.len(), 7);
    assert!(scs.rx_buf.is_empty());
    let mut data = vec![];
    assert_eq!(scs.sync_read_packet_rx(1, &mut data), 0);
}
