use ftservo_sdk::port_handler::{PortFault, PortHandler};
use ftservo_sdk::{create_port_handler, FtServoError, COMM};

#[test]
fn a_new_port_is_closed_at_the_default_rate() {
    let port = PortHandler::new("/dev/ttyUSB0");
    assert_eq!(port.get_port_name(), "/dev/ttyUSB0");
    assert_eq!(port.get_baudrate(), 1_000_000);
    assert!(!port.is_open());
    assert!(!port.is_using());
    assert_eq!(port.get_current_time(), Some(0));
    let same = create_port_handler("/dev/ttyUSB0");
    assert_eq!(same.get_port_name(), "/dev/ttyUSB0");
    assert!(!same.is_open());
}

#[test]
fn a_closed_port_takes_and_gives_nothing() {
    let mut port = PortHandler::new("bus");
    let error = port.write_port(&[1, 2, 3]).unwrap_err();
    assert_eq!(error.kind(), std::io::ErrorKind::NotFound);
    let error = port.read_port(4).unwrap_err();
    assert_eq!(error.kind(), std::io::ErrorKind::NotFound);
    let error = port.get_bytes_available().unwrap_err();
    assert_eq!(error.kind(), serialport::ErrorKind::Io(std::io::ErrorKind::NotConnected));
    assert_eq!(error.description, "Port not open");
    port.push_received(&[9, 9]);
    port.open_port();
    assert_eq!(port.get_bytes_available().unwrap(), 0);
    assert_eq!(port.take_outgoing(), Vec::<u8>::new());
}

#[test]
fn an_open_port_queues_in_both_directions() {
    let mut port = PortHandler::new("bus");
    port.open_port();
    assert!(port.is_open());
    assert_eq!(port.write_port(&[1, 2, 3]).unwrap(), 3);
    assert_eq!(port.write_port(&[4]).unwrap(), 1);
    assert_eq!(port.take_outgoing(), vec![1, 2, 3, 4]);
    assert_eq!(port.take_outgoing(), Vec::<u8>::new());
    port.push_received(&[10, 11, 12]);
    port.push_received(&[13]);
    assert_eq!(port.get_bytes_available().unwrap(), 4);
    assert_eq!(port.peek_received(), vec![10, 11, 12, 13]);
    assert_eq!(port.read_port(3).unwrap(), vec![10, 11, 12]);
    assert_eq!(port.read_port(3).unwrap(), vec![13]);
    assert_eq!(port.read_port(3).unwrap(), Vec::<u8>::new());
}

#[test]
fn clearing_and_closing() {
    let mut port = PortHandler::new("bus");
    port.open_port();
    port.write_port(&[1]).unwrap();
    port.push_received(&[2]);
    port.clear_input();
    assert_eq!(port.get_bytes_available().unwrap(), 0);
    assert_eq!(port.peek_received(), Vec::<u8>::new());
    port.push_received(&[3]);
    port.clear_port();
    assert_eq!(port.take_outgoing(), Vec::<u8>::new());
    assert_eq!(port.peek_received(), Vec::<u8>::new());
    port.write_port(&[4]).unwrap();
    port.push_received(&[5]);
    port.close_port();
    assert!(!port.is_open());
    assert_eq!(port.take_outgoing(), vec![4]);
    assert_eq!(port.peek_received(), Vec::<u8>::new());
}

#[test]
fn only_supported_baud_rates_are_taken() {
    let mut port = PortHandler::new("bus");
    for baud in [4800, 9600, 14400, 19200, 38400, 57600, 115200, 128000, 250000, 500000, 1000000] {
        assert_eq!(port.get_c_flag_baud(baud), Some(baud));
        assert!(port.set_baudrate(baud).is_ok());
        assert_eq!(port.get_baudrate(), baud);
    }
    for baud in [0, 1, 4799, 76800, 2_000_000, u32::MAX] {
        assert_eq!(port.get_c_flag_baud(baud), None);
        let error = port.set_baudrate(baud).unwrap_err();
        assert_eq!(error.kind(), serialport::ErrorKind::InvalidInput);
        assert_eq!(error.description, "Invalid baudrate");
        assert_eq!(port.get_baudrate(), 1_000_000);
    }
}

#[test]
fn changing_the_rate_of_an_open_port_sets_it_up_anew() {
    let mut port = PortHandler::new("bus");
    port.open_port();
    port.push_received(&[1, 2]);
    port.set_baudrate(115200).unwrap();
    assert!(port.is_open());
    assert_eq!(port.peek_received(), Vec::<u8>::new());
    port.set_packet_timeout(0);
    port.set_current_time(3 * 86805 + 50_000_000);
    assert!(!port.is_packet_timeout());
    port.set_current_time(3 * 86805 + 50_000_001);
    assert!(port.is_packet_timeout());
}

#[test]
fn packet_timeout_is_bytes_plus_slack_plus_latency() {
    let mut port = PortHandler::new("bus");
    port.open_port();
    port.set_current_time(1_000);
    port.set_packet_timeout(8);
    assert_eq!(port.get_time_since_start(), 0);
    port.set_current_time(1_000 + 50_110_000);
    assert_eq!(port.get_time_since_start(), 50_110_000);
    assert!(!port.is_packet_timeout());
    port.set_current_time(1_000 + 50_110_001);
    assert!(port.is_packet_timeout());
    assert!(port.is_packet_timeout());
}

#[test]
fn time_does_not_run_backwards() {
    let mut port = PortHandler::new("bus");
    port.set_current_time(500);
    port.set_current_time(400);
    assert_eq!(port.get_current_time(), Some(500));
    assert_eq!(port.get_time_since_start(), 0);
    port.set_current_time(700);
    assert_eq!(port.get_time_since_start(), 200);
}

#[test]
fn timeout_in_milliseconds() {
    let mut port = PortHandler::new("bus");
    port.set_packet_timeout_millis(2);
    port.set_current_time(2_000_000);
    assert!(!port.is_packet_timeout());
    port.set_current_time(2_000_001);
    assert!(port.is_packet_timeout());
    port.set_packet_timeout_millis(u64::MAX);
    port.set_current_time(u64::MAX);
    assert!(!port.is_packet_timeout());
}

#[test]
fn port_can_be_renamed_and_held() {
    let mut port = PortHandler::new("a");
    port.set_port_name(String::from("b"));
    assert_eq!(port.get_port_name(), "b");
    port.set_using(true);
    assert!(port.is_using());
    port.set_using(false);
    assert!(!port.is_using());
}

#[test]
fn results_map_to_errors() {
    assert!(FtServoError::check(COMM::Success).is_ok());
    assert!(matches!(FtServoError::check(COMM::RxTimeout), Err(FtServoError::Timeout)));
    assert!(matches!(FtServoError::check(COMM::RxCorrupt), Err(FtServoError::ChecksumError)));
    assert!(matches!(
        FtServoError::check(COMM::PortBusy),
        Err(FtServoError::Communication(COMM::PortBusy))
    ));
    assert!(matches!(
        FtServoError::check(COMM::NotAvailable),
        Err(FtServoError::Communication(COMM::NotAvailable))
    ));
}

#[test]
fn a_closed_port_names_what_is_in_the_way() {
    let mut port = PortHandler::new("bus");
    assert_eq!(port.why_no_count(), Some(PortFault::NotConnected));
    assert_eq!(port.why_no_transfer(), Some(PortFault::NotFound));
    assert_eq!(port.why_no_baudrate(115200), None);
    assert_eq!(port.why_no_baudrate(115201), Some(PortFault::InvalidInput));
    port.open_port();
    assert_eq!(port.why_no_count(), None);
    assert_eq!(port.why_no_transfer(), None);
    assert_eq!(port.why_no_baudrate(0), Some(PortFault::InvalidInput));
    port.close_port();
    assert_eq!(port.why_no_count(), Some(PortFault::NotConnected));
    assert_eq!(port.why_no_transfer(), Some(PortFault::NotFound));
}
