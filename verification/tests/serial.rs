use jade_client::serial::{
    clears_modem_lines, enumerate_devices, Closing, PortInfo, ReadOutcome, UsbDescriptor,
    WriteFailure,
};
use jade_client::{JadeError, JadeTransportKind, SerialTransport};

fn port(name: &str, ids: Option<(u16, u16)>) -> PortInfo {
    PortInfo {
        port_name: name.to_string(),
        usb: ids.map(|(vid, pid)| UsbDescriptor {
            vid,
            pid,
            product: Some(format!("product of {name}")),
            serial_number: None,
        }),
    }
}

fn open(path: &str) -> SerialTransport {
    SerialTransport::open(path, Ok(())).unwrap()
}

#[test]
fn known_bridges_are_offered_in_order() {
    let devices = enumerate_devices(
        vec![
            port("/dev/ttyUSB0", Some((0x10c4, 0xea60))),
            port("/dev/ttyS0", None),
            port("/dev/ttyUSB1", Some((0x1a86, 0x55d4))),
            port("/dev/ttyUSB2", Some((0x0403, 0x6001))),
            port("/dev/ttyUSB3", Some((0x1a86, 0x7523))),
            port("/dev/ttyUSB4", Some((0x1546, 0x01a8))),
            port("/dev/ttyACM0", Some((0x303a, 0x4001))),
            port("/dev/ttyACM1", Some((0x303a, 0x1001))),
            port("/dev/ttyACM2", Some((0x303a, 0x55d4))),
        ],
        false,
    );
    let paths: Vec<&str> = devices.iter().map(|device| device.path.as_str()).collect();
    assert_eq!(
        paths,
        vec![
            "/dev/ttyUSB0",
            "/dev/ttyUSB1",
            "/dev/ttyUSB2",
            "/dev/ttyUSB3",
            "/dev/ttyACM0",
            "/dev/ttyACM1"
        ]
    );
    assert_eq!(devices[0].name, Some("product of /dev/ttyUSB0".to_string()));
    assert_eq!(devices[0].serial_number, None);
    assert_eq!(devices[0].transport, JadeTransportKind::Serial);
}

#[test]
fn dial_in_nodes_are_left_out_where_call_out_nodes_exist() {
    let ports = vec![
        port("/dev/cu.usbserial-1", Some((0x10c4, 0xea60))),
        port("/dev/tty.usbserial-1", Some((0x10c4, 0xea60))),
        port("/dev/cu.modem", Some((1, 2))),
    ];
    let devices = enumerate_devices(ports.clone(), true);
    assert_eq!(devices.len(), 1);
    assert_eq!(devices[0].path, "/dev/cu.usbserial-1");
    assert_eq!(enumerate_devices(ports, false).len(), 2);
    assert!(enumerate_devices(vec![], true).is_empty());
}

#[test]
fn lines_depend_on_the_node() {
    assert!(clears_modem_lines("/dev/ttyUSB0"));
    assert!(clears_modem_lines("/dev/tty.usbserial-1"));
    assert!(!clears_modem_lines("/dev/cu.usbserial-1"));
    assert!(!clears_modem_lines("COM3"));
    assert!(!clears_modem_lines("/dev/tt"));
    assert!(!clears_modem_lines("x/dev/tty"));
    let cleared = SerialTransport::settings("/dev/ttyUSB0");
    assert_eq!(cleared.baud_rate, 115_200);
    assert_eq!(cleared.timeout_millis, 250);
    assert!(!cleared.data_terminal_ready);
    assert!(!cleared.request_to_send);
    let asserted = SerialTransport::settings("/dev/cu.usbserial-1");
    assert!(asserted.data_terminal_ready);
    assert!(asserted.request_to_send);
}

#[test]
fn failed_open_is_a_connection_error() {
    match SerialTransport::open("/dev/ttyUSB0", Err("busy".to_string())) {
        Err(JadeError::ConnectionError { error_details }) => {
            assert_eq!(error_details, "could not open /dev/ttyUSB0: busy");
        }
        _ => panic!("a failed open was taken"),
    }
}

#[test]
fn writes_are_cut_and_lose_nothing() {
    let transport = open("/dev/ttyUSB0");
    let data: Vec<u8> = (0..2921u32).map(|n| n as u8).collect();
    let chunks = transport.write_all(&data).unwrap();
    let sizes: Vec<usize> = chunks.iter().map(|chunk| chunk.len()).collect();
    assert_eq!(sizes, vec![509, 509, 509, 509, 509, 376]);
    assert_eq!(chunks.concat(), data);
    assert_eq!(transport.write_all(&data[0..1018]).unwrap().len(), 2);
    assert_eq!(transport.write_all(&data[0..1]).unwrap(), vec![vec![0u8]]);
    assert!(transport.write_all(&[]).unwrap().is_empty());
}

#[test]
fn write_failures_are_told_apart() {
    assert!(SerialTransport::on_written(Ok(())).is_ok());
    match SerialTransport::on_written(Err(WriteFailure::Write("x".to_string()))) {
        Err(JadeError::TransportError { error_details }) => {
            assert_eq!(error_details, "serial write failed: x");
        }
        other => panic!("{other:?}"),
    }
    match SerialTransport::on_written(Err(WriteFailure::Flush("x".to_string()))) {
        Err(JadeError::TransportError { error_details }) => {
            assert_eq!(error_details, "serial flush failed: x");
        }
        other => panic!("{other:?}"),
    }
    match SerialTransport::on_written(Err(WriteFailure::Task("x".to_string()))) {
        Err(JadeError::IoError { error_details }) => {
            assert_eq!(error_details, "serial write task failed: x");
        }
        other => panic!("{other:?}"),
    }
}

#[test]
fn read_takes_what_arrived() {
    let buffer = open("/dev/ttyUSB0").read_some().unwrap();
    assert_eq!(buffer, vec![0u8; 4096]);
    let read = |outcome| SerialTransport::on_read(vec![1, 2, 3, 4], outcome);
    assert_eq!(read(ReadOutcome::Filled(2)).unwrap(), vec![1, 2]);
    assert_eq!(read(ReadOutcome::Filled(4)).unwrap(), vec![1, 2, 3, 4]);
    assert_eq!(read(ReadOutcome::Filled(0)).unwrap(), Vec::<u8>::new());
    assert_eq!(read(ReadOutcome::TimedOut).unwrap(), Vec::<u8>::new());
    match read(ReadOutcome::Failed("x".to_string())) {
        Err(JadeError::TransportError { error_details }) => {
            assert_eq!(error_details, "serial read failed: x");
        }
        other => panic!("{other:?}"),
    }
    match read(ReadOutcome::Task("x".to_string())) {
        Err(JadeError::IoError { error_details }) => {
            assert_eq!(error_details, "serial read task failed: x");
        }
        other => panic!("{other:?}"),
    }
}

#[test]
fn close_matches_open_and_happens_once() {
    let mut linux = open("/dev/ttyUSB0");
    assert_eq!(linux.close(), Closing::Release { clear_lines: true });
    assert_eq!(linux.close(), Closing::Nothing);
    let mut mac = open("/dev/cu.usbserial-1");
    assert_eq!(mac.close(), Closing::Release { clear_lines: false });
    assert!(matches!(mac.write_all(&[1]), Err(JadeError::DeviceDisconnected)));
    assert!(matches!(mac.read_some(), Err(JadeError::DeviceDisconnected)));
    assert!(SerialTransport::on_closed(Ok(())).is_ok());
    match SerialTransport::on_closed(Err("x".to_string())) {
        Err(JadeError::IoError { error_details }) => {
            assert_eq!(error_details, "serial close task failed: x");
        }
        other => panic!("{other:?}"),
    }
}
