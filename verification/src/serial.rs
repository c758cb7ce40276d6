//! USB CDC serial links.
//!
//! What is decided about a serial port: which ports are Jade units, how a port
//! is opened, how bytes are cut into writes, and what the outcome of a read, a
//! write or a close means.

use vstd::prelude::*;

use crate::error::{self, Failure, JadeError};
use crate::text;
use crate::transport;
use crate::types::{Device, JadeDeviceInfo, JadeTransportKind};

verus! {

/// Jade's serial link speed.
pub const BAUD_RATE: u32 = 115_200;

/// How long an open port waits for bytes, in milliseconds, unless told
/// otherwise.
pub const PORT_TIMEOUT_MILLIS: u64 = 250;

/// Serial has no MTU, but chunking keeps writes off the stack and matches the
/// Bluetooth path closely enough that both exercise the same code.
pub const CHUNK_BYTES: usize = 509;

/// The most bytes that one read takes.
pub const READ_BYTES: usize = 4096;

/// The USB descriptor of a port.
#[derive(Debug, Clone)]
pub struct UsbDescriptor {
    pub vid: u16,
    pub pid: u16,
    pub product: Option<String>,
    pub serial_number: Option<String>,
}

/// A serial port of the host.
#[derive(Debug, Clone)]
pub struct PortInfo {
    pub port_name: String,
    /// The USB descriptor, if the port is a USB port.
    pub usb: Option<UsbDescriptor>,
}

/// The mathematical value of a [`PortInfo`].
pub struct Port {
    pub name: Seq<char>,
    pub usb: Option<Usb>,
}

/// The mathematical value of a [`UsbDescriptor`].
pub struct Usb {
    pub vid: u16,
    pub pid: u16,
    pub product: Option<Seq<char>>,
    pub serial_number: Option<Seq<char>>,
}

impl View for UsbDescriptor {
    type V = Usb;

    open spec fn view(&self) -> Usb {
        Usb {
            vid: self.vid,
            pid: self.pid,
            product: text::optional(self.product),
            serial_number: text::optional(self.serial_number),
        }
    }
}

impl View for PortInfo {
    type V = Port;

    open spec fn view(&self) -> Port {
        Port {
            name: self.port_name@,
            usb: match self.usb {
                Some(usb) => Some(usb@),
                None => None,
            },
        }
    }
}

/// USB vendor and product pairs seen on Jade and Jade Plus units, including the
/// bridge chips used by DIY builds.
pub open spec fn known_usb_id(vid: u16, pid: u16) -> bool {
    ||| vid == 0x10c4 && pid == 0xea60
    ||| vid == 0x1a86 && pid == 0x55d4
    ||| vid == 0x0403 && pid == 0x6001
    ||| vid == 0x1a86 && pid == 0x7523
    ||| vid == 0x303a && pid == 0x4001
    ||| vid == 0x303a && pid == 0x1001
}

/// The device behind a port, if it is offered as one. With `call_out_only`,
/// only call-out nodes are.
pub open spec fn offered(port: Port, call_out_only: bool) -> Option<Device> {
    match port.usb {
        Some(usb) => if known_usb_id(usb.vid, usb.pid) && (call_out_only
            ==> "/dev/cu."@.is_prefix_of(port.name)) {
            Some(
                Device {
                    path: port.name,
                    transport: JadeTransportKind::Serial,
                    name: usb.product,
                    serial_number: usb.serial_number,
                },
            )
        } else {
            None
        },
        None => None,
    }
}

/// The devices behind ports, in the order of the ports.
pub open spec fn discovered(ports: Seq<Port>, call_out_only: bool) -> Seq<Device>
    decreases ports.len(),
{
    if ports.len() == 0 {
        Seq::empty()
    } else {
        let before = discovered(ports.drop_last(), call_out_only);
        match offered(ports.last(), call_out_only) {
            Some(device) => before.push(device),
            None => before,
        }
    }
}

/// The values of ports.
pub open spec fn port_values(ports: Seq<PortInfo>) -> Seq<Port> {
    ports.map_values(|port: PortInfo| port@)
}

/// The values of devices.
pub open spec fn device_values(devices: Seq<JadeDeviceInfo>) -> Seq<Device> {
    devices.map_values(|device: JadeDeviceInfo| device@)
}

/// Whether a USB vendor and product pair is that of a Jade unit.
fn is_known_usb_id(vid: u16, pid: u16) -> (r: bool)
    ensures
        r == known_usb_id(vid, pid),
{
    match (vid, pid) {
        (0x10c4, 0xea60) => true,  // Silicon Labs CP210x, Jade v1
        (0x1a86, 0x55d4) => true,  // WCH CH9102
        (0x0403, 0x6001) => true,  // FTDI FT232
        (0x1a86, 0x7523) => true,  // WCH CH340
        (0x303a, 0x4001) => true,  // Espressif native USB, Jade Plus
        (0x303a, 0x1001) => true,  // Espressif USB serial/JTAG
        _ => false,
    }
}

/// The device behind a port, if it is offered as one.
fn offer(port: PortInfo, call_out_only: bool) -> (r: Option<JadeDeviceInfo>)
    ensures
        match r {
            Some(device) => Some(device@),
            None => None,
        } == offered(port@, call_out_only),
{
    match port.usb {
        Some(usb) => {
            if !is_known_usb_id(usb.vid, usb.pid) {
                return None;
            }
            if call_out_only && !text::starts_with(port.port_name.as_str(), "/dev/cu.") {
                return None;
            }
            Some(
                JadeDeviceInfo {
                    path: port.port_name,
                    transport: JadeTransportKind::Serial,
                    name: usb.product,
                    serial_number: usb.serial_number,
                },
            )
        },
        None => None,
    }
}

/// Picks the Jade units out of the ports of the host.
///
/// Only ports whose USB descriptor matches a known Jade bridge are returned, so
/// a modem or GPS receiver on the same machine is not offered as a Jade.
///
/// `call_out_only` is for macOS, which exposes every USB serial device twice:
/// `/dev/cu.*` is the call-out node and `/dev/tty.*` the dial-in one. Opening
/// the dial-in node blocks until carrier detect is asserted, which never
/// happens on a Jade, so offering it would hand the caller a path that hangs.
pub fn enumerate_devices(ports: Vec<PortInfo>, call_out_only: bool) -> (r: Vec<JadeDeviceInfo>)
    ensures
        device_values(r@) == discovered(port_values(ports@), call_out_only),
{
    let ghost all = ports@;
    let ghost values = port_values(all);
    let mut devices: Vec<JadeDeviceInfo> = Vec::new();
    assert(device_values(devices@) =~= Seq::empty());
    assert(values.take(0) =~= Seq::empty());
    for port in it: ports.into_iter()
        invariant
            it.seq() == all,
            values == port_values(all),
            device_values(devices@) == discovered(values.take(it.index() as int), call_out_only),
    {
        let ghost before = devices@;
        let ghost i = it.index() as int;
        assert(values.take(i + 1).drop_last() =~= values.take(i));
        assert(values.take(i + 1).last() == port@);
        match offer(port, call_out_only) {
            Some(device) => {
                devices.push(device);
                assert(device_values(devices@) =~= device_values(before).push(device@));
            },
            None => {},
        }
    }
    assert(values.take(values.len() as int) =~= values);
    devices
}

/// Whether DTR and RTS have to be cleared for `path`.
///
/// On the bridge chips these lines drive the ESP32's EN and BOOT pins, so the
/// wrong state reboots the device or holds it in reset. The correct state is
/// not fixed, it depends on which device node is being opened:
///
/// - `/dev/tty*`, the Linux node and the macOS dial-in node, needs both cleared,
///   because the kernel asserts them on open and that reboots the hardware.
/// - `/dev/cu.*`, the macOS call-out node, needs both left asserted. Clearing
///   them there stops the device answering at all, and it stays unresponsive
///   until it is power cycled.
pub fn clears_modem_lines(path: &str) -> (r: bool)
    ensures
        r == "/dev/tty"@.is_prefix_of(path@),
{
    text::starts_with(path, "/dev/tty")
}

/// How to open a port.
#[derive(Debug, Clone, Copy)]
pub struct PortSettings {
    pub baud_rate: u32,
    pub timeout_millis: u64,
    /// The state of DTR once the port is open.
    pub data_terminal_ready: bool,
    /// The state of RTS once the port is open.
    pub request_to_send: bool,
}

/// What to do to close a port.
#[derive(Debug, Clone, Copy, PartialEq, Eq, Structural)]
pub enum Closing {
    /// Nothing, the port is closed.
    Nothing,
    /// Release the port, after clearing DTR and RTS if `clear_lines`.
    Release { clear_lines: bool },
}

/// Why a write failed.
#[derive(Debug, Clone)]
pub enum WriteFailure {
    Write(String),
    Flush(String),
    /// The task that writes did not finish.
    Task(String),
}

/// What a read came to.
#[derive(Debug, Clone)]
pub enum ReadOutcome {
    /// This many bytes of the buffer were filled.
    Filled(usize),
    /// Nothing arrived in time.
    TimedOut,
    Failed(String),
    /// The task that reads did not finish.
    Task(String),
}

/// A serial link to a device.
#[derive(Debug)]
pub struct SerialTransport {
    open: bool,
    /// What [`clears_modem_lines`] decided for the path, so close matches open.
    clear_lines: bool,
}

impl SerialTransport {
    /// Whether the port is open.
    pub closed spec fn is_open(&self) -> bool {
        self.open
    }

    /// Whether DTR and RTS were cleared when the port was opened.
    pub closed spec fn cleared(&self) -> bool {
        self.clear_lines
    }

    /// How to open the port at `path`.
    pub fn settings(path: &str) -> (r: PortSettings)
        ensures
            r.baud_rate == BAUD_RATE == 115_200,
            r.timeout_millis == PORT_TIMEOUT_MILLIS == 250,
            r.data_terminal_ready == !"/dev/tty"@.is_prefix_of(path@),
            r.request_to_send == !"/dev/tty"@.is_prefix_of(path@),
    {
        let clear_lines = clears_modem_lines(path);
        PortSettings {
            baud_rate: BAUD_RATE,
            timeout_millis: PORT_TIMEOUT_MILLIS,
            data_terminal_ready: !clear_lines,
            request_to_send: !clear_lines,
        }
    }

    /// Takes the outcome of opening the port at `path`.
    pub fn open(path: &str, opened: Result<(), String>) -> (r: Result<SerialTransport, JadeError>)
        ensures
            match opened {
                Ok(_) => {
                    &&& r matches Ok(transport)
                    &&& transport.is_open()
                    &&& transport.cleared() == "/dev/tty"@.is_prefix_of(path@)
                },
                Err(message) => {
                    &&& r matches Err(error)
                    &&& error@ == Failure::Connection(
                        "could not open "@ + path@ + ": "@ + message@,
                    )
                },
            },
    {
        match opened {
            Ok(_) => Ok(SerialTransport { open: true, clear_lines: clears_modem_lines(path) }),
            Err(message) => {
                let details = text::concat("could not open ", path);
                let details = text::concat(details.as_str(), ": ");
                let details = text::concat(details.as_str(), message.as_str());
                Err(JadeError::ConnectionError { error_details: details })
            },
        }
    }

    /// The writes that send `data`, in order and without a pause between them.
    pub fn write_all(&self, data: &[u8]) -> (r: Result<Vec<Vec<u8>>, JadeError>)
        ensures
            match r {
                Ok(chunks) => self.is_open() && transport::byte_values(chunks@)
                    == transport::pieces(data@, CHUNK_BYTES as nat) && CHUNK_BYTES == 509,
                Err(error) => !self.is_open() && error@ == Failure::Disconnected,
            },
    {
        if !self.open {
            return Err(JadeError::DeviceDisconnected);
        }
        Ok(transport::chunked(data, CHUNK_BYTES))
    }

    /// Takes the outcome of the writes.
    pub fn on_written(outcome: Result<(), WriteFailure>) -> (r: Result<(), JadeError>)
        ensures
            error::outcome(r) == match outcome {
                Ok(_) => Ok(()),
                Err(WriteFailure::Write(message)) => Err(
                    Failure::Transport("serial write failed: "@ + message@),
                ),
                Err(WriteFailure::Flush(message)) => Err(
                    Failure::Transport("serial flush failed: "@ + message@),
                ),
                Err(WriteFailure::Task(message)) => Err(
                    Failure::Io("serial write task failed: "@ + message@),
                ),
            },
    {
        match outcome {
            Ok(_) => Ok(()),
            Err(WriteFailure::Write(message)) => Err(
                JadeError::transport(text::concat("serial write failed: ", message.as_str())),
            ),
            Err(WriteFailure::Flush(message)) => Err(
                JadeError::transport(text::concat("serial flush failed: ", message.as_str())),
            ),
            Err(WriteFailure::Task(message)) => Err(
                JadeError::IoError {
                    error_details: text::concat("serial write task failed: ", message.as_str()),
                },
            ),
        }
    }

    /// A buffer to read into.
    pub fn read_some(&self) -> (r: Result<Vec<u8>, JadeError>)
        ensures
            match r {
                Ok(buffer) => self.is_open() && READ_BYTES == 4096 && buffer@ == Seq::new(
                    READ_BYTES as nat,
                    |i: int| 0u8,
                ),
                Err(error) => !self.is_open() && error@ == Failure::Disconnected,
            },
    {
        if !self.open {
            return Err(JadeError::DeviceDisconnected);
        }
        let buffer: Vec<u8> = vec![0u8; READ_BYTES];
        assert(buffer@ =~= Seq::new(READ_BYTES as nat, |i: int| 0u8));
        Ok(buffer)
    }

    /// Takes the outcome of a read into `buffer`.
    ///
    /// A timeout means nothing arrived, which is the normal state while the user
    /// is deciding on the device.
    pub fn on_read(buffer: Vec<u8>, outcome: ReadOutcome) -> (r: Result<Vec<u8>, JadeError>)
        ensures
            error::outcome(r) == match outcome {
                ReadOutcome::Filled(n) => Ok(
                    if n <= buffer@.len() {
                        buffer@.take(n as int)
                    } else {
                        buffer@
                    },
                ),
                ReadOutcome::TimedOut => Ok(Seq::empty()),
                ReadOutcome::Failed(message) => Err(
                    Failure::Transport("serial read failed: "@ + message@),
                ),
                ReadOutcome::Task(message) => Err(
                    Failure::Io("serial read task failed: "@ + message@),
                ),
            },
    {
        match outcome {
            ReadOutcome::Filled(n) => {
                let mut buffer = buffer;
                buffer.truncate(n);
                Ok(buffer)
            },
            ReadOutcome::TimedOut => Ok(Vec::new()),
            ReadOutcome::Failed(message) => Err(
                JadeError::transport(text::concat("serial read failed: ", message.as_str())),
            ),
            ReadOutcome::Task(message) => Err(
                JadeError::IoError {
                    error_details: text::concat("serial read task failed: ", message.as_str()),
                },
            ),
        }
    }

    /// Closes the link.
    ///
    /// The lines are cleared only where open cleared them. Dropping the lines on
    /// a call-out node leaves the device unresponsive until it is power cycled.
    pub fn close(&mut self) -> (r: Closing)
        ensures
            !final(self).is_open(),
            final(self).cleared() == old(self).cleared(),
            r == if old(self).is_open() {
                (Closing::Release { clear_lines: old(self).cleared() })
            } else {
                Closing::Nothing
            },
    {
        if !self.open {
            return Closing::Nothing;
        }
        self.open = false;
        Closing::Release { clear_lines: self.clear_lines }
    }

    /// Takes the outcome of the task that closes the link.
    pub fn on_closed(outcome: Result<(), String>) -> (r: Result<(), JadeError>)
        ensures
            error::outcome(r) == match outcome {
                Ok(_) => Ok(()),
                Err(message) => Err(Failure::Io("serial close task failed: "@ + message@)),
            },
    {
        match outcome {
            Ok(_) => Ok(()),
            Err(message) => Err(
                JadeError::IoError {
                    error_details: text::concat("serial close task failed: ", message.as_str()),
                },
            ),
        }
    }
}

/// A port is offered as a Jade if and only if it is a USB port with a known
/// descriptor, and a call-out node where only those are wanted.
pub proof fn only_jade_units_are_offered(ports: Seq<Port>, call_out_only: bool)
    ensures
        forall|device: Device|
            discovered(ports, call_out_only).contains(device) <==> exists|i: int|
                0 <= i < ports.len() && offered(#[trigger] ports[i], call_out_only) == Some(
                    device,
                ),
    decreases ports.len(),
{
    if ports.len() > 0 {
        let rest = ports.drop_last();
        only_jade_units_are_offered(rest, call_out_only);
        let found = discovered(ports, call_out_only);
        let before = discovered(rest, call_out_only);
        assert forall|device: Device| found.contains(device) <==> exists|i: int|
            0 <= i < ports.len() && offered(#[trigger] ports[i], call_out_only) == Some(device) by {
            if found.contains(device) {
                let k = found.index_of(device);
                if k < before.len() {
                    assert(before[k] == device);
                    assert(before.contains(device));
                    let i = choose|i: int|
                        0 <= i < rest.len() && offered(#[trigger] rest[i], call_out_only) == Some(
                            device,
                        );
                    assert(ports[i] == rest[i]);
                } else {
                    assert(offered(ports[ports.len() - 1], call_out_only) == Some(device));
                }
            }
            if exists|i: int|
                0 <= i < ports.len() && offered(#[trigger] ports[i], call_out_only) == Some(
                    device,
                ) {
                let i = choose|i: int|
                    0 <= i < ports.len() && offered(#[trigger] ports[i], call_out_only) == Some(
                        device,
                    );
                if i < rest.len() {
                    assert(rest[i] == ports[i]);
                    assert(before.contains(device));
                    assert(found[before.index_of(device)] == device);
                } else {
                    assert(found[before.len() as int] == device);
                }
            }
        }
    }
}

} // verus!
