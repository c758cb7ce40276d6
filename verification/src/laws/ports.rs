//! Laws about serial ports.

use vstd::prelude::*;

use crate::serial::{self, Port};
use crate::types::{Device, JadeTransportKind};

verus! {

/// Whether a USB vendor and product pair is that of a Jade unit.
pub open spec fn is_jade(ids: (int, int)) -> bool {
    seq![
        (0x10c4int, 0xea60int),
        (0x1a86int, 0x55d4int),
        (0x0403int, 0x6001int),
        (0x1a86int, 0x7523int),
        (0x303aint, 0x4001int),
        (0x303aint, 0x1001int),
    ].contains(ids)
}

proof fn jade_ids(ids: (int, int))
    ensures
        is_jade(ids) <==> {
            ||| ids == (0x10c4int, 0xea60int)
            ||| ids == (0x1a86int, 0x55d4int)
            ||| ids == (0x0403int, 0x6001int)
            ||| ids == (0x1a86int, 0x7523int)
            ||| ids == (0x303aint, 0x4001int)
            ||| ids == (0x303aint, 0x1001int)
        },
{
    let known = seq![
        (0x10c4int, 0xea60int),
        (0x1a86int, 0x55d4int),
        (0x0403int, 0x6001int),
        (0x1a86int, 0x7523int),
        (0x303aint, 0x4001int),
        (0x303aint, 0x1001int),
    ];
    assert(known[0] == (0x10c4int, 0xea60int));
    assert(known[1] == (0x1a86int, 0x55d4int));
    assert(known[2] == (0x0403int, 0x6001int));
    assert(known[3] == (0x1a86int, 0x7523int));
    assert(known[4] == (0x303aint, 0x4001int));
    assert(known[5] == (0x303aint, 0x1001int));
}

/// A port is offered if and only if it is a USB port of a Jade unit and, where
/// only those are wanted, a call-out node; it is offered under its own name, with
/// the descriptor's product and serial number.
pub proof fn a_port_is_offered_for_its_descriptor(port: Port, call_out_only: bool)
    ensures
        serial::discovered(seq![port], call_out_only).len() <= 1,
        serial::discovered(seq![port], call_out_only).len() == 1 <==> {
            &&& port.usb matches Some(usb)
            &&& is_jade((usb.vid as int, usb.pid as int))
            &&& call_out_only ==> "/dev/cu."@.is_prefix_of(port.name)
        },
        serial::discovered(seq![port], call_out_only).len() == 1 ==> {
            let device = serial::discovered(seq![port], call_out_only)[0];
            &&& device.path == port.name
            &&& device.transport == JadeTransportKind::Serial
            &&& device.name == port.usb->0.product
            &&& device.serial_number == port.usb->0.serial_number
        },
{
    if port.usb is Some {
        jade_ids((port.usb->0.vid as int, port.usb->0.pid as int));
    }
    assert(seq![port].drop_last() =~= Seq::empty());
    assert(serial::discovered(seq![port].drop_last(), call_out_only) == Seq::<Device>::empty());
}

/// The ports of two lists are offered one list after the other, none twice and
/// none left out.
pub proof fn ports_are_offered_in_their_order(a: Seq<Port>, b: Seq<Port>, call_out_only: bool)
    ensures
        serial::discovered(Seq::empty(), call_out_only) == Seq::<Device>::empty(),
        serial::discovered(a + b, call_out_only) == serial::discovered(a, call_out_only)
            + serial::discovered(b, call_out_only),
    decreases b.len(),
{
    if b.len() == 0 {
        assert(a + b =~= a);
        assert(serial::discovered(a, call_out_only) + serial::discovered(b, call_out_only)
            =~= serial::discovered(a, call_out_only));
    } else {
        assert((a + b).drop_last() =~= a + b.drop_last());
        ports_are_offered_in_their_order(a, b.drop_last(), call_out_only);
        assert(serial::discovered(a + b, call_out_only) =~= serial::discovered(a, call_out_only)
            + serial::discovered(b, call_out_only));
    }
}

/// The values of ports and devices are those of each in turn.
pub proof fn lists_keep_their_order(
    ports: Seq<serial::PortInfo>,
    devices: Seq<crate::types::JadeDeviceInfo>,
    chunks: Seq<Vec<u8>>,
)
    ensures
        serial::port_values(ports).len() == ports.len(),
        forall|i: int|
            0 <= i < ports.len() ==> #[trigger] serial::port_values(ports)[i] == ports[i]@,
        serial::device_values(devices).len() == devices.len(),
        forall|i: int|
            0 <= i < devices.len() ==> #[trigger] serial::device_values(devices)[i]
                == devices[i]@,
        crate::transport::byte_values(chunks).len() == chunks.len(),
        forall|i: int|
            0 <= i < chunks.len() ==> #[trigger] crate::transport::byte_values(chunks)[i]
                == chunks[i]@,
{
}

} // verus!
