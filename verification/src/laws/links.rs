//! Laws about what calls return that have to do with a link.

use vstd::prelude::*;

use crate::error::JadeError;
use crate::serial::{
    self, Closing, PortInfo, PortSettings, ReadOutcome, SerialTransport, WriteFailure,
};
use crate::transport;
use crate::types::JadeDeviceInfo;

verus! {

/// DTR and RTS are cleared for the nodes under `/dev/tty` and for no others.
pub proof fn lines_are_cleared_by_node(path: &str, r: bool)
    requires
        call_ensures(serial::clears_modem_lines, (path,), r),
    ensures
        r <==> "/dev/tty"@.is_prefix_of(path@),
{
}

/// A port is opened at 115200 baud and waits a quarter of a second, with both
/// lines asserted unless it is a node under `/dev/tty`.
pub proof fn ports_are_opened_by_node(path: &str, r: PortSettings)
    requires
        call_ensures(SerialTransport::settings, (path,), r),
    ensures
        r.baud_rate == 115200,
        r.timeout_millis == 250,
        r.data_terminal_ready <==> !"/dev/tty"@.is_prefix_of(path@),
        r.request_to_send <==> !"/dev/tty"@.is_prefix_of(path@),
{
}

/// A port that was opened is open, and a failed open is a connection error that
/// names the path and the cause.
pub proof fn opening_tells_its_outcome(
    path: &str,
    opened: Result<(), String>,
    r: Result<SerialTransport, JadeError>,
)
    requires
        call_ensures(SerialTransport::open, (path, opened), r),
    ensures
        r is Ok <==> opened is Ok,
        r matches Ok(transport) ==> transport.is_open() && (transport.cleared()
            <==> "/dev/tty"@.is_prefix_of(path@)),
        r matches Err(JadeError::ConnectionError { error_details }) ==> error_details@
            == "could not open "@ + path@ + ": "@ + opened->Err_0@,
        r is Err ==> r->Err_0 is ConnectionError,
{
}

/// On an open port the writes put together are the data, none of them empty or
/// longer than 509 bytes, and none but the last shorter; on a closed port there
/// are none.
pub proof fn writes_are_the_data(
    link: &SerialTransport,
    data: &[u8],
    r: Result<Vec<Vec<u8>>, JadeError>,
)
    requires
        call_ensures(SerialTransport::write_all, (link, data), r),
    ensures
        r is Ok <==> link.is_open(),
        r is Err ==> r->Err_0 is DeviceDisconnected,
        r matches Ok(chunks) ==> {
            let bytes = Seq::new(chunks@.len(), |i: int| chunks@[i]@);
            &&& bytes.flatten() == data@
            &&& forall|i: int| 0 <= i < chunks@.len() ==> 0 < (#[trigger] chunks@[i])@.len() <= 509
            &&& forall|i: int|
                0 <= i < chunks@.len() - 1 ==> (#[trigger] chunks@[i])@.len() == 509
        },
{
    if let Ok(chunks) = r {
        chunks_are_the_data(data@, 509, chunks@);
    }
}

proof fn chunks_are_the_data(data: Seq<u8>, size: nat, chunks: Seq<Vec<u8>>)
    requires
        size > 0,
        transport::byte_values(chunks) == transport::pieces(data, size),
    ensures
        Seq::new(chunks.len(), |i: int| chunks[i]@).flatten() == data,
        forall|i: int| 0 <= i < chunks.len() ==> 0 < (#[trigger] chunks[i])@.len() <= size,
        forall|i: int| 0 <= i < chunks.len() - 1 ==> (#[trigger] chunks[i])@.len() == size,
{
    let parts = transport::pieces(data, size);
    transport::pieces_make_up_the_whole(data, size);
    transport::pieces_are_full(data, size);
    assert(Seq::new(chunks.len(), |i: int| chunks[i]@) =~= parts);
    assert forall|i: int| 0 <= i < chunks.len() implies #[trigger] chunks[i]@ == parts[i] by {}
}

/// Data that is cut for a link is made up by its pieces, none of them empty or
/// longer than asked for, and none but the last shorter.
pub proof fn pieces_are_the_data(data: &[u8], size: usize, r: Vec<Vec<u8>>)
    requires
        size > 0,
        call_ensures(transport::chunked, (data, size), r),
    ensures
        Seq::new(r@.len(), |i: int| r@[i]@).flatten() == data@,
        forall|i: int| 0 <= i < r@.len() ==> 0 < (#[trigger] r@[i])@.len() <= size,
        forall|i: int| 0 <= i < r@.len() - 1 ==> (#[trigger] r@[i])@.len() == size,
{
    chunks_are_the_data(data@, size as nat, r@);
}

/// A write carries at least one byte and at most 509, and what the platform
/// reports where that lies between.
pub proof fn chunk_sizes_are_clamped(max_write_len: usize, r: usize)
    requires
        call_ensures(transport::chunk_bytes, (max_write_len,), r),
    ensures
        1 <= r <= 509,
        r <= max_write_len || max_write_len == 0,
        r < max_write_len ==> r == 509,
{
}

/// The outcome of a write is told apart: a failed write, a failed flush and a
/// task that did not finish are different errors, each with its cause.
pub proof fn writing_tells_its_outcome(
    outcome: Result<(), WriteFailure>,
    r: Result<(), JadeError>,
)
    requires
        call_ensures(SerialTransport::on_written, (outcome,), r),
    ensures
        r is Ok <==> outcome is Ok,
        outcome matches Err(WriteFailure::Write(m)) ==> r->Err_0 is TransportError
            && r->Err_0->TransportError_error_details@ == "serial write failed: "@ + m@,
        outcome matches Err(WriteFailure::Flush(m)) ==> r->Err_0 is TransportError
            && r->Err_0->TransportError_error_details@ == "serial flush failed: "@ + m@,
        outcome matches Err(WriteFailure::Task(m)) ==> r->Err_0 is IoError
            && r->Err_0->IoError_error_details@ == "serial write task failed: "@ + m@,
{
}

/// A read on an open port has a buffer of 4096 bytes; on a closed port it has
/// none.
pub proof fn reads_have_a_buffer(link: &SerialTransport, r: Result<Vec<u8>, JadeError>)
    requires
        call_ensures(SerialTransport::read_some, (link,), r),
    ensures
        r is Ok <==> link.is_open(),
        r is Err ==> r->Err_0 is DeviceDisconnected,
        r matches Ok(buffer) ==> buffer@.len() == 4096,
{
}

/// A read returns the bytes that were filled, in their order and no more; one
/// that timed out returns none and is no failure.
pub proof fn reading_tells_its_outcome(
    buffer: Vec<u8>,
    outcome: ReadOutcome,
    r: Result<Vec<u8>, JadeError>,
)
    requires
        call_ensures(SerialTransport::on_read, (buffer, outcome), r),
    ensures
        r is Ok <==> outcome is Filled || outcome is TimedOut,
        outcome matches ReadOutcome::Filled(n) ==> r->Ok_0@.is_prefix_of(buffer@) && (n
            <= buffer@.len() ==> r->Ok_0@.len() == n) && (n > buffer@.len() ==> r->Ok_0@.len()
            == buffer@.len()),
        outcome is TimedOut ==> r->Ok_0@.len() == 0,
        outcome matches ReadOutcome::Failed(m) ==> r->Err_0 is TransportError
            && r->Err_0->TransportError_error_details@ == "serial read failed: "@ + m@,
        outcome matches ReadOutcome::Task(m) ==> r->Err_0 is IoError
            && r->Err_0->IoError_error_details@ == "serial read task failed: "@ + m@,
{
}

/// Closing an open port releases it, with the lines cleared if and only if they
/// were when it was opened; closing it again does nothing.
pub proof fn closing_matches_opening()
    ensures
        forall|link: &mut SerialTransport, r: Closing| #[trigger]
            call_ensures(SerialTransport::close, (link,), r) ==> {
                &&& !final(link).is_open()
                &&& final(link).cleared() == link.cleared()
                &&& link.is_open() ==> r == (Closing::Release { clear_lines: link.cleared() })
                &&& !link.is_open() ==> r == Closing::Nothing
            },
{
}

/// A close fails only if its task did not finish.
pub proof fn closing_tells_its_outcome(outcome: Result<(), String>, r: Result<(), JadeError>)
    requires
        call_ensures(SerialTransport::on_closed, (outcome,), r),
    ensures
        r is Ok <==> outcome is Ok,
        outcome matches Err(m) ==> r->Err_0 is IoError && r->Err_0->IoError_error_details@
            == "serial close task failed: "@ + m@,
{
}

/// The devices that are offered are those behind the ports, in the order of the
/// ports.
pub proof fn devices_are_those_behind_the_ports(
    ports: Vec<PortInfo>,
    call_out_only: bool,
    r: Vec<JadeDeviceInfo>,
)
    requires
        call_ensures(serial::enumerate_devices, (ports, call_out_only), r),
    ensures
        Seq::new(r@.len(), |i: int| r@[i]@) == serial::discovered(
            Seq::new(ports@.len(), |i: int| ports@[i]@),
            call_out_only,
        ),
{
    assert(Seq::new(ports@.len(), |i: int| ports@[i]@) =~= serial::port_values(ports@));
    assert(Seq::new(r@.len(), |i: int| r@[i]@) =~= serial::device_values(r@));
}

} // verus!
