//! The connection of a session, the handle that aborts it, and how bytes are
//! cut for a link.

use std::sync::atomic::{AtomicBool, Ordering};
use std::sync::Arc;

use vstd::prelude::*;
use vstd::slice::{slice_subrange, slice_to_vec};

verus! {

/// The most bytes that one write to a link may carry.
///
/// The link layer of Bluetooth rejects anything larger.
pub const MAX_CHUNK_BYTES: u32 = 509;

/// The host's side of one link.
#[derive(Debug)]
pub struct JadeConnection {
    aborted: Arc<AtomicBool>,
}

/// Aborts the operation that is running on a link.
///
/// Jade has no cancel message, so whoever drives the link closes it once the
/// flag is raised.
#[derive(Debug)]
pub struct CancelHandle {
    aborted: Arc<AtomicBool>,
}

impl JadeConnection {
    /// The flag that the link is aborted by.
    pub closed spec fn flag(&self) -> Arc<AtomicBool> {
        self.aborted
    }

    /// A connection that is aborted by `aborted`.
    pub fn new(aborted: Arc<AtomicBool>) -> (r: JadeConnection)
        ensures
            r.flag() == aborted,
    {
        JadeConnection { aborted }
    }

    /// A handle that aborts this connection.
    pub fn cancel_handle(&self) -> (r: CancelHandle)
        ensures
            r.flag() == self.flag(),
    {
        CancelHandle { aborted: self.aborted.clone() }
    }
}

impl CancelHandle {
    /// The flag that the handle raises.
    pub closed spec fn flag(&self) -> Arc<AtomicBool> {
        self.aborted
    }

    /// The flag that the handle raises.
    pub fn aborted(&self) -> (r: &Arc<AtomicBool>)
        ensures
            *r == self.flag(),
    {
        &self.aborted
    }

    /// Raises the flag.
    ///
    /// What the flag holds can change at any time under those who share it, so
    /// it is not a part of the handle's value, and nothing is stated of it.
    pub fn abort(&self) {
        self.aborted.store(true, Ordering::SeqCst);
    }
}

impl Clone for CancelHandle {
    fn clone(&self) -> (r: CancelHandle)
        ensures
            r.flag() == self.flag(),
    {
        CancelHandle { aborted: self.aborted.clone() }
    }
}

/// How many bytes to put in one write, where the platform reports that it can
/// put `max_write_len` in one.
///
/// A zero would stall the loop that writes.
pub fn chunk_bytes(max_write_len: usize) -> (r: usize)
    ensures
        MAX_CHUNK_BYTES == 509,
        1 <= r <= MAX_CHUNK_BYTES,
        1 <= max_write_len <= MAX_CHUNK_BYTES ==> r == max_write_len,
        max_write_len < 1 ==> r == 1,
        max_write_len > MAX_CHUNK_BYTES ==> r == MAX_CHUNK_BYTES,
{
    if max_write_len < 1 {
        1
    } else if max_write_len > MAX_CHUNK_BYTES as usize {
        MAX_CHUNK_BYTES as usize
    } else {
        max_write_len
    }
}

/// `data` cut into pieces of `size` bytes, the last one possibly shorter.
pub open spec fn pieces(data: Seq<u8>, size: nat) -> Seq<Seq<u8>>
    decreases data.len(),
{
    if data.len() == 0 {
        Seq::empty()
    } else if size == 0 || data.len() <= size {
        seq![data]
    } else {
        seq![data.take(size as int)] + pieces(data.skip(size as int), size)
    }
}

/// The values of byte strings.
pub open spec fn byte_values(chunks: Seq<Vec<u8>>) -> Seq<Seq<u8>> {
    chunks.map_values(|chunk: Vec<u8>| chunk@)
}

/// Cuts `data` into pieces of `size` bytes, the last one possibly shorter.
pub fn chunked(data: &[u8], size: usize) -> (r: Vec<Vec<u8>>)
    requires
        size > 0,
    ensures
        byte_values(r@) == pieces(data@, size as nat),
{
    let mut chunks: Vec<Vec<u8>> = Vec::new();
    let mut at: usize = 0;
    assert(byte_values(chunks@) =~= Seq::empty());
    assert(data@.skip(0) =~= data@);
    assert(pieces(data@, size as nat) =~= byte_values(chunks@) + pieces(
        data@.skip(0),
        size as nat,
    ));
    while at < data.len()
        invariant
            size > 0,
            at <= data.len(),
            pieces(data@, size as nat) == byte_values(chunks@) + pieces(
                data@.skip(at as int),
                size as nat,
            ),
        decreases data.len() - at,
    {
        let to: usize = if data.len() - at > size {
            at + size
        } else {
            data.len()
        };
        let ghost before = chunks@;
        let ghost rest = data@.skip(at as int);
        let chunk = slice_to_vec(slice_subrange(data, at, to));
        assert(chunk@ =~= rest.take(to - at));
        chunks.push(chunk);
        assert(byte_values(chunks@) =~= byte_values(before).push(chunk@));
        assert(data@.skip(to as int) =~= rest.skip(to - at));
        assert(rest.take(rest.len() as int) =~= rest);
        assert(pieces(data@, size as nat) =~= byte_values(chunks@) + pieces(
            data@.skip(to as int),
            size as nat,
        ));
        at = to;
    }
    assert(byte_values(chunks@) + pieces(data@.skip(at as int), size as nat)
        =~= byte_values(chunks@));
    chunks
}

/// The pieces of a request make up the request again: the device, which joins
/// them, does not see how they were cut.
pub proof fn pieces_make_up_the_whole(data: Seq<u8>, size: nat)
    ensures
        pieces(data, size).flatten() == data,
    decreases data.len(),
{
    let parts = pieces(data, size);
    if data.len() == 0 {
        assert(parts.flatten() =~= data);
    } else if size == 0 || data.len() <= size {
        parts.lemma_flatten_one_element();
    } else {
        pieces_make_up_the_whole(data.skip(size as int), size);
        assert(parts.drop_first() =~= pieces(data.skip(size as int), size));
        assert(parts.flatten() =~= data.take(size as int) + data.skip(size as int));
        assert(parts.flatten() =~= data);
    }
}

/// No piece is empty or longer than `size`, and none but the last is shorter.
pub proof fn pieces_are_full(data: Seq<u8>, size: nat)
    requires
        size > 0,
    ensures
        forall|i: int|
            0 <= i < pieces(data, size).len() ==> 0 < (#[trigger] pieces(data, size)[i]).len()
                <= size,
        forall|i: int|
            0 <= i < pieces(data, size).len() - 1 ==> (#[trigger] pieces(data, size)[i]).len()
                == size,
    decreases data.len(),
{
    if data.len() > size {
        let rest = pieces(data.skip(size as int), size);
        pieces_are_full(data.skip(size as int), size);
        let parts = pieces(data, size);
        assert(rest.len() > 0);
        assert forall|i: int| 0 <= i < parts.len() implies 0 < (#[trigger] parts[i]).len()
            <= size by {
            if i > 0 {
                assert(parts[i] == rest[i - 1]);
            }
        }
        assert forall|i: int| 0 <= i < parts.len() - 1 implies (#[trigger] parts[i]).len()
            == size by {
            if i > 0 {
                assert(parts[i] == rest[i - 1]);
            }
        }
    }
}

} // verus!
