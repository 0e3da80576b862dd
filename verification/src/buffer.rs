//! Caller-supplied output buffers.
//!
//! Several engine entry points write a string into memory the caller
//! provides, together with its capacity as a signed 32-bit count. A
//! [`BoundedOutputBuffer`] owns that memory: it is allocated at a checked
//! capacity, pre-terminated, handed out as plain bytes, and decoded after the
//! call up to the first terminator.

use vstd::prelude::*;

use crate::error::Error;
use crate::text::{decode_terminated, decoded_text, force_terminated};

verus! {

/// The largest capacity an engine call can be handed: the count crosses the
/// boundary as a signed 32-bit integer.
pub open spec fn max_capacity() -> int {
    0x7fff_ffff
}

/// Whether a requested capacity can cross the boundary: at least one byte
/// for the terminator, and no more than the signed 32-bit count can carry.
pub open spec fn capacity_ok(c: usize) -> bool {
    1 <= c <= max_capacity()
}

/// A byte buffer the engine fills and nul-terminates.
///
/// Validity: the capacity is at least 1 and fits a signed 32-bit count, and
/// the final byte is a terminator, so the engine-side read is always bounded.
#[derive(Debug)]
pub struct BoundedOutputBuffer {
    data: Vec<u8>,
}

impl BoundedOutputBuffer {
    /// The bytes as handed to the engine.
    pub closed spec fn bytes_view(&self) -> Seq<u8> {
        self.data@
    }

    /// Validity of the prepared buffer.
    pub open spec fn wf(&self) -> bool {
        1 <= self.bytes_view().len() <= max_capacity()
            && self.bytes_view().last() == 0
    }

    /// Allocate a buffer of the requested capacity, pre-filled so its last
    /// byte is a terminator. A capacity of zero, or one that does not fit a
    /// signed 32-bit count, is rejected with [`Error::NumericRange`] before
    /// any buffer is constructed.
    pub fn new(capacity: usize) -> (r: Result<BoundedOutputBuffer, Error>)
        ensures
            r is Ok <==> capacity_ok(capacity),
            r is Err ==> r == Err::<BoundedOutputBuffer, Error>(Error::NumericRange),
            r matches Ok(b) ==> b.wf() && b.bytes_view().len() == capacity,
    {
        if capacity == 0 || capacity > 0x7fff_ffff {
            return Err(Error::NumericRange);
        }
        let mut data: Vec<u8> = vec![1u8; capacity - 1];
        data.push(0);
        Ok(BoundedOutputBuffer { data })
    }

    /// The capacity in bytes, terminator included.
    pub fn capacity(&self) -> (r: usize)
        ensures
            r == self.bytes_view().len(),
    {
        self.data.len()
    }

    /// The capacity as the signed 32-bit count the engine expects.
    pub fn count(&self) -> (r: i32)
        requires
            self.wf(),
        ensures
            r == self.bytes_view().len(),
    {
        self.data.len() as i32
    }

    /// Give up the buffer as plain bytes, for the engine to fill in place.
    pub fn into_bytes(self) -> (r: Vec<u8>)
        ensures
            r@ == self.bytes_view(),
    {
        self.data
    }
}

/// Decode a buffer the engine has filled: the final byte is forced to a
/// terminator, the bytes before the first terminator are read as UTF-8, and
/// anything behind the terminator is ignored. Fails with
/// [`Error::StringDecode`] exactly when that prefix is not valid UTF-8.
pub fn decode_filled(filled: Vec<u8>) -> (r: Result<String, Error>)
    ensures
        r is Ok <==> decoded_text(force_terminated(filled@)) is Some,
        r is Err ==> r == Err::<String, Error>(Error::StringDecode),
        r matches Ok(s) ==> Some(s@) == decoded_text(force_terminated(filled@)),
{
    let ghost orig = filled@;
    let mut b = filled;
    let n = b.len();
    if n > 0 {
        b[n - 1] = 0;
    }
    assert(b@ =~= force_terminated(orig));
    decode_terminated(&b)
}

} // verus!
