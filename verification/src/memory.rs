//! Named shared memory buffer operations.
//!
//! Data crosses as nul-terminated byte strings: a write passes the data's
//! terminated length as a signed 32-bit count, and a read fills a
//! caller-supplied buffer of checked capacity.

use vstd::prelude::*;
use vstd::utf8::encode_utf8;

use crate::buffer::{capacity_ok, max_capacity, BoundedOutputBuffer};
use crate::call::EngineCall;
use crate::error::Error;
use crate::spout::RustySpout;
use crate::text::{has_embedded_nul, terminated_encoding, NameString};

verus! {

impl RustySpout {
    /// Write string data to the named buffer (engine entry point
    /// `WriteMemoryBuffer`). The terminated byte length crosses as a signed
    /// 32-bit count; data too long for that count is an
    /// [`Error::NumericRange`], never a silent truncation.
    pub fn write_memory_buffer(&self, sender_name: &str, data: &str) -> (r: Result<
        EngineCall,
        Error,
    >)
        ensures
            !self.acquired() ==> r == Err::<EngineCall, Error>(Error::NoHandle),
            self.acquired() && has_embedded_nul(sender_name@) ==> r == Err::<EngineCall, Error>(
                Error::StringEncode,
            ),
            self.acquired() && !has_embedded_nul(sender_name@) && has_embedded_nul(data@) ==> r
                == Err::<EngineCall, Error>(Error::StringEncode),
            self.acquired() && !has_embedded_nul(sender_name@) && !has_embedded_nul(data@)
                && encode_utf8(data@).len() + 1 > max_capacity() ==> r == Err::<EngineCall, Error>(
                Error::NumericRange,
            ),
            self.acquired() && !has_embedded_nul(sender_name@) && !has_embedded_nul(data@)
                && encode_utf8(data@).len() + 1 <= max_capacity() ==> (r matches Ok(c) && c matches
                EngineCall::WriteMemoryBuffer { name: n, data: d, length: l } && n@
                == terminated_encoding(sender_name@) && d@ == terminated_encoding(data@) && l
                == encode_utf8(data@).len() + 1),
    {
        self.guard()?;
        let n = NameString::new(sender_name)?;
        let d = NameString::new(data)?;
        if d.len() > 0x7fff_fffe {
            return Err(Error::NumericRange);
        }
        let length = (d.len() + 1) as i32;
        Ok(EngineCall::WriteMemoryBuffer { name: n.terminated(), data: d.terminated(), length })
    }

    /// Read the named buffer into a caller-supplied buffer of the requested
    /// capacity (engine entry point `ReadMemoryBuffer`). A capacity of zero,
    /// or one that does not fit the signed 32-bit count, is an
    /// [`Error::NumericRange`] before any buffer is built; decode the filled
    /// buffer with [`crate::buffer::decode_filled`].
    pub fn read_memory_buffer(&self, sender_name: &str, max_length: usize) -> (r: Result<
        EngineCall,
        Error,
    >)
        ensures
            !self.acquired() ==> r == Err::<EngineCall, Error>(Error::NoHandle),
            self.acquired() && has_embedded_nul(sender_name@) ==> r == Err::<EngineCall, Error>(
                Error::StringEncode,
            ),
            self.acquired() && !has_embedded_nul(sender_name@) && !capacity_ok(max_length) ==> r
                == Err::<EngineCall, Error>(Error::NumericRange),
            self.acquired() && !has_embedded_nul(sender_name@) && capacity_ok(max_length) ==> (
            r matches Ok(c) && c matches EngineCall::ReadMemoryBuffer {
                name: n,
                buffer: b,
                max_length: m,
            } && n@ == terminated_encoding(sender_name@) && b@.len() == max_length && b@.last()
                == 0 && m == max_length),
    {
        self.guard()?;
        let n = NameString::new(sender_name)?;
        let buffer = BoundedOutputBuffer::new(max_length)?;
        let count = buffer.count();
        Ok(EngineCall::ReadMemoryBuffer {
            name: n.terminated(),
            buffer: buffer.into_bytes(),
            max_length: count,
        })
    }

    /// Create a named shared memory buffer of the given byte length (engine
    /// entry point `CreateMemoryBuffer`). The length is forwarded verbatim.
    pub fn create_memory_buffer(&self, name: &str, length: i32) -> (r: Result<EngineCall, Error>)
        ensures
            !self.acquired() ==> r == Err::<EngineCall, Error>(Error::NoHandle),
            self.acquired() && has_embedded_nul(name@) ==> r == Err::<EngineCall, Error>(
                Error::StringEncode,
            ),
            self.acquired() && !has_embedded_nul(name@) ==> (r matches Ok(c) && c matches
                EngineCall::CreateMemoryBuffer { name: n, length: l } && n@ == terminated_encoding(
                name@,
            ) && l == length),
    {
        self.guard()?;
        let n = NameString::new(name)?;
        Ok(EngineCall::CreateMemoryBuffer { name: n.terminated(), length })
    }

    /// Delete the shared memory buffer (engine entry point
    /// `DeleteMemoryBuffer`).
    pub fn delete_memory_buffer(&self) -> (r: Result<EngineCall, Error>)
        ensures
            !self.acquired() ==> r == Err::<EngineCall, Error>(Error::NoHandle),
            self.acquired() ==> r == Ok::<EngineCall, Error>(EngineCall::DeleteMemoryBuffer),
    {
        self.guard()?;
        Ok(EngineCall::DeleteMemoryBuffer)
    }

    /// Query the byte size of the named buffer (engine entry point
    /// `GetMemoryBufferSize`).
    pub fn get_memory_buffer_size(&self, name: &str) -> (r: Result<EngineCall, Error>)
        ensures
            !self.acquired() ==> r == Err::<EngineCall, Error>(Error::NoHandle),
            self.acquired() && has_embedded_nul(name@) ==> r == Err::<EngineCall, Error>(
                Error::StringEncode,
            ),
            self.acquired() && !has_embedded_nul(name@) ==> (r matches Ok(c) && c matches
                EngineCall::GetMemoryBufferSize { name: n } && n@ == terminated_encoding(name@)),
    {
        self.guard()?;
        let n = NameString::new(name)?;
        Ok(EngineCall::GetMemoryBufferSize { name: n.terminated() })
    }
}

} // verus!
