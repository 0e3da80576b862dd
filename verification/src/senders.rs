//! Sender registry operations: enumeration, the active sender, and sender
//! creation.
//!
//! The engine's combined sender-info and receiver-creation entry points take
//! several by-reference outputs that must stay addressable through one call;
//! their layout cannot be safely represented, so they deterministically fail
//! with [`Error::Unbindable`].

use vstd::prelude::*;

use crate::buffer::{capacity_ok, BoundedOutputBuffer};
use crate::call::EngineCall;
use crate::error::Error;
use crate::spout::RustySpout;
use crate::text::{has_embedded_nul, terminated_encoding, NameString};

verus! {

impl RustySpout {
    /// Query the number of senders (engine entry point `GetSenderCount`).
    pub fn get_sender_count(&self) -> (r: Result<EngineCall, Error>)
        ensures
            !self.acquired() ==> r == Err::<EngineCall, Error>(Error::NoHandle),
            self.acquired() ==> r == Ok::<EngineCall, Error>(EngineCall::GetSenderCount),
    {
        self.guard()?;
        Ok(EngineCall::GetSenderCount)
    }

    /// Fill a caller-supplied buffer of the requested capacity with the name
    /// of the sender at `index` (engine entry point `GetSender`). A capacity
    /// of zero, or one that does not fit the signed 32-bit count, is an
    /// [`Error::NumericRange`] before any buffer is built; decode the filled
    /// buffer with [`crate::buffer::decode_filled`].
    pub fn get_sender(&self, index: i32, max_size: usize) -> (r: Result<EngineCall, Error>)
        ensures
            !self.acquired() ==> r == Err::<EngineCall, Error>(Error::NoHandle),
            self.acquired() && !capacity_ok(max_size) ==> r == Err::<EngineCall, Error>(
                Error::NumericRange,
            ),
            self.acquired() && capacity_ok(max_size) ==> (r matches Ok(c) && c matches
                EngineCall::GetSender { index: i, buffer: b, max_size: m } && i == index && b@.len()
                == max_size && b@.last() == 0 && m == max_size),
    {
        self.guard()?;
        let buffer = BoundedOutputBuffer::new(max_size)?;
        let count = buffer.count();
        Ok(EngineCall::GetSender { index, buffer: buffer.into_bytes(), max_size: count })
    }

    /// Query whether a sender of the given name exists (engine entry point
    /// `FindSenderName`).
    pub fn find_sender_name(&self, sender_name: &str) -> (r: Result<EngineCall, Error>)
        ensures
            !self.acquired() ==> r == Err::<EngineCall, Error>(Error::NoHandle),
            self.acquired() && has_embedded_nul(sender_name@) ==> r == Err::<EngineCall, Error>(
                Error::StringEncode,
            ),
            self.acquired() && !has_embedded_nul(sender_name@) ==> (r matches Ok(c) && c matches
                EngineCall::FindSenderName { name: n } && n@ == terminated_encoding(sender_name@)),
    {
        self.guard()?;
        let n = NameString::new(sender_name)?;
        Ok(EngineCall::FindSenderName { name: n.terminated() })
    }

    /// Query a sender's combined info. The engine entry point takes several
    /// simultaneous by-reference outputs whose layout cannot be safely
    /// represented, so this always fails with [`Error::Unbindable`].
    pub fn get_sender_info(
        &self,
        _sender_name: &str,
        _width: u32,
        _height: u32,
        _share_handle: usize,
        _format: u32,
    ) -> (r: Result<EngineCall, Error>)
        ensures
            r == Err::<EngineCall, Error>(Error::Unbindable),
    {
        Err(Error::Unbindable)
    }

    /// Fill a caller-supplied buffer of the requested capacity with the name
    /// of the active sender (engine entry point `GetActiveSender`). A
    /// capacity of zero, or one that does not fit the signed 32-bit count,
    /// is an [`Error::NumericRange`] before any buffer is built; decode the
    /// filled buffer with [`crate::buffer::decode_filled`].
    pub fn get_active_sender(&self, max_chars: usize) -> (r: Result<EngineCall, Error>)
        ensures
            !self.acquired() ==> r == Err::<EngineCall, Error>(Error::NoHandle),
            self.acquired() && !capacity_ok(max_chars) ==> r == Err::<EngineCall, Error>(
                Error::NumericRange,
            ),
            self.acquired() && capacity_ok(max_chars) ==> (r matches Ok(c) && c matches
                EngineCall::GetActiveSender { buffer: b } && b@.len() == max_chars && b@.last()
                == 0),
    {
        self.guard()?;
        let buffer = BoundedOutputBuffer::new(max_chars)?;
        Ok(EngineCall::GetActiveSender { buffer: buffer.into_bytes() })
    }

    /// Make the named sender the active one (engine entry point
    /// `SetActiveSender`).
    pub fn set_active_sender(&self, sender_name: &str) -> (r: Result<EngineCall, Error>)
        ensures
            !self.acquired() ==> r == Err::<EngineCall, Error>(Error::NoHandle),
            self.acquired() && has_embedded_nul(sender_name@) ==> r == Err::<EngineCall, Error>(
                Error::StringEncode,
            ),
            self.acquired() && !has_embedded_nul(sender_name@) ==> (r matches Ok(c) && c matches
                EngineCall::SetActiveSender { name: n } && n@ == terminated_encoding(sender_name@)),
    {
        self.guard()?;
        let n = NameString::new(sender_name)?;
        Ok(EngineCall::SetActiveSender { name: n.terminated() })
    }

    /// Query the buffering mode (engine entry point `GetBufferMode`).
    pub fn get_buffer_mode(&self) -> (r: Result<EngineCall, Error>)
        ensures
            !self.acquired() ==> r == Err::<EngineCall, Error>(Error::NoHandle),
            self.acquired() ==> r == Ok::<EngineCall, Error>(EngineCall::GetBufferMode),
    {
        self.guard()?;
        Ok(EngineCall::GetBufferMode)
    }

    /// Set the buffering mode (engine entry point `SetBufferMode`).
    pub fn set_buffer_mode(&self, active: bool) -> (r: Result<EngineCall, Error>)
        ensures
            !self.acquired() ==> r == Err::<EngineCall, Error>(Error::NoHandle),
            self.acquired() ==> r == Ok::<EngineCall, Error>(EngineCall::SetBufferMode { active }),
    {
        self.guard()?;
        Ok(EngineCall::SetBufferMode { active })
    }

    /// Query the number of buffers (engine entry point `GetBuffers`).
    pub fn get_buffers(&self) -> (r: Result<EngineCall, Error>)
        ensures
            !self.acquired() ==> r == Err::<EngineCall, Error>(Error::NoHandle),
            self.acquired() ==> r == Ok::<EngineCall, Error>(EngineCall::GetBuffers),
    {
        self.guard()?;
        Ok(EngineCall::GetBuffers)
    }

    /// Set the number of buffers (engine entry point `SetBuffers`).
    pub fn set_buffers(&self, buffers: i32) -> (r: Result<EngineCall, Error>)
        ensures
            !self.acquired() ==> r == Err::<EngineCall, Error>(Error::NoHandle),
            self.acquired() ==> r == Ok::<EngineCall, Error>(EngineCall::SetBuffers { buffers }),
    {
        self.guard()?;
        Ok(EngineCall::SetBuffers { buffers })
    }

    /// Query the maximum number of senders (engine entry point
    /// `GetMaxSenders`).
    pub fn get_max_senders(&self) -> (r: Result<EngineCall, Error>)
        ensures
            !self.acquired() ==> r == Err::<EngineCall, Error>(Error::NoHandle),
            self.acquired() ==> r == Ok::<EngineCall, Error>(EngineCall::GetMaxSenders),
    {
        self.guard()?;
        Ok(EngineCall::GetMaxSenders)
    }

    /// Set the maximum number of senders (engine entry point
    /// `SetMaxSenders`).
    pub fn set_max_senders(&self, max_senders: i32) -> (r: Result<EngineCall, Error>)
        ensures
            !self.acquired() ==> r == Err::<EngineCall, Error>(Error::NoHandle),
            self.acquired() ==> r == Ok::<EngineCall, Error>(
                EngineCall::SetMaxSenders { max_senders },
            ),
    {
        self.guard()?;
        Ok(EngineCall::SetMaxSenders { max_senders })
    }

    /// Create a named sender of the given size and format (engine entry
    /// point `CreateSender`).
    pub fn create_sender(&self, sender_name: &str, width: u32, height: u32, format: u32) -> (r:
        Result<EngineCall, Error>)
        ensures
            !self.acquired() ==> r == Err::<EngineCall, Error>(Error::NoHandle),
            self.acquired() && has_embedded_nul(sender_name@) ==> r == Err::<EngineCall, Error>(
                Error::StringEncode,
            ),
            self.acquired() && !has_embedded_nul(sender_name@) ==> (r matches Ok(c) && c matches
                EngineCall::CreateSender { name: n, width: w, height: h, format: f } && n@
                == terminated_encoding(sender_name@) && w == width && h == height && f == format),
    {
        self.guard()?;
        let n = NameString::new(sender_name)?;
        Ok(EngineCall::CreateSender { name: n.terminated(), width, height, format })
    }

    /// Update the named sender to the given size (engine entry point
    /// `UpdateSender`).
    pub fn update_sender(&self, sender_name: &str, width: u32, height: u32) -> (r: Result<
        EngineCall,
        Error,
    >)
        ensures
            !self.acquired() ==> r == Err::<EngineCall, Error>(Error::NoHandle),
            self.acquired() && has_embedded_nul(sender_name@) ==> r == Err::<EngineCall, Error>(
                Error::StringEncode,
            ),
            self.acquired() && !has_embedded_nul(sender_name@) ==> (r matches Ok(c) && c matches
                EngineCall::UpdateSender { name: n, width: w, height: h } && n@
                == terminated_encoding(sender_name@) && w == width && h == height),
    {
        self.guard()?;
        let n = NameString::new(sender_name)?;
        Ok(EngineCall::UpdateSender { name: n.terminated(), width, height })
    }

    /// Create a receiver connection. The engine entry point takes several
    /// simultaneous by-reference outputs whose layout cannot be safely
    /// represented, so this always fails with [`Error::Unbindable`].
    pub fn create_receiver(
        &self,
        _sender_name: &str,
        _width: u32,
        _height: u32,
        _use_active: bool,
    ) -> (r: Result<EngineCall, Error>)
        ensures
            r == Err::<EngineCall, Error>(Error::Unbindable),
    {
        Err(Error::Unbindable)
    }

    /// Check a receiver connection. The engine entry point takes several
    /// simultaneous by-reference outputs whose layout cannot be safely
    /// represented, so this always fails with [`Error::Unbindable`].
    pub fn check_receiver(
        &self,
        _sender_name: &str,
        _width: u32,
        _height: u32,
        _use_active: bool,
    ) -> (r: Result<EngineCall, Error>)
        ensures
            r == Err::<EngineCall, Error>(Error::Unbindable),
    {
        Err(Error::Unbindable)
    }
}

} // verus!
