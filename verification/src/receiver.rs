//! Receiver-side capability operations.

use vstd::prelude::*;

use crate::call::EngineCall;
use crate::error::Error;
use crate::spout::RustySpout;
use crate::text::{has_embedded_nul, terminated_encoding, NameString};

verus! {

impl RustySpout {
    /// Nominate the sender this receiver connects to (engine entry point
    /// `SetReceiverName`). An empty name lets the receiver connect to the
    /// active sender.
    pub fn set_receiver_name(&self, sender_name: &str) -> (r: Result<EngineCall, Error>)
        ensures
            !self.acquired() ==> r == Err::<EngineCall, Error>(Error::NoHandle),
            self.acquired() && has_embedded_nul(sender_name@) ==> r == Err::<EngineCall, Error>(
                Error::StringEncode,
            ),
            self.acquired() && !has_embedded_nul(sender_name@) ==> (r matches Ok(c) && c matches
                EngineCall::SetReceiverName { name: n } && n@ == terminated_encoding(
                sender_name@,
            )),
    {
        self.guard()?;
        let n = NameString::new(sender_name)?;
        Ok(EngineCall::SetReceiverName { name: n.terminated() })
    }

    /// Close the receiver, ready to connect to another sender (engine entry
    /// point `ReleaseReceiver`).
    pub fn release_receiver(&self) -> (r: Result<EngineCall, Error>)
        ensures
            !self.acquired() ==> r == Err::<EngineCall, Error>(Error::NoHandle),
            self.acquired() ==> r == Ok::<EngineCall, Error>(EngineCall::ReleaseReceiver),
    {
        self.guard()?;
        Ok(EngineCall::ReleaseReceiver)
    }

    /// Receive into an OpenGL texture (engine entry point `ReceiveTexture`).
    pub fn receive_texture(
        &self,
        texture_id: u32,
        texture_target: u32,
        invert: bool,
        host_fbo: u32,
    ) -> (r: Result<EngineCall, Error>)
        ensures
            !self.acquired() ==> r == Err::<EngineCall, Error>(Error::NoHandle),
            self.acquired() ==> r == Ok::<EngineCall, Error>(
                EngineCall::ReceiveTexture { texture_id, texture_target, invert, host_fbo },
            ),
    {
        self.guard()?;
        Ok(EngineCall::ReceiveTexture { texture_id, texture_target, invert, host_fbo })
    }

    /// Receive image pixels into the buffer at address `pixels` (engine
    /// entry point `ReceiveImage`). The address is forwarded verbatim; that
    /// the buffer is large enough is the embedder's contract with the
    /// engine.
    pub fn receive_image(&self, pixels: usize, gl_format: u32, invert: bool, host_fbo: u32) -> (r:
        Result<EngineCall, Error>)
        ensures
            !self.acquired() ==> r == Err::<EngineCall, Error>(Error::NoHandle),
            self.acquired() ==> r == Ok::<EngineCall, Error>(
                EngineCall::ReceiveImage { pixels, gl_format, invert, host_fbo },
            ),
    {
        self.guard()?;
        Ok(EngineCall::ReceiveImage { pixels, gl_format, invert, host_fbo })
    }

    /// Query whether the connected sender has changed dimensions (engine
    /// entry point `IsUpdated`).
    pub fn is_updated(&self) -> (r: Result<EngineCall, Error>)
        ensures
            !self.acquired() ==> r == Err::<EngineCall, Error>(Error::NoHandle),
            self.acquired() ==> r == Ok::<EngineCall, Error>(EngineCall::IsUpdated),
    {
        self.guard()?;
        Ok(EngineCall::IsUpdated)
    }

    /// Query whether a sender is connected (engine entry point
    /// `IsConnected`).
    pub fn is_connected(&self) -> (r: Result<EngineCall, Error>)
        ensures
            !self.acquired() ==> r == Err::<EngineCall, Error>(Error::NoHandle),
            self.acquired() ==> r == Ok::<EngineCall, Error>(EngineCall::IsConnected),
    {
        self.guard()?;
        Ok(EngineCall::IsConnected)
    }

    /// Query whether the sender has produced a new frame (engine entry
    /// point `IsFrameNew`).
    pub fn is_frame_new(&self) -> (r: Result<EngineCall, Error>)
        ensures
            !self.acquired() ==> r == Err::<EngineCall, Error>(Error::NoHandle),
            self.acquired() ==> r == Ok::<EngineCall, Error>(EngineCall::IsFrameNew),
    {
        self.guard()?;
        Ok(EngineCall::IsFrameNew)
    }

    /// Query the connected sender's name (engine entry point
    /// `GetSenderName`). The engine answers with a pointer it owns; decode
    /// it with [`crate::reply::decode_engine_text`].
    pub fn get_sender_name(&self) -> (r: Result<EngineCall, Error>)
        ensures
            !self.acquired() ==> r == Err::<EngineCall, Error>(Error::NoHandle),
            self.acquired() ==> r == Ok::<EngineCall, Error>(EngineCall::GetSenderName),
    {
        self.guard()?;
        Ok(EngineCall::GetSenderName)
    }

    /// Query the connected sender's width (engine entry point
    /// `GetSenderWidth`).
    pub fn get_sender_width(&self) -> (r: Result<EngineCall, Error>)
        ensures
            !self.acquired() ==> r == Err::<EngineCall, Error>(Error::NoHandle),
            self.acquired() ==> r == Ok::<EngineCall, Error>(EngineCall::GetSenderWidth),
    {
        self.guard()?;
        Ok(EngineCall::GetSenderWidth)
    }

    /// Query the connected sender's height (engine entry point
    /// `GetSenderHeight`).
    pub fn get_sender_height(&self) -> (r: Result<EngineCall, Error>)
        ensures
            !self.acquired() ==> r == Err::<EngineCall, Error>(Error::NoHandle),
            self.acquired() ==> r == Ok::<EngineCall, Error>(EngineCall::GetSenderHeight),
    {
        self.guard()?;
        Ok(EngineCall::GetSenderHeight)
    }

    /// Query the connected sender's DirectX texture format (engine entry
    /// point `GetSenderFormat`).
    pub fn get_sender_format(&self) -> (r: Result<EngineCall, Error>)
        ensures
            !self.acquired() ==> r == Err::<EngineCall, Error>(Error::NoHandle),
            self.acquired() ==> r == Ok::<EngineCall, Error>(EngineCall::GetSenderFormat),
    {
        self.guard()?;
        Ok(EngineCall::GetSenderFormat)
    }

    /// Query the connected sender's frame rate (engine entry point
    /// `GetSenderFps`). The engine answers with a floating-point rate the
    /// embedder reads directly.
    pub fn get_sender_fps(&self) -> (r: Result<EngineCall, Error>)
        ensures
            !self.acquired() ==> r == Err::<EngineCall, Error>(Error::NoHandle),
            self.acquired() ==> r == Ok::<EngineCall, Error>(EngineCall::GetSenderFps),
    {
        self.guard()?;
        Ok(EngineCall::GetSenderFps)
    }

    /// Query the connected sender's frame number (engine entry point
    /// `GetSenderFrame`).
    pub fn get_sender_frame(&self) -> (r: Result<EngineCall, Error>)
        ensures
            !self.acquired() ==> r == Err::<EngineCall, Error>(Error::NoHandle),
            self.acquired() ==> r == Ok::<EngineCall, Error>(EngineCall::GetSenderFrame),
    {
        self.guard()?;
        Ok(EngineCall::GetSenderFrame)
    }

    /// Query the connected sender's share handle (engine entry point
    /// `GetSenderHandle`).
    pub fn get_sender_handle(&self) -> (r: Result<EngineCall, Error>)
        ensures
            !self.acquired() ==> r == Err::<EngineCall, Error>(Error::NoHandle),
            self.acquired() ==> r == Ok::<EngineCall, Error>(EngineCall::GetSenderHandle),
    {
        self.guard()?;
        Ok(EngineCall::GetSenderHandle)
    }

    /// Query the connected sender's CPU sharing mode (engine entry point
    /// `GetSenderCPU`).
    pub fn get_sender_cpu(&self) -> (r: Result<EngineCall, Error>)
        ensures
            !self.acquired() ==> r == Err::<EngineCall, Error>(Error::NoHandle),
            self.acquired() ==> r == Ok::<EngineCall, Error>(EngineCall::GetSenderCpu),
    {
        self.guard()?;
        Ok(EngineCall::GetSenderCpu)
    }

    /// Query the connected sender's GL/DX compatibility (engine entry point
    /// `GetSenderGLDX`).
    pub fn get_sender_gl_dx(&self) -> (r: Result<EngineCall, Error>)
        ensures
            !self.acquired() ==> r == Err::<EngineCall, Error>(Error::NoHandle),
            self.acquired() ==> r == Ok::<EngineCall, Error>(EngineCall::GetSenderGlDx),
    {
        self.guard()?;
        Ok(EngineCall::GetSenderGlDx)
    }

    /// Open the sender selection dialog (engine entry point `SelectSender`).
    pub fn select_sender(&self) -> (r: Result<EngineCall, Error>)
        ensures
            !self.acquired() ==> r == Err::<EngineCall, Error>(Error::NoHandle),
            self.acquired() ==> r == Ok::<EngineCall, Error>(EngineCall::SelectSender),
    {
        self.guard()?;
        Ok(EngineCall::SelectSender)
    }
}

} // verus!
