//! Sender-side capability operations.
//!
//! Each operation passes the dispatch guard, marshals its arguments, and
//! hands out the engine call it stands for; none reaches the engine from the
//! unacquired state.

use vstd::prelude::*;

use crate::call::EngineCall;
use crate::error::Error;
use crate::spout::RustySpout;
use crate::text::{has_embedded_nul, terminated_encoding, NameString};

verus! {

impl RustySpout {
    /// Set the sender name (engine entry point `SetSenderName`).
    pub fn set_sender_name(&self, name: &str) -> (r: Result<EngineCall, Error>)
        ensures
            !self.acquired() ==> r == Err::<EngineCall, Error>(Error::NoHandle),
            self.acquired() && has_embedded_nul(name@) ==> r == Err::<EngineCall, Error>(
                Error::StringEncode,
            ),
            self.acquired() && !has_embedded_nul(name@) ==> (r matches Ok(c) && c matches
                EngineCall::SetSenderName { name: n } && n@ == terminated_encoding(name@)),
    {
        self.guard()?;
        let n = NameString::new(name)?;
        Ok(EngineCall::SetSenderName { name: n.terminated() })
    }

    /// Set the sender DX11 shared texture format (engine entry point
    /// `SetSenderFormat`). The format code is forwarded verbatim.
    pub fn set_sender_format(&self, format: u32) -> (r: Result<EngineCall, Error>)
        ensures
            !self.acquired() ==> r == Err::<EngineCall, Error>(Error::NoHandle),
            self.acquired() ==> r == Ok::<EngineCall, Error>(
                EngineCall::SetSenderFormat { format },
            ),
    {
        self.guard()?;
        Ok(EngineCall::SetSenderFormat { format })
    }

    /// Close the sender and free its resources after `msec` milliseconds
    /// (engine entry point `ReleaseSender`).
    pub fn release_sender(&self, msec: u32) -> (r: Result<EngineCall, Error>)
        ensures
            !self.acquired() ==> r == Err::<EngineCall, Error>(Error::NoHandle),
            self.acquired() ==> r == Ok::<EngineCall, Error>(EngineCall::ReleaseSender { msec }),
    {
        self.guard()?;
        Ok(EngineCall::ReleaseSender { msec })
    }

    /// Send the texture attached to a currently bound FBO (engine entry
    /// point `SendFbo`).
    pub fn send_fbo(&self, fbo_id: u32, width: u32, height: u32, invert: bool) -> (r: Result<
        EngineCall,
        Error,
    >)
        ensures
            !self.acquired() ==> r == Err::<EngineCall, Error>(Error::NoHandle),
            self.acquired() ==> r == Ok::<EngineCall, Error>(
                EngineCall::SendFbo { fbo_id, width, height, invert },
            ),
    {
        self.guard()?;
        Ok(EngineCall::SendFbo { fbo_id, width, height, invert })
    }

    /// Send an OpenGL texture (engine entry point `SendTexture`).
    pub fn send_texture(
        &self,
        texture_id: u32,
        texture_target: u32,
        width: u32,
        height: u32,
        invert: bool,
        host_fbo: u32,
    ) -> (r: Result<EngineCall, Error>)
        ensures
            !self.acquired() ==> r == Err::<EngineCall, Error>(Error::NoHandle),
            self.acquired() ==> r == Ok::<EngineCall, Error>(
                EngineCall::SendTexture {
                    texture_id,
                    texture_target,
                    width,
                    height,
                    invert,
                    host_fbo,
                },
            ),
    {
        self.guard()?;
        Ok(EngineCall::SendTexture { texture_id, texture_target, width, height, invert, host_fbo })
    }

    /// Send image pixels from the buffer at address `pixels` (engine entry
    /// point `SendImage`). The address is forwarded verbatim; its validity
    /// is the embedder's contract with the engine.
    pub fn send_image(
        &self,
        pixels: usize,
        width: u32,
        height: u32,
        gl_format: u32,
        invert: bool,
    ) -> (r: Result<EngineCall, Error>)
        ensures
            !self.acquired() ==> r == Err::<EngineCall, Error>(Error::NoHandle),
            self.acquired() ==> r == Ok::<EngineCall, Error>(
                EngineCall::SendImage { pixels, width, height, gl_format, invert },
            ),
    {
        self.guard()?;
        Ok(EngineCall::SendImage { pixels, width, height, gl_format, invert })
    }

    /// Query the sender name (engine entry point `GetName`). The engine
    /// answers with a pointer it owns; decode it with
    /// [`crate::reply::decode_engine_text`].
    pub fn get_name(&self) -> (r: Result<EngineCall, Error>)
        ensures
            !self.acquired() ==> r == Err::<EngineCall, Error>(Error::NoHandle),
            self.acquired() ==> r == Ok::<EngineCall, Error>(EngineCall::GetName),
    {
        self.guard()?;
        Ok(EngineCall::GetName)
    }

    /// Query the sender width (engine entry point `GetWidth`).
    pub fn get_width(&self) -> (r: Result<EngineCall, Error>)
        ensures
            !self.acquired() ==> r == Err::<EngineCall, Error>(Error::NoHandle),
            self.acquired() ==> r == Ok::<EngineCall, Error>(EngineCall::GetWidth),
    {
        self.guard()?;
        Ok(EngineCall::GetWidth)
    }

    /// Query the sender height (engine entry point `GetHeight`).
    pub fn get_height(&self) -> (r: Result<EngineCall, Error>)
        ensures
            !self.acquired() ==> r == Err::<EngineCall, Error>(Error::NoHandle),
            self.acquired() ==> r == Ok::<EngineCall, Error>(EngineCall::GetHeight),
    {
        self.guard()?;
        Ok(EngineCall::GetHeight)
    }

    /// Query the sender frame rate (engine entry point `GetFps`). The
    /// engine answers with a floating-point rate the embedder reads
    /// directly.
    pub fn get_fps(&self) -> (r: Result<EngineCall, Error>)
        ensures
            !self.acquired() ==> r == Err::<EngineCall, Error>(Error::NoHandle),
            self.acquired() ==> r == Ok::<EngineCall, Error>(EngineCall::GetFps),
    {
        self.guard()?;
        Ok(EngineCall::GetFps)
    }

    /// Query the sender frame number (engine entry point `GetFrame`).
    pub fn get_frame(&self) -> (r: Result<EngineCall, Error>)
        ensures
            !self.acquired() ==> r == Err::<EngineCall, Error>(Error::NoHandle),
            self.acquired() ==> r == Ok::<EngineCall, Error>(EngineCall::GetFrame),
    {
        self.guard()?;
        Ok(EngineCall::GetFrame)
    }

    /// Query the sender share handle (engine entry point `GetHandle`). The
    /// engine answers with a handle address; decode it with
    /// [`crate::reply::decode_engine_pointer`] where null must be rejected.
    pub fn get_handle(&self) -> (r: Result<EngineCall, Error>)
        ensures
            !self.acquired() ==> r == Err::<EngineCall, Error>(Error::NoHandle),
            self.acquired() ==> r == Ok::<EngineCall, Error>(EngineCall::GetHandle),
    {
        self.guard()?;
        Ok(EngineCall::GetHandle)
    }

    /// Query the sender CPU sharing method (engine entry point `GetCPU`).
    pub fn get_cpu(&self) -> (r: Result<EngineCall, Error>)
        ensures
            !self.acquired() ==> r == Err::<EngineCall, Error>(Error::NoHandle),
            self.acquired() ==> r == Ok::<EngineCall, Error>(EngineCall::GetCpu),
    {
        self.guard()?;
        Ok(EngineCall::GetCpu)
    }

    /// Query the sender GL/DX hardware compatibility (engine entry point
    /// `GetGLDX`).
    pub fn get_gl_dx(&self) -> (r: Result<EngineCall, Error>)
        ensures
            !self.acquired() ==> r == Err::<EngineCall, Error>(Error::NoHandle),
            self.acquired() ==> r == Ok::<EngineCall, Error>(EngineCall::GetGlDx),
    {
        self.guard()?;
        Ok(EngineCall::GetGlDx)
    }
}

} // verus!
