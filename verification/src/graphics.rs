//! OpenGL and DirectX context operations.

use vstd::prelude::*;

use crate::call::EngineCall;
use crate::error::Error;
use crate::spout::RustySpout;

verus! {

impl RustySpout {
    /// Create an OpenGL context (engine entry point `CreateOpenGL`).
    pub fn create_opengl(&self) -> (r: Result<EngineCall, Error>)
        ensures
            !self.acquired() ==> r == Err::<EngineCall, Error>(Error::NoHandle),
            self.acquired() ==> r == Ok::<EngineCall, Error>(EngineCall::CreateOpenGl),
    {
        self.guard()?;
        Ok(EngineCall::CreateOpenGl)
    }

    /// Close the OpenGL context (engine entry point `CloseOpenGL`).
    pub fn close_opengl(&self) -> (r: Result<EngineCall, Error>)
        ensures
            !self.acquired() ==> r == Err::<EngineCall, Error>(Error::NoHandle),
            self.acquired() ==> r == Ok::<EngineCall, Error>(EngineCall::CloseOpenGl),
    {
        self.guard()?;
        Ok(EngineCall::CloseOpenGl)
    }

    /// Copy between OpenGL textures (engine entry point `CopyTexture`).
    pub fn copy_texture(
        &self,
        source_id: u32,
        source_target: u32,
        dest_id: u32,
        dest_target: u32,
        width: u32,
        height: u32,
        invert: bool,
        host_fbo: u32,
    ) -> (r: Result<EngineCall, Error>)
        ensures
            !self.acquired() ==> r == Err::<EngineCall, Error>(Error::NoHandle),
            self.acquired() ==> r == Ok::<EngineCall, Error>(
                EngineCall::CopyTexture {
                    source_id,
                    source_target,
                    dest_id,
                    dest_target,
                    width,
                    height,
                    invert,
                    host_fbo,
                },
            ),
    {
        self.guard()?;
        Ok(EngineCall::CopyTexture {
            source_id,
            source_target,
            dest_id,
            dest_target,
            width,
            height,
            invert,
            host_fbo,
        })
    }

    /// Open DirectX (engine entry point `OpenDirectX`).
    pub fn open_directx(&self) -> (r: Result<EngineCall, Error>)
        ensures
            !self.acquired() ==> r == Err::<EngineCall, Error>(Error::NoHandle),
            self.acquired() ==> r == Ok::<EngineCall, Error>(EngineCall::OpenDirectX),
    {
        self.guard()?;
        Ok(EngineCall::OpenDirectX)
    }

    /// Close DirectX (engine entry point `CloseDirectX`).
    pub fn close_directx(&self) -> (r: Result<EngineCall, Error>)
        ensures
            !self.acquired() ==> r == Err::<EngineCall, Error>(Error::NoHandle),
            self.acquired() ==> r == Ok::<EngineCall, Error>(EngineCall::CloseDirectX),
    {
        self.guard()?;
        Ok(EngineCall::CloseDirectX)
    }

    /// Open DirectX 11 on the device at the given address (engine entry
    /// point `OpenDirectX11`). The address is forwarded verbatim.
    pub fn open_directx11(&self, device: usize) -> (r: Result<EngineCall, Error>)
        ensures
            !self.acquired() ==> r == Err::<EngineCall, Error>(Error::NoHandle),
            self.acquired() ==> r == Ok::<EngineCall, Error>(EngineCall::OpenDirectX11 { device }),
    {
        self.guard()?;
        Ok(EngineCall::OpenDirectX11 { device })
    }

    /// Close DirectX 11 (engine entry point `CloseDirectX11`).
    pub fn close_directx11(&self) -> (r: Result<EngineCall, Error>)
        ensures
            !self.acquired() ==> r == Err::<EngineCall, Error>(Error::NoHandle),
            self.acquired() ==> r == Ok::<EngineCall, Error>(EngineCall::CloseDirectX11),
    {
        self.guard()?;
        Ok(EngineCall::CloseDirectX11)
    }

    /// Query the DirectX 11 device pointer (engine entry point
    /// `GetDX11Device`). The engine answers with an address; decode it with
    /// [`crate::reply::decode_engine_pointer`], where null must be rejected.
    pub fn get_dx11_device(&self) -> (r: Result<EngineCall, Error>)
        ensures
            !self.acquired() ==> r == Err::<EngineCall, Error>(Error::NoHandle),
            self.acquired() ==> r == Ok::<EngineCall, Error>(EngineCall::GetDx11Device),
    {
        self.guard()?;
        Ok(EngineCall::GetDx11Device)
    }

    /// Query the DirectX 11 context pointer (engine entry point
    /// `GetDX11Context`). The engine answers with an address; decode it with
    /// [`crate::reply::decode_engine_pointer`], where null must be rejected.
    pub fn get_dx11_context(&self) -> (r: Result<EngineCall, Error>)
        ensures
            !self.acquired() ==> r == Err::<EngineCall, Error>(Error::NoHandle),
            self.acquired() ==> r == Ok::<EngineCall, Error>(EngineCall::GetDx11Context),
    {
        self.guard()?;
        Ok(EngineCall::GetDx11Context)
    }
}

} // verus!
