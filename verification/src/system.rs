//! Engine information, timing and shared texture operations.

use vstd::prelude::*;

use crate::call::EngineCall;
use crate::error::Error;
use crate::spout::RustySpout;

verus! {

impl RustySpout {
    /// Query the engine version string (engine entry point
    /// `GetSDKversion`). The engine answers with an owned string; decode its
    /// bytes with [`crate::reply::decode_engine_text`].
    pub fn get_sdk_version(&self) -> (r: Result<EngineCall, Error>)
        ensures
            !self.acquired() ==> r == Err::<EngineCall, Error>(Error::NoHandle),
            self.acquired() ==> r == Ok::<EngineCall, Error>(EngineCall::GetSdkVersion),
    {
        self.guard()?;
        Ok(EngineCall::GetSdkVersion)
    }

    /// Query whether the machine is a laptop (engine entry point
    /// `IsLaptop`).
    pub fn is_laptop(&self) -> (r: Result<EngineCall, Error>)
        ensures
            !self.acquired() ==> r == Err::<EngineCall, Error>(Error::NoHandle),
            self.acquired() ==> r == Ok::<EngineCall, Error>(EngineCall::IsLaptop),
    {
        self.guard()?;
        Ok(EngineCall::IsLaptop)
    }

    /// Start timing a section (engine entry point `StartTiming`).
    pub fn start_timing(&self) -> (r: Result<EngineCall, Error>)
        ensures
            !self.acquired() ==> r == Err::<EngineCall, Error>(Error::NoHandle),
            self.acquired() ==> r == Ok::<EngineCall, Error>(EngineCall::StartTiming),
    {
        self.guard()?;
        Ok(EngineCall::StartTiming)
    }

    /// End timing a section (engine entry point `EndTiming`). The engine
    /// answers with a floating-point duration the embedder reads directly.
    pub fn end_timing(&self) -> (r: Result<EngineCall, Error>)
        ensures
            !self.acquired() ==> r == Err::<EngineCall, Error>(Error::NoHandle),
            self.acquired() ==> r == Ok::<EngineCall, Error>(EngineCall::EndTiming),
    {
        self.guard()?;
        Ok(EngineCall::EndTiming)
    }

    /// Query whether the instance is initialized (engine entry point
    /// `IsInitialized`).
    pub fn is_initialized(&self) -> (r: Result<EngineCall, Error>)
        ensures
            !self.acquired() ==> r == Err::<EngineCall, Error>(Error::NoHandle),
            self.acquired() ==> r == Ok::<EngineCall, Error>(EngineCall::IsInitialized),
    {
        self.guard()?;
        Ok(EngineCall::IsInitialized)
    }

    /// Bind the shared texture for access (engine entry point
    /// `BindSharedTexture`).
    pub fn bind_shared_texture(&self) -> (r: Result<EngineCall, Error>)
        ensures
            !self.acquired() ==> r == Err::<EngineCall, Error>(Error::NoHandle),
            self.acquired() ==> r == Ok::<EngineCall, Error>(EngineCall::BindSharedTexture),
    {
        self.guard()?;
        Ok(EngineCall::BindSharedTexture)
    }

    /// Unbind the shared texture (engine entry point `UnBindSharedTexture`).
    pub fn unbind_shared_texture(&self) -> (r: Result<EngineCall, Error>)
        ensures
            !self.acquired() ==> r == Err::<EngineCall, Error>(Error::NoHandle),
            self.acquired() ==> r == Ok::<EngineCall, Error>(EngineCall::UnbindSharedTexture),
    {
        self.guard()?;
        Ok(EngineCall::UnbindSharedTexture)
    }

    /// Query the shared texture identifier (engine entry point
    /// `GetSharedTextureID`).
    pub fn get_shared_texture_id(&self) -> (r: Result<EngineCall, Error>)
        ensures
            !self.acquired() ==> r == Err::<EngineCall, Error>(Error::NoHandle),
            self.acquired() ==> r == Ok::<EngineCall, Error>(EngineCall::GetSharedTextureId),
    {
        self.guard()?;
        Ok(EngineCall::GetSharedTextureId)
    }
}

} // verus!
