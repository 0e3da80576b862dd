//! Frame counting and frame synchronization operations.

use vstd::prelude::*;

use crate::call::EngineCall;
use crate::error::Error;
use crate::spout::RustySpout;
use crate::text::{has_embedded_nul, terminated_encoding, NameString};

verus! {

impl RustySpout {
    /// Enable or disable frame counting globally (engine entry point
    /// `SetFrameCount`).
    pub fn set_frame_count(&self, enable: bool) -> (r: Result<EngineCall, Error>)
        ensures
            !self.acquired() ==> r == Err::<EngineCall, Error>(Error::NoHandle),
            self.acquired() ==> r == Ok::<EngineCall, Error>(EngineCall::SetFrameCount { enable }),
    {
        self.guard()?;
        Ok(EngineCall::SetFrameCount { enable })
    }

    /// Disable frame counting for this application (engine entry point
    /// `DisableFrameCount`).
    pub fn disable_frame_count(&self) -> (r: Result<EngineCall, Error>)
        ensures
            !self.acquired() ==> r == Err::<EngineCall, Error>(Error::NoHandle),
            self.acquired() ==> r == Ok::<EngineCall, Error>(EngineCall::DisableFrameCount),
    {
        self.guard()?;
        Ok(EngineCall::DisableFrameCount)
    }

    /// Query frame count status (engine entry point `IsFrameCountEnabled`).
    pub fn is_frame_count_enabled(&self) -> (r: Result<EngineCall, Error>)
        ensures
            !self.acquired() ==> r == Err::<EngineCall, Error>(Error::NoHandle),
            self.acquired() ==> r == Ok::<EngineCall, Error>(EngineCall::IsFrameCountEnabled),
    {
        self.guard()?;
        Ok(EngineCall::IsFrameCountEnabled)
    }

    /// Hold the sender frame rate (engine entry point `HoldFps`).
    pub fn hold_fps(&self, fps: i32) -> (r: Result<EngineCall, Error>)
        ensures
            !self.acquired() ==> r == Err::<EngineCall, Error>(Error::NoHandle),
            self.acquired() ==> r == Ok::<EngineCall, Error>(EngineCall::HoldFps { fps }),
    {
        self.guard()?;
        Ok(EngineCall::HoldFps { fps })
    }

    /// Query the system refresh rate (engine entry point `GetRefreshRate`).
    /// The engine answers with a floating-point rate the embedder reads
    /// directly.
    pub fn get_refresh_rate(&self) -> (r: Result<EngineCall, Error>)
        ensures
            !self.acquired() ==> r == Err::<EngineCall, Error>(Error::NoHandle),
            self.acquired() ==> r == Ok::<EngineCall, Error>(EngineCall::GetRefreshRate),
    {
        self.guard()?;
        Ok(EngineCall::GetRefreshRate)
    }

    /// Signal a sync event for the named sender (engine entry point
    /// `SetFrameSync`).
    pub fn set_frame_sync(&self, sender_name: &str) -> (r: Result<EngineCall, Error>)
        ensures
            !self.acquired() ==> r == Err::<EngineCall, Error>(Error::NoHandle),
            self.acquired() && has_embedded_nul(sender_name@) ==> r == Err::<EngineCall, Error>(
                Error::StringEncode,
            ),
            self.acquired() && !has_embedded_nul(sender_name@) ==> (r matches Ok(c) && c matches
                EngineCall::SetFrameSync { name: n } && n@ == terminated_encoding(sender_name@)),
    {
        self.guard()?;
        let n = NameString::new(sender_name)?;
        Ok(EngineCall::SetFrameSync { name: n.terminated() })
    }

    /// Wait for or test a sync event, bounded by a timeout in milliseconds
    /// (engine entry point `WaitFrameSync`). The bound is forwarded
    /// verbatim; the wait itself happens on the engine's side.
    pub fn wait_frame_sync(&self, sender_name: &str, timeout: u32) -> (r: Result<
        EngineCall,
        Error,
    >)
        ensures
            !self.acquired() ==> r == Err::<EngineCall, Error>(Error::NoHandle),
            self.acquired() && has_embedded_nul(sender_name@) ==> r == Err::<EngineCall, Error>(
                Error::StringEncode,
            ),
            self.acquired() && !has_embedded_nul(sender_name@) ==> (r matches Ok(c) && c matches
                EngineCall::WaitFrameSync { name: n, timeout: t } && n@ == terminated_encoding(
                sender_name@,
            ) && t == timeout),
    {
        self.guard()?;
        let n = NameString::new(sender_name)?;
        Ok(EngineCall::WaitFrameSync { name: n.terminated(), timeout })
    }
}

} // verus!
