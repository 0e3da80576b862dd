//! Sharing mode queries and settings.

use vstd::prelude::*;

use crate::buffer::{capacity_ok, BoundedOutputBuffer};
use crate::call::EngineCall;
use crate::error::Error;
use crate::spout::RustySpout;
use crate::text::{has_embedded_nul, terminated_encoding, NameString};

verus! {

impl RustySpout {
    /// Query DirectX 9 mode (engine entry point `GetDX9`).
    pub fn get_dx9(&self) -> (r: Result<EngineCall, Error>)
        ensures
            !self.acquired() ==> r == Err::<EngineCall, Error>(Error::NoHandle),
            self.acquired() ==> r == Ok::<EngineCall, Error>(EngineCall::GetDx9),
    {
        self.guard()?;
        Ok(EngineCall::GetDx9)
    }

    /// Set DirectX 9 mode (engine entry point `SetDX9`).
    pub fn set_dx9(&self, dx9: bool) -> (r: Result<EngineCall, Error>)
        ensures
            !self.acquired() ==> r == Err::<EngineCall, Error>(Error::NoHandle),
            self.acquired() ==> r == Ok::<EngineCall, Error>(EngineCall::SetDx9 { dx9 }),
    {
        self.guard()?;
        Ok(EngineCall::SetDx9 { dx9 })
    }

    /// Query memory share mode (engine entry point `GetMemoryShareMode`).
    pub fn get_memory_share_mode(&self) -> (r: Result<EngineCall, Error>)
        ensures
            !self.acquired() ==> r == Err::<EngineCall, Error>(Error::NoHandle),
            self.acquired() ==> r == Ok::<EngineCall, Error>(EngineCall::GetMemoryShareMode),
    {
        self.guard()?;
        Ok(EngineCall::GetMemoryShareMode)
    }

    /// Set memory share mode (engine entry point `SetMemoryShareMode`).
    pub fn set_memory_share_mode(&self, mem: bool) -> (r: Result<EngineCall, Error>)
        ensures
            !self.acquired() ==> r == Err::<EngineCall, Error>(Error::NoHandle),
            self.acquired() ==> r == Ok::<EngineCall, Error>(
                EngineCall::SetMemoryShareMode { mem },
            ),
    {
        self.guard()?;
        Ok(EngineCall::SetMemoryShareMode { mem })
    }

    /// Query CPU sharing mode (engine entry point `GetCPUmode`).
    pub fn get_cpu_mode(&self) -> (r: Result<EngineCall, Error>)
        ensures
            !self.acquired() ==> r == Err::<EngineCall, Error>(Error::NoHandle),
            self.acquired() ==> r == Ok::<EngineCall, Error>(EngineCall::GetCpuMode),
    {
        self.guard()?;
        Ok(EngineCall::GetCpuMode)
    }

    /// Set CPU sharing mode (engine entry point `SetCPUmode`).
    pub fn set_cpu_mode(&self, cpu: bool) -> (r: Result<EngineCall, Error>)
        ensures
            !self.acquired() ==> r == Err::<EngineCall, Error>(Error::NoHandle),
            self.acquired() ==> r == Ok::<EngineCall, Error>(EngineCall::SetCpuMode { cpu }),
    {
        self.guard()?;
        Ok(EngineCall::SetCpuMode { cpu })
    }

    /// Query the share mode code (engine entry point `GetShareMode`).
    pub fn get_share_mode(&self) -> (r: Result<EngineCall, Error>)
        ensures
            !self.acquired() ==> r == Err::<EngineCall, Error>(Error::NoHandle),
            self.acquired() ==> r == Ok::<EngineCall, Error>(EngineCall::GetShareMode),
    {
        self.guard()?;
        Ok(EngineCall::GetShareMode)
    }

    /// Set the share mode code (engine entry point `SetShareMode`). The code
    /// is forwarded verbatim.
    pub fn set_share_mode(&self, mode: i32) -> (r: Result<EngineCall, Error>)
        ensures
            !self.acquired() ==> r == Err::<EngineCall, Error>(Error::NoHandle),
            self.acquired() ==> r == Ok::<EngineCall, Error>(EngineCall::SetShareMode { mode }),
    {
        self.guard()?;
        Ok(EngineCall::SetShareMode { mode })
    }

    /// Open the sender selection panel (engine entry point
    /// `SelectSenderPanel`).
    pub fn select_sender_panel(&self) -> (r: Result<EngineCall, Error>)
        ensures
            !self.acquired() ==> r == Err::<EngineCall, Error>(Error::NoHandle),
            self.acquired() ==> r == Ok::<EngineCall, Error>(EngineCall::SelectSenderPanel),
    {
        self.guard()?;
        Ok(EngineCall::SelectSenderPanel)
    }

    /// Fill a caller-supplied buffer of the requested capacity with the host
    /// path registered for the named sender (engine entry point
    /// `GetHostPath`). Decode the filled buffer with
    /// [`crate::buffer::decode_filled`].
    pub fn get_host_path(&self, sender_name: &str, max_chars: usize) -> (r: Result<
        EngineCall,
        Error,
    >)
        ensures
            !self.acquired() ==> r == Err::<EngineCall, Error>(Error::NoHandle),
            self.acquired() && has_embedded_nul(sender_name@) ==> r == Err::<EngineCall, Error>(
                Error::StringEncode,
            ),
            self.acquired() && !has_embedded_nul(sender_name@) && !capacity_ok(max_chars) ==> r
                == Err::<EngineCall, Error>(Error::NumericRange),
            self.acquired() && !has_embedded_nul(sender_name@) && capacity_ok(max_chars) ==> (
            r matches Ok(c) && c matches EngineCall::GetHostPath {
                name: n,
                buffer: b,
                max_chars: m,
            } && n@ == terminated_encoding(sender_name@) && b@.len() == max_chars && b@.last() == 0
                && m == max_chars),
    {
        self.guard()?;
        let n = NameString::new(sender_name)?;
        let buffer = BoundedOutputBuffer::new(max_chars)?;
        let count = buffer.count();
        Ok(EngineCall::GetHostPath {
            name: n.terminated(),
            buffer: buffer.into_bytes(),
            max_chars: count,
        })
    }

    /// Query the vertical sync setting (engine entry point
    /// `GetVerticalSync`).
    pub fn get_vertical_sync(&self) -> (r: Result<EngineCall, Error>)
        ensures
            !self.acquired() ==> r == Err::<EngineCall, Error>(Error::NoHandle),
            self.acquired() ==> r == Ok::<EngineCall, Error>(EngineCall::GetVerticalSync),
    {
        self.guard()?;
        Ok(EngineCall::GetVerticalSync)
    }

    /// Set the vertical sync setting (engine entry point `SetVerticalSync`).
    pub fn set_vertical_sync(&self, sync: bool) -> (r: Result<EngineCall, Error>)
        ensures
            !self.acquired() ==> r == Err::<EngineCall, Error>(Error::NoHandle),
            self.acquired() ==> r == Ok::<EngineCall, Error>(EngineCall::SetVerticalSync { sync }),
    {
        self.guard()?;
        Ok(EngineCall::SetVerticalSync { sync })
    }

    /// Query the engine version number (engine entry point
    /// `GetSpoutVersion`).
    pub fn get_spout_version(&self) -> (r: Result<EngineCall, Error>)
        ensures
            !self.acquired() ==> r == Err::<EngineCall, Error>(Error::NoHandle),
            self.acquired() ==> r == Ok::<EngineCall, Error>(EngineCall::GetSpoutVersion),
    {
        self.guard()?;
        Ok(EngineCall::GetSpoutVersion)
    }

    /// Query automatic sharing (engine entry point `GetAutoShare`).
    pub fn get_auto_share(&self) -> (r: Result<EngineCall, Error>)
        ensures
            !self.acquired() ==> r == Err::<EngineCall, Error>(Error::NoHandle),
            self.acquired() ==> r == Ok::<EngineCall, Error>(EngineCall::GetAutoShare),
    {
        self.guard()?;
        Ok(EngineCall::GetAutoShare)
    }

    /// Set automatic sharing (engine entry point `SetAutoShare`).
    pub fn set_auto_share(&self, auto_share: bool) -> (r: Result<EngineCall, Error>)
        ensures
            !self.acquired() ==> r == Err::<EngineCall, Error>(Error::NoHandle),
            self.acquired() ==> r == Ok::<EngineCall, Error>(
                EngineCall::SetAutoShare { auto_share },
            ),
    {
        self.guard()?;
        Ok(EngineCall::SetAutoShare { auto_share })
    }

    /// Query whether GL/DX interop is ready (engine entry point
    /// `IsGLDXready`).
    pub fn is_gl_dx_ready(&self) -> (r: Result<EngineCall, Error>)
        ensures
            !self.acquired() ==> r == Err::<EngineCall, Error>(Error::NoHandle),
            self.acquired() ==> r == Ok::<EngineCall, Error>(EngineCall::IsGlDxReady),
    {
        self.guard()?;
        Ok(EngineCall::IsGlDxReady)
    }
}

} // verus!
