//! Graphics adapter enumeration and performance preference operations.
//!
//! A [`DxgiGpuPreference`] crosses the boundary as its integer code; the
//! encoding is done here, so an engine call description never carries an
//! unmapped code outward. An inbound code is decoded with
//! [`DxgiGpuPreference::try_from`], where an unknown code is an
//! [`Error::UnexpectedValue`].

use vstd::prelude::*;

use crate::buffer::{capacity_ok, BoundedOutputBuffer};
use crate::call::EngineCall;
use crate::error::Error;
use crate::preference::DxgiGpuPreference;
use crate::spout::RustySpout;
use crate::text::{has_embedded_nul, terminated_encoding, NameString};

verus! {

impl RustySpout {
    /// Query the number of graphics adapters (engine entry point
    /// `GetNumAdapters`).
    pub fn get_num_adapters(&self) -> (r: Result<EngineCall, Error>)
        ensures
            !self.acquired() ==> r == Err::<EngineCall, Error>(Error::NoHandle),
            self.acquired() ==> r == Ok::<EngineCall, Error>(EngineCall::GetNumAdapters),
    {
        self.guard()?;
        Ok(EngineCall::GetNumAdapters)
    }

    /// Fill a caller-supplied buffer of the requested capacity with the name
    /// of the adapter at `index` (engine entry point `GetAdapterName`).
    /// Decode the filled buffer with [`crate::buffer::decode_filled`].
    pub fn get_adapter_name(&self, index: i32, max_chars: usize) -> (r: Result<EngineCall, Error>)
        ensures
            !self.acquired() ==> r == Err::<EngineCall, Error>(Error::NoHandle),
            self.acquired() && !capacity_ok(max_chars) ==> r == Err::<EngineCall, Error>(
                Error::NumericRange,
            ),
            self.acquired() && capacity_ok(max_chars) ==> (r matches Ok(c) && c matches
                EngineCall::GetAdapterName { index: i, buffer: b, max_chars: m } && i == index
                && b@.len() == max_chars && b@.last() == 0 && m == max_chars),
    {
        self.guard()?;
        let buffer = BoundedOutputBuffer::new(max_chars)?;
        let count = buffer.count();
        Ok(EngineCall::GetAdapterName { index, buffer: buffer.into_bytes(), max_chars: count })
    }

    /// Query the current adapter index (engine entry point `GetAdapter`).
    pub fn get_adapter(&self) -> (r: Result<EngineCall, Error>)
        ensures
            !self.acquired() ==> r == Err::<EngineCall, Error>(Error::NoHandle),
            self.acquired() ==> r == Ok::<EngineCall, Error>(EngineCall::GetAdapter),
    {
        self.guard()?;
        Ok(EngineCall::GetAdapter)
    }

    /// Query the performance preference registered for an application path
    /// (engine entry point `GetPerformancePreference`). The engine answers
    /// with a code; decode it with [`DxgiGpuPreference::try_from`].
    pub fn get_performance_preference(&self, path: &str) -> (r: Result<EngineCall, Error>)
        ensures
            !self.acquired() ==> r == Err::<EngineCall, Error>(Error::NoHandle),
            self.acquired() && has_embedded_nul(path@) ==> r == Err::<EngineCall, Error>(
                Error::StringEncode,
            ),
            self.acquired() && !has_embedded_nul(path@) ==> (r matches Ok(c) && c matches
                EngineCall::GetPerformancePreference { path: p } && p@ == terminated_encoding(
                path@,
            )),
    {
        self.guard()?;
        let p = NameString::new(path)?;
        Ok(EngineCall::GetPerformancePreference { path: p.terminated() })
    }

    /// Register a performance preference for an application path (engine
    /// entry point `SetPerformancePreference`). The preference crosses as
    /// its integer code.
    pub fn set_performance_preference(&self, preference: DxgiGpuPreference, path: &str) -> (r:
        Result<EngineCall, Error>)
        ensures
            !self.acquired() ==> r == Err::<EngineCall, Error>(Error::NoHandle),
            self.acquired() && has_embedded_nul(path@) ==> r == Err::<EngineCall, Error>(
                Error::StringEncode,
            ),
            self.acquired() && !has_embedded_nul(path@) ==> (r matches Ok(c) && c matches
                EngineCall::SetPerformancePreference { preference: v, path: p } && v
                == preference.code() && p@ == terminated_encoding(path@)),
    {
        self.guard()?;
        let code = preference.try_into_code()?;
        let p = NameString::new(path)?;
        Ok(EngineCall::SetPerformancePreference { preference: code, path: p.terminated() })
    }

    /// Fill a caller-supplied buffer of the requested capacity with the name
    /// of the adapter a preference selects (engine entry point
    /// `GetPreferredAdapterName`). Decode the filled buffer with
    /// [`crate::buffer::decode_filled`].
    pub fn get_preferred_adapter_name(&self, preference: DxgiGpuPreference, max_chars: usize) -> (r:
        Result<EngineCall, Error>)
        ensures
            !self.acquired() ==> r == Err::<EngineCall, Error>(Error::NoHandle),
            self.acquired() && !capacity_ok(max_chars) ==> r == Err::<EngineCall, Error>(
                Error::NumericRange,
            ),
            self.acquired() && capacity_ok(max_chars) ==> (r matches Ok(c) && c matches
                EngineCall::GetPreferredAdapterName { preference: v, buffer: b, max_chars: m } && v
                == preference.code() && b@.len() == max_chars && b@.last() == 0 && m == max_chars),
    {
        self.guard()?;
        let code = preference.try_into_code()?;
        let buffer = BoundedOutputBuffer::new(max_chars)?;
        let count = buffer.count();
        Ok(EngineCall::GetPreferredAdapterName {
            preference: code,
            buffer: buffer.into_bytes(),
            max_chars: count,
        })
    }

    /// Select the adapter a preference names (engine entry point
    /// `SetPreferredAdapter`). The preference crosses as its integer code.
    pub fn set_preferred_adapter(&self, preference: DxgiGpuPreference) -> (r: Result<
        EngineCall,
        Error,
    >)
        ensures
            !self.acquired() ==> r == Err::<EngineCall, Error>(Error::NoHandle),
            self.acquired() ==> (r matches Ok(c) && c matches EngineCall::SetPreferredAdapter {
                preference: v,
            } && v == preference.code()),
    {
        self.guard()?;
        let code = preference.try_into_code()?;
        Ok(EngineCall::SetPreferredAdapter { preference: code })
    }

    /// Query whether preference registration is available (engine entry
    /// point `IsPreferenceAvailable`).
    pub fn is_preference_available(&self) -> (r: Result<EngineCall, Error>)
        ensures
            !self.acquired() ==> r == Err::<EngineCall, Error>(Error::NoHandle),
            self.acquired() ==> r == Ok::<EngineCall, Error>(EngineCall::IsPreferenceAvailable),
    {
        self.guard()?;
        Ok(EngineCall::IsPreferenceAvailable)
    }

    /// Query whether the named path is an application path (engine entry
    /// point `IsApplicationPath`).
    pub fn is_application_path(&self, path: &str) -> (r: Result<EngineCall, Error>)
        ensures
            !self.acquired() ==> r == Err::<EngineCall, Error>(Error::NoHandle),
            self.acquired() && has_embedded_nul(path@) ==> r == Err::<EngineCall, Error>(
                Error::StringEncode,
            ),
            self.acquired() && !has_embedded_nul(path@) ==> (r matches Ok(c) && c matches
                EngineCall::IsApplicationPath { path: p } && p@ == terminated_encoding(path@)),
    {
        self.guard()?;
        let p = NameString::new(path)?;
        Ok(EngineCall::IsApplicationPath { path: p.terminated() })
    }
}

} // verus!
