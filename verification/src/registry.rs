//! Registry access operations.
//!
//! The engine's registry entry points take an ambiguously typed key that
//! cannot be given a safe signature, so every operation here is first-class
//! but deterministically fails with [`Error::Unbindable`]: a stable "not
//! supported" signal rather than a missing symbol.

use vstd::prelude::*;

use crate::call::EngineCall;
use crate::error::Error;
use crate::spout::RustySpout;

verus! {

impl RustySpout {
    /// Read a subkey DWORD value; unbindable.
    pub fn read_dword_from_registry(
        &self,
        _key: u32,
        _sub_key: &str,
        _value_name: &str,
        _value: u32,
    ) -> (r: Result<EngineCall, Error>)
        ensures
            r == Err::<EngineCall, Error>(Error::Unbindable),
    {
        Err(Error::Unbindable)
    }

    /// Write a subkey DWORD value; unbindable.
    pub fn write_dword_to_registry(
        &self,
        _key: u32,
        _sub_key: &str,
        _value_name: &str,
        _value: u32,
    ) -> (r: Result<EngineCall, Error>)
        ensures
            r == Err::<EngineCall, Error>(Error::Unbindable),
    {
        Err(Error::Unbindable)
    }

    /// Read a subkey character string; unbindable.
    pub fn read_path_from_registry(
        &self,
        _key: u32,
        _sub_key: &str,
        _value_name: &str,
        _file_path: &str,
    ) -> (r: Result<EngineCall, Error>)
        ensures
            r == Err::<EngineCall, Error>(Error::Unbindable),
    {
        Err(Error::Unbindable)
    }

    /// Write a subkey character string; unbindable.
    pub fn write_path_to_registry(
        &self,
        _key: u32,
        _sub_key: &str,
        _value_name: &str,
        _file_path: &str,
    ) -> (r: Result<EngineCall, Error>)
        ensures
            r == Err::<EngineCall, Error>(Error::Unbindable),
    {
        Err(Error::Unbindable)
    }

    /// Remove a subkey value name; unbindable.
    pub fn remove_path_from_registry(&self, _key: u32, _sub_key: &str, _value_name: &str) -> (r:
        Result<EngineCall, Error>)
        ensures
            r == Err::<EngineCall, Error>(Error::Unbindable),
    {
        Err(Error::Unbindable)
    }

    /// Delete a subkey and its values; unbindable.
    pub fn remove_sub_key(&self, _key: u32, _sub_key: &str) -> (r: Result<EngineCall, Error>)
        ensures
            r == Err::<EngineCall, Error>(Error::Unbindable),
    {
        Err(Error::Unbindable)
    }

    /// Find a subkey; unbindable.
    pub fn find_sub_key(&self, _key: u32, _sub_key: &str) -> (r: Result<EngineCall, Error>)
        ensures
            r == Err::<EngineCall, Error>(Error::Unbindable),
    {
        Err(Error::Unbindable)
    }
}

} // verus!
