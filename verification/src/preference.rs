//! The GPU preference enumeration and its boundary mappings.
//!
//! The engine speaks of a preference as a small integer code, and adapter
//! and path queries speak of it as a fixed textual token. Both mappings are
//! total, explicit match tables; an integer outside the known codes is an
//! [`Error::UnexpectedValue`], never a silent default.

use vstd::prelude::*;

use crate::error::Error;

verus! {

/// A DXGI GPU performance preference, as registered for an application path.
#[derive(Clone, Copy, Debug, PartialEq, Eq, Structural)]
pub enum DxgiGpuPreference {
    /// No preference is registered for the path.
    NotRegistered,
    /// A preference is registered but left unspecified.
    Unspecified,
    /// Prefer the minimum-power adapter.
    MinimumPower,
    /// Prefer the high-performance adapter.
    HighPerformance,
}

/// The variant a given engine code stands for, if any: the inverse of
/// [`DxgiGpuPreference::code`].
pub open spec fn preference_of_code(v: int) -> Option<DxgiGpuPreference> {
    if v == -1 {
        Some(DxgiGpuPreference::NotRegistered)
    } else if v == 0 {
        Some(DxgiGpuPreference::Unspecified)
    } else if v == 1 {
        Some(DxgiGpuPreference::MinimumPower)
    } else if v == 2 {
        Some(DxgiGpuPreference::HighPerformance)
    } else {
        None
    }
}

impl DxgiGpuPreference {
    /// The integer code of the variant at the engine boundary.
    pub open spec fn code(self) -> int {
        match self {
            DxgiGpuPreference::NotRegistered => -1,
            DxgiGpuPreference::Unspecified => 0,
            DxgiGpuPreference::MinimumPower => 1,
            DxgiGpuPreference::HighPerformance => 2,
        }
    }

    /// The textual token of the variant, where one exists: the unregistered
    /// state has no token.
    pub open spec fn token(self) -> Option<Seq<char>> {
        match self {
            DxgiGpuPreference::NotRegistered => None,
            DxgiGpuPreference::Unspecified => Some("DXGI_GPU_PREFERENCE_UNSPECIFIED"@),
            DxgiGpuPreference::MinimumPower => Some("DXGI_GPU_PREFERENCE_MINIMUM_POWER"@),
            DxgiGpuPreference::HighPerformance => Some("DXGI_GPU_PREFERENCE_HIGH_PERFORMANCE"@),
        }
    }

    /// Encode the variant as its engine code. Total: every variant has a
    /// code.
    pub fn try_into_code(self) -> (r: Result<i32, Error>)
        ensures
            r == Ok::<i32, Error>(self.code() as i32),
    {
        match self {
            DxgiGpuPreference::NotRegistered => Ok(-1),
            DxgiGpuPreference::Unspecified => Ok(0),
            DxgiGpuPreference::MinimumPower => Ok(1),
            DxgiGpuPreference::HighPerformance => Ok(2),
        }
    }

    /// Decode an engine code. Fails with [`Error::UnexpectedValue`] exactly
    /// on the codes no variant stands for.
    pub fn try_from(value: i32) -> (r: Result<DxgiGpuPreference, Error>)
        ensures
            r is Ok <==> preference_of_code(value as int) is Some,
            r matches Ok(p) ==> Some(p) == preference_of_code(value as int),
            r is Err ==> r == Err::<DxgiGpuPreference, Error>(Error::UnexpectedValue),
    {
        match value {
            -1 => Ok(DxgiGpuPreference::NotRegistered),
            0 => Ok(DxgiGpuPreference::Unspecified),
            1 => Ok(DxgiGpuPreference::MinimumPower),
            2 => Ok(DxgiGpuPreference::HighPerformance),
            _ => Err(Error::UnexpectedValue),
        }
    }

    /// Encode the variant as its textual token. Fails with
    /// [`Error::UnexpectedValue`] exactly when the variant has none.
    pub fn try_into_token(self) -> (r: Result<&'static str, Error>)
        ensures
            r is Ok <==> self.token() is Some,
            r matches Ok(t) ==> Some(t@) == self.token(),
            r is Err ==> r == Err::<&'static str, Error>(Error::UnexpectedValue),
    {
        match self {
            DxgiGpuPreference::NotRegistered => Err(Error::UnexpectedValue),
            DxgiGpuPreference::Unspecified => Ok("DXGI_GPU_PREFERENCE_UNSPECIFIED"),
            DxgiGpuPreference::MinimumPower => Ok("DXGI_GPU_PREFERENCE_MINIMUM_POWER"),
            DxgiGpuPreference::HighPerformance => Ok("DXGI_GPU_PREFERENCE_HIGH_PERFORMANCE"),
        }
    }
}

/// The integer mapping is a bijection: every variant decodes back from its
/// own code, every decodable code decodes to the variant that encodes to it,
/// and exactly the codes -1 through 2 decode at all.
pub proof fn lemma_code_bijection(p: DxgiGpuPreference, v: int)
    ensures
        preference_of_code(p.code()) == Some(p),
        preference_of_code(v) matches Some(q) ==> q.code() == v,
        preference_of_code(v) is Some <==> -1 <= v <= 2,
{
}

} // verus!
