//! Interpretation of raw engine outcomes.
//!
//! The engine answers a call with a status boolean, a numeric value, or a
//! pointer. Numeric and boolean outcomes need no interpretation; pointer
//! outcomes do, and these functions classify them for every possible value,
//! so a null or ill-formed answer becomes a typed error, never a crash.

use vstd::prelude::*;
use vstd::utf8::{decode_utf8, valid_utf8};

use crate::error::Error;
use crate::text::string_from_utf8;

verus! {

/// Interpret a string the engine owns: the embedder hands the bytes it read
/// up to the engine's terminator, or nothing for a null pointer. A null
/// pointer is [`Error::NullPointer`] and is never dereferenced; bytes that
/// are not valid UTF-8 are [`Error::StringDecode`], never replaced.
pub fn decode_engine_text(reply: Option<Vec<u8>>) -> (r: Result<String, Error>)
    ensures
        reply is None ==> r == Err::<String, Error>(Error::NullPointer),
        reply matches Some(b) ==> {
            &&& r is Ok <==> valid_utf8(b@)
            &&& (r matches Ok(s) ==> s@ == decode_utf8(b@))
            &&& (r is Err ==> r == Err::<String, Error>(Error::StringDecode))
        },
{
    match reply {
        None => Err(Error::NullPointer),
        Some(b) => match string_from_utf8(b) {
            Some(s) => Ok(s),
            None => Err(Error::StringDecode),
        },
    }
}

/// Interpret a pointer the engine returned, held as a plain address with `0`
/// standing for null. Null is [`Error::NullPointer`]; any other address is
/// handed back unchanged.
pub fn decode_engine_pointer(addr: usize) -> (r: Result<usize, Error>)
    ensures
        addr == 0 ==> r == Err::<usize, Error>(Error::NullPointer),
        addr != 0 ==> r == Ok::<usize, Error>(addr),
{
    if addr == 0 {
        Err(Error::NullPointer)
    } else {
        Ok(addr)
    }
}

} // verus!
