//! Console, logging and dialog operations.
//!
//! Logging state is engine-global: these operations forward control calls
//! and cache nothing locally. The engine's variadic log formatters cannot be
//! given a safe signature, so they are first-class operations that
//! deterministically fail with [`Error::Unbindable`].

use vstd::prelude::*;

use crate::call::EngineCall;
use crate::error::Error;
use crate::spout::RustySpout;
use crate::text::{has_embedded_nul, terminated_encoding, NameString};

verus! {

impl RustySpout {
    /// Open the console for debugging (engine entry point
    /// `OpenSpoutConsole`).
    pub fn open_spout_console(&self) -> (r: Result<EngineCall, Error>)
        ensures
            !self.acquired() ==> r == Err::<EngineCall, Error>(Error::NoHandle),
            self.acquired() ==> r == Ok::<EngineCall, Error>(EngineCall::OpenSpoutConsole),
    {
        self.guard()?;
        Ok(EngineCall::OpenSpoutConsole)
    }

    /// Close the console, optionally with a warning dialog (engine entry
    /// point `CloseSpoutConsole`).
    pub fn close_spout_console(&self, warning: bool) -> (r: Result<EngineCall, Error>)
        ensures
            !self.acquired() ==> r == Err::<EngineCall, Error>(Error::NoHandle),
            self.acquired() ==> r == Ok::<EngineCall, Error>(
                EngineCall::CloseSpoutConsole { warning },
            ),
    {
        self.guard()?;
        Ok(EngineCall::CloseSpoutConsole { warning })
    }

    /// Enable engine logging (engine entry point `EnableSpoutLog`).
    pub fn enable_spout_log(&self) -> (r: Result<EngineCall, Error>)
        ensures
            !self.acquired() ==> r == Err::<EngineCall, Error>(Error::NoHandle),
            self.acquired() ==> r == Ok::<EngineCall, Error>(EngineCall::EnableSpoutLog),
    {
        self.guard()?;
        Ok(EngineCall::EnableSpoutLog)
    }

    /// Log to the named file (engine entry point `EnableSpoutLogFile`).
    pub fn enable_spout_log_file(&self, filename: &str, append: bool) -> (r: Result<
        EngineCall,
        Error,
    >)
        ensures
            !self.acquired() ==> r == Err::<EngineCall, Error>(Error::NoHandle),
            self.acquired() && has_embedded_nul(filename@) ==> r == Err::<EngineCall, Error>(
                Error::StringEncode,
            ),
            self.acquired() && !has_embedded_nul(filename@) ==> (r matches Ok(c) && c matches
                EngineCall::EnableSpoutLogFile { filename: f, append: a } && f@
                == terminated_encoding(filename@) && a == append),
    {
        self.guard()?;
        let f = NameString::new(filename)?;
        Ok(EngineCall::EnableSpoutLogFile { filename: f.terminated(), append })
    }

    /// Query the accumulated engine log (engine entry point `GetSpoutLog`).
    /// The engine answers with an owned string; decode its bytes with
    /// [`crate::reply::decode_engine_text`].
    pub fn get_spout_log(&self) -> (r: Result<EngineCall, Error>)
        ensures
            !self.acquired() ==> r == Err::<EngineCall, Error>(Error::NoHandle),
            self.acquired() ==> r == Ok::<EngineCall, Error>(EngineCall::GetSpoutLog),
    {
        self.guard()?;
        Ok(EngineCall::GetSpoutLog)
    }

    /// Show the engine logs (engine entry point `ShowSpoutLogs`).
    pub fn show_spout_logs(&self) -> (r: Result<EngineCall, Error>)
        ensures
            !self.acquired() ==> r == Err::<EngineCall, Error>(Error::NoHandle),
            self.acquired() ==> r == Ok::<EngineCall, Error>(EngineCall::ShowSpoutLogs),
    {
        self.guard()?;
        Ok(EngineCall::ShowSpoutLogs)
    }

    /// Disable engine logging (engine entry point `DisableSpoutLog`).
    pub fn disable_spout_log(&self) -> (r: Result<EngineCall, Error>)
        ensures
            !self.acquired() ==> r == Err::<EngineCall, Error>(Error::NoHandle),
            self.acquired() ==> r == Ok::<EngineCall, Error>(EngineCall::DisableSpoutLog),
    {
        self.guard()?;
        Ok(EngineCall::DisableSpoutLog)
    }

    /// Set the engine log level (engine entry point `SetSpoutLogLevel`).
    /// The level code belongs to the engine's own enumeration and is
    /// forwarded verbatim.
    pub fn set_spout_log_level(&self, level: i32) -> (r: Result<EngineCall, Error>)
        ensures
            !self.acquired() ==> r == Err::<EngineCall, Error>(Error::NoHandle),
            self.acquired() ==> r == Ok::<EngineCall, Error>(
                EngineCall::SetSpoutLogLevel { level },
            ),
    {
        self.guard()?;
        Ok(EngineCall::SetSpoutLogLevel { level })
    }

    /// Log at the default level. The engine's formatter is variadic and has
    /// no safe signature, so this always fails with [`Error::Unbindable`].
    pub fn spout_log(&self, _text: &str) -> (r: Result<EngineCall, Error>)
        ensures
            r == Err::<EngineCall, Error>(Error::Unbindable),
    {
        Err(Error::Unbindable)
    }

    /// Log at the verbose level; unbindable like [`RustySpout::spout_log`].
    pub fn spout_log_verbose(&self, _text: &str) -> (r: Result<EngineCall, Error>)
        ensures
            r == Err::<EngineCall, Error>(Error::Unbindable),
    {
        Err(Error::Unbindable)
    }

    /// Log at the notice level; unbindable like [`RustySpout::spout_log`].
    pub fn spout_log_notice(&self, _text: &str) -> (r: Result<EngineCall, Error>)
        ensures
            r == Err::<EngineCall, Error>(Error::Unbindable),
    {
        Err(Error::Unbindable)
    }

    /// Log at the warning level; unbindable like [`RustySpout::spout_log`].
    pub fn spout_log_warning(&self, _text: &str) -> (r: Result<EngineCall, Error>)
        ensures
            r == Err::<EngineCall, Error>(Error::Unbindable),
    {
        Err(Error::Unbindable)
    }

    /// Log at the error level; unbindable like [`RustySpout::spout_log`].
    pub fn spout_log_error(&self, _text: &str) -> (r: Result<EngineCall, Error>)
        ensures
            r == Err::<EngineCall, Error>(Error::Unbindable),
    {
        Err(Error::Unbindable)
    }

    /// Log at the fatal level; unbindable like [`RustySpout::spout_log`].
    pub fn spout_log_fatal(&self, _text: &str) -> (r: Result<EngineCall, Error>)
        ensures
            r == Err::<EngineCall, Error>(Error::Unbindable),
    {
        Err(Error::Unbindable)
    }

    /// Show a message dialog that closes itself after the given timeout
    /// (engine entry point `SpoutMessageBox`).
    pub fn spout_message_box(&self, message: &str, milliseconds: u32) -> (r: Result<
        EngineCall,
        Error,
    >)
        ensures
            !self.acquired() ==> r == Err::<EngineCall, Error>(Error::NoHandle),
            self.acquired() && has_embedded_nul(message@) ==> r == Err::<EngineCall, Error>(
                Error::StringEncode,
            ),
            self.acquired() && !has_embedded_nul(message@) ==> (r matches Ok(c) && c matches
                EngineCall::SpoutMessageBox { message: m, milliseconds: ms } && m@
                == terminated_encoding(message@) && ms == milliseconds),
    {
        self.guard()?;
        let m = NameString::new(message)?;
        Ok(EngineCall::SpoutMessageBox { message: m.terminated(), milliseconds })
    }
}

} // verus!
