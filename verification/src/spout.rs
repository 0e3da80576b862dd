//! The handle manager: single authority over engine handle validity.
//!
//! A [`RustySpout`] owns at most one opaque engine reference for its
//! lifetime. Acquisition stores the reference the factory entry point
//! returned, every capability operation passes the dispatch guard before its
//! engine call is marshaled, and release clears the stored reference so the
//! engine-side release is performed at most once.
//!
//! The lifecycle is a two-state machine, unacquired and acquired: a
//! successful acquisition is the only step into the acquired state, release
//! is the only step out of it, and the guard dispatches engine calls from the
//! acquired state alone.

use vstd::prelude::*;

use crate::call::EngineCall;
use crate::error::Error;

verus! {

/// The dispatch guard's answer in a given lifecycle state: capability calls
/// are admitted exactly in the acquired state, and refused with
/// [`Error::NoHandle`] before any engine call is marshaled otherwise.
pub open spec fn guard_outcome(acquired: bool) -> Result<(), Error> {
    if acquired {
        Ok(())
    } else {
        Err(Error::NoHandle)
    }
}

/// One acquisition step, decided by the factory's answer (`0` standing for a
/// null reference): the state it leads to and the result it reports. A null
/// answer is [`Error::NoHandle`] and changes nothing; any other answer
/// acquires, replacing a previously held reference (the engine defines what
/// a repeated acquisition means on its side; this wrapper documents that the
/// newer reference is the one kept).
pub open spec fn acquire_step(acquired: bool, raw: usize) -> (bool, Result<(), Error>) {
    if raw == 0 {
        (acquired, Err(Error::NoHandle))
    } else {
        (true, Ok(()))
    }
}

/// One release step: the state it leaves, and whether the engine's release
/// entry point is invoked. Release always leaves the unacquired state and
/// reaches the engine exactly when a handle was held.
pub open spec fn release_step(acquired: bool) -> (bool, bool) {
    (false, acquired)
}

/// An opaque, non-null reference to a live engine instance, held as a plain
/// address.
pub struct EngineHandle {
    raw: usize,
}

impl EngineHandle {
    /// Validity: the reference is never null.
    #[verifier::type_invariant]
    pub closed spec fn inv(self) -> bool {
        self.raw != 0
    }
}

/// The wrapper instance: the one owner of the engine handle.
pub struct RustySpout {
    handle: Option<EngineHandle>,
}

impl RustySpout {
    /// Whether a live engine handle is held.
    pub closed spec fn acquired(&self) -> bool {
        self.handle is Some
    }

    /// Create a new, unacquired handler.
    pub fn new() -> (r: RustySpout)
        ensures
            !r.acquired(),
    {
        RustySpout { handle: None }
    }

    /// Store the engine reference the factory entry point returned, `0`
    /// standing for a null reference. Fails with [`Error::NoHandle`], and
    /// changes nothing, exactly when the factory answered null.
    pub fn get_spout(&mut self, raw: usize) -> (r: Result<(), Error>)
        ensures
            final(self).acquired() == acquire_step(old(self).acquired(), raw).0,
            r == acquire_step(old(self).acquired(), raw).1,
            raw == 0 ==> *final(self) == *old(self),
    {
        if raw == 0 {
            return Err(Error::NoHandle);
        }
        self.handle = Some(EngineHandle { raw });
        Ok(())
    }

    /// The dispatch guard: the single choke point every capability operation
    /// passes before its engine call is marshaled. Refuses with
    /// [`Error::NoHandle`] exactly when no handle is held, so a valid
    /// reference stands behind every call that reaches the engine.
    pub fn guard(&self) -> (r: Result<(), Error>)
        ensures
            r == guard_outcome(self.acquired()),
    {
        if self.handle.is_some() {
            Ok(())
        } else {
            Err(Error::NoHandle)
        }
    }

    /// Drop the held handle and hand out the engine release call if one is
    /// owed. The handle is cleared either way, so the engine-side release is
    /// performed at most once however often this is called; a release
    /// without a held handle is a no-op, not an error.
    pub fn release(&mut self) -> (r: Option<EngineCall>)
        ensures
            final(self).acquired() == release_step(old(self).acquired()).0,
            (r is Some) == release_step(old(self).acquired()).1,
            r matches Some(c) ==> c == EngineCall::Release,
    {
        let owed = self.handle.is_some();
        self.handle = None;
        if owed {
            Some(EngineCall::Release)
        } else {
            None
        }
    }
}

/// Law: in the unacquired state the guard refuses every capability operation
/// with [`Error::NoHandle`], so no engine call is marshaled, let alone
/// performed.
pub proof fn lemma_unacquired_refuses(acquired: bool)
    requires
        !acquired,
    ensures
        guard_outcome(acquired) == Err::<(), Error>(Error::NoHandle),
{
}

/// Law: a handle cannot be reused after release. Whatever state release is
/// called in, it leaves the unacquired state, and there the guard refuses
/// every capability operation with [`Error::NoHandle`].
pub proof fn lemma_release_blocks_reuse(acquired: bool)
    ensures
        !release_step(acquired).0,
        guard_outcome(release_step(acquired).0) == Err::<(), Error>(Error::NoHandle),
{
}

/// Law: release is idempotent. A second release in succession changes
/// nothing and never reaches the engine's release entry point, so the
/// engine-side release is performed at most once.
pub proof fn lemma_release_idempotent(acquired: bool)
    ensures
        release_step(release_step(acquired).0).0 == release_step(acquired).0,
        !release_step(release_step(acquired).0).1,
{
}

/// Law: a failed acquisition changes no state, and a successful one is the
/// only step that admits capability calls.
pub proof fn lemma_acquire_decides_guard(acquired: bool, raw: usize)
    ensures
        raw == 0 ==> acquire_step(acquired, raw).0 == acquired
            && acquire_step(acquired, raw).1 == Err::<(), Error>(Error::NoHandle),
        raw != 0 ==> acquire_step(acquired, raw).0
            && guard_outcome(acquire_step(acquired, raw).0) == Ok::<(), Error>(()),
{
}

} // verus!
