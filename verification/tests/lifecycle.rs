//! Lifecycle tests: the dispatch guard, release semantics, and failed
//! acquisition, driven against a stub engine that counts invocations.

use rusty_spout::call::EngineCall;
use rusty_spout::error::Error;
use rusty_spout::spout::RustySpout;

/// A stand-in engine: performs call descriptions and counts how many reach
/// it.
struct StubEngine {
    invocations: usize,
}

impl StubEngine {
    fn new() -> StubEngine {
        StubEngine { invocations: 0 }
    }

    fn perform(&mut self, _call: EngineCall) {
        self.invocations += 1;
    }
}

#[test]
fn capability_calls_before_acquire_yield_no_handle() {
    let spout = RustySpout::new();
    let mut engine = StubEngine::new();

    // A sample from each capability family: every one is refused by the
    // guard, so nothing is handed to the engine.
    assert_eq!(spout.set_sender_name("alpha").unwrap_err(), Error::NoHandle);
    assert_eq!(spout.get_name().unwrap_err(), Error::NoHandle);
    assert_eq!(spout.set_receiver_name("alpha").unwrap_err(), Error::NoHandle);
    assert_eq!(spout.is_connected().unwrap_err(), Error::NoHandle);
    assert_eq!(spout.set_frame_count(true).unwrap_err(), Error::NoHandle);
    assert_eq!(
        spout.write_memory_buffer("buf", "data").unwrap_err(),
        Error::NoHandle
    );
    assert_eq!(
        spout.read_memory_buffer("buf", 64).unwrap_err(),
        Error::NoHandle
    );
    assert_eq!(spout.open_spout_console().unwrap_err(), Error::NoHandle);
    assert_eq!(spout.get_sdk_version().unwrap_err(), Error::NoHandle);
    assert_eq!(spout.get_sender_count().unwrap_err(), Error::NoHandle);
    assert_eq!(spout.get_dx9().unwrap_err(), Error::NoHandle);
    assert_eq!(spout.get_num_adapters().unwrap_err(), Error::NoHandle);
    assert_eq!(spout.copy_texture(1, 2, 3, 4, 5, 6, true, 0).unwrap_err(), Error::NoHandle);

    // No call description was produced, so the stub saw zero invocations.
    assert_eq!(engine.invocations, 0);

    // Once a handle is held the same operation passes the guard.
    let mut spout = spout;
    spout.get_spout(0x1000).unwrap();
    engine.perform(spout.get_name().unwrap());
    assert_eq!(engine.invocations, 1);
}

#[test]
fn acquire_then_release_blocks_reuse() {
    let mut spout = RustySpout::new();
    let mut engine = StubEngine::new();

    spout.get_spout(0x1000).unwrap();
    if let Some(call) = spout.release() {
        engine.perform(call);
    }
    assert_eq!(engine.invocations, 1);

    // The handle cannot be reused after release.
    assert_eq!(spout.get_width().unwrap_err(), Error::NoHandle);
    assert_eq!(spout.set_sender_name("alpha").unwrap_err(), Error::NoHandle);
    assert_eq!(engine.invocations, 1);
}

#[test]
fn release_twice_reaches_engine_once() {
    let mut spout = RustySpout::new();
    let mut engine = StubEngine::new();

    spout.get_spout(0x2000).unwrap();

    let first = spout.release();
    assert_eq!(first, Some(EngineCall::Release));
    if let Some(call) = first {
        engine.perform(call);
    }

    let second = spout.release();
    assert_eq!(second, None);
    if let Some(call) = second {
        engine.perform(call);
    }

    // The engine-side release was performed exactly once, and neither
    // release erred.
    assert_eq!(engine.invocations, 1);
}

#[test]
fn null_factory_answer_changes_nothing() {
    let mut spout = RustySpout::new();

    assert_eq!(spout.get_spout(0).unwrap_err(), Error::NoHandle);

    // No state changed: capability calls are still refused.
    assert_eq!(spout.get_name().unwrap_err(), Error::NoHandle);
    assert_eq!(spout.release(), None);
}

#[test]
fn acquire_admits_capability_calls() {
    let mut spout = RustySpout::new();
    spout.get_spout(0x1000).unwrap();

    assert_eq!(spout.get_width().unwrap(), EngineCall::GetWidth);
    assert_eq!(spout.get_height().unwrap(), EngineCall::GetHeight);
    assert_eq!(spout.guard(), Ok(()));
}
