//! End-to-end scenarios against a stateful stub engine: the wrapper builds
//! the call, the stub performs it, and the wrapper decodes the raw outcome.

use std::collections::HashMap;

use rusty_spout::buffer::decode_filled;
use rusty_spout::call::EngineCall;
use rusty_spout::error::Error;
use rusty_spout::preference::DxgiGpuPreference;
use rusty_spout::reply::decode_engine_text;
use rusty_spout::spout::RustySpout;

/// A stateful stand-in engine: remembers the sender name and named buffers,
/// and can be told to answer a name query with a null pointer.
struct StubEngine {
    invocations: usize,
    sender_name: Option<Vec<u8>>,
    buffers: HashMap<Vec<u8>, Vec<u8>>,
    answer_name_with_null: bool,
}

fn strip_terminator(mut bytes: Vec<u8>) -> Vec<u8> {
    match bytes.iter().position(|b| *b == 0) {
        Some(i) => {
            bytes.truncate(i);
            bytes
        }
        None => bytes,
    }
}

impl StubEngine {
    fn new() -> StubEngine {
        StubEngine {
            invocations: 0,
            sender_name: None,
            buffers: HashMap::new(),
            answer_name_with_null: false,
        }
    }

    /// Perform a call that answers with nothing.
    fn perform(&mut self, call: EngineCall) {
        self.invocations += 1;
        if let EngineCall::SetSenderName { name } = call {
            self.sender_name = Some(strip_terminator(name));
        }
    }

    /// Perform a name query: the engine answers with a pointer it owns,
    /// modeled as the bytes up to its terminator, or nothing for null.
    fn perform_get_name(&mut self, call: EngineCall) -> Option<Vec<u8>> {
        self.invocations += 1;
        assert_eq!(call, EngineCall::GetName);
        if self.answer_name_with_null {
            None
        } else {
            self.sender_name.clone()
        }
    }

    /// Perform a buffer write: the engine copies the terminated data.
    fn perform_write(&mut self, call: EngineCall) -> bool {
        self.invocations += 1;
        match call {
            EngineCall::WriteMemoryBuffer { name, data, length } => {
                assert_eq!(data.len(), length as usize);
                self.buffers
                    .insert(strip_terminator(name), strip_terminator(data));
                true
            }
            other => panic!("unexpected call: {:?}", other),
        }
    }

    /// Perform a buffer read: the engine fills the caller's buffer up to its
    /// capacity and answers with the count it wrote.
    fn perform_read(&mut self, call: EngineCall) -> (i32, Vec<u8>) {
        self.invocations += 1;
        match call {
            EngineCall::ReadMemoryBuffer { name, mut buffer, max_length } => {
                assert_eq!(buffer.len(), max_length as usize);
                let stored = self
                    .buffers
                    .get(&strip_terminator(name))
                    .cloned()
                    .unwrap_or_default();
                let n = stored.len().min(buffer.len().saturating_sub(1));
                buffer[..n].copy_from_slice(&stored[..n]);
                buffer[n] = 0;
                (n as i32, buffer)
            }
            other => panic!("unexpected call: {:?}", other),
        }
    }
}

#[test]
fn set_sender_name_then_get_name_returns_it() {
    let mut spout = RustySpout::new();
    let mut engine = StubEngine::new();

    // The factory answered with a non-null reference.
    spout.get_spout(0x1000).unwrap();

    engine.perform(spout.set_sender_name("alpha").unwrap());

    let reply = engine.perform_get_name(spout.get_name().unwrap());
    let name = decode_engine_text(reply).unwrap();
    assert_eq!(name, "alpha");
    assert_eq!(engine.invocations, 2);
}

#[test]
fn null_name_query_is_null_pointer_not_a_panic() {
    let mut spout = RustySpout::new();
    let mut engine = StubEngine::new();
    engine.answer_name_with_null = true;

    spout.get_spout(0x1000).unwrap();

    let reply = engine.perform_get_name(spout.get_name().unwrap());
    assert_eq!(decode_engine_text(reply).unwrap_err(), Error::NullPointer);
}

#[test]
fn write_then_read_memory_buffer_round_trips() {
    let mut spout = RustySpout::new();
    let mut engine = StubEngine::new();

    spout.get_spout(0x1000).unwrap();

    let wrote = engine.perform_write(spout.write_memory_buffer("channel", "payload").unwrap());
    assert!(wrote);

    let (count, filled) = engine.perform_read(spout.read_memory_buffer("channel", 64).unwrap());
    assert_eq!(count, 7);
    assert_eq!(decode_filled(filled).unwrap(), "payload");
}

#[test]
fn read_with_tight_capacity_truncates_at_terminator() {
    let mut spout = RustySpout::new();
    let mut engine = StubEngine::new();

    spout.get_spout(0x1000).unwrap();

    engine.perform_write(spout.write_memory_buffer("channel", "payload").unwrap());

    // Capacity 4 leaves room for three bytes and the terminator.
    let (count, filled) = engine.perform_read(spout.read_memory_buffer("channel", 4).unwrap());
    assert_eq!(count, 3);
    assert_eq!(decode_filled(filled).unwrap(), "pay");
}

#[test]
fn performance_preference_query_decodes_the_code() {
    let mut spout = RustySpout::new();
    spout.get_spout(0x1000).unwrap();

    // The wrapper marshals the path; the engine answers with a code, decoded
    // through the explicit match table.
    match spout.get_performance_preference("C:/app.exe").unwrap() {
        EngineCall::GetPerformancePreference { path } => {
            assert_eq!(path, b"C:/app.exe\0".to_vec());
        }
        other => panic!("unexpected call: {:?}", other),
    }
    assert_eq!(
        DxgiGpuPreference::try_from(2).unwrap(),
        DxgiGpuPreference::HighPerformance
    );
    assert_eq!(
        DxgiGpuPreference::try_from(7).unwrap_err(),
        Error::UnexpectedValue
    );
}

#[test]
fn host_path_buffer_is_filled_and_decoded() {
    let mut spout = RustySpout::new();
    spout.get_spout(0x1000).unwrap();

    match spout.get_host_path("cam", 32).unwrap() {
        EngineCall::GetHostPath { name, mut buffer, max_chars } => {
            assert_eq!(name, b"cam\0".to_vec());
            assert_eq!(buffer.len(), 32);
            assert_eq!(max_chars, 32);
            // The engine writes a path and terminates it.
            let path = b"C:/host.exe\0";
            buffer[..path.len()].copy_from_slice(path);
            assert_eq!(decode_filled(buffer).unwrap(), "C:/host.exe");
        }
        other => panic!("unexpected call: {:?}", other),
    }
}

#[test]
fn active_sender_buffer_is_filled_and_decoded() {
    let mut spout = RustySpout::new();
    spout.get_spout(0x1000).unwrap();

    match spout.get_active_sender(16).unwrap() {
        EngineCall::GetActiveSender { mut buffer } => {
            assert_eq!(buffer.len(), 16);
            assert_eq!(*buffer.last().unwrap(), 0);
            let name = b"cam\0";
            buffer[..name.len()].copy_from_slice(name);
            assert_eq!(decode_filled(buffer).unwrap(), "cam");
        }
        other => panic!("unexpected call: {:?}", other),
    }
}

#[test]
fn unbindable_operations_fail_deterministically() {
    let mut spout = RustySpout::new();
    spout.get_spout(0x1000).unwrap();

    assert_eq!(spout.spout_log("text").unwrap_err(), Error::Unbindable);
    assert_eq!(spout.spout_log_verbose("text").unwrap_err(), Error::Unbindable);
    assert_eq!(spout.spout_log_notice("text").unwrap_err(), Error::Unbindable);
    assert_eq!(spout.spout_log_warning("text").unwrap_err(), Error::Unbindable);
    assert_eq!(spout.spout_log_error("text").unwrap_err(), Error::Unbindable);
    assert_eq!(spout.spout_log_fatal("text").unwrap_err(), Error::Unbindable);
    assert_eq!(
        spout.read_dword_from_registry(0, "k", "v", 0).unwrap_err(),
        Error::Unbindable
    );
    assert_eq!(
        spout.write_dword_to_registry(0, "k", "v", 0).unwrap_err(),
        Error::Unbindable
    );
    assert_eq!(
        spout.read_path_from_registry(0, "k", "v", "p").unwrap_err(),
        Error::Unbindable
    );
    assert_eq!(
        spout.write_path_to_registry(0, "k", "v", "p").unwrap_err(),
        Error::Unbindable
    );
    assert_eq!(
        spout.remove_path_from_registry(0, "k", "v").unwrap_err(),
        Error::Unbindable
    );
    assert_eq!(spout.remove_sub_key(0, "k").unwrap_err(), Error::Unbindable);
    assert_eq!(spout.find_sub_key(0, "k").unwrap_err(), Error::Unbindable);
    assert_eq!(
        spout.get_sender_info("s", 0, 0, 0, 0).unwrap_err(),
        Error::Unbindable
    );
    assert_eq!(
        spout.create_receiver("s", 0, 0, false).unwrap_err(),
        Error::Unbindable
    );
    assert_eq!(
        spout.check_receiver("s", 0, 0, false).unwrap_err(),
        Error::Unbindable
    );
}

#[test]
fn marshaled_calls_carry_their_arguments() {
    let mut spout = RustySpout::new();
    spout.get_spout(0x1000).unwrap();

    assert_eq!(
        spout.send_fbo(7, 640, 480, true).unwrap(),
        EngineCall::SendFbo { fbo_id: 7, width: 640, height: 480, invert: true }
    );
    assert_eq!(
        spout.create_sender("cam", 1920, 1080, 87).unwrap(),
        EngineCall::CreateSender { name: b"cam\0".to_vec(), width: 1920, height: 1080, format: 87 }
    );
    assert_eq!(
        spout.wait_frame_sync("cam", 250).unwrap(),
        EngineCall::WaitFrameSync { name: b"cam\0".to_vec(), timeout: 250 }
    );
    assert_eq!(
        spout.hold_fps(60).unwrap(),
        EngineCall::HoldFps { fps: 60 }
    );
}
