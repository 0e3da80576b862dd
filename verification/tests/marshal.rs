//! Marshaling tests: string encoding and decoding, output buffers, and the
//! numeric width checks.

use rusty_spout::buffer::{decode_filled, BoundedOutputBuffer};
use rusty_spout::call::EngineCall;
use rusty_spout::error::Error;
use rusty_spout::reply::{decode_engine_pointer, decode_engine_text};
use rusty_spout::spout::RustySpout;
use rusty_spout::text::{decode_terminated, NameString};

#[test]
fn name_round_trip_ascii() {
    let name = NameString::new("alpha").unwrap();
    let terminated = name.terminated();
    assert_eq!(terminated, b"alpha\0".to_vec());
    let back = decode_terminated(&terminated).unwrap();
    assert_eq!(back, "alpha");
}

#[test]
fn name_round_trip_multibyte() {
    let text = "grüße 你好";
    let name = NameString::new(text).unwrap();
    let back = decode_terminated(&name.terminated()).unwrap();
    assert_eq!(back, text);
}

#[test]
fn name_round_trip_empty() {
    let name = NameString::new("").unwrap();
    assert_eq!(name.len(), 0);
    let back = decode_terminated(&name.terminated()).unwrap();
    assert_eq!(back, "");
}

#[test]
fn embedded_nul_fails_string_encode() {
    assert_eq!(NameString::new("a\0b").unwrap_err(), Error::StringEncode);
    assert_eq!(NameString::new("\0").unwrap_err(), Error::StringEncode);

    // The failure comes before any engine call: an acquired wrapper refuses
    // the name without producing a call description.
    let mut spout = RustySpout::new();
    spout.get_spout(0x1000).unwrap();
    assert_eq!(
        spout.set_sender_name("a\0b").unwrap_err(),
        Error::StringEncode
    );
    assert_eq!(
        spout.write_memory_buffer("ok", "bad\0data").unwrap_err(),
        Error::StringEncode
    );
}

#[test]
fn zero_capacity_is_rejected_before_construction() {
    assert_eq!(
        BoundedOutputBuffer::new(0).unwrap_err(),
        Error::NumericRange
    );

    let mut spout = RustySpout::new();
    spout.get_spout(0x1000).unwrap();
    assert_eq!(
        spout.read_memory_buffer("buf", 0).unwrap_err(),
        Error::NumericRange
    );
    assert_eq!(spout.get_sender(0, 0).unwrap_err(), Error::NumericRange);
    assert_eq!(spout.get_adapter_name(0, 0).unwrap_err(), Error::NumericRange);
    assert_eq!(spout.get_active_sender(0).unwrap_err(), Error::NumericRange);
}

#[test]
fn oversized_capacity_is_numeric_range() {
    // Only meaningful where usize is wider than 32 bits; 0x8000_0000 does
    // not fit a signed 32-bit count.
    if usize::BITS > 32 {
        assert_eq!(
            BoundedOutputBuffer::new(0x8000_0000usize).unwrap_err(),
            Error::NumericRange
        );
    }
}

#[test]
fn prepared_buffer_is_pre_terminated() {
    let buffer = BoundedOutputBuffer::new(8).unwrap();
    assert_eq!(buffer.capacity(), 8);
    assert_eq!(buffer.count(), 8);
    let bytes = buffer.into_bytes();
    assert_eq!(bytes.len(), 8);
    assert_eq!(*bytes.last().unwrap(), 0);
}

#[test]
fn decode_filled_reads_up_to_terminator() {
    // The engine wrote "value", a terminator, then garbage: the garbage is
    // ignored.
    let filled = b"value\0XYZ".to_vec();
    assert_eq!(decode_filled(filled).unwrap(), "value");
}

#[test]
fn decode_filled_forces_final_terminator() {
    // The engine filled every byte without terminating: the final byte is
    // treated as the terminator, not read.
    let filled = b"abcdef".to_vec();
    assert_eq!(decode_filled(filled).unwrap(), "abcde");
}

#[test]
fn decode_filled_rejects_invalid_utf8() {
    let filled = vec![0xffu8, 0xfe, 0x00, 0x00];
    assert_eq!(decode_filled(filled).unwrap_err(), Error::StringDecode);
}

#[test]
fn decode_engine_text_null_is_null_pointer() {
    assert_eq!(decode_engine_text(None).unwrap_err(), Error::NullPointer);
}

#[test]
fn decode_engine_text_reads_utf8() {
    assert_eq!(
        decode_engine_text(Some(b"sender".to_vec())).unwrap(),
        "sender"
    );
    assert_eq!(
        decode_engine_text(Some(vec![0xc3u8, 0x28])).unwrap_err(),
        Error::StringDecode
    );
}

#[test]
fn decode_engine_pointer_rejects_null() {
    assert_eq!(decode_engine_pointer(0).unwrap_err(), Error::NullPointer);
    assert_eq!(decode_engine_pointer(0x4000).unwrap(), 0x4000);
}

#[test]
fn write_memory_buffer_counts_terminator() {
    let mut spout = RustySpout::new();
    spout.get_spout(0x1000).unwrap();
    match spout.write_memory_buffer("buf", "data").unwrap() {
        EngineCall::WriteMemoryBuffer { name, data, length } => {
            assert_eq!(name, b"buf\0".to_vec());
            assert_eq!(data, b"data\0".to_vec());
            assert_eq!(length, 5);
        }
        other => panic!("unexpected call: {:?}", other),
    }
}

#[test]
fn read_memory_buffer_prepares_buffer() {
    let mut spout = RustySpout::new();
    spout.get_spout(0x1000).unwrap();
    match spout.read_memory_buffer("buf", 16).unwrap() {
        EngineCall::ReadMemoryBuffer { name, buffer, max_length } => {
            assert_eq!(name, b"buf\0".to_vec());
            assert_eq!(buffer.len(), 16);
            assert_eq!(*buffer.last().unwrap(), 0);
            assert_eq!(max_length, 16);
        }
        other => panic!("unexpected call: {:?}", other),
    }
}

#[test]
fn error_messages_name_the_kind() {
    assert_eq!(Error::NoHandle.message(), "no engine handle is held");
    assert_eq!(
        Error::NullPointer.message(),
        "engine returned an unexpected null pointer"
    );
    assert_eq!(
        Error::StringEncode.message(),
        "text contains an embedded nul byte"
    );
    assert_eq!(
        Error::StringDecode.message(),
        "engine bytes are not valid UTF-8"
    );
    assert_eq!(
        Error::NumericRange.message(),
        "numeric value does not fit the required width"
    );
    assert_eq!(
        Error::UnexpectedValue.message(),
        "engine returned an unknown enumeration code"
    );
    assert_eq!(
        Error::Unbindable.message(),
        "operation is not bindable to a safe signature"
    );
}
