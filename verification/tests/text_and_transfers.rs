use servo_v8::abi::{abi_flag, ABI_VERSION, ERROR_CAPACITY};
use servo_v8::text::{
    element_host_nullable_utf8, element_host_utf8, error_buffer, error_from, fresh_error_buffer,
    text_from, ErrorBuffer,
};
use servo_v8::transfer::{
    element_host_write_optional_owned_utf8, element_host_write_owned_utf8,
    element_host_write_owned_utf8_sequence, raw_empty_owned_utf8, raw_owned_utf8, DropOwner,
};
use servo_v8::{OptionalOwnedUtf8, Options, OwnedUtf8Sequence, Utf8Argument, Utf8View};

const NULL: Utf8Argument<'static> = Utf8Argument::Null { length: 0 };

fn filled(bytes: &[u8], length: usize) -> ErrorBuffer {
    let mut buffer = fresh_error_buffer();
    buffer.data[..bytes.len()].copy_from_slice(bytes);
    buffer.length = length;
    buffer
}

#[test]
fn default_options_enable_turbolev_only() {
    let options = Options::default();
    assert_eq!(
        options,
        Options {
            enable_turbolev: 1,
            enable_turbolev_future: 0,
            expose_gc: 0,
        }
    );
    assert_eq!(ABI_VERSION, 42);
    assert_eq!((abi_flag(false), abi_flag(true)), (0, 1));
}

#[test]
fn text_arguments_are_read_exactly() {
    assert_eq!(element_host_utf8(NULL), Some(""));
    assert_eq!(element_host_utf8(Utf8Argument::Null { length: 1 }), None);
    assert_eq!(element_host_utf8(Utf8Argument::Null { length: usize::MAX }), None);
    assert_eq!(element_host_utf8(Utf8Argument::Bytes(b"")), Some(""));
    assert_eq!(element_host_utf8(Utf8Argument::Bytes(b"a\0b")), Some("a\0b"));
    assert_eq!(
        element_host_utf8(Utf8Argument::Bytes("naïve \u{2713} \u{1f600}".as_bytes())),
        Some("naïve \u{2713} \u{1f600}")
    );
}

#[test]
fn malformed_text_arguments_are_rejected() {
    let malformed: [&[u8]; 6] = [
        b"\xff",
        b"\xc0\x80",
        b"\xed\xa0\x80",
        b"\xe2\x9c",
        b"\xf4\x90\x80\x80",
        b"ok\x80",
    ];
    for bytes in malformed {
        assert_eq!(element_host_utf8(Utf8Argument::Bytes(bytes)), None);
        assert_eq!(element_host_nullable_utf8(0, Utf8Argument::Bytes(bytes)), None);
    }
}

#[test]
fn nullable_arguments_keep_null_and_empty_apart() {
    assert_eq!(element_host_nullable_utf8(0, NULL), Some(Some("")));
    assert_eq!(element_host_nullable_utf8(0, Utf8Argument::Bytes(b"")), Some(Some("")));
    assert_eq!(element_host_nullable_utf8(0, Utf8Argument::Bytes(b"x")), Some(Some("x")));
    assert_eq!(element_host_nullable_utf8(0, Utf8Argument::Null { length: 3 }), None);
    assert_eq!(element_host_nullable_utf8(1, NULL), Some(None));
    assert_eq!(element_host_nullable_utf8(1, Utf8Argument::Null { length: 1 }), None);
    assert_eq!(element_host_nullable_utf8(1, Utf8Argument::Bytes(b"")), None);
    assert_eq!(element_host_nullable_utf8(1, Utf8Argument::Bytes(b"x")), None);
    assert_eq!(element_host_nullable_utf8(2, NULL), None);
    assert_eq!(element_host_nullable_utf8(255, Utf8Argument::Bytes(b"x")), None);
}

#[test]
fn fresh_buffers_are_zeroed_and_announce_their_capacity() {
    let buffer = fresh_error_buffer();
    assert_eq!(buffer.capacity, 2048);
    assert_eq!(buffer.length, 0);
    assert!(buffer.data.iter().all(|byte| *byte == 0));
    let buffer = error_buffer([7; ERROR_CAPACITY]);
    assert_eq!((buffer.capacity, buffer.length, buffer.data[2047]), (2048, 0, 7));
    assert_eq!(text_from(&buffer), "");
}

#[test]
fn buffered_text_is_read_back() {
    let message = "Uncaught SyntaxError: \u{2713} naïve";
    let buffer = filled(message.as_bytes(), message.len());
    assert_eq!(text_from(&buffer), message);
    assert_eq!(error_from(&buffer).to_string(), message);
    assert_eq!(text_from(&filled(b"abcdef", 3)), "abc");
}

#[test]
fn buffered_text_that_is_not_utf8_is_read_lossily() {
    assert_eq!(text_from(&filled(b"bad \xff end", 8)), "bad \u{fffd} en");
    assert_eq!(error_from(&filled(b"\xe2\x9c", 2)).to_string(), "\u{fffd}");
}

#[test]
fn reported_lengths_are_clamped_before_the_terminator() {
    let mut buffer = error_buffer([b'x'; ERROR_CAPACITY]);
    buffer.length = 2047;
    assert_eq!(text_from(&buffer).len(), 2047);
    buffer.length = 2048;
    assert_eq!(text_from(&buffer).len(), 2047);
    buffer.length = usize::MAX;
    assert_eq!(text_from(&buffer), "x".repeat(2047));
    buffer.length = 2046;
    assert_eq!(text_from(&buffer).len(), 2046);
}

#[test]
fn owned_text_reads_back() {
    for text in ["", "plain", "naïve \u{2713}"] {
        let transfer = raw_owned_utf8(text.to_owned());
        assert_eq!(transfer.length, text.len());
        assert_eq!(transfer.data(), Some(text.as_bytes()));
        assert_eq!(transfer.drop_owner, Some(DropOwner::OwnedUtf8));
        let mut output = raw_empty_owned_utf8();
        assert_eq!(element_host_write_owned_utf8(Some(&mut output), text.to_owned()), 1);
        assert_eq!(output.data(), Some(text.as_bytes()));
    }
    assert_eq!(element_host_write_owned_utf8(None, "text".to_owned()), 0);
    let nothing = raw_empty_owned_utf8();
    assert_eq!(nothing.length, 0);
    assert!(nothing.owner.is_none());
    assert!(nothing.drop_owner.is_none());
    assert_eq!(nothing.data(), None);
}

#[test]
fn a_length_past_the_owner_lends_nothing() {
    let mut transfer = raw_owned_utf8("four".to_owned());
    transfer.length = 5;
    assert_eq!(transfer.data(), None);
    transfer.length = 2;
    assert_eq!(transfer.data(), Some(&b"fo"[..]));
}

#[test]
fn optional_text_reads_back() {
    let mut output = OptionalOwnedUtf8 {
        is_null: 5,
        value: raw_empty_owned_utf8(),
    };
    assert_eq!(
        element_host_write_optional_owned_utf8(Some(&mut output), Some("some".to_owned())),
        1
    );
    assert_eq!(output.is_null, 0);
    assert_eq!(output.value.data(), Some(&b"some"[..]));
    assert_eq!(
        element_host_write_optional_owned_utf8(Some(&mut output), Some(String::new())),
        1
    );
    assert_eq!(output.is_null, 0);
    assert_eq!(output.value.data(), Some(&b""[..]));
    assert_eq!(output.value.drop_owner, Some(DropOwner::OwnedUtf8));
    assert_eq!(element_host_write_optional_owned_utf8(Some(&mut output), None), 1);
    assert_eq!(output.is_null, 1);
    assert!(output.value.owner.is_none());
    assert!(output.value.drop_owner.is_none());
    assert_eq!(element_host_write_optional_owned_utf8(None, None), 0);
}

#[test]
fn sequences_read_back_in_order() {
    let mut output = OwnedUtf8Sequence {
        length: 9,
        owner: None,
        drop_owner: None,
    };
    let values = vec!["b".to_owned(), String::new(), "naïve".to_owned(), "b".to_owned()];
    assert_eq!(element_host_write_owned_utf8_sequence(Some(&mut output), values.clone()), 1);
    assert_eq!(output.length, 4);
    assert_eq!(output.drop_owner, Some(DropOwner::OwnedUtf8Sequence));
    let owner = output.owner.as_ref().unwrap();
    assert_eq!(owner.views[2], Utf8View { data: 2, length: 6 });
    let read: Vec<String> = owner
        .views
        .iter()
        .map(|view| String::from_utf8(owner.values[view.data][..view.length].to_vec()).unwrap())
        .collect();
    assert_eq!(read, values);
    assert_eq!(element_host_write_owned_utf8_sequence(Some(&mut output), Vec::new()), 1);
    assert_eq!(output.length, 0);
    assert!(output.owner.is_none());
    assert!(output.drop_owner.is_none());
    assert_eq!(element_host_write_owned_utf8_sequence(None, vec!["x".to_owned()]), 0);
}
