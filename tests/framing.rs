use webpublish::decode::read_message;
use webpublish::{ConfigurationError, RunError, StdinBytes};

fn packed_text_message() -> Vec<u8> {
    let mut message = capnp::message::Builder::new_default();
    message.set_root::<capnp::text::Owned>("hello").unwrap();
    let mut bytes = Vec::new();
    capnp::serialize_packed::write_message(&mut bytes, &message).unwrap();
    bytes
}

#[test]
fn well_formed_packed_message_is_read() {
    let segments = read_message(StdinBytes::from_bytes(packed_text_message())).unwrap();
    let message = capnp::message::Reader::new(segments, capnp::message::ReaderOptions::new());
    let root: capnp::text::Reader = message.get_root().unwrap();
    assert_eq!(root.to_str().unwrap(), "hello");
}

#[test]
fn truncated_message_is_a_decode_error() {
    let mut bytes = packed_text_message();
    bytes.truncate(bytes.len() - 1);
    match read_message(StdinBytes::from_bytes(bytes)) {
        Err(ConfigurationError::Decode { message }) => assert!(!message.is_empty()),
        Err(other) => panic!("unexpected {other:?}"),
        Ok(_) => panic!("truncated input was accepted"),
    }
}

#[test]
fn garbage_is_a_decode_error() {
    let result = read_message(StdinBytes::from_bytes(vec![0xff, 0x01]));
    assert!(matches!(result, Err(ConfigurationError::Decode { .. })));
}

#[test]
fn empty_input_is_a_usage_error() {
    let result = webpublish::decode::read_input(StdinBytes::from_bytes(Vec::new()));
    match result {
        Err(error) => {
            assert!(matches!(error, RunError::Usage));
            assert_eq!(error.exit_code(), 2);
        }
        Ok(_) => panic!("empty input was accepted"),
    }
}

#[test]
fn bad_input_is_a_decode_error_with_exit_code_one() {
    let result = webpublish::decode::read_input(StdinBytes::from_bytes(vec![0xff]));
    match result {
        Err(error) => {
            assert!(matches!(error, RunError::Decode(ConfigurationError::Decode { .. })));
            assert_eq!(error.exit_code(), 1);
        }
        Ok(_) => panic!("bad input was accepted"),
    }
}

#[test]
fn good_input_is_read() {
    assert!(webpublish::decode::read_input(StdinBytes::from_bytes(packed_text_message())).is_ok());
}

#[test]
fn apply_errors_keep_their_exit_code() {
    let result = webpublish::InvocationResult::from_output(Some(9), Vec::new(), Vec::new());
    let error = RunError::Apply(webpublish::ApplyError::from_invocation(result));
    assert_eq!(error.exit_code(), 9);
}
