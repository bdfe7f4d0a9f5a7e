use bringup::errors::DecodeError;
use bringup::response::ResponseBuffer;

#[test]
fn read_within_capacity_stores_everything() {
    let mut buffer = ResponseBuffer::new(16);
    buffer.receive(b"hello");
    assert_eq!(buffer.actual_length(), 5);
    assert_eq!(buffer.decode(), Ok("hello".to_string()));
}

#[test]
fn peer_sending_more_than_capacity_truncates_without_error() {
    let mut buffer = ResponseBuffer::new(4);
    buffer.receive(b"abcdefghij");
    assert_eq!(buffer.actual_length(), 4);
    assert_eq!(buffer.decode(), Ok("abcd".to_string()));
}

#[test]
fn read_of_exactly_the_capacity_fits() {
    let mut buffer = ResponseBuffer::new(4);
    buffer.receive(b"abcd");
    assert_eq!(buffer.actual_length(), 4);
    assert_eq!(buffer.decode(), Ok("abcd".to_string()));
}

#[test]
fn empty_read_decodes_to_empty_text() {
    let mut buffer = ResponseBuffer::new(8);
    buffer.receive(b"");
    assert_eq!(buffer.actual_length(), 0);
    assert_eq!(buffer.decode(), Ok(String::new()));
}

#[test]
fn a_second_read_replaces_the_first() {
    let mut buffer = ResponseBuffer::new(8);
    buffer.receive(b"first");
    buffer.receive(b"next");
    assert_eq!(buffer.actual_length(), 4);
    assert_eq!(buffer.decode(), Ok("next".to_string()));
}

#[test]
fn invalid_byte_sequence_decodes_to_invalid_text() {
    let mut buffer = ResponseBuffer::new(8);
    buffer.receive(&[0xff, 0xfe, 0x41]);
    assert_eq!(buffer.decode(), Err(DecodeError::InvalidText));
}

#[test]
fn multibyte_text_decodes_whole() {
    let mut buffer = ResponseBuffer::new(16);
    buffer.receive("héllo ☂".as_bytes());
    assert_eq!(buffer.decode(), Ok("héllo ☂".to_string()));
}

#[test]
fn truncation_cutting_a_character_in_half_is_invalid_text() {
    let mut buffer = ResponseBuffer::new(1);
    buffer.receive("é".as_bytes());
    assert_eq!(buffer.actual_length(), 1);
    assert_eq!(buffer.decode(), Err(DecodeError::InvalidText));
}
