use message_relay::message::{INITIAL_BUFFER_POSITION, MAX_BODY_LENGTH, NETWORKMESSAGE_MAXSIZE};
use message_relay::{NetworkMessage, NetworkMessageError};

#[test]
fn limits_have_their_values() {
    assert_eq!(NETWORKMESSAGE_MAXSIZE, 65500);
    assert_eq!(INITIAL_BUFFER_POSITION, 8);
    assert_eq!(MAX_BODY_LENGTH, 65486);
}

#[test]
fn new_message_is_zeroed_with_cursor_behind_header() {
    let message = NetworkMessage::new();
    assert_eq!(message.position(), 8);
    assert_eq!(message.length(), 0);
    assert!(!message.is_overrun());
    assert_eq!(message.as_bytes().len(), 65500);
    assert!(message.as_bytes().iter().all(|&byte| byte == 0));
}

#[test]
fn add_bytes_writes_at_cursor_and_advances() {
    let mut message = NetworkMessage::new();
    assert_eq!(message.add_bytes(b"abc"), Ok(()));
    assert_eq!(message.position(), 11);
    assert_eq!(message.length(), 3);
    assert_eq!(&message.as_bytes()[..8], &[0u8; 8]);
    assert_eq!(&message.as_bytes()[8..11], b"abc");
    assert_eq!(message.as_bytes()[11], 0);
    assert_eq!(message.add_bytes(b"de"), Ok(()));
    assert_eq!(message.position(), 13);
    assert_eq!(message.length(), 5);
    assert_eq!(&message.as_bytes()[8..13], b"abcde");
    assert_eq!(message.as_bytes().len(), 65500);
}

#[test]
fn add_bytes_refuses_empty_input() {
    let mut message = NetworkMessage::new();
    assert_eq!(message.add_bytes(&[]), Err(NetworkMessageError::SizeError));
    assert_eq!(message.position(), 8);
    assert_eq!(message.length(), 0);
}

#[test]
fn add_bytes_beyond_write_bound_changes_nothing() {
    let mut message = NetworkMessage::new();
    assert_eq!(message.add_bytes(b"xy"), Ok(()));
    let before = message.as_bytes().to_vec();
    let payload = vec![7u8; 65476];
    assert_eq!(message.add_bytes(&payload), Err(NetworkMessageError::SizeError));
    assert_eq!(message.position(), 10);
    assert_eq!(message.length(), 2);
    assert_eq!(message.as_bytes(), &before[..]);
    assert!(!message.is_overrun());
}

#[test]
fn add_bytes_write_bound_is_strict() {
    let mut fits = NetworkMessage::new();
    assert_eq!(fits.add_bytes(&vec![1u8; 65477]), Ok(()));
    assert_eq!(fits.position(), 65485);
    assert_eq!(fits.length(), 65477);
    assert_eq!(fits.as_bytes()[65484], 1);
    assert_eq!(fits.as_bytes()[65485], 0);
    let mut too_long = NetworkMessage::new();
    assert_eq!(too_long.add_bytes(&vec![1u8; 65478]), Err(NetworkMessageError::SizeError));
    assert_eq!(too_long.position(), 8);
    assert_eq!(too_long.length(), 0);
}

#[test]
fn add_bytes_larger_than_capacity_is_refused() {
    let mut message = NetworkMessage::new();
    assert_eq!(message.add_bytes(&vec![1u8; 70000]), Err(NetworkMessageError::SizeError));
    assert_eq!(message.position(), 8);
    assert_eq!(message.length(), 0);
    assert!(message.as_bytes().iter().all(|&byte| byte == 0));
}

#[test]
fn can_add_is_the_write_bound() {
    let mut message = NetworkMessage::new();
    assert!(message.can_add(0));
    assert!(message.can_add(65477));
    assert!(!message.can_add(65478));
    assert!(!message.can_add(usize::MAX));
    assert_eq!(message.add_bytes(&[0u8; 100]), Ok(()));
    assert!(message.can_add(65377));
    assert!(!message.can_add(65378));
}

#[test]
fn can_read_is_the_read_bound() {
    let mut message = NetworkMessage::new();
    assert!(message.can_read(0));
    assert!(!message.can_read(1));
    assert!(!message.can_read(usize::MAX));
    assert_eq!(message.add_bytes(&[9u8; 10]), Ok(()));
    assert!(message.can_read(0));
    assert!(!message.can_read(1));
    message.flip();
    assert!(message.can_read(10));
    assert!(!message.can_read(11));
}

#[test]
fn add_scalar_writes_least_significant_byte_first() {
    let mut message = NetworkMessage::new();
    assert_eq!(message.add(0x1234u16), Ok(()));
    assert_eq!(message.position(), 10);
    assert_eq!(message.length(), 2);
    assert_eq!(&message.as_bytes()[8..10], &[0x34, 0x12]);
    assert_eq!(message.add(0x0102_0304u32), Ok(()));
    assert_eq!(message.position(), 14);
    assert_eq!(message.length(), 6);
    assert_eq!(&message.as_bytes()[10..14], &[0x04, 0x03, 0x02, 0x01]);
    assert_eq!(message.add(0x0102_0304_0506_0708u64), Ok(()));
    assert_eq!(message.position(), 22);
    assert_eq!(&message.as_bytes()[14..22], &[8, 7, 6, 5, 4, 3, 2, 1]);
    assert_eq!(message.add(0xabu8), Ok(()));
    assert_eq!(message.position(), 23);
    assert_eq!(message.as_bytes()[22], 0xab);
}

#[test]
fn add_scalar_writes_signed_values_in_twos_complement() {
    let mut message = NetworkMessage::new();
    assert_eq!(message.add(-2i32), Ok(()));
    assert_eq!(&message.as_bytes()[8..12], &[0xfe, 0xff, 0xff, 0xff]);
    assert_eq!(message.add(-1i8), Ok(()));
    assert_eq!(message.as_bytes()[12], 0xff);
    assert_eq!(message.add(i16::MIN), Ok(()));
    assert_eq!(&message.as_bytes()[13..15], &[0x00, 0x80]);
    assert_eq!(message.add(i64::MIN + 1), Ok(()));
    assert_eq!(&message.as_bytes()[15..23], &[1, 0, 0, 0, 0, 0, 0, 0x80]);
    assert_eq!(message.position(), 23);
    assert_eq!(message.length(), 15);
}

#[test]
fn add_scalar_matches_native_little_endian_bytes() {
    let mut message = NetworkMessage::new();
    assert_eq!(message.add(0xdead_beefu32), Ok(()));
    assert_eq!(message.add(-12345i16), Ok(()));
    assert_eq!(message.add(-9_000_000_000i64), Ok(()));
    assert_eq!(&message.as_bytes()[8..12], &0xdead_beefu32.to_le_bytes());
    assert_eq!(&message.as_bytes()[12..14], &(-12345i16).to_le_bytes());
    assert_eq!(&message.as_bytes()[14..22], &(-9_000_000_000i64).to_le_bytes());
}

#[test]
fn add_scalar_beyond_write_bound_changes_nothing() {
    let mut message = NetworkMessage::new();
    assert_eq!(message.add_bytes(&vec![3u8; 65476]), Ok(()));
    assert_eq!(message.position(), 65484);
    assert_eq!(message.add(0x0102u16), Err(NetworkMessageError::SizeError));
    assert_eq!(message.position(), 65484);
    assert_eq!(message.length(), 65476);
    assert_eq!(message.as_bytes()[65484], 0);
    assert_eq!(message.add(0x11u8), Ok(()));
    assert_eq!(message.position(), 65485);
    assert_eq!(message.length(), 65477);
    assert_eq!(message.as_bytes()[65484], 0x11);
    assert_eq!(message.add(0x22u8), Err(NetworkMessageError::SizeError));
    assert_eq!(message.position(), 65485);
    assert_eq!(message.as_bytes()[65485], 0);
}

#[test]
fn get_reads_back_what_add_wrote() {
    let mut message = NetworkMessage::new();
    assert_eq!(message.add(0x7fu8), Ok(()));
    assert_eq!(message.add(u16::MAX), Ok(()));
    assert_eq!(message.add(0x8000_0001u32), Ok(()));
    assert_eq!(message.add(u64::MAX - 5), Ok(()));
    assert_eq!(message.add(i8::MIN), Ok(()));
    assert_eq!(message.add(-2i16), Ok(()));
    assert_eq!(message.add(i32::MIN), Ok(()));
    assert_eq!(message.add(i64::MAX), Ok(()));
    assert_eq!(message.add(-1i64), Ok(()));
    let end = message.position();
    assert_eq!(end, 8 + 1 + 2 + 4 + 8 + 1 + 2 + 4 + 8 + 8);
    message.flip();
    assert_eq!(message.get::<u8>(), 0x7f);
    assert_eq!(message.get::<u16>(), u16::MAX);
    assert_eq!(message.get::<u32>(), 0x8000_0001);
    assert_eq!(message.get::<u64>(), u64::MAX - 5);
    assert_eq!(message.get::<i8>(), i8::MIN);
    assert_eq!(message.get::<i16>(), -2);
    assert_eq!(message.get::<i32>(), i32::MIN);
    assert_eq!(message.get::<i64>(), i64::MAX);
    assert_eq!(message.get::<i64>(), -1);
    assert_eq!(message.position(), end);
}

#[test]
fn get_moves_the_cursor_by_the_width() {
    let mut message = NetworkMessage::new();
    assert_eq!(message.add_bytes(&[1, 2, 3, 4, 5, 6, 7]), Ok(()));
    message.flip();
    assert_eq!(message.get::<u16>(), 0x0201);
    assert_eq!(message.position(), 10);
    assert_eq!(message.get::<u32>(), 0x0605_0403);
    assert_eq!(message.position(), 14);
    assert_eq!(message.length(), 7);
    assert_eq!(message.get::<u8>(), 7);
    assert_eq!(message.position(), 15);
}

#[test]
fn get_past_read_bound_returns_zero_and_stays() {
    let mut message = NetworkMessage::new();
    assert_eq!(message.get::<u32>(), 0);
    assert_eq!(message.position(), 8);
    assert_eq!(message.add(0xffff_ffffu32), Ok(()));
    assert_eq!(message.get::<u8>(), 0);
    assert_eq!(message.get::<i64>(), 0);
    assert_eq!(message.position(), 12);
    assert_eq!(message.length(), 4);
    assert!(!message.is_overrun());
    message.flip();
    assert_eq!(message.get::<u64>(), 0);
    assert_eq!(message.position(), 8);
    assert_eq!(message.get::<u32>(), 0xffff_ffff);
    assert_eq!(message.position(), 12);
    assert_eq!(message.get::<u8>(), 0);
    assert_eq!(message.position(), 12);
}

#[test]
fn get_string_reads_back_what_add_bytes_wrote() {
    let text = "gr\u{fc}\u{df}e, \u{4e16}\u{754c} \u{1f980}";
    let mut message = NetworkMessage::new();
    assert_eq!(message.add_bytes(text.as_bytes()), Ok(()));
    let end = message.position();
    message.flip();
    assert_eq!(message.get_string(Some(text.len())), Ok(text.to_string()));
    assert_eq!(message.position(), end);
    assert_eq!(message.length(), text.len());
    assert!(!message.is_overrun());
}

#[test]
fn get_string_of_zero_length_consumes_nothing() {
    let mut message = NetworkMessage::new();
    assert_eq!(message.add_bytes(b"hello"), Ok(()));
    let before = message.as_bytes().to_vec();
    assert_eq!(message.get_string(Some(0)), Ok(String::new()));
    assert_eq!(message.position(), 13);
    assert_eq!(message.length(), 5);
    assert!(!message.is_overrun());
    assert_eq!(message.as_bytes(), &before[..]);
    message.flip();
    assert_eq!(message.get_string(Some(0)), Ok(String::new()));
    assert_eq!(message.position(), 8);
    assert_eq!(message.length(), 5);
}

#[test]
fn get_string_reads_its_length_prefix() {
    let mut message = NetworkMessage::new();
    assert_eq!(message.add(5u16), Ok(()));
    assert_eq!(message.add_bytes(b"hello, world"), Ok(()));
    message.flip();
    assert_eq!(message.get_string(None), Ok("hello".to_string()));
    assert_eq!(message.position(), 15);
    assert_eq!(message.get_string(Some(7)), Ok(", world".to_string()));
    assert_eq!(message.position(), 22);
}

#[test]
fn get_string_with_zero_prefix_consumes_the_prefix_only() {
    let mut message = NetworkMessage::new();
    assert_eq!(message.add(0u16), Ok(()));
    assert_eq!(message.add_bytes(b"rest"), Ok(()));
    message.flip();
    assert_eq!(message.get_string(None), Ok(String::new()));
    assert_eq!(message.position(), 10);
    assert!(!message.is_overrun());
}

#[test]
fn get_string_without_readable_prefix_is_empty() {
    let mut message = NetworkMessage::new();
    assert_eq!(message.add_bytes(&[3, 0, b'a', b'b', b'c']), Ok(()));
    assert_eq!(message.get_string(None), Ok(String::new()));
    assert_eq!(message.position(), 13);
    assert!(!message.is_overrun());
}

#[test]
fn get_string_beyond_read_bound_sets_overrun() {
    let mut message = NetworkMessage::new();
    assert_eq!(message.add_bytes(b"abcd"), Ok(()));
    message.flip();
    assert_eq!(message.get_string(Some(5)), Err(NetworkMessageError::ReadError));
    assert!(message.is_overrun());
    assert_eq!(message.position(), 8);
    assert_eq!(message.length(), 4);
    assert_eq!(message.get_string(Some(4)), Ok("abcd".to_string()));
    assert!(message.is_overrun());
    assert_eq!(message.position(), 12);
}

#[test]
fn get_string_with_prefix_beyond_read_bound_keeps_the_prefix_consumed() {
    let mut message = NetworkMessage::new();
    assert_eq!(message.add(9u16), Ok(()));
    assert_eq!(message.add_bytes(b"short"), Ok(()));
    message.flip();
    assert_eq!(message.get_string(None), Err(NetworkMessageError::ReadError));
    assert!(message.is_overrun());
    assert_eq!(message.position(), 10);
}

#[test]
fn get_string_of_huge_length_is_a_read_error() {
    let mut message = NetworkMessage::new();
    assert_eq!(message.get_string(Some(usize::MAX)), Err(NetworkMessageError::ReadError));
    assert!(message.is_overrun());
    assert_eq!(message.position(), 8);
}

#[test]
fn get_string_rejects_invalid_utf8_and_leaves_the_cursor() {
    let mut message = NetworkMessage::new();
    assert_eq!(message.add_bytes(&[b'o', b'k', 0xff, 0xfe]), Ok(()));
    message.flip();
    let before = message.as_bytes().to_vec();
    assert_eq!(message.get_string(Some(4)), Err(NetworkMessageError::InvalidUtf8));
    assert_eq!(message.position(), 8);
    assert_eq!(message.length(), 4);
    assert!(!message.is_overrun());
    assert_eq!(message.as_bytes(), &before[..]);
    assert_eq!(message.get_string(Some(2)), Ok("ok".to_string()));
    assert_eq!(message.position(), 10);
}

#[test]
fn get_string_with_prefix_keeps_the_prefix_consumed_on_invalid_utf8() {
    let mut message = NetworkMessage::new();
    assert_eq!(message.add(2u16), Ok(()));
    assert_eq!(message.add_bytes(&[0xc3, 0x28]), Ok(()));
    message.flip();
    assert_eq!(message.get_string(None), Err(NetworkMessageError::InvalidUtf8));
    assert_eq!(message.position(), 10);
    assert_eq!(message.length(), 4);
    assert!(!message.is_overrun());
}

#[test]
fn get_returns_the_value_whose_bytes_were_read() {
    let mut message = NetworkMessage::new();
    assert_eq!(message.add_bytes(&[0x80, 0xff, 0x01, 0x00, 0x00, 0x80]), Ok(()));
    message.flip();
    let first: i8 = message.get();
    let second: u8 = message.get();
    let third: i32 = message.get();
    assert_eq!(first.to_le_bytes(), [0x80]);
    assert_eq!(second.to_le_bytes(), [0xff]);
    assert_eq!(third.to_le_bytes(), [0x01, 0x00, 0x00, 0x80]);
    assert_eq!((first, second, third), (i8::MIN, 255, i32::MIN + 1));
}

#[test]
fn get_string_rejects_truncated_and_overlong_sequences() {
    let mut truncated = NetworkMessage::new();
    assert_eq!(truncated.add_bytes(&[0xe4, 0xb8]), Ok(()));
    truncated.flip();
    assert_eq!(truncated.get_string(Some(2)), Err(NetworkMessageError::InvalidUtf8));
    let mut overlong = NetworkMessage::new();
    assert_eq!(overlong.add_bytes(&[0xc0, 0x80]), Ok(()));
    overlong.flip();
    assert_eq!(overlong.get_string(Some(2)), Err(NetworkMessageError::InvalidUtf8));
    let mut surrogate = NetworkMessage::new();
    assert_eq!(surrogate.add_bytes(&[0xed, 0xa0, 0x80]), Ok(()));
    surrogate.flip();
    assert_eq!(surrogate.get_string(Some(3)), Err(NetworkMessageError::InvalidUtf8));
}

#[test]
fn decode_header_with_less_than_two_bytes_returns_zero() {
    let mut message = NetworkMessage::new();
    assert_eq!(message.decode_header(), 0);
    assert_eq!(message.length(), 0);
    assert_eq!(message.position(), 8);
    assert_eq!(message.add(0x55u8), Ok(()));
    assert_eq!(message.decode_header(), 0);
    assert_eq!(message.length(), 1);
    assert_eq!(message.position(), 9);
}

#[test]
fn decode_header_declares_the_length_in_the_header() {
    let mut message = NetworkMessage::new();
    assert_eq!(message.add_bytes(b"payload"), Ok(()));
    assert_eq!(message.length(), 7);
    assert_eq!(message.decode_header(), 0);
    assert_eq!(message.length(), 0);
    assert_eq!(message.position(), 15);
    assert_eq!(&message.as_bytes()[8..15], b"payload");
}

#[test]
fn flip_declares_what_lies_before_the_cursor() {
    let mut message = NetworkMessage::new();
    message.flip();
    assert_eq!(message.position(), 8);
    assert_eq!(message.length(), 0);
    assert_eq!(message.add_bytes(b"abcdef"), Ok(()));
    assert_eq!(message.decode_header(), 0);
    assert_eq!(message.length(), 0);
    message.flip();
    assert_eq!(message.position(), 8);
    assert_eq!(message.length(), 6);
    assert_eq!(&message.as_bytes()[8..14], b"abcdef");
    assert_eq!(message.get_string(Some(6)), Ok("abcdef".to_string()));
}

#[test]
fn read_bound_ends_before_the_last_byte_of_the_region() {
    let mut message = NetworkMessage::new();
    assert_eq!(message.add_bytes(&vec![b'z'; 65477]), Ok(()));
    message.flip();
    assert!(message.can_read(65477));
    assert_eq!(message.get_string(Some(65477)), Ok("z".repeat(65477)));
    assert_eq!(message.position(), 65485);
    assert!(!message.can_read(1));
    assert!(message.can_read(0));
}

#[test]
fn errors_describe_themselves() {
    assert_eq!(NetworkMessageError::SizeError.message(), "NetworkMessage size is wrong");
    assert_eq!(NetworkMessageError::ReadError.message(), "Cannot read from NetworkMessage");
    assert_eq!(NetworkMessageError::InvalidUtf8.message(), "Invalid UTF-8 string");
}
