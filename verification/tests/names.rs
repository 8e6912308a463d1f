use async_dnssd::cstr::{from_c_bytes, has_no_zero_byte, to_c_bytes};
use async_dnssd::error::Error;
use async_dnssd::interface::Interface;

#[test]
fn name_is_written_with_a_closing_zero() {
    assert_eq!(to_c_bytes("example.local."), Ok(b"example.local.\0".to_vec()));
    assert_eq!(to_c_bytes(""), Ok(vec![0u8]));
    assert_eq!(to_c_bytes("bücher.local."), Ok(b"b\xc3\xbccher.local.\0".to_vec()));
}

#[test]
fn name_with_a_zero_byte_is_invalid_input() {
    assert_eq!(to_c_bytes("exa\0mple"), Err(Error::InvalidInput));
    assert_eq!(to_c_bytes("\0"), Err(Error::InvalidInput));
    assert_eq!(to_c_bytes("example\0"), Err(Error::InvalidInput));
}

#[test]
fn zero_byte_scan() {
    assert!(has_no_zero_byte(b""));
    assert!(has_no_zero_byte(b"abc"));
    assert!(!has_no_zero_byte(b"ab\0"));
    assert!(!has_no_zero_byte(b"\0ab"));
}

#[test]
fn well_formed_name_is_read() {
    assert_eq!(from_c_bytes(b"example.local.\0"), Ok(String::from("example.local.")));
    assert_eq!(from_c_bytes(b"\0"), Ok(String::new()));
    assert_eq!(from_c_bytes(b"b\xc3\xbccher\0"), Ok(String::from("bücher")));
}

#[test]
fn malformed_name_is_a_decoding_error() {
    // no buffer content at all
    assert_eq!(from_c_bytes(b""), Err(Error::DecodingError));
    // terminator absent
    assert_eq!(from_c_bytes(b"example"), Err(Error::DecodingError));
    // terminator misplaced
    assert_eq!(from_c_bytes(b"exa\0mple\0"), Err(Error::DecodingError));
    assert_eq!(from_c_bytes(b"\0\0"), Err(Error::DecodingError));
    // not UTF-8
    assert_eq!(from_c_bytes(b"\xff\xfe\0"), Err(Error::DecodingError));
    assert_eq!(from_c_bytes(b"abc\xc3\0"), Err(Error::DecodingError));
    // overlong encoding and surrogate
    assert_eq!(from_c_bytes(b"\xc0\xaf\0"), Err(Error::DecodingError));
    assert_eq!(from_c_bytes(b"\xed\xa0\x80\0"), Err(Error::DecodingError));
}

#[test]
fn written_name_reads_back() {
    for name in ["example.local.", "", "_http._tcp.local.", "bücher.local.", "日本語"] {
        let written = to_c_bytes(name).unwrap();
        assert_eq!(from_c_bytes(&written), Ok(String::from(name)));
    }
}

#[test]
fn interface_index_zero_is_any() {
    assert_eq!(Interface::from_raw(0), Interface::Any);
    assert_eq!(Interface::from_raw(7), Interface::Index(7));
    assert_eq!(Interface::Any.into_raw(), 0);
    assert_eq!(Interface::Index(7).into_raw(), 7);
    assert_eq!(Interface::Index(0).into_raw(), 0);
}

#[test]
fn interface_index_round_trip() {
    for raw in [0u32, 1, 2, 42, 0xffff_ffff] {
        assert_eq!(Interface::from_raw(raw).into_raw(), raw);
    }
}

#[test]
fn native_code_becomes_a_typed_error() {
    assert_eq!(Error::from_call(0), Ok(()));
    assert_eq!(Error::from_call(-65540), Err(Error::NativeRejection(-65540)));
    assert_eq!(Error::from_call(1), Err(Error::NativeRejection(1)));
    assert_eq!(Error::from_reply(0), Ok(()));
    assert_eq!(Error::from_reply(-65538), Err(Error::ReplyError(-65538)));
    assert_eq!(Error::NativeRejection(-65540).code(), Some(-65540));
    assert_eq!(Error::ReplyError(-65538).code(), Some(-65538));
    assert_eq!(Error::DecodingError.code(), None);
    assert_eq!(Error::ChannelClosed.code(), None);
    assert_eq!(Error::InvalidInput.code(), None);
}
