use blebridge::marshal::{EncodeError, InboundStr, encode_string, opt_field, take_field,
    take_string};
use blebridge::applekit::{get_user_default_request, get_user_default_response,
    set_user_default_request};

#[test]
fn roundtrip_unicode_no_nul() {
    let original = "héllo ✓ wörld";
    let buf = encode_string(original).expect("no null byte, must encode");
    let bytes = buf.bytes().clone();
    assert_eq!(bytes, original.as_bytes().to_vec());
    let decoded = take_string(InboundStr::Bytes(bytes));
    assert_eq!(decoded, original);
}

#[test]
fn roundtrip_ascii() {
    let original = "plain";
    let buf = encode_string(original).expect("must encode");
    let decoded = take_string(InboundStr::Bytes(buf.bytes().clone()));
    assert_eq!(decoded, original);
}

#[test]
fn encode_embedded_nul_fails() {
    let r = encode_string("ab\0c");
    assert_eq!(r, Err(EncodeError::InteriorNul));
}

#[test]
fn encode_leading_and_trailing_nul_fail() {
    assert_eq!(encode_string("\0abc"), Err(EncodeError::InteriorNul));
    assert_eq!(encode_string("abc\0"), Err(EncodeError::InteriorNul));
}

#[test]
fn encode_empty_string() {
    let buf = encode_string("").expect("empty string holds no null byte");
    assert_eq!(buf.bytes().len(), 0);
}

#[test]
fn take_string_null_is_empty() {
    assert_eq!(take_string(InboundStr::Null), String::new());
}

#[test]
fn take_string_replaces_invalid_bytes() {
    let decoded = take_string(InboundStr::Bytes(vec![0xff, 0xfe]));
    assert_eq!(decoded, "\u{FFFD}\u{FFFD}");
}

#[test]
fn take_string_mixed_invalid_bytes() {
    let decoded = take_string(InboundStr::Bytes(vec![b'o', b'k', 0xff]));
    assert_eq!(decoded, "ok\u{FFFD}");
}

#[test]
fn take_field_null_is_absent() {
    assert_eq!(take_field(InboundStr::Null), None);
}

#[test]
fn take_field_empty_is_absent() {
    assert_eq!(take_field(InboundStr::Bytes(Vec::new())), None);
}

#[test]
fn take_field_keeps_nonempty() {
    assert_eq!(
        take_field(InboundStr::Bytes(b"acme".to_vec())),
        Some("acme".to_string())
    );
}

#[test]
fn opt_field_normalizes_empty() {
    assert_eq!(opt_field(String::new()), None);
    assert_eq!(opt_field("x".to_string()), Some("x".to_string()));
}

#[test]
fn user_default_write_encodes_both() {
    let w = set_user_default_request("theme", "dark").expect("must encode");
    assert_eq!(w.key.bytes().as_slice(), b"theme");
    assert_eq!(w.value.bytes().as_slice(), b"dark");
}

#[test]
fn user_default_write_nul_fails() {
    assert_eq!(
        set_user_default_request("the\0me", "dark"),
        Err(EncodeError::InteriorNul)
    );
    assert_eq!(
        set_user_default_request("theme", "da\0rk"),
        Err(EncodeError::InteriorNul)
    );
}

#[test]
fn user_default_read_roundtrip() {
    let key = get_user_default_request("theme").expect("must encode");
    assert_eq!(key.bytes().as_slice(), b"theme");
    assert_eq!(get_user_default_response(InboundStr::Null), None);
    assert_eq!(
        get_user_default_response(InboundStr::Bytes(b"dark".to_vec())),
        Some("dark".to_string())
    );
}

#[test]
fn user_default_read_keeps_empty_value() {
    // A stored empty string is a present value: the read path does not apply
    // the absent-field normalization of device records.
    assert_eq!(
        get_user_default_response(InboundStr::Bytes(Vec::new())),
        Some(String::new())
    );
}
