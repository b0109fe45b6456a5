use bot_rs::body::decode;
use bot_rs::error::FetchError;

#[test]
fn decode_reads_ascii() {
    assert_eq!(decode(b"diff-content".to_vec()), Ok(String::from("diff-content")));
}

#[test]
fn decode_reads_an_empty_body() {
    assert_eq!(decode(Vec::new()), Ok(String::new()));
}

#[test]
fn decode_reads_every_encoding_width() {
    let bytes = b"a\xc3\xa9\xe2\x82\xac\xf0\x9f\x94\x91".to_vec();
    assert_eq!(decode(bytes), Ok(String::from("a\u{e9}\u{20ac}\u{1f511}")));
}

#[test]
fn decode_keeps_line_breaks_and_nul() {
    assert_eq!(decode(b"+a\n-b\r\n\0".to_vec()), Ok(String::from("+a\n-b\r\n\0")));
}

#[test]
fn decode_rejects_a_stray_byte() {
    assert_eq!(decode(vec![0x64, 0xff, 0x66]), Err(FetchError::Decode));
}

#[test]
fn decode_rejects_a_lone_continuation_byte() {
    assert_eq!(decode(vec![0x80]), Err(FetchError::Decode));
}

#[test]
fn decode_rejects_a_cut_off_character() {
    assert_eq!(decode(vec![0xe2, 0x82]), Err(FetchError::Decode));
}

#[test]
fn decode_rejects_an_overlong_form() {
    assert_eq!(decode(vec![0xc0, 0x80]), Err(FetchError::Decode));
    assert_eq!(decode(vec![0xe0, 0x80, 0x80]), Err(FetchError::Decode));
}

#[test]
fn decode_rejects_a_surrogate() {
    assert_eq!(decode(vec![0xed, 0xa0, 0x80]), Err(FetchError::Decode));
}

#[test]
fn decode_rejects_what_lies_beyond_unicode() {
    assert_eq!(decode(vec![0xf4, 0x90, 0x80, 0x80]), Err(FetchError::Decode));
    assert_eq!(decode(vec![0xf8, 0x88, 0x80, 0x80, 0x80]), Err(FetchError::Decode));
}
