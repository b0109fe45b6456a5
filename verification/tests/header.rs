use bot_rs::error::FetchError;
use bot_rs::header::authorization;

#[test]
fn authorization_prefixes_the_token() {
    let header = authorization("abc123").unwrap();
    assert_eq!(header.as_bytes(), b"token abc123");
}

#[test]
fn authorization_of_empty_token_is_the_prefix() {
    let header = authorization("").unwrap();
    assert_eq!(header.as_bytes(), b"token ");
}

#[test]
fn authorization_rejects_line_feed() {
    assert_eq!(authorization("abc\ndef"), Err(FetchError::Header));
}

#[test]
fn authorization_rejects_nul() {
    assert_eq!(authorization("abc\0def"), Err(FetchError::Header));
}

#[test]
fn authorization_rejects_carriage_return_and_escape() {
    assert_eq!(authorization("\r"), Err(FetchError::Header));
    assert_eq!(authorization("a\x1bb"), Err(FetchError::Header));
}

#[test]
fn authorization_rejects_delete() {
    assert_eq!(authorization("abc\x7f"), Err(FetchError::Header));
}

#[test]
fn authorization_accepts_tab_and_space() {
    let header = authorization("a\tb c").unwrap();
    assert_eq!(header.as_bytes(), b"token a\tb c");
}

#[test]
fn authorization_accepts_the_edges_of_the_visible_range() {
    let header = authorization(" ~").unwrap();
    assert_eq!(header.as_bytes(), b"token  ~");
}

#[test]
fn authorization_encodes_text_beyond_ascii_as_utf8() {
    let header = authorization("cl\u{e9}\u{20ac}\u{1f511}").unwrap();
    assert_eq!(
        header.as_bytes(),
        b"token cl\xc3\xa9\xe2\x82\xac\xf0\x9f\x94\x91"
    );
}

#[test]
fn authorization_accepts_the_first_character_after_delete() {
    let header = authorization("\u{80}").unwrap();
    assert_eq!(header.as_bytes(), b"token \xc2\x80");
}

#[test]
fn authorization_names_its_header_field() {
    let header = authorization("abc").unwrap();
    assert_eq!(header.name(), "Authorization");
}

#[test]
fn authorization_gives_up_the_value_it_shows() {
    let header = authorization("abc").unwrap();
    let shown = header.as_bytes().to_vec();
    let value = header.into_value();
    assert_eq!(value.as_bytes(), shown.as_slice());
    assert_eq!(value, reqwest::header::HeaderValue::from_static("token abc"));
}

#[test]
fn authorization_of_equal_tokens_is_equal() {
    assert_eq!(authorization("abc"), authorization("abc"));
    assert_ne!(authorization("abc"), authorization("abd"));
}
