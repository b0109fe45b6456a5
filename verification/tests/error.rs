use bot_rs::error::decimal_text;
use bot_rs::error::FetchError;

#[test]
fn decimal_text_of_single_digits() {
    assert_eq!(decimal_text(0), "0");
    assert_eq!(decimal_text(7), "7");
    assert_eq!(decimal_text(9), "9");
}

#[test]
fn decimal_text_of_longer_numbers() {
    assert_eq!(decimal_text(10), "10");
    assert_eq!(decimal_text(404), "404");
    assert_eq!(decimal_text(500), "500");
    assert_eq!(decimal_text(1009), "1009");
    assert_eq!(decimal_text(65535), "65535");
}

#[test]
fn message_of_header_failure() {
    assert_eq!(
        FetchError::Header.message(),
        "Failed to format token into header value"
    );
}

#[test]
fn message_of_transport_failure_is_the_reason() {
    let e = FetchError::Transport(String::from("connection refused"));
    assert_eq!(e.message(), "connection refused");
}

#[test]
fn message_of_status_failure_names_the_code() {
    assert_eq!(FetchError::Status(404).message(), "HTTP status 404");
    assert_eq!(FetchError::Status(500).message(), "HTTP status 500");
}

#[test]
fn message_of_decode_failure() {
    assert_eq!(FetchError::Decode.message(), "error decoding response body");
}

#[test]
fn message_of_out_of_turn() {
    assert_eq!(FetchError::OutOfTurn.message(), "event out of turn");
}
