use abstractapi::error::{sanitize_message, AbstractApiError};
use abstractapi::request::{bool_to_string, u64_to_string};
use abstractapi::ApiType;

const KEY: &str = "ef0482afc956e2ede15ed2d4b7c9c01e";

#[test]
fn test_hide_api_key() {
    let status_text = format!("Unauthorized api_key={KEY}");
    let response = ureq::Response::new(401, &status_text, "").unwrap();
    let ureq_error = ureq::Error::Status(401, response);
    let error = AbstractApiError::from_transport(ureq_error);
    let rendered = format!("{error:?}");
    assert!(rendered.contains("api_key=***"));
    assert!(!rendered.contains(KEY));
    let message = error.message();
    assert!(message.starts_with("Request error: `"));
    assert!(message.contains("api_key=***"));
    assert!(!message.contains(KEY));
}

#[test]
fn sanitize_replaces_the_key_in_a_request_url() {
    let url = format!(
        "https://emailvalidation.abstractapi.com/v1/?api_key={KEY}&email=test%40gmial.com&auto_correct=false"
    );
    assert_eq!(
        "https://emailvalidation.abstractapi.com/v1/?api_key=***&email=test%40gmial.com&auto_correct=false",
        sanitize_message(&url)
    );
}

#[test]
fn sanitize_replaces_every_occurrence() {
    let text = format!("first api_key={KEY} then api_key={KEY}!");
    assert_eq!(
        "first api_key=*** then api_key=***!",
        sanitize_message(&text)
    );
}

#[test]
fn sanitize_consumes_the_whole_key_greedily() {
    // 40 alphanumeric characters after the marker: all of them go.
    let text = format!("api_key={KEY}deadbeef&next=1");
    assert_eq!("api_key=***&next=1", sanitize_message(&text));
}

#[test]
fn sanitize_leaves_short_values_alone() {
    // 31 alphanumeric characters do not look like an API key.
    let text = "api_key=0123456789abcdef0123456789abcde&x=1";
    assert_eq!(text, sanitize_message(text));
}

#[test]
fn sanitize_leaves_unrelated_text_alone() {
    let text = "Dns failed: no such host (timeout 15s)";
    assert_eq!(text, sanitize_message(text));
}

#[test]
fn sanitize_is_idempotent_on_redacted_text() {
    let text = format!("api_key={KEY}&x=1");
    let once = sanitize_message(&text);
    let twice = sanitize_message(&once);
    assert_eq!(once, twice);
}

#[test]
fn error_messages_render_like_the_upstream_display() {
    assert_eq!(
        "This API key is already set",
        AbstractApiError::ApiKeySetError.message()
    );
    assert_eq!(
        "API key is not present: `vat`",
        AbstractApiError::ApiKeyNotPresent(ApiType::Vat).message()
    );
    assert_eq!(
        "API key is not present: `exchange-rates`",
        AbstractApiError::ApiKeyNotPresent(ApiType::ExchangeRates).message()
    );
    assert_eq!(
        "IO error: `unexpected end of file`",
        AbstractApiError::IoError("unexpected end of file".to_string()).message()
    );
    let transport = AbstractApiError::from_transport_message("connection refused");
    assert_eq!("Request error: `connection refused`", transport.message());
}

#[test]
fn from_transport_message_sanitizes_before_storing() {
    let raw = format!("401 at https://vat.abstractapi.com/v1/validate/?api_key={KEY}");
    let error = AbstractApiError::from_transport_message(&raw);
    match &error {
        AbstractApiError::RequestError(m) => {
            assert_eq!(
                "401 at https://vat.abstractapi.com/v1/validate/?api_key=***",
                m
            );
        }
        other => panic!("expected a request error, got {other:?}"),
    }
}

#[test]
fn u64_to_string_renders_decimal() {
    assert_eq!("0", u64_to_string(0));
    assert_eq!("7", u64_to_string(7));
    assert_eq!("10", u64_to_string(10));
    assert_eq!("73", u64_to_string(73));
    assert_eq!("33021", u64_to_string(33021));
    assert_eq!("18446744073709551615", u64_to_string(u64::MAX));
}

#[test]
fn bool_to_string_renders_flags() {
    assert_eq!("true", bool_to_string(true));
    assert_eq!("false", bool_to_string(false));
}
