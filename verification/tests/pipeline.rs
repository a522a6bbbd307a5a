use std::cell::Cell;

use webhook_pipeline::logging::{log_response, severity_for, LogRecord, Severity};
use webhook_pipeline::pipeline::{
    acted_outcome, handle_invocation, parsed_stage, read_payload, refused, run, Handled,
};
use webhook_pipeline::request::{adapt, decode, RawBody, RawRequest, RequestError};
use webhook_pipeline::response::{build, Outcome, Res, ResKind};

#[derive(Debug, Clone, PartialEq, Eq)]
struct Event {
    kind: String,
    challenge: String,
}

fn field(value: &serde_json::Value, name: &str) -> Result<String, String> {
    match value.get(name).and_then(|found| found.as_str()) {
        Some(text) => Ok(text.to_string()),
        None => Err(format!("missing field `{}`", name)),
    }
}

fn parse_event(text: String) -> Result<Event, String> {
    let value: serde_json::Value = match serde_json::from_str(&text) {
        Ok(value) => value,
        Err(error) => return Err(format!("invalid JSON: {}", error)),
    };
    let kind = field(&value, "type")?;
    if kind != "url_verification" {
        return Err(format!("unknown event type `{}`", kind));
    }
    let challenge = field(&value, "challenge")?;
    Ok(Event { kind, challenge })
}

fn text_request(text: &str) -> RawRequest {
    RawRequest { body: RawBody::Text(text.to_string()) }
}

const WELL_FORMED: &str = "{\"type\":\"url_verification\",\"challenge\":\"abc\"}";

fn succeed(_event: Event) -> Result<(), String> {
    Ok(())
}

#[test]
fn empty_body_is_a_client_error_naming_the_missing_body() {
    let handled = handle_invocation(RawRequest { body: RawBody::Empty }, parse_event, succeed);
    assert_eq!(handled.response.get_kind(), ResKind::ClientError);
    assert_eq!(handled.response.body(), "request body is missing");
    assert!(handled.response.body().contains("body"));
    assert!(handled.response.body().contains("missing"));
}

#[test]
fn empty_text_and_empty_bytes_count_as_missing() {
    let text = handle_invocation(text_request(""), parse_event, succeed);
    assert_eq!(text.response.get_kind(), ResKind::ClientError);
    assert_eq!(text.response.body(), "request body is missing");
    let bytes =
        handle_invocation(RawRequest { body: RawBody::Binary(Vec::new()) }, parse_event, succeed);
    assert_eq!(bytes.response.get_kind(), ResKind::ClientError);
    assert_eq!(bytes.response.body(), "request body is missing");
}

#[test]
fn bytes_that_are_not_utf8_are_a_client_error() {
    let raw = RawRequest { body: RawBody::Binary(vec![0xff, 0xfe, 0x00]) };
    let handled = handle_invocation(raw, parse_event, succeed);
    assert_eq!(handled.response.get_kind(), ResKind::ClientError);
    assert_eq!(handled.response.body(), "request body is not valid UTF-8 text");
}

#[test]
fn bytes_that_are_utf8_are_decoded_and_parsed() {
    let seen = Cell::new(String::new());
    let parse = |text: String| {
        seen.set(text.clone());
        parse_event(text)
    };
    let raw = RawRequest { body: RawBody::Binary(WELL_FORMED.as_bytes().to_vec()) };
    let handled = handle_invocation(raw, parse, succeed);
    assert_eq!(seen.take(), WELL_FORMED);
    assert_eq!(handled.response.get_kind(), ResKind::Other);
    assert_eq!(handled.response.body(), "OK");
}

#[test]
fn multibyte_utf8_bytes_decode_to_their_characters() {
    let request = adapt(RawRequest { body: RawBody::Binary(vec![0xc3, 0xa9, 0xe2, 0x82, 0xac]) })
        .expect("a present body is admitted");
    let payload = decode(request).expect("valid UTF-8 is text");
    assert_eq!(payload.as_str(), "\u{e9}\u{20ac}");
    assert_eq!(payload.into_string(), "\u{e9}\u{20ac}".to_string());
}

#[test]
fn malformed_request_never_reaches_the_collaborators() {
    let parsed = Cell::new(0u32);
    let dispatched = Cell::new(0u32);
    for body in [RawBody::Empty, RawBody::Text(String::new()), RawBody::Binary(vec![0x80])] {
        let parse = |text: String| {
            parsed.set(parsed.get() + 1);
            parse_event(text)
        };
        let dispatch = |_event: Event| -> Result<(), String> {
            dispatched.set(dispatched.get() + 1);
            Ok(())
        };
        let handled = handle_invocation(RawRequest { body }, parse, dispatch);
        assert_eq!(handled.response.get_kind(), ResKind::ClientError);
    }
    assert_eq!(parsed.get(), 0);
    assert_eq!(dispatched.get(), 0);
}

#[test]
fn invalid_json_is_a_client_error_with_the_parse_failure() {
    let dispatched = Cell::new(0u32);
    let dispatch = |_event: Event| -> Result<(), String> {
        dispatched.set(dispatched.get() + 1);
        Ok(())
    };
    let handled = handle_invocation(text_request("{not json"), parse_event, dispatch);
    assert_eq!(handled.response.get_kind(), ResKind::ClientError);
    assert_eq!(handled.response.body(), parse_event("{not json".to_string()).unwrap_err());
    assert!(handled.response.body().starts_with("invalid JSON: "));
    assert_eq!(dispatched.get(), 0);
}

#[test]
fn json_of_an_unknown_shape_is_a_client_error() {
    let handled =
        handle_invocation(text_request("{\"type\":\"unknown_field_soup\"}"), parse_event, succeed);
    assert_eq!(handled.response.get_kind(), ResKind::ClientError);
    assert_eq!(handled.response.body(), "unknown event type `unknown_field_soup`");
    assert_eq!(handled.record.severity, Severity::Warn);
}

#[test]
fn json_without_the_required_fields_is_a_client_error() {
    let handled = handle_invocation(text_request("{\"kind\":1}"), parse_event, succeed);
    assert_eq!(handled.response.get_kind(), ResKind::ClientError);
    assert_eq!(handled.response.body(), "missing field `type`");
}

#[test]
fn success_is_acknowledged_and_dispatched_once() {
    let dispatched = Cell::new(0u32);
    let seen = Cell::new(None);
    let dispatch = |event: Event| -> Result<u32, String> {
        dispatched.set(dispatched.get() + 1);
        seen.set(Some(event));
        Ok(7)
    };
    let handled = handle_invocation(text_request(WELL_FORMED), parse_event, dispatch);
    assert_eq!(handled.response.get_kind(), ResKind::Other);
    assert_eq!(handled.response.body(), "OK");
    assert_eq!(dispatched.get(), 1);
    assert_eq!(
        seen.take(),
        Some(Event { kind: "url_verification".to_string(), challenge: "abc".to_string() })
    );
    assert_eq!(
        handled.record,
        LogRecord { severity: Severity::Info, message: "OK".to_string() }
    );
}

#[test]
fn dispatcher_failure_is_a_server_error_with_its_message() {
    let dispatch =
        |_event: Event| -> Result<(), String> { Err("downstream unavailable".to_string()) };
    let handled = handle_invocation(text_request(WELL_FORMED), parse_event, dispatch);
    assert_eq!(handled.response.get_kind(), ResKind::ServerError);
    assert_eq!(handled.response.body(), "downstream unavailable");
    assert_eq!(
        handled.record,
        LogRecord { severity: Severity::Error, message: "downstream unavailable".to_string() }
    );
}

#[test]
fn same_request_twice_gives_the_same_response() {
    let dispatch = |event: Event| -> Result<(), String> {
        if event.challenge == "abc" {
            Err("refused".to_string())
        } else {
            Ok(())
        }
    };
    for text in ["", "{", "{\"type\":\"x\"}", WELL_FORMED] {
        let first: Handled = handle_invocation(text_request(text), parse_event, dispatch);
        let second: Handled = handle_invocation(text_request(text), parse_event, dispatch);
        assert_eq!(first.response, second.response);
        assert_eq!(first.record, second.record);
    }
}

#[test]
fn run_yields_the_tagged_outcome() {
    let failing = |_event: Event| -> Result<u8, String> { Err("boom".to_string()) };
    match run(text_request(WELL_FORMED), parse_event, failing) {
        Outcome::ServerError(message) => assert_eq!(message, "boom"),
        _ => panic!("expected a server error"),
    }
    let passing = |_event: Event| -> Result<u8, String> { Ok(9) };
    match run(text_request(WELL_FORMED), parse_event, passing) {
        Outcome::Success(value) => assert_eq!(value, 9),
        _ => panic!("expected a success"),
    }
    match run(text_request("[]"), parse_event, passing) {
        Outcome::ClientError(message) => assert_eq!(message, "missing field `type`"),
        _ => panic!("expected a client error"),
    }
}

#[test]
fn adapt_admits_present_bodies_only() {
    assert_eq!(adapt(RawRequest { body: RawBody::Empty }).unwrap_err(), RequestError::MissingBody);
    assert_eq!(adapt(text_request("")).unwrap_err(), RequestError::MissingBody);
    assert_eq!(
        adapt(RawRequest { body: RawBody::Binary(Vec::new()) }).unwrap_err(),
        RequestError::MissingBody
    );
    assert!(adapt(text_request("x")).is_ok());
    assert!(adapt(RawRequest { body: RawBody::Binary(vec![0xff]) }).is_ok());
    assert!(RawBody::Text("x".to_string()).is_present());
    assert!(!RawBody::Empty.is_present());
}

#[test]
fn decode_keeps_text_as_it_stands() {
    let request = adapt(text_request("not json at all")).expect("a present body is admitted");
    let payload = decode(request).expect("text is text");
    assert_eq!(payload.as_str(), "not json at all");
    let parsed = payload.deserialize(|text: String| -> Result<usize, String> { Ok(text.len()) });
    assert_eq!(parsed, Ok(15));
}

#[test]
fn decode_rejects_bytes_that_are_not_text() {
    let request =
        adapt(RawRequest { body: RawBody::Binary(vec![b'a', 0xc3]) }).expect("present");
    assert_eq!(decode(request).unwrap_err(), RequestError::NotText);
}

#[test]
fn read_payload_reports_the_first_failure() {
    assert_eq!(
        read_payload(RawRequest { body: RawBody::Empty }).unwrap_err(),
        RequestError::MissingBody
    );
    assert_eq!(
        read_payload(RawRequest { body: RawBody::Binary(vec![0xc0]) }).unwrap_err(),
        RequestError::NotText
    );
    assert_eq!(read_payload(text_request("{}")).expect("text").as_str(), "{}");
}

#[test]
fn request_errors_render_their_reason() {
    assert_eq!(RequestError::MissingBody.message(), "request body is missing");
    assert_eq!(RequestError::NotText.message(), "request body is not valid UTF-8 text");
    match refused::<()>(RequestError::NotText) {
        Outcome::ClientError(message) => {
            assert_eq!(message, "request body is not valid UTF-8 text")
        }
        _ => panic!("expected a client error"),
    }
}

#[test]
fn stage_tags_follow_the_stage() {
    match parsed_stage::<u8, ()>(Err("bad".to_string())) {
        Err(Outcome::ClientError(message)) => assert_eq!(message, "bad"),
        _ => panic!("expected a client error"),
    }
    match parsed_stage::<u8, ()>(Ok(3)) {
        Ok(event) => assert_eq!(event, 3),
        Err(_) => panic!("expected the event"),
    }
    match acted_outcome::<u8>(Err("bad".to_string())) {
        Outcome::ServerError(message) => assert_eq!(message, "bad"),
        _ => panic!("expected a server error"),
    }
    match acted_outcome::<u8>(Ok(4)) {
        Outcome::Success(value) => assert_eq!(value, 4),
        _ => panic!("expected a success"),
    }
}

#[test]
fn build_maps_each_outcome_to_its_class() {
    let ok = build(Outcome::Success(42u8));
    assert_eq!((ok.get_kind(), ok.body()), (ResKind::Other, "OK"));
    let client = build::<u8>(Outcome::ClientError("error text mentioning server".to_string()));
    assert_eq!(
        (client.get_kind(), client.body()),
        (ResKind::ClientError, "error text mentioning server")
    );
    let server = build::<u8>(Outcome::ServerError("".to_string()));
    assert_eq!((server.get_kind(), server.body()), (ResKind::ServerError, ""));
}

#[test]
fn constructors_set_class_and_body() {
    assert_eq!(Res::ok(()).get_kind(), ResKind::Other);
    assert_eq!(Res::ok("ignored").body(), "OK");
    assert_eq!(Res::bad_request("a".to_string()).get_kind(), ResKind::ClientError);
    assert_eq!(Res::bad_request("a".to_string()).body(), "a");
    assert_eq!(Res::err("b".to_string()).get_kind(), ResKind::ServerError);
    assert_eq!(Res::err("b".to_string()).body(), "b");
}

#[test]
fn severity_follows_the_class() {
    assert_eq!(severity_for(ResKind::ServerError), Severity::Error);
    assert_eq!(severity_for(ResKind::ClientError), Severity::Warn);
    assert_eq!(severity_for(ResKind::Other), Severity::Info);
}

#[test]
fn log_response_describes_the_response_and_leaves_it_alone() {
    let response = Res::bad_request("no".to_string());
    let before = response.clone();
    let record = log_response(&response);
    assert_eq!(record, LogRecord { severity: Severity::Warn, message: "no".to_string() });
    assert_eq!(response, before);
    assert_eq!(log_response(&Res::err("x".to_string())).severity, Severity::Error);
    assert_eq!(log_response(&Res::ok(1u8)).severity, Severity::Info);
    assert_eq!(log_response(&Res::ok(1u8)).message, "OK");
}

#[test]
fn status_codes_fall_in_the_range_of_their_class() {
    assert_eq!(ResKind::Other.status_code(), 200);
    assert_eq!(ResKind::ClientError.status_code(), 400);
    assert_eq!(ResKind::ServerError.status_code(), 500);
}
