//! The decoder and its pieces, below the endpoint level: the parsed-object
//! model, field decoding, and the projections of the data model.

use webhook_server::api::{
    decode_echo_fields, decode_webhook, decode_webhook_fields, echo_payload, health_check,
    HandleChange, SIWFSignup, WebhookCallback,
};
use webhook_server::json::{parse_json_object, JsonError, JsonValue};
use webhook_server::respond::{serialize_echo_payload, serialize_health, serialize_webhook};
use webhook_server::text::{escape_json, quote_json};

fn s(text: &str) -> String {
    text.to_owned()
}

#[test]
fn parsing_keeps_strings_and_reduces_the_rest_to_kinds() {
    let fields =
        parse_json_object("{\"a\":1,\"b\":true,\"c\":null,\"d\":[5],\"e\":{\"x\":1},\"f\":\"v\"}")
            .unwrap();
    assert_eq!(
        fields,
        vec![
            (s("a"), JsonValue::Number),
            (s("b"), JsonValue::Bool(true)),
            (s("c"), JsonValue::Null),
            (s("d"), JsonValue::Array),
            (s("e"), JsonValue::Object),
            (s("f"), JsonValue::Str(s("v"))),
        ]
    );
}

#[test]
fn parsing_rejects_what_is_not_an_object() {
    assert_eq!(parse_json_object("3"), Err(JsonError::NotObject));
    assert_eq!(parse_json_object("\"x\""), Err(JsonError::NotObject));
    assert_eq!(parse_json_object("{"), Err(JsonError::Syntax));
    assert_eq!(parse_json_object(""), Err(JsonError::Syntax));
}

#[test]
fn decoding_builds_the_named_variant() {
    let fields = parse_json_object(
        "{\"transactionType\":\"SIWFSignup\",\"referenceId\":\"r\",\"accountId\":\"a\",\"msaId\":\"m\",\"handle\":\"h\",\"providerId\":\"p\"}",
    )
    .unwrap();
    let event = decode_webhook_fields(&fields).unwrap();
    assert_eq!(
        event,
        WebhookCallback::SIWFSignup(SIWFSignup {
            reference_id: s("r"),
            account_id: s("a"),
            msa_id: s("m"),
            handle: s("h"),
            provider_id: s("p"),
        })
    );
}

#[test]
fn decoding_from_text_goes_all_the_way() {
    let event = decode_webhook(
        "{\"transactionType\":\"HandleChange\",\"reference_id\":\"r\",\"address\":\"a\",\"msa_id\":\"m\",\"handle\":\"h\"}",
    )
    .unwrap();
    assert_eq!(
        event,
        WebhookCallback::HandleChange(HandleChange {
            reference_id: s("r"),
            address: s("a"),
            msa_id: s("m"),
            handle: s("h"),
        })
    );
    assert_eq!(decode_webhook("[]").unwrap_err().message, "expected a JSON object");
    assert_eq!(decode_webhook("{]").unwrap_err().message, "invalid JSON");
    assert_eq!(
        decode_webhook("{}").unwrap_err().message,
        "missing field transactionType"
    );
}

#[test]
fn decoding_reports_the_first_failure() {
    let fields = parse_json_object("{\"transactionType\":\"HandleChange\",\"handle\":\"h\"}")
        .unwrap();
    let err = decode_webhook_fields(&fields).unwrap_err();
    assert_eq!(err.message, "missing field reference_id");
}

#[test]
fn flat_decoding_builds_the_payload() {
    let fields = parse_json_object(
        "{\"reference_id\":\"r1\",\"address\":\"a1\",\"msa_id\":\"m1\",\"handle\":\"h1\"}",
    )
    .unwrap();
    let payload = decode_echo_fields(&fields).unwrap();
    assert_eq!(payload.reference_id, "r1");
    assert_eq!(payload.address, "a1");
    assert_eq!(payload.msa_id, "m1");
    assert_eq!(payload.handle, "h1");
}

#[test]
fn echo_hands_the_event_back_unchanged() {
    let event = WebhookCallback::HandleChange(HandleChange {
        reference_id: s("r"),
        address: s("a"),
        msa_id: s("m"),
        handle: s("h"),
    });
    assert_eq!(echo_payload(event.clone()), event);
}

#[test]
fn normalize_keeps_all_four_fields() {
    let event = HandleChange {
        reference_id: s("r1"),
        address: s("a1"),
        msa_id: s("m1"),
        handle: s("h1"),
    };
    let payload = event.normalize();
    assert_eq!(payload.reference_id, event.reference_id);
    assert_eq!(payload.address, event.address);
    assert_eq!(payload.msa_id, event.msa_id);
    assert_eq!(payload.handle, event.handle);
    assert_eq!(
        serialize_echo_payload(&payload),
        "{\"reference_id\":\"r1\",\"address\":\"a1\",\"msa_id\":\"m1\",\"handle\":\"h1\"}"
    );
}

#[test]
fn health_message_is_the_constant() {
    let report = health_check();
    assert_eq!(report.message, "Server is healthy");
    assert_eq!(serialize_health(&report), "{\"message\":\"Server is healthy\"}");
}

#[test]
fn serialization_uses_the_wire_member_names() {
    let event = WebhookCallback::SIWFSignup(SIWFSignup {
        reference_id: s("r"),
        account_id: s("a"),
        msa_id: s("m"),
        handle: s("h"),
        provider_id: s("p"),
    });
    assert_eq!(
        serialize_webhook(&event),
        "{\"transactionType\":\"SIWFSignup\",\"referenceId\":\"r\",\"accountId\":\"a\",\"msaId\":\"m\",\"handle\":\"h\",\"providerId\":\"p\"}"
    );
}

#[test]
fn escaping_rewrites_the_special_characters() {
    assert_eq!(escape_json("plain"), "plain");
    assert_eq!(escape_json("a\"b"), "a\\\"b");
    assert_eq!(escape_json("a\\b"), "a\\\\b");
    assert_eq!(escape_json("a\nb\tc\rd"), "a\\nb\\tc\\rd");
    assert_eq!(escape_json("\u{8}\u{c}"), "\\b\\f");
    assert_eq!(escape_json("\u{0}\u{1f}"), "\\u0000\\u001f");
    assert_eq!(quote_json("x"), "\"x\"");
}
