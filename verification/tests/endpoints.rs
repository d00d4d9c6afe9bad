//! The two endpoints end to end: a request body in, a status code and a
//! response body out.

use webhook_server::respond::{handle_health, handle_webhook, handle_webhook_flat};

#[test]
fn health_is_ok_with_constant_body() {
    let (status, body) = handle_health();
    assert_eq!(status, 200);
    assert_eq!(body, "{\"message\":\"Server is healthy\"}");
}

#[test]
fn health_does_not_depend_on_request_history() {
    let first = handle_health();
    let _ = handle_webhook("{\"transactionType\":\"HandleChange\"}");
    let _ = handle_webhook("garbage");
    let again = handle_health();
    assert_eq!(first, again);
    assert_eq!(again.1, "{\"message\":\"Server is healthy\"}");
}

#[test]
fn flat_echo_returns_created_with_same_fields() {
    let body = "{\"reference_id\":\"r1\",\"address\":\"a1\",\"msa_id\":\"m1\",\"handle\":\"h1\"}";
    let (status, text) = handle_webhook_flat(body);
    assert_eq!(status, 201);
    assert_eq!(
        text,
        "{\"reference_id\":\"r1\",\"address\":\"a1\",\"msa_id\":\"m1\",\"handle\":\"h1\"}"
    );
}

#[test]
fn flat_empty_object_names_a_missing_field() {
    let (status, text) = handle_webhook_flat("{}");
    assert_eq!(status, 400);
    assert_eq!(text, "missing field reference_id");
    assert!(text.contains("reference_id"));
}

#[test]
fn handle_change_round_trips_verbatim() {
    let body = "{\"transactionType\":\"HandleChange\",\"reference_id\":\"r9\",\"address\":\"0xabc\",\"msa_id\":\"42\",\"handle\":\"neo\"}";
    let (status, text) = handle_webhook(body);
    assert_eq!(status, 201);
    assert_eq!(
        text,
        "{\"transactionType\":\"HandleChange\",\"reference_id\":\"r9\",\"address\":\"0xabc\",\"msa_id\":\"42\",\"handle\":\"neo\"}"
    );
}

#[test]
fn signup_round_trips_verbatim() {
    let body = "{\"transactionType\":\"SIWFSignup\",\"referenceId\":\"ref\",\"accountId\":\"acc\",\"msaId\":\"7\",\"handle\":\"h\",\"providerId\":\"p\"}";
    let (status, text) = handle_webhook(body);
    assert_eq!(status, 201);
    assert_eq!(
        text,
        "{\"transactionType\":\"SIWFSignup\",\"referenceId\":\"ref\",\"accountId\":\"acc\",\"msaId\":\"7\",\"handle\":\"h\",\"providerId\":\"p\"}"
    );
}

#[test]
fn member_order_on_the_wire_does_not_matter() {
    let body = "{\"handle\":\"neo\",\"msa_id\":\"42\",\"transactionType\":\"HandleChange\",\"address\":\"0xabc\",\"reference_id\":\"r9\"}";
    let (status, text) = handle_webhook(body);
    assert_eq!(status, 201);
    assert_eq!(
        text,
        "{\"transactionType\":\"HandleChange\",\"reference_id\":\"r9\",\"address\":\"0xabc\",\"msa_id\":\"42\",\"handle\":\"neo\"}"
    );
}

#[test]
fn missing_discriminant_is_rejected() {
    let (status, text) = handle_webhook("{}");
    assert_eq!(status, 400);
    assert_eq!(text, "missing field transactionType");
}

#[test]
fn unknown_discriminant_is_rejected_and_named() {
    let (status, text) = handle_webhook("{\"transactionType\":\"Renewal\"}");
    assert_eq!(status, 400);
    assert_eq!(text, "unknown transactionType: Renewal");
}

#[test]
fn non_string_discriminant_is_rejected() {
    let (status, text) = handle_webhook("{\"transactionType\":5}");
    assert_eq!(status, 400);
    assert_eq!(text, "field transactionType: expected a string");
}

#[test]
fn signup_missing_member_is_named_in_declared_order() {
    let (status, text) = handle_webhook("{\"transactionType\":\"SIWFSignup\"}");
    assert_eq!(status, 400);
    assert_eq!(text, "missing field referenceId");

    let (status, text) = handle_webhook(
        "{\"transactionType\":\"SIWFSignup\",\"referenceId\":\"r\",\"accountId\":\"a\",\"msaId\":\"m\",\"handle\":\"h\"}",
    );
    assert_eq!(status, 400);
    assert_eq!(text, "missing field providerId");
}

#[test]
fn non_string_member_is_rejected() {
    let body = "{\"transactionType\":\"HandleChange\",\"reference_id\":\"r9\",\"address\":3,\"msa_id\":\"42\",\"handle\":\"neo\"}";
    let (status, text) = handle_webhook(body);
    assert_eq!(status, 400);
    assert_eq!(text, "field address: expected a string");
}

#[test]
fn null_member_is_rejected() {
    let body = "{\"transactionType\":\"HandleChange\",\"reference_id\":null,\"address\":\"a\",\"msa_id\":\"m\",\"handle\":\"h\"}";
    let (status, text) = handle_webhook(body);
    assert_eq!(status, 400);
    assert_eq!(text, "field reference_id: expected a string");
}

#[test]
fn malformed_json_is_rejected() {
    let (status, text) = handle_webhook("not json at all");
    assert_eq!(status, 400);
    assert_eq!(text, "invalid JSON");
    let (status, text) = handle_webhook("{\"transactionType\":");
    assert_eq!(status, 400);
    assert_eq!(text, "invalid JSON");
}

#[test]
fn non_object_document_is_rejected() {
    let (status, text) = handle_webhook("[1,2,3]");
    assert_eq!(status, 400);
    assert_eq!(text, "expected a JSON object");
    let (status, text) = handle_webhook_flat("\"just a string\"");
    assert_eq!(status, 400);
    assert_eq!(text, "expected a JSON object");
}

#[test]
fn echoed_values_are_escaped_again() {
    let body = "{\"reference_id\":\"r\\\"1\",\"address\":\"a\\\\b\",\"msa_id\":\"m\\n2\",\"handle\":\"h\\u0001\"}";
    let (status, text) = handle_webhook_flat(body);
    assert_eq!(status, 201);
    assert_eq!(
        text,
        "{\"reference_id\":\"r\\\"1\",\"address\":\"a\\\\b\",\"msa_id\":\"m\\n2\",\"handle\":\"h\\u0001\"}"
    );
}

#[test]
fn empty_strings_are_accepted() {
    let body = "{\"reference_id\":\"\",\"address\":\"\",\"msa_id\":\"\",\"handle\":\"\"}";
    let (status, text) = handle_webhook_flat(body);
    assert_eq!(status, 201);
    assert_eq!(
        text,
        "{\"reference_id\":\"\",\"address\":\"\",\"msa_id\":\"\",\"handle\":\"\"}"
    );
}

#[test]
fn distinct_bodies_get_distinct_answers() {
    let bodies = [
        "{\"reference_id\":\"r1\",\"address\":\"a1\",\"msa_id\":\"m1\",\"handle\":\"h1\"}",
        "{\"reference_id\":\"r2\",\"address\":\"a2\",\"msa_id\":\"m2\",\"handle\":\"h2\"}",
        "{\"reference_id\":\"r3\",\"address\":\"a3\",\"msa_id\":\"m3\",\"handle\":\"h3\"}",
    ];
    let answers: Vec<(u16, String)> = bodies.iter().map(|b| handle_webhook_flat(b)).collect();
    for (i, (status, text)) in answers.iter().enumerate() {
        assert_eq!(*status, 201);
        assert_eq!(text, bodies[i]);
        for (j, other) in bodies.iter().enumerate() {
            if i != j {
                assert_ne!(text, other);
            }
        }
    }
}
