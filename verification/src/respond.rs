//! What each endpoint answers: the JSON bodies it writes and the status code
//! that goes with them. The echo endpoint hands a decoded callback back
//! verbatim in its own wire shape, or reports the first validation failure
//! with a "bad request" status; the health endpoint answers a constant.

use vstd::prelude::*;

use crate::api::{
    field_string, handle_change_failure, webhook_failure, EchoPayload, HealthResponse,
    WebhookCallback,
};
use crate::api::{decode_echo_fields, decode_webhook, health_check};
use crate::json::{json_error_msg, lookup, parse_json_object, parsed_json, JsonError, JsonValue};
use crate::text::{lemma_escaped_plain, plain_char, quote_json, quoted};

verus! {

/// The health endpoint's body.
pub open spec fn health_json(message: Seq<char>) -> Seq<char> {
    "{\"message\":"@ + quoted(message) + "}"@
}

/// The flat echo body, in the order its members were declared.
pub open spec fn echo_json(
    reference_id: Seq<char>,
    address: Seq<char>,
    msa_id: Seq<char>,
    handle: Seq<char>,
) -> Seq<char> {
    "{\"reference_id\":"@ + quoted(reference_id) + ",\"address\":"@ + quoted(address)
        + ",\"msa_id\":"@ + quoted(msa_id) + ",\"handle\":"@ + quoted(handle) + "}"@
}

/// A signup callback's wire shape: the discriminant first, then the members
/// in declared order, camelCase as on the way in.
pub open spec fn signup_json(
    reference_id: Seq<char>,
    account_id: Seq<char>,
    msa_id: Seq<char>,
    handle: Seq<char>,
    provider_id: Seq<char>,
) -> Seq<char> {
    "{\"transactionType\":\"SIWFSignup\",\"referenceId\":"@ + quoted(reference_id)
        + ",\"accountId\":"@ + quoted(account_id) + ",\"msaId\":"@ + quoted(msa_id)
        + ",\"handle\":"@ + quoted(handle) + ",\"providerId\":"@ + quoted(provider_id) + "}"@
}

/// A handle-change callback's wire shape: the discriminant first, then the
/// members in declared order, snake_case as on the way in.
pub open spec fn handle_change_json(
    reference_id: Seq<char>,
    address: Seq<char>,
    msa_id: Seq<char>,
    handle: Seq<char>,
) -> Seq<char> {
    "{\"transactionType\":\"HandleChange\",\"reference_id\":"@ + quoted(reference_id)
        + ",\"address\":"@ + quoted(address) + ",\"msa_id\":"@ + quoted(msa_id) + ",\"handle\":"@
        + quoted(handle) + "}"@
}

/// The wire shape of a decoded callback.
pub open spec fn webhook_json(event: WebhookCallback) -> Seq<char> {
    match event {
        WebhookCallback::SIWFSignup(s) => signup_json(
            s.reference_id@,
            s.account_id@,
            s.msa_id@,
            s.handle@,
            s.provider_id@,
        ),
        WebhookCallback::HandleChange(h) => handle_change_json(
            h.reference_id@,
            h.address@,
            h.msa_id@,
            h.handle@,
        ),
    }
}

/// The echoed wire shape of an object that decodes: the variant its
/// discriminant names, carrying exactly the object's member values.
pub open spec fn decoded_webhook_json(fields: Seq<(String, JsonValue)>) -> Seq<char> {
    if (lookup(fields, "transactionType"@) matches Option::Some(JsonValue::Str(t)) && t@
        == "SIWFSignup"@) {
        signup_json(
            field_string(fields, "referenceId"@),
            field_string(fields, "accountId"@),
            field_string(fields, "msaId"@),
            field_string(fields, "handle"@),
            field_string(fields, "providerId"@),
        )
    } else {
        handle_change_json(
            field_string(fields, "reference_id"@),
            field_string(fields, "address"@),
            field_string(fields, "msa_id"@),
            field_string(fields, "handle"@),
        )
    }
}

/// The whole answer of the echo endpoint for a given body, in its
/// discriminated form: status and response text.
pub open spec fn webhook_response(body: Seq<char>) -> (int, Seq<char>) {
    match parsed_json(body) {
        Result::Err(e) => (400int, json_error_msg(e)),
        Result::Ok(fields) => match webhook_failure(fields) {
            Option::Some(m) => (400int, m),
            Option::None => (201int, decoded_webhook_json(fields)),
        },
    }
}

/// The whole answer of the echo endpoint for a given body, in its flat
/// single-shape form: status and response text.
pub open spec fn flat_webhook_response(body: Seq<char>) -> (int, Seq<char>) {
    match parsed_json(body) {
        Result::Err(e) => (400int, json_error_msg(e)),
        Result::Ok(fields) => match handle_change_failure(fields) {
            Option::Some(m) => (400int, m),
            Option::None => (
                201int,
                echo_json(
                    field_string(fields, "reference_id"@),
                    field_string(fields, "address"@),
                    field_string(fields, "msa_id"@),
                    field_string(fields, "handle"@),
                ),
            ),
        },
    }
}

/// The health endpoint's body for its report.
pub fn serialize_health(h: &HealthResponse) -> (r: String)
    ensures
        r@ == health_json(h.message@),
{
    let mut out = String::from_str("{\"message\":");
    out.append(quote_json(h.message.as_str()).as_str());
    out.append("}");
    out
}

/// The flat echo body for a normalized payload.
pub fn serialize_echo_payload(p: &EchoPayload) -> (r: String)
    ensures
        r@ == echo_json(p.reference_id@, p.address@, p.msa_id@, p.handle@),
{
    let mut out = String::from_str("{\"reference_id\":");
    out.append(quote_json(p.reference_id.as_str()).as_str());
    out.append(",\"address\":");
    out.append(quote_json(p.address.as_str()).as_str());
    out.append(",\"msa_id\":");
    out.append(quote_json(p.msa_id.as_str()).as_str());
    out.append(",\"handle\":");
    out.append(quote_json(p.handle.as_str()).as_str());
    out.append("}");
    out
}

/// The wire text of a decoded callback, as it is echoed back.
pub fn serialize_webhook(event: &WebhookCallback) -> (r: String)
    ensures
        r@ == webhook_json(*event),
{
    match event {
        WebhookCallback::SIWFSignup(s) => {
            let mut out = String::from_str("{\"transactionType\":\"SIWFSignup\",\"referenceId\":");
            out.append(quote_json(s.reference_id.as_str()).as_str());
            out.append(",\"accountId\":");
            out.append(quote_json(s.account_id.as_str()).as_str());
            out.append(",\"msaId\":");
            out.append(quote_json(s.msa_id.as_str()).as_str());
            out.append(",\"handle\":");
            out.append(quote_json(s.handle.as_str()).as_str());
            out.append(",\"providerId\":");
            out.append(quote_json(s.provider_id.as_str()).as_str());
            out.append("}");
            out
        },
        WebhookCallback::HandleChange(h) => {
            let mut out = String::from_str(
                "{\"transactionType\":\"HandleChange\",\"reference_id\":",
            );
            out.append(quote_json(h.reference_id.as_str()).as_str());
            out.append(",\"address\":");
            out.append(quote_json(h.address.as_str()).as_str());
            out.append(",\"msa_id\":");
            out.append(quote_json(h.msa_id.as_str()).as_str());
            out.append(",\"handle\":");
            out.append(quote_json(h.handle.as_str()).as_str());
            out.append("}");
            out
        },
    }
}

/// The echo endpoint in its discriminated form: decode the body, echo the
/// event back in its wire shape with a "created" status, or answer "bad
/// request" with the first validation failure.
pub fn handle_webhook(body: &str) -> (r: (u16, String))
    ensures
        r.0 as int == webhook_response(body@).0,
        r.1@ == webhook_response(body@).1,
{
    match decode_webhook(body) {
        Result::Err(e) => (400, e.message),
        Result::Ok(event) => {
            proof {
                reveal_strlit("SIWFSignup");
                reveal_strlit("HandleChange");
                assert("SIWFSignup"@.len() == 10);
                assert("HandleChange"@.len() == 12);
            }
            (201, serialize_webhook(&event))
        },
    }
}

/// The echo endpoint in its flat single-shape form: the body carries the
/// four normalized members and no discriminant, and is echoed back as a
/// normalized payload.
pub fn handle_webhook_flat(body: &str) -> (r: (u16, String))
    ensures
        r.0 as int == flat_webhook_response(body@).0,
        r.1@ == flat_webhook_response(body@).1,
{
    match parse_json_object(body) {
        Result::Err(JsonError::Syntax) => (400, String::from_str("invalid JSON")),
        Result::Err(JsonError::NotObject) => (400, String::from_str("expected a JSON object")),
        Result::Ok(fields) => match decode_echo_fields(&fields) {
            Result::Err(e) => (400, e.message),
            Result::Ok(payload) => (201, serialize_echo_payload(&payload)),
        },
    }
}

/// The echo endpoint, discriminated form, answers "created" exactly when the
/// body parses as an object that decodes; every other body is answered "bad
/// request", and no third status exists.
pub proof fn lemma_webhook_status(body: Seq<char>)
    ensures
        (webhook_response(body).0 == 201) <==> (parsed_json(body) matches Result::Ok(fields)
            && webhook_failure(fields) is None),
        webhook_response(body).0 == 201 || webhook_response(body).0 == 400,
{
}

/// The echo endpoint, flat form, answers "created" exactly when the body
/// parses as an object carrying all four normalized members as strings;
/// every other body is answered "bad request", and no third status exists.
pub proof fn lemma_flat_webhook_status(body: Seq<char>)
    ensures
        (flat_webhook_response(body).0 == 201) <==> (parsed_json(body) matches Result::Ok(fields)
            && handle_change_failure(fields) is None),
        flat_webhook_response(body).0 == 201 || flat_webhook_response(body).0 == 400,
{
}

/// An object without the discriminant member never decodes: the
/// discriminated echo endpoint rejects it.
pub proof fn lemma_missing_discriminant_rejected(fields: Seq<(String, JsonValue)>)
    requires
        lookup(fields, "transactionType"@) is None,
    ensures
        webhook_failure(fields) is Some,
{
}

/// A signup callback with any required member absent never decodes.
pub proof fn lemma_signup_missing_field_rejected(fields: Seq<(String, JsonValue)>)
    requires
        lookup(fields, "referenceId"@) is None || lookup(fields, "accountId"@) is None || lookup(
            fields,
            "msaId"@,
        ) is None || lookup(fields, "handle"@) is None || lookup(fields, "providerId"@) is None,
    ensures
        (lookup(fields, "transactionType"@) matches Option::Some(JsonValue::Str(t)) && t@
            == "SIWFSignup"@) ==> webhook_failure(fields) is Some,
{
}

/// A handle-change callback with any required member absent never decodes,
/// and neither does a flat body with any normalized member absent.
pub proof fn lemma_handle_change_missing_field_rejected(fields: Seq<(String, JsonValue)>)
    requires
        lookup(fields, "reference_id"@) is None || lookup(fields, "address"@) is None || lookup(
            fields,
            "msa_id"@,
        ) is None || lookup(fields, "handle"@) is None,
    ensures
        handle_change_failure(fields) is Some,
        (lookup(fields, "transactionType"@) matches Option::Some(JsonValue::Str(t)) && t@
            == "HandleChange"@) ==> webhook_failure(fields) is Some,
{
    reveal_strlit("SIWFSignup");
    reveal_strlit("HandleChange");
    assert("SIWFSignup"@.len() == 10);
    assert("HandleChange"@.len() == 12);
}

/// No incomplete body is ever answered with success: a body that does not
/// parse as an object, an object without the discriminant member, and an
/// object whose chosen variant is missing any required member all get "bad
/// request" from the discriminated echo endpoint.
pub proof fn lemma_incomplete_body_never_succeeds(body: Seq<char>)
    ensures
        parsed_json(body) is Err ==> webhook_response(body).0 == 400,
        (parsed_json(body) matches Result::Ok(f) && lookup(f, "transactionType"@) is None)
            ==> webhook_response(body).0 == 400,
        (parsed_json(body) matches Result::Ok(f) && webhook_failure(f) is Some)
            ==> webhook_response(body).0 == 400,
{
}

/// Round-trip identity of the flat echo: a body that decodes is answered
/// with exactly the four member values it carried, each in its place.
pub proof fn lemma_flat_echo_identity(body: Seq<char>, fields: Seq<(String, JsonValue)>)
    requires
        parsed_json(body) matches Result::Ok(f) && f == fields,
        handle_change_failure(fields) is None,
    ensures
        flat_webhook_response(body).0 == 201,
        flat_webhook_response(body).1 == echo_json(
            field_string(fields, "reference_id"@),
            field_string(fields, "address"@),
            field_string(fields, "msa_id"@),
            field_string(fields, "handle"@),
        ),
{
}

/// The health body, written out: whatever came before and whatever else is
/// in flight, the health endpoint's text is this one constant.
pub proof fn lemma_health_body_literal()
    ensures
        health_json("Server is healthy"@) == "{\"message\":\"Server is healthy\"}"@,
{
    reveal_strlit("Server is healthy");
    reveal_strlit("{\"message\":");
    reveal_strlit("}");
    reveal_strlit("{\"message\":\"Server is healthy\"}");
    assert(forall|i: int|
        0 <= i < "Server is healthy"@.len() ==> plain_char(#[trigger] "Server is healthy"@[i]));
    lemma_escaped_plain("Server is healthy"@);
    assert(health_json("Server is healthy"@) =~= "{\"message\":\"Server is healthy\"}"@);
}

/// The health endpoint: always "ok" with the constant liveness body.
pub fn handle_health() -> (r: (u16, String))
    ensures
        r.0 == 200u16,
        r.1@ == health_json("Server is healthy"@),
{
    let h = health_check();
    (200, serialize_health(&h))
}

} // verus!
