//! The webhook data model and the decoder that builds it from a parsed
//! request body. An inbound callback is one of two known shapes, told apart
//! by the `transactionType` member; every declared member is a mandatory
//! string. Decoding either yields a fully populated event or reports the
//! first failure it meets, in a fixed order: the discriminant, then the
//! chosen variant's members in their declared order.

use vstd::prelude::*;

use crate::json::{json_error_msg, lookup, parse_json_object, parsed_json, JsonError, JsonValue};

verus! {

/// The liveness report of the health endpoint.
#[derive(Debug, Clone, PartialEq, Eq)]
pub struct HealthResponse {
    pub message: String,
}

/// One inbound webhook callback, told apart by its `transactionType` member.
#[derive(Debug, Clone, PartialEq, Eq)]
pub enum WebhookCallback {
    SIWFSignup(SIWFSignup),
    HandleChange(HandleChange),
}

/// A sign-in-with-Frequency signup callback. Its wire members are camelCase.
#[derive(Debug, Clone, PartialEq, Eq)]
pub struct SIWFSignup {
    pub reference_id: String,
    pub account_id: String,
    pub msa_id: String,
    pub handle: String,
    pub provider_id: String,
}

/// A handle-change callback. Its wire members are snake_case.
#[derive(Debug, Clone, PartialEq, Eq)]
pub struct HandleChange {
    pub reference_id: String,
    pub address: String,
    pub msa_id: String,
    pub handle: String,
}

/// The flat projection the echo endpoint answers with.
#[derive(Debug, Clone, PartialEq, Eq)]
pub struct EchoPayload {
    pub reference_id: String,
    pub address: String,
    pub msa_id: String,
    pub handle: String,
}

/// Why a request body was rejected, as the caller is told.
#[derive(Debug, Clone, PartialEq, Eq)]
pub struct ValidationError {
    pub message: String,
}

/// The report for a member that is absent from the object.
pub open spec fn missing_field_msg(key: Seq<char>) -> Seq<char> {
    "missing field "@ + key
}

/// The report for a member that is present but not a string.
pub open spec fn not_string_msg(key: Seq<char>) -> Seq<char> {
    "field "@ + key + ": expected a string"@
}

/// The report for a discriminant value that names no known variant.
pub open spec fn unknown_tag_msg(tag: Seq<char>) -> Seq<char> {
    "unknown transactionType: "@ + tag
}

/// What is wrong with one required string member: absent, or not a string.
/// `None` means the member is present and is a string.
pub open spec fn field_failure(fields: Seq<(String, JsonValue)>, key: Seq<char>) -> Option<
    Seq<char>,
> {
    match lookup(fields, key) {
        Option::None => Option::Some(missing_field_msg(key)),
        Option::Some(JsonValue::Str(_)) => Option::None,
        Option::Some(_) => Option::Some(not_string_msg(key)),
    }
}

/// The contents of a string member; meaningful only where `field_failure`
/// reports nothing.
pub open spec fn field_string(fields: Seq<(String, JsonValue)>, key: Seq<char>) -> Seq<char> {
    match lookup(fields, key) {
        Option::Some(JsonValue::Str(s)) => s@,
        _ => Seq::empty(),
    }
}

/// The earlier of two possible failures.
pub open spec fn first_some(a: Option<Seq<char>>, b: Option<Seq<char>>) -> Option<Seq<char>> {
    if a is Some {
        a
    } else {
        b
    }
}

/// The first failure among a signup callback's members, in declared order.
pub open spec fn signup_failure(fields: Seq<(String, JsonValue)>) -> Option<Seq<char>> {
    first_some(
        field_failure(fields, "referenceId"@),
        first_some(
            field_failure(fields, "accountId"@),
            first_some(
                field_failure(fields, "msaId"@),
                first_some(
                    field_failure(fields, "handle"@),
                    field_failure(fields, "providerId"@),
                ),
            ),
        ),
    )
}

/// The first failure among a handle-change callback's members, in declared
/// order.
pub open spec fn handle_change_failure(fields: Seq<(String, JsonValue)>) -> Option<Seq<char>> {
    first_some(
        field_failure(fields, "reference_id"@),
        first_some(
            field_failure(fields, "address"@),
            first_some(
                field_failure(fields, "msa_id"@),
                field_failure(fields, "handle"@),
            ),
        ),
    )
}

/// The first failure anywhere in a webhook object: the discriminant itself,
/// then the chosen variant's members. `None` means the object decodes.
pub open spec fn webhook_failure(fields: Seq<(String, JsonValue)>) -> Option<Seq<char>> {
    match lookup(fields, "transactionType"@) {
        Option::None => Option::Some(missing_field_msg("transactionType"@)),
        Option::Some(JsonValue::Str(tag)) => if tag@ == "SIWFSignup"@ {
            signup_failure(fields)
        } else if tag@ == "HandleChange"@ {
            handle_change_failure(fields)
        } else {
            Option::Some(unknown_tag_msg(tag@))
        },
        Option::Some(_) => Option::Some(not_string_msg("transactionType"@)),
    }
}

/// The event carries exactly the object's values: its variant is the one the
/// discriminant names, and each of its fields holds that member's string.
pub open spec fn event_matches_fields(
    fields: Seq<(String, JsonValue)>,
    event: WebhookCallback,
) -> bool {
    match event {
        WebhookCallback::SIWFSignup(s) => (lookup(fields, "transactionType"@) matches Option::Some(
            JsonValue::Str(t),
        ) && t@ == "SIWFSignup"@) && s.reference_id@ == field_string(fields, "referenceId"@)
            && s.account_id@ == field_string(fields, "accountId"@) && s.msa_id@ == field_string(
            fields,
            "msaId"@,
        ) && s.handle@ == field_string(fields, "handle"@) && s.provider_id@ == field_string(
            fields,
            "providerId"@,
        ),
        WebhookCallback::HandleChange(h) => (lookup(
            fields,
            "transactionType"@,
        ) matches Option::Some(JsonValue::Str(t)) && t@ == "HandleChange"@) && h.reference_id@
            == field_string(fields, "reference_id"@) && h.address@ == field_string(
            fields,
            "address"@,
        ) && h.msa_id@ == field_string(fields, "msa_id"@) && h.handle@ == field_string(
            fields,
            "handle"@,
        ),
    }
}

proof fn lemma_lookup_skip(fields: Seq<(String, JsonValue)>, key: Seq<char>, i: int)
    requires
        0 <= i <= fields.len(),
        forall|j: int| 0 <= j < i ==> fields[j].0@ != key,
    ensures
        lookup(fields, key) == lookup(fields.skip(i), key),
    decreases i,
{
    if i > 0 {
        assert(fields[0].0@ != key);
        assert(lookup(fields, key) == lookup(fields.drop_first(), key));
        assert(forall|j: int|
            0 <= j < i - 1 ==> #[trigger] fields.drop_first()[j].0@ == fields[j + 1].0@);
        lemma_lookup_skip(fields.drop_first(), key, i - 1);
        assert(fields.drop_first().skip(i - 1) =~= fields.skip(i));
    } else {
        assert(fields.skip(0) =~= fields);
    }
}

fn string_eq_str(a: &String, b: &str) -> (r: bool)
    ensures
        r == (a@ == b@),
{
    *a == b.to_owned()
}

/// The position of the first field named `key`, if any.
fn find_field(fields: &Vec<(String, JsonValue)>, key: &str) -> (r: Option<usize>)
    ensures
        (match r {
            Option::Some(i) => i < fields@.len() && fields@[i as int].0@ == key@ && lookup(
                fields@,
                key@,
            ) == Option::Some(fields@[i as int].1),
            Option::None => lookup(fields@, key@) is None,
        }),
{
    let mut i: usize = 0;
    while i < fields.len()
        invariant
            i <= fields@.len(),
            forall|j: int| 0 <= j < i ==> fields@[j].0@ != key@,
        decreases fields@.len() - i,
    {
        if string_eq_str(&fields[i].0, key) {
            proof {
                lemma_lookup_skip(fields@, key@, i as int);
                assert(fields@.skip(i as int)[0] == fields@[i as int]);
            }
            return Some(i);
        }
        i = i + 1;
    }
    proof {
        lemma_lookup_skip(fields@, key@, fields@.len() as int);
    }
    None
}

fn missing_field_err(key: &str) -> (e: ValidationError)
    ensures
        e.message@ == missing_field_msg(key@),
{
    let mut m = String::from_str("missing field ");
    m.append(key);
    ValidationError { message: m }
}

fn not_string_err(key: &str) -> (e: ValidationError)
    ensures
        e.message@ == not_string_msg(key@),
{
    let mut m = String::from_str("field ");
    m.append(key);
    m.append(": expected a string");
    ValidationError { message: m }
}

fn unknown_tag_err(tag: &String) -> (e: ValidationError)
    ensures
        e.message@ == unknown_tag_msg(tag@),
{
    let mut m = String::from_str("unknown transactionType: ");
    m.append(tag.as_str());
    ValidationError { message: m }
}

/// The contents of the required string member `key`, or the first thing
/// wrong with it.
fn get_string_field(fields: &Vec<(String, JsonValue)>, key: &str) -> (r: Result<
    String,
    ValidationError,
>)
    ensures
        (match r {
            Result::Ok(s) => field_failure(fields@, key@) is None && s@ == field_string(
                fields@,
                key@,
            ),
            Result::Err(e) => field_failure(fields@, key@) matches Option::Some(m) && e.message@
                == m,
        }),
{
    match find_field(fields, key) {
        Option::None => Err(missing_field_err(key)),
        Option::Some(i) => match &fields[i].1 {
            JsonValue::Str(s) => Ok(s.clone()),
            _ => Err(not_string_err(key)),
        },
    }
}

fn decode_signup(fields: &Vec<(String, JsonValue)>) -> (r: Result<WebhookCallback, ValidationError>)
    requires
        (lookup(fields@, "transactionType"@) matches Option::Some(JsonValue::Str(t)) && t@
            == "SIWFSignup"@),
    ensures
        (match r {
            Result::Ok(event) => signup_failure(fields@) is None && event_matches_fields(
                fields@,
                event,
            ),
            Result::Err(e) => signup_failure(fields@) matches Option::Some(m) && e.message@ == m,
        }),
{
    let reference_id = match get_string_field(fields, "referenceId") {
        Ok(s) => s,
        Err(e) => { return Err(e) },
    };
    let account_id = match get_string_field(fields, "accountId") {
        Ok(s) => s,
        Err(e) => { return Err(e) },
    };
    let msa_id = match get_string_field(fields, "msaId") {
        Ok(s) => s,
        Err(e) => { return Err(e) },
    };
    let handle = match get_string_field(fields, "handle") {
        Ok(s) => s,
        Err(e) => { return Err(e) },
    };
    let provider_id = match get_string_field(fields, "providerId") {
        Ok(s) => s,
        Err(e) => { return Err(e) },
    };
    Ok(
        WebhookCallback::SIWFSignup(
            SIWFSignup { reference_id, account_id, msa_id, handle, provider_id },
        ),
    )
}

fn decode_handle_change(fields: &Vec<(String, JsonValue)>) -> (r: Result<
    WebhookCallback,
    ValidationError,
>)
    requires
        (lookup(fields@, "transactionType"@) matches Option::Some(JsonValue::Str(t)) && t@
            == "HandleChange"@),
    ensures
        (match r {
            Result::Ok(event) => handle_change_failure(fields@) is None && event_matches_fields(
                fields@,
                event,
            ),
            Result::Err(e) => handle_change_failure(fields@) matches Option::Some(m) && e.message@
                == m,
        }),
{
    let reference_id = match get_string_field(fields, "reference_id") {
        Ok(s) => s,
        Err(e) => { return Err(e) },
    };
    let address = match get_string_field(fields, "address") {
        Ok(s) => s,
        Err(e) => { return Err(e) },
    };
    let msa_id = match get_string_field(fields, "msa_id") {
        Ok(s) => s,
        Err(e) => { return Err(e) },
    };
    let handle = match get_string_field(fields, "handle") {
        Ok(s) => s,
        Err(e) => { return Err(e) },
    };
    Ok(WebhookCallback::HandleChange(HandleChange { reference_id, address, msa_id, handle }))
}

/// Decode one parsed webhook object, or report the first failure: the
/// discriminant must be present, a string, and a known variant name, and the
/// chosen variant's members must each be a present string.
pub fn decode_webhook_fields(fields: &Vec<(String, JsonValue)>) -> (r: Result<
    WebhookCallback,
    ValidationError,
>)
    ensures
        (match r {
            Result::Ok(event) => webhook_failure(fields@) is None && event_matches_fields(
                fields@,
                event,
            ),
            Result::Err(e) => webhook_failure(fields@) matches Option::Some(m) && e.message@ == m,
        }),
{
    match find_field(fields, "transactionType") {
        Option::None => Err(missing_field_err("transactionType")),
        Option::Some(i) => match &fields[i].1 {
            JsonValue::Str(tag) => {
                if string_eq_str(tag, "SIWFSignup") {
                    decode_signup(fields)
                } else if string_eq_str(tag, "HandleChange") {
                    decode_handle_change(fields)
                } else {
                    Err(unknown_tag_err(tag))
                }
            },
            _ => Err(not_string_err("transactionType")),
        },
    }
}

/// Decode one parsed body of the flat single-shape contract: no
/// discriminant, just the four normalized members, each a mandatory string.
/// The required members are exactly a handle-change callback's, so the same
/// failure order applies.
pub fn decode_echo_fields(fields: &Vec<(String, JsonValue)>) -> (r: Result<
    EchoPayload,
    ValidationError,
>)
    ensures
        (match r {
            Result::Ok(p) => handle_change_failure(fields@) is None && p.reference_id@
                == field_string(fields@, "reference_id"@) && p.address@ == field_string(
                fields@,
                "address"@,
            ) && p.msa_id@ == field_string(fields@, "msa_id"@) && p.handle@ == field_string(
                fields@,
                "handle"@,
            ),
            Result::Err(e) => handle_change_failure(fields@) matches Option::Some(m) && e.message@
                == m,
        }),
{
    let reference_id = match get_string_field(fields, "reference_id") {
        Ok(s) => s,
        Err(e) => { return Err(e) },
    };
    let address = match get_string_field(fields, "address") {
        Ok(s) => s,
        Err(e) => { return Err(e) },
    };
    let msa_id = match get_string_field(fields, "msa_id") {
        Ok(s) => s,
        Err(e) => { return Err(e) },
    };
    let handle = match get_string_field(fields, "handle") {
        Ok(s) => s,
        Err(e) => { return Err(e) },
    };
    Ok(EchoPayload { reference_id, address, msa_id, handle })
}

/// The payload decoder, from the raw request body: parse the text as a JSON
/// object, then decode the object. The error carries the first failure met:
/// the text itself, the discriminant, or the chosen variant's members in
/// declared order.
pub fn decode_webhook(body: &str) -> (r: Result<WebhookCallback, ValidationError>)
    ensures
        (match parsed_json(body@) {
            Result::Err(je) => r matches Result::Err(e) && e.message@ == json_error_msg(je),
            Result::Ok(fields) => (match r {
                Result::Ok(event) => webhook_failure(fields) is None && event_matches_fields(
                    fields,
                    event,
                ),
                Result::Err(e) => webhook_failure(fields) matches Option::Some(m) && e.message@
                    == m,
            }),
        }),
{
    match parse_json_object(body) {
        Result::Err(JsonError::Syntax) => Err(
            ValidationError { message: String::from_str("invalid JSON") },
        ),
        Result::Err(JsonError::NotObject) => Err(
            ValidationError { message: String::from_str("expected a JSON object") },
        ),
        Result::Ok(fields) => decode_webhook_fields(&fields),
    }
}

/// The echo endpoint's core: the decoded event is handed back verbatim.
pub fn echo_payload(body: WebhookCallback) -> (r: WebhookCallback)
    ensures
        r == body,
{
    body
}

impl HandleChange {
    /// The flat projection of a handle-change event: each of the four
    /// normalized fields equals the event's field of the same name.
    pub fn normalize(&self) -> (r: EchoPayload)
        ensures
            r.reference_id == self.reference_id,
            r.address == self.address,
            r.msa_id == self.msa_id,
            r.handle == self.handle,
    {
        EchoPayload {
            reference_id: self.reference_id.clone(),
            address: self.address.clone(),
            msa_id: self.msa_id.clone(),
            handle: self.handle.clone(),
        }
    }
}

/// The health endpoint's core: the constant liveness report.
pub fn health_check() -> (r: HealthResponse)
    ensures
        r.message@ == "Server is healthy"@,
{
    HealthResponse { message: String::from_str("Server is healthy") }
}

} // verus!
