use vstd::prelude::*;

use crate::error_code::{
    code_name, decodes_to, is_known_code, lemma_known_code_name_decodes, YandexErrorCode,
};
use crate::json::{
    json_object_members, json_optional_text, json_optional_text_list, object_members,
    optional_text, optional_text_list, pairs_view, texts_view,
};
use crate::text::{int_text, text_eq, unsigned_text};

verus! {

#[verifier::external_type_specification]
#[verifier::external_body]
pub struct ExReqwestError(reqwest::Error);

#[verifier::external_type_specification]
#[verifier::external_body]
pub struct ExMiddlewareError(reqwest_middleware::Error);

#[verifier::external_type_specification]
#[verifier::external_body]
pub struct ExJsonError(serde_json::Error);

#[verifier::external_type_specification]
#[verifier::external_body]
pub struct ExQsError(serde_qs::Error);

/// The error body that the service sends with a failure status.
#[derive(Debug, Clone)]
pub struct YandexApiErrorResponse {
    /// The code of the error condition.
    pub error_code: YandexErrorCode,
    /// A message for people.
    pub error_message: String,
    /// The content types that the resource accepts (with a 406 status).
    pub acceptable_types: Option<Vec<String>>,
    /// Until when an upload address was valid (with a 410 status).
    pub valid_until: Option<String>,
}

/// What can go wrong in a call of the service.
#[derive(Debug)]
pub enum YandexWebmasterError {
    /// The request could not be sent, or the response not received.
    HttpError(reqwest::Error),
    /// The request failed in the transport's middleware.
    MiddlewareHttpError(reqwest_middleware::Error),
    /// A success body, or a request body, did not fit its JSON shape.
    ParseError(serde_json::Error),
    /// A query filter could not be encoded.
    SerdeQsError(serde_qs::Error),
    /// The authorization header could not be built.
    MiddlewareError(String),
    /// The credential was refused.
    AuthenticationError,
    /// The service answered with a failure status and a structured error body.
    ApiError { status: u16, response: YandexApiErrorResponse },
    /// The service answered with a failure status and a body of another
    /// shape, kept as it came.
    GenericApiError { status: u16, message: String },
}

/// The fields of a structured error body, as texts.
pub struct ErrorBody {
    /// The text of the code.
    pub code: Seq<char>,
    /// The message.
    pub message: Seq<char>,
    /// The acceptable content types, where given.
    pub acceptable_types: Option<Seq<Seq<char>>>,
    /// The end of validity, where given.
    pub valid_until: Option<Seq<char>>,
}

/// The JSON text of the first member named `key`.
pub open spec fn member_value(members: Seq<(Seq<char>, Seq<char>)>, key: Seq<char>) -> Option<
    Seq<char>,
>
    decreases members.len(),
{
    if members.len() == 0 {
        None
    } else if members[0].0 == key {
        Some(members[0].1)
    } else {
        member_value(members.drop_first(), key)
    }
}

/// The string that member `key` must hold; `None` where it is missing or
/// is not a string.
pub open spec fn required_text_of(members: Seq<(Seq<char>, Seq<char>)>, key: Seq<char>) -> Option<
    Seq<char>,
> {
    match member_value(members, key) {
        Some(raw) => match json_optional_text(raw) {
            Some(Some(t)) => Some(t),
            _ => None,
        },
        None => None,
    }
}

/// The optional string in member `key`: `Some(None)` where it is missing or
/// `null`; `None` where it holds something else than a string.
pub open spec fn optional_text_of(members: Seq<(Seq<char>, Seq<char>)>, key: Seq<char>) -> Option<
    Option<Seq<char>>,
> {
    match member_value(members, key) {
        Some(raw) => json_optional_text(raw),
        None => Some(None),
    }
}

/// The optional list of strings in member `key`, in the same manner.
pub open spec fn optional_text_list_of(
    members: Seq<(Seq<char>, Seq<char>)>,
    key: Seq<char>,
) -> Option<Option<Seq<Seq<char>>>> {
    match member_value(members, key) {
        Some(raw) => json_optional_text_list(raw),
        None => Some(None),
    }
}

/// The structured error that an object with these members holds: the string
/// members `error_code` and `error_message` are required, `acceptable_types`
/// and `valid_until` are optional, and any other member is ignored.
pub open spec fn error_body_of(members: Seq<(Seq<char>, Seq<char>)>) -> Option<ErrorBody> {
    match (
        required_text_of(members, "error_code"@),
        required_text_of(members, "error_message"@),
        optional_text_list_of(members, "acceptable_types"@),
        optional_text_of(members, "valid_until"@),
    ) {
        (Some(code), Some(message), Some(acceptable_types), Some(valid_until)) => Some(
            ErrorBody { code, message, acceptable_types, valid_until },
        ),
        _ => None,
    }
}

/// The structured error that a body text holds, if it holds one.
pub open spec fn structured_error_of(text: Seq<char>) -> Option<ErrorBody> {
    match json_object_members(text) {
        Some(members) => error_body_of(members),
        None => None,
    }
}

/// The view of an optional string.
pub open spec fn optional_text_view(t: Option<String>) -> Option<Seq<char>> {
    match t {
        Some(s) => Some(s@),
        None => None,
    }
}

/// The view of an optional list of strings.
pub open spec fn optional_texts_view(t: Option<Vec<String>>) -> Option<Seq<Seq<char>>> {
    match t {
        Some(v) => Some(texts_view(v@)),
        None => None,
    }
}

/// Whether `r` holds the fields of `b`, its code decoded from `b`'s text.
pub open spec fn response_matches(r: YandexApiErrorResponse, b: ErrorBody) -> bool {
    &&& decodes_to(b.code, r.error_code)
    &&& r.error_message@ == b.message
    &&& optional_texts_view(r.acceptable_types) == b.acceptable_types
    &&& optional_text_view(r.valid_until) == b.valid_until
}

/// Whether `e` is how a failure response with this status and readable body
/// text is classified: the structured error where the body holds one, else
/// the generic error with the text as it came.
pub open spec fn classifies(status: u16, text: Seq<char>, e: YandexWebmasterError) -> bool {
    match structured_error_of(text) {
        Some(b) => e matches YandexWebmasterError::ApiError { status: s, response } && s
            == status && response_matches(response, b),
        None => e matches YandexWebmasterError::GenericApiError { status: s, message } && s
            == status && message@ == text,
    }
}

/// The prefix of the message of a failure response whose body could not be read.
pub open spec fn unreadable_prefix() -> Seq<char> {
    "Failed to read error response: "@
}

/// Whether `e` is how a failure response with this status and body is
/// classified; an unreadable body gives a generic error that says so.
pub open spec fn failure_of(
    status: u16,
    body: Result<String, reqwest::Error>,
    e: YandexWebmasterError,
) -> bool {
    match body {
        Ok(text) => classifies(status, text@, e),
        Err(_) => e matches YandexWebmasterError::GenericApiError { status: s, message } && s
            == status && message@.len() >= unreadable_prefix().len() && message@.subrange(
            0,
            unreadable_prefix().len() as int,
        ) == unreadable_prefix(),
    }
}

/// A minimal error body, an object with only the string members
/// `error_code` and `error_message`, decodes to a structured error that
/// holds the decoded code and the message verbatim, and no optional field.
proof fn lemma_minimal_body(
    text: Seq<char>,
    code_raw: Seq<char>,
    code: Seq<char>,
    message_raw: Seq<char>,
    message: Seq<char>,
)
    requires
        json_object_members(text) == Some(
            seq![("error_code"@, code_raw), ("error_message"@, message_raw)],
        ),
        json_optional_text(code_raw) == Some(Some(code)),
        json_optional_text(message_raw) == Some(Some(message)),
    ensures
        structured_error_of(text) == Some(
            ErrorBody { code, message, acceptable_types: None, valid_until: None },
        ),
{
    reveal_strlit("error_code");
    reveal_strlit("error_message");
    reveal_strlit("acceptable_types");
    reveal_strlit("valid_until");
    let members = seq![("error_code"@, code_raw), ("error_message"@, message_raw)];
    assert("error_message"@[6] != "error_code"@[6]);
    assert("acceptable_types"@[0] != "error_code"@[0]);
    assert("acceptable_types"@[0] != "error_message"@[0]);
    assert("valid_until"@[0] != "error_code"@[0]);
    assert("valid_until"@[0] != "error_message"@[0]);
    assert(members.drop_first().drop_first().len() == 0);
    reveal_with_fuel(member_value, 3);
    assert(member_value(members, "error_code"@) == Some(code_raw));
    assert(member_value(members, "error_message"@) == Some(message_raw));
    assert(member_value(members, "acceptable_types"@) is None);
    assert(member_value(members, "valid_until"@) is None);
}

/// For every known code, a minimal error body naming it decodes to that
/// code's entry of the taxonomy, with the message kept verbatim.
pub proof fn lemma_known_code_body(
    c: YandexErrorCode,
    text: Seq<char>,
    code_raw: Seq<char>,
    message_raw: Seq<char>,
    message: Seq<char>,
    r: YandexApiErrorResponse,
)
    requires
        !(c is Unknown),
        json_object_members(text) == Some(
            seq![("error_code"@, code_raw), ("error_message"@, message_raw)],
        ),
        json_optional_text(code_raw) == Some(Some(code_name(c))),
        json_optional_text(message_raw) == Some(Some(message)),
        structured_error_of(text) is Some,
        response_matches(r, structured_error_of(text)->Some_0),
    ensures
        r.error_code == c,
        r.error_message@ == message,
        r.acceptable_types is None,
        r.valid_until is None,
{
    lemma_minimal_body(text, code_raw, code_name(c), message_raw, message);
    lemma_known_code_name_decodes(c);
}

/// A minimal error body whose code is outside the known set still decodes:
/// to the fallback entry, which carries the code exactly as sent.
pub proof fn lemma_unknown_code_body(
    code: Seq<char>,
    text: Seq<char>,
    code_raw: Seq<char>,
    message_raw: Seq<char>,
    message: Seq<char>,
)
    requires
        !is_known_code(code),
        json_object_members(text) == Some(
            seq![("error_code"@, code_raw), ("error_message"@, message_raw)],
        ),
        json_optional_text(code_raw) == Some(Some(code)),
        json_optional_text(message_raw) == Some(Some(message)),
    ensures
        structured_error_of(text) is Some,
        forall|r: YandexApiErrorResponse|
            response_matches(r, #[trigger] structured_error_of(text)->Some_0) ==> {
                &&& r.error_code is Unknown
                &&& code_name(r.error_code) == code
                &&& r.error_message@ == message
            },
{
    lemma_minimal_body(text, code_raw, code, message_raw, message);
}

/// The text of the first member named `key`.
fn find_member(members: &Vec<(String, String)>, key: &str) -> (r: Option<String>)
    ensures
        match member_value(pairs_view(members@), key@) {
            None => r is None,
            Some(v) => r is Some && r->Some_0@ == v,
        },
{
    let ghost all = pairs_view(members@);
    let mut i: usize = 0;
    assert(all.subrange(0, all.len() as int) == all);
    while i < members.len()
        invariant
            i <= members@.len(),
            all == pairs_view(members@),
            member_value(all, key@) == member_value(all.subrange(i as int, all.len() as int), key@),
        decreases members.len() - i,
    {
        if text_eq(members[i].0.as_str(), key) {
            return Some(members[i].1.clone());
        }
        assert(all.subrange(i as int, all.len() as int).drop_first() == all.subrange(
            i + 1,
            all.len() as int,
        ));
        i = i + 1;
    }
    assert(all.subrange(i as int, all.len() as int).len() == 0);
    None
}

/// The string that member `key` must hold.
fn required_member_text(members: &Vec<(String, String)>, key: &str) -> (r: Option<String>)
    ensures
        optional_text_view(r) == required_text_of(pairs_view(members@), key@),
{
    match find_member(members, key) {
        None => None,
        Some(raw) => match optional_text(raw.as_str()) {
            Some(Some(t)) => Some(t),
            _ => None,
        },
    }
}

/// The optional string in member `key`; `None` where it is malformed.
fn optional_member_text(members: &Vec<(String, String)>, key: &str) -> (r: Option<Option<String>>)
    ensures
        match optional_text_of(pairs_view(members@), key@) {
            None => r is None,
            Some(t) => r is Some && optional_text_view(r->Some_0) == t,
        },
{
    match find_member(members, key) {
        None => Some(None),
        Some(raw) => optional_text(raw.as_str()),
    }
}

/// The optional list of strings in member `key`; `None` where it is malformed.
fn optional_member_text_list(members: &Vec<(String, String)>, key: &str) -> (r: Option<
    Option<Vec<String>>,
>)
    ensures
        match optional_text_list_of(pairs_view(members@), key@) {
            None => r is None,
            Some(t) => r is Some && optional_texts_view(r->Some_0) == t,
        },
{
    match find_member(members, key) {
        None => Some(None),
        Some(raw) => optional_text_list(raw.as_str()),
    }
}

impl YandexApiErrorResponse {
    /// Reads a structured error from the members of a JSON object, each key
    /// with the JSON text of its value.
    pub fn from_members(members: &Vec<(String, String)>) -> (r: Option<YandexApiErrorResponse>)
        ensures
            match error_body_of(pairs_view(members@)) {
                None => r is None,
                Some(b) => r is Some && response_matches(r->Some_0, b),
            },
    {
        let code = required_member_text(members, "error_code");
        let message = required_member_text(members, "error_message");
        let acceptable_types = optional_member_text_list(members, "acceptable_types");
        let valid_until = optional_member_text(members, "valid_until");
        match (code, message, acceptable_types, valid_until) {
            (Some(code), Some(message), Some(acceptable_types), Some(valid_until)) => Some(
                YandexApiErrorResponse {
                    error_code: YandexErrorCode::from_code(code.as_str()),
                    error_message: message,
                    acceptable_types,
                    valid_until,
                },
            ),
            _ => None,
        }
    }

    /// Reads a structured error from a body text; `None` where the text is
    /// not a JSON object of that shape.
    pub fn from_json(text: &str) -> (r: Option<YandexApiErrorResponse>)
        ensures
            match structured_error_of(text@) {
                None => r is None,
                Some(b) => r is Some && response_matches(r->Some_0, b),
            },
    {
        match object_members(text) {
            Some(members) => YandexApiErrorResponse::from_members(&members),
            None => None,
        }
    }
}

/// Relies on `ToString::to_string` through `Display`, for the description
/// that an outside error gives of itself.
#[verifier::external_body]
pub(crate) fn display_text<T: std::fmt::Display>(v: &T) -> (r: String) {
    v.to_string()
}

/// The text `prefix` followed by `rest`.
fn joined(prefix: &str, rest: &str) -> (r: String)
    ensures
        r@ == prefix@ + rest@,
{
    let mut r = String::from_str(prefix);
    r.append(rest);
    r
}

impl YandexWebmasterError {
    /// A message for people that describes the error. For an error of the
    /// service it names the status, the code and the service's message.
    pub fn to_string(&self) -> (r: String)
        ensures
            match self {
                YandexWebmasterError::ApiError { status, response } => r@ == "API error ("@
                    + code_name(response.error_code) + "): "@ + response.error_message@,
                YandexWebmasterError::GenericApiError { status, message } => r@
                    == "API error: status "@ + int_text(*status as int) + ": "@ + message@,
                YandexWebmasterError::MiddlewareError(m) => r@ == "Middleware error: "@ + m@,
                YandexWebmasterError::AuthenticationError => r@
                    == "Authentication failed: missing or invalid OAuth token"@,
                _ => true,
            },
    {
        match self {
            YandexWebmasterError::HttpError(e) => joined(
                "HTTP request failed: ",
                display_text(e).as_str(),
            ),
            YandexWebmasterError::MiddlewareHttpError(e) => joined(
                "Middleware request failed: ",
                display_text(e).as_str(),
            ),
            YandexWebmasterError::ParseError(e) => joined(
                "Failed to parse response: ",
                display_text(e).as_str(),
            ),
            YandexWebmasterError::SerdeQsError(e) => joined(
                "Failed to encode the query: ",
                display_text(e).as_str(),
            ),
            YandexWebmasterError::MiddlewareError(m) => joined("Middleware error: ", m.as_str()),
            YandexWebmasterError::AuthenticationError => String::from_str(
                "Authentication failed: missing or invalid OAuth token",
            ),
            YandexWebmasterError::ApiError { status, response } => {
                let mut r = String::from_str("API error (");
                let code = response.error_code.to_string();
                r.append(code.as_str());
                r.append("): ");
                r.append(response.error_message.as_str());
                r
            },
            YandexWebmasterError::GenericApiError { status, message } => {
                let mut r = String::from_str("API error: status ");
                let code = unsigned_text(*status as u64);
                r.append(code.as_str());
                r.append(": ");
                r.append(message.as_str());
                r
            },
        }
    }
}

} // verus!
