use vstd::prelude::*;

use crate::error::{classifies, display_text, failure_of, unreadable_prefix, YandexApiErrorResponse, YandexWebmasterError};

verus! {

/// Whether a status is of the success class (2xx).
pub open spec fn is_success(status: u16) -> bool {
    200 <= status < 300
}

/// Whether a status is of the success class (2xx).
pub fn is_success_status(status: u16) -> (r: bool)
    ensures
        r == is_success(status),
{
    200 <= status && status < 300
}


/// Classifies a failure response from its status and readable body text:
/// a structured error where the text is a JSON object of the documented
/// shape (whatever its code), and otherwise a generic error that keeps the
/// text verbatim.
pub fn classify_error(status: u16, text: String) -> (r: YandexWebmasterError)
    ensures
        classifies(status, text@, r),
{
    match YandexApiErrorResponse::from_json(text.as_str()) {
        Some(response) => YandexWebmasterError::ApiError { status, response },
        None => YandexWebmasterError::GenericApiError { status, message: text },
    }
}

/// Classifies a failure response from its status and body, which may have
/// failed to arrive; a failed read gives a generic error that describes it.
pub fn parse_error(status: u16, body: Result<String, reqwest::Error>) -> (r: YandexWebmasterError)
    ensures
        failure_of(status, body, r),
{
    match body {
        Ok(text) => classify_error(status, text),
        Err(e) => {
            let mut message = String::from_str("Failed to read error response: ");
            let description = display_text(&e);
            message.append(description.as_str());
            assert(message@.subrange(0, unreadable_prefix().len() as int) =~= unreadable_prefix());
            YandexWebmasterError::GenericApiError { status, message }
        },
    }
}

/// Whether `r` is what a response with this status and body comes to: on a
/// success status the body text, handed on to be decoded, or the transport
/// error where it could not be read; on any other status the classified
/// error, whatever the body holds.
pub open spec fn handled(
    status: u16,
    body: Result<String, reqwest::Error>,
    r: Result<String, YandexWebmasterError>,
) -> bool {
    if is_success(status) {
        match body {
            Ok(text) => r == Ok::<String, YandexWebmasterError>(text),
            Err(e) => r == Err::<String, YandexWebmasterError>(YandexWebmasterError::HttpError(e)),
        }
    } else {
        r is Err && failure_of(status, body, r->Err_0)
    }
}

/// Routes a response by its status alone: see `handled`.
pub fn handle_response(status: u16, body: Result<String, reqwest::Error>) -> (r: Result<
    String,
    YandexWebmasterError,
>)
    ensures
        handled(status, body, r),
{
    if is_success_status(status) {
        match body {
            Ok(text) => Ok(text),
            Err(e) => Err(YandexWebmasterError::HttpError(e)),
        }
    } else {
        Err(parse_error(status, body))
    }
}

/// The outcome of decoding a success body: the value, or a parse error that
/// carries the decoder's error.
pub fn decoded<T>(decode: Result<T, serde_json::Error>) -> (r: Result<T, YandexWebmasterError>)
    ensures
        match decode {
            Ok(v) => r == Ok::<T, YandexWebmasterError>(v),
            Err(e) => r == Err::<T, YandexWebmasterError>(YandexWebmasterError::ParseError(e)),
        },
{
    match decode {
        Ok(v) => Ok(v),
        Err(e) => Err(YandexWebmasterError::ParseError(e)),
    }
}

/// Success and failure are told apart by the status class alone: a readable
/// body of a 2xx response reaches the decoder unchanged, and a decoding
/// failure there is a parse error, never an error of the service; a response
/// of any other status is classified as an error of the service, whatever
/// its body holds.
pub proof fn lemma_status_decides<T>(
    status: u16,
    body: Result<String, reqwest::Error>,
    r: Result<String, YandexWebmasterError>,
    decode: Result<T, serde_json::Error>,
    out: Result<T, YandexWebmasterError>,
)
    requires
        handled(status, body, r),
        decode is Err ==> out == Err::<T, YandexWebmasterError>(
            YandexWebmasterError::ParseError(decode->Err_0),
        ),
    ensures
        is_success(status) && body is Ok ==> r is Ok && r->Ok_0 == body->Ok_0,
        is_success(status) && decode is Err ==> out->Err_0 is ParseError,
        !is_success(status) ==> r is Err && (r->Err_0 is ApiError || r->Err_0 is GenericApiError),
        !is_success(status) ==> match r->Err_0 {
            YandexWebmasterError::ApiError { status: s, .. } => s == status,
            YandexWebmasterError::GenericApiError { status: s, .. } => s == status,
            _ => false,
        },
{
}

} // verus!
