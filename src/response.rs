//! The provider's answer: the error reasons it reports, the success body, the
//! error taxonomy, and the classification of a response by its status.
use vstd::prelude::*;
use vstd::string::StringExecFns;
use vstd::utf8::{decode_utf8, encode_utf8, encode_utf8_decode_utf8, valid_utf8};
use crate::json::{is_json_text, json_value_of, str_field_of, value_from_slice};
use crate::retry_after::RetryAfter;

verus! {

/// The reason the provider gives inside a success-shaped body.
#[derive(Debug, Clone, Copy, PartialEq, Eq, Structural)]
pub enum ErrorReason {
    /// `UNAVAILABLE`: the provider is overloaded.
    Unavailable,
    /// `INTERNAL`: an unknown internal error of the provider.
    InternalServerError,
    /// `INVALID_ARGUMENT`: the request held an invalid value.
    InvalidArgument,
    /// `UNREGISTERED`: the target device is no longer registered.
    Unregistered,
    /// `SENDER_ID_MISMATCH`: the sender may not send to this target.
    SenderIdMismatch,
    /// `QUOTA_EXCEEDED`: a sending limit was reached.
    QuotaExceeded,
    /// `THIRD_PARTY_AUTH_ERROR`: a platform credential was rejected.
    ThirdPartyAuthError,
    /// `UNSPECIFIED_ERROR`: no further detail was given.
    Unspecified,
    /// A reason this crate does not know.
    Other,
}

/// The reason named by the code `s` of the provider's API.
pub open spec fn error_reason_of(s: Seq<char>) -> ErrorReason {
    if s == "UNAVAILABLE"@ {
        ErrorReason::Unavailable
    } else if s == "INTERNAL"@ {
        ErrorReason::InternalServerError
    } else if s == "INVALID_ARGUMENT"@ {
        ErrorReason::InvalidArgument
    } else if s == "UNREGISTERED"@ {
        ErrorReason::Unregistered
    } else if s == "SENDER_ID_MISMATCH"@ {
        ErrorReason::SenderIdMismatch
    } else if s == "QUOTA_EXCEEDED"@ {
        ErrorReason::QuotaExceeded
    } else if s == "THIRD_PARTY_AUTH_ERROR"@ {
        ErrorReason::ThirdPartyAuthError
    } else if s == "UNSPECIFIED_ERROR"@ {
        ErrorReason::Unspecified
    } else {
        ErrorReason::Other
    }
}

impl ErrorReason {
    /// The provider reports a transient failure of its own.
    pub open spec fn is_server_side(self) -> bool {
        self is Unavailable || self is InternalServerError
    }

    /// Reads the reason code `s`; an unknown code gives `Other`.
    pub fn from_code(s: &str) -> (r: ErrorReason)
        ensures
            r == error_reason_of(s@),
    {
        if str_eq(s, "UNAVAILABLE") {
            ErrorReason::Unavailable
        } else if str_eq(s, "INTERNAL") {
            ErrorReason::InternalServerError
        } else if str_eq(s, "INVALID_ARGUMENT") {
            ErrorReason::InvalidArgument
        } else if str_eq(s, "UNREGISTERED") {
            ErrorReason::Unregistered
        } else if str_eq(s, "SENDER_ID_MISMATCH") {
            ErrorReason::SenderIdMismatch
        } else if str_eq(s, "QUOTA_EXCEEDED") {
            ErrorReason::QuotaExceeded
        } else if str_eq(s, "THIRD_PARTY_AUTH_ERROR") {
            ErrorReason::ThirdPartyAuthError
        } else if str_eq(s, "UNSPECIFIED_ERROR") {
            ErrorReason::Unspecified
        } else {
            ErrorReason::Other
        }
    }
}

/// Compares two strings character by character, through their UTF-8 bytes.
fn str_eq(a: &str, b: &str) -> (r: bool)
    ensures
        r == (a@ == b@),
{
    let x = a.as_bytes();
    let y = b.as_bytes();
    proof {
        encode_utf8_decode_utf8(a@);
        encode_utf8_decode_utf8(b@);
    }
    if x.len() != y.len() {
        return false;
    }
    let mut i: usize = 0;
    while i < x.len()
        invariant
            x@ == encode_utf8(a@),
            y@ == encode_utf8(b@),
            x@.len() == y@.len(),
            i <= x@.len(),
            forall|j: int| 0 <= j < i ==> x@[j] == y@[j],
        decreases x@.len() - i,
    {
        if x[i] != y[i] {
            return false;
        }
        i += 1;
    }
    assert(x@ == y@);
    true
}

/// The success-shaped body of a response.
#[derive(Debug)]
pub struct FcmResponse {
    /// The reason given in the body's `error` field, where it holds a string.
    pub error: Option<ErrorReason>,
    /// The whole body, as the provider sent it.
    pub body: serde_json::Value,
}

/// How a call can fail.
#[derive(Debug, PartialEq, Eq)]
pub enum FcmError {
    /// The credential was rejected.
    Unauthorized,
    /// The provider rejected the request, or answered with an unknown status.
    InvalidMessage(String),
    /// A transient failure on the provider's side.
    ServerError(Option<RetryAfter>),
    /// No response was received: the connection, TLS or a timeout failed.
    Transport(String),
    /// A response with status 200 whose body is not JSON.
    MalformedResponse,
}

/// The characters of an optional string.
pub open spec fn chars_of(s: Option<&str>) -> Option<Seq<char>> {
    match s {
        Some(t) => Some(t@),
        None => None,
    }
}

/// The outcome of a 200 response whose body `body` has the `error` field
/// `reason` (when that field holds a string).
pub open spec fn success_outcome(
    body: serde_json::Value,
    reason: Option<Seq<char>>,
    retry_after: Option<RetryAfter>,
) -> Result<FcmResponse, FcmError> {
    match reason {
        Some(s) => if error_reason_of(s).is_server_side() {
            Err(FcmError::ServerError(retry_after))
        } else {
            Ok(FcmResponse { error: Some(error_reason_of(s)), body })
        },
        None => Ok(FcmResponse { error: None, body }),
    }
}

/// Classifies a 200 response from its parsed body and that body's `error`
/// field: a server-side reason is a server error despite the status.
pub fn classify_success(
    body: serde_json::Value,
    reason: Option<&str>,
    retry_after: Option<RetryAfter>,
) -> (r: Result<FcmResponse, FcmError>)
    ensures
        r == success_outcome(body, chars_of(reason), retry_after),
{
    match reason {
        Some(s) => {
            let e = ErrorReason::from_code(s);
            if e == ErrorReason::Unavailable || e == ErrorReason::InternalServerError {
                Err(FcmError::ServerError(retry_after))
            } else {
                Ok(FcmResponse { error: Some(e), body })
            }
        },
        None => Ok(FcmResponse { error: None, body }),
    }
}

/// The text that `String::from_utf8_lossy` makes of `b`: its UTF-8 decoding,
/// with each invalid sequence replaced by U+FFFD.
pub uninterp spec fn utf8_lossy(b: Seq<u8>) -> Seq<char>;

/// Relies on String::from_utf8_lossy: valid UTF-8 is decoded as it is.
#[verifier::external_body]
fn text_of(b: &[u8]) -> (r: String)
    ensures
        r@ == utf8_lossy(b@),
        valid_utf8(b@) ==> r@ == decode_utf8(b@),
{
    String::from_utf8_lossy(b).into_owned()
}

/// `needle` occurs in `hay` as a contiguous run.
pub open spec fn contains(hay: Seq<char>, needle: Seq<char>) -> bool {
    exists|i: int|
        0 <= i && i + needle.len() <= hay.len() && #[trigger] hay.subrange(i, i + needle.len())
            == needle
}

/// The description of a 400 response whose body reads `text`.
pub open spec fn bad_request_detail(text: Seq<char>) -> Seq<char> {
    "Bad Request ("@ + text + ")"@
}

/// The description of a response with a status this crate does not know.
pub open spec fn unknown_error_detail() -> Seq<char> {
    "Unknown Error"@
}

pub open spec fn is_server_error_status(status: u16) -> bool {
    500 <= status <= 599
}

/// `e` is the error for a response with status `status` (other than 200),
/// `Retry-After` value `retry_after` and body `body`.
pub open spec fn status_error(
    status: u16,
    retry_after: Option<RetryAfter>,
    body: Seq<u8>,
    e: FcmError,
) -> bool {
    if status == 401 {
        e == FcmError::Unauthorized
    } else if status == 400 {
        e matches FcmError::InvalidMessage(d) && d@ == bad_request_detail(utf8_lossy(body))
    } else if is_server_error_status(status) {
        e == FcmError::ServerError(retry_after)
    } else {
        e matches FcmError::InvalidMessage(d) && d@ == unknown_error_detail()
    }
}

/// The response body is read for these statuses only: 200 and 400.
pub fn reads_body(status: u16) -> (r: bool)
    ensures
        r == (status == 200 || status == 400),
{
    status == 200 || status == 400
}

/// The string that a response body `b` holds in its top-level `error` field:
/// the provider's reason for a failure reported with status 200.
pub open spec fn error_field_of(b: Seq<u8>) -> Option<Seq<char>> {
    str_field_of(b, "error"@)
}

/// The reason named by an optional `error` field.
pub open spec fn reason_of_field(f: Option<Seq<char>>) -> Option<ErrorReason> {
    match f {
        Some(s) => Some(error_reason_of(s)),
        None => None,
    }
}

/// `r` is the outcome of a 200 response with body `body`: a body that is not
/// JSON is malformed; a server-side reason in its `error` field is a server
/// error; anything else succeeds, with the reason that the field names.
pub open spec fn ok_outcome(
    body: Seq<u8>,
    retry_after: Option<RetryAfter>,
    r: Result<FcmResponse, FcmError>,
) -> bool {
    if !is_json_text(body) {
        r == Err::<FcmResponse, FcmError>(FcmError::MalformedResponse)
    } else if error_field_of(body) matches Some(s) && error_reason_of(s).is_server_side() {
        r == Err::<FcmResponse, FcmError>(FcmError::ServerError(retry_after))
    } else {
        r matches Ok(resp) && resp.error == reason_of_field(error_field_of(body)) && resp.body
            == json_value_of(body)
    }
}

/// Classifies a 200 response by its body.
fn classify_ok_body(body: &[u8], retry_after: Option<RetryAfter>) -> (r: Result<
    FcmResponse,
    FcmError,
>)
    ensures
        ok_outcome(body@, retry_after, r),
{
    match value_from_slice(body, "error") {
        Ok((value, field)) => {
            let reason_str: Option<&str> = match &field {
                Some(s) => Some(s.as_str()),
                None => None,
            };
            classify_success(value, reason_str, retry_after)
        },
        Err(_) => Err(FcmError::MalformedResponse),
    }
}

/// Classifies a response strictly by its status code; `body` is read only for
/// statuses 200 and 400.
pub fn classify(status: u16, retry_after: Option<RetryAfter>, body: &[u8]) -> (r: Result<
    FcmResponse,
    FcmError,
>)
    ensures
        status == 200 ==> ok_outcome(body@, retry_after, r),
        status != 200 ==> (r matches Err(e) && status_error(status, retry_after, body@, e)),
        status == 400 && valid_utf8(body@) ==> (r matches Err(FcmError::InvalidMessage(d)) && d@
            == bad_request_detail(decode_utf8(body@))),
{
    if status == 200 {
        classify_ok_body(body, retry_after)
    } else if status == 401 {
        Err(FcmError::Unauthorized)
    } else if status == 400 {
        let text = text_of(body);
        let mut detail = String::from_str("Bad Request (");
        detail.append(text.as_str());
        detail.append(")");
        Err(FcmError::InvalidMessage(detail))
    } else if 500 <= status && status <= 599 {
        Err(FcmError::ServerError(retry_after))
    } else {
        Err(FcmError::InvalidMessage(String::from_str("Unknown Error")))
    }
}

/// A response that is not a 200 always gives one of the three classified
/// errors: never a success, and never a transport failure.
pub proof fn lemma_status_error_is_classified(
    status: u16,
    retry_after: Option<RetryAfter>,
    body: Seq<u8>,
    e: FcmError,
)
    requires
        status != 200,
        status_error(status, retry_after, body, e),
    ensures
        e is Unauthorized || e is InvalidMessage || e is ServerError,
{
}

/// A 200 response whose body has no string `error` field succeeds, and the
/// body is handed over exactly as it was received.
pub proof fn lemma_success_passes_body_through(
    body: serde_json::Value,
    retry_after: Option<RetryAfter>,
)
    ensures
        success_outcome(body, None, retry_after) == Ok::<FcmResponse, FcmError>(
            FcmResponse { error: None, body },
        ),
{
}

/// A 200 response whose body reports `UNAVAILABLE` or `INTERNAL` is a server
/// error carrying the response's retry-after value, despite the status.
pub proof fn lemma_server_reason_is_server_error(
    body: serde_json::Value,
    retry_after: Option<RetryAfter>,
)
    ensures
        success_outcome(body, Some("UNAVAILABLE"@), retry_after) == Err::<FcmResponse, FcmError>(
            FcmError::ServerError(retry_after),
        ),
        success_outcome(body, Some("INTERNAL"@), retry_after) == Err::<FcmResponse, FcmError>(
            FcmError::ServerError(retry_after),
        ),
{
    reveal_strlit("UNAVAILABLE");
    reveal_strlit("INTERNAL");
}

/// A 401 response is unauthorized, whatever its body and headers.
pub proof fn lemma_unauthorized_ignores_body(
    retry_after: Option<RetryAfter>,
    body: Seq<u8>,
    e: FcmError,
)
    requires
        status_error(401, retry_after, body, e),
    ensures
        e == FcmError::Unauthorized,
{
}

/// The description of a 400 response holds the body's text verbatim.
pub proof fn lemma_bad_request_detail_embeds_text(text: Seq<char>)
    ensures
        contains(bad_request_detail(text), text),
{
    reveal_strlit("Bad Request (");
    assert(bad_request_detail(text).subrange(13, 13 + text.len() as int) == text);
}

/// A server-error status carries exactly the retry-after value read from the
/// response: absent when the header is absent, never a default.
pub proof fn lemma_server_status_carries_retry_after(
    status: u16,
    retry_after: Option<RetryAfter>,
    body: Seq<u8>,
    e: FcmError,
)
    requires
        is_server_error_status(status),
        status_error(status, retry_after, body, e),
    ensures
        e == FcmError::ServerError(retry_after),
{
}

/// A status outside 200, 400, 401 and 5xx gives the generic description.
pub proof fn lemma_unknown_status_is_generic(
    status: u16,
    retry_after: Option<RetryAfter>,
    body: Seq<u8>,
    e: FcmError,
)
    requires
        status != 200 && status != 400 && status != 401 && !is_server_error_status(status),
        status_error(status, retry_after, body, e),
    ensures
        e matches FcmError::InvalidMessage(d) && d@ == "Unknown Error"@,
{
}

/// Each response gives exactly one outcome: a success, one of the three
/// classified errors, or, for a 200 whose body is not JSON, a malformed
/// response; never a transport failure.
pub proof fn lemma_one_outcome(
    status: u16,
    retry_after: Option<RetryAfter>,
    body: Seq<u8>,
    r: Result<FcmResponse, FcmError>,
)
    requires
        status == 200 ==> ok_outcome(body, retry_after, r),
        status != 200 ==> (r matches Err(e) && status_error(status, retry_after, body, e)),
    ensures
        r is Ok || (r matches Err(e) && (e is Unauthorized || e is InvalidMessage
            || e is ServerError || (status == 200 && e is MalformedResponse))),
        r matches Ok(_) ==> status == 200,
        r == Err::<FcmResponse, FcmError>(FcmError::MalformedResponse) ==> status == 200
            && !is_json_text(body),
{
}

/// A 200 response with a JSON body and no string `error` field succeeds with no
/// reason.
pub proof fn lemma_ok_without_reason_succeeds(
    body: Seq<u8>,
    retry_after: Option<RetryAfter>,
    r: Result<FcmResponse, FcmError>,
)
    requires
        is_json_text(body),
        error_field_of(body) is None,
        ok_outcome(body, retry_after, r),
    ensures
        r matches Ok(resp) && resp.error is None,
{
}

/// A 200 response whose JSON body reports `UNAVAILABLE` or `INTERNAL` is a
/// server error carrying the response's retry-after value.
pub proof fn lemma_ok_with_server_reason_fails(
    body: Seq<u8>,
    retry_after: Option<RetryAfter>,
    r: Result<FcmResponse, FcmError>,
)
    requires
        is_json_text(body),
        error_field_of(body) == Some("UNAVAILABLE"@) || error_field_of(body) == Some(
            "INTERNAL"@,
        ),
        ok_outcome(body, retry_after, r),
    ensures
        r == Err::<FcmResponse, FcmError>(FcmError::ServerError(retry_after)),
{
    reveal_strlit("UNAVAILABLE");
    reveal_strlit("INTERNAL");
}

} // verus!
