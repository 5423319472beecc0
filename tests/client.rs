use fcm::{
    classify, classify_success, envelope, parse_asctime, parse_delay_seconds, parse_http_date,
    parse_imf_fixdate,
    parse_retry_after, reads_body, request_url, ErrorReason, FcmError, HttpDate, MessageWrapper,
    RetryAfter,
};

fn json(text: &str) -> serde_json::Value {
    serde_json::from_str(text).unwrap()
}

#[test]
fn url_for_project() {
    assert_eq!(
        request_url("my-proj"),
        "https://fcm.googleapis.com/v1/projects/my-proj/messages:send"
    );
}

#[test]
fn url_keeps_project_verbatim() {
    assert_eq!(
        request_url(""),
        "https://fcm.googleapis.com/v1/projects//messages:send"
    );
}

#[test]
fn envelope_frames_bytes() {
    assert_eq!(envelope(b"{\"token\":\"t\"}"), b"{\"message\":{\"token\":\"t\"}}".to_vec());
    assert_eq!(envelope(b""), b"{\"message\":}".to_vec());
}

#[test]
fn wrapper_serializes_single_field() {
    let msg = json("{\"token\": \"abc\", \"data\": {\"k\": \"v\"}}");
    let wrapper = MessageWrapper::new(&msg);
    let body = wrapper.to_vec();
    let expected = serde_json::to_vec(&msg).unwrap();
    assert_eq!(body, envelope(&expected));
    let back: serde_json::Value = serde_json::from_slice(&body).unwrap();
    let obj = back.as_object().unwrap();
    assert_eq!(obj.len(), 1);
    assert_eq!(obj.get("message"), Some(&msg));
}

#[test]
fn ok_without_reason_passes_body_through() {
    let body = b"{\"name\": \"projects/p/messages/42\"}";
    let resp = classify(200, None, body).unwrap();
    assert_eq!(resp.error, None);
    assert_eq!(resp.body, json("{\"name\": \"projects/p/messages/42\"}"));
}

#[test]
fn ok_with_unavailable_is_server_error() {
    let body = b"{\"error\": \"UNAVAILABLE\"}";
    let ra = Some(RetryAfter::Delay(30));
    assert_eq!(classify(200, ra, body).unwrap_err(), FcmError::ServerError(ra));
}

#[test]
fn ok_with_internal_is_server_error() {
    let body = b"{\"error\": \"INTERNAL\"}";
    assert_eq!(classify(200, None, body).unwrap_err(), FcmError::ServerError(None));
}

#[test]
fn ok_with_other_reason_succeeds() {
    let body = b"{\"error\": \"INVALID_ARGUMENT\"}";
    let resp = classify(200, None, body).unwrap();
    assert_eq!(resp.error, Some(ErrorReason::InvalidArgument));
    let body = b"{\"error\": \"SOMETHING_NEW\"}";
    assert_eq!(classify(200, None, body).unwrap().error, Some(ErrorReason::Other));
}

#[test]
fn ok_with_non_string_reason_succeeds() {
    let body = b"{\"error\": {\"code\": 14}}";
    let resp = classify(200, None, body).unwrap();
    assert_eq!(resp.error, None);
}

#[test]
fn ok_with_malformed_body() {
    assert_eq!(classify(200, None, b"not json").unwrap_err(), FcmError::MalformedResponse);
    assert_eq!(classify(200, None, b"").unwrap_err(), FcmError::MalformedResponse);
}

#[test]
fn success_classification_from_reason() {
    let v = json("{}");
    assert_eq!(
        classify_success(v.clone(), Some("UNAVAILABLE"), None).unwrap_err(),
        FcmError::ServerError(None)
    );
    assert_eq!(
        classify_success(v.clone(), Some("QUOTA_EXCEEDED"), None).unwrap().error,
        Some(ErrorReason::QuotaExceeded)
    );
    let resp = classify_success(v.clone(), None, None).unwrap();
    assert_eq!(resp.error, None);
    assert_eq!(resp.body, v);
}

#[test]
fn unauthorized_ignores_body() {
    assert_eq!(classify(401, None, b"").unwrap_err(), FcmError::Unauthorized);
    assert_eq!(
        classify(401, Some(RetryAfter::Delay(5)), b"{\"error\": \"UNAVAILABLE\"}").unwrap_err(),
        FcmError::Unauthorized
    );
}

#[test]
fn bad_request_embeds_body() {
    let err = classify(400, None, b"project not found").unwrap_err();
    assert_eq!(err, FcmError::InvalidMessage("Bad Request (project not found)".to_string()));
    match err {
        FcmError::InvalidMessage(d) => assert!(d.contains("project not found")),
        other => panic!("unexpected {:?}", other),
    }
}

#[test]
fn bad_request_replaces_invalid_utf8() {
    let err = classify(400, None, b"a\xffb").unwrap_err();
    assert_eq!(err, FcmError::InvalidMessage("Bad Request (a\u{FFFD}b)".to_string()));
}

#[test]
fn server_error_with_retry_after_delay() {
    let ra = parse_retry_after(b"120");
    assert_eq!(ra, Some(RetryAfter::Delay(120)));
    assert_eq!(classify(500, ra, b"").unwrap_err(), FcmError::ServerError(Some(RetryAfter::Delay(120))));
}

#[test]
fn server_error_without_retry_after() {
    assert_eq!(classify(500, None, b"oops").unwrap_err(), FcmError::ServerError(None));
    assert_eq!(classify(503, None, b"").unwrap_err(), FcmError::ServerError(None));
    assert_eq!(classify(599, None, b"").unwrap_err(), FcmError::ServerError(None));
}

#[test]
fn unknown_status_is_generic() {
    let generic = FcmError::InvalidMessage("Unknown Error".to_string());
    assert_eq!(classify(418, None, b"teapot").unwrap_err(), generic);
    assert_eq!(classify(404, None, b"").unwrap_err(), generic);
    assert_eq!(classify(600, None, b"").unwrap_err(), generic);
    assert_eq!(classify(302, None, b"").unwrap_err(), generic);
}

#[test]
fn body_read_only_for_ok_and_bad_request() {
    assert!(reads_body(200));
    assert!(reads_body(400));
    assert!(!reads_body(401));
    assert!(!reads_body(500));
    assert!(!reads_body(418));
}

#[test]
fn delay_seconds_forms() {
    assert_eq!(parse_delay_seconds(b"0"), Some(0));
    assert_eq!(parse_delay_seconds(b"007"), Some(7));
    assert_eq!(parse_delay_seconds(b"18446744073709551615"), Some(u64::MAX));
    assert_eq!(parse_delay_seconds(b"18446744073709551616"), None);
    assert_eq!(parse_delay_seconds(b""), None);
    assert_eq!(parse_delay_seconds(b"12a"), None);
    assert_eq!(parse_delay_seconds(b"-5"), None);
    assert_eq!(parse_delay_seconds(b" 5"), None);
}

#[test]
fn http_date_form() {
    let d = HttpDate { year: 1994, month: 11, day: 6, hour: 8, minute: 49, second: 37 };
    assert_eq!(parse_imf_fixdate(b"Sun, 06 Nov 1994 08:49:37 GMT"), Some(d));
    assert_eq!(
        parse_retry_after(b"Sun, 06 Nov 1994 08:49:37 GMT"),
        Some(RetryAfter::DateTime(d))
    );
}

#[test]
fn http_date_calendar() {
    assert!(parse_imf_fixdate(b"Tue, 29 Feb 2000 00:00:00 GMT").is_some());
    assert!(parse_imf_fixdate(b"Thu, 29 Feb 1900 00:00:00 GMT").is_none());
    assert!(parse_imf_fixdate(b"Sat, 29 Feb 2024 00:00:00 GMT").is_some());
    assert!(parse_imf_fixdate(b"Thu, 31 Apr 2025 00:00:00 GMT").is_none());
    assert!(parse_imf_fixdate(b"Wed, 31 Dec 2025 23:59:60 GMT").is_some());
    assert!(parse_imf_fixdate(b"Wed, 31 Dec 2025 24:00:00 GMT").is_none());
    assert!(parse_imf_fixdate(b"Wed, 31 Dec 2025 23:60:00 GMT").is_none());
    assert!(parse_imf_fixdate(b"Wed, 00 Dec 2025 10:00:00 GMT").is_none());
}

#[test]
fn http_date_layout_errors() {
    assert!(parse_imf_fixdate(b"Sun, 06 Nov 1994 08:49:37 UTC").is_none());
    assert!(parse_imf_fixdate(b"Xyz, 06 Nov 1994 08:49:37 GMT").is_none());
    assert!(parse_imf_fixdate(b"Sun, 06 Nox 1994 08:49:37 GMT").is_none());
    assert!(parse_imf_fixdate(b"Sun, 6 Nov 1994 08:49:37 GMT").is_none());
    assert!(parse_imf_fixdate(b"Sunday, 06-Nov-94 08:49:37 GMT").is_none());
    assert_eq!(parse_retry_after(b"soon"), None);
    assert_eq!(parse_retry_after(b""), None);
}

#[test]
fn reason_codes() {
    assert_eq!(ErrorReason::from_code("UNAVAILABLE"), ErrorReason::Unavailable);
    assert_eq!(ErrorReason::from_code("INTERNAL"), ErrorReason::InternalServerError);
    assert_eq!(ErrorReason::from_code("UNREGISTERED"), ErrorReason::Unregistered);
    assert_eq!(ErrorReason::from_code("SENDER_ID_MISMATCH"), ErrorReason::SenderIdMismatch);
    assert_eq!(ErrorReason::from_code("THIRD_PARTY_AUTH_ERROR"), ErrorReason::ThirdPartyAuthError);
    assert_eq!(ErrorReason::from_code("UNSPECIFIED_ERROR"), ErrorReason::Unspecified);
    assert_eq!(ErrorReason::from_code("unavailable"), ErrorReason::Other);
    assert_eq!(ErrorReason::from_code(""), ErrorReason::Other);
}

#[test]
fn asctime_form() {
    let d = HttpDate { year: 1994, month: 11, day: 6, hour: 8, minute: 49, second: 37 };
    assert_eq!(parse_asctime(b"Sun Nov  6 08:49:37 1994"), Some(d));
    assert_eq!(parse_asctime(b"Sun Nov 06 08:49:37 1994"), Some(d));
    assert_eq!(parse_http_date(b"Sun Nov  6 08:49:37 1994"), Some(d));
    assert_eq!(parse_http_date(b"Sun, 06 Nov 1994 08:49:37 GMT"), Some(d));
    assert_eq!(
        parse_retry_after(b"Sun Nov  6 08:49:37 1994"),
        Some(RetryAfter::DateTime(d))
    );
}

#[test]
fn asctime_errors() {
    assert_eq!(parse_asctime(b"Sun Nov 31 08:49:37 1994"), None);
    assert_eq!(parse_asctime(b"Sun Nov  0 08:49:37 1994"), None);
    assert_eq!(parse_asctime(b"Sun Nov  6 08:49:37 94"), None);
    assert_eq!(parse_asctime(b"Sun Nov 6  08:49:37 1994"), None);
    assert_eq!(parse_asctime(b"Sun, 06 Nov 1994 08:49:37 GMT"), None);
    assert_eq!(parse_http_date(b"Sunday, 06-Nov-94 08:49:37 GMT"), None);
}
