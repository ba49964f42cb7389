use yandex_webmaster_api::{
    AddHostRequest, AddSitemapRequest, IndexingHistoryRequest, RecrawlRequest, VerificationType,
    classify_error, decoded, encode_query, handle_response, is_success_status, signed_text,
    text_eq, unsigned_text, user_url, with_query, ApiDeviceTypeIndicator, ApiQueryIndicator,
    ApiQueryOrderField, AuthMiddleware, Date, ExplicitVerificationType, GetSitemapsRequest,
    GetUserSitemapsRequest, PopularQueriesRequest, QueryAnalyticsRequest, QueryHistoryRequest,
    Session, SqiHistoryRequest, UserResponse, YandexApiErrorResponse, YandexErrorCode,
    YandexWebmasterError,
};

const KNOWN_CODES: [(&str, fn() -> YandexErrorCode); 6] = [
    ("EMPTY_DATES", || YandexErrorCode::EmptyDates),
    ("INVALID_USER_ID", || YandexErrorCode::InvalidUserId),
    ("SITEMAP_NOT_ADDED", || YandexErrorCode::SitemapNotAdded),
    ("PAYLOAD_TOO_LARGE", || YandexErrorCode::PayloadTooLarge),
    ("NO_VERIFICATION_RECORD", || YandexErrorCode::NoVerificationRecord),
    ("TOO_MANY_REQUESTS_ERROR", || YandexErrorCode::TooManyRequestsError),
];

fn session(user_id: i64) -> Session {
    let body = format!("{{\"user_id\":{}}}", user_id);
    Session::establish(AuthMiddleware::new("token".to_string()), 200, Ok(body), |text: String| {
        serde_json::from_str::<serde_json::Value>(&text).map(|v| UserResponse {
            user_id: v["user_id"].as_i64().unwrap(),
        })
    })
    .unwrap()
}

#[test]
fn known_codes_decode_to_their_entries_with_the_message() {
    for (name, code) in KNOWN_CODES {
        let json = format!("{{\"error_code\":\"{}\",\"error_message\":\"m {}\"}}", name, name);
        let result = YandexApiErrorResponse::from_json(&json).unwrap();
        assert_eq!(result.error_code, code());
        assert_eq!(result.error_message, format!("m {}", name));
        assert_eq!(result.error_code.to_string(), name);
    }
}

#[test]
fn unknown_code_is_kept_verbatim() {
    let code = YandexErrorCode::from_code("BRAND_NEW_CODE");
    assert_eq!(code, YandexErrorCode::Unknown("BRAND_NEW_CODE".to_string()));
    assert_eq!(code.to_string(), "BRAND_NEW_CODE");
    assert_eq!(YandexErrorCode::from_code("INVALID_URL"), YandexErrorCode::InvalidUrl);
    assert_eq!(YandexErrorCode::from_code("invalid_url"), YandexErrorCode::Unknown("invalid_url".to_string()));
}

#[test]
fn escaped_strings_in_error_body_are_unescaped() {
    let json = r#"{"error_code":"HOST_NOT_FOUND","error_message":"a \"quoted\" é word"}"#;
    let result = YandexApiErrorResponse::from_json(json).unwrap();
    assert_eq!(result.error_message, "a \"quoted\" \u{e9} word");
}

#[test]
fn null_optional_fields_are_absent() {
    let json = r#"{"error_code":"HOST_NOT_FOUND","error_message":"m","acceptable_types":null,"valid_until":null}"#;
    let result = YandexApiErrorResponse::from_json(json).unwrap();
    assert!(result.acceptable_types.is_none());
    assert!(result.valid_until.is_none());
}

#[test]
fn malformed_error_bodies_are_not_structured() {
    assert!(YandexApiErrorResponse::from_json(r#"{"error_message":"m"}"#).is_none());
    assert!(YandexApiErrorResponse::from_json(r#"{"error_code":"X"}"#).is_none());
    assert!(YandexApiErrorResponse::from_json(r#"{"error_code":7,"error_message":"m"}"#).is_none());
    assert!(YandexApiErrorResponse::from_json(r#"{"error_code":null,"error_message":"m"}"#).is_none());
    assert!(YandexApiErrorResponse::from_json(
        r#"{"error_code":"X","error_message":"m","acceptable_types":"json"}"#
    )
    .is_none());
    assert!(YandexApiErrorResponse::from_json(r#"["X","m"]"#).is_none());
    assert!(YandexApiErrorResponse::from_json("").is_none());
}

#[test]
fn forbidden_response_classifies_to_structured_error() {
    let body = r#"{"error_code":"ACCESS_FORBIDDEN","error_message":"no rights"}"#;
    match classify_error(403, body.to_string()) {
        YandexWebmasterError::ApiError { status, response } => {
            assert_eq!(status, 403);
            assert_eq!(response.error_code, YandexErrorCode::AccessForbidden);
            assert_eq!(response.error_message, "no rights");
        }
        other => panic!("unexpected {:?}", other),
    }
}

#[test]
fn html_response_classifies_to_generic_error() {
    let body = "<html>Internal Server Error</html>";
    match classify_error(500, body.to_string()) {
        YandexWebmasterError::GenericApiError { status, message } => {
            assert_eq!(status, 500);
            assert_eq!(message, body);
        }
        other => panic!("unexpected {:?}", other),
    }
}

#[test]
fn success_is_decided_by_status_alone() {
    assert!(is_success_status(200));
    assert!(is_success_status(204));
    assert!(is_success_status(299));
    assert!(!is_success_status(199));
    assert!(!is_success_status(300));
    assert!(!is_success_status(404));
    let ok = handle_response(200, Ok("not json at all".to_string())).unwrap();
    assert_eq!(ok, "not json at all");
    let decoded_value: Result<i64, YandexWebmasterError> =
        decoded(serde_json::from_str::<i64>(&ok));
    assert!(matches!(decoded_value, Err(YandexWebmasterError::ParseError(_))));
    let body = r#"{"error_code":"HOST_NOT_FOUND","error_message":"gone"}"#.to_string();
    assert_eq!(handle_response(200, Ok(body.clone())).unwrap(), body);
    match handle_response(404, Ok(body)) {
        Err(YandexWebmasterError::ApiError { status, .. }) => assert_eq!(status, 404),
        other => panic!("unexpected {:?}", other),
    }
    match handle_response(302, Ok("{\"user_id\":1}".to_string())) {
        Err(YandexWebmasterError::GenericApiError { status, .. }) => assert_eq!(status, 302),
        other => panic!("unexpected {:?}", other),
    }
}

#[test]
fn failed_bootstrap_gives_no_session() {
    let auth = AuthMiddleware::new("token".to_string());
    let body = r#"{"error_code":"INVALID_OAUTH_TOKEN","error_message":"bad"}"#.to_string();
    let result = Session::establish(auth, 401, Ok(body), |_t: String| Ok(UserResponse { user_id: 1 }));
    match result {
        Err(YandexWebmasterError::ApiError { status, response }) => {
            assert_eq!(status, 401);
            assert_eq!(response.error_code, YandexErrorCode::InvalidOauthToken);
        }
        _ => panic!("a session came into existence"),
    }
    let auth = AuthMiddleware::new("token".to_string());
    let result = Session::establish(auth, 200, Ok("[]".to_string()), |t: String| {
        serde_json::from_str::<i64>(&t).map(|user_id| UserResponse { user_id })
    });
    assert!(matches!(result, Err(YandexWebmasterError::ParseError(_))));
}

#[test]
fn session_keeps_the_resolved_identity() {
    let s = session(42);
    assert_eq!(s.user_id(), 42);
    assert_eq!(s.auth().authorization_value().unwrap(), "OAuth token");
}

#[test]
fn sqi_history_scenario_builds_the_documented_address() {
    let s = session(42);
    let request = SqiHistoryRequest { date_from: Date::from_ymd(2024, 1, 1), date_to: None };
    let query = request.to_query().unwrap();
    assert_eq!(query, "date_from=2024-01-01");
    let url = with_query(s.host_path("h1", "/sqi-history"), &query);
    assert_eq!(url, "https://api.webmaster.yandex.net/v4/user/42/hosts/h1/sqi-history?date_from=2024-01-01");
}

#[test]
fn list_field_repeats_its_key_and_absent_field_has_none() {
    let request = QueryAnalyticsRequest {
        query_indicator: vec![ApiQueryIndicator::TotalShows, ApiQueryIndicator::TotalClicks],
        device_type_indicator: None,
        date_from: None,
        date_to: None,
    };
    let query = request.to_query().unwrap();
    assert_eq!(query, "query_indicator=TOTAL_SHOWS&query_indicator=TOTAL_CLICKS");
    assert_eq!(query.matches("query_indicator=").count(), 2);
    assert!(!query.contains("date_from"));
}

#[test]
fn encoding_twice_gives_the_same_text() {
    let request = QueryHistoryRequest {
        query_indicator: vec![ApiQueryIndicator::AvgShowPosition, ApiQueryIndicator::AvgClickPosition],
        device_type_indicator: Some(ApiDeviceTypeIndicator::MobileAndTablet),
        date_from: Date::from_ymd(2023, 12, 31),
        date_to: Date::from_ymd(2024, 2, 29),
    };
    let first = request.to_query().unwrap();
    let second = request.to_query().unwrap();
    assert_eq!(first, second);
    assert_eq!(
        first,
        "query_indicator=AVG_SHOW_POSITION&query_indicator=AVG_CLICK_POSITION&device_type_indicator=MOBILE_AND_TABLET&date_from=2023-12-31&date_to=2024-02-29"
    );
}

#[test]
fn popular_queries_filter_encodes_every_present_field_in_order() {
    let request = PopularQueriesRequest {
        order_by: ApiQueryOrderField::TotalClicks,
        query_indicator: Some(ApiQueryIndicator::TotalShows),
        device_type_indicator: None,
        date_from: None,
        date_to: None,
        offset: Some(-5),
        limit: Some(500),
    };
    assert_eq!(
        request.to_query().unwrap(),
        "order_by=TOTAL_CLICKS&query_indicator=TOTAL_SHOWS&offset=-5&limit=500"
    );
}

#[test]
fn values_are_percent_encoded() {
    let request = GetSitemapsRequest {
        parent_id: Some("a b&c=d#e".to_string()),
        limit: None,
        from: Some("x+y%z".to_string()),
    };
    assert_eq!(request.to_query().unwrap(), "parent_id=a+b%26c%3Dd%23e&from=x%2By%25z");
}

#[test]
fn empty_filter_encodes_to_empty_text() {
    assert_eq!(GetUserSitemapsRequest::default().to_query().unwrap(), "");
    assert_eq!(encode_query(&Vec::new()).unwrap(), "");
    let fields = vec![
        ("a".to_string(), vec!["1".to_string()]),
        ("b".to_string(), vec!["2".to_string(), "3".to_string()]),
    ];
    assert_eq!(encode_query(&fields).unwrap(), "a=1&b=2&b=3");
}

#[test]
fn dates_are_checked_against_the_calendar() {
    assert!(Date::from_ymd(2023, 2, 29).is_none());
    assert!(Date::from_ymd(2024, 2, 29).is_some());
    assert!(Date::from_ymd(1900, 2, 29).is_none());
    assert!(Date::from_ymd(2000, 2, 29).is_some());
    assert!(Date::from_ymd(2024, 13, 1).is_none());
    assert!(Date::from_ymd(2024, 4, 31).is_none());
    assert!(Date::from_ymd(2024, 1, 0).is_none());
    let d = Date::from_ymd(7, 3, 9).unwrap();
    assert_eq!(d.to_text(), "0007-03-09");
    assert_eq!((d.year(), d.month(), d.day()), (7, 3, 9));
}

#[test]
fn authorization_header_needs_a_header_safe_token() {
    let ok = AuthMiddleware::new("abc.DEF-123 \u{e9}".to_string());
    assert_eq!(ok.authorization_value().unwrap(), "OAuth abc.DEF-123 \u{e9}");
    let bad = AuthMiddleware::new("abc\ndef".to_string());
    assert!(matches!(bad.authorization_value(), Err(YandexWebmasterError::MiddlewareError(_))));
    let del = AuthMiddleware::new("abc\u{7f}".to_string());
    assert!(del.authorization_value().is_err());
    let tab = AuthMiddleware::new("a\tb".to_string());
    assert!(tab.authorization_value().is_ok());
}

#[test]
fn numbers_are_written_in_decimal() {
    assert_eq!(signed_text(0), "0");
    assert_eq!(signed_text(-42), "-42");
    assert_eq!(signed_text(i64::MIN), "-9223372036854775808");
    assert_eq!(signed_text(i64::MAX), "9223372036854775807");
    assert_eq!(unsigned_text(u64::MAX), "18446744073709551615");
}

#[test]
fn addresses_are_scoped_under_the_account() {
    assert_eq!(user_url(), "https://api.webmaster.yandex.net/v4/user");
    let s = session(-7);
    assert_eq!(s.user_path("/hosts"), "https://api.webmaster.yandex.net/v4/user/-7/hosts");
    assert_eq!(
        s.verification_path("h:1", ExplicitVerificationType::MetaTag),
        "https://api.webmaster.yandex.net/v4/user/-7/hosts/h:1/verification?verification_type=META_TAG"
    );
    assert_eq!(
        s.important_url_history_path("h1", "https://a.b/c d"),
        "https://api.webmaster.yandex.net/v4/user/-7/hosts/h1/important-urls/history?url=https%3A%2F%2Fa.b%2Fc%20d"
    );
}

#[test]
fn error_messages_name_status_and_text() {
    let generic = YandexWebmasterError::GenericApiError { status: 502, message: "bad gateway".to_string() };
    assert_eq!(generic.to_string(), "API error: status 502: bad gateway");
    assert_eq!(
        YandexWebmasterError::AuthenticationError.to_string(),
        "Authentication failed: missing or invalid OAuth token"
    );
}

#[test]
fn text_comparison_is_exact() {
    assert!(text_eq("abc", "abc"));
    assert!(!text_eq("abc", "abd"));
    assert!(!text_eq("abc", "ab"));
    assert!(text_eq("", ""));
}

#[test]
fn request_bodies_are_compact_json() {
    let add = AddHostRequest { host_url: "https://example.com".to_string(), verification_type: VerificationType::MetaTag };
    assert_eq!(add.to_json().unwrap(), r#"{"host_url":"https://example.com","verification_type":"META_TAG"}"#);
    let quoted = RecrawlRequest { url: "a\"b\\c\nd".to_string() };
    assert_eq!(quoted.to_json().unwrap(), r#"{"url":"a\"b\\c\nd"}"#);
    let sitemap = AddSitemapRequest { url: "https://example.com/sitemap.xml".to_string() };
    assert_eq!(sitemap.to_json().unwrap(), r#"{"url":"https://example.com/sitemap.xml"}"#);
    let history = IndexingHistoryRequest { date_from: None, date_to: Date::from_ymd(2024, 5, 6) };
    assert_eq!(history.to_json().unwrap(), r#"{"date_to":"2024-05-06"}"#);
    assert_eq!(IndexingHistoryRequest::default().to_json().unwrap(), "{}");
}

#[test]
fn outside_errors_describe_themselves() {
    let failure: Result<i64, YandexWebmasterError> = decoded(serde_json::from_str::<i64>("x"));
    let text = failure.unwrap_err().to_string();
    assert!(text.starts_with("Failed to parse response: "));
    assert!(text.len() > "Failed to parse response: ".len());
}
