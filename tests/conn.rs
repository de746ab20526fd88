use twitter_conn::{
    build_request, create_query, rate_limit_status, read_to_twitter_result,
    ApplicationOnlyAuthenticator, BuildError, ErrorCode, HttpError, InternalErrorResponse, Method,
    ParameterValue, RateLimitStatus, RawResponse, RequestBody, RequestContent, RequestError,
    StreamContent, TwitterError,
};

fn pairs(v: &[(&str, &str)]) -> Vec<(String, String)> {
    v.iter().map(|(k, v)| (k.to_string(), v.to_string())).collect()
}

fn text_params(v: &[(&str, &str)]) -> Vec<(String, ParameterValue)> {
    v.iter().map(|(k, v)| (k.to_string(), ParameterValue::Text(v.to_string()))).collect()
}

fn some(s: &str) -> Option<String> {
    Some(s.to_string())
}

fn percent_decode(s: &str) -> String {
    let b = s.as_bytes();
    let mut out = Vec::new();
    let mut i = 0;
    while i < b.len() {
        if b[i] == b'%' {
            let h = std::str::from_utf8(&b[i + 1..i + 3]).unwrap();
            out.push(u8::from_str_radix(h, 16).unwrap());
            i += 3;
        } else {
            out.push(b[i]);
            i += 1;
        }
    }
    String::from_utf8(out).unwrap()
}

fn decode_query(s: &str) -> Vec<(String, String)> {
    if s.is_empty() {
        return Vec::new();
    }
    s.split('&')
        .map(|seg| {
            let mut it = seg.splitn(2, '=');
            let k = it.next().unwrap();
            let v = it.next().unwrap();
            (percent_decode(k), percent_decode(v))
        })
        .collect()
}

#[test]
fn query_of_no_pairs_is_empty() {
    assert_eq!(create_query(&Vec::new()), "");
}

#[test]
fn query_escapes_reserved_characters() {
    let q = create_query(&pairs(&[("a b", "x&y=z"), ("status", "héllo!")]));
    assert_eq!(q, "a%20b=x%26y%3Dz&status=h%C3%A9llo%21");
}

#[test]
fn query_keeps_unreserved_characters_and_order() {
    let q = create_query(&pairs(&[("z", "1"), ("a", "A-._~9")]));
    assert_eq!(q, "z=1&a=A-._~9");
}

#[test]
fn query_round_trips_through_decoding() {
    let given = pairs(&[("k&=", "v &=é"), ("", ""), ("日本", "+/?")]);
    let q = create_query(&given);
    assert_eq!(decode_query(&q), given);
}

#[test]
fn get_merges_existing_query_and_params() {
    let existing = pairs(&[("a", "1")]);
    let content = RequestContent::KeyValuePairs(text_params(&[("q", "x y"), ("count", "5")]));
    let parts = build_request(Method::Get, &existing, &content).unwrap();
    assert_eq!(parts.query, Some("a=1&q=x%20y&count=5".to_string()));
    assert!(matches!(parts.body, RequestBody::Empty));
    assert_eq!(parts.content_type, None);
}

#[test]
fn delete_and_head_use_the_query() {
    for m in [Method::Delete, Method::Head] {
        let content = RequestContent::KeyValuePairs(text_params(&[("id", "7")]));
        let parts = build_request(m, &Vec::new(), &content).unwrap();
        assert_eq!(parts.query, Some("id=7".to_string()));
        assert!(matches!(parts.body, RequestBody::Empty));
    }
}

#[test]
fn post_sends_a_form_body() {
    let existing = pairs(&[("ignored", "1")]);
    let content = RequestContent::KeyValuePairs(text_params(&[("status", "Hi there!")]));
    let parts = build_request(Method::Post, &existing, &content).unwrap();
    assert_eq!(parts.query, None);
    match parts.body {
        RequestBody::Form(b) => assert_eq!(b, "status=Hi%20there%21"),
        _ => panic!("expected a form body"),
    }
    assert_eq!(parts.content_type, Some("application/x-www-form-urlencoded".to_string()));
}

#[test]
fn put_with_a_file_is_not_implemented() {
    let content = RequestContent::KeyValuePairs(vec![
        ("status".to_string(), ParameterValue::Text("x".to_string())),
        ("media".to_string(), ParameterValue::File(0)),
    ]);
    let r = build_request(Method::Put, &Vec::new(), &content);
    assert!(matches!(r, Err(BuildError::MultipartNotImplemented)));
}

#[test]
fn stream_with_length_is_sized() {
    let content = RequestContent::Stream(StreamContent {
        content_type: "image/png".to_string(),
        content_length: Some(1024),
    });
    let parts = build_request(Method::Post, &Vec::new(), &content).unwrap();
    assert!(matches!(parts.body, RequestBody::Sized(1024)));
    assert_eq!(parts.content_type, Some("image/png".to_string()));
    assert_eq!(parts.query, None);
}

#[test]
fn stream_without_length_is_chunked() {
    let content = RequestContent::Stream(StreamContent {
        content_type: "application/octet-stream".to_string(),
        content_length: None,
    });
    let parts = build_request(Method::Put, &Vec::new(), &content).unwrap();
    assert!(matches!(parts.body, RequestBody::Chunked));
    assert_eq!(parts.content_type, Some("application/octet-stream".to_string()));
}

#[test]
fn stream_on_get_sends_nothing() {
    let content = RequestContent::Stream(StreamContent {
        content_type: "image/png".to_string(),
        content_length: Some(3),
    });
    let parts = build_request(Method::Get, &Vec::new(), &content).unwrap();
    assert!(matches!(parts.body, RequestBody::Empty));
    assert_eq!(parts.query, None);
    assert_eq!(parts.content_type, None);
}

#[test]
fn rate_limit_with_all_three_headers() {
    let r = rate_limit_status(&some("180"), &some("179"), &some("1609459200"));
    assert_eq!(r, Some(RateLimitStatus { limit: 180, remaining: 179, reset: 1609459200 }));
}

#[test]
fn rate_limit_with_two_headers_is_absent() {
    assert_eq!(rate_limit_status(&some("180"), &None, &some("1609459200")), None);
    assert_eq!(rate_limit_status(&some("180"), &some("179"), &some("soon")), None);
}

#[test]
fn rate_limit_values_follow_integer_syntax() {
    let r = rate_limit_status(&some("+15"), &some("-1"), &some("0"));
    assert_eq!(r, Some(RateLimitStatus { limit: 15, remaining: -1, reset: 0 }));
    assert_eq!(rate_limit_status(&some(" 1"), &some("1"), &some("1")), None);
    assert_eq!(rate_limit_status(&some("2147483648"), &some("1"), &some("1")), None);
}

fn raw(status: u16, body: &str) -> RawResponse {
    RawResponse {
        status,
        limit_header: some("15"),
        remaining_header: some("14"),
        reset_header: some("1500000000"),
        body: Ok(body.to_string()),
    }
}

fn parse_error_body(body: &str) -> Option<InternalErrorResponse> {
    let v: serde_json::Value = serde_json::from_str(body).ok()?;
    let list = |name: &str| {
        v.get(name).and_then(|x| x.as_array()).map(|a| {
            a.iter()
                .map(|e| ErrorCode {
                    code: e.get("code").and_then(|c| c.as_i64()).unwrap() as i32,
                    message: e.get("message").and_then(|m| m.as_str()).unwrap().to_string(),
                })
                .collect::<Vec<_>>()
        })
    };
    Some(InternalErrorResponse { errors: list("errors"), error: list("error") })
}

#[test]
fn created_is_a_success_with_the_body_verbatim() {
    let body = "{\"id\": 1, \"text\": \"hé\"}";
    let r = read_to_twitter_result(Ok(raw(201, body)), None).unwrap();
    assert_eq!(r.raw_response, body);
    assert_eq!(r.object, ());
    assert_eq!(r.rate_limit, Some(RateLimitStatus { limit: 15, remaining: 14, reset: 1500000000 }));
}

#[test]
fn unauthorized_is_an_error_response_with_its_errors() {
    let body = "{\"errors\":[{\"code\":32,\"message\":\"Could not authenticate\"}]}";
    let parsed = parse_error_body(body);
    match read_to_twitter_result(Ok(raw(401, body)), parsed) {
        Err(TwitterError::ErrorResponse(e)) => {
            assert_eq!(e.status, 401);
            let errors = e.errors.unwrap();
            assert_eq!(errors.len(), 1);
            assert_eq!(errors[0].code, 32);
            assert_eq!(errors[0].message, "Could not authenticate");
            assert_eq!(e.raw_response, body);
            assert_eq!(e.rate_limit.map(|r| r.limit), Some(15));
        }
        _ => panic!("expected an error response"),
    }
}

#[test]
fn error_field_is_used_when_errors_is_missing() {
    let body = "{\"error\":[{\"code\":88,\"message\":\"Rate limit exceeded\"}]}";
    match read_to_twitter_result(Ok(raw(429, body)), parse_error_body(body)) {
        Err(TwitterError::ErrorResponse(e)) => {
            assert_eq!(e.errors.unwrap()[0].code, 88);
        }
        _ => panic!("expected an error response"),
    }
}

#[test]
fn malformed_error_body_gives_no_error_list() {
    let body = "<html>Internal Server Error</html>";
    let parsed = parse_error_body(body);
    assert!(parsed.is_none());
    match read_to_twitter_result(Ok(raw(500, body)), parsed) {
        Err(TwitterError::ErrorResponse(e)) => {
            assert_eq!(e.status, 500);
            assert!(e.errors.is_none());
            assert_eq!(e.raw_response, body);
        }
        _ => panic!("expected an error response"),
    }
}

#[test]
fn transport_failure_is_an_http_error() {
    let r = read_to_twitter_result(Err(HttpError::Network("refused".to_string())), None);
    assert!(matches!(r, Err(TwitterError::HttpError(HttpError::Network(m))) if m == "refused"));
}

#[test]
fn body_read_failure_is_an_io_error() {
    let mut res = raw(200, "");
    res.body = Err("reset".to_string());
    let r = read_to_twitter_result(Ok(res), None);
    assert!(matches!(r, Err(TwitterError::HttpError(HttpError::Io(m))) if m == "reset"));
}

#[test]
fn authenticator_holds_its_token() {
    let a = ApplicationOnlyAuthenticator::new("AAAA%2Ftoken".to_string());
    assert_eq!(a.access_token, "AAAA%2Ftoken");
    assert_eq!(a.create_authorization_header().unwrap().token, "AAAA%2Ftoken");
}

#[test]
fn invalid_url_is_refused_before_building() {
    let a = ApplicationOnlyAuthenticator::new("t".to_string());
    let content = RequestContent::KeyValuePairs(text_params(&[("a", "b")]));
    let r = a.prepare_request(Method::Get, "not a url", &content);
    assert!(matches!(r, Err(RequestError::InvalidUrl(_))));
}

#[test]
fn get_request_carries_the_merged_query() {
    let a = ApplicationOnlyAuthenticator::new("t0k".to_string());
    let content = RequestContent::KeyValuePairs(text_params(&[("q", "rust lang"), ("n", "2")]));
    let p = a
        .prepare_request(Method::Get, "https://api.example.com/1.1/search.json?lang=en", &content)
        .unwrap();
    assert_eq!(p.url.as_str(), "https://api.example.com/1.1/search.json?lang=en&q=rust%20lang&n=2");
    assert_eq!(p.authorization.token, "t0k");
    assert_eq!(p.method, Method::Get);
}

#[test]
fn post_request_keeps_the_url() {
    let a = ApplicationOnlyAuthenticator::new("t0k".to_string());
    let content = RequestContent::KeyValuePairs(text_params(&[("status", "a&b")]));
    let p = a.prepare_request(Method::Post, "https://api.example.com/1.1/update.json", &content).unwrap();
    assert_eq!(p.url.as_str(), "https://api.example.com/1.1/update.json");
    assert!(matches!(p.parts.body, RequestBody::Form(ref b) if b == "status=a%26b"));
}

#[test]
fn post_request_with_a_file_is_not_implemented() {
    let a = ApplicationOnlyAuthenticator::new("t".to_string());
    let content = RequestContent::KeyValuePairs(vec![("media".to_string(), ParameterValue::File(3))]);
    let r = a.prepare_request(Method::Post, "https://api.example.com/upload", &content);
    assert!(matches!(r, Err(RequestError::Build(BuildError::MultipartNotImplemented))));
}
