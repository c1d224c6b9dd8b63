use chat_gateway::rest::{
    build_raw_request, interpret_response, ClientConfig, HttpError, Method, Request,
};

fn request() -> Request {
    Request {
        method: Method::Post,
        route_key: b"POST /channels/{}/messages c1".to_vec(),
        path: b"channels/1/messages".to_vec(),
        body: Some(b"{\"content\":\"hi\"}".to_vec()),
        multipart: false,
        headers: vec![],
    }
}

fn header<'a>(parts: &'a [(Vec<u8>, Vec<u8>)], name: &str) -> Option<&'a [u8]> {
    parts
        .iter()
        .find(|(n, _)| n == name.as_bytes())
        .map(|(_, v)| v.as_slice())
}

#[test]
fn raw_request_layout() {
    let cfg = ClientConfig::new(b"Bot secret".to_vec());
    let parts = build_raw_request(&cfg, &request()).unwrap();

    assert_eq!(
        parts.url,
        b"https://discord.com/api/v6/channels/1/messages".to_vec()
    );
    assert_eq!(header(&parts.headers, "Authorization"), Some(&b"Bot secret"[..]));
    assert_eq!(header(&parts.headers, "content-length"), Some(&b"16"[..]));
    assert_eq!(
        header(&parts.headers, "Content-Type"),
        Some(&b"application/json"[..])
    );
    assert_eq!(
        header(&parts.headers, "X-RateLimit-Precision"),
        Some(&b"millisecond"[..])
    );
    assert_eq!(
        header(&parts.headers, "User-Agent"),
        Some(&b"DiscordBot (https://crates.io/crates/chat_gateway, 0.1.0)"[..])
    );
    assert_eq!(parts.body, Some(b"{\"content\":\"hi\"}".to_vec()));
}

#[test]
fn raw_request_without_body_or_token() {
    let cfg = ClientConfig {
        token: None,
        use_http: true,
    };
    let mut req = request();
    req.body = None;
    let parts = build_raw_request(&cfg, &req).unwrap();
    assert!(parts.url.starts_with(b"http://"));
    assert!(header(&parts.headers, "Authorization").is_none());
    assert_eq!(header(&parts.headers, "content-length"), Some(&b"0"[..]));
}

#[test]
fn multipart_skips_body_headers() {
    let cfg = ClientConfig::new(b"t".to_vec());
    let mut req = request();
    req.multipart = true;
    let parts = build_raw_request(&cfg, &req).unwrap();
    assert!(header(&parts.headers, "content-length").is_none());
    assert!(header(&parts.headers, "Content-Type").is_none());
    assert!(header(&parts.headers, "X-RateLimit-Precision").is_some());
}

#[test]
fn invalid_token_value_refused() {
    let cfg = ClientConfig::new(b"bad\ntoken".to_vec());
    assert_eq!(
        build_raw_request(&cfg, &request()).unwrap_err(),
        HttpError::CreatingHeader
    );
}

#[test]
fn responses_classified_by_status() {
    assert!(interpret_response(200, &b"{}".to_vec()).is_ok());
    assert!(interpret_response(204, &Vec::new()).is_ok());
    assert!(interpret_response(299, &Vec::new()).is_ok());

    let err = interpret_response(
        403,
        &b"{\"code\": 50013, \"message\": \"Missing Permissions\"}".to_vec(),
    )
    .unwrap_err();
    match err {
        HttpError::Response {
            status,
            code,
            message,
            body,
        } => {
            assert_eq!(status, 403);
            assert_eq!(code, Some(50013));
            assert_eq!(message, Some(b"Missing Permissions".to_vec()));
            assert!(!body.is_empty());
        }
        other => panic!("wrong error: {:?}", other),
    }
}

#[test]
fn error_response_with_opaque_body() {
    let err = interpret_response(502, &b"bad gateway".to_vec()).unwrap_err();
    match err {
        HttpError::Response { status, code, message, .. } => {
            assert_eq!(status, 502);
            assert_eq!(code, None);
            assert_eq!(message, None);
        }
        other => panic!("wrong error: {:?}", other),
    }
}
