use bex_auth::device::{
    device_prompt, device_request, finish, finish_with_id, poll_token, polled,
    DeviceAuthorizationResponse, PollOutcome, TokenBody, TokenResponse,
};
use bex_auth::discovery::{discover, discovered, userinfo_endpoint, ProviderMetadata};
use bex_auth::error::{AuthError, Stage};
use bex_auth::http::{document, get, is_success, post_form, Answer, Exchange, HttpRequest, Method};
use bex_auth::issuer::ParsedUrl;

fn issuer(serialization: &str) -> ParsedUrl {
    ParsedUrl {
        serialization: serialization.to_string(),
        scheme: "https".to_string(),
        host: Some("oauth.bex.co".to_string()),
    }
}

fn headers(request: &HttpRequest) -> Vec<(&str, &str)> {
    request.headers.iter().map(|(name, value)| (name.as_str(), value.as_str())).collect()
}

fn answer<T>(status: u16, status_text: &str, body: &str, document: T) -> Exchange<T> {
    Exchange::Answered(Answer {
        status,
        status_text: status_text.to_string(),
        body: body.to_string(),
        document,
    })
}

fn error_body(code: &str) -> TokenBody {
    TokenBody { tokens: None, error: Some(code.to_string()) }
}

fn tokens(id_token: Option<&str>) -> TokenResponse {
    TokenResponse {
        access_token: "access".to_string(),
        id_token: id_token.map(str::to_string),
        refresh_token: Some("refresh".to_string()),
    }
}

#[test]
fn forms_are_encoded_by_bytes() {
    let request = post_form(
        "https://a/b",
        &[("a b", "c&d=e"), ("\u{e9}", "*-._~!"), ("", ""), ("plus", "+%"), ("0", "Zz9/\n")],
    );
    assert_eq!(
        request.body,
        "a+b=c%26d%3De&%C3%A9=*-._%7E%21&=&plus=%2B%25&0=Zz9%2F%0A"
    );
    assert_eq!(request.uri, "https://a/b");
    assert_eq!(request.method, Method::Post);
    assert_eq!(
        headers(&request),
        [("Content-Type", "application/x-www-form-urlencoded"), ("Accept", "application/json")]
    );
    assert_eq!(post_form("x", &[]).body, "");
}

#[test]
fn every_byte_of_a_form_reads_back() {
    let every: String = (0..=255u32).filter_map(char::from_u32).collect();
    let body = post_form("x", &[("k", &every), (&every, "v")]).body;
    let pairs: Vec<(String, String)> =
        url::form_urlencoded::parse(body.as_bytes()).into_owned().collect();
    assert_eq!(pairs, [("k".to_string(), every.clone()), (every, "v".to_string())]);
}

#[test]
fn device_request_names_client_and_scopes() {
    let scopes = vec!["openid".to_string(), "bex.read".to_string()];
    let request = device_request("https://a/device", "bex-desktop", &scopes);
    assert_eq!(request.uri, "https://a/device");
    assert_eq!(request.method, Method::Post);
    assert_eq!(request.body, "client_id=bex-desktop&scope=openid+bex.read");
}

#[test]
fn poll_names_grant_device_code_and_client() {
    let request = poll_token("https://a/token", "bex-desktop", "d/c");
    assert_eq!(request.uri, "https://a/token");
    assert_eq!(
        request.body,
        "grant_type=urn%3Aietf%3Aparams%3Aoauth%3Agrant-type%3Adevice_code&device_code=d%2Fc&client_id=bex-desktop"
    );
}

#[test]
fn discovery_asks_for_the_well_known_document() {
    for serialization in ["https://oauth.bex.co", "https://oauth.bex.co/", "https://oauth.bex.co//"]
    {
        let request = discover(&issuer(serialization));
        assert_eq!(request.method, Method::Get);
        assert_eq!(request.uri, "https://oauth.bex.co/.well-known/openid-configuration");
        assert_eq!(headers(&request), [("Accept", "application/json")]);
        assert_eq!(request.body, "");
    }
    assert_eq!(get("u".to_string()).uri, "u");
}

#[test]
fn userinfo_is_where_the_provider_says_or_under_the_issuer() {
    let provider = issuer("https://oauth.bex.co/");
    assert_eq!(userinfo_endpoint(&provider, None), "https://oauth.bex.co/userinfo");
    assert_eq!(userinfo_endpoint(&provider, Some("https://u/".to_string())), "https://u/");
}

#[test]
fn success_is_the_two_hundreds() {
    for status in 0..=1000u16 {
        assert_eq!(is_success(status), (200..300).contains(&status));
    }
}

#[test]
fn document_has_to_be_answered_with_success_and_parse() {
    let stage = Stage::Discovery;
    assert_eq!(document(answer(200, "200 OK", "7", Some(7)), stage).unwrap(), 7);
    assert_eq!(document(answer(299, "299", "7", Some(7)), stage).unwrap(), 7);
    assert!(matches!(
        document::<u8>(Exchange::Unbuilt, stage),
        Err(AuthError::Unbuilt(Stage::Discovery))
    ));
    assert!(matches!(
        document::<u8>(Exchange::Unsent, Stage::DeviceAuthorization),
        Err(AuthError::Unsent(Stage::DeviceAuthorization))
    ));
    assert!(matches!(
        document::<u8>(Exchange::Unread, stage),
        Err(AuthError::Unread(Stage::Discovery))
    ));
    assert!(matches!(
        document::<u8>(answer(200, "200 OK", "x", None), stage),
        Err(AuthError::Unparsed(Stage::Discovery))
    ));
    match document(answer(404, "404 Not Found", "gone", Some(7)), stage) {
        Err(AuthError::Refused { stage, status_text, body }) => {
            assert_eq!(stage, Stage::Discovery);
            assert_eq!(status_text, "404 Not Found");
            assert_eq!(body, "gone");
        }
        _ => panic!("a refusal was expected"),
    }
}

#[test]
fn discovered_hands_the_metadata_on() {
    let metadata = ProviderMetadata {
        device_authorization_endpoint: "d".to_string(),
        token_endpoint: "t".to_string(),
        userinfo_endpoint: None,
    };
    let found = discovered(answer(200, "200 OK", "{}", Some(metadata))).unwrap();
    assert_eq!(found.device_authorization_endpoint, "d");
    assert_eq!(found.token_endpoint, "t");
    assert!(matches!(
        discovered(Exchange::Unsent),
        Err(AuthError::Unsent(Stage::Discovery))
    ));
}

#[test]
fn prompt_shows_what_the_provider_sent() {
    let mut device = DeviceAuthorizationResponse {
        device_code: "secret".to_string(),
        user_code: "ABCD".to_string(),
        verification_uri: "https://v".to_string(),
        verification_uri_complete: Some("https://v?c=ABCD".to_string()),
        expires_in: None,
        interval: None,
    };
    let prompt = device_prompt(&device);
    assert_eq!(prompt.user_code, "ABCD");
    assert_eq!(prompt.verification_uri, "https://v");
    assert_eq!(prompt.verification_uri_complete.as_deref(), Some("https://v?c=ABCD"));
    device.verification_uri_complete = None;
    assert!(device_prompt(&device).verification_uri_complete.is_none());
}

#[test]
fn pending_and_slow_down_are_no_failures() {
    let poll = |code: &str| polled(answer(400, "400 Bad Request", "", error_body(code)));
    assert!(matches!(poll("authorization_pending"), Ok(PollOutcome::Pending)));
    assert!(matches!(poll("slow_down"), Ok(PollOutcome::SlowDown)));
    assert!(matches!(poll("access_denied"), Err(AuthError::Denied)));
    assert!(matches!(poll("expired_token"), Err(AuthError::Expired)));
    match poll("invalid_client") {
        Err(AuthError::PollFailed(reason)) => assert_eq!(reason, "invalid_client"),
        _ => panic!("a failure was expected"),
    }
}

#[test]
fn refusal_without_a_code_is_reported_whole() {
    let body = TokenBody { tokens: None, error: None };
    match polled(answer(502, "502 Bad Gateway", "<html>", body)) {
        Err(AuthError::PollFailed(reason)) => assert_eq!(reason, "HTTP 502 Bad Gateway: <html>"),
        _ => panic!("a failure was expected"),
    }
}

#[test]
fn poll_that_succeeds_has_to_carry_tokens() {
    let body = TokenBody { tokens: Some(tokens(None)), error: Some("slow_down".to_string()) };
    match polled(answer(200, "200 OK", "", body)) {
        Ok(PollOutcome::Tokens(tokens)) => assert_eq!(tokens.access_token, "access"),
        _ => panic!("tokens were expected"),
    }
    assert!(matches!(
        polled(answer(200, "200 OK", "", error_body("slow_down"))),
        Err(AuthError::Unparsed(Stage::TokenPoll))
    ));
    assert!(matches!(polled(Exchange::Unbuilt), Err(AuthError::Unbuilt(Stage::TokenPoll))));
    assert!(matches!(polled(Exchange::Unsent), Err(AuthError::Unsent(Stage::TokenPoll))));
    assert!(matches!(polled(Exchange::Unread), Err(AuthError::Unread(Stage::TokenPoll))));
}

#[test]
fn tokens_are_handed_out_with_the_user_id() {
    // The payload is `{"user_id":7}`.
    let granted = finish(tokens(Some("a.eyJ1c2VyX2lkIjo3fQ.b"))).unwrap();
    assert_eq!(granted.user_id, 7);
    assert_eq!(granted.access_token, "access");
    assert_eq!(granted.refresh_token.as_deref(), Some("refresh"));
    assert!(matches!(finish(tokens(None)), Err(AuthError::MissingIdToken)));
    assert!(matches!(finish(tokens(Some("x"))), Err(AuthError::MalformedIdToken)));
}

#[test]
fn user_id_decides_whether_tokens_are_handed_out() {
    let granted = finish_with_id(tokens(None), Ok(9)).unwrap();
    assert_eq!((granted.user_id, granted.access_token.as_str()), (9, "access"));
    assert!(matches!(
        finish_with_id(tokens(Some("x")), Err(AuthError::MissingSubject)),
        Err(AuthError::MissingSubject)
    ));
}
