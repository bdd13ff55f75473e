use bex_auth::config::OidcConfig;
use bex_auth::device::{AuthTokens, DeviceAuthorizationResponse, TokenBody, TokenResponse};
use bex_auth::discovery::ProviderMetadata;
use bex_auth::error::{AuthError, Stage};
use bex_auth::http::{Answer, Exchange, Method};
use bex_auth::sign_in;
use bex_auth::sign_in::{authenticate, Action, Poll, SignIn, SignInEvent};
use bex_auth::token_check;
use bex_auth::token_check::{
    token_verdict, userinfo_request, validate_token, CheckAction, CheckEvent, TokenCheck,
    UserinfoReply,
};

fn answer<T>(status: u16, document: T) -> Exchange<T> {
    Exchange::Answered(Answer {
        status,
        status_text: status.to_string(),
        body: "body".to_string(),
        document,
    })
}

fn metadata(userinfo: Option<&str>) -> Exchange<Option<ProviderMetadata>> {
    answer(
        200,
        Some(ProviderMetadata {
            device_authorization_endpoint: "https://p/device".to_string(),
            token_endpoint: "https://p/token".to_string(),
            userinfo_endpoint: userinfo.map(str::to_string),
        }),
    )
}

fn device(
    interval: Option<u64>,
    expires_in: Option<u64>,
) -> Exchange<Option<DeviceAuthorizationResponse>> {
    answer(
        200,
        Some(DeviceAuthorizationResponse {
            device_code: "code".to_string(),
            user_code: "ABCD".to_string(),
            verification_uri: "https://p/verify".to_string(),
            verification_uri_complete: None,
            expires_in,
            interval,
        }),
    )
}

fn refusal(code: &str) -> Exchange<TokenBody> {
    answer(400, TokenBody { tokens: None, error: Some(code.to_string()) })
}

fn approval() -> Exchange<TokenBody> {
    let tokens = TokenResponse {
        access_token: "access".to_string(),
        // The payload is `{"user_id":7}`.
        id_token: Some("a.eyJ1c2VyX2lkIjo3fQ.b".to_string()),
        refresh_token: None,
    };
    answer(200, TokenBody { tokens: Some(tokens), error: None })
}

fn ready() -> SignIn {
    SignIn::Ready { config: OidcConfig::from_env("https://bex.co", None, None, None).unwrap() }
}

fn step(state: SignIn, event: SignInEvent) -> (SignIn, Action) {
    assert!(sign_in::can_take(&state, &event));
    authenticate(state, event)
}

fn authorizing() -> SignIn {
    let (state, _) = step(ready(), SignInEvent::Start);
    step(state, SignInEvent::Discovery(metadata(None))).0
}

fn polls(interval: Option<u64>, expires_in: Option<u64>) -> Poll {
    let (state, action) = step(authorizing(), SignInEvent::Device(device(interval, expires_in)));
    assert!(matches!(action, Action::Prompt(_)));
    match step(state, SignInEvent::Prompted).0 {
        SignIn::Sleeping { poll } => poll,
        _ => panic!("a pause was expected"),
    }
}

/// Runs a sign-in whose polls are answered in turn, and pending once the answers run out. Returns
/// the pauses, the number of prompts and polls, and the outcome.
fn run(
    interval: Option<u64>,
    expires_in: Option<u64>,
    answers: Vec<Exchange<TokenBody>>,
) -> (Vec<u64>, usize, usize, Result<AuthTokens, AuthError>) {
    let mut answers = answers.into_iter();
    let (mut pauses, mut prompts, mut polls) = (Vec::new(), 0, 0);
    let (mut state, mut action) = step(ready(), SignInEvent::Start);
    loop {
        let event = match action {
            Action::Send(_) => match &state {
                SignIn::Discovering { .. } => SignInEvent::Discovery(metadata(None)),
                SignIn::Authorizing { .. } => SignInEvent::Device(device(interval, expires_in)),
                _ => {
                    polls += 1;
                    let next = answers.next();
                    SignInEvent::Token(next.unwrap_or_else(|| refusal("authorization_pending")))
                }
            },
            Action::Prompt(_) => {
                assert_eq!(polls, 0);
                prompts += 1;
                SignInEvent::Prompted
            }
            Action::Sleep(seconds) => {
                pauses.push(seconds);
                SignInEvent::Slept
            }
            Action::Finish(outcome) => {
                assert!(matches!(state, SignIn::Finished));
                return (pauses, prompts, polls, outcome);
            }
        };
        (state, action) = step(state, event);
    }
}

#[test]
fn sign_in_sends_the_requests_of_the_grant() {
    let (state, action) = step(ready(), SignInEvent::Start);
    match action {
        Action::Send(request) => {
            assert_eq!(request.method, Method::Get);
            assert_eq!(request.uri, "https://oauth.bex.co/.well-known/openid-configuration");
        }
        _ => panic!("a request was expected"),
    }
    let (state, action) = step(state, SignInEvent::Discovery(metadata(None)));
    match action {
        Action::Send(request) => {
            assert_eq!(request.uri, "https://p/device");
            assert_eq!(
                request.body,
                "client_id=bex-desktop&scope=openid+offline_access+bex.read+bex.write"
            );
        }
        _ => panic!("a request was expected"),
    }
    let (state, action) = step(state, SignInEvent::Device(device(Some(3), Some(60))));
    match action {
        Action::Prompt(prompt) => assert_eq!(prompt.user_code, "ABCD"),
        _ => panic!("a prompt was expected"),
    }
    let (state, action) = step(state, SignInEvent::Prompted);
    assert!(matches!(action, Action::Sleep(3)));
    let (state, action) = step(state, SignInEvent::Slept);
    match action {
        Action::Send(request) => {
            assert_eq!(request.uri, "https://p/token");
            assert_eq!(
                request.body,
                "grant_type=urn%3Aietf%3Aparams%3Aoauth%3Agrant-type%3Adevice_code&device_code=code&client_id=bex-desktop"
            );
        }
        _ => panic!("a request was expected"),
    }
    let (state, action) = step(state, SignInEvent::Token(approval()));
    match action {
        Action::Finish(Ok(tokens)) => {
            assert_eq!(tokens.user_id, 7);
            assert_eq!(tokens.access_token, "access");
            assert!(tokens.refresh_token.is_none());
        }
        _ => panic!("tokens were expected"),
    }
    assert!(!sign_in::can_take(&state, &SignInEvent::Start));
    assert!(!sign_in::can_take(&state, &SignInEvent::Slept));
}

#[test]
fn polling_starts_with_the_lifetime_of_the_code() {
    let start = |interval, expires_in| {
        let poll = polls(interval, expires_in);
        (poll.interval, poll.polls_left)
    };
    assert_eq!(start(None, None), (5, 122));
    assert_eq!(start(Some(0), None), (1, 602));
    assert_eq!(start(Some(7), Some(20)), (7, 4));
    assert_eq!(start(Some(30), Some(20)), (30, 2));
    assert_eq!(start(None, Some(0)), (5, 2));
    assert_eq!(start(Some(u64::MAX), Some(u64::MAX)), (u64::MAX, 3));
    assert_eq!(start(Some(1), Some(u64::MAX - 2)), (1, u64::MAX));
    let poll = polls(None, None);
    assert_eq!(
        (poll.token_endpoint.as_str(), poll.client_id.as_str(), poll.device_code.as_str()),
        ("https://p/token", "bex-desktop", "code")
    );
}

#[test]
fn numbers_that_do_not_fit_are_not_taken() {
    let endless = device(Some(1), Some(u64::MAX - 1));
    let (state, action) = step(authorizing(), SignInEvent::Device(endless));
    assert!(matches!(action, Action::Prompt(_)));
    assert!(!sign_in::can_take(&state, &SignInEvent::Prompted));
    let mut poll = polls(None, None);
    poll.interval = u64::MAX - 4;
    let state = SignIn::Polling { poll };
    assert!(!sign_in::can_take(&state, &SignInEvent::Token(refusal("slow_down"))));
    assert!(sign_in::can_take(&state, &SignInEvent::Token(refusal("authorization_pending"))));
}

#[test]
fn approval_ends_the_polling() {
    let answers = vec![refusal("authorization_pending"), approval()];
    let (pauses, prompts, polls, outcome) = run(Some(2), Some(100), answers);
    assert_eq!((pauses, prompts, polls), (vec![2, 2], 1, 2));
    assert_eq!(outcome.unwrap().user_id, 7);
}

#[test]
fn slow_down_stretches_every_later_pause() {
    let answers = vec![
        refusal("slow_down"),
        refusal("authorization_pending"),
        refusal("slow_down"),
        approval(),
    ];
    let (pauses, _, polls, outcome) = run(Some(2), Some(100), answers);
    assert_eq!((pauses, polls), (vec![2, 7, 7, 12], 4));
    assert!(outcome.is_ok());
}

#[test]
fn sign_in_times_out_after_the_last_poll() {
    let (pauses, prompts, polls, outcome) = run(Some(7), Some(20), vec![]);
    assert_eq!((pauses, prompts, polls), (vec![7, 7, 7, 7], 1, 4));
    assert!(matches!(outcome, Err(AuthError::TimedOut)));
    let slow = vec![refusal("slow_down"), refusal("slow_down"), refusal("slow_down")];
    let (pauses, _, polls, outcome) = run(Some(7), Some(20), slow);
    assert_eq!((pauses, polls), (vec![7, 12, 17, 22], 4));
    assert!(matches!(outcome, Err(AuthError::TimedOut)));
}

#[test]
fn wait_is_bounded_by_the_lifetime_and_two_pauses() {
    for (interval, expires_in) in [(1, 0), (1, 10), (3, 10), (7, 20), (30, 20), (5, 600)] {
        let (pauses, _, polls, outcome) = run(Some(interval), Some(expires_in), vec![]);
        assert!(pauses.iter().sum::<u64>() <= expires_in + 2 * interval);
        assert_eq!(polls, pauses.len());
        assert_eq!(polls as u64, expires_in / interval + 2);
        assert!(outcome.is_err());
    }
}

#[test]
fn refusals_end_the_sign_in() {
    let (_, _, polls, outcome) = run(None, None, vec![refusal("access_denied")]);
    assert_eq!(polls, 1);
    assert!(matches!(outcome, Err(AuthError::Denied)));
    let (_, _, _, outcome) = run(None, None, vec![refusal("expired_token")]);
    assert!(matches!(outcome, Err(AuthError::Expired)));
    let (_, _, _, outcome) = run(None, None, vec![Exchange::Unsent]);
    assert!(matches!(outcome, Err(AuthError::Unsent(Stage::TokenPoll))));
}

#[test]
fn failed_exchanges_end_the_sign_in() {
    let (state, _) = step(ready(), SignInEvent::Start);
    let (state, action) = step(state, SignInEvent::Discovery(answer(500, None)));
    assert!(matches!(state, SignIn::Finished));
    assert!(matches!(
        action,
        Action::Finish(Err(AuthError::Refused { stage: Stage::Discovery, .. }))
    ));
    let (state, action) = step(authorizing(), SignInEvent::Device(answer(200, None)));
    assert!(matches!(state, SignIn::Finished));
    assert!(matches!(
        action,
        Action::Finish(Err(AuthError::Unparsed(Stage::DeviceAuthorization)))
    ));
}

#[test]
fn events_out_of_turn_are_not_taken() {
    assert!(!sign_in::can_take(&ready(), &SignInEvent::Prompted));
    assert!(!sign_in::can_take(&authorizing(), &SignInEvent::Start));
    assert!(!sign_in::can_take(&authorizing(), &SignInEvent::Token(approval())));
}

fn check_ready() -> TokenCheck {
    let config = OidcConfig::from_env("https://bex.co", None, None, None).unwrap();
    TokenCheck::Ready { issuer: config.issuer, access_token: "tok en".to_string() }
}

fn check_step(state: TokenCheck, event: CheckEvent) -> (TokenCheck, CheckAction) {
    assert!(token_check::can_take(&state, &event));
    validate_token(state, event)
}

fn check(userinfo: Option<&str>, reply: UserinfoReply) -> (String, Result<bool, AuthError>) {
    let (state, action) = check_step(check_ready(), CheckEvent::Start);
    match action {
        CheckAction::Send(request) => {
            assert_eq!(request.uri, "https://oauth.bex.co/.well-known/openid-configuration");
            assert!(request.headers.iter().all(|(_, value)| !value.contains("tok en")));
        }
        _ => panic!("a request was expected"),
    }
    let (state, action) = check_step(state, CheckEvent::Discovery(metadata(userinfo)));
    let uri = match action {
        CheckAction::Send(request) => {
            assert_eq!(request.method, Method::Get);
            assert_eq!(
                request.headers,
                [
                    ("Authorization".to_string(), "Bearer tok en".to_string()),
                    ("Accept".to_string(), "application/json".to_string()),
                ]
            );
            request.uri
        }
        _ => panic!("a request was expected"),
    };
    let (state, action) = check_step(state, CheckEvent::Userinfo(reply));
    assert!(!token_check::can_take(&state, &CheckEvent::Start));
    match action {
        CheckAction::Finish(outcome) => (uri, outcome),
        _ => panic!("an outcome was expected"),
    }
}

#[test]
fn live_token_is_told_from_a_dead_one() {
    let (uri, outcome) = check(None, UserinfoReply::Status(200));
    assert_eq!(uri, "https://oauth.bex.co/userinfo");
    assert!(outcome.unwrap());
    let (uri, outcome) = check(Some("https://p/me"), UserinfoReply::Status(401));
    assert_eq!(uri, "https://p/me");
    assert!(!outcome.unwrap());
    assert!(!check(None, UserinfoReply::Status(403)).1.unwrap());
}

#[test]
fn other_statuses_say_nothing_of_the_token() {
    for status in (0..=999u16).filter(|s| ![200, 401, 403].contains(s)) {
        match token_verdict(UserinfoReply::Status(status)) {
            Err(AuthError::UnexpectedStatus(reported)) => assert_eq!(reported, status),
            _ => panic!("a failure was expected for {status}"),
        }
    }
    assert!(matches!(
        token_verdict(UserinfoReply::Unbuilt),
        Err(AuthError::Unbuilt(Stage::Userinfo))
    ));
    assert!(matches!(
        check(None, UserinfoReply::Unsent).1,
        Err(AuthError::Unsent(Stage::Userinfo))
    ));
}

#[test]
fn failed_discovery_ends_the_check() {
    let (state, _) = check_step(check_ready(), CheckEvent::Start);
    let (state, action) = check_step(state, CheckEvent::Discovery(Exchange::Unread));
    assert!(matches!(state, TokenCheck::Finished));
    assert!(matches!(
        action,
        CheckAction::Finish(Err(AuthError::Unread(Stage::Discovery)))
    ));
    assert!(!token_check::can_take(&check_ready(), &CheckEvent::Userinfo(UserinfoReply::Unsent)));
}

#[test]
fn userinfo_request_carries_the_token() {
    let request = userinfo_request("https://u".to_string(), "t");
    assert_eq!(request.uri, "https://u");
    assert_eq!(request.headers[0].1, "Bearer t");
    assert_eq!(request.body, "");
}
