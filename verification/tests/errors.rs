use bex_auth::error::{AuthError, Stage};

fn refused(stage: Stage) -> AuthError {
    AuthError::Refused {
        stage,
        status_text: "503 Service Unavailable".to_string(),
        body: "later".to_string(),
    }
}

#[test]
fn failures_with_a_cause_name_what_was_tried() {
    let expected: Vec<(AuthError, Vec<&str>)> = vec![
        (
            AuthError::InvalidIssuer(url::ParseError::EmptyHost),
            vec!["invalid BEX_OIDC_ISSUER / server_url"],
        ),
        (AuthError::Unbuilt(Stage::Discovery), vec![]),
        (
            AuthError::Unbuilt(Stage::DeviceAuthorization),
            vec!["device authorization request failed"],
        ),
        (AuthError::Unbuilt(Stage::TokenPoll), vec![]),
        (AuthError::Unbuilt(Stage::Userinfo), vec![]),
        (AuthError::Unsent(Stage::Discovery), vec!["OIDC discovery request failed"]),
        (
            AuthError::Unsent(Stage::DeviceAuthorization),
            vec!["device authorization request failed"],
        ),
        (AuthError::Unsent(Stage::TokenPoll), vec!["token poll failed"]),
        (AuthError::Unsent(Stage::Userinfo), vec!["userinfo request failed"]),
        (AuthError::Unread(Stage::Discovery), vec![]),
        (
            AuthError::Unread(Stage::DeviceAuthorization),
            vec!["device authorization request failed"],
        ),
        (
            AuthError::Unparsed(Stage::Discovery),
            vec!["failed to parse the OIDC discovery document"],
        ),
        (
            AuthError::Unparsed(Stage::DeviceAuthorization),
            vec!["device authorization request failed", "failed to parse response"],
        ),
        (AuthError::Unparsed(Stage::TokenPoll), vec!["failed to parse the token response"]),
        (
            AuthError::UndecodablePayload(base64::DecodeError::InvalidPadding),
            vec!["failed to base64url-decode the id_token payload"],
        ),
        (
            AuthError::UnparsedClaims(serde_json::from_str::<u8>("x").unwrap_err()),
            vec!["failed to parse id_token claims"],
        ),
    ];
    for (error, messages) in expected {
        assert_eq!(error.messages(), messages, "{error:?}");
        assert!(error.has_cause(), "{error:?}");
    }
}

#[test]
fn failures_of_their_own_say_what_happened() {
    let expected: Vec<(AuthError, Vec<&str>)> = vec![
        (
            refused(Stage::Discovery),
            vec!["OIDC discovery failed with status 503 Service Unavailable: later"],
        ),
        (
            refused(Stage::DeviceAuthorization),
            vec![
                "device authorization request failed",
                "request failed with status 503 Service Unavailable: later",
            ],
        ),
        (AuthError::Denied, vec!["sign-in was denied"]),
        (AuthError::Expired, vec!["the device code expired before it was approved"]),
        (
            AuthError::PollFailed("invalid_client".to_string()),
            vec!["device token poll failed: invalid_client"],
        ),
        (
            AuthError::MissingIdToken,
            vec!["token response is missing an id_token; request the `openid` scope"],
        ),
        (
            AuthError::MalformedIdToken,
            vec!["malformed id_token (expected a JWT with three segments)"],
        ),
        (AuthError::MissingSubject, vec!["id_token has no `sub` claim"]),
        (AuthError::TimedOut, vec!["device sign-in timed out before it was approved"]),
        (AuthError::UnexpectedStatus(503), vec!["userinfo returned unexpected status 503"]),
    ];
    for (error, messages) in expected {
        assert_eq!(error.messages(), messages, "{error:?}");
        assert!(!error.has_cause(), "{error:?}");
    }
}
