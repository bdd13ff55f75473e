//! The device authorization grant: asking for a device code, and polling for tokens.

use vstd::prelude::*;
use vstd::string::*;

#[allow(unused_imports)]
use crate::config;
use crate::error::{AuthError, Stage};
#[allow(unused_imports)]
use crate::error::AuthErrorView;
#[allow(unused_imports)]
use crate::form;
use crate::http;
use crate::http::{Exchange, HttpRequest};
use crate::identity;
use crate::text;

verus! {

/// The provider's answer to a request for a device code.
#[derive(Debug, Clone)]
pub struct DeviceAuthorizationResponse {
    pub device_code: String,
    pub user_code: String,
    pub verification_uri: String,
    pub verification_uri_complete: Option<String>,
    /// The lifetime of the device code, in seconds.
    pub expires_in: Option<u64>,
    /// The seconds to leave between polls.
    pub interval: Option<u64>,
}

/// What to show the user so they can approve the device on another surface.
#[derive(Debug, Clone)]
pub struct DevicePrompt {
    pub user_code: String,
    pub verification_uri: String,
    /// A verification URL with the `user_code` filled in, when the provider supplies one: open
    /// this to spare the user typing the code.
    pub verification_uri_complete: Option<String>,
}

/// Tokens obtained from a successful sign-in.
#[derive(Debug, Clone)]
pub struct AuthTokens {
    /// Numeric user id derived from the `id_token`.
    pub user_id: u64,
    /// The provider access token: the session credential against the backend.
    pub access_token: String,
    /// Refresh token, present when `offline_access` was granted.
    pub refresh_token: Option<String>,
}

/// The provider's answer to a poll that was approved.
#[derive(Debug, Clone)]
pub struct TokenResponse {
    pub access_token: String,
    pub id_token: Option<String>,
    pub refresh_token: Option<String>,
}

/// What the body of the answer to a poll parses to: as tokens, and as an error with a code.
#[derive(Debug, Clone)]
pub struct TokenBody {
    pub tokens: Option<TokenResponse>,
    pub error: Option<String>,
}

/// What a poll came to.
#[derive(Debug, Clone)]
pub enum PollOutcome {
    /// The sign-in was approved.
    Tokens(TokenResponse),
    /// It was not approved yet.
    Pending,
    /// It was not approved yet, and the provider wants to be asked less often.
    SlowDown,
}

/// The parameters of a request for a device code.
pub open spec fn device_parameters(client_id: Seq<char>, scopes: Seq<Seq<char>>) -> Seq<
    (Seq<char>, Seq<char>),
> {
    seq![("client_id"@, client_id), ("scope"@, text::joined(scopes, " "@))]
}

/// The parameters of a poll.
pub open spec fn poll_parameters(client_id: Seq<char>, device_code: Seq<char>) -> Seq<
    (Seq<char>, Seq<char>),
> {
    seq![
        ("grant_type"@, "urn:ietf:params:oauth:grant-type:device_code"@),
        ("device_code"@, device_code),
        ("client_id"@, client_id),
    ]
}

/// The prompt for a device.
pub open spec fn prompt_of(device: DeviceAuthorizationResponse) -> DevicePrompt {
    DevicePrompt {
        user_code: device.user_code,
        verification_uri: device.verification_uri,
        verification_uri_complete: device.verification_uri_complete,
    }
}

/// The seconds to leave before the first poll: what the provider asks for, five if it asks for
/// nothing, and at least one.
pub open spec fn first_interval(device: DeviceAuthorizationResponse) -> nat {
    let asked = match device.interval {
        Some(seconds) => seconds as nat,
        None => 5,
    };
    if asked < 1 {
        1
    } else {
        asked
    }
}

/// The number of polls that a device code is good for: as many as fit into its lifetime, which is
/// ten minutes if the provider names none, and two to spare.
pub open spec fn polls_allowed(device: DeviceAuthorizationResponse) -> nat {
    let lifetime = match device.expires_in {
        Some(seconds) => seconds as nat,
        None => 600,
    };
    lifetime / first_interval(device) + 2
}

/// The reason that the provider gives for refusing tokens: its error code, or else the whole
/// answer.
pub open spec fn refusal(answer: http::Answer<TokenBody>) -> Seq<char> {
    match answer.document.error {
        Some(code) => code@,
        None => "HTTP "@ + answer.status_text@ + ": "@ + answer.body@,
    }
}

/// What a poll came to that was refused for some reason.
pub open spec fn refused_outcome(reason: Seq<char>) -> Result<PollOutcome, AuthErrorView> {
    if reason == "authorization_pending"@ {
        Ok(PollOutcome::Pending)
    } else if reason == "slow_down"@ {
        Ok(PollOutcome::SlowDown)
    } else if reason == "access_denied"@ {
        Err(AuthErrorView::Denied)
    } else if reason == "expired_token"@ {
        Err(AuthErrorView::Expired)
    } else {
        Err(AuthErrorView::PollFailed(reason))
    }
}

/// What a poll came to.
pub open spec fn poll_outcome(exchange: Exchange<TokenBody>) -> Result<PollOutcome, AuthErrorView> {
    match exchange {
        Exchange::Unbuilt => Err(AuthErrorView::Unbuilt(Stage::TokenPoll)),
        Exchange::Unsent => Err(AuthErrorView::Unsent(Stage::TokenPoll)),
        Exchange::Unread => Err(AuthErrorView::Unread(Stage::TokenPoll)),
        Exchange::Answered(answer) => if http::success(answer.status) {
            match answer.document.tokens {
                Some(tokens) => Ok(PollOutcome::Tokens(tokens)),
                None => Err(AuthErrorView::Unparsed(Stage::TokenPoll)),
            }
        } else {
            refused_outcome(refusal(answer))
        },
    }
}

/// The outcome of a sign-in that yielded tokens, given the user id that the `id_token` stands for.
pub open spec fn tokens_with_id(
    tokens: TokenResponse,
    user_id: Result<u64, AuthErrorView>,
) -> Result<AuthTokens, AuthErrorView> {
    match user_id {
        Ok(user_id) => Ok(
            AuthTokens {
                user_id,
                access_token: tokens.access_token,
                refresh_token: tokens.refresh_token,
            },
        ),
        Err(error) => Err(error),
    }
}

/// The outcome of a sign-in that yielded tokens.
pub open spec fn signed_in(tokens: TokenResponse) -> Result<AuthTokens, AuthErrorView> {
    match tokens.id_token {
        Some(id_token) => tokens_with_id(tokens, identity::user_id_of_token(id_token@)),
        None => Err(AuthErrorView::MissingIdToken),
    }
}

/// The request for a device code.
pub fn device_request(endpoint: &str, client_id: &str, scopes: &Vec<String>) -> (request:
    HttpRequest)
    ensures
        request@ == http::form_post(
            endpoint@,
            device_parameters(client_id@, text::texts(scopes@)),
        ),
{
    let scope = text::join(scopes, " ");
    let params: [(&str, &str); 2] = [("client_id", client_id), ("scope", scope.as_str())];
    assert(form::parameters(params@) =~= device_parameters(
        client_id@,
        text::texts(scopes@),
    ));
    http::post_form(endpoint, &params)
}

/// The request that asks once whether a device has been approved.
pub fn poll_token(token_endpoint: &str, client_id: &str, device_code: &str) -> (request:
    HttpRequest)
    ensures
        request@ == http::form_post(token_endpoint@, poll_parameters(client_id@, device_code@)),
{
    let params: [(&str, &str); 3] = [
        ("grant_type", "urn:ietf:params:oauth:grant-type:device_code"),
        ("device_code", device_code),
        ("client_id", client_id),
    ];
    assert(form::parameters(params@) =~= poll_parameters(client_id@, device_code@));
    http::post_form(token_endpoint, &params)
}

/// What to show the user about a device.
pub fn device_prompt(device: &DeviceAuthorizationResponse) -> (prompt: DevicePrompt)
    ensures
        prompt == prompt_of(*device),
{
    DevicePrompt {
        user_code: device.user_code.clone(),
        verification_uri: device.verification_uri.clone(),
        verification_uri_complete: match &device.verification_uri_complete {
            Some(uri) => Some(uri.clone()),
            None => None,
        },
    }
}

/// What a poll came to, from what became of its request. The signals that the grant knows for
/// "not yet" are no failures.
pub fn polled(exchange: Exchange<TokenBody>) -> (result: Result<PollOutcome, AuthError>)
    ensures
        http::document_result(result) == poll_outcome(exchange),
{
    let answer = match exchange {
        Exchange::Unbuilt => return Err(AuthError::Unbuilt(Stage::TokenPoll)),
        Exchange::Unsent => return Err(AuthError::Unsent(Stage::TokenPoll)),
        Exchange::Unread => return Err(AuthError::Unread(Stage::TokenPoll)),
        Exchange::Answered(answer) => answer,
    };
    if http::is_success(answer.status) {
        return match answer.document.tokens {
            Some(tokens) => Ok(PollOutcome::Tokens(tokens)),
            None => Err(AuthError::Unparsed(Stage::TokenPoll)),
        };
    }
    let reason = match answer.document.error {
        Some(code) => code,
        None => "HTTP ".to_owned().concat(answer.status_text.as_str()).concat(": ").concat(
            answer.body.as_str(),
        ),
    };
    if text::same_text(reason.as_str(), "authorization_pending") {
        Ok(PollOutcome::Pending)
    } else if text::same_text(reason.as_str(), "slow_down") {
        Ok(PollOutcome::SlowDown)
    } else if text::same_text(reason.as_str(), "access_denied") {
        Err(AuthError::Denied)
    } else if text::same_text(reason.as_str(), "expired_token") {
        Err(AuthError::Expired)
    } else {
        Err(AuthError::PollFailed(reason))
    }
}

/// The outcome of a sign-in that yielded tokens, given the user id that the `id_token` stands for.
pub fn finish_with_id(tokens: TokenResponse, user_id: Result<u64, AuthError>) -> (result: Result<
    AuthTokens,
    AuthError,
>)
    ensures
        http::document_result(result) == tokens_with_id(tokens, identity::user_id_result(user_id)),
{
    match user_id {
        Ok(user_id) => Ok(
            AuthTokens {
                user_id,
                access_token: tokens.access_token,
                refresh_token: tokens.refresh_token,
            },
        ),
        Err(error) => Err(error),
    }
}

/// The outcome of a sign-in that yielded tokens.
pub fn finish(tokens: TokenResponse) -> (result: Result<AuthTokens, AuthError>)
    ensures
        http::document_result(result) == signed_in(tokens),
{
    let user_id = match &tokens.id_token {
        Some(id_token) => identity::user_id_from_id_token(id_token.as_str()),
        None => return Err(AuthError::MissingIdToken),
    };
    finish_with_id(tokens, user_id)
}

/// The provider reads the configured scopes out of the request for a device code, each one and in
/// order: they are the words of the parameter `scope`.
pub proof fn scopes_reach_the_provider(client_id: Seq<char>, scopes: Option<Seq<char>>)
    ensures
        ({
            let configured = config::scopes_of(scopes);
            let parameters = device_parameters(client_id, configured);
            parameters[1].0 == "scope"@ && text::words(parameters[1].1) == configured
        }),
{
    config::scopes_are_words(scopes);
    text::joined_words_are_found_again(config::scopes_of(scopes));
    reveal_strlit(" ");
    assert(" "@ =~= seq![' ']);
}

/// A request for a device code, or a poll, tells the provider whom it is for: the body determines
/// the client and the scopes, or the client and the device code.
pub proof fn requests_determine_their_parameters(
    client_id: Seq<char>,
    other_client_id: Seq<char>,
    scopes: Option<Seq<char>>,
    other_scopes: Option<Seq<char>>,
    device_code: Seq<char>,
    other_device_code: Seq<char>,
)
    ensures
        form::form_of(device_parameters(client_id, config::scopes_of(scopes))) == form::form_of(
            device_parameters(other_client_id, config::scopes_of(other_scopes)),
        ) ==> client_id == other_client_id && config::scopes_of(scopes) == config::scopes_of(
            other_scopes,
        ),
        form::form_of(poll_parameters(client_id, device_code)) == form::form_of(
            poll_parameters(other_client_id, other_device_code),
        ) ==> client_id == other_client_id && device_code == other_device_code,
{
    let device = device_parameters(client_id, config::scopes_of(scopes));
    let other_device = device_parameters(other_client_id, config::scopes_of(other_scopes));
    if form::form_of(device) == form::form_of(other_device) {
        form::form_determines_parameters(device, other_device);
        assert(device[0] == other_device[0]);
        assert(device[1] == other_device[1]);
        scopes_reach_the_provider(client_id, scopes);
        scopes_reach_the_provider(other_client_id, other_scopes);
    }
    let poll = poll_parameters(client_id, device_code);
    let other_poll = poll_parameters(other_client_id, other_device_code);
    if form::form_of(poll) == form::form_of(other_poll) {
        form::form_determines_parameters(poll, other_poll);
        assert(poll[1] == other_poll[1]);
        assert(poll[2] == other_poll[2]);
    }
}

} // verus!
