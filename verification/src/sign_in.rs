//! The sign-in as a state machine. The host performs each action and reports the event that ends
//! it; the machine decides what comes next.

#[allow(unused_imports)]
use vstd::pervasive::arbitrary;
use vstd::pervasive::unreached;
use vstd::prelude::*;
use vstd::string::*;

use crate::config::OidcConfig;
use crate::device;
use crate::device::{
    AuthTokens, DeviceAuthorizationResponse, DevicePrompt, PollOutcome, TokenBody,
};
use crate::discovery;
use crate::discovery::ProviderMetadata;
use crate::error::{AuthError, Stage};
#[allow(unused_imports)]
use crate::error::AuthErrorView;
use crate::http;
use crate::http::{Exchange, HttpRequest};
#[allow(unused_imports)]
use crate::http::RequestView;
use crate::text;

verus! {

/// A device code that is being polled for.
#[derive(Debug, Clone)]
pub struct Poll {
    pub token_endpoint: String,
    pub client_id: String,
    pub device_code: String,
    /// The seconds to leave before the next poll.
    pub interval: u64,
    /// The polls that are left, the one under way among them.
    pub polls_left: u64,
}

/// How far a sign-in has come.
#[derive(Debug, Clone)]
pub enum SignIn {
    /// Nothing has been done.
    Ready { config: OidcConfig },
    /// The discovery document has been asked for.
    Discovering { config: OidcConfig },
    /// A device code has been asked for.
    Authorizing { token_endpoint: String, client_id: String },
    /// The user is being told where to approve the device.
    Prompting { token_endpoint: String, client_id: String, device: DeviceAuthorizationResponse },
    /// The pause before a poll.
    Sleeping { poll: Poll },
    /// A poll has been sent.
    Polling { poll: Poll },
    /// The outcome is known.
    Finished,
}

/// What the host reports.
#[derive(Debug)]
pub enum SignInEvent {
    /// The sign-in is to begin.
    Start,
    /// What became of the request for the discovery document.
    Discovery(Exchange<Option<ProviderMetadata>>),
    /// What became of the request for a device code.
    Device(Exchange<Option<DeviceAuthorizationResponse>>),
    /// The user has been told.
    Prompted,
    /// The pause is over.
    Slept,
    /// What became of a poll.
    Token(Exchange<TokenBody>),
}

/// What the host has to do.
#[derive(Debug)]
pub enum Action {
    /// Send a request and report what became of it.
    Send(HttpRequest),
    /// Tell the user where to approve the device.
    Prompt(DevicePrompt),
    /// Wait for some seconds.
    Sleep(u64),
    /// Hand the outcome to the caller.
    Finish(Result<AuthTokens, AuthError>),
}

/// The mathematical view of an [`Action`].
pub enum ActionView {
    Send(RequestView),
    Prompt(DevicePrompt),
    Sleep(u64),
    Finish(Result<AuthTokens, AuthErrorView>),
}

impl View for Action {
    type V = ActionView;

    open spec fn view(&self) -> ActionView {
        match *self {
            Action::Send(request) => ActionView::Send(request@),
            Action::Prompt(prompt) => ActionView::Prompt(prompt),
            Action::Sleep(seconds) => ActionView::Sleep(seconds),
            Action::Finish(outcome) => ActionView::Finish(http::document_result(outcome)),
        }
    }
}

/// The request that a poll sends.
pub open spec fn poll_request(poll: Poll) -> RequestView {
    http::form_post(
        poll.token_endpoint@,
        device::poll_parameters(poll.client_id@, poll.device_code@),
    )
}

/// The polling of a device code that has just been handed out.
pub open spec fn first_poll(
    token_endpoint: String,
    client_id: String,
    device: DeviceAuthorizationResponse,
) -> Poll {
    Poll {
        token_endpoint,
        client_id,
        device_code: device.device_code,
        interval: device::first_interval(device) as u64,
        polls_left: device::polls_allowed(device) as u64,
    }
}

/// The seconds by which a provider that wants to be asked less often stretches the pause.
pub open spec fn slow_down_seconds() -> u64 {
    5
}

/// Where a poll leads that was not approved yet, with the pause that comes next.
pub open spec fn after_poll(poll: Poll, interval: u64) -> (SignIn, ActionView) {
    if poll.polls_left > 1 {
        (
            SignIn::Sleeping {
                poll: Poll { interval, polls_left: (poll.polls_left - 1) as u64, ..poll },
            },
            ActionView::Sleep(interval),
        )
    } else {
        (SignIn::Finished, ActionView::Finish(Err(AuthErrorView::TimedOut)))
    }
}

/// A failure ends the sign-in.
pub open spec fn failed(error: AuthErrorView) -> (SignIn, ActionView) {
    (SignIn::Finished, ActionView::Finish(Err(error)))
}

/// Whether an event is what a state waits for, and leads to numbers that 64 bits can hold: the
/// number of polls that a device code allows, and the pause that a provider stretches.
pub open spec fn accepts(state: SignIn, event: SignInEvent) -> bool {
    match (state, event) {
        (SignIn::Ready { .. }, SignInEvent::Start) => true,
        (SignIn::Discovering { .. }, SignInEvent::Discovery(_)) => true,
        (SignIn::Authorizing { .. }, SignInEvent::Device(_)) => true,
        (SignIn::Prompting { device, .. }, SignInEvent::Prompted) => device::polls_allowed(device)
            <= u64::MAX,
        (SignIn::Sleeping { .. }, SignInEvent::Slept) => true,
        (SignIn::Polling { poll }, SignInEvent::Token(exchange)) => match device::poll_outcome(
            exchange,
        ) {
            Ok(PollOutcome::SlowDown) => poll.interval + slow_down_seconds() <= u64::MAX,
            _ => true,
        },
        _ => false,
    }
}

/// Where an accepted event leads, and what has to be done next.
pub open spec fn next(state: SignIn, event: SignInEvent) -> (SignIn, ActionView) {
    match (state, event) {
        (SignIn::Ready { config }, SignInEvent::Start) => (
            SignIn::Discovering { config },
            ActionView::Send(
                http::json_get(discovery::discovery_url(config@.issuer.serialization)),
            ),
        ),
        (
            SignIn::Discovering { config },
            SignInEvent::Discovery(exchange),
        ) => match http::document_of(exchange, Stage::Discovery) {
            Ok(metadata) => (
                SignIn::Authorizing {
                    token_endpoint: metadata.token_endpoint,
                    client_id: config.client_id,
                },
                ActionView::Send(
                    http::form_post(
                        metadata.device_authorization_endpoint@,
                        device::device_parameters(config@.client_id, config@.scopes),
                    ),
                ),
            ),
            Err(error) => failed(error),
        },
        (
            SignIn::Authorizing { token_endpoint, client_id },
            SignInEvent::Device(exchange),
        ) => match http::document_of(exchange, Stage::DeviceAuthorization) {
            Ok(device) => (
                SignIn::Prompting { token_endpoint, client_id, device },
                ActionView::Prompt(device::prompt_of(device)),
            ),
            Err(error) => failed(error),
        },
        (SignIn::Prompting { token_endpoint, client_id, device }, SignInEvent::Prompted) => (
            SignIn::Sleeping { poll: first_poll(token_endpoint, client_id, device) },
            ActionView::Sleep(first_poll(token_endpoint, client_id, device).interval),
        ),
        (SignIn::Sleeping { poll }, SignInEvent::Slept) => (
            SignIn::Polling { poll },
            ActionView::Send(poll_request(poll)),
        ),
        (SignIn::Polling { poll }, SignInEvent::Token(exchange)) => match device::poll_outcome(
            exchange,
        ) {
            Ok(PollOutcome::Tokens(tokens)) => (
                SignIn::Finished,
                ActionView::Finish(device::signed_in(tokens)),
            ),
            Ok(PollOutcome::Pending) => after_poll(poll, poll.interval),
            Ok(PollOutcome::SlowDown) => after_poll(
                poll,
                (poll.interval + slow_down_seconds()) as u64,
            ),
            Err(error) => failed(error),
        },
        _ => arbitrary(),
    }
}

/// Whether an event is what a state waits for, and leads to numbers that 64 bits can hold.
pub fn can_take(state: &SignIn, event: &SignInEvent) -> (answer: bool)
    ensures
        answer == accepts(*state, *event),
{
    match (state, event) {
        (SignIn::Ready { .. }, SignInEvent::Start) => true,
        (SignIn::Discovering { .. }, SignInEvent::Discovery(_)) => true,
        (SignIn::Authorizing { .. }, SignInEvent::Device(_)) => true,
        (SignIn::Prompting { device, .. }, SignInEvent::Prompted) => polls_fit(device),
        (SignIn::Sleeping { .. }, SignInEvent::Slept) => true,
        (SignIn::Polling { poll }, SignInEvent::Token(exchange)) => {
            !asks_to_slow_down(exchange) || poll.interval <= u64::MAX - 5
        },
        _ => false,
    }
}

/// Whether 64 bits can hold the number of polls that a device code allows.
fn polls_fit(device: &DeviceAuthorizationResponse) -> (answer: bool)
    ensures
        answer == (device::polls_allowed(*device) <= u64::MAX),
{
    let interval: u64 = first_pause(device);
    code_lifetime(device) / interval <= u64::MAX - 2
}

/// Whether the answer to a poll asks for fewer polls.
fn asks_to_slow_down(exchange: &Exchange<TokenBody>) -> (answer: bool)
    ensures
        answer == (device::poll_outcome(*exchange) matches Ok(PollOutcome::SlowDown)),
{
    if let Exchange::Answered(answer) = exchange {
        if !http::is_success(answer.status) {
            if let Some(code) = &answer.document.error {
                proof {
                    reveal_strlit("authorization_pending");
                    reveal_strlit("slow_down");
                    assert("authorization_pending"@[0] != "slow_down"@[0]);
                }
                return text::same_text(code.as_str(), "slow_down");
            }
            proof {
                reveal_strlit("HTTP ");
                reveal_strlit("slow_down");
                assert(device::refusal(*answer)[0] == "HTTP "@[0]);
                assert("slow_down"@[0] != "HTTP "@[0]);
            }
        }
    }
    false
}

/// The seconds to leave before the first poll.
fn first_pause(device: &DeviceAuthorizationResponse) -> (seconds: u64)
    ensures
        seconds == device::first_interval(*device),
        seconds > 0,
{
    let asked: u64 = match device.interval {
        Some(seconds) => seconds,
        None => 5,
    };
    if asked < 1 {
        1
    } else {
        asked
    }
}

/// The lifetime of a device code in seconds, ten minutes if the provider names none.
fn code_lifetime(device: &DeviceAuthorizationResponse) -> (seconds: u64)
    ensures
        seconds == (match device.expires_in {
            Some(seconds) => seconds,
            None => 600,
        }),
{
    match device.expires_in {
        Some(seconds) => seconds,
        None => 600,
    }
}

/// The polling of a device code that has just been handed out.
fn start_polling(
    token_endpoint: String,
    client_id: String,
    device: DeviceAuthorizationResponse,
) -> (poll: Poll)
    requires
        device::polls_allowed(device) <= u64::MAX,
    ensures
        poll == first_poll(token_endpoint, client_id, device),
{
    let interval: u64 = first_pause(&device);
    let polls_left: u64 = code_lifetime(&device) / interval + 2;
    Poll { token_endpoint, client_id, device_code: device.device_code, interval, polls_left }
}

/// Goes on after a poll that was not approved yet, with the pause that comes next.
fn go_on(poll: Poll, interval: u64) -> (step: (SignIn, Action))
    ensures
        (step.0, step.1@) == after_poll(poll, interval),
{
    if poll.polls_left > 1 {
        let polls_left: u64 = poll.polls_left - 1;
        (SignIn::Sleeping { poll: Poll { interval, polls_left, ..poll } }, Action::Sleep(interval))
    } else {
        (SignIn::Finished, Action::Finish(Err(AuthError::TimedOut)))
    }
}

/// Takes a sign-in one step further: from how far it has come and what the host reports to how far
/// it is then and what the host has to do.
///
/// The provider's endpoints are discovered, a device code is asked for, the user is prompted once,
/// and the token endpoint is polled until the device is approved, denied, expired, or has used up
/// the polls that the lifetime of its code allows.
pub fn authenticate(state: SignIn, event: SignInEvent) -> (step: (SignIn, Action))
    requires
        accepts(state, event),
    ensures
        (step.0, step.1@) == next(state, event),
{
    match (state, event) {
        (SignIn::Ready { config }, SignInEvent::Start) => {
            let request = discovery::discover(&config.issuer);
            (SignIn::Discovering { config }, Action::Send(request))
        },
        (SignIn::Discovering { config }, SignInEvent::Discovery(exchange)) => {
            match discovery::discovered(exchange) {
                Ok(metadata) => {
                    let request = device::device_request(
                        metadata.device_authorization_endpoint.as_str(),
                        config.client_id.as_str(),
                        &config.scopes,
                    );
                    (
                        SignIn::Authorizing {
                            token_endpoint: metadata.token_endpoint,
                            client_id: config.client_id,
                        },
                        Action::Send(request),
                    )
                },
                Err(error) => (SignIn::Finished, Action::Finish(Err(error))),
            }
        },
        (SignIn::Authorizing { token_endpoint, client_id }, SignInEvent::Device(exchange)) => {
            match http::document(exchange, Stage::DeviceAuthorization) {
                Ok(device) => {
                    let prompt = device::device_prompt(&device);
                    (
                        SignIn::Prompting { token_endpoint, client_id, device },
                        Action::Prompt(prompt),
                    )
                },
                Err(error) => (SignIn::Finished, Action::Finish(Err(error))),
            }
        },
        (SignIn::Prompting { token_endpoint, client_id, device }, SignInEvent::Prompted) => {
            let poll = start_polling(token_endpoint, client_id, device);
            let interval: u64 = poll.interval;
            (SignIn::Sleeping { poll }, Action::Sleep(interval))
        },
        (SignIn::Sleeping { poll }, SignInEvent::Slept) => {
            let request = device::poll_token(
                poll.token_endpoint.as_str(),
                poll.client_id.as_str(),
                poll.device_code.as_str(),
            );
            (SignIn::Polling { poll }, Action::Send(request))
        },
        (SignIn::Polling { poll }, SignInEvent::Token(exchange)) => {
            match device::polled(exchange) {
                Ok(PollOutcome::Tokens(tokens)) => {
                    (SignIn::Finished, Action::Finish(device::finish(tokens)))
                },
                Ok(PollOutcome::Pending) => {
                    let interval: u64 = poll.interval;
                    go_on(poll, interval)
                },
                Ok(PollOutcome::SlowDown) => {
                    let interval: u64 = poll.interval + 5;
                    go_on(poll, interval)
                },
                Err(error) => (SignIn::Finished, Action::Finish(Err(error))),
            }
        },
        _ => unreached(),
    }
}

} // verus!
