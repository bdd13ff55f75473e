//! What a whole sign-in does, from the configuration and what the provider answers to the requests
//! that are sent, the pauses that are made, and the outcome.

use vstd::prelude::*;
use vstd::string::*;

#[allow(unused_imports)]
use crate::config::OidcConfig;
#[allow(unused_imports)]
use crate::device;
#[allow(unused_imports)]
use crate::device::{
    AuthTokens, DeviceAuthorizationResponse, PollOutcome, TokenBody, TokenResponse,
};
#[allow(unused_imports)]
use crate::discovery;
#[allow(unused_imports)]
use crate::discovery::ProviderMetadata;
#[allow(unused_imports)]
use crate::error::{AuthErrorView, Stage};
#[allow(unused_imports)]
use crate::http;
#[allow(unused_imports)]
use crate::http::Exchange;
#[allow(unused_imports)]
use crate::identity;
#[allow(unused_imports)]
use crate::sign_in;
#[allow(unused_imports)]
use crate::sign_in::{Action, ActionView, Poll, SignIn, SignInEvent};
#[allow(unused_imports)]
use crate::sign_in_laws;
#[allow(unused_imports)]
use crate::text;

verus! {

/// The endpoints that the provider's answer to the request for the discovery document names: the
/// second event of a run.
pub open spec fn metadata_of(events: Seq<SignInEvent>) -> Option<ProviderMetadata> {
    if events.len() < 2 {
        None
    } else {
        match events[1] {
            SignInEvent::Discovery(exchange) => if http::succeeded(exchange) {
                exchange->Answered_0.document
            } else {
                None
            },
            _ => None,
        }
    }
}

/// The first pause that a provider asks for: five seconds if it asks for none, and one if it asks
/// for none at all.
pub open spec fn pause_asked(device: DeviceAuthorizationResponse) -> int {
    match device.interval {
        None => 5,
        Some(seconds) => if seconds == 0 {
            1
        } else {
            seconds as int
        },
    }
}

/// Whether `n` polls are two more than the pauses that fit into the lifetime of a device code.
pub open spec fn polls_fit(device: DeviceAuthorizationResponse, n: int) -> bool {
    let lifetime = match device.expires_in {
        None => 600,
        Some(seconds) => seconds as int,
    };
    &&& n >= 2
    &&& (n - 2) * pause_asked(device) <= lifetime
    &&& lifetime < (n - 1) * pause_asked(device)
}

/// The pauses and polls in these terms are those of the device.
proof fn lemma_numbers(device: DeviceAuthorizationResponse, n: int)
    ensures
        pause_asked(device) == device::first_interval(device),
        polls_fit(device, device::polls_allowed(device) as int),
        polls_fit(device, n) ==> n == device::polls_allowed(device),
{
    let pause = pause_asked(device);
    let lifetime = match device.expires_in {
        None => 600,
        Some(seconds) => seconds as int,
    };
    let quotient = lifetime / pause;
    assert(quotient >= 0 && quotient * pause <= lifetime && lifetime < (quotient + 1) * pause)
        by (nonlinear_arith)
        requires
            quotient == lifetime / pause,
            lifetime >= 0,
            pause > 0,
    ;
    if polls_fit(device, n) {
        let other = n - 2;
        assert(other == quotient) by (nonlinear_arith)
            requires
                other * pause <= lifetime,
                lifetime < (other + 1) * pause,
                quotient * pause <= lifetime,
                lifetime < (quotient + 1) * pause,
                pause > 0,
        ;
    }
}

/// What a run has gathered, and from where.
proof fn lemma_gathered(config: OidcConfig, events: Seq<SignInEvent>)
    requires
        sign_in_laws::accepted(SignIn::Ready { config }, events),
    ensures
        match sign_in_laws::after(SignIn::Ready { config }, events) {
            SignIn::Ready { config: kept } => events.len() == 0 && kept == config,
            SignIn::Discovering { config: kept } => events.len() == 1 && kept == config,
            SignIn::Authorizing { token_endpoint, client_id } => {
                &&& events.len() == 2
                &&& metadata_of(events) matches Some(metadata) && token_endpoint
                    == metadata.token_endpoint
                &&& client_id == config.client_id
            },
            SignIn::Prompting { token_endpoint, client_id, device } => {
                &&& events.len() == 3
                &&& metadata_of(events) matches Some(metadata) && token_endpoint
                    == metadata.token_endpoint
                &&& client_id == config.client_id
                &&& sign_in_laws::device_of(events) == Some(device)
                &&& sign_in_laws::slow_downs(events) == 0
                &&& sign_in_laws::polls(SignIn::Ready { config }, events) == 0
            },
            SignIn::Sleeping { poll } => gathered(config, events, poll)
                && sign_in_laws::polls(SignIn::Ready { config }, events) + poll.polls_left
                == device::polls_allowed(sign_in_laws::device_of(events)->Some_0),
            SignIn::Polling { poll } => gathered(config, events, poll)
                && sign_in_laws::polls(SignIn::Ready { config }, events) + poll.polls_left
                == device::polls_allowed(sign_in_laws::device_of(events)->Some_0) + 1,
            SignIn::Finished => true,
        },
        events.len() <= 2 ==> sign_in_laws::slow_downs(events) == 0 && sign_in_laws::polls(
            SignIn::Ready { config },
            events,
        ) == 0,
    decreases events.len(),
{
    if events.len() > 0 {
        let earlier = events.drop_last();
        lemma_gathered(config, earlier);
        if events.len() > 2 {
            assert(earlier[1] == events[1]);
        }
        if events.len() > 3 {
            assert(earlier[2] == events[2]);
        }
        if let SignInEvent::Token(exchange) = events.last() {
            sign_in_laws::lemma_refused(exchange);
        }
        if let Some(device) = sign_in_laws::device_of(events) {
            lemma_numbers(device, 2);
        }
    }
}

/// Whether a polling is for the device code that the provider handed out, at the endpoint that it
/// named, as the configured client, with the pause that it asked for and stretched.
pub open spec fn gathered(config: OidcConfig, events: Seq<SignInEvent>, poll: Poll) -> bool {
    &&& events.len() > 3
    &&& poll.polls_left >= 1
    &&& metadata_of(events) matches Some(metadata) && poll.token_endpoint
        == metadata.token_endpoint
    &&& poll.client_id == config.client_id
    &&& sign_in_laws::device_of(events) matches Some(device) && {
        &&& poll.device_code == device.device_code
        &&& poll.interval == pause_asked(device) + 5 * sign_in_laws::slow_downs(events)
    }
}

/// A sign-in begins with the discovery document, under the configured issuer without its trailing
/// slashes.
pub proof fn discovery_comes_first(config: OidcConfig, base: Seq<char>)
    requires
        discovery::without_trailing_slashes(config.issuer.serialization@, base),
    ensures
        sign_in::accepts(SignIn::Ready { config }, SignInEvent::Start),
        sign_in::next(SignIn::Ready { config }, SignInEvent::Start).1 matches ActionView::Send(
            request,
        ) && http::is_json_get(request, base + "/.well-known/openid-configuration"@),
{
    discovery::endpoints_stand_under_the_issuer(config.issuer.serialization@, base, seq![]);
}

/// Once discovery has succeeded, a device code is asked for: at the endpoint that the provider
/// named for it, for the configured client, and for the configured scopes, which are the words of
/// what is sent.
pub proof fn device_code_is_asked_for_as_configured(
    config: OidcConfig,
    exchange: Exchange<Option<ProviderMetadata>>,
    metadata: ProviderMetadata,
)
    requires
        http::brought(exchange, metadata),
    ensures
        ({
            let begun = sign_in::next(SignIn::Ready { config }, SignInEvent::Start).0;
            let scopes = text::texts(config.scopes@);
            let scope = text::joined(scopes, seq![' ']);
            &&& sign_in::accepts(begun, SignInEvent::Discovery(exchange))
            &&& sign_in::next(begun, SignInEvent::Discovery(exchange)).1 matches ActionView::Send(
                request,
            ) && http::is_form_post(
                request,
                metadata.device_authorization_endpoint@,
                seq![("client_id"@, config.client_id@), ("scope"@, scope)],
            )
            &&& (forall|i: int| 0 <= i < scopes.len() ==> text::is_word(#[trigger] scopes[i]))
                ==> text::words(scope) == scopes
        }),
{
    let scopes = text::texts(config.scopes@);
    let scope = text::joined(scopes, seq![' ']);
    http::exchanges_yield_a_document_or_say_why(
        exchange,
        Stage::Discovery,
        metadata,
        AuthErrorView::Denied,
    );
    reveal_strlit(" ");
    assert(" "@ =~= seq![' ']);
    if forall|i: int| 0 <= i < scopes.len() ==> text::is_word(#[trigger] scopes[i]) {
        text::joined_words_are_found_again(scopes);
    }
    let pairs = seq![("client_id"@, config.client_id@), ("scope"@, scope)];
    assert(device::device_parameters(config.client_id@, scopes) =~= pairs);
    http::form_posts_carry_their_pairs(metadata.device_authorization_endpoint@, pairs);
    let begun = sign_in::next(SignIn::Ready { config }, SignInEvent::Start).0;
    let request = sign_in::next(begun, SignInEvent::Discovery(exchange)).1->Send_0;
    assert(http::is_form_post(request, metadata.device_authorization_endpoint@, pairs));
}

/// The user is shown what the provider's answer holds for them.
pub proof fn user_is_shown_what_the_provider_sent(
    config: OidcConfig,
    events: Seq<SignInEvent>,
    device: DeviceAuthorizationResponse,
)
    requires
        sign_in_laws::accepted(SignIn::Ready { config }, events),
        events.len() == 3,
        sign_in_laws::device_of(events) == Some(device),
    ensures
        sign_in_laws::last_action(SignIn::Ready { config }, events) matches ActionView::Prompt(
            prompt,
        ) && {
            &&& prompt.user_code == device.user_code
            &&& prompt.verification_uri == device.verification_uri
            &&& prompt.verification_uri_complete == device.verification_uri_complete
        },
{
    let earlier = events.drop_last();
    let start = SignIn::Ready { config };
    lemma_gathered(config, earlier);
    assert(sign_in_laws::after(start, earlier) is Authorizing);
}

/// Every poll is sent to the token endpoint that the provider named, for the device code that it
/// handed out, as the configured client: the one that the code was asked for as.
pub proof fn every_poll_is_for_the_device_and_the_client(
    config: OidcConfig,
    events: Seq<SignInEvent>,
)
    requires
        sign_in_laws::accepted(SignIn::Ready { config }, events),
        events.len() > 0,
        events.last() is Slept,
    ensures
        metadata_of(events) is Some,
        sign_in_laws::device_of(events) is Some,
        sign_in_laws::last_action(SignIn::Ready { config }, events) matches ActionView::Send(
            request,
        ) && http::is_form_post(
            request,
            metadata_of(events)->Some_0.token_endpoint@,
            seq![
                ("grant_type"@, "urn:ietf:params:oauth:grant-type:device_code"@),
                ("device_code"@, sign_in_laws::device_of(events)->Some_0.device_code@),
                ("client_id"@, config.client_id@),
            ],
        ),
{
    let earlier = events.drop_last();
    lemma_gathered(config, earlier);
    assert(earlier[1] == events[1]);
    assert(earlier[2] == events[2]);
    let metadata = metadata_of(events)->Some_0;
    let device = sign_in_laws::device_of(events)->Some_0;
    let pairs = seq![
        ("grant_type"@, "urn:ietf:params:oauth:grant-type:device_code"@),
        ("device_code"@, device.device_code@),
        ("client_id"@, config.client_id@),
    ];
    assert(device::poll_parameters(config.client_id@, device.device_code@) =~= pairs);
    http::form_posts_carry_their_pairs(metadata.token_endpoint@, pairs);
}

/// The pauses. After the prompt comes the one that the provider asked for; after an answer that the
/// device was not approved yet, the same and five seconds for each time that the provider asked for
/// fewer polls; and no further one once as many polls have been sent as fit into the lifetime of
/// the device code, and two more: then the sign-in has timed out.
pub proof fn pauses_are_those_asked_for(config: OidcConfig, events: Seq<SignInEvent>, n: int)
    requires
        sign_in_laws::accepted(SignIn::Ready { config }, events),
        events.len() > 0,
        sign_in_laws::device_of(events) matches Some(device) && polls_fit(device, n),
    ensures
        ({
            let start = SignIn::Ready { config };
            let device = sign_in_laws::device_of(events)->Some_0;
            let action = sign_in_laws::last_action(start, events);
            let pause = pause_asked(device) + 5 * sign_in_laws::slow_downs(events);
            &&& events.last() is Prompted ==> (action matches ActionView::Sleep(seconds) && seconds
                == pause_asked(device))
            &&& sign_in_laws::keeps_waiting(events.last()) || sign_in_laws::slows_down(
                events.last(),
            ) ==> if sign_in_laws::polls(start, events) < n {
                action matches ActionView::Sleep(seconds) && seconds == pause
            } else {
                action == ActionView::Finish(Err(AuthErrorView::TimedOut))
            }
        }),
{
    let start = SignIn::Ready { config };
    let earlier = events.drop_last();
    let device = sign_in_laws::device_of(events)->Some_0;
    lemma_numbers(device, n);
    lemma_gathered(config, earlier);
    if events.len() > 3 {
        assert(earlier[2] == events[2]);
    }
    if let SignInEvent::Token(exchange) = events.last() {
        sign_in_laws::lemma_refused(exchange);
    }
}

/// How a poll's answer ends the sign-in. A success has to carry tokens, the tokens an `id_token`,
/// and that an id: then the tokens are handed out, and otherwise the error says what is missing.
/// A refusal is told by its code, or by the whole answer where it gives none.
pub proof fn answers_to_a_poll_decide(
    poll: Poll,
    exchange: Exchange<TokenBody>,
    tokens: TokenResponse,
    id_token: String,
    code: String,
)
    requires
        sign_in::accepts(SignIn::Polling { poll }, SignInEvent::Token(exchange)),
    ensures
        ({
            let event = SignInEvent::Token(exchange);
            let action = sign_in::next(SignIn::Polling { poll }, event).1;
            &&& exchange is Unbuilt ==> action == failed(AuthErrorView::Unbuilt(Stage::TokenPoll))
            &&& exchange is Unsent ==> action == failed(AuthErrorView::Unsent(Stage::TokenPoll))
            &&& exchange is Unread ==> action == failed(AuthErrorView::Unread(Stage::TokenPoll))
            &&& http::succeeded(exchange) && exchange->Answered_0.document.tokens is None
                ==> action == failed(AuthErrorView::Unparsed(Stage::TokenPoll))
            &&& http::succeeded(exchange) && exchange->Answered_0.document.tokens == Some(tokens)
                ==> {
                &&& tokens.id_token is None ==> action == failed(AuthErrorView::MissingIdToken)
                &&& tokens.id_token == Some(id_token) ==> (identity::user_id_of_token(
                    id_token@,
                ) matches Ok(user_id) ==> action == ActionView::Finish(
                    Ok(
                        AuthTokens {
                            user_id,
                            access_token: tokens.access_token,
                            refresh_token: tokens.refresh_token,
                        },
                    ),
                ))
                &&& tokens.id_token == Some(id_token) ==> (identity::user_id_of_token(
                    id_token@,
                ) matches Err(error) ==> action == failed(error))
            }
            &&& sign_in_laws::refuses_with(event, "access_denied"@) ==> action == failed(
                AuthErrorView::Denied,
            )
            &&& sign_in_laws::refuses_with(event, "expired_token"@) ==> action == failed(
                AuthErrorView::Expired,
            )
            &&& sign_in_laws::refuses_with(event, code@) && code@ != "authorization_pending"@
                && code@ != "slow_down"@ && code@ != "access_denied"@ && code@ != "expired_token"@
                ==> action == failed(AuthErrorView::PollFailed(code@))
            &&& exchange is Answered && !http::succeeded(exchange)
                && exchange->Answered_0.document.error is None ==> action == failed(
                AuthErrorView::PollFailed(
                    "HTTP "@ + exchange->Answered_0.status_text@ + ": "@
                        + exchange->Answered_0.body@,
                ),
            )
        }),
{
    sign_in_laws::lemma_codes();
    if let Exchange::Answered(answer) = exchange {
        if answer.document.error is None {
            assert(device::refusal(answer)[0] == "HTTP "@[0]);
        }
    }
}

/// The action that ends a sign-in with an error.
pub open spec fn failed(error: AuthErrorView) -> ActionView {
    ActionView::Finish(Err(error))
}

/// A failed request for the discovery document, or for a device code, ends the sign-in with the
/// error that says why, at the stage that it happened at.
pub proof fn failed_requests_end_the_sign_in(
    config: OidcConfig,
    token_endpoint: String,
    client_id: String,
    discovered: Exchange<Option<ProviderMetadata>>,
    authorized: Exchange<Option<DeviceAuthorizationResponse>>,
    metadata: ProviderMetadata,
    device: DeviceAuthorizationResponse,
    error: AuthErrorView,
)
    ensures
        http::failed_with(discovered, Stage::Discovery, error) ==> sign_in::next(
            SignIn::Discovering { config },
            SignInEvent::Discovery(discovered),
        ).1 == failed(error),
        http::failed_with(authorized, Stage::DeviceAuthorization, error) ==> sign_in::next(
            SignIn::Authorizing { token_endpoint, client_id },
            SignInEvent::Device(authorized),
        ).1 == failed(error),
{
    http::exchanges_yield_a_document_or_say_why(discovered, Stage::Discovery, metadata, error);
    http::exchanges_yield_a_document_or_say_why(
        authorized,
        Stage::DeviceAuthorization,
        device,
        error,
    );
}

/// Every event is taken where it is waited for, but for numbers that 64 bits cannot hold: that of
/// the polls, once the user has been told, and that of the seconds, once the provider asks for
/// fewer polls.
pub proof fn sign_in_takes_what_it_waits_for(state: SignIn, event: SignInEvent, n: int)
    ensures
        state is Ready ==> (sign_in::accepts(state, event) <==> event is Start),
        state is Discovering ==> (sign_in::accepts(state, event) <==> event is Discovery),
        state is Authorizing ==> (sign_in::accepts(state, event) <==> event is Device),
        state matches SignIn::Prompting { device, .. } ==> (polls_fit(device, n) ==> (
        sign_in::accepts(state, event) <==> event is Prompted && n <= u64::MAX)),
        state is Sleeping ==> (sign_in::accepts(state, event) <==> event is Slept),
        state matches SignIn::Polling { poll } ==> (sign_in::accepts(state, event) <==> (
        event is Token && (sign_in_laws::slows_down(event) ==> poll.interval + 5 <= u64::MAX))),
        state is Finished ==> !sign_in::accepts(state, event),
{
    if let SignIn::Prompting { device, .. } = state {
        lemma_numbers(device, n);
    }
    if let SignInEvent::Token(exchange) = event {
        sign_in_laws::lemma_refused(exchange);
    }
}

/// The view of an action shows what it holds.
pub proof fn action_view_is_faithful(action: Action)
    ensures
        action matches Action::Send(request) ==> action@ == ActionView::Send(request@),
        action matches Action::Prompt(prompt) ==> action@ == ActionView::Prompt(prompt),
        action matches Action::Sleep(seconds) ==> action@ == ActionView::Sleep(seconds),
        action matches Action::Finish(Ok(tokens)) ==> action@ == ActionView::Finish(Ok(tokens)),
        action matches Action::Finish(Err(error)) ==> action@ == ActionView::Finish(Err(error@)),
{
}

} // verus!
