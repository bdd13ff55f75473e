//! The check of a stored access token, as a state machine that the host drives.

#[allow(unused_imports)]
use vstd::pervasive::arbitrary;
use vstd::pervasive::unreached;
use vstd::prelude::*;
use vstd::string::*;

use crate::discovery;
use crate::discovery::ProviderMetadata;
use crate::error::{AuthError, Stage};
#[allow(unused_imports)]
use crate::error::AuthErrorView;
use crate::http;
use crate::http::{Exchange, HttpRequest, Method};
#[allow(unused_imports)]
use crate::http::RequestView;
use crate::issuer::ParsedUrl;
use crate::text;

verus! {

/// How far the check of a token has come.
#[derive(Debug, Clone)]
pub enum TokenCheck {
    /// Nothing has been done.
    Ready { issuer: ParsedUrl, access_token: String },
    /// The discovery document has been asked for.
    Discovering { issuer: ParsedUrl, access_token: String },
    /// The userinfo endpoint has been asked.
    Asking,
    /// The outcome is known.
    Finished,
}

/// What became of the request to the userinfo endpoint, whose answer counts by its status alone.
#[derive(Debug, Clone, Copy, PartialEq, Eq, Structural)]
pub enum UserinfoReply {
    /// It could not be built.
    Unbuilt,
    /// It could not be sent, or nothing came back.
    Unsent,
    /// An answer with this status came back.
    Status(u16),
}

/// What the host reports.
#[derive(Debug)]
pub enum CheckEvent {
    /// The check is to begin.
    Start,
    /// What became of the request for the discovery document.
    Discovery(Exchange<Option<ProviderMetadata>>),
    /// What became of the request to the userinfo endpoint.
    Userinfo(UserinfoReply),
}

/// What the host has to do.
#[derive(Debug)]
pub enum CheckAction {
    /// Send a request and report what became of it.
    Send(HttpRequest),
    /// Hand the outcome to the caller: whether the token is live.
    Finish(Result<bool, AuthError>),
}

/// The mathematical view of a [`CheckAction`].
pub enum CheckActionView {
    Send(RequestView),
    Finish(Result<bool, AuthErrorView>),
}

impl View for CheckAction {
    type V = CheckActionView;

    open spec fn view(&self) -> CheckActionView {
        match *self {
            CheckAction::Send(request) => CheckActionView::Send(request@),
            CheckAction::Finish(outcome) => CheckActionView::Finish(http::document_result(outcome)),
        }
    }
}

/// A request for the userinfo of whom an access token belongs to.
pub open spec fn userinfo_get(uri: Seq<char>, access_token: Seq<char>) -> RequestView {
    RequestView {
        method: Method::Get,
        uri,
        headers: seq![
            ("Authorization"@, "Bearer "@ + access_token),
            ("Accept"@, "application/json"@),
        ],
        body: seq![],
    }
}

/// What the userinfo endpoint's reply says of the token: a status of 200 that it is live, 401 and
/// 403 that it is not, and any other nothing.
pub open spec fn verdict(reply: UserinfoReply) -> Result<bool, AuthErrorView> {
    match reply {
        UserinfoReply::Unbuilt => Err(AuthErrorView::Unbuilt(Stage::Userinfo)),
        UserinfoReply::Unsent => Err(AuthErrorView::Unsent(Stage::Userinfo)),
        UserinfoReply::Status(status) => if status == 200 {
            Ok(true)
        } else if status == 401 || status == 403 {
            Ok(false)
        } else {
            Err(AuthErrorView::UnexpectedStatus(status))
        },
    }
}

/// Whether an event is what a state waits for.
pub open spec fn accepts(state: TokenCheck, event: CheckEvent) -> bool {
    match (state, event) {
        (TokenCheck::Ready { .. }, CheckEvent::Start) => true,
        (TokenCheck::Discovering { .. }, CheckEvent::Discovery(_)) => true,
        (TokenCheck::Asking, CheckEvent::Userinfo(_)) => true,
        _ => false,
    }
}

/// Where an accepted event leads, and what has to be done next.
pub open spec fn next(state: TokenCheck, event: CheckEvent) -> (TokenCheck, CheckActionView) {
    match (state, event) {
        (TokenCheck::Ready { issuer, access_token }, CheckEvent::Start) => (
            TokenCheck::Discovering { issuer, access_token },
            CheckActionView::Send(http::json_get(discovery::discovery_url(issuer@.serialization))),
        ),
        (
            TokenCheck::Discovering { issuer, access_token },
            CheckEvent::Discovery(exchange),
        ) => match http::document_of(exchange, Stage::Discovery) {
            Ok(metadata) => (
                TokenCheck::Asking,
                CheckActionView::Send(
                    userinfo_get(
                        discovery::userinfo_url(
                            issuer@.serialization,
                            text::text_option(metadata.userinfo_endpoint),
                        ),
                        access_token@,
                    ),
                ),
            ),
            Err(error) => (TokenCheck::Finished, CheckActionView::Finish(Err(error))),
        },
        (TokenCheck::Asking, CheckEvent::Userinfo(reply)) => (
            TokenCheck::Finished,
            CheckActionView::Finish(verdict(reply)),
        ),
        _ => arbitrary(),
    }
}

/// The request for the userinfo of whom an access token belongs to.
pub fn userinfo_request(uri: String, access_token: &str) -> (request: HttpRequest)
    ensures
        request@ == userinfo_get(uri@, access_token@),
        carries_token(request@, uri@, access_token@),
        request.headers@[0].1@ == "Bearer "@ + access_token@,
{
    let headers: Vec<(String, String)> = vec![
        ("Authorization".to_owned(), "Bearer ".to_owned().concat(access_token)),
        ("Accept".to_owned(), "application/json".to_owned()),
    ];
    assert(http::header_texts(headers@) =~= userinfo_get(uri@, access_token@).headers);
    HttpRequest { method: Method::Get, uri, headers, body: String::new() }
}

/// What the userinfo endpoint's reply says of the token.
pub fn token_verdict(reply: UserinfoReply) -> (result: Result<bool, AuthError>)
    ensures
        http::document_result(result) == verdict(reply),
{
    match reply {
        UserinfoReply::Unbuilt => Err(AuthError::Unbuilt(Stage::Userinfo)),
        UserinfoReply::Unsent => Err(AuthError::Unsent(Stage::Userinfo)),
        UserinfoReply::Status(status) => {
            if status == 200 {
                Ok(true)
            } else if status == 401 || status == 403 {
                Ok(false)
            } else {
                Err(AuthError::UnexpectedStatus(status))
            }
        },
    }
}

/// Whether an event is what a state waits for.
pub fn can_take(state: &TokenCheck, event: &CheckEvent) -> (answer: bool)
    ensures
        answer == accepts(*state, *event),
{
    match (state, event) {
        (TokenCheck::Ready { .. }, CheckEvent::Start) => true,
        (TokenCheck::Discovering { .. }, CheckEvent::Discovery(_)) => true,
        (TokenCheck::Asking, CheckEvent::Userinfo(_)) => true,
        _ => false,
    }
}

/// Takes the check of an access token against the provider's userinfo endpoint one step further.
///
/// It checks a stored credential without going through the browser again: a status of 200 means
/// that the token is live, 401 and 403 that it is not. Any other status is a failure, so that the
/// caller can tell "signed out" apart from "could not reach the provider".
pub fn validate_token(state: TokenCheck, event: CheckEvent) -> (step: (TokenCheck, CheckAction))
    requires
        accepts(state, event),
    ensures
        (step.0, step.1@) == next(state, event),
{
    match (state, event) {
        (TokenCheck::Ready { issuer, access_token }, CheckEvent::Start) => {
            let request = discovery::discover(&issuer);
            (TokenCheck::Discovering { issuer, access_token }, CheckAction::Send(request))
        },
        (TokenCheck::Discovering { issuer, access_token }, CheckEvent::Discovery(exchange)) => {
            match discovery::discovered(exchange) {
                Ok(metadata) => {
                    let uri = discovery::userinfo_endpoint(&issuer, metadata.userinfo_endpoint);
                    let request = userinfo_request(uri, access_token.as_str());
                    (TokenCheck::Asking, CheckAction::Send(request))
                },
                Err(error) => (TokenCheck::Finished, CheckAction::Finish(Err(error))),
            }
        },
        (TokenCheck::Asking, CheckEvent::Userinfo(reply)) => {
            (TokenCheck::Finished, CheckAction::Finish(token_verdict(reply)))
        },
        _ => unreached(),
    }
}

/// "Signed out" is never confused with a failure: the check says that a token is not live only on
/// an answer of 401 or 403, that it is live only on 200, and fails on everything else.
pub proof fn signed_out_is_told_from_failure(state: TokenCheck, event: CheckEvent)
    requires
        accepts(state, event),
    ensures
        next(state, event).1 == CheckActionView::Finish(Ok(true)) <==> event
            == CheckEvent::Userinfo(UserinfoReply::Status(200)),
        next(state, event).1 == CheckActionView::Finish(Ok(false)) <==> (event
            == CheckEvent::Userinfo(UserinfoReply::Status(401)) || event == CheckEvent::Userinfo(
            UserinfoReply::Status(403),
        )),
{
}

/// The outcome is final: exactly the steps that hand it out lead to the finished state, which
/// takes no further event.
pub proof fn verdict_is_final(state: TokenCheck, event: CheckEvent, later: CheckEvent)
    requires
        accepts(state, event),
    ensures
        next(state, event).0 is Finished <==> next(state, event).1 is Finish,
        next(state, event).0 is Finished ==> !accepts(next(state, event).0, later),
{
}

/// The access token is sent to the userinfo endpoint and nowhere else: what the provider is asked
/// first does not depend on it.
pub proof fn discovery_does_not_carry_the_token(
    issuer: ParsedUrl,
    access_token: String,
    other_token: String,
)
    ensures
        next(TokenCheck::Ready { issuer, access_token }, CheckEvent::Start).1 == next(
            TokenCheck::Ready { issuer, access_token: other_token },
            CheckEvent::Start,
        ).1,
{
}

/// Whether a request asks `uri` whom an access token belongs to: by GET, without a body, with the
/// whole token behind `Bearer ` as its credential.
pub open spec fn carries_token(
    request: RequestView,
    uri: Seq<char>,
    access_token: Seq<char>,
) -> bool {
    &&& request.method is Get
    &&& request.uri == uri
    &&& request.headers.len() == 2
    &&& request.headers[0].0 == "Authorization"@
    &&& request.headers[0].1 == "Bearer "@ + access_token
    &&& request.headers[1] == ("Accept"@, "application/json"@)
    &&& request.body.len() == 0
}

/// The check begins with the discovery document, under the issuer without its trailing slashes.
pub proof fn check_begins_with_discovery(
    issuer: ParsedUrl,
    access_token: String,
    base: Seq<char>,
)
    requires
        discovery::without_trailing_slashes(issuer.serialization@, base),
    ensures
        accepts(TokenCheck::Ready { issuer, access_token }, CheckEvent::Start),
        next(TokenCheck::Ready { issuer, access_token }, CheckEvent::Start).1 matches
            CheckActionView::Send(request) && http::is_json_get(
            request,
            base + "/.well-known/openid-configuration"@,
        ),
{
    discovery::endpoints_stand_under_the_issuer(issuer.serialization@, base, seq![]);
}

/// Once discovery has succeeded, the check asks the userinfo endpoint, which is where the provider
/// says or else under the issuer, and shows it the whole access token that was to be checked.
pub proof fn check_shows_the_whole_token(
    issuer: ParsedUrl,
    access_token: String,
    base: Seq<char>,
    exchange: Exchange<Option<ProviderMetadata>>,
    metadata: ProviderMetadata,
)
    requires
        discovery::without_trailing_slashes(issuer.serialization@, base),
        http::brought(exchange, metadata),
    ensures
        ({
            let begun = next(TokenCheck::Ready { issuer, access_token }, CheckEvent::Start).0;
            let uri = match metadata.userinfo_endpoint {
                Some(endpoint) => endpoint@,
                None => base + "/userinfo"@,
            };
            &&& accepts(begun, CheckEvent::Discovery(exchange))
            &&& next(begun, CheckEvent::Discovery(exchange)).0 is Asking
            &&& next(begun, CheckEvent::Discovery(exchange)).1 matches CheckActionView::Send(
                request,
            ) && carries_token(request, uri, access_token@)
        }),
{
    discovery::endpoints_stand_under_the_issuer(issuer.serialization@, base, seq![]);
    http::exchanges_yield_a_document_or_say_why(
        exchange,
        Stage::Discovery,
        metadata,
        AuthErrorView::Denied,
    );
}

/// Two different tokens are never shown alike.
pub proof fn different_tokens_look_different(
    uri: Seq<char>,
    other_uri: Seq<char>,
    access_token: Seq<char>,
    other_token: Seq<char>,
)
    ensures
        carries_token(userinfo_get(uri, access_token), uri, access_token),
        userinfo_get(uri, access_token).headers == userinfo_get(other_uri, other_token).headers
            ==> access_token == other_token,
{
    let shown = userinfo_get(uri, access_token).headers[0].1;
    let other = userinfo_get(other_uri, other_token).headers[0].1;
    assert(shown.skip("Bearer "@.len() as int) =~= access_token);
    assert(other.skip("Bearer "@.len() as int) =~= other_token);
}

/// A failed discovery ends the check with the error that says why.
pub proof fn failed_discovery_ends_the_check(
    issuer: ParsedUrl,
    access_token: String,
    exchange: Exchange<Option<ProviderMetadata>>,
    metadata: ProviderMetadata,
    error: AuthErrorView,
)
    requires
        http::failed_with(exchange, Stage::Discovery, error),
    ensures
        next(
            TokenCheck::Discovering { issuer, access_token },
            CheckEvent::Discovery(exchange),
        ).1 == CheckActionView::Finish(Err(error)),
{
    http::exchanges_yield_a_document_or_say_why(exchange, Stage::Discovery, metadata, error);
}

/// What the reply of the userinfo endpoint decides: the status 200 that the token is live, 401 and
/// 403 that it is not. Any other status is reported as it came, and a request that was not built
/// or not sent as such.
pub proof fn status_decides(status: u16)
    ensures
        ({
            let outcome = |reply: UserinfoReply|
                next(TokenCheck::Asking, CheckEvent::Userinfo(reply)).1;
            &&& outcome(UserinfoReply::Status(200)) == CheckActionView::Finish(Ok(true))
            &&& outcome(UserinfoReply::Status(401)) == CheckActionView::Finish(Ok(false))
            &&& outcome(UserinfoReply::Status(403)) == CheckActionView::Finish(Ok(false))
            &&& status != 200 && status != 401 && status != 403 ==> outcome(
                UserinfoReply::Status(status),
            ) == CheckActionView::Finish(Err(AuthErrorView::UnexpectedStatus(status)))
            &&& outcome(UserinfoReply::Unsent) == CheckActionView::Finish(
                Err(AuthErrorView::Unsent(Stage::Userinfo)),
            )
            &&& outcome(UserinfoReply::Unbuilt) == CheckActionView::Finish(
                Err(AuthErrorView::Unbuilt(Stage::Userinfo)),
            )
        }),
{
}

/// Every event is taken where it is waited for, and no other.
pub proof fn check_takes_what_it_waits_for(state: TokenCheck, event: CheckEvent)
    ensures
        accepts(state, event) <==> {
            ||| state is Ready && event is Start
            ||| state is Discovering && event is Discovery
            ||| state is Asking && event is Userinfo
        },
{
}

/// The view of an action shows what it holds.
pub proof fn check_action_view_is_faithful(action: CheckAction)
    ensures
        action matches CheckAction::Send(request) ==> action@ == CheckActionView::Send(request@),
        action matches CheckAction::Finish(Ok(live)) ==> action@ == CheckActionView::Finish(
            Ok(live),
        ),
        action matches CheckAction::Finish(Err(error)) ==> action@ == CheckActionView::Finish(
            Err(error@),
        ),
{
}

} // verus!
