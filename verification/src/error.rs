//! What can go wrong while signing in.

use vstd::prelude::*;
use vstd::string::*;

use crate::text;

verus! {

/// `url::ParseError`, why a string is no URL. Carried through unread.
#[verifier::external_type_specification]
#[verifier::external_body]
pub struct ExUrlParseError(url::ParseError);

/// `base64::DecodeError`, why a string is no base64. Carried through unread.
#[verifier::external_type_specification]
#[verifier::external_body]
pub struct ExBase64DecodeError(base64::DecodeError);

/// `serde_json::Error`, why bytes are no JSON. Carried through unread.
#[verifier::external_type_specification]
#[verifier::external_body]
pub struct ExJsonError(serde_json::Error);

/// The exchanges with the provider.
#[derive(Debug, Clone, Copy, PartialEq, Eq, Structural)]
pub enum Stage {
    /// Reading the provider's discovery document.
    Discovery,
    /// Asking for a device code.
    DeviceAuthorization,
    /// Asking whether the device has been approved.
    TokenPoll,
    /// Asking who an access token belongs to.
    Userinfo,
}

/// Why a sign-in or a token check failed.
#[derive(Debug)]
pub enum AuthError {
    /// The configured or derived issuer is no URL.
    InvalidIssuer(url::ParseError),
    /// The request could not be built.
    Unbuilt(Stage),
    /// The request could not be sent, or nothing came back.
    Unsent(Stage),
    /// The body of the answer could not be read.
    Unread(Stage),
    /// The provider answered with a status that is no success.
    Refused { stage: Stage, status_text: String, body: String },
    /// The body of a successful answer is not the expected document.
    Unparsed(Stage),
    /// The user turned the sign-in down.
    Denied,
    /// The device code ran out before the sign-in was approved.
    Expired,
    /// The provider gave another reason for refusing tokens.
    PollFailed(String),
    /// Tokens came without an `id_token`.
    MissingIdToken,
    /// The `id_token` has no payload segment.
    MalformedIdToken,
    /// The payload of the `id_token` is no unpadded URL-safe base64.
    UndecodablePayload(base64::DecodeError),
    /// The payload of the `id_token` is no JSON.
    UnparsedClaims(serde_json::Error),
    /// The `id_token` names no subject.
    MissingSubject,
    /// The polls that the device code's lifetime allows are used up.
    TimedOut,
    /// The userinfo endpoint answered with a status that says nothing of the token.
    UnexpectedStatus(u16),
}

/// The mathematical view of an [`AuthError`].
pub enum AuthErrorView {
    InvalidIssuer(url::ParseError),
    Unbuilt(Stage),
    Unsent(Stage),
    Unread(Stage),
    Refused { stage: Stage, status_text: Seq<char>, body: Seq<char> },
    Unparsed(Stage),
    Denied,
    Expired,
    PollFailed(Seq<char>),
    MissingIdToken,
    MalformedIdToken,
    UndecodablePayload(base64::DecodeError),
    UnparsedClaims(serde_json::Error),
    MissingSubject,
    TimedOut,
    UnexpectedStatus(u16),
}

impl View for AuthError {
    type V = AuthErrorView;

    open spec fn view(&self) -> AuthErrorView {
        match *self {
            AuthError::InvalidIssuer(cause) => AuthErrorView::InvalidIssuer(cause),
            AuthError::Unbuilt(stage) => AuthErrorView::Unbuilt(stage),
            AuthError::Unsent(stage) => AuthErrorView::Unsent(stage),
            AuthError::Unread(stage) => AuthErrorView::Unread(stage),
            AuthError::Refused { stage, status_text, body } => AuthErrorView::Refused {
                stage,
                status_text: status_text@,
                body: body@,
            },
            AuthError::Unparsed(stage) => AuthErrorView::Unparsed(stage),
            AuthError::Denied => AuthErrorView::Denied,
            AuthError::Expired => AuthErrorView::Expired,
            AuthError::PollFailed(reason) => AuthErrorView::PollFailed(reason@),
            AuthError::MissingIdToken => AuthErrorView::MissingIdToken,
            AuthError::MalformedIdToken => AuthErrorView::MalformedIdToken,
            AuthError::UndecodablePayload(cause) => AuthErrorView::UndecodablePayload(cause),
            AuthError::UnparsedClaims(cause) => AuthErrorView::UnparsedClaims(cause),
            AuthError::MissingSubject => AuthErrorView::MissingSubject,
            AuthError::TimedOut => AuthErrorView::TimedOut,
            AuthError::UnexpectedStatus(status) => AuthErrorView::UnexpectedStatus(status),
        }
    }
}

/// What is said of every failure at a stage, before what is said of the failure itself.
pub open spec fn stage_context(stage: Stage) -> Seq<Seq<char>> {
    match stage {
        Stage::DeviceAuthorization => seq!["device authorization request failed"@],
        _ => seq![],
    }
}

/// What is said of a request that was not sent.
pub open spec fn unsent_messages(stage: Stage) -> Seq<Seq<char>> {
    match stage {
        Stage::Discovery => seq!["OIDC discovery request failed"@],
        Stage::DeviceAuthorization => stage_context(stage),
        Stage::TokenPoll => seq!["token poll failed"@],
        Stage::Userinfo => seq!["userinfo request failed"@],
    }
}

/// What is said of a successful answer that is not the expected document.
pub open spec fn unparsed_message(stage: Stage) -> Seq<char> {
    match stage {
        Stage::Discovery => "failed to parse the OIDC discovery document"@,
        Stage::TokenPoll => "failed to parse the token response"@,
        _ => "failed to parse response"@,
    }
}

/// What is said of an answer that is no success, before its status.
pub open spec fn refused_opening(stage: Stage) -> Seq<char> {
    match stage {
        Stage::Discovery => "OIDC discovery failed with status "@,
        _ => "request failed with status "@,
    }
}

/// The messages of a failure, outermost first. Where an outside cause stands behind the failure,
/// its own message follows them.
pub open spec fn error_messages(error: AuthErrorView) -> Seq<Seq<char>> {
    match error {
        AuthErrorView::InvalidIssuer(_) => seq!["invalid BEX_OIDC_ISSUER / server_url"@],
        AuthErrorView::Unbuilt(stage) => stage_context(stage),
        AuthErrorView::Unsent(stage) => unsent_messages(stage),
        AuthErrorView::Unread(stage) => stage_context(stage),
        AuthErrorView::Refused { stage, status_text, body } => stage_context(stage).push(
            refused_opening(stage) + status_text + ": "@ + body,
        ),
        AuthErrorView::Unparsed(stage) => stage_context(stage).push(unparsed_message(stage)),
        AuthErrorView::Denied => seq!["sign-in was denied"@],
        AuthErrorView::Expired => seq!["the device code expired before it was approved"@],
        AuthErrorView::PollFailed(reason) => seq!["device token poll failed: "@ + reason],
        AuthErrorView::MissingIdToken => seq![
            "token response is missing an id_token; request the `openid` scope"@,
        ],
        AuthErrorView::MalformedIdToken => seq![
            "malformed id_token (expected a JWT with three segments)"@,
        ],
        AuthErrorView::UndecodablePayload(_) => seq![
            "failed to base64url-decode the id_token payload"@,
        ],
        AuthErrorView::UnparsedClaims(_) => seq!["failed to parse id_token claims"@],
        AuthErrorView::MissingSubject => seq!["id_token has no `sub` claim"@],
        AuthErrorView::TimedOut => seq!["device sign-in timed out before it was approved"@],
        AuthErrorView::UnexpectedStatus(status) => seq![
            "userinfo returned unexpected status "@ + text::decimal(status as nat),
        ],
    }
}

/// Whether an outside cause stands behind a failure: what made the request fail to be built, sent
/// or read, or the answer fail to be parsed or decoded.
pub open spec fn has_cause(error: AuthErrorView) -> bool {
    ||| error is InvalidIssuer
    ||| error is Unbuilt
    ||| error is Unsent
    ||| error is Unread
    ||| error is Unparsed
    ||| error is UndecodablePayload
    ||| error is UnparsedClaims
}

impl AuthError {
    /// The messages of this failure, outermost first.
    pub fn messages(&self) -> (messages: Vec<String>)
        ensures
            text::texts(messages@) == error_messages(self@),
    {
        let mut messages: Vec<String> = Vec::new();
        match self {
            AuthError::InvalidIssuer(_) => {
                messages.push("invalid BEX_OIDC_ISSUER / server_url".to_owned());
            },
            AuthError::Unbuilt(stage) | AuthError::Unread(stage) => {
                push_stage_context(&mut messages, *stage);
            },
            AuthError::Unsent(stage) => {
                match stage {
                    Stage::Discovery => messages.push("OIDC discovery request failed".to_owned()),
                    Stage::DeviceAuthorization => push_stage_context(&mut messages, *stage),
                    Stage::TokenPoll => messages.push("token poll failed".to_owned()),
                    Stage::Userinfo => messages.push("userinfo request failed".to_owned()),
                }
            },
            AuthError::Refused { stage, status_text, body } => {
                push_stage_context(&mut messages, *stage);
                let opening = match stage {
                    Stage::Discovery => "OIDC discovery failed with status ",
                    _ => "request failed with status ",
                };
                messages.push(
                    opening.to_owned().concat(status_text.as_str()).concat(": ").concat(
                        body.as_str(),
                    ),
                );
            },
            AuthError::Unparsed(stage) => {
                push_stage_context(&mut messages, *stage);
                let message = match stage {
                    Stage::Discovery => "failed to parse the OIDC discovery document",
                    Stage::TokenPoll => "failed to parse the token response",
                    _ => "failed to parse response",
                };
                messages.push(message.to_owned());
            },
            AuthError::Denied => messages.push("sign-in was denied".to_owned()),
            AuthError::Expired => {
                messages.push("the device code expired before it was approved".to_owned());
            },
            AuthError::PollFailed(reason) => {
                messages.push("device token poll failed: ".to_owned().concat(reason.as_str()));
            },
            AuthError::MissingIdToken => {
                messages.push(
                    "token response is missing an id_token; request the `openid` scope".to_owned(),
                );
            },
            AuthError::MalformedIdToken => {
                messages.push("malformed id_token (expected a JWT with three segments)".to_owned());
            },
            AuthError::UndecodablePayload(_) => {
                messages.push("failed to base64url-decode the id_token payload".to_owned());
            },
            AuthError::UnparsedClaims(_) => {
                messages.push("failed to parse id_token claims".to_owned());
            },
            AuthError::MissingSubject => messages.push("id_token has no `sub` claim".to_owned()),
            AuthError::TimedOut => {
                messages.push("device sign-in timed out before it was approved".to_owned());
            },
            AuthError::UnexpectedStatus(status) => {
                let number = text::format_decimal(*status as u64);
                messages.push(
                    "userinfo returned unexpected status ".to_owned().concat(number.as_str()),
                );
            },
        }
        assert(text::texts(messages@) =~= error_messages(self@));
        messages
    }

    /// Whether an outside cause stands behind this failure.
    pub fn has_cause(&self) -> (answer: bool)
        ensures
            answer == has_cause(self@),
    {
        match self {
            AuthError::InvalidIssuer(_) => true,
            AuthError::Unbuilt(_) => true,
            AuthError::Unsent(_) => true,
            AuthError::Unread(_) => true,
            AuthError::Unparsed(_) => true,
            AuthError::UndecodablePayload(_) => true,
            AuthError::UnparsedClaims(_) => true,
            _ => false,
        }
    }
}

/// Adds what is said of every failure at a stage.
fn push_stage_context(messages: &mut Vec<String>, stage: Stage)
    ensures
        text::texts(final(messages)@) == text::texts(old(messages)@) + stage_context(
            stage,
        ),
{
    match stage {
        Stage::DeviceAuthorization => {
            messages.push("device authorization request failed".to_owned());
        },
        _ => {},
    }
    assert(text::texts(messages@) =~= text::texts(old(messages)@) + stage_context(
        stage,
    ));
}

/// No failure is silent: it has a message of its own, or a cause that has one.
pub proof fn every_failure_is_explained(error: AuthErrorView)
    ensures
        error_messages(error).len() > 0 || has_cause(error),
{
}

/// What the provider or the host reports is passed on whole: the status and the body of a refusal,
/// the reason for refusing tokens, and the status that says nothing of a token, as a numeral.
pub proof fn reports_are_passed_on(
    stage: Stage,
    status_text: Seq<char>,
    body: Seq<char>,
    reason: Seq<char>,
    status: u16,
)
    ensures
        error_messages(AuthErrorView::Refused { stage, status_text, body }).last() == (if stage
            == Stage::Discovery {
            "OIDC discovery failed with status "@
        } else {
            "request failed with status "@
        }) + status_text + ": "@ + body,
        error_messages(AuthErrorView::PollFailed(reason)) == seq![
            "device token poll failed: "@ + reason,
        ],
        exists|numeral: Seq<char>|
            text::decimal_u64(numeral) == Some(status as u64) && error_messages(
                AuthErrorView::UnexpectedStatus(status),
            ) == seq![#[trigger] ("userinfo returned unexpected status "@ + numeral)],
{
    let numeral = text::decimal(status as nat);
    text::decimal_reads_back(status as u64);
    assert(error_messages(AuthErrorView::UnexpectedStatus(status)) =~= seq![
        "userinfo returned unexpected status "@ + numeral,
    ]);
}

/// A failure at a stage says at which: every failed request for a device code opens with a message
/// of its own, and each stage has one for a request that was not sent and one for an answer that
/// does not parse.
pub proof fn stages_are_told_apart(stage: Stage, status_text: Seq<char>, body: Seq<char>)
    ensures
        ({
            let unbuilt = error_messages(AuthErrorView::Unbuilt(stage));
            let unsent = error_messages(AuthErrorView::Unsent(stage));
            let unread = error_messages(AuthErrorView::Unread(stage));
            let refused = error_messages(AuthErrorView::Refused { stage, status_text, body });
            let unparsed = error_messages(AuthErrorView::Unparsed(stage));
            &&& stage == Stage::DeviceAuthorization ==> {
                &&& unbuilt == seq!["device authorization request failed"@]
                &&& unsent == unbuilt
                &&& unread == unbuilt
                &&& refused.len() == 2 && refused[0] == unbuilt[0]
                &&& unparsed.len() == 2 && unparsed[0] == unbuilt[0]
            }
            &&& stage != Stage::DeviceAuthorization ==> {
                &&& unbuilt.len() == 0
                &&& unread.len() == 0
                &&& unsent.len() == 1 && refused.len() == 1 && unparsed.len() == 1
            }
            &&& stage == Stage::Discovery ==> unsent[0] == "OIDC discovery request failed"@
                && unparsed[0] == "failed to parse the OIDC discovery document"@
            &&& stage == Stage::TokenPoll ==> unsent[0] == "token poll failed"@ && unparsed[0]
                == "failed to parse the token response"@
            &&& stage == Stage::Userinfo ==> unsent[0] == "userinfo request failed"@
            &&& stage == Stage::DeviceAuthorization || stage == Stage::Userinfo ==> unparsed.last()
                == "failed to parse response"@
        }),
{
}

/// The view of a failure shows what it holds.
pub proof fn error_view_is_faithful(error: AuthError)
    ensures
        error matches AuthError::InvalidIssuer(cause) ==> error@ == AuthErrorView::InvalidIssuer(
            cause,
        ),
        error matches AuthError::Unbuilt(stage) ==> error@ == AuthErrorView::Unbuilt(stage),
        error matches AuthError::Unsent(stage) ==> error@ == AuthErrorView::Unsent(stage),
        error matches AuthError::Unread(stage) ==> error@ == AuthErrorView::Unread(stage),
        error matches AuthError::Refused { stage, status_text, body } ==> error@ == (
        AuthErrorView::Refused { stage, status_text: status_text@, body: body@ }),
        error matches AuthError::Unparsed(stage) ==> error@ == AuthErrorView::Unparsed(stage),
        error is Denied <==> error@ == AuthErrorView::Denied,
        error is Expired <==> error@ == AuthErrorView::Expired,
        error matches AuthError::PollFailed(reason) ==> error@ == AuthErrorView::PollFailed(
            reason@,
        ),
        error is MissingIdToken <==> error@ == AuthErrorView::MissingIdToken,
        error is MalformedIdToken <==> error@ == AuthErrorView::MalformedIdToken,
        error matches AuthError::UndecodablePayload(cause) ==> error@
            == AuthErrorView::UndecodablePayload(cause),
        error matches AuthError::UnparsedClaims(cause) ==> error@ == AuthErrorView::UnparsedClaims(
            cause,
        ),
        error is MissingSubject <==> error@ == AuthErrorView::MissingSubject,
        error is TimedOut <==> error@ == AuthErrorView::TimedOut,
        error matches AuthError::UnexpectedStatus(status) ==> error@
            == AuthErrorView::UnexpectedStatus(status),
{
}

/// A cause stands behind exactly the failures of something outside: a request, an answer, a URL or
/// a token that could not be built, sent, read, parsed or decoded.
pub proof fn causes_come_from_outside(error: AuthErrorView)
    ensures
        has_cause(error) <==> !(error is Refused || error is Denied || error is Expired
            || error is PollFailed || error is MissingIdToken || error is MalformedIdToken
            || error is MissingSubject || error is TimedOut || error is UnexpectedStatus),
{
}

} // verus!
