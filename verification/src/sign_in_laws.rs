//! What holds of a whole sign-in, whatever the host reports.

use vstd::prelude::*;

#[allow(unused_imports)]
use crate::device;
#[allow(unused_imports)]
use crate::device::{AuthTokens, DeviceAuthorizationResponse, PollOutcome};
#[allow(unused_imports)]
use crate::error::{AuthErrorView, Stage};
#[allow(unused_imports)]
use crate::http;
#[allow(unused_imports)]
use crate::http::Exchange;
#[allow(unused_imports)]
use crate::identity;
#[allow(unused_imports)]
use crate::sign_in;
#[allow(unused_imports)]
use crate::sign_in::{ActionView, Poll, SignIn, SignInEvent};

verus! {

/// Where a run of events leads.
pub open spec fn after(state: SignIn, events: Seq<SignInEvent>) -> SignIn
    decreases events.len(),
{
    if events.len() == 0 {
        state
    } else {
        sign_in::next(after(state, events.drop_last()), events.last()).0
    }
}

/// Whether every event of a run is accepted when it comes.
pub open spec fn accepted(state: SignIn, events: Seq<SignInEvent>) -> bool
    decreases events.len(),
{
    events.len() == 0 || (accepted(state, events.drop_last()) && sign_in::accepts(
        after(state, events.drop_last()),
        events.last(),
    ))
}

/// The action that the last event of a run calls for.
pub open spec fn last_action(state: SignIn, events: Seq<SignInEvent>) -> ActionView {
    sign_in::next(after(state, events.drop_last()), events.last()).1
}

/// How often a run has the user prompted.
pub open spec fn prompts(state: SignIn, events: Seq<SignInEvent>) -> nat
    decreases events.len(),
{
    if events.len() == 0 {
        0
    } else {
        prompts(state, events.drop_last()) + if last_action(state, events) is Prompt {
            1nat
        } else {
            0
        }
    }
}

/// How many polls a run sends: the requests that follow a pause.
pub open spec fn polls(state: SignIn, events: Seq<SignInEvent>) -> nat
    decreases events.len(),
{
    if events.len() == 0 {
        0
    } else {
        polls(state, events.drop_last()) + if events.last() is Slept {
            1nat
        } else {
            0
        }
    }
}

/// Whether an event is a poll's answer that asks for fewer polls.
pub open spec fn slows_down(event: SignInEvent) -> bool {
    refuses_with(event, "slow_down"@)
}

/// Whether an event is a poll's answer that says that the device was not approved yet.
pub open spec fn keeps_waiting(event: SignInEvent) -> bool {
    refuses_with(event, "authorization_pending"@)
}

/// Whether an event is a poll's answer, with a status that is none of the two hundreds, that gives
/// `code` for its error.
pub open spec fn refuses_with(event: SignInEvent, code: Seq<char>) -> bool {
    event matches SignInEvent::Token(Exchange::Answered(answer)) && !(200 <= answer.status
        && answer.status < 300) && (answer.document.error matches Some(given) && given@ == code)
}

/// The codes and the opening of a refusal without a code, told apart by their first letters.
pub proof fn lemma_codes()
    ensures
        "authorization_pending"@[0] == 'a',
        "authorization_pending"@.len() == 21,
        "slow_down"@[0] == 's',
        "access_denied"@[0] == 'a',
        "access_denied"@.len() == 13,
        "expired_token"@[0] == 'e',
        "HTTP "@.len() == 5,
        "HTTP "@[0] == 'H',
{
    reveal_strlit("authorization_pending");
    reveal_strlit("slow_down");
    reveal_strlit("access_denied");
    reveal_strlit("expired_token");
    reveal_strlit("HTTP ");
}

/// What an answer that is no success comes to, by its code.
pub proof fn lemma_refused(exchange: Exchange<device::TokenBody>)
    ensures
        slows_down(SignInEvent::Token(exchange)) <==> device::poll_outcome(exchange) == Ok::<
            PollOutcome,
            AuthErrorView,
        >(PollOutcome::SlowDown),
        keeps_waiting(SignInEvent::Token(exchange)) <==> device::poll_outcome(exchange) == Ok::<
            PollOutcome,
            AuthErrorView,
        >(PollOutcome::Pending),
{
    lemma_codes();
    if let Exchange::Answered(answer) = exchange {
        if answer.document.error is None {
            assert(device::refusal(answer)[0] == "HTTP "@[0]);
        }
    }
}

/// How often a run is asked for fewer polls.
pub open spec fn slow_downs(events: Seq<SignInEvent>) -> nat
    decreases events.len(),
{
    if events.len() == 0 {
        0
    } else {
        slow_downs(events.drop_last()) + if slows_down(events.last()) {
            1nat
        } else {
            0
        }
    }
}

/// Whether a state comes before the prompt.
pub open spec fn before_prompt(state: SignIn) -> bool {
    state is Ready || state is Discovering || state is Authorizing
}

/// The polling that a state is in, if it is in one.
pub open spec fn poll_of(state: SignIn) -> Option<Poll> {
    match state {
        SignIn::Sleeping { poll } => Some(poll),
        SignIn::Polling { poll } => Some(poll),
        _ => None,
    }
}

/// The user is prompted at most once, and no poll is sent before the prompt.
pub proof fn prompt_comes_once_and_before_polls(state: SignIn, events: Seq<SignInEvent>)
    requires
        state is Ready,
        accepted(state, events),
    ensures
        prompts(state, events) <= 1,
        polls(state, events) > 0 ==> prompts(state, events) == 1,
{
    lemma_prompts(state, events);
}

proof fn lemma_prompts(state: SignIn, events: Seq<SignInEvent>)
    requires
        state is Ready,
        accepted(state, events),
    ensures
        before_prompt(after(state, events)) ==> prompts(state, events) == 0 && polls(state, events)
            == 0,
        after(state, events) is Prompting || poll_of(after(state, events)) is Some ==> prompts(
            state,
            events,
        ) == 1,
        prompts(state, events) <= 1,
        polls(state, events) > 0 ==> prompts(state, events) == 1,
    decreases events.len(),
{
    if events.len() > 0 {
        lemma_prompts(state, events.drop_last());
    }
}

/// Whoever was handed a device code is prompted, whatever numbers came with it.
pub proof fn every_device_is_prompted_for(
    state: SignIn,
    device: DeviceAuthorizationResponse,
    event: SignInEvent,
)
    requires
        state is Authorizing,
        event matches SignInEvent::Device(exchange) && http::document_of(
            exchange,
            Stage::DeviceAuthorization,
        ) == Ok::<DeviceAuthorizationResponse, AuthErrorView>(device),
    ensures
        sign_in::accepts(state, event),
        sign_in::next(state, event).1 == ActionView::Prompt(device::prompt_of(device)),
        sign_in::next(state, event).1 matches ActionView::Prompt(prompt) && {
            &&& prompt.user_code == device.user_code
            &&& prompt.verification_uri == device.verification_uri
            &&& prompt.verification_uri_complete == device.verification_uri_complete
        },
{
}

/// A device code is polled for at most as often as its lifetime allows, and every run ends: each
/// poll takes a pause and an answer, and the prompt comes on top.
pub proof fn polls_are_bounded(start: SignIn, events: Seq<SignInEvent>)
    requires
        start is Prompting,
        accepted(start, events),
    ensures
        polls(start, events) <= device::polls_allowed(start->device),
        events.len() <= 2 * device::polls_allowed(start->device) + 1,
{
    lemma_polls(start, events);
}

proof fn lemma_polls(start: SignIn, events: Seq<SignInEvent>)
    requires
        start is Prompting,
        accepted(start, events),
    ensures
        ({
            let n = polls(start, events);
            let allowed = device::polls_allowed(start->device);
            match after(start, events) {
                SignIn::Prompting { .. } => events.len() == 0 && n == 0 && after(start, events)
                    == start,
                SignIn::Sleeping { poll: now } => {
                    &&& now.polls_left >= 1
                    &&& n + now.polls_left == allowed
                    &&& events.len() == 2 * n + 1
                },
                SignIn::Polling { poll: now } => {
                    &&& now.polls_left >= 1
                    &&& n + now.polls_left == allowed + 1
                    &&& events.len() == 2 * n
                },
                SignIn::Finished => {
                    &&& n <= allowed
                    &&& events.len() == 2 * n + 1
                },
                _ => false,
            }
        }),
    decreases events.len(),
{
    lemma_polls_allowed(start->device);
    if events.len() > 0 {
        lemma_polls(start, events.drop_last());
    }
}

/// A device code always allows two polls.
proof fn lemma_polls_allowed(device: DeviceAuthorizationResponse)
    ensures
        device::first_interval(device) >= 1,
        device::polls_allowed(device) >= 2,
{
    vstd::arithmetic::div_mod::lemma_div_pos_is_pos(
        lifetime(device) as int,
        device::first_interval(device) as int,
    );
}

/// A sign-in times out exactly when the last of the polls that its device code allows was not
/// approved: no earlier, and not without having sent them all.
pub proof fn time_out_comes_after_the_last_poll(start: SignIn, events: Seq<SignInEvent>)
    requires
        start is Prompting,
        accepted(start, events),
        events.len() > 0,
        events.last() matches SignInEvent::Token(exchange) && (device::poll_outcome(
            exchange,
        ) matches Ok(outcome) && !(outcome is Tokens)),
    ensures
        (last_action(start, events) == ActionView::Finish(Err(AuthErrorView::TimedOut))) <==> polls(
            start,
            events,
        ) == device::polls_allowed(start->device),
{
    lemma_polls(start, events.drop_last());
    lemma_polls(start, events);
}

/// The polling that follows the prompt has the number of polls that the lifetime of the device
/// code allows, which is at least two, and a pause of at least a second.
pub proof fn polling_starts_with_the_lifetime(start: SignIn)
    requires
        start is Prompting,
        sign_in::accepts(start, SignInEvent::Prompted),
    ensures
        sign_in::next(start, SignInEvent::Prompted).0 matches SignIn::Sleeping { poll } && {
            &&& poll.polls_left == device::polls_allowed(start->device)
            &&& poll.polls_left >= 2
            &&& poll.interval == device::first_interval(start->device)
            &&& poll.interval >= 1
        },
{
    lemma_polls_allowed(start->device);
}

/// The pause only ever grows, by five seconds for each time that the provider asks for fewer
/// polls; what is polled for stays the same, and so does every poll's request.
pub proof fn slow_down_stretches_the_pause(start: SignIn, events: Seq<SignInEvent>)
    requires
        start is Prompting,
        accepted(start, events),
        poll_of(after(start, events)) is Some,
    ensures
        ({
            let now = poll_of(after(start, events))->Some_0;
            &&& now.interval == device::first_interval(start->device) + 5 * slow_downs(events)
            &&& now.token_endpoint == start->Prompting_token_endpoint
            &&& now.client_id == start->Prompting_client_id
            &&& now.device_code == start->device.device_code
            &&& sign_in::poll_request(now) == http::form_post(
                start->Prompting_token_endpoint@,
                device::poll_parameters(
                    start->Prompting_client_id@,
                    start->device.device_code@,
                ),
            )
        }),
    decreases events.len(),
{
    let earlier = events.drop_last();
    lemma_polls(start, earlier);
    if let SignInEvent::Token(exchange) = events.last() {
        lemma_refused(exchange);
    }
    if poll_of(after(start, earlier)) is Some {
        slow_down_stretches_the_pause(start, earlier);
    } else {
        assert(slow_downs(earlier) == 0);
    }
}

/// Every poll is preceded by a pause of the current length, the first one too.
pub proof fn every_poll_waits_first(state: SignIn, event: SignInEvent)
    requires
        sign_in::accepts(state, event),
    ensures
        sign_in::next(state, event).0 matches SignIn::Sleeping { poll } ==> sign_in::next(
            state,
            event,
        ).1 == ActionView::Sleep(poll.interval),
        sign_in::next(state, event).0 is Polling ==> state is Sleeping,
{
}

/// A sign-in succeeds only on tokens that the provider sent with a success status, and hands out
/// its access and refresh token unchanged, with the user id that its `id_token` stands for.
pub proof fn success_hands_out_the_tokens(state: SignIn, event: SignInEvent, granted: AuthTokens)
    requires
        sign_in::accepts(state, event),
        sign_in::next(state, event).1 == ActionView::Finish(Ok(granted)),
    ensures
        event matches SignInEvent::Token(Exchange::Answered(answer)) && {
            &&& http::success(answer.status)
            &&& answer.document.tokens matches Some(tokens)
            &&& granted.access_token == tokens.access_token
            &&& granted.refresh_token == tokens.refresh_token
            &&& tokens.id_token matches Some(id_token)
            &&& identity::user_id_of_token(id_token@) == Ok::<u64, AuthErrorView>(granted.user_id)
        },
{
}

/// The outcome is final: exactly the steps that hand it out lead to the finished state, which
/// takes no further event.
pub proof fn outcome_is_final(state: SignIn, event: SignInEvent, later: SignInEvent)
    requires
        sign_in::accepts(state, event),
    ensures
        sign_in::next(state, event).0 is Finished <==> sign_in::next(state, event).1 is Finish,
        sign_in::next(state, event).0 is Finished ==> !sign_in::accepts(
            sign_in::next(state, event).0,
            later,
        ),
{
}

/// The seconds that a run pauses for.
pub open spec fn waited(state: SignIn, events: Seq<SignInEvent>) -> nat
    decreases events.len(),
{
    if events.len() == 0 {
        0
    } else {
        waited(state, events.drop_last()) + match last_action(state, events) {
            ActionView::Sleep(seconds) => seconds as nat,
            _ => 0,
        }
    }
}

/// The lifetime of a device code in seconds, ten minutes if the provider names none.
pub open spec fn lifetime(device: DeviceAuthorizationResponse) -> nat {
    match device.expires_in {
        Some(seconds) => seconds as nat,
        None => 600,
    }
}

/// The pauses of a run are at most as many as the polls that the device code allows, and each is
/// at most as long as the first and five seconds for each time that the provider asks for fewer
/// polls.
pub proof fn wait_is_bounded(start: SignIn, events: Seq<SignInEvent>)
    requires
        start is Prompting,
        accepted(start, events),
    ensures
        waited(start, events) <= device::polls_allowed(start->device) * (device::first_interval(
            start->device,
        ) + 5 * slow_downs(events)),
{
    lemma_waited(start, events);
    lemma_polls(start, events);
    let n = pauses(start, events) as int;
    let longest = device::first_interval(start->device) + 5 * slow_downs(events);
    vstd::arithmetic::mul::lemma_mul_inequality(
        n,
        device::polls_allowed(start->device) as int,
        longest as int,
    );
}

/// How many pauses a run has begun: one for each poll that it sent, and one that is under way.
spec fn pauses(start: SignIn, events: Seq<SignInEvent>) -> nat {
    polls(start, events) + if after(start, events) is Sleeping {
        1nat
    } else {
        0
    }
}

proof fn lemma_waited(start: SignIn, events: Seq<SignInEvent>)
    requires
        start is Prompting,
        accepted(start, events),
    ensures
        waited(start, events) <= pauses(start, events) * (device::first_interval(start->device) + 5
            * slow_downs(events)),
    decreases events.len(),
{
    if events.len() > 0 {
        let earlier = events.drop_last();
        lemma_waited(start, earlier);
        lemma_polls(start, earlier);
        lemma_polls(start, events);
        let n = pauses(start, earlier) as int;
        let before = (device::first_interval(start->device) + 5 * slow_downs(earlier)) as int;
        let now = (device::first_interval(start->device) + 5 * slow_downs(events)) as int;
        vstd::arithmetic::mul::lemma_mul_inequality(before, now, n);
        vstd::arithmetic::mul::lemma_mul_is_commutative(before, n);
        vstd::arithmetic::mul::lemma_mul_is_commutative(now, n);
        vstd::arithmetic::mul::lemma_mul_is_distributive_add_other_way(now, n, 1);
        if poll_of(after(start, events)) is Some {
            slow_down_stretches_the_pause(start, events);
        }
        match last_action(start, events) {
            ActionView::Sleep(seconds) => {
                assert(after(start, events) is Sleeping);
                assert(pauses(start, events) == n + 1);
                assert(seconds == now);
            },
            _ => {
                assert(pauses(start, events) == n);
            },
        }
    }
}

/// A sign-in waits for the lifetime of its device code and two pauses more at most, as long as the
/// provider does not ask for fewer polls.
pub proof fn wait_is_bounded_by_the_lifetime(start: SignIn, events: Seq<SignInEvent>)
    requires
        start is Prompting,
        accepted(start, events),
        slow_downs(events) == 0,
    ensures
        waited(start, events) <= lifetime(start->device) + 2 * device::first_interval(
            start->device,
        ),
{
    let seconds = lifetime(start->device) as int;
    let interval = device::first_interval(start->device) as int;
    wait_is_bounded(start, events);
    assert((seconds / interval + 2) * interval <= seconds + 2 * interval) by (nonlinear_arith)
        requires
            seconds >= 0,
            interval > 0,
    ;
}

/// The device that the provider's answer to the request for a device code describes: the third
/// event of a run.
pub open spec fn device_of(events: Seq<SignInEvent>) -> Option<DeviceAuthorizationResponse> {
    if events.len() < 3 {
        None
    } else {
        match events[2] {
            SignInEvent::Device(exchange) => if http::succeeded(exchange) {
                exchange->Answered_0.document
            } else {
                None
            },
            _ => None,
        }
    }
}

/// Every sign-in ends: it takes three events at most where no device code is handed out, and
/// otherwise the prompt and two for each poll that the lifetime of the code allows.
pub proof fn every_sign_in_ends(state: SignIn, events: Seq<SignInEvent>)
    requires
        state is Ready,
        accepted(state, events),
    ensures
        match device_of(events) {
            Some(device) => {
                &&& polls(state, events) <= device::polls_allowed(device)
                &&& events.len() <= 4 + 2 * device::polls_allowed(device)
            },
            None => polls(state, events) == 0 && events.len() <= 3,
        },
{
    lemma_run(state, events);
}

proof fn lemma_run(state: SignIn, events: Seq<SignInEvent>)
    requires
        state is Ready,
        accepted(state, events),
    ensures
        ({
            let n = polls(state, events);
            let allowed = match device_of(events) {
                Some(device) => device::polls_allowed(device),
                None => 0,
            };
            match after(state, events) {
                SignIn::Ready { .. } => events.len() == 0 && n == 0,
                SignIn::Discovering { .. } => events.len() == 1 && n == 0,
                SignIn::Authorizing { .. } => events.len() == 2 && n == 0,
                SignIn::Prompting { device, .. } => {
                    &&& device_of(events) == Some(device)
                    &&& events.len() == 3 && n == 0
                },
                SignIn::Sleeping { poll } => {
                    &&& device_of(events) is Some
                    &&& poll.polls_left >= 1
                    &&& n + poll.polls_left == allowed
                    &&& events.len() == 2 * n + 4
                },
                SignIn::Polling { poll } => {
                    &&& device_of(events) is Some
                    &&& poll.polls_left >= 1
                    &&& n + poll.polls_left == allowed + 1
                    &&& events.len() == 2 * n + 3
                },
                SignIn::Finished => if device_of(events) is Some {
                    n <= allowed && events.len() == 2 * n + 4
                } else {
                    n == 0 && events.len() <= 3
                },
            }
        }),
    decreases events.len(),
{
    if events.len() > 0 {
        let earlier = events.drop_last();
        lemma_run(state, earlier);
        if events.len() > 3 {
            assert(earlier[2] == events[2]);
        }
        if let Some(device) = device_of(events) {
            lemma_polls_allowed(device);
        }
    }
}

} // verus!
