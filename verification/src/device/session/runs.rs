//! Runs of a session: what whole sequences of events do to it.
//!
//! The retry policy and the reconnection of a session are stated here over
//! the model of `SessionModel::step`, for every session and every length of
//! run.

use crate::device::session::{
    Error, SessionAction, SessionErrorKind, SessionEvent, SessionModel, SessionState,
};
use vstd::prelude::*;

verus! {

/// The session after it has taken `events` one by one.
pub open spec fn run(session: SessionModel, events: Seq<SessionEvent>) -> SessionModel
    decreases events.len(),
{
    if events.len() == 0 {
        session
    } else {
        run(session, events.drop_last()).step(events.last()).next
    }
}

/// The actions that the session asks for while it takes `events` one by one:
/// one action for each event.
pub open spec fn actions(session: SessionModel, events: Seq<SessionEvent>) -> Seq<SessionAction>
    decreases events.len(),
{
    if events.len() == 0 {
        Seq::empty()
    } else {
        actions(session, events.drop_last()).push(
            run(session, events.drop_last()).step(events.last()).action,
        )
    }
}

/// How many of `asked` ask for an attempt to open the transport.
pub open spec fn attempts(asked: Seq<SessionAction>) -> nat
    decreases asked.len(),
{
    if asked.len() == 0 {
        0
    } else {
        attempts(asked.drop_last()) + if asked.last().asks_to_open() {
            1nat
        } else {
            0nat
        }
    }
}

/// `count` failed attempts in a row.
pub open spec fn failures(count: nat) -> Seq<SessionEvent> {
    Seq::new(count, |i: int| SessionEvent::OpenFailed)
}

/// `count` times the action `asked`.
pub open spec fn repeated(asked: SessionAction, count: nat) -> Seq<SessionAction> {
    Seq::new(count, |i: int| asked)
}

/// A run of one event is one step.
pub proof fn lemma_run_of_one(session: SessionModel, event: SessionEvent)
    ensures
        run(session, seq![event]) == session.step(event).next,
        actions(session, seq![event]) == seq![session.step(event).action],
{
    let events = seq![event];
    assert(events.drop_last() =~= Seq::<SessionEvent>::empty());
    assert(run(session, events.drop_last()) == session);
    assert(actions(session, events.drop_last()) =~= Seq::<SessionAction>::empty());
    assert(actions(session, events) =~= seq![session.step(event).action]);
}

/// Taking one sequence of events after another is taking the two in one go.
pub proof fn lemma_run_in_two_parts(
    session: SessionModel,
    first: Seq<SessionEvent>,
    second: Seq<SessionEvent>,
)
    ensures
        run(session, first + second) == run(run(session, first), second),
        actions(session, first + second) == actions(session, first) + actions(
            run(session, first),
            second,
        ),
    decreases second.len(),
{
    if second.len() == 0 {
        assert(first + second =~= first);
        assert(actions(session, first) + Seq::<SessionAction>::empty() =~= actions(
            session,
            first,
        ));
    } else {
        assert((first + second).drop_last() =~= first + second.drop_last());
        lemma_run_in_two_parts(session, first, second.drop_last());
        assert(actions(session, first + second) =~= actions(session, first) + actions(
            run(session, first),
            second,
        ));
    }
}

/// The attempts in two sequences of actions add up.
pub proof fn lemma_attempts_add_up(first: Seq<SessionAction>, second: Seq<SessionAction>)
    ensures
        attempts(first + second) == attempts(first) + attempts(second),
    decreases second.len(),
{
    if second.len() == 0 {
        assert(first + second =~= first);
    } else {
        assert((first + second).drop_last() =~= first + second.drop_last());
        lemma_attempts_add_up(first, second.drop_last());
    }
}

/// A repeated action counts as many attempts as it is repeated when it asks
/// to open the transport, and as none when it does not.
pub proof fn lemma_attempts_of_repeated(asked: SessionAction, count: nat)
    ensures
        attempts(repeated(asked, count)) == if asked.asks_to_open() {
            count
        } else {
            0
        },
    decreases count,
{
    if count > 0 {
        assert(repeated(asked, count).drop_last() =~= repeated(asked, (count - 1) as nat));
        lemma_attempts_of_repeated(asked, (count - 1) as nat);
    }
}

/// While the limit leaves room, each failed attempt of a connecting session
/// is answered by the next attempt after the retry interval, and the session
/// stays connecting. Where there is a limit the failures are counted.
pub proof fn lemma_failures_are_retried(session: SessionModel, count: nat)
    requires
        session.state is Connecting,
        session.connect_attempt_limit == 0 || session.failed_attempts + count
            < session.connect_attempt_limit,
    ensures
        run(session, failures(count)) == (SessionModel {
            failed_attempts: if session.connect_attempt_limit == 0 {
                session.failed_attempts
            } else {
                (session.failed_attempts + count) as u16
            },
            ..session
        }),
        actions(session, failures(count)) == repeated(
            SessionAction::OpenAfter(session.connect_retry_interval),
            count,
        ),
    decreases count,
{
    let retry = SessionAction::OpenAfter(session.connect_retry_interval);
    if count == 0 {
        assert(actions(session, failures(count)) =~= repeated(retry, count));
    } else {
        let before = (count - 1) as nat;
        assert(failures(count).drop_last() =~= failures(before));
        lemma_failures_are_retried(session, before);
        assert(actions(session, failures(count)) =~= repeated(retry, count));
    }
}

/// A session that is not connecting takes no notice of failed attempts.
pub proof fn lemma_failures_at_rest_are_ignored(session: SessionModel, count: nat)
    requires
        !(session.state is Connecting),
    ensures
        run(session, failures(count)) == session,
        actions(session, failures(count)) == repeated(SessionAction::Idle, count),
    decreases count,
{
    if count == 0 {
        assert(actions(session, failures(count)) =~= repeated(SessionAction::Idle, count));
    } else {
        let before = (count - 1) as nat;
        assert(failures(count).drop_last() =~= failures(before));
        lemma_failures_at_rest_are_ignored(session, before);
        assert(actions(session, failures(count)) =~= repeated(SessionAction::Idle, count));
    }
}

/// With an attempt limit, a session whose every attempt fails makes exactly
/// as many attempts as the limit allows and then gives up.
///
/// Told to connect and then told of failure after failure, the session asks
/// to open the transport at once, asks for one more attempt after the retry
/// interval for each failure short of the limit, and answers the failure
/// that reaches the limit, and every failure after it, by asking for nothing.
/// It ends in `Error(Session(TimeOut))`.
pub proof fn lemma_limited_connect_gives_up(session: SessionModel, extra: nat)
    requires
        session.at_rest(),
        session.connect_attempt_limit > 0,
    ensures
        ({
            let limit = session.connect_attempt_limit as nat;
            let events = seq![SessionEvent::ConnectRequested] + failures(limit + extra);
            let asked = seq![SessionAction::Open] + repeated(
                SessionAction::OpenAfter(session.connect_retry_interval),
                (limit - 1) as nat,
            ) + repeated(SessionAction::Idle, 1 + extra);
            &&& run(session, events).state == SessionState::Error(
                Error::Session(SessionErrorKind::TimeOut),
            )
            &&& actions(session, events) == asked
            &&& attempts(asked) == limit
        }),
{
    let limit = session.connect_attempt_limit as nat;
    let short = (limit - 1) as nat;
    let retry = SessionAction::OpenAfter(session.connect_retry_interval);
    let request = seq![SessionEvent::ConnectRequested];
    let events = request + failures(limit + extra);
    let asked = seq![SessionAction::Open] + repeated(retry, short) + repeated(
        SessionAction::Idle,
        1 + extra,
    );

    // The request starts the sequence of attempts.
    lemma_run_of_one(session, SessionEvent::ConnectRequested);
    let started = run(session, request);
    assert(started == session.restarted());

    // The failures short of the limit are retried.
    lemma_failures_are_retried(started, short);
    let last_chance = run(started, failures(short));

    // The failure that reaches the limit ends the sequence.
    let ending = seq![SessionEvent::OpenFailed];
    lemma_run_of_one(last_chance, SessionEvent::OpenFailed);
    let given_up = run(last_chance, ending);
    assert(last_chance.on_last_attempt());
    assert(actions(last_chance, ending) =~= repeated(SessionAction::Idle, 1));

    // Later failures are ignored.
    lemma_failures_at_rest_are_ignored(given_up, extra);

    assert(failures(limit + extra) =~= failures(short) + ending + failures(extra));
    lemma_run_in_two_parts(started, failures(short), ending);
    lemma_run_in_two_parts(started, failures(short) + ending, failures(extra));
    lemma_run_in_two_parts(session, request, failures(limit + extra));
    assert(repeated(SessionAction::Idle, 1) + repeated(SessionAction::Idle, extra) =~= repeated(
        SessionAction::Idle,
        1 + extra,
    ));
    assert(actions(session, events) =~= asked);

    lemma_attempts_add_up(seq![SessionAction::Open] + repeated(retry, short), repeated(
        SessionAction::Idle,
        1 + extra,
    ));
    lemma_attempts_add_up(seq![SessionAction::Open], repeated(retry, short));
    lemma_attempts_of_repeated(retry, short);
    lemma_attempts_of_repeated(SessionAction::Idle, 1 + extra);
    assert(seq![SessionAction::Open] =~= repeated(SessionAction::Open, 1));
    lemma_attempts_of_repeated(SessionAction::Open, 1);
}

/// Without an attempt limit, a session keeps trying for as long as it takes.
///
/// Told to connect, then told of any number of failures and at last of a
/// success, the session asks to open the transport at once, asks for one
/// more attempt after the retry interval for each failure, and ends in
/// `Connected`.
pub proof fn lemma_unlimited_connect_keeps_trying(session: SessionModel, failed: nat)
    requires
        session.at_rest(),
        session.connect_attempt_limit == 0,
    ensures
        ({
            let events = seq![SessionEvent::ConnectRequested] + failures(failed)
                + seq![SessionEvent::Opened];
            let asked = seq![SessionAction::Open] + repeated(
                SessionAction::OpenAfter(session.connect_retry_interval),
                failed,
            ) + seq![SessionAction::Idle];
            &&& run(session, events).state == SessionState::Connected
            &&& actions(session, events) == asked
            &&& attempts(asked) == failed + 1
        }),
{
    let retry = SessionAction::OpenAfter(session.connect_retry_interval);
    let request = seq![SessionEvent::ConnectRequested];
    let success = seq![SessionEvent::Opened];
    let events = request + failures(failed) + success;
    let asked = seq![SessionAction::Open] + repeated(retry, failed) + seq![SessionAction::Idle];

    lemma_run_of_one(session, SessionEvent::ConnectRequested);
    let started = run(session, request);
    assert(started == session.restarted());

    lemma_failures_are_retried(started, failed);
    let trying = run(started, failures(failed));

    lemma_run_of_one(trying, SessionEvent::Opened);

    lemma_run_in_two_parts(session, request, failures(failed));
    lemma_run_in_two_parts(session, request + failures(failed), success);
    assert(actions(session, events) =~= asked);

    lemma_attempts_add_up(seq![SessionAction::Open] + repeated(retry, failed), seq![
        SessionAction::Idle,
    ]);
    lemma_attempts_add_up(seq![SessionAction::Open], repeated(retry, failed));
    lemma_attempts_of_repeated(retry, failed);
    assert(seq![SessionAction::Open] =~= repeated(SessionAction::Open, 1));
    lemma_attempts_of_repeated(SessionAction::Open, 1);
    assert(seq![SessionAction::Idle] =~= repeated(SessionAction::Idle, 1));
    lemma_attempts_of_repeated(SessionAction::Idle, 1);
}

/// A connected session whose link closes goes to `Disconnected` and from
/// there at once back to `Connecting`, on its own: it reports both states to
/// the handler, in that order, and asks to drop the old handle and open the
/// transport anew, with a fresh count of attempts.
pub proof fn lemma_closed_link_reconnects(session: SessionModel)
    requires
        session.state is Connected,
    ensures
        session.step(SessionEvent::Closed).notified == seq![
            SessionState::Disconnected,
            SessionState::Connecting,
        ],
        session.step(SessionEvent::Closed).next.state == SessionState::Connecting,
        session.step(SessionEvent::Closed).next.failed_attempts == 0,
        session.step(SessionEvent::Closed).action == SessionAction::Reopen,
{
}

/// A session holds a transport handle exactly while it is connected, and it
/// never asks for a second one on top of it: whatever the event, a connected
/// session asks to open the transport only together with dropping the handle
/// it holds, and a session leaves `Connected` only while asking to drop the
/// handle.
pub proof fn lemma_one_handle_at_a_time(session: SessionModel, event: SessionEvent)
    ensures
        ({
            let step = session.step(event);
            &&& session.state is Connected && step.action.asks_to_open()
                ==> step.action.drops_handle()
            &&& session.state is Connected && !(step.next.state is Connected)
                ==> step.action.drops_handle()
            &&& !(session.state is Connected) ==> !step.action.drops_handle()
            &&& !(session.state is Connected) && step.next.state is Connected ==> event
                == SessionEvent::Opened && session.state is Connecting
        }),
{
}

/// The handler hears of every transition and of nothing else: the states
/// reported for one event end with the state the session is left in, and an
/// event that changes the state of the session reports at least one.
pub proof fn lemma_handler_hears_every_transition(session: SessionModel, event: SessionEvent)
    ensures
        ({
            let step = session.step(event);
            &&& step.notified.len() <= 2
            &&& step.notified.len() > 0 ==> step.notified.last() == step.next.state
            &&& step.next.state != session.state ==> step.notified.len() > 0
            &&& step.notified.len() == 0 ==> step.next == session && step.action
                == SessionAction::Idle
        }),
{
}

/// No event changes the settings of a session.
pub proof fn lemma_settings_stay(session: SessionModel, events: Seq<SessionEvent>)
    ensures
        run(session, events).connect_attempt_limit == session.connect_attempt_limit,
        run(session, events).connect_retry_interval == session.connect_retry_interval,
    decreases events.len(),
{
    if events.len() > 0 {
        lemma_settings_stay(session, events.drop_last());
    }
}

} // verus!
