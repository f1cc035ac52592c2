//! Whole sessions: what holds of the steps a session takes, one after the
//! other, whatever it is told.

use vstd::prelude::*;
use crate::client::ClientView;
use crate::session::{
    close, login_step, session_step, SessionEnd, SessionEvent, SessionState, Step, Waiting,
    MAX_LOGIN_ATTEMPTS,
};
use crate::store::UserView;

verus! {

/// What a session is given at one step, with the connection state as it
/// stands by then. Between two steps a command may have changed the connection
/// state in any way.
pub enum Report {
    /// It is told what happened to the action it asked for.
    Event { client: ClientView, event: SessionEvent },
    /// It is handed the user store.
    Store { client: ClientView, records: Seq<UserView> },
}

/// The connection state that a report comes with.
pub open spec fn client_of(report: Report) -> ClientView {
    match report {
        Report::Event { client, .. } => client,
        Report::Store { client, .. } => client,
    }
}

/// The report that a read found the client gone.
pub open spec fn departure(client: ClientView) -> Report {
    Report::Event { client, event: SessionEvent::Line { bytes: 0 } }
}

/// The report that a read failed, as it does when the client was idle for too
/// long.
pub open spec fn timeout(client: ClientView) -> Report {
    Report::Event { client, event: SessionEvent::Failed }
}

/// The step that a session in `state` takes on `report`.
pub open spec fn step_on(state: SessionState, allow_anonymous: bool, report: Report) -> Step {
    match report {
        Report::Event { client, event } => session_step(state, client, event),
        Report::Store { client, records } => login_step(state, allow_anonymous, client, records),
    }
}

/// The steps of a session that stands in `state` and is given `reports` one
/// after the other.
pub open spec fn steps(
    state: SessionState,
    allow_anonymous: bool,
    reports: Seq<Report>,
) -> Seq<Step>
    decreases reports.len(),
{
    if reports.len() == 0 {
        Seq::empty()
    } else {
        let first = step_on(state, allow_anonymous, reports[0]);
        seq![first] + steps(first.state, allow_anonymous, reports.drop_first())
    }
}

/// How many of the steps are of the given kind.
pub open spec fn count(steps: Seq<Step>, kind: spec_fn(Step) -> bool) -> nat
    decreases steps.len(),
{
    if steps.len() == 0 {
        0
    } else {
        count(steps.drop_first(), kind) + if kind(steps[0]) {
            1nat
        } else {
            0nat
        }
    }
}

/// Whether a step gives the client a line to log in with.
pub open spec fn gives_login_line(step: Step) -> bool {
    step.state matches SessionState::Authenticating { waiting: Waiting::Line, .. }
}

/// Whether a step asks for the user store.
pub open spec fn asks_for_store(step: Step) -> bool {
    step.action is Authenticate
}

/// Whether a step has the session send a reply of its own.
pub open spec fn sends_reply(step: Step) -> bool {
    step.action is SendReply
}

/// How many lines a session in `state` may still give the client to log in with.
pub open spec fn login_lines_left(state: SessionState) -> nat {
    match state {
        SessionState::Greeting => MAX_LOGIN_ATTEMPTS as nat,
        SessionState::Authenticating { attempt, waiting } => if attempt >= MAX_LOGIN_ATTEMPTS
            || waiting == Waiting::Store || waiting == Waiting::Reply {
            0
        } else {
            (MAX_LOGIN_ATTEMPTS - attempt) as nat
        },
        _ => 0,
    }
}

/// How many times a session in `state` may still ask for the user store.
pub open spec fn stores_left(state: SessionState) -> nat {
    match state {
        SessionState::Greeting => 1,
        SessionState::Authenticating { waiting, .. } => if waiting == Waiting::Line || waiting
            == Waiting::Command {
            1
        } else {
            0
        },
        _ => 0,
    }
}

/// How many replies of its own a session in `state` may still send.
pub open spec fn replies_left(state: SessionState) -> nat {
    match state {
        SessionState::Greeting => 1,
        SessionState::Authenticating { waiting, .. } => if waiting == Waiting::Reply {
            0
        } else {
            1
        },
        _ => 0,
    }
}

/// One step is taken for each report.
pub proof fn lemma_one_step_for_each_report(
    state: SessionState,
    allow_anonymous: bool,
    reports: Seq<Report>,
)
    ensures
        steps(state, allow_anonymous, reports).len() == reports.len(),
    decreases reports.len(),
{
    if reports.len() > 0 {
        let first = step_on(state, allow_anonymous, reports[0]);
        lemma_one_step_for_each_report(first.state, allow_anonymous, reports.drop_first());
    }
}

/// However long a session lasts and whatever it is given, it gives the client
/// no more lines to log in with than are left: from the greeting on, at most
/// [`MAX_LOGIN_ATTEMPTS`].
pub proof fn lemma_login_lines_are_limited(
    state: SessionState,
    allow_anonymous: bool,
    reports: Seq<Report>,
)
    ensures
        count(steps(state, allow_anonymous, reports), |step: Step| gives_login_line(step))
            <= login_lines_left(state),
        login_lines_left(SessionState::Greeting) == MAX_LOGIN_ATTEMPTS,
    decreases reports.len(),
{
    if reports.len() > 0 {
        let first = step_on(state, allow_anonymous, reports[0]);
        let rest = steps(first.state, allow_anonymous, reports.drop_first());
        lemma_login_lines_are_limited(first.state, allow_anonymous, reports.drop_first());
        assert((seq![first] + rest).drop_first() =~= rest);
    }
}

/// However long a session lasts and whatever it is given, it asks for the user
/// store at most once and sends at most one reply of its own after the
/// greeting: a login is decided once, and never once the command loop has
/// begun.
pub proof fn lemma_login_is_decided_once(
    state: SessionState,
    allow_anonymous: bool,
    reports: Seq<Report>,
)
    ensures
        count(steps(state, allow_anonymous, reports), |step: Step| asks_for_store(step))
            <= stores_left(state) <= 1,
        count(steps(state, allow_anonymous, reports), |step: Step| sends_reply(step))
            <= replies_left(state) <= 1,
        state is CommandLoop || state is Closed ==> stores_left(state) == 0 && replies_left(state)
            == 0,
    decreases reports.len(),
{
    if reports.len() > 0 {
        let first = step_on(state, allow_anonymous, reports[0]);
        let rest = steps(first.state, allow_anonymous, reports.drop_first());
        lemma_login_is_decided_once(first.state, allow_anonymous, reports.drop_first());
        assert((seq![first] + rest).drop_first() =~= rest);
    }
}

/// Nothing follows the end: a closed session answers whatever it is given by
/// asking to stop, and leaves the connection state as it is.
pub proof fn lemma_nothing_follows_the_end(
    end: SessionEnd,
    allow_anonymous: bool,
    reports: Seq<Report>,
    index: int,
)
    requires
        0 <= index < reports.len(),
    ensures
        steps((SessionState::Closed { end }), allow_anonymous, reports)[index] == close(
            client_of(reports[index]),
            end,
        ),
    decreases reports.len(),
{
    let state = SessionState::Closed { end };
    lemma_one_step_for_each_report(state, allow_anonymous, reports.drop_first());
    if index > 0 {
        lemma_nothing_follows_the_end(end, allow_anonymous, reports.drop_first(), index - 1);
    }
}

/// A session that finds the client gone while it waits for a command sends no
/// reply from then on, whatever it is given afterwards, and ends cleanly.
pub proof fn lemma_departure_is_final(
    allow_anonymous: bool,
    client: ClientView,
    later: Seq<Report>,
    index: int,
)
    requires
        0 <= index <= later.len(),
    ensures
        steps(
            (SessionState::CommandLoop { waiting: Waiting::Line }),
            allow_anonymous,
            seq![departure(client)] + later,
        )[index] == close(client_of((seq![departure(client)] + later)[index]), SessionEnd::Clean),
{
    let reports = seq![departure(client)] + later;
    assert(reports.drop_first() =~= later);
    lemma_one_step_for_each_report(
        SessionState::Closed { end: SessionEnd::Clean },
        allow_anonymous,
        later,
    );
    if index > 0 {
        lemma_nothing_follows_the_end(SessionEnd::Clean, allow_anonymous, later, index - 1);
    }
}

/// In the command loop a read that fails, as it does when the client has been
/// idle for longer than the read timeout, leads the session through the same
/// steps as the departure of the client does.
pub proof fn lemma_timeout_runs_like_departure(
    allow_anonymous: bool,
    client: ClientView,
    later: Seq<Report>,
)
    ensures
        steps(
            (SessionState::CommandLoop { waiting: Waiting::Line }),
            allow_anonymous,
            seq![timeout(client)] + later,
        ) == steps(
            (SessionState::CommandLoop { waiting: Waiting::Line }),
            allow_anonymous,
            seq![departure(client)] + later,
        ),
{
    assert((seq![timeout(client)] + later).drop_first() =~= later);
    assert((seq![departure(client)] + later).drop_first() =~= later);
}

} // verus!
