//! The connection acceptor: the settings of the server, the count of the
//! connections it serves, and the names it gives to their sessions.

use vstd::prelude::*;
use vstd::string::StringExecFns;

verus! {

/// Where the server listens for control connections: every address of the
/// machine, on the control port of the protocol.
pub const LISTEN_ADDRESS: &'static str = "0.0.0.0:21";

/// The directory that the server creates before it serves, and that every
/// session works in. It keeps sessions together; it does not lock them in.
pub const SERVER_ROOT: &'static str = "/var/rftp";

/// The transfer modes a server can offer.
#[derive(Clone, Copy, Debug, PartialEq, Eq, Structural)]
pub enum FTPModes {
    /// The server connects to the client for each transfer.
    Active,
    /// The client connects to the server for each transfer.
    Passive,
    /// Either, as the client asks.
    Both,
}

/// The settings of a server. They are loaded once and never change.
#[derive(Clone, Copy, Debug, PartialEq, Eq, Structural)]
pub struct ServerInfo {
    /// The transfer modes on offer.
    pub mode: FTPModes,
    /// How many connections the server is meant to serve at a time.
    pub max_connections: u32,
    /// Whether the anonymous account is on offer.
    pub allow_anonymous: bool,
}

/// What changes while a server runs: the number of connections it serves.
#[derive(Clone, Copy, Debug, PartialEq, Eq, Structural)]
pub struct ServerStatus {
    pub active_connections: u32,
}

impl Default for ServerStatus {
    /// The status of a server that serves no connection yet.
    fn default() -> (status: ServerStatus)
        ensures
            status.active_connections == 0,
    {
        ServerStatus { active_connections: 0 }
    }
}

/// The character that stands for a digit.
pub open spec fn digit(value: nat) -> char {
    if value == 0 {
        '0'
    } else if value == 1 {
        '1'
    } else if value == 2 {
        '2'
    } else if value == 3 {
        '3'
    } else if value == 4 {
        '4'
    } else if value == 5 {
        '5'
    } else if value == 6 {
        '6'
    } else if value == 7 {
        '7'
    } else if value == 8 {
        '8'
    } else {
        '9'
    }
}

/// A number written in decimal, without leading zeros.
pub open spec fn decimal(number: nat) -> Seq<char>
    decreases number,
{
    if number < 10 {
        seq![digit(number)]
    } else {
        decimal(number / 10).push(digit(number % 10))
    }
}

/// The name of the session of the connection that was counted as number `count`.
pub open spec fn session_name(count: nat) -> Seq<char> {
    "Client#"@ + decimal(count)
}

/// The text of one digit.
fn digit_text(value: u32) -> (text: &'static str)
    requires
        value < 10,
    ensures
        text@ == seq![digit(value as nat)],
{
    proof {
        reveal_strlit("0");
        reveal_strlit("1");
        reveal_strlit("2");
        reveal_strlit("3");
        reveal_strlit("4");
        reveal_strlit("5");
        reveal_strlit("6");
        reveal_strlit("7");
        reveal_strlit("8");
        reveal_strlit("9");
    }
    let text = match value {
        0 => "0",
        1 => "1",
        2 => "2",
        3 => "3",
        4 => "4",
        5 => "5",
        6 => "6",
        7 => "7",
        8 => "8",
        _ => "9",
    };
    assert(text@ =~= seq![digit(value as nat)]);
    text
}

/// Appends `number`, written in decimal, to `text`.
fn append_decimal(text: &mut String, number: u32)
    ensures
        final(text)@ == old(text)@ + decimal(number as nat),
    decreases number,
{
    if number >= 10 {
        append_decimal(text, number / 10);
    }
    text.append(digit_text(number % 10));
    assert(text@ =~= old(text)@ + decimal(number as nat));
}

/// Names the session of the connection that was counted as number `count`.
pub fn client_name(count: u32) -> (name: String)
    ensures
        name@ == session_name(count as nat),
{
    let mut name = String::from_str("Client#");
    append_decimal(&mut name, count);
    name
}

/// What the acceptor counts.
#[derive(Clone, Copy, Debug, PartialEq, Eq, Structural)]
pub enum ConnectionEvent {
    /// A connection was accepted and its session begun.
    Accepted,
    /// A session has ended.
    Finished,
}

/// The count of active connections once `event` is counted: one more for a
/// connection accepted, one less for a session ended.
pub open spec fn counted(active: int, event: ConnectionEvent) -> int {
    match event {
        ConnectionEvent::Accepted => active + 1,
        ConnectionEvent::Finished => active - 1,
    }
}

/// What the acceptor hands to the session of a connection it has accepted.
#[derive(Clone, Debug, PartialEq, Eq)]
pub struct SessionStart {
    /// The name of the session.
    pub name: String,
    /// Whether the session may grant the anonymous account.
    pub allow_anonymous: bool,
}

/// The mathematical value of a [`SessionStart`].
pub struct SessionStartView {
    pub name: Seq<char>,
    pub allow_anonymous: bool,
}

impl View for SessionStart {
    type V = SessionStartView;

    open spec fn view(&self) -> SessionStartView {
        SessionStartView { name: self.name@, allow_anonymous: self.allow_anonymous }
    }
}

/// The connection acceptor: the settings it was started with and the count it
/// keeps. It is told of each connection accepted and each session ended;
/// listening and starting the sessions is left to its owner.
#[derive(Debug, PartialEq, Eq, Structural)]
pub struct Acceptor {
    pub info: ServerInfo,
    pub status: ServerStatus,
}

/// Starts a server with the given settings: an acceptor that serves no
/// connection yet.
pub fn start_server(info: ServerInfo) -> (acceptor: Acceptor)
    ensures
        acceptor.info == info,
        acceptor.status.active_connections == 0,
{
    Acceptor { info, status: ServerStatus::default() }
}

impl Acceptor {
    /// Whether the server, as it stands, serves fewer connections than it is
    /// meant to serve at most.
    ///
    /// Nothing in this library turns a connection away on this account: the
    /// maximum is a setting to report against, and this the test to do it with.
    pub fn has_room(&self) -> (room: bool)
        ensures
            room == (self.status.active_connections < self.info.max_connections),
    {
        self.status.active_connections < self.info.max_connections
    }

    /// Counts a connection that was just accepted, names its session after the
    /// new count, and tells it whether the anonymous account is on offer.
    pub fn connection_accepted(&mut self) -> (start: SessionStart)
        requires
            old(self).status.active_connections < u32::MAX,
        ensures
            final(self).info == old(self).info,
            final(self).status.active_connections == old(self).status.active_connections + 1,
            final(self).status.active_connections == counted(
                old(self).status.active_connections as int,
                ConnectionEvent::Accepted,
            ),
            start@ == (SessionStartView {
                name: session_name(final(self).status.active_connections as nat),
                allow_anonymous: old(self).info.allow_anonymous,
            }),
    {
        self.status.active_connections = self.status.active_connections + 1;
        SessionStart {
            name: client_name(self.status.active_connections),
            allow_anonymous: self.info.allow_anonymous,
        }
    }

    /// Counts a session that has ended, however it ended.
    pub fn session_finished(&mut self)
        requires
            old(self).status.active_connections > 0,
        ensures
            final(self).info == old(self).info,
            final(self).status.active_connections == old(self).status.active_connections - 1,
            final(self).status.active_connections == counted(
                old(self).status.active_connections as int,
                ConnectionEvent::Finished,
            ),
    {
        self.status.active_connections = self.status.active_connections - 1;
    }
}

/// How many of the events are of the given kind.
pub open spec fn occurrences(events: Seq<ConnectionEvent>, kind: ConnectionEvent) -> nat
    decreases events.len(),
{
    if events.len() == 0 {
        0
    } else {
        occurrences(events.drop_last(), kind) + if events.last() == kind {
            1nat
        } else {
            0nat
        }
    }
}

/// The count of active connections after the events, counted one by one from
/// `start` as [`Acceptor::connection_accepted`] and
/// [`Acceptor::session_finished`] count them.
pub open spec fn active_after(start: int, events: Seq<ConnectionEvent>) -> int
    decreases events.len(),
{
    if events.len() == 0 {
        start
    } else {
        counted(active_after(start, events.drop_last()), events.last())
    }
}

/// Whether each session of the events ends after its connection was accepted:
/// at no point have more sessions ended than connections were accepted.
pub open spec fn in_order(events: Seq<ConnectionEvent>) -> bool {
    forall|seen: int|
        0 <= seen <= events.len() ==> occurrences(
            #[trigger] events.take(seen),
            ConnectionEvent::Finished,
        ) <= occurrences(events.take(seen), ConnectionEvent::Accepted)
}

/// The count of active connections is where it started, plus the connections
/// accepted, minus the sessions ended.
pub proof fn lemma_active_is_accepted_less_finished(start: int, events: Seq<ConnectionEvent>)
    ensures
        active_after(start, events) == start + occurrences(events, ConnectionEvent::Accepted)
            - occurrences(events, ConnectionEvent::Finished),
    decreases events.len(),
{
    if events.len() > 0 {
        lemma_active_is_accepted_less_finished(start, events.drop_last());
    }
}

/// Once every session has ended, the count of active connections is what it
/// was before the first connection was accepted: none is counted that is gone,
/// and none is counted out twice.
pub proof fn lemma_count_returns(start: int, events: Seq<ConnectionEvent>)
    requires
        occurrences(events, ConnectionEvent::Accepted) == occurrences(
            events,
            ConnectionEvent::Finished,
        ),
    ensures
        active_after(start, events) == start,
{
    lemma_active_is_accepted_less_finished(start, events);
}

/// While sessions end only after their connections were accepted, the count of
/// active connections never falls below where it started, so never below zero
/// where it started at zero or above.
pub proof fn lemma_count_never_falls_below_start(
    start: int,
    events: Seq<ConnectionEvent>,
    seen: int,
)
    requires
        in_order(events),
        0 <= seen <= events.len(),
    ensures
        active_after(start, events.take(seen)) >= start,
        start >= 0 ==> active_after(start, events.take(seen)) >= 0,
{
    lemma_active_is_accepted_less_finished(start, events.take(seen));
}

} // verus!
