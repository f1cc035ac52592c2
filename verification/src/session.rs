//! The session handler: the state machine that runs one control connection.
//!
//! A session neither reads nor writes. It is told what happened and answers
//! with what is to be done next: whoever owns the socket carries out each
//! [`SessionAction`] and reports back with a [`SessionEvent`]. The user store
//! is asked for when a login is to be decided, and at no other time.

use vstd::prelude::*;
use crate::client::{ClientConnection, ClientView};
use crate::login::{client_after_login, loggin_user, login_reply};
use crate::reply::{Reply, ReplyCode, ReplyView};
use crate::server::SERVER_ROOT;
use crate::store::{UserView, DB};

verus! {

/// How many lines a client is given to ask for a login before the command
/// loop begins.
pub const MAX_LOGIN_ATTEMPTS: u32 = 2;

/// How many seconds a session waits for the next line of the client.
pub const READ_TIMEOUT_SECS: u64 = 600;

/// How a session ended.
#[derive(Clone, Copy, Debug, PartialEq, Eq, Structural)]
pub enum SessionEnd {
    /// The client was served until it left, or was turned away.
    Clean,
    /// Something went wrong underneath the session.
    Failed,
}

/// What a session is waiting for within a phase.
#[derive(Clone, Copy, Debug, PartialEq, Eq, Structural)]
pub enum Waiting {
    /// The next line of the client.
    Line,
    /// The command on the line just read, to be parsed and applied.
    Command,
    /// The user store, to decide a login against.
    Store,
    /// The reply of the login step, to be sent.
    Reply,
}

/// Where a session stands.
#[derive(Clone, Copy, Debug, PartialEq, Eq, Structural)]
pub enum SessionState {
    /// The connection was accepted and the greeting is on its way.
    Greeting,
    /// The client may log in; `attempt` counts the lines it has been given for it.
    Authenticating { attempt: u32, waiting: Waiting },
    /// Commands are served one by one.
    CommandLoop { waiting: Waiting },
    /// The session is over.
    Closed { end: SessionEnd },
}

/// What happened to the action a session asked for.
#[derive(Clone, Copy, Debug, PartialEq, Eq, Structural)]
pub enum SessionEvent {
    /// It was carried out: the greeting or a reply was sent, or a command applied.
    Done,
    /// A line was read; `bytes` is its length, 0 where the client has left.
    Line { bytes: usize },
    /// It could not be carried out.
    Failed,
}

/// What a session asks for next.
#[derive(Clone, Debug, PartialEq, Eq)]
pub enum SessionAction {
    /// Make `root` the working directory, have reads give up after
    /// `read_timeout_secs` seconds, and send `reply`, in this order.
    Greet { root: &'static str, read_timeout_secs: u64, reply: Reply },
    /// Read one line.
    ReadLine,
    /// Parse the line just read and apply the command to the connection state.
    ApplyCommand,
    /// Hand the user store to [`Session::authenticate`], which decides the
    /// login and answers with the next action.
    Authenticate,
    /// Send `reply`.
    SendReply { reply: Reply },
    /// Stop: the session is over.
    Close { end: SessionEnd },
}

/// The mathematical value of a [`SessionAction`].
pub enum ActionView {
    Greet { root: Seq<char>, read_timeout_secs: u64, reply: ReplyView },
    ReadLine,
    ApplyCommand,
    Authenticate,
    SendReply { reply: ReplyView },
    Close { end: SessionEnd },
}

impl View for SessionAction {
    type V = ActionView;

    open spec fn view(&self) -> ActionView {
        match *self {
            SessionAction::Greet { root, read_timeout_secs, reply } => ActionView::Greet {
                root: root@,
                read_timeout_secs,
                reply: reply@,
            },
            SessionAction::ReadLine => ActionView::ReadLine,
            SessionAction::ApplyCommand => ActionView::ApplyCommand,
            SessionAction::Authenticate => ActionView::Authenticate,
            SessionAction::SendReply { reply } => ActionView::SendReply { reply: reply@ },
            SessionAction::Close { end } => ActionView::Close { end },
        }
    }
}

/// One step of a session: where it stands afterwards, what has become of the
/// connection state, and what it asks for.
pub struct Step {
    pub state: SessionState,
    pub client: ClientView,
    pub action: ActionView,
}

/// The greeting of the server.
pub open spec fn greeting() -> ReplyView {
    ReplyView { code: ReplyCode::Ready, message: "rftp"@ }
}

/// The session is over: it stops, and the connection state stays as it is.
pub open spec fn close(client: ClientView, end: SessionEnd) -> Step {
    Step { state: SessionState::Closed { end }, client, action: ActionView::Close { end } }
}

/// The head of the command loop: a connection that is to be closed is closed,
/// any other is read from.
pub open spec fn serve(client: ClientView) -> Step {
    if client.is_closing {
        close(client, SessionEnd::Clean)
    } else {
        Step {
            state: SessionState::CommandLoop { waiting: Waiting::Line },
            client,
            action: ActionView::ReadLine,
        }
    }
}

/// What a session in `state` does when `event` is reported to it, with the
/// connection state as it stands by then. The connection state is read and
/// never changed.
///
/// - After the greeting the client gets its first line to log in with.
/// - While the client may log in, every line is applied, an empty one too. Where
///   the command asked for a login, the user store is asked for, the login is
///   decided and answered, and the command loop begins, whatever the answer.
///   Where it did not, the client gets another line, as long as the connection
///   is not to be closed and lines are left; else the command loop begins.
/// - In the command loop a connection that is to be closed ends the session
///   cleanly, and so does a read that fails or finds that the client has left;
///   any other line is applied.
/// - A failure anywhere else ends the session as failed, and so does an event
///   that does not answer what the session asked for.
/// - A closed session stays closed.
pub open spec fn session_step(
    state: SessionState,
    client: ClientView,
    event: SessionEvent,
) -> Step {
    match (state, event) {
        (SessionState::Closed { end }, _) => close(client, end),
        (SessionState::Greeting, SessionEvent::Done) => Step {
            state: SessionState::Authenticating { attempt: 1, waiting: Waiting::Line },
            client,
            action: ActionView::ReadLine,
        },
        (
            SessionState::Authenticating { attempt, waiting: Waiting::Line },
            SessionEvent::Line { .. },
        ) => Step {
            state: SessionState::Authenticating { attempt, waiting: Waiting::Command },
            client,
            action: ActionView::ApplyCommand,
        },
        (
            SessionState::Authenticating { attempt, waiting: Waiting::Command },
            SessionEvent::Done,
        ) => {
            if client.is_requesting_login {
                Step {
                    state: SessionState::Authenticating { attempt, waiting: Waiting::Store },
                    client,
                    action: ActionView::Authenticate,
                }
            } else if !client.is_closing && attempt < MAX_LOGIN_ATTEMPTS {
                Step {
                    state: SessionState::Authenticating {
                        attempt: (attempt + 1) as u32,
                        waiting: Waiting::Line,
                    },
                    client,
                    action: ActionView::ReadLine,
                }
            } else {
                serve(client)
            }
        },
        (
            SessionState::Authenticating { waiting: Waiting::Reply, .. },
            SessionEvent::Done,
        ) => serve(client),
        (SessionState::CommandLoop { waiting: Waiting::Line }, SessionEvent::Line { bytes }) => {
            if bytes == 0 {
                close(client, SessionEnd::Clean)
            } else {
                Step {
                    state: SessionState::CommandLoop { waiting: Waiting::Command },
                    client,
                    action: ActionView::ApplyCommand,
                }
            }
        },
        (SessionState::CommandLoop { waiting: Waiting::Line }, SessionEvent::Failed) => close(
            client,
            SessionEnd::Clean,
        ),
        (SessionState::CommandLoop { waiting: Waiting::Command }, SessionEvent::Done) => serve(
            client,
        ),
        _ => close(client, SessionEnd::Failed),
    }
}

/// What a session in `state` does when it is handed the user store.
///
/// A session that asked for the store takes the login step on the connection
/// state and asks for its reply to be sent. A closed session stays closed, and
/// any other session, which did not ask for the store, ends as failed.
pub open spec fn login_step(
    state: SessionState,
    allow_anonymous: bool,
    client: ClientView,
    records: Seq<UserView>,
) -> Step {
    match state {
        SessionState::Closed { end } => close(client, end),
        SessionState::Authenticating { attempt, waiting: Waiting::Store } => Step {
            state: SessionState::Authenticating { attempt, waiting: Waiting::Reply },
            client: client_after_login(client, records, allow_anonymous),
            action: ActionView::SendReply { reply: login_reply(client, records, allow_anonymous) },
        },
        _ => close(client, SessionEnd::Failed),
    }
}

/// What holds of every state a session stands in: login attempts are counted
/// from 1 up to [`MAX_LOGIN_ATTEMPTS`], and the command loop decides no login
/// and sends no reply of its own.
pub open spec fn well_formed(state: SessionState) -> bool {
    match state {
        SessionState::Authenticating { attempt, .. } => 1 <= attempt <= MAX_LOGIN_ATTEMPTS,
        SessionState::CommandLoop { waiting } => waiting == Waiting::Line || waiting
            == Waiting::Command,
        _ => true,
    }
}

/// The mathematical value of a [`Session`].
pub struct SessionView {
    pub state: SessionState,
    pub allow_anonymous: bool,
}

/// The handler of one control connection.
#[derive(Debug)]
pub struct Session {
    state: SessionState,
    allow_anonymous: bool,
}

impl View for Session {
    type V = SessionView;

    closed spec fn view(&self) -> SessionView {
        SessionView { state: self.state, allow_anonymous: self.allow_anonymous }
    }
}

impl Session {
    #[verifier::type_invariant]
    spec fn inv(self) -> bool {
        well_formed(self.state)
    }

    /// Begins the session of a connection that was just accepted, on a server
    /// that offers the anonymous account or not, and asks for the greeting.
    pub fn open(allow_anonymous: bool) -> (opened: (Session, SessionAction))
        ensures
            opened.0@ == (SessionView { state: SessionState::Greeting, allow_anonymous }),
            opened.1@ == (ActionView::Greet {
                root: SERVER_ROOT@,
                read_timeout_secs: READ_TIMEOUT_SECS,
                reply: greeting(),
            }),
            awaited(opened.0@.state, opened.1@),
    {
        let session = Session { state: SessionState::Greeting, allow_anonymous };
        let action = SessionAction::Greet {
            root: SERVER_ROOT,
            read_timeout_secs: READ_TIMEOUT_SECS,
            reply: Reply::new(ReplyCode::Ready, "rftp"),
        };
        (session, action)
    }

    /// Where the session stands.
    pub fn state(&self) -> (state: SessionState)
        ensures
            state == self@.state,
            well_formed(state),
    {
        proof {
            use_type_invariant(self);
        }
        self.state
    }

    /// Whether the session is over.
    pub fn is_closed(&self) -> (closed: bool)
        ensures
            closed == (self@.state is Closed),
    {
        match self.state {
            SessionState::Closed { .. } => true,
            _ => false,
        }
    }

    /// Takes the report on the action last asked for, looks at the connection
    /// state as it stands, and answers with the next action.
    pub fn step(
        &mut self,
        client: &ClientConnection,
        event: SessionEvent,
    ) -> (action: SessionAction)
        ensures
            final(self)@.allow_anonymous == old(self)@.allow_anonymous,
            (Step { state: final(self)@.state, client: client@, action: action@ })
                == session_step(old(self)@.state, client@, event),
    {
        proof {
            use_type_invariant(&*self);
        }
        let (state, action) = match (self.state, event) {
            (SessionState::Closed { end }, _) => Self::close(end),
            (SessionState::Greeting, SessionEvent::Done) => (
                SessionState::Authenticating { attempt: 1, waiting: Waiting::Line },
                SessionAction::ReadLine,
            ),
            (
                SessionState::Authenticating { attempt, waiting: Waiting::Line },
                SessionEvent::Line { .. },
            ) => (
                SessionState::Authenticating { attempt, waiting: Waiting::Command },
                SessionAction::ApplyCommand,
            ),
            (
                SessionState::Authenticating { attempt, waiting: Waiting::Command },
                SessionEvent::Done,
            ) => {
                if client.is_requesting_login {
                    (
                        SessionState::Authenticating { attempt, waiting: Waiting::Store },
                        SessionAction::Authenticate,
                    )
                } else if !client.is_closing && attempt < MAX_LOGIN_ATTEMPTS {
                    (
                        SessionState::Authenticating {
                            attempt: attempt + 1,
                            waiting: Waiting::Line,
                        },
                        SessionAction::ReadLine,
                    )
                } else {
                    Self::serve(client)
                }
            },
            (
                SessionState::Authenticating { waiting: Waiting::Reply, .. },
                SessionEvent::Done,
            ) => Self::serve(client),
            (
                SessionState::CommandLoop { waiting: Waiting::Line },
                SessionEvent::Line { bytes },
            ) => {
                if bytes == 0 {
                    Self::close(SessionEnd::Clean)
                } else {
                    (
                        SessionState::CommandLoop { waiting: Waiting::Command },
                        SessionAction::ApplyCommand,
                    )
                }
            },
            (SessionState::CommandLoop { waiting: Waiting::Line }, SessionEvent::Failed) => {
                Self::close(SessionEnd::Clean)
            },
            (SessionState::CommandLoop { waiting: Waiting::Command }, SessionEvent::Done) => {
                Self::serve(client)
            },
            _ => Self::close(SessionEnd::Failed),
        };
        self.state = state;
        action
    }

    /// Takes the user store that the session asked for, decides the login of
    /// `client` against it, and answers with the next action.
    pub fn authenticate(
        &mut self,
        client: &mut ClientConnection,
        db: &DB,
    ) -> (action: SessionAction)
        ensures
            final(self)@.allow_anonymous == old(self)@.allow_anonymous,
            (Step { state: final(self)@.state, client: final(client)@, action: action@ })
                == login_step(old(self)@.state, old(self)@.allow_anonymous, old(client)@, db@),
    {
        proof {
            use_type_invariant(&*self);
        }
        let (state, action) = match self.state {
            SessionState::Closed { end } => Self::close(end),
            SessionState::Authenticating { attempt, waiting: Waiting::Store } => {
                let reply = loggin_user(client, db, self.allow_anonymous);
                (
                    SessionState::Authenticating { attempt, waiting: Waiting::Reply },
                    SessionAction::SendReply { reply },
                )
            },
            _ => Self::close(SessionEnd::Failed),
        };
        self.state = state;
        action
    }

    /// The end of a session.
    fn close(end: SessionEnd) -> (next: (SessionState, SessionAction))
        ensures
            next.0 == (SessionState::Closed { end }),
            next.1@ == (ActionView::Close { end }),
    {
        (SessionState::Closed { end }, SessionAction::Close { end })
    }

    /// The head of the command loop.
    fn serve(client: &ClientConnection) -> (next: (SessionState, SessionAction))
        ensures
            next.0 == serve(client@).state,
            next.1@ == serve(client@).action,
    {
        if client.is_closing {
            Self::close(SessionEnd::Clean)
        } else {
            (SessionState::CommandLoop { waiting: Waiting::Line }, SessionAction::ReadLine)
        }
    }
}

/// How far a session has come: the greeting first, then the login attempts in
/// turn, then the command loop, then the end.
pub open spec fn progress(state: SessionState) -> nat {
    match state {
        SessionState::Greeting => 0,
        SessionState::Authenticating { attempt, waiting } => (4 * attempt + match waiting {
            Waiting::Line => 0nat,
            Waiting::Command => 1nat,
            Waiting::Store => 2nat,
            Waiting::Reply => 3nat,
        }) as nat,
        SessionState::CommandLoop { .. } => (4 * MAX_LOGIN_ATTEMPTS + 4) as nat,
        SessionState::Closed { .. } => (4 * MAX_LOGIN_ATTEMPTS + 5) as nat,
    }
}

/// Whether `action` is what a session in `state` has asked for and waits to
/// hear of.
pub open spec fn awaited(state: SessionState, action: ActionView) -> bool {
    match state {
        SessionState::Greeting => action is Greet,
        SessionState::Authenticating { waiting, .. } | SessionState::CommandLoop { waiting } => {
            match waiting {
                Waiting::Line => action is ReadLine,
                Waiting::Command => action is ApplyCommand,
                Waiting::Store => action is Authenticate,
                Waiting::Reply => action is SendReply,
            }
        },
        SessionState::Closed { end } => action == (ActionView::Close { end }),
    }
}

/// Whether a session in `state` has asked for the user store.
pub open spec fn awaits_store(state: SessionState) -> bool {
    state matches SessionState::Authenticating { waiting: Waiting::Store, .. }
}

/// Whether a login is due: a command was applied while the client may log in,
/// and it asked for a login.
pub open spec fn login_is_due(
    state: SessionState,
    client: ClientView,
    event: SessionEvent,
) -> bool {
    &&& state matches SessionState::Authenticating { waiting: Waiting::Command, .. }
    &&& event is Done
    &&& client.is_requesting_login
}

/// A step, of either kind, leads from a well-formed state to a well-formed
/// state.
pub proof fn lemma_step_keeps_well_formed(
    state: SessionState,
    allow_anonymous: bool,
    client: ClientView,
    records: Seq<UserView>,
    event: SessionEvent,
)
    requires
        well_formed(state),
    ensures
        well_formed(session_step(state, client, event).state),
        well_formed(login_step(state, allow_anonymous, client, records).state),
{
}

/// A session never goes back: no step leads to an earlier phase or an earlier
/// login attempt, and until the command loop begins every step leads further.
pub proof fn lemma_session_never_goes_back(
    state: SessionState,
    allow_anonymous: bool,
    client: ClientView,
    records: Seq<UserView>,
    event: SessionEvent,
)
    requires
        well_formed(state),
    ensures
        progress(state) <= progress(session_step(state, client, event).state),
        progress(state) <= progress(login_step(state, allow_anonymous, client, records).state),
        state is Greeting || state is Authenticating ==> progress(state) < progress(
            session_step(state, client, event).state,
        ),
        state is Greeting || state is Authenticating ==> progress(state) < progress(
            login_step(state, allow_anonymous, client, records).state,
        ),
{
}

/// A session waits for what it asked for, one thing at a time: after a step it
/// stands where the action of that step is awaited. So no line is read before
/// the command on the line before it was applied.
pub proof fn lemma_session_waits_for_what_it_asked(
    state: SessionState,
    allow_anonymous: bool,
    client: ClientView,
    records: Seq<UserView>,
    event: SessionEvent,
)
    ensures
        awaited(
            session_step(state, client, event).state,
            session_step(state, client, event).action,
        ),
        awaited(
            login_step(state, allow_anonymous, client, records).state,
            login_step(state, allow_anonymous, client, records).action,
        ),
{
}

/// The user store is asked for exactly where a login is due. A report never
/// changes the connection state and never has a reply sent: only the login
/// step does, and only for a session that asked for the store.
pub proof fn lemma_login_is_taken_where_due(
    state: SessionState,
    allow_anonymous: bool,
    client: ClientView,
    records: Seq<UserView>,
    event: SessionEvent,
)
    ensures
        session_step(state, client, event).action is Authenticate <==> login_is_due(
            state,
            client,
            event,
        ),
        session_step(state, client, event).client == client,
        !(session_step(state, client, event).action is SendReply),
        login_is_due(state, client, event) ==> login_step(
            session_step(state, client, event).state,
            allow_anonymous,
            client,
            records,
        ).client == client_after_login(client, records, allow_anonymous),
        login_is_due(state, client, event) ==> login_step(
            session_step(state, client, event).state,
            allow_anonymous,
            client,
            records,
        ).action == (ActionView::SendReply {
            reply: login_reply(client, records, allow_anonymous),
        }),
        !awaits_store(state) ==> login_step(state, allow_anonymous, client, records).client
            == client,
        !awaits_store(state) ==> !(login_step(state, allow_anonymous, client, records).action
            is SendReply),
{
}

/// Once a login is answered the command loop begins, whatever the answer: a
/// client that was turned away is closed on, and any other is read from.
pub proof fn lemma_command_loop_follows_login(attempt: u32, client: ClientView)
    ensures
        session_step(
            (SessionState::Authenticating { attempt, waiting: Waiting::Reply }),
            client,
            SessionEvent::Done,
        ) == serve(client),
        !client.is_closing ==> serve(client).state == (SessionState::CommandLoop {
            waiting: Waiting::Line,
        }),
        client.is_closing ==> serve(client) == close(client, SessionEnd::Clean),
{
}

/// A session that finds the client gone while it waits for a command ends
/// there, cleanly: it sends nothing and asks for nothing but to stop.
pub proof fn lemma_departure_ends_session(client: ClientView)
    ensures
        session_step(
            (SessionState::CommandLoop { waiting: Waiting::Line }),
            client,
            (SessionEvent::Line { bytes: 0 }),
        ) == close(client, SessionEnd::Clean),
{
}

/// A closed session stays closed: whatever it is told or handed, it asks for
/// nothing but to stop, so no reply is ever sent after the end.
pub proof fn lemma_closed_stays_closed(
    end: SessionEnd,
    allow_anonymous: bool,
    client: ClientView,
    records: Seq<UserView>,
    event: SessionEvent,
)
    ensures
        session_step((SessionState::Closed { end }), client, event) == close(client, end),
        login_step((SessionState::Closed { end }), allow_anonymous, client, records) == close(
            client,
            end,
        ),
{
}

/// In the command loop a read that fails, as it does when the client has been
/// idle for longer than the read timeout, ends the session exactly as the
/// departure of the client does.
pub proof fn lemma_timeout_is_like_departure(client: ClientView)
    ensures
        session_step(
            (SessionState::CommandLoop { waiting: Waiting::Line }),
            client,
            SessionEvent::Failed,
        ) == session_step(
            (SessionState::CommandLoop { waiting: Waiting::Line }),
            client,
            (SessionEvent::Line { bytes: 0 }),
        ),
{
}

} // verus!
