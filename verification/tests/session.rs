use rftp::client::ClientConnection;
use rftp::reply::{Reply, ReplyCode};
use rftp::server::{start_server, FTPModes, ServerInfo, SERVER_ROOT};
use rftp::session::{
    Session, SessionAction, SessionEnd, SessionEvent, SessionState, Waiting, MAX_LOGIN_ATTEMPTS,
    READ_TIMEOUT_SECS,
};
use rftp::store::{Rights, User, DB};

fn store() -> DB {
    DB {
        user: vec![User {
            username: "ann".to_string(),
            password: "secret".to_string(),
            rights: Rights::Read,
        }],
    }
}

fn reply(code: ReplyCode, message: &str) -> SessionAction {
    SessionAction::SendReply { reply: Reply { code, message: message.to_string() } }
}

fn close(end: SessionEnd) -> SessionAction {
    SessionAction::Close { end }
}

fn greet() -> SessionAction {
    SessionAction::Greet {
        root: "/var/rftp",
        read_timeout_secs: 600,
        reply: Reply { code: ReplyCode::Ready, message: "rftp".to_string() },
    }
}

fn authenticating(attempt: u32, waiting: Waiting) -> SessionState {
    SessionState::Authenticating { attempt, waiting }
}

fn line(bytes: usize) -> SessionEvent {
    SessionEvent::Line { bytes }
}

/// A session that was greeted and waits for its first line.
fn greeted(allow_anonymous: bool) -> Session {
    let (mut session, _) = Session::open(allow_anonymous);
    let client = ClientConnection::default();
    assert_eq!(session.step(&client, SessionEvent::Done), SessionAction::ReadLine);
    session
}

/// A session in the command loop that waits for a line, and its client.
fn serving() -> (Session, ClientConnection) {
    let mut session = greeted(true);
    let mut client = ClientConnection::default();
    assert_eq!(session.step(&client, line(16)), SessionAction::ApplyCommand);
    client.is_anon = true;
    client.is_requesting_login = true;
    assert_eq!(session.step(&client, SessionEvent::Done), SessionAction::Authenticate);
    assert_eq!(
        session.authenticate(&mut client, &store()),
        reply(ReplyCode::LoggedIn, "User logged in as anonymous.")
    );
    assert_eq!(session.step(&client, SessionEvent::Done), SessionAction::ReadLine);
    assert_eq!(session.state(), SessionState::CommandLoop { waiting: Waiting::Line });
    (session, client)
}

/// A session whose first line has asked for a login with these credentials,
/// after the login was decided, with its client and the reply.
fn decided(username: &str, password: &str) -> (Session, ClientConnection, SessionAction) {
    let mut session = greeted(true);
    let mut client = ClientConnection::default();
    assert_eq!(session.step(&client, line(20)), SessionAction::ApplyCommand);
    client.user.username = username.to_string();
    client.user.password = password.to_string();
    client.is_requesting_login = true;
    assert_eq!(session.step(&client, SessionEvent::Done), SessionAction::Authenticate);
    assert_eq!(session.state(), authenticating(1, Waiting::Store));
    let answer = session.authenticate(&mut client, &store());
    assert_eq!(session.state(), authenticating(1, Waiting::Reply));
    (session, client, answer)
}

#[test]
fn the_named_limits() {
    assert_eq!(MAX_LOGIN_ATTEMPTS, 2);
    assert_eq!(READ_TIMEOUT_SECS, 600);
    assert_eq!(SERVER_ROOT, "/var/rftp");
}

#[test]
fn a_session_opens_with_the_greeting() {
    let (session, action) = Session::open(false);
    assert_eq!(session.state(), SessionState::Greeting);
    assert!(!session.is_closed());
    assert_eq!(action, greet());
}

#[test]
fn a_greeting_that_fails_ends_the_session() {
    let (mut session, _) = Session::open(true);
    let client = ClientConnection::default();
    assert_eq!(session.step(&client, SessionEvent::Failed), close(SessionEnd::Failed));
    assert_eq!(session.state(), SessionState::Closed { end: SessionEnd::Failed });
    assert!(session.is_closed());
}

#[test]
fn after_the_greeting_the_first_line_is_read() {
    let session = greeted(true);
    assert_eq!(session.state(), authenticating(1, Waiting::Line));
}

#[test]
fn anonymous_client_is_served_until_it_leaves() {
    let mut acceptor = start_server(ServerInfo {
        mode: FTPModes::Both,
        max_connections: 4,
        allow_anonymous: true,
    });
    acceptor.connection_accepted();
    let before = acceptor.status.active_connections;
    let start = acceptor.connection_accepted();
    assert_eq!(start.name, "Client#2");
    assert!(start.allow_anonymous);

    let db = store();
    let mut client = ClientConnection::default();
    let (mut session, action) = Session::open(start.allow_anonymous);
    assert_eq!(action, greet());
    assert_eq!(session.step(&client, SessionEvent::Done), SessionAction::ReadLine);
    // "USER anonymous\r\n"
    assert_eq!(session.step(&client, line(16)), SessionAction::ApplyCommand);
    client.user.username = "anonymous".to_string();
    client.is_anon = true;
    client.is_requesting_login = true;
    assert_eq!(session.step(&client, SessionEvent::Done), SessionAction::Authenticate);
    assert_eq!(
        session.authenticate(&mut client, &db),
        reply(ReplyCode::LoggedIn, "User logged in as anonymous.")
    );
    assert!(client.is_user_logged);
    assert_eq!(session.step(&client, SessionEvent::Done), SessionAction::ReadLine);
    assert_eq!(session.state(), SessionState::CommandLoop { waiting: Waiting::Line });
    // two further commands
    for bytes in [5usize, 6usize] {
        assert_eq!(session.step(&client, line(bytes)), SessionAction::ApplyCommand);
        assert_eq!(session.state(), SessionState::CommandLoop { waiting: Waiting::Command });
        assert_eq!(session.step(&client, SessionEvent::Done), SessionAction::ReadLine);
    }
    // the client closes the socket
    assert_eq!(session.step(&client, line(0)), close(SessionEnd::Clean));
    assert!(session.is_closed());
    assert!(client.is_user_logged);

    acceptor.session_finished();
    assert_eq!(acceptor.status.active_connections, before);
}

#[test]
fn user_then_password_logs_in_on_the_second_line() {
    let db = store();
    let mut client = ClientConnection::default();
    let mut session = greeted(false);
    assert_eq!(session.step(&client, line(10)), SessionAction::ApplyCommand);
    assert_eq!(session.state(), authenticating(1, Waiting::Command));
    client.user.username = "ann".to_string();
    assert_eq!(session.step(&client, SessionEvent::Done), SessionAction::ReadLine);
    assert_eq!(session.state(), authenticating(2, Waiting::Line));
    assert_eq!(session.step(&client, line(13)), SessionAction::ApplyCommand);
    client.user.password = "secret".to_string();
    client.is_requesting_login = true;
    assert_eq!(session.step(&client, SessionEvent::Done), SessionAction::Authenticate);
    assert_eq!(session.state(), authenticating(2, Waiting::Store));
    assert_eq!(
        session.authenticate(&mut client, &db),
        reply(ReplyCode::LoggedIn, "User ann logged in.")
    );
    assert_eq!(session.state(), authenticating(2, Waiting::Reply));
    assert!(client.is_user_logged);
    assert_eq!(client.user.rights, Rights::Read);
    assert_eq!(session.step(&client, SessionEvent::Done), SessionAction::ReadLine);
    assert_eq!(session.state(), SessionState::CommandLoop { waiting: Waiting::Line });
}

#[test]
fn two_lines_without_a_login_lead_to_the_command_loop() {
    let mut client = ClientConnection::default();
    let mut session = greeted(true);
    for attempt in [1u32, 2u32] {
        assert_eq!(session.state(), authenticating(attempt, Waiting::Line));
        assert_eq!(session.step(&client, line(6)), SessionAction::ApplyCommand);
        assert_eq!(session.step(&client, SessionEvent::Done), SessionAction::ReadLine);
    }
    assert_eq!(session.state(), SessionState::CommandLoop { waiting: Waiting::Line });
    assert!(!client.is_user_logged);
    // a login asked for later is not taken up
    assert_eq!(session.step(&client, line(13)), SessionAction::ApplyCommand);
    client.user.username = "ann".to_string();
    client.user.password = "secret".to_string();
    client.is_requesting_login = true;
    assert_eq!(session.step(&client, SessionEvent::Done), SessionAction::ReadLine);
    assert!(!client.is_user_logged);
}

#[test]
fn an_empty_line_while_logging_in_is_still_applied() {
    let client = ClientConnection::default();
    let mut session = greeted(true);
    assert_eq!(session.step(&client, line(0)), SessionAction::ApplyCommand);
    assert_eq!(session.step(&client, SessionEvent::Done), SessionAction::ReadLine);
    assert_eq!(session.step(&client, line(0)), SessionAction::ApplyCommand);
    assert_eq!(session.step(&client, SessionEvent::Done), SessionAction::ReadLine);
    assert_eq!(session.step(&client, line(0)), close(SessionEnd::Clean));
}

#[test]
fn a_read_that_fails_while_logging_in_fails_the_session() {
    let client = ClientConnection::default();
    let mut session = greeted(true);
    assert_eq!(session.step(&client, SessionEvent::Failed), close(SessionEnd::Failed));
    assert_eq!(session.state(), SessionState::Closed { end: SessionEnd::Failed });
}

#[test]
fn a_command_that_fails_while_logging_in_fails_the_session() {
    let client = ClientConnection::default();
    let mut session = greeted(true);
    session.step(&client, line(4));
    assert_eq!(session.step(&client, SessionEvent::Failed), close(SessionEnd::Failed));
}

#[test]
fn a_login_reply_that_cannot_be_sent_fails_the_session() {
    let (mut session, client, answer) = decided("ann", "secret");
    assert_eq!(answer, reply(ReplyCode::LoggedIn, "User ann logged in."));
    assert_eq!(session.step(&client, SessionEvent::Failed), close(SessionEnd::Failed));
}

#[test]
fn a_first_line_that_closes_is_not_followed_by_a_second() {
    let mut client = ClientConnection::default();
    let mut session = greeted(true);
    session.step(&client, line(6));
    client.is_closing = true;
    assert_eq!(session.step(&client, SessionEvent::Done), close(SessionEnd::Clean));
    assert_eq!(session.state(), SessionState::Closed { end: SessionEnd::Clean });
}

#[test]
fn a_login_on_the_first_line_is_followed_by_the_command_loop() {
    let (mut session, client, answer) = decided("ann", "secret");
    assert_eq!(answer, reply(ReplyCode::LoggedIn, "User ann logged in."));
    assert!(client.is_user_logged);
    assert_eq!(session.step(&client, SessionEvent::Done), SessionAction::ReadLine);
    assert_eq!(session.state(), SessionState::CommandLoop { waiting: Waiting::Line });
}

#[test]
fn refused_anonymous_login_closes_after_the_reply() {
    let db = store();
    let mut client = ClientConnection::default();
    let mut session = greeted(false);
    session.step(&client, line(16));
    client.is_anon = true;
    client.is_requesting_login = true;
    assert_eq!(session.step(&client, SessionEvent::Done), SessionAction::Authenticate);
    assert_eq!(
        session.authenticate(&mut client, &db),
        reply(ReplyCode::NotLoggedIn, "Anonymous is disabled on this server.")
    );
    assert!(client.is_closing);
    assert!(!session.is_closed());
    assert_eq!(session.step(&client, SessionEvent::Done), close(SessionEnd::Clean));
    assert!(session.is_closed());
}

#[test]
fn bad_credentials_close_after_the_reply() {
    let db = store();
    let mut client = ClientConnection::default();
    let mut session = greeted(true);
    session.step(&client, line(10));
    client.user.username = "ann".to_string();
    session.step(&client, SessionEvent::Done);
    session.step(&client, line(12));
    client.user.password = "wrong".to_string();
    client.is_requesting_login = true;
    assert_eq!(session.step(&client, SessionEvent::Done), SessionAction::Authenticate);
    assert_eq!(
        session.authenticate(&mut client, &db),
        reply(ReplyCode::Closing, "Bad credentials.")
    );
    assert!(client.is_closing);
    assert_eq!(session.step(&client, SessionEvent::Done), close(SessionEnd::Clean));
}

#[test]
fn empty_credentials_keep_the_connection_open() {
    let (mut session, mut client, answer) = decided("", "");
    assert_eq!(answer, reply(ReplyCode::BadArguments, "Credentials are empty."));
    assert!(!client.is_closing);
    assert!(!client.is_user_logged);
    // the command loop begins, and the client is served
    assert_eq!(session.step(&client, SessionEvent::Done), SessionAction::ReadLine);
    assert_eq!(session.state(), SessionState::CommandLoop { waiting: Waiting::Line });
    assert_eq!(session.step(&client, line(13)), SessionAction::ApplyCommand);
    // no login is decided once the command loop has begun
    client.user.username = "ann".to_string();
    client.user.password = "secret".to_string();
    assert_eq!(session.step(&client, SessionEvent::Done), SessionAction::ReadLine);
    assert!(!client.is_user_logged);
}

#[test]
fn after_empty_credentials_a_departed_client_ends_the_session_cleanly() {
    let (mut session, client, _) = decided("", "");
    assert_eq!(session.step(&client, SessionEvent::Done), SessionAction::ReadLine);
    assert_eq!(session.step(&client, line(0)), close(SessionEnd::Clean));
}

#[test]
fn after_empty_credentials_an_idle_client_ends_the_session_cleanly() {
    let (mut session, client, _) = decided("", "");
    assert_eq!(session.step(&client, SessionEvent::Done), SessionAction::ReadLine);
    assert_eq!(session.step(&client, SessionEvent::Failed), close(SessionEnd::Clean));
}

#[test]
fn the_store_is_asked_for_only_when_a_login_is_due() {
    let db = store();
    let mut client = ClientConnection::default();
    // handed over before anything was asked for
    let (mut session, _) = Session::open(true);
    assert_eq!(session.authenticate(&mut client, &db), close(SessionEnd::Failed));
    assert_eq!(client, ClientConnection::default());
    // handed over while a line is awaited
    let mut session = greeted(true);
    client.is_anon = true;
    client.is_requesting_login = true;
    let before = client.clone();
    assert_eq!(session.authenticate(&mut client, &db), close(SessionEnd::Failed));
    assert_eq!(client, before);
    // handed over in the command loop
    let (mut session, mut client) = serving();
    let before = client.clone();
    assert_eq!(session.authenticate(&mut client, &db), close(SessionEnd::Failed));
    assert_eq!(client, before);
}

#[test]
fn a_session_that_waits_for_the_store_takes_no_report() {
    for event in [SessionEvent::Done, line(4), SessionEvent::Failed] {
        let mut session = greeted(true);
        let mut client = ClientConnection::default();
        session.step(&client, line(4));
        client.is_requesting_login = true;
        assert_eq!(session.step(&client, SessionEvent::Done), SessionAction::Authenticate);
        assert_eq!(session.step(&client, event), close(SessionEnd::Failed));
    }
}

#[test]
fn a_departed_client_ends_the_session_cleanly() {
    let (mut session, client) = serving();
    assert_eq!(session.step(&client, line(0)), close(SessionEnd::Clean));
    assert_eq!(session.state(), SessionState::Closed { end: SessionEnd::Clean });
}

#[test]
fn a_read_timeout_ends_the_session_like_a_departure() {
    let (mut timed_out, idle_client) = serving();
    let (mut departed, gone_client) = serving();
    let on_timeout = timed_out.step(&idle_client, SessionEvent::Failed);
    let on_departure = departed.step(&gone_client, line(0));
    assert_eq!(on_timeout, close(SessionEnd::Clean));
    assert_eq!(on_timeout, on_departure);
    assert_eq!(timed_out.state(), departed.state());
}

#[test]
fn a_command_that_fails_in_the_loop_fails_the_session() {
    let (mut session, client) = serving();
    assert_eq!(session.step(&client, line(6)), SessionAction::ApplyCommand);
    assert_eq!(session.step(&client, SessionEvent::Failed), close(SessionEnd::Failed));
}

#[test]
fn a_command_that_closes_ends_the_session_cleanly() {
    let (mut session, mut client) = serving();
    session.step(&client, line(6));
    client.is_closing = true;
    assert_eq!(session.step(&client, SessionEvent::Done), close(SessionEnd::Clean));
}

#[test]
fn a_closed_session_stays_closed() {
    let (mut session, mut client) = serving();
    session.step(&client, line(0));
    client.is_requesting_login = true;
    for event in [SessionEvent::Done, line(9), SessionEvent::Failed] {
        assert_eq!(session.step(&client, event), close(SessionEnd::Clean));
        assert_eq!(session.state(), SessionState::Closed { end: SessionEnd::Clean });
    }
    let before = client.clone();
    assert_eq!(session.authenticate(&mut client, &store()), close(SessionEnd::Clean));
    assert_eq!(client, before);
}

#[test]
fn an_event_that_answers_nothing_fails_the_session() {
    let client = ClientConnection::default();
    let (mut session, _) = Session::open(true);
    assert_eq!(session.step(&client, line(3)), close(SessionEnd::Failed));

    let mut session = greeted(true);
    assert_eq!(session.step(&client, SessionEvent::Done), close(SessionEnd::Failed));

    let (mut session, client) = serving();
    assert_eq!(session.step(&client, SessionEvent::Done), close(SessionEnd::Failed));

    let (mut session, client) = serving();
    session.step(&client, line(3));
    assert_eq!(session.step(&client, line(3)), close(SessionEnd::Failed));
}
