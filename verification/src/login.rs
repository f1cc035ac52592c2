//! The login step: what a login request leads to.

use vstd::prelude::*;
use vstd::string::StringExecFns;
use crate::client::{ClientConnection, ClientView};
use crate::reply::{Reply, ReplyCode, ReplyView};
use crate::store::{
    first_match, has_match, is_first_match, lemma_first_match_exists, lemma_first_match_is_unique,
    UserView, DB,
};

verus! {

/// The ways a login request can end.
pub enum LoginVerdict {
    /// The anonymous account was asked for and the server offers it.
    AnonymousAccepted,
    /// The anonymous account was asked for and the server does not offer it.
    AnonymousRefused,
    /// Neither a user name nor a password was given.
    MissingCredentials,
    /// The credentials are those of the record at this position of the store.
    Accepted { record: int },
    /// No record of the store carries the credentials.
    Rejected,
}

/// How the request of `client` ends on a server with these records and this
/// setting for the anonymous account.
///
/// The anonymous account is looked at first, then whether any credentials were
/// given at all, then the store, where the first record that fits decides.
pub open spec fn login_verdict(
    client: ClientView,
    records: Seq<UserView>,
    allow_anonymous: bool,
) -> LoginVerdict {
    if client.is_anon {
        if allow_anonymous {
            LoginVerdict::AnonymousAccepted
        } else {
            LoginVerdict::AnonymousRefused
        }
    } else if client.user.username.len() == 0 && client.user.password.len() == 0 {
        LoginVerdict::MissingCredentials
    } else if has_match(records, client.user.username, client.user.password) {
        LoginVerdict::Accepted {
            record: first_match(records, client.user.username, client.user.password),
        }
    } else {
        LoginVerdict::Rejected
    }
}

/// The connection state that the login step leaves behind.
pub open spec fn client_after_login(
    client: ClientView,
    records: Seq<UserView>,
    allow_anonymous: bool,
) -> ClientView {
    match login_verdict(client, records, allow_anonymous) {
        LoginVerdict::AnonymousAccepted => ClientView { is_user_logged: true, ..client },
        LoginVerdict::AnonymousRefused => ClientView {
            is_user_logged: false,
            is_closing: true,
            ..client
        },
        LoginVerdict::MissingCredentials => client,
        LoginVerdict::Accepted { record } => ClientView {
            user: UserView { rights: records[record].rights, ..client.user },
            is_user_logged: true,
            ..client
        },
        LoginVerdict::Rejected => ClientView { is_closing: true, ..client },
    }
}

/// The reply with which the login step answers the client.
pub open spec fn login_reply(
    client: ClientView,
    records: Seq<UserView>,
    allow_anonymous: bool,
) -> ReplyView {
    match login_verdict(client, records, allow_anonymous) {
        LoginVerdict::AnonymousAccepted => ReplyView {
            code: ReplyCode::LoggedIn,
            message: "User logged in as anonymous."@,
        },
        LoginVerdict::AnonymousRefused => ReplyView {
            code: ReplyCode::NotLoggedIn,
            message: "Anonymous is disabled on this server."@,
        },
        LoginVerdict::MissingCredentials => ReplyView {
            code: ReplyCode::BadArguments,
            message: "Credentials are empty."@,
        },
        LoginVerdict::Accepted { record } => ReplyView {
            code: ReplyCode::LoggedIn,
            message: "User "@ + client.user.username + " logged in."@,
        },
        LoginVerdict::Rejected => ReplyView {
            code: ReplyCode::Closing,
            message: "Bad credentials."@,
        },
    }
}

/// Decides the login request of `client` against the records of `db`, on a
/// server that offers the anonymous account or not: updates the connection
/// state and returns the reply that is to be sent to the client.
pub fn loggin_user(client: &mut ClientConnection, db: &DB, anon: bool) -> (reply: Reply)
    ensures
        final(client)@ == client_after_login(old(client)@, db@, anon),
        reply@ == login_reply(old(client)@, db@, anon),
{
    if client.is_anon {
        if anon {
            client.is_user_logged = true;
            return Reply::new(ReplyCode::LoggedIn, "User logged in as anonymous.");
        }
        client.is_user_logged = false;
        client.is_closing = true;
        return Reply::new(ReplyCode::NotLoggedIn, "Anonymous is disabled on this server.");
    }
    if client.user.username.as_str().is_empty() && client.user.password.as_str().is_empty() {
        return Reply::new(ReplyCode::BadArguments, "Credentials are empty.");
    }
    match db.find(&client.user.username, &client.user.password) {
        Some(index) => {
            proof {
                lemma_first_match_is_unique(
                    db@,
                    client.user.username@,
                    client.user.password@,
                    index as int,
                );
            }
            client.user.rights = db.user[index].rights;
            client.is_user_logged = true;
            let mut message = String::from_str("User ");
            message.append(client.user.username.as_str());
            message.append(" logged in.");
            Reply { code: ReplyCode::LoggedIn, message }
        },
        None => {
            client.is_closing = true;
            Reply::new(ReplyCode::Closing, "Bad credentials.")
        },
    }
}

/// A request for the anonymous account is granted where the server offers the
/// account, and turned away, with the connection to be closed, where it does not.
pub proof fn lemma_anonymous_login(
    client: ClientView,
    records: Seq<UserView>,
    allow_anonymous: bool,
)
    requires
        client.is_anon,
    ensures
        allow_anonymous ==> client_after_login(client, records, allow_anonymous).is_user_logged,
        allow_anonymous ==> login_reply(client, records, allow_anonymous).code
            == ReplyCode::LoggedIn,
        !allow_anonymous ==> !client_after_login(client, records, allow_anonymous).is_user_logged,
        !allow_anonymous ==> client_after_login(client, records, allow_anonymous).is_closing,
        !allow_anonymous ==> login_reply(client, records, allow_anonymous).code
            == ReplyCode::NotLoggedIn,
{
}

/// A request without a user name and without a password is answered as
/// malformed and changes nothing: a connection that was not to be closed is
/// still not to be closed, and the client may try again.
pub proof fn lemma_missing_credentials_change_nothing(
    client: ClientView,
    records: Seq<UserView>,
    allow_anonymous: bool,
)
    requires
        !client.is_anon,
        client.user.username.len() == 0,
        client.user.password.len() == 0,
    ensures
        login_reply(client, records, allow_anonymous).code == ReplyCode::BadArguments,
        client_after_login(client, records, allow_anonymous) == client,
        !client.is_closing ==> !client_after_login(client, records, allow_anonymous).is_closing,
{
}

/// Credentials that a record of the store carries log the client in with the
/// rights of the first such record, whatever records follow it, and the reply
/// names the user.
pub proof fn lemma_first_record_decides(
    client: ClientView,
    records: Seq<UserView>,
    allow_anonymous: bool,
    index: int,
)
    requires
        !client.is_anon,
        client.user.username.len() > 0 || client.user.password.len() > 0,
        is_first_match(records, client.user.username, client.user.password, index),
    ensures
        client_after_login(client, records, allow_anonymous).is_user_logged,
        client_after_login(client, records, allow_anonymous).user.rights == records[index].rights,
        login_reply(client, records, allow_anonymous).code == ReplyCode::LoggedIn,
        login_reply(client, records, allow_anonymous).message == "User "@ + client.user.username
            + " logged in."@,
{
    lemma_first_match_is_unique(records, client.user.username, client.user.password, index);
}

/// Credentials that some record of the store carries always log the client in.
pub proof fn lemma_known_credentials_log_in(
    client: ClientView,
    records: Seq<UserView>,
    allow_anonymous: bool,
)
    requires
        !client.is_anon,
        client.user.username.len() > 0 || client.user.password.len() > 0,
        has_match(records, client.user.username, client.user.password),
    ensures
        client_after_login(client, records, allow_anonymous).is_user_logged,
        is_first_match(
            records,
            client.user.username,
            client.user.password,
            first_match(records, client.user.username, client.user.password),
        ),
        login_reply(client, records, allow_anonymous).code == ReplyCode::LoggedIn,
{
    lemma_first_match_exists(records, client.user.username, client.user.password);
}

/// Credentials that no record of the store carries are turned away: the
/// connection is to be closed and the client is told so.
pub proof fn lemma_unknown_credentials_close(
    client: ClientView,
    records: Seq<UserView>,
    allow_anonymous: bool,
)
    requires
        !client.is_anon,
        client.user.username.len() > 0 || client.user.password.len() > 0,
        !has_match(records, client.user.username, client.user.password),
    ensures
        client_after_login(client, records, allow_anonymous).is_closing,
        client_after_login(client, records, allow_anonymous).is_user_logged
            == client.is_user_logged,
        login_reply(client, records, allow_anonymous) == (ReplyView {
            code: ReplyCode::Closing,
            message: "Bad credentials."@,
        }),
{
}

} // verus!
