//! The state of one control connection.

use vstd::prelude::*;
use crate::store::{Rights, User, UserView};

verus! {

/// What the server knows of the client on one control connection.
///
/// A fresh connection has every flag cleared and no credentials. The flags are
/// set by the commands the client sends and by the login step.
#[derive(Clone, Debug, PartialEq, Eq)]
pub struct ClientConnection {
    /// The credentials given so far and, once logged in, the rights that go with them.
    pub user: User,
    /// The client asked for the anonymous account.
    pub is_anon: bool,
    /// The client is logged in.
    pub is_user_logged: bool,
    /// The last command asked for a login.
    pub is_requesting_login: bool,
    /// The connection is to be closed.
    pub is_closing: bool,
}

/// The mathematical value of a [`ClientConnection`].
pub struct ClientView {
    pub user: UserView,
    pub is_anon: bool,
    pub is_user_logged: bool,
    pub is_requesting_login: bool,
    pub is_closing: bool,
}

impl View for ClientConnection {
    type V = ClientView;

    open spec fn view(&self) -> ClientView {
        ClientView {
            user: self.user@,
            is_anon: self.is_anon,
            is_user_logged: self.is_user_logged,
            is_requesting_login: self.is_requesting_login,
            is_closing: self.is_closing,
        }
    }
}

/// The value of a connection on which nothing has happened yet.
pub open spec fn fresh_client() -> ClientView {
    ClientView {
        user: UserView { username: Seq::empty(), password: Seq::empty(), rights: Rights::Nothing },
        is_anon: false,
        is_user_logged: false,
        is_requesting_login: false,
        is_closing: false,
    }
}

impl Default for ClientConnection {
    /// The state of a connection that was just accepted.
    fn default() -> (client: ClientConnection)
        ensures
            client@ == fresh_client(),
    {
        ClientConnection {
            user: User::default(),
            is_anon: false,
            is_user_logged: false,
            is_requesting_login: false,
            is_closing: false,
        }
    }
}

} // verus!
