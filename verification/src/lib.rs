//! Control-channel session handling for an FTP server.
//!
//! The library decides; it does no input or output of its own. The acceptor
//! counts connections and names their sessions ([`server`]), a session is a
//! state machine that is told what happened on its connection and answers with
//! what to do next ([`session`]), and the login step settles a login request
//! against the user store ([`login`], [`store`]). What holds of a session from
//! its first step to its last is stated in [`trace`].

pub mod client;
pub mod login;
pub mod reply;
pub mod server;
pub mod session;
pub mod store;
pub mod trace;

pub use client::ClientConnection;
pub use login::loggin_user;
pub use reply::{Reply, ReplyCode};
pub use server::{start_server, Acceptor, FTPModes, ServerInfo, ServerStatus, SessionStart};
pub use session::{Session, SessionAction, SessionEnd, SessionEvent, SessionState, Waiting};
pub use store::{Rights, User, DB};
