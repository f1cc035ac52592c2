//! Replies sent to the client on the control channel.

use vstd::prelude::*;

verus! {

/// The replies the session handler selects among, by name.
#[derive(Clone, Copy, Debug, PartialEq, Eq, Structural)]
pub enum ReplyCode {
    /// The service is ready for a new user.
    Ready,
    /// The user is logged in.
    LoggedIn,
    /// The user is not logged in.
    NotLoggedIn,
    /// The arguments of a command were malformed.
    BadArguments,
    /// The control connection is being closed.
    Closing,
}

/// A reply: a code and the text that follows it on the line.
#[derive(Clone, Debug, PartialEq, Eq)]
pub struct Reply {
    pub code: ReplyCode,
    pub message: String,
}

/// The mathematical value of a [`Reply`].
pub struct ReplyView {
    pub code: ReplyCode,
    pub message: Seq<char>,
}

impl View for Reply {
    type V = ReplyView;

    open spec fn view(&self) -> ReplyView {
        ReplyView { code: self.code, message: self.message@ }
    }
}

impl Reply {
    /// Builds a reply from a code and its text.
    pub fn new(code: ReplyCode, message: &str) -> (reply: Reply)
        ensures
            reply@ == (ReplyView { code, message: message@ }),
    {
        Reply { code, message: message.to_owned() }
    }
}

} // verus!
