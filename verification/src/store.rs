//! The user store: the records a client can log in with.

use vstd::prelude::*;

verus! {

/// What a user may do on the server once logged in.
#[derive(Clone, Copy, Debug, PartialEq, Eq, Structural)]
pub enum Rights {
    /// No access at all.
    Nothing,
    /// Directory listings only.
    List,
    /// Listings and downloads.
    Read,
    /// Everything, uploads included.
    All,
}

/// One record of the user store.
#[derive(Clone, Debug, PartialEq, Eq)]
pub struct User {
    pub username: String,
    pub password: String,
    pub rights: Rights,
}

/// The mathematical value of a [`User`].
pub struct UserView {
    pub username: Seq<char>,
    pub password: Seq<char>,
    pub rights: Rights,
}

impl View for User {
    type V = UserView;

    open spec fn view(&self) -> UserView {
        UserView { username: self.username@, password: self.password@, rights: self.rights }
    }
}

impl Default for User {
    /// A user with no name, no password and no rights.
    fn default() -> (user: User)
        ensures
            user@ == (UserView {
                username: Seq::empty(),
                password: Seq::empty(),
                rights: Rights::Nothing,
            }),
    {
        User { username: String::new(), password: String::new(), rights: Rights::Nothing }
    }
}

/// Whether a record carries exactly these credentials.
pub open spec fn credentials_match(
    record: UserView,
    username: Seq<char>,
    password: Seq<char>,
) -> bool {
    record.username == username && record.password == password
}

/// Whether `index` is the position of the first record with these credentials.
pub open spec fn is_first_match(
    records: Seq<UserView>,
    username: Seq<char>,
    password: Seq<char>,
    index: int,
) -> bool {
    &&& 0 <= index < records.len()
    &&& credentials_match(records[index], username, password)
    &&& forall|earlier: int|
        0 <= earlier < index ==> !credentials_match(
            #[trigger] records[earlier],
            username,
            password,
        )
}

/// Whether some record carries these credentials.
pub open spec fn has_match(
    records: Seq<UserView>,
    username: Seq<char>,
    password: Seq<char>,
) -> bool {
    exists|index: int|
        0 <= index < records.len() && credentials_match(
            #[trigger] records[index],
            username,
            password,
        )
}

/// The position of the first record with these credentials, where there is one.
pub open spec fn first_match(
    records: Seq<UserView>,
    username: Seq<char>,
    password: Seq<char>,
) -> int {
    choose|index: int| is_first_match(records, username, password, index)
}

/// At most one position is that of the first match: whoever finds one has found
/// [`first_match`].
pub proof fn lemma_first_match_is_unique(
    records: Seq<UserView>,
    username: Seq<char>,
    password: Seq<char>,
    index: int,
)
    requires
        is_first_match(records, username, password, index),
    ensures
        has_match(records, username, password),
        first_match(records, username, password) == index,
{
    let chosen = first_match(records, username, password);
    assert(is_first_match(records, username, password, chosen));
    if chosen < index {
        assert(!credentials_match(records[chosen], username, password));
    } else if index < chosen {
        assert(!credentials_match(records[index], username, password));
    }
}

/// Where some record carries the credentials, one of them is the first.
pub proof fn lemma_first_match_exists(
    records: Seq<UserView>,
    username: Seq<char>,
    password: Seq<char>,
)
    requires
        has_match(records, username, password),
    ensures
        is_first_match(records, username, password, first_match(records, username, password)),
{
    let some = choose|index: int|
        0 <= index < records.len() && credentials_match(
            #[trigger] records[index],
            username,
            password,
        );
    lemma_first_match_before(records, username, password, some);
}

/// A record that carries the credentials is the first to do so, or one before it is.
proof fn lemma_first_match_before(
    records: Seq<UserView>,
    username: Seq<char>,
    password: Seq<char>,
    index: int,
)
    requires
        0 <= index < records.len(),
        credentials_match(records[index], username, password),
    ensures
        exists|first: int| is_first_match(records, username, password, first),
    decreases index,
{
    if exists|earlier: int|
        0 <= earlier < index && credentials_match(
            #[trigger] records[earlier],
            username,
            password,
        ) {
        let earlier = choose|earlier: int|
            0 <= earlier < index && credentials_match(
                #[trigger] records[earlier],
                username,
                password,
            );
        lemma_first_match_before(records, username, password, earlier);
    } else {
        assert(is_first_match(records, username, password, index));
    }
}

/// The user store, in the order in which the records were loaded.
#[derive(Clone, Debug, PartialEq, Eq)]
pub struct DB {
    pub user: Vec<User>,
}

impl View for DB {
    type V = Seq<UserView>;

    open spec fn view(&self) -> Seq<UserView> {
        self.user@.map_values(|record: User| record@)
    }
}

impl DB {
    /// Scans the store in order for a record with exactly these credentials and
    /// returns the position of the first one.
    pub fn find(&self, username: &String, password: &String) -> (found: Option<usize>)
        ensures
            found matches Some(index) ==> is_first_match(
                self@,
                username@,
                password@,
                index as int,
            ),
            found is None ==> !has_match(self@, username@, password@),
    {
        let mut index: usize = 0;
        while index < self.user.len()
            invariant
                index <= self.user.len(),
                forall|earlier: int|
                    0 <= earlier < index ==> !credentials_match(
                        #[trigger] self@[earlier],
                        username@,
                        password@,
                    ),
            decreases self.user.len() - index,
        {
            let record = &self.user[index];
            if record.username == *username && record.password == *password {
                return Some(index);
            }
            index += 1;
        }
        None
    }
}

} // verus!
