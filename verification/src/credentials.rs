//! The credential store: user names and their passwords, read once from one
//! line of configuration and never changed afterwards.

use vstd::prelude::*;
use crate::text::{
    lemma_split_once_cuts, same_text, split, split_once, split_once_text, split_text, text_views,
};

verus! {

/// The configuration that is used where none is given: one user.
pub const FALLBACK_USERS: &'static str = "admin:password";

/// One user name with its password.
#[derive(Debug, PartialEq, Eq)]
pub struct Credential {
    pub username: String,
    pub password: String,
}

/// What one piece of the configuration says: a user name and a password
/// where the piece holds a colon, nothing otherwise. The name stands before
/// the first colon and the password behind it, so a password may hold colons
/// and a name may not.
pub open spec fn credential_of(piece: Seq<char>) -> Option<(Seq<char>, Seq<char>)> {
    split_once(piece, ':')
}

/// The mapping that the pieces give when they are read in order: a later
/// piece replaces what an earlier one said of the same user.
pub open spec fn credentials_in(pieces: Seq<Seq<char>>) -> Map<Seq<char>, Seq<char>>
    decreases pieces.len(),
{
    if pieces.len() == 0 {
        Map::empty()
    } else {
        let earlier = credentials_in(pieces.drop_last());
        match credential_of(pieces.last()) {
            Some((username, password)) => earlier.insert(username, password),
            None => earlier,
        }
    }
}

/// The mapping that a line of configuration stands for: its pieces are
/// separated by commas.
pub open spec fn parse_credentials(config: Seq<char>) -> Map<Seq<char>, Seq<char>> {
    credentials_in(split(config, ','))
}

/// A piece names a user if it holds a colon, and only then.
pub proof fn lemma_piece_with_colon_names_a_user(piece: Seq<char>)
    ensures
        credential_of(piece) is Some <==> piece.contains(':'),
{
}

/// A user name without a colon, a colon and a password are read as that name
/// and that password, whatever the password holds.
pub proof fn lemma_pair_is_read(username: Seq<char>, password: Seq<char>)
    requires
        !username.contains(':'),
    ensures
        credential_of(username.push(':') + password) == Some((username, password)),
{
    lemma_split_once_cuts(username, password, ':');
}

/// The mapping that a list of credentials stands for; of two entries for one
/// user the later one counts.
pub open spec fn mapping_of(entries: Seq<Credential>) -> Map<Seq<char>, Seq<char>>
    decreases entries.len(),
{
    if entries.len() == 0 {
        Map::empty()
    } else {
        mapping_of(entries.drop_last()).insert(entries.last().username@, entries.last().password@)
    }
}

/// A mapping from user names to passwords. The store keeps what it was told
/// in the order in which it was told, and looks a user up from the newest
/// entry back.
#[derive(Debug)]
pub struct CredentialStore {
    entries: Vec<Credential>,
}

impl View for CredentialStore {
    type V = Map<Seq<char>, Seq<char>>;

    /// The password of each user that the store knows.
    closed spec fn view(&self) -> Map<Seq<char>, Seq<char>> {
        mapping_of(self.entries@)
    }
}

impl CredentialStore {
    /// A store that knows no user.
    pub fn new() -> (store: Self)
        ensures
            store@ == Map::<Seq<char>, Seq<char>>::empty(),
    {
        CredentialStore { entries: Vec::new() }
    }

    /// Records a credential, in place of an earlier one for the same user.
    pub fn insert(&mut self, credential: Credential)
        ensures
            final(self)@ == old(self)@.insert(credential.username@, credential.password@),
    {
        let ghost before = self.entries@;
        self.entries.push(credential);
        assert(self.entries@.drop_last() =~= before);
    }

    /// Reads a line of configuration of the form `user1:pass1,user2:pass2`.
    /// A piece without a colon is passed over.
    pub fn parse(config: &str) -> (store: Self)
        ensures
            store@ == parse_credentials(config@),
    {
        let pieces = split_text(config, ',');
        let ghost all = split(config@, ',');
        let mut store = CredentialStore::new();
        let mut i: usize = 0;
        while i < pieces.len()
            invariant
                i <= pieces@.len(),
                text_views(pieces@) == all,
                store@ == credentials_in(all.take(i as int)),
            decreases pieces@.len() - i,
        {
            assert(all.take(i as int + 1).drop_last() =~= all.take(i as int));
            let parts = split_once_text(pieces[i], ':');
            if let Some((username, password)) = parts {
                store.insert(
                    Credential { username: username.to_owned(), password: password.to_owned() },
                );
            }
            i = i + 1;
        }
        assert(all.take(i as int) =~= all);
        store
    }

    /// The store that the configured line gives, or the one that
    /// [`FALLBACK_USERS`] gives where nothing is configured.
    pub fn from_config(configured: Option<&str>) -> (store: Self)
        ensures
            store@ == parse_credentials(
                match configured {
                    Some(line) => line@,
                    None => FALLBACK_USERS@,
                },
            ),
    {
        match configured {
            Some(line) => CredentialStore::parse(line),
            None => CredentialStore::parse(FALLBACK_USERS),
        }
    }

    /// The password that the store holds for a user.
    pub fn password_of(&self, username: &str) -> (found: Option<&str>)
        ensures
            found is Some <==> self@.contains_key(username@),
            found matches Some(password) ==> password@ == self@[username@],
    {
        let mut i: usize = self.entries.len();
        assert(self.entries@.take(i as int) =~= self.entries@);
        while i > 0
            invariant
                i <= self.entries@.len(),
                self@.contains_key(username@) <==> mapping_of(
                    self.entries@.take(i as int),
                ).contains_key(username@),
                self@.contains_key(username@) ==> self@[username@] == mapping_of(
                    self.entries@.take(i as int),
                )[username@],
            decreases i,
        {
            assert(self.entries@.take(i as int).drop_last() =~= self.entries@.take(i as int - 1));
            i = i - 1;
            if same_text(self.entries[i].username.as_str(), username) {
                return Some(self.entries[i].password.as_str());
            }
        }
        None
    }

    /// Whether `username` is a user of the store whose password is `password`.
    pub fn authenticate(&self, username: &str, password: &str) -> (ok: bool)
        ensures
            ok <==> self@.contains_key(username@) && self@[username@] == password@,
    {
        match self.password_of(username) {
            Some(expected) => same_text(password, expected),
            None => false,
        }
    }
}

} // verus!
