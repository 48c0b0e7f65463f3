//! The session registry: for each document, the one token that currently
//! proves a successful authentication.
//!
//! The registry is modelled as a finite map from document identifiers to
//! tokens. Every operation that changes it takes `&mut self`, so a caller
//! that shares one registry between execution contexts has to serialise
//! access to it, and each operation is one critical section.

use vstd::hash_map::StringHashMap;
use vstd::prelude::*;

verus! {

/// The model of a registry: document identifier to live token.
pub type Sessions = Map<Seq<char>, Seq<char>>;

/// The registry after `token` has been issued for `id`: whatever was
/// registered for `id` before is gone, every other entry stays.
pub open spec fn issued(sessions: Sessions, id: Seq<char>, token: Seq<char>) -> Sessions {
    sessions.insert(id, token)
}

/// Whether `candidate` is the live token of `id`. A document without an
/// entry has no valid session.
pub open spec fn accepts(sessions: Sessions, id: Seq<char>, candidate: Seq<char>) -> bool {
    sessions.contains_key(id) && sessions[id] == candidate
}

/// The registry after a sweep: no entry is left.
pub open spec fn swept() -> Sessions {
    Map::empty()
}

pub struct SessionRegistry {
    tokens: StringHashMap<String>,
}

impl View for SessionRegistry {
    type V = Sessions;

    closed spec fn view(&self) -> Sessions {
        self.tokens@.map_values(|token: String| token@)
    }
}

impl SessionRegistry {
    /// A registry without any session.
    pub fn new() -> (registry: Self)
        ensures
            registry@ == swept(),
    {
        let registry = SessionRegistry { tokens: StringHashMap::new() };
        assert(registry@ =~= swept());
        registry
    }

    /// Makes `token` the live token of `id`, replacing the previous one if
    /// there was one.
    pub fn issue(&mut self, id: &str, token: &str)
        ensures
            final(self)@ == issued(old(self)@, id@, token@),
    {
        self.tokens.insert(id.to_owned(), token.to_owned());
        assert(self@ =~= issued(old(self)@, id@, token@));
    }

    /// Whether `candidate` is the live token of `id`.
    pub fn validate(&self, id: &str, candidate: &str) -> (valid: bool)
        ensures
            valid == accepts(self@, id@, candidate@),
    {
        match self.tokens.get(id) {
            Some(token) => token.as_str().eq(candidate),
            None => false,
        }
    }

    /// Removes every session at once.
    pub fn clear_all(&mut self)
        ensures
            final(self)@ == swept(),
            forall|id: Seq<char>, token: Seq<char>| !accepts(final(self)@, id, token),
    {
        self.tokens.clear();
        assert(self@ =~= swept());
    }

    /// The number of documents with a live token.
    pub fn len(&self) -> (n: usize)
        ensures
            n == self@.len(),
    {
        proof {
            lemma_same_domain(self.tokens@);
        }
        self.tokens.len()
    }
}

proof fn lemma_same_domain(tokens: Map<Seq<char>, String>)
    ensures
        tokens.map_values(|token: String| token@).dom() == tokens.dom(),
{
    assert(tokens.map_values(|token: String| token@).dom() =~= tokens.dom());
}

/// Issuing twice for one document leaves only the second token valid.
pub proof fn lemma_issue_overwrites(
    sessions: Sessions,
    id: Seq<char>,
    first: Seq<char>,
    second: Seq<char>,
)
    requires
        first != second,
    ensures
        !accepts(issued(issued(sessions, id, first), id, second), id, first),
        accepts(issued(issued(sessions, id, first), id, second), id, second),
{
}

/// A token is valid as soon as it has been issued.
pub proof fn lemma_issued_is_accepted(sessions: Sessions, id: Seq<char>, token: Seq<char>)
    ensures
        accepts(issued(sessions, id, token), id, token),
{
}

/// At most one token is valid for a document at any time.
pub proof fn lemma_one_token_per_document(
    sessions: Sessions,
    id: Seq<char>,
    a: Seq<char>,
    b: Seq<char>,
)
    requires
        accepts(sessions, id, a),
        accepts(sessions, id, b),
    ensures
        a == b,
{
}

/// Issuing a token for one document leaves the sessions of all other
/// documents as they were.
pub proof fn lemma_issue_is_local(
    sessions: Sessions,
    id: Seq<char>,
    token: Seq<char>,
    other: Seq<char>,
    candidate: Seq<char>,
)
    requires
        other != id,
    ensures
        accepts(issued(sessions, id, token), other, candidate) == accepts(
            sessions,
            other,
            candidate,
        ),
{
}

/// After a sweep no token is valid, whatever had been issued before.
pub proof fn lemma_sweep_invalidates(id: Seq<char>, token: Seq<char>)
    ensures
        !accepts(swept(), id, token),
{
}

} // verus!
