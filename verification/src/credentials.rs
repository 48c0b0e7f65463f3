//! The credential store: the shared secret of each protected document.
//!
//! The store is built once and never changes afterwards. It always holds a
//! sentinel entry under the empty identifier, which marks a store that has
//! been loaded. The sentinel is a marker only: it can be read, but no
//! password is ever matched against it.

use std::collections::HashMap;
use vstd::hash_map::StringHashMap;
use vstd::prelude::*;

verus! {

/// The model of a store: document identifier to secret.
pub type Secrets = Map<Seq<char>, Seq<char>>;

/// The secret kept under the empty identifier.
pub open spec fn sentinel_secret() -> Seq<char> {
    "INITIALIZED"@
}

/// Whether the sentinel entry is present.
pub open spec fn has_sentinel(secrets: Secrets) -> bool {
    secrets.contains_key(Seq::empty()) && secrets[Seq::empty()] == sentinel_secret()
}

/// `secrets` with the sentinel entry put in, in place of whatever was kept
/// under the empty identifier.
pub open spec fn with_sentinel(secrets: Secrets) -> Secrets {
    secrets.insert(Seq::empty(), sentinel_secret())
}

/// Whether `password` is the secret of the document `id`. An identifier
/// without an entry matches no password, and neither does the empty
/// identifier, under which the sentinel is kept.
pub open spec fn credentials_match(secrets: Secrets, id: Seq<char>, password: Seq<char>) -> bool {
    id.len() > 0 && secrets.contains_key(id) && secrets[id] == password
}

/// The model of a list of identifiers with their secrets.
pub open spec fn pair_models(pairs: Seq<(String, String)>) -> Seq<(Seq<char>, Seq<char>)> {
    pairs.map_values(|pair: (String, String)| (pair.0@, pair.1@))
}

/// The map that a list of pairs describes; of two pairs with the same
/// identifier the later one counts.
pub open spec fn secrets_of(pairs: Seq<(Seq<char>, Seq<char>)>) -> Secrets
    decreases pairs.len(),
{
    if pairs.len() == 0 {
        Map::empty()
    } else {
        secrets_of(pairs.drop_last()).insert(pairs.last().0, pairs.last().1)
    }
}

/// What `serde_json::from_str` makes of a text that is read as a map from
/// strings to strings: the entries of the map, or `None` where the text is
/// refused.
pub uninterp spec fn json_string_map(text: Seq<char>) -> Option<Secrets>;

#[verifier::external_type_specification]
#[verifier::external_body]
pub struct ExJsonError(serde_json::Error);

/// Why a store could not be loaded.
#[derive(Debug)]
pub enum LoadError {
    /// The configuration is not a JSON object whose values are all strings.
    Malformed(serde_json::Error),
}

/// Calls `serde_json::from_str` for a `HashMap<String, String>` and hands
/// out its entries. The entries have pairwise different keys, so the map
/// that they describe does not depend on their order.
#[verifier::external_body]
fn parse_string_map(text: &str) -> (parsed: Result<Vec<(String, String)>, serde_json::Error>)
    ensures
        match parsed {
            Ok(pairs) => json_string_map(text@) == Some(secrets_of(pair_models(pairs@))),
            Err(_) => json_string_map(text@) is None,
        },
{
    match serde_json::from_str::<HashMap<String, String>>(text) {
        Ok(map) => Ok(map.into_iter().collect()),
        Err(error) => Err(error),
    }
}

pub struct CredentialStore {
    secrets: StringHashMap<String>,
}

impl View for CredentialStore {
    type V = Secrets;

    closed spec fn view(&self) -> Secrets {
        self.secrets@.map_values(|secret: String| secret@)
    }
}

impl CredentialStore {
    #[verifier::type_invariant]
    spec fn holds_sentinel(self) -> bool {
        has_sentinel(self@)
    }

    /// The store that holds `pairs` and the sentinel entry.
    pub fn from_pairs(pairs: Vec<(String, String)>) -> (store: Self)
        ensures
            store@ == with_sentinel(secrets_of(pair_models(pairs@))),
    {
        let mut secrets: StringHashMap<String> = StringHashMap::new();
        let ghost to_model = |secret: String| secret@;
        let mut i: usize = 0;
        assert(secrets@.map_values(to_model) =~= secrets_of(pair_models(pairs@).take(0)));
        while i < pairs.len()
            invariant
                i <= pairs.len(),
                to_model == |secret: String| secret@,
                secrets@.map_values(to_model) == secrets_of(pair_models(pairs@).take(i as int)),
            decreases pairs.len() - i,
        {
            let ghost before = secrets@;
            let id = pairs[i].0.clone();
            let secret = pairs[i].1.clone();
            secrets.insert(id, secret);
            assert(pair_models(pairs@).take(i + 1).drop_last() == pair_models(pairs@).take(
                i as int,
            ));
            assert(secrets@.map_values(to_model) =~= before.map_values(to_model).insert(
                pairs@[i as int].0@,
                pairs@[i as int].1@,
            ));
            i = i + 1;
        }
        assert(pair_models(pairs@).take(pairs.len() as int) == pair_models(pairs@));
        let ghost loaded = secrets@;
        secrets.insert(String::new(), "INITIALIZED".to_owned());
        assert(secrets@.map_values(to_model) =~= with_sentinel(loaded.map_values(to_model)));
        CredentialStore { secrets }
    }

    /// Loads a store from the text of a JSON object that maps document
    /// identifiers to secrets.
    pub fn from_json(text: &str) -> (loaded: Result<Self, LoadError>)
        ensures
            match loaded {
                Ok(store) => json_string_map(text@) matches Some(secrets) && store@
                    == with_sentinel(secrets),
                Err(_) => json_string_map(text@) is None,
            },
    {
        match parse_string_map(text) {
            Ok(pairs) => Ok(CredentialStore::from_pairs(pairs)),
            Err(cause) => Err(LoadError::Malformed(cause)),
        }
    }

    /// The secret of `id`, if the store has one.
    pub fn lookup(&self, id: &str) -> (found: Option<&String>)
        ensures
            match found {
                Some(secret) => self@.contains_key(id@) && self@[id@] == secret@,
                None => !self@.contains_key(id@),
            },
    {
        self.secrets.get(id)
    }

    /// Whether `password` is the secret of the document `id`. The sentinel
    /// entry is never matched.
    pub fn matches(&self, id: &str, password: &str) -> (matched: bool)
        ensures
            matched == credentials_match(self@, id@, password@),
    {
        if id.is_empty() {
            return false;
        }
        match self.lookup(id) {
            Some(secret) => secret.as_str().eq(password),
            None => false,
        }
    }

    /// The secret of the sentinel entry, which every store holds.
    pub fn sentinel(&self) -> (secret: &String)
        ensures
            secret@ == sentinel_secret(),
            has_sentinel(self@),
    {
        proof {
            use_type_invariant(self);
        }
        let found = self.secrets.get("");
        assert(""@ =~= Seq::<char>::empty()) by {
            reveal_strlit("");
        }
        found.unwrap()
    }
}

/// The sentinel entry is there after loading, whatever was loaded, and no
/// password matches it, not even the sentinel secret itself.
pub proof fn lemma_sentinel_is_loaded(secrets: Secrets, password: Seq<char>)
    ensures
        has_sentinel(with_sentinel(secrets)),
        !credentials_match(with_sentinel(secrets), Seq::empty(), password),
        !credentials_match(secrets, Seq::empty(), password),
{
}

/// Putting the sentinel in changes nothing about which passwords match
/// which documents.
pub proof fn lemma_loading_keeps_entries(secrets: Secrets, id: Seq<char>, password: Seq<char>)
    ensures
        credentials_match(with_sentinel(secrets), id, password) == credentials_match(
            secrets,
            id,
            password,
        ),
{
    if id.len() > 0 {
        assert(id != Seq::<char>::empty());
    }
}

} // verus!
