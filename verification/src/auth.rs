//! The authentication endpoint: a password in exchange for a session token.

use vstd::prelude::*;
use vstd::string::*;

use crate::credentials::{credentials_match, CredentialStore, Secrets};
use crate::gate::{decide, document_path, Decision};
use crate::naming::is_protected;
use crate::sessions::{accepts, issued, SessionRegistry, Sessions};

verus! {

/// What a client submits to authenticate: a document and a password.
#[derive(Clone, Debug, PartialEq, Eq)]
pub struct NotesAuthInfo {
    pub file: String,
    pub pwd: String,
}

/// The reply to a submission that is not accepted, whether the document is
/// unknown or the password is wrong.
pub open spec fn incorrect_reply() -> Seq<char> {
    "Incorrect password"@
}

/// A digit or one of the letters `a` to `f`.
pub open spec fn is_lower_hex(c: char) -> bool {
    ('0' <= c && c <= '9') || ('a' <= c && c <= 'f')
}

/// The shape of a freshly generated token: thirty-six characters, hyphens
/// after the eighth, twelfth, sixteenth and twentieth hexadecimal digit,
/// the version digit `4` and a variant digit between `8` and `b`.
pub open spec fn is_token_text(token: Seq<char>) -> bool {
    &&& token.len() == 36
    &&& forall|i: int|
        0 <= i < 36 ==> if i == 8 || i == 13 || i == 18 || i == 23 {
            #[trigger] token[i] == '-'
        } else {
            is_lower_hex(token[i])
        }
    &&& token[14] == '4'
    &&& (token[19] == '8' || token[19] == '9' || token[19] == 'a' || token[19] == 'b')
}

/// The registry after a submission has been handled with `token` at hand:
/// the token is issued if the credentials match, and nothing changes if they
/// do not.
pub open spec fn sessions_after(
    secrets: Secrets,
    sessions: Sessions,
    id: Seq<char>,
    password: Seq<char>,
    token: Seq<char>,
) -> Sessions {
    if credentials_match(secrets, id, password) {
        issued(sessions, id, token)
    } else {
        sessions
    }
}

/// The reply to a submission that has been handled with `token` at hand.
pub open spec fn reply_after(
    secrets: Secrets,
    id: Seq<char>,
    password: Seq<char>,
    token: Seq<char>,
) -> Seq<char> {
    if credentials_match(secrets, id, password) {
        token
    } else {
        incorrect_reply()
    }
}

/// Calls `uuid::Uuid::new_v4` and formats the result with `to_string`. The
/// value is random; what holds of every outcome is the hyphenated lower-case
/// form with the version and variant digits of a random UUID. The call
/// panics if the operating system hands out no random bytes.
#[verifier::external_body]
fn fresh_token() -> (token: String)
    ensures
        is_token_text(token@),
{
    uuid::Uuid::new_v4().to_string()
}

/// Handles a submission with a token that has already been generated: if
/// the password is the secret of the document, `token` becomes the live
/// token of the document and is the reply; otherwise the registry is left
/// alone and the reply says that the password is incorrect.
pub fn authenticate(
    store: &CredentialStore,
    registry: &mut SessionRegistry,
    info: &NotesAuthInfo,
    token: String,
) -> (reply: String)
    ensures
        reply@ == reply_after(store@, info.file@, info.pwd@, token@),
        final(registry)@ == sessions_after(
            store@,
            old(registry)@,
            info.file@,
            info.pwd@,
            token@,
        ),
{
    if store.matches(info.file.as_str(), info.pwd.as_str()) {
        registry.issue(info.file.as_str(), token.as_str());
        token
    } else {
        String::from_str("Incorrect password")
    }
}

/// Handles a submission. A matching password is answered with a fresh token
/// that is valid for the document from then on; anything else is answered
/// with the incorrect-password reply and leaves the registry as it was.
pub fn notes_auth(store: &CredentialStore, registry: &mut SessionRegistry, info: &NotesAuthInfo)
    -> (reply: String)
    ensures
        credentials_match(store@, info.file@, info.pwd@) ==> is_token_text(reply@)
            && final(registry)@ == issued(old(registry)@, info.file@, reply@) && accepts(
            final(registry)@,
            info.file@,
            reply@,
        ),
        !credentials_match(store@, info.file@, info.pwd@) ==> reply@ == incorrect_reply()
            && final(registry)@ == old(registry)@,
{
    if store.matches(info.file.as_str(), info.pwd.as_str()) {
        let token = fresh_token();
        authenticate(store, registry, info, token)
    } else {
        String::from_str("Incorrect password")
    }
}

/// A generated token holds no `=`, so it can be written into a query string.
pub proof fn lemma_token_fits_query(token: Seq<char>)
    requires
        is_token_text(token),
    ensures
        !token.contains('='),
{
    assert forall|i: int| 0 <= i < token.len() implies token[i] != '=' by {
        if i == 8 || i == 13 || i == 18 || i == 23 {
            assert(token[i] == '-');
        } else {
            assert(is_lower_hex(token[i]));
        }
    }
}

/// A generated token is never mistaken for the incorrect-password reply.
pub proof fn lemma_token_is_not_refusal(token: Seq<char>)
    requires
        is_token_text(token),
    ensures
        token != incorrect_reply(),
{
    reveal_strlit("Incorrect password");
}

/// A correct submission yields a token that is valid at once; an incorrect
/// one yields the refusal and issues nothing.
pub proof fn lemma_submission_outcome(
    secrets: Secrets,
    sessions: Sessions,
    id: Seq<char>,
    password: Seq<char>,
    token: Seq<char>,
)
    ensures
        credentials_match(secrets, id, password) ==> reply_after(secrets, id, password, token)
            == token && accepts(
            sessions_after(secrets, sessions, id, password, token),
            id,
            reply_after(secrets, id, password, token),
        ),
        !credentials_match(secrets, id, password) ==> reply_after(secrets, id, password, token)
            == incorrect_reply() && sessions_after(secrets, sessions, id, password, token)
            == sessions,
{
}

/// Every submission that is not accepted gets the same reply and leaves the
/// same registry behind, whether the document is unknown, the password is
/// wrong or the identifier is empty.
pub proof fn lemma_refusals_are_alike(
    secrets: Secrets,
    sessions: Sessions,
    unknown: Seq<char>,
    known: Seq<char>,
    password: Seq<char>,
    token: Seq<char>,
)
    requires
        !credentials_match(secrets, unknown, password),
        !credentials_match(secrets, known, password),
    ensures
        reply_after(secrets, unknown, password, token) == reply_after(
            secrets,
            known,
            password,
            token,
        ),
        sessions_after(secrets, sessions, unknown, password, token) == sessions_after(
            secrets,
            sessions,
            known,
            password,
            token,
        ),
{
}

/// A submission for the empty identifier is refused whatever the password,
/// so the sentinel entry of the store never yields a session.
pub proof fn lemma_sentinel_is_refused(
    secrets: Secrets,
    sessions: Sessions,
    password: Seq<char>,
    token: Seq<char>,
)
    ensures
        reply_after(secrets, Seq::empty(), password, token) == incorrect_reply(),
        sessions_after(secrets, sessions, Seq::empty(), password, token) == sessions,
{
}

/// The token that answers a correct submission for a protected document
/// opens that document at the access gate.
pub proof fn lemma_login_opens_document(
    secrets: Secrets,
    sessions: Sessions,
    id: Seq<char>,
    password: Seq<char>,
    token: Seq<char>,
)
    requires
        is_protected(id),
        credentials_match(secrets, id, password),
        is_token_text(token),
    ensures
        decide(
            sessions_after(secrets, sessions, id, password, token),
            Some(id),
            "pwd="@ + reply_after(secrets, id, password, token),
        ) == (Decision::AuthorizedServe { path: document_path(id) }),
{
    lemma_token_fits_query(token);
    crate::gate::lemma_issued_token_opens(sessions, id, token);
}

} // verus!
