//! The access gate: what to do with a request for one document.
//!
//! The access gate classifies a request by the document's name, the shape of the
//! query string and the session registry, and names the response. It reads
//! nothing from disk; what becomes of a decision to serve a file once the
//! file has been looked for is settled by `conclude`.

use vstd::prelude::*;
use vstd::string::*;

use crate::naming::{is_protected, is_protected_name};
use crate::sessions::{accepts, issued, swept, SessionRegistry, Sessions};
use crate::text::{has_char_from, has_prefix, substring, to_chars};

verus! {

/// The model of what a query string says about a password.
pub enum QueryShape {
    /// The query string is empty.
    Absent,
    /// The query string is `pwd=` followed by a candidate token.
    Candidate(Seq<char>),
    /// Anything else.
    Malformed,
}

/// What a query string says about a password.
#[derive(Clone, Debug, PartialEq, Eq)]
pub enum PasswordQuery {
    Absent,
    Candidate(String),
    Malformed,
}

impl View for PasswordQuery {
    type V = QueryShape;

    open spec fn view(&self) -> QueryShape {
        match self {
            PasswordQuery::Absent => QueryShape::Absent,
            PasswordQuery::Candidate(candidate) => QueryShape::Candidate(candidate@),
            PasswordQuery::Malformed => QueryShape::Malformed,
        }
    }
}

/// The model of a decision of the access gate.
pub enum Decision {
    PublicServe { path: Seq<char> },
    RedirectToAuthPage { location: Seq<char> },
    AuthorizedServe { path: Seq<char> },
    RedirectRetry { location: Seq<char> },
    NotFound,
}

/// A decision of the access gate.
#[derive(Clone, Debug, PartialEq, Eq)]
pub enum GateDecision {
    /// The document is public: serve the file at `path`.
    PublicServe { path: String },
    /// The document is protected and no token was presented.
    RedirectToAuthPage { location: String },
    /// The document is protected and the token presented is valid: serve the
    /// file at `path`.
    AuthorizedServe { path: String },
    /// The document is protected and the token presented is not valid.
    RedirectRetry { location: String },
    /// No document was named, or the query string is malformed.
    NotFound,
}

impl View for GateDecision {
    type V = Decision;

    open spec fn view(&self) -> Decision {
        match self {
            GateDecision::PublicServe { path } => Decision::PublicServe { path: path@ },
            GateDecision::RedirectToAuthPage { location } => Decision::RedirectToAuthPage {
                location: location@,
            },
            GateDecision::AuthorizedServe { path } => Decision::AuthorizedServe { path: path@ },
            GateDecision::RedirectRetry { location } => Decision::RedirectRetry {
                location: location@,
            },
            GateDecision::NotFound => Decision::NotFound,
        }
    }
}

/// The model of a response.
pub enum Outcome {
    File { path: Seq<char> },
    Redirect { location: Seq<char> },
    NotFound,
}

/// The response to a request, once it is known whether the file that was
/// to be served can be read.
#[derive(Clone, Debug, PartialEq, Eq)]
pub enum Response {
    /// The contents of the file at `path`.
    File { path: String },
    /// A redirect to `location`.
    Redirect { location: String },
    /// The not-found page.
    NotFound,
}

impl View for Response {
    type V = Outcome;

    open spec fn view(&self) -> Outcome {
        match self {
            Response::File { path } => Outcome::File { path: path@ },
            Response::Redirect { location } => Outcome::Redirect { location: location@ },
            Response::NotFound => Outcome::NotFound,
        }
    }
}

/// The shape of a query string. The only well-formed query strings are the
/// empty one and `pwd=` followed by text without a further `=`.
pub open spec fn query_shape(query: Seq<char>) -> QueryShape {
    if query.len() == 0 {
        QueryShape::Absent
    } else if "pwd="@.is_prefix_of(query) && !query.skip(4).contains('=') {
        QueryShape::Candidate(query.skip(4))
    } else {
        QueryShape::Malformed
    }
}

/// Where the file of a document lies.
pub open spec fn document_path(id: Seq<char>) -> Seq<char> {
    "./notes/"@ + id
}

/// The page that asks for the password of a document.
pub open spec fn auth_page(id: Seq<char>) -> Seq<char> {
    "/secure?file="@ + id
}

/// The same page, telling that the last attempt failed.
pub open spec fn retry_page(id: Seq<char>) -> Seq<char> {
    auth_page(id) + "&retry=1"@
}

/// The decision of the access gate for a request.
pub open spec fn decide(sessions: Sessions, filename: Option<Seq<char>>, query: Seq<char>)
    -> Decision {
    match filename {
        None => Decision::NotFound,
        Some(id) => if !is_protected(id) {
            Decision::PublicServe { path: document_path(id) }
        } else {
            match query_shape(query) {
                QueryShape::Absent => Decision::RedirectToAuthPage { location: auth_page(id) },
                QueryShape::Candidate(candidate) => if accepts(sessions, id, candidate) {
                    Decision::AuthorizedServe { path: document_path(id) }
                } else {
                    Decision::RedirectRetry { location: retry_page(id) }
                },
                QueryShape::Malformed => Decision::NotFound,
            }
        },
    }
}

/// The response that a decision leads to. A file that cannot be read is
/// answered like a document that does not exist.
pub open spec fn concluded(decision: Decision, readable: bool) -> Outcome {
    match decision {
        Decision::PublicServe { path } | Decision::AuthorizedServe { path } => if readable {
            Outcome::File { path }
        } else {
            Outcome::NotFound
        },
        Decision::RedirectToAuthPage { location } | Decision::RedirectRetry { location } => {
            Outcome::Redirect { location }
        },
        Decision::NotFound => Outcome::NotFound,
    }
}

/// Reads the shape of a query string.
pub fn parse_query(query: &str) -> (parsed: PasswordQuery)
    ensures
        parsed@ == query_shape(query@),
{
    let chars = to_chars(query);
    if chars.len() == 0 {
        return PasswordQuery::Absent;
    }
    let key = to_chars("pwd=");
    proof {
        reveal_strlit("pwd=");
    }
    if has_prefix(&chars, &key) && !has_char_from(&chars, 4, '=') {
        let candidate = substring(&chars, 4, chars.len());
        assert(chars@.subrange(4, chars.len() as int) == chars@.skip(4));
        PasswordQuery::Candidate(candidate)
    } else {
        PasswordQuery::Malformed
    }
}

fn document_path_of(id: &str) -> (path: String)
    ensures
        path@ == document_path(id@),
{
    let mut path = String::from_str("./notes/");
    path.append(id);
    path
}

fn auth_page_of(id: &str) -> (location: String)
    ensures
        location@ == auth_page(id@),
{
    let mut location = String::from_str("/secure?file=");
    location.append(id);
    location
}

/// Decides what to do with a request for the document `filename`, made with
/// the query string `query`, while `registry` holds the live sessions.
pub fn notes_handler(registry: &SessionRegistry, filename: Option<&str>, query: &str) -> (decision:
    GateDecision)
    ensures
        decision@ == decide(
            registry@,
            match filename {
                Some(id) => Some(id@),
                None => None,
            },
            query@,
        ),
{
    let id = match filename {
        Some(id) => id,
        None => {
            return GateDecision::NotFound;
        },
    };
    if !is_protected_name(id) {
        return GateDecision::PublicServe { path: document_path_of(id) };
    }
    match parse_query(query) {
        PasswordQuery::Absent => GateDecision::RedirectToAuthPage { location: auth_page_of(id) },
        PasswordQuery::Candidate(candidate) => {
            if registry.validate(id, candidate.as_str()) {
                GateDecision::AuthorizedServe { path: document_path_of(id) }
            } else {
                let mut location = auth_page_of(id);
                location.append("&retry=1");
                GateDecision::RedirectRetry { location }
            }
        },
        PasswordQuery::Malformed => GateDecision::NotFound,
    }
}

/// Turns a decision into the response, given whether the file that the
/// decision names can be read. The flag is ignored for decisions that serve
/// no file.
pub fn conclude(decision: GateDecision, readable: bool) -> (response: Response)
    ensures
        response@ == concluded(decision@, readable),
{
    match decision {
        GateDecision::PublicServe { path } | GateDecision::AuthorizedServe { path } => {
            if readable {
                Response::File { path }
            } else {
                Response::NotFound
            }
        },
        GateDecision::RedirectToAuthPage { location } | GateDecision::RedirectRetry {
            location,
        } => Response::Redirect { location },
        GateDecision::NotFound => Response::NotFound,
    }
}

/// A query string made of `pwd=` and a text presents that text as the
/// candidate if the text holds no `=`, and is malformed otherwise.
pub proof fn lemma_pwd_query_shape(text: Seq<char>)
    ensures
        query_shape("pwd="@ + text) == if text.contains('=') {
            QueryShape::Malformed
        } else {
            QueryShape::Candidate(text)
        },
{
    reveal_strlit("pwd=");
    let query = "pwd="@ + text;
    assert(query.skip(4) =~= text);
    assert(query.subrange(0, 4) =~= "pwd="@);
}

/// A public document is served whatever the query string and the registry
/// hold.
pub proof fn lemma_public_is_served(sessions: Sessions, id: Seq<char>, query: Seq<char>)
    requires
        !is_protected(id),
    ensures
        decide(sessions, Some(id), query) == (Decision::PublicServe { path: document_path(id) }),
{
}

/// A protected document is served only to a request that presents the live
/// token of that document.
pub proof fn lemma_protected_needs_token(sessions: Sessions, id: Seq<char>, query: Seq<char>)
    requires
        is_protected(id),
    ensures
        !(decide(sessions, Some(id), query) is PublicServe),
        decide(sessions, Some(id), query) is AuthorizedServe ==> sessions.contains_key(id)
            && query == "pwd="@ + sessions[id],
{
    reveal_strlit("pwd=");
    if decide(sessions, Some(id), query) is AuthorizedServe {
        assert(query =~= "pwd="@ + query.skip(4));
    }
}

/// A request for a protected document without a query string is sent to the
/// page that asks for the password.
pub proof fn lemma_no_token_redirects(sessions: Sessions, id: Seq<char>)
    requires
        is_protected(id),
    ensures
        decide(sessions, Some(id), Seq::empty()) == (Decision::RedirectToAuthPage {
            location: auth_page(id),
        }),
{
}

/// A token that has just been issued for a protected document opens it,
/// provided the token can be written into a query string, that is, holds no
/// `=`.
pub proof fn lemma_issued_token_opens(sessions: Sessions, id: Seq<char>, token: Seq<char>)
    requires
        is_protected(id),
        !token.contains('='),
    ensures
        decide(issued(sessions, id, token), Some(id), "pwd="@ + token) == (
        Decision::AuthorizedServe { path: document_path(id) }),
{
    lemma_pwd_query_shape(token);
}

/// A well-formed candidate that is not the live token of a protected
/// document is sent back to the password page with the retry mark.
pub proof fn lemma_wrong_token_retries(sessions: Sessions, id: Seq<char>, candidate: Seq<char>)
    requires
        is_protected(id),
        !candidate.contains('='),
        !accepts(sessions, id, candidate),
    ensures
        decide(sessions, Some(id), "pwd="@ + candidate) == (Decision::RedirectRetry {
            location: retry_page(id),
        }),
{
    lemma_pwd_query_shape(candidate);
}

/// After a sweep no request opens a protected document.
pub proof fn lemma_sweep_closes(id: Seq<char>, query: Seq<char>)
    requires
        is_protected(id),
    ensures
        !(decide(swept(), Some(id), query) is AuthorizedServe),
        !(decide(swept(), Some(id), query) is PublicServe),
{
}

/// Once a second token has been issued for a protected document, the first
/// one no longer opens it.
pub proof fn lemma_replaced_token_is_refused(
    sessions: Sessions,
    id: Seq<char>,
    first: Seq<char>,
    second: Seq<char>,
)
    requires
        is_protected(id),
        first != second,
    ensures
        !(decide(issued(issued(sessions, id, first), id, second), Some(id), "pwd="@ + first)
            is AuthorizedServe),
{
    lemma_pwd_query_shape(first);
}

/// No response carries a file unless the access gate decided to serve it and the
/// file could be read.
pub proof fn lemma_file_needs_serve_decision(decision: Decision, readable: bool)
    ensures
        concluded(decision, readable) is File ==> readable && (decision is PublicServe
            || decision is AuthorizedServe),
{
}

} // verus!
