use notes_gate::auth::{notes_auth, NotesAuthInfo};
use notes_gate::credentials::CredentialStore;
use notes_gate::gate::{conclude, notes_handler, parse_query, GateDecision, PasswordQuery, Response};
use notes_gate::naming::is_protected_name;
use notes_gate::sessions::SessionRegistry;

fn diary_store() -> CredentialStore {
    CredentialStore::from_pairs(vec![(
        "secure.diary.html".to_string(),
        "correct".to_string(),
    )])
}

#[test]
fn names_with_the_reserved_prefix_are_protected() {
    assert!(is_protected_name("secure.diary.html"));
    assert!(is_protected_name("secure"));
    assert!(is_protected_name("securely.txt"));
    assert!(is_protected_name("secure/nested.html"));
}

#[test]
fn other_names_are_public() {
    assert!(!is_protected_name(""));
    assert!(!is_protected_name("secur"));
    assert!(!is_protected_name("Secure.diary.html"));
    assert!(!is_protected_name("insecure.html"));
    assert!(!is_protected_name("notes/secure.diary.html"));
    assert!(!is_protected_name(" secure.diary.html"));
    assert!(!is_protected_name("s\u{e9}cure.html"));
}

#[test]
fn empty_query_has_no_password() {
    assert_eq!(parse_query(""), PasswordQuery::Absent);
}

#[test]
fn single_pwd_parameter_is_a_candidate() {
    assert_eq!(
        parse_query("pwd=abc"),
        PasswordQuery::Candidate("abc".to_string())
    );
    assert_eq!(parse_query("pwd="), PasswordQuery::Candidate(String::new()));
    assert_eq!(
        parse_query("pwd=a&b"),
        PasswordQuery::Candidate("a&b".to_string())
    );
    assert_eq!(
        parse_query("pwd=cl\u{e9}"),
        PasswordQuery::Candidate("cl\u{e9}".to_string())
    );
}

#[test]
fn other_query_shapes_are_malformed() {
    assert_eq!(parse_query("pwd"), PasswordQuery::Malformed);
    assert_eq!(parse_query("pwd=a=b"), PasswordQuery::Malformed);
    assert_eq!(parse_query("pwd=a&x=1"), PasswordQuery::Malformed);
    assert_eq!(parse_query("x=1"), PasswordQuery::Malformed);
    assert_eq!(parse_query("PWD=abc"), PasswordQuery::Malformed);
    assert_eq!(parse_query("=abc"), PasswordQuery::Malformed);
    assert_eq!(parse_query("pw=abc"), PasswordQuery::Malformed);
    assert_eq!(parse_query("x&pwd=abc"), PasswordQuery::Malformed);
    assert_eq!(parse_query(" "), PasswordQuery::Malformed);
    assert_eq!(parse_query("pwd=="), PasswordQuery::Malformed);
}

#[test]
fn public_document_is_served_as_it_is() {
    let registry = SessionRegistry::new();
    assert_eq!(
        notes_handler(&registry, Some("welcome.html"), ""),
        GateDecision::PublicServe {
            path: "./notes/welcome.html".to_string()
        }
    );
}

#[test]
fn public_document_ignores_the_query() {
    let registry = SessionRegistry::new();
    for query in ["pwd=abc", "x=1", "pwd=a=b", "anything"] {
        assert_eq!(
            notes_handler(&registry, Some("welcome.html"), query),
            GateDecision::PublicServe {
                path: "./notes/welcome.html".to_string()
            }
        );
    }
}

#[test]
fn missing_document_name_is_not_found() {
    let registry = SessionRegistry::new();
    assert_eq!(notes_handler(&registry, None, ""), GateDecision::NotFound);
    assert_eq!(
        notes_handler(&registry, None, "pwd=abc"),
        GateDecision::NotFound
    );
}

#[test]
fn empty_document_name_is_public() {
    let registry = SessionRegistry::new();
    assert_eq!(
        notes_handler(&registry, Some(""), ""),
        GateDecision::PublicServe {
            path: "./notes/".to_string()
        }
    );
}

#[test]
fn protected_document_without_pwd_redirects_to_the_auth_page() {
    let registry = SessionRegistry::new();
    assert_eq!(
        notes_handler(&registry, Some("secure.diary.html"), ""),
        GateDecision::RedirectToAuthPage {
            location: "/secure?file=secure.diary.html".to_string()
        }
    );
}

#[test]
fn wrong_pwd_without_session_redirects_with_retry() {
    let registry = SessionRegistry::new();
    assert_eq!(
        notes_handler(&registry, Some("secure.diary.html"), "pwd=wrong"),
        GateDecision::RedirectRetry {
            location: "/secure?file=secure.diary.html&retry=1".to_string()
        }
    );
}

#[test]
fn wrong_pwd_with_session_redirects_with_retry() {
    let mut registry = SessionRegistry::new();
    registry.issue("secure.diary.html", "right");
    assert_eq!(
        notes_handler(&registry, Some("secure.diary.html"), "pwd=wrong"),
        GateDecision::RedirectRetry {
            location: "/secure?file=secure.diary.html&retry=1".to_string()
        }
    );
    assert_eq!(
        notes_handler(&registry, Some("secure.diary.html"), "pwd="),
        GateDecision::RedirectRetry {
            location: "/secure?file=secure.diary.html&retry=1".to_string()
        }
    );
}

#[test]
fn malformed_query_on_protected_document_is_not_found() {
    let mut registry = SessionRegistry::new();
    registry.issue("secure.diary.html", "right");
    for query in ["pwd=right&x=1", "pwd=right=", "x=right", "pwd", "right"] {
        assert_eq!(
            notes_handler(&registry, Some("secure.diary.html"), query),
            GateDecision::NotFound
        );
    }
}

#[test]
fn token_of_another_document_does_not_open() {
    let mut registry = SessionRegistry::new();
    registry.issue("secure.plans.html", "right");
    assert_eq!(
        notes_handler(&registry, Some("secure.diary.html"), "pwd=right"),
        GateDecision::RedirectRetry {
            location: "/secure?file=secure.diary.html&retry=1".to_string()
        }
    );
}

#[test]
fn gate_end_to_end() {
    let store = diary_store();
    let mut registry = SessionRegistry::new();

    let first = notes_handler(&registry, Some("secure.diary.html"), "");
    assert_eq!(
        conclude(first, true),
        Response::Redirect {
            location: "/secure?file=secure.diary.html".to_string()
        }
    );

    let second = notes_handler(&registry, Some("secure.diary.html"), "pwd=wrong");
    assert_eq!(
        conclude(second, true),
        Response::Redirect {
            location: "/secure?file=secure.diary.html&retry=1".to_string()
        }
    );

    let token = notes_auth(
        &store,
        &mut registry,
        &NotesAuthInfo {
            file: "secure.diary.html".to_string(),
            pwd: "correct".to_string(),
        },
    );
    let third = notes_handler(
        &registry,
        Some("secure.diary.html"),
        &format!("pwd={}", token),
    );
    assert_eq!(
        third,
        GateDecision::AuthorizedServe {
            path: "./notes/secure.diary.html".to_string()
        }
    );
    assert_eq!(
        conclude(third, true),
        Response::File {
            path: "./notes/secure.diary.html".to_string()
        }
    );
}

#[test]
fn token_stops_opening_after_a_sweep() {
    let store = diary_store();
    let mut registry = SessionRegistry::new();
    let token = notes_auth(
        &store,
        &mut registry,
        &NotesAuthInfo {
            file: "secure.diary.html".to_string(),
            pwd: "correct".to_string(),
        },
    );
    let query = format!("pwd={}", token);
    assert!(matches!(
        notes_handler(&registry, Some("secure.diary.html"), &query),
        GateDecision::AuthorizedServe { .. }
    ));
    registry.clear_all();
    assert_eq!(
        notes_handler(&registry, Some("secure.diary.html"), &query),
        GateDecision::RedirectRetry {
            location: "/secure?file=secure.diary.html&retry=1".to_string()
        }
    );
}

#[test]
fn replaced_token_stops_opening() {
    let mut registry = SessionRegistry::new();
    registry.issue("secure.diary.html", "t1");
    registry.issue("secure.diary.html", "t2");
    assert!(matches!(
        notes_handler(&registry, Some("secure.diary.html"), "pwd=t1"),
        GateDecision::RedirectRetry { .. }
    ));
    assert!(matches!(
        notes_handler(&registry, Some("secure.diary.html"), "pwd=t2"),
        GateDecision::AuthorizedServe { .. }
    ));
}

#[test]
fn unreadable_file_is_answered_as_not_found() {
    assert_eq!(
        conclude(
            GateDecision::PublicServe {
                path: "./notes/gone.html".to_string()
            },
            false
        ),
        Response::NotFound
    );
    assert_eq!(
        conclude(
            GateDecision::AuthorizedServe {
                path: "./notes/secure.gone.html".to_string()
            },
            false
        ),
        Response::NotFound
    );
}

#[test]
fn readable_file_is_served() {
    assert_eq!(
        conclude(
            GateDecision::PublicServe {
                path: "./notes/welcome.html".to_string()
            },
            true
        ),
        Response::File {
            path: "./notes/welcome.html".to_string()
        }
    );
}

#[test]
fn redirects_and_not_found_do_not_depend_on_the_disk() {
    for readable in [true, false] {
        assert_eq!(
            conclude(
                GateDecision::RedirectToAuthPage {
                    location: "/secure?file=secure.a".to_string()
                },
                readable
            ),
            Response::Redirect {
                location: "/secure?file=secure.a".to_string()
            }
        );
        assert_eq!(
            conclude(
                GateDecision::RedirectRetry {
                    location: "/secure?file=secure.a&retry=1".to_string()
                },
                readable
            ),
            Response::Redirect {
                location: "/secure?file=secure.a&retry=1".to_string()
            }
        );
        assert_eq!(conclude(GateDecision::NotFound, readable), Response::NotFound);
    }
}
