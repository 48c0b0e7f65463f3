use notes_gate::reaper::{next_action, sweep, ReaperAction, ReaperEvent, SWEEP_INTERVAL_SECONDS};
use notes_gate::sessions::SessionRegistry;

#[test]
fn new_registry_validates_nothing() {
    let registry = SessionRegistry::new();
    assert_eq!(registry.len(), 0);
    assert!(!registry.validate("secure.diary.html", "t1"));
    assert!(!registry.validate("", ""));
}

#[test]
fn issued_token_is_valid_at_once() {
    let mut registry = SessionRegistry::new();
    registry.issue("secure.diary.html", "t1");
    assert!(registry.validate("secure.diary.html", "t1"));
    assert_eq!(registry.len(), 1);
}

#[test]
fn second_issue_overwrites_the_first() {
    let mut registry = SessionRegistry::new();
    registry.issue("secure.diary.html", "t1");
    registry.issue("secure.diary.html", "t2");
    assert!(!registry.validate("secure.diary.html", "t1"));
    assert!(registry.validate("secure.diary.html", "t2"));
    assert_eq!(registry.len(), 1);
}

#[test]
fn issuing_the_same_token_twice_keeps_it_valid() {
    let mut registry = SessionRegistry::new();
    registry.issue("secure.diary.html", "t1");
    registry.issue("secure.diary.html", "t1");
    assert!(registry.validate("secure.diary.html", "t1"));
}

#[test]
fn issue_for_one_document_leaves_the_others() {
    let mut registry = SessionRegistry::new();
    registry.issue("secure.a.html", "ta");
    registry.issue("secure.b.html", "tb");
    assert!(registry.validate("secure.a.html", "ta"));
    assert!(registry.validate("secure.b.html", "tb"));
    assert!(!registry.validate("secure.a.html", "tb"));
    assert!(!registry.validate("secure.b.html", "ta"));
    assert_eq!(registry.len(), 2);
}

#[test]
fn validate_compares_whole_strings() {
    let mut registry = SessionRegistry::new();
    registry.issue("secure.diary.html", "Token");
    assert!(!registry.validate("secure.diary.html", "token"));
    assert!(!registry.validate("secure.diary.html", "Toke"));
    assert!(!registry.validate("secure.diary.html", "Token "));
    assert!(!registry.validate("secure.diary.html", ""));
    assert!(!registry.validate("secure.diary.htm", "Token"));
    assert!(registry.validate("secure.diary.html", "Token"));
}

#[test]
fn validate_handles_text_beyond_ascii() {
    let mut registry = SessionRegistry::new();
    registry.issue("secure.caf\u{e9}.html", "cl\u{e9}");
    assert!(registry.validate("secure.caf\u{e9}.html", "cl\u{e9}"));
    assert!(!registry.validate("secure.cafe.html", "cl\u{e9}"));
    assert!(!registry.validate("secure.caf\u{e9}.html", "cle"));
}

#[test]
fn clear_all_invalidates_every_issued_token() {
    let mut registry = SessionRegistry::new();
    let issued = vec![
        ("secure.a.html", "ta"),
        ("secure.b.html", "tb"),
        ("", "INITIALIZED"),
        ("public.html", "tp"),
    ];
    for (id, token) in issued.iter() {
        registry.issue(id, token);
    }
    for (id, token) in issued.iter() {
        assert!(registry.validate(id, token));
    }
    registry.clear_all();
    assert_eq!(registry.len(), 0);
    for (id, token) in issued.iter() {
        assert!(!registry.validate(id, token));
    }
}

#[test]
fn registry_is_usable_after_clear_all() {
    let mut registry = SessionRegistry::new();
    registry.issue("secure.a.html", "old");
    registry.clear_all();
    registry.issue("secure.a.html", "new");
    assert!(!registry.validate("secure.a.html", "old"));
    assert!(registry.validate("secure.a.html", "new"));
}

#[test]
fn clear_all_on_empty_registry_is_harmless() {
    let mut registry = SessionRegistry::new();
    registry.clear_all();
    registry.clear_all();
    assert_eq!(registry.len(), 0);
}

#[test]
fn reaper_sleeps_one_hour_first() {
    assert_eq!(SWEEP_INTERVAL_SECONDS, 3600);
    assert_eq!(
        next_action(ReaperEvent::Started),
        ReaperAction::Sleep { seconds: 3600 }
    );
}

#[test]
fn reaper_sweeps_after_each_sleep() {
    assert_eq!(next_action(ReaperEvent::Slept), ReaperAction::Sweep);
}

#[test]
fn reaper_sleeps_again_after_a_sweep() {
    assert_eq!(
        next_action(ReaperEvent::Swept),
        ReaperAction::Sleep { seconds: 3600 }
    );
}

#[test]
fn reaper_waits_for_the_next_interval_after_a_failure() {
    assert_eq!(
        next_action(ReaperEvent::SweepFailed),
        ReaperAction::Sleep { seconds: 3600 }
    );
}

#[test]
fn sweep_ends_every_session() {
    let mut registry = SessionRegistry::new();
    registry.issue("secure.a.html", "ta");
    registry.issue("secure.b.html", "tb");
    let event = sweep(&mut registry);
    assert_eq!(event, ReaperEvent::Swept);
    assert_eq!(registry.len(), 0);
    assert!(!registry.validate("secure.a.html", "ta"));
    assert!(!registry.validate("secure.b.html", "tb"));
}

#[test]
fn reaper_cycle_runs_without_end() {
    let mut registry = SessionRegistry::new();
    let mut event = ReaperEvent::Started;
    let mut sweeps = 0;
    let mut slept = 0u64;
    for round in 0..20 {
        match next_action(event) {
            ReaperAction::Sleep { seconds } => {
                slept += seconds;
                event = ReaperEvent::Slept;
            }
            ReaperAction::Sweep => {
                registry.issue("secure.a.html", "t");
                event = if round % 4 == 1 {
                    ReaperEvent::SweepFailed
                } else {
                    sweeps += 1;
                    sweep(&mut registry)
                };
            }
        }
    }
    assert_eq!(slept, 10 * 3600);
    assert_eq!(sweeps, 5);
}
