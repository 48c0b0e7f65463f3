use notes_gate::credentials::CredentialStore;
use notes_gate::sessions::SessionRegistry;
use std::sync::{Arc, Mutex};

fn may_cross_contexts<T: Send + Sync>(_value: &T) {}

#[test]
fn registry_behind_a_lock_can_be_shared() {
    let shared = Arc::new(Mutex::new(SessionRegistry::new()));
    may_cross_contexts(&shared);
}

#[test]
fn loaded_store_can_be_read_from_any_context() {
    let store = Arc::new(CredentialStore::from_pairs(Vec::new()));
    may_cross_contexts(&store);
    let reader = Arc::clone(&store);
    assert_eq!(reader.sentinel(), "INITIALIZED");
    assert_eq!(store.sentinel(), "INITIALIZED");
}

#[test]
fn holders_taking_turns_at_the_lock_see_whole_updates() {
    let shared = Arc::new(Mutex::new(SessionRegistry::new()));
    let issuers: Vec<Arc<Mutex<SessionRegistry>>> = (0..4).map(|_| Arc::clone(&shared)).collect();
    let clearer = Arc::clone(&shared);

    for round in 0..50u32 {
        for (worker, handle) in issuers.iter().enumerate() {
            let id = format!("secure.doc{}.html", worker);
            let token = format!("token-{}-{}", worker, round);
            handle.lock().unwrap().issue(&id, &token);
            assert!(handle.lock().unwrap().validate(&id, &token));
        }
        assert_eq!(shared.lock().unwrap().len(), 4);
        if round % 5 == 4 {
            clearer.lock().unwrap().clear_all();
            let guard = shared.lock().unwrap();
            assert_eq!(guard.len(), 0);
            for worker in 0..4 {
                let id = format!("secure.doc{}.html", worker);
                let token = format!("token-{}-{}", worker, round);
                assert!(!guard.validate(&id, &token));
            }
        }
    }
}
