use slink::security::HashedPassword;

#[test]
fn a_hashed_password_verifies_and_rejects() {
    let stored = HashedPassword::new("correct horse battery staple").unwrap();
    assert!(stored.verify("correct horse battery staple"));
    assert!(!stored.verify("hunter2"));
    assert!(!stored.verify(""));
}

#[test]
fn the_encoding_round_trips_through_storage() {
    let stored = HashedPassword::new("hunter2").unwrap();
    let reloaded = HashedPassword::from_encoded(stored.encoded());
    assert_eq!(reloaded, stored);
    assert!(reloaded.verify("hunter2"));
    assert!(!reloaded.verify("hunter3"));
}

#[test]
fn two_hashes_of_one_password_differ_but_both_verify() {
    let a = HashedPassword::new("hunter2").unwrap();
    let b = HashedPassword::new("hunter2").unwrap();
    // The salt is fresh per hash.
    assert_ne!(a.encoded(), b.encoded());
    assert!(a.verify("hunter2"));
    assert!(b.verify("hunter2"));
}

#[test]
fn garbage_encodings_verify_nothing() {
    let stored = HashedPassword::from_encoded("not-an-encoded-hash".to_string());
    assert!(!stored.verify("anything"));
}
