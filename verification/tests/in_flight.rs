use webshot::in_flight::InFlight;

#[test]
fn new_register_holds_no_claim() {
    let register = InFlight::new();
    assert!(!register.contains(&"https://example.com/".to_string()));
}

#[test]
fn first_claim_is_granted_and_second_is_not() {
    let mut register = InFlight::new();
    let key = "https://example.com/".to_string();
    assert!(register.claim(key.clone()));
    assert!(register.contains(&key));
    assert!(!register.claim(key.clone()));
    assert!(register.contains(&key));
}

#[test]
fn claims_on_different_keys_do_not_collide() {
    let mut register = InFlight::new();
    assert!(register.claim("https://a.example/".to_string()));
    assert!(register.claim("https://b.example/".to_string()));
    assert!(register.contains(&"https://a.example/".to_string()));
    assert!(register.contains(&"https://b.example/".to_string()));
}

#[test]
fn released_key_can_be_claimed_again() {
    let mut register = InFlight::new();
    let key = "https://example.com/".to_string();
    assert!(register.claim(key.clone()));
    register.release(&key);
    assert!(!register.contains(&key));
    assert!(register.claim(key.clone()));
}

#[test]
fn release_leaves_other_claims_alone() {
    let mut register = InFlight::new();
    let first = "https://a.example/".to_string();
    let second = "https://b.example/".to_string();
    register.claim(first.clone());
    register.claim(second.clone());
    register.release(&first);
    assert!(!register.contains(&first));
    assert!(register.contains(&second));
}

#[test]
fn release_of_an_unclaimed_key_changes_nothing() {
    let mut register = InFlight::new();
    let held = "https://a.example/".to_string();
    register.claim(held.clone());
    register.release(&"https://b.example/".to_string());
    assert!(register.contains(&held));
}
