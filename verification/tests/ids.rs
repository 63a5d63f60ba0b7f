use mesh::ids::UserId;

#[test]
fn a_user_id_is_read_and_taken_apart() {
    let id = UserId::parse("@alice:example.org").unwrap();
    assert_eq!(id.as_str(), "@alice:example.org");
    assert_eq!(id.localpart(), "alice");
}

#[test]
fn the_local_part_ends_at_the_first_colon() {
    let id = UserId::parse("@bob:example.org:8448").unwrap();
    assert_eq!(id.localpart(), "bob");
}

#[test]
fn what_is_no_user_id_is_refused() {
    assert!(UserId::parse("alice:example.org").is_none());
    assert!(UserId::parse("@alice").is_none());
    assert!(UserId::parse("").is_none());
    assert!(UserId::parse("!room:example.org").is_none());
}

#[test]
fn user_ids_are_compared_whole() {
    let a = UserId::parse("@alice:example.org").unwrap();
    let b = UserId::parse("@alice:example.com").unwrap();
    assert!(a.same(&a.clone()));
    assert!(!a.same(&b));
}
