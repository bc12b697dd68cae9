use session_registry::username::{
    Username, INVALID_USERNAME, MAX_USERNAME_CHARS, MIN_USERNAME_CHARS,
};

#[test]
fn accepts_a_plain_name() {
    let name = Username::new("alice").unwrap();
    assert_eq!(name.value(), "alice");
}

#[test]
fn accepts_names_of_three_and_of_twenty_characters() {
    assert_eq!(Username::new("abc").unwrap().value(), "abc");
    let twenty = "abcdefghij0123456789";
    assert_eq!(twenty.chars().count(), 20);
    assert_eq!(Username::new(twenty).unwrap().value(), twenty);
}

#[test]
fn accepts_digits_and_mixed_case() {
    assert_eq!(Username::new("R2D2").unwrap().value(), "R2D2");
    assert_eq!(Username::new("007").unwrap().value(), "007");
}

#[test]
fn accepts_letters_of_other_scripts() {
    assert_eq!(Username::new("José").unwrap().value(), "José");
    assert_eq!(Username::new("藏书阁").unwrap().value(), "藏书阁");
}

#[test]
fn counts_characters_not_bytes() {
    let twenty = "éééééééééééééééééééé";
    assert_eq!(twenty.chars().count(), 20);
    assert_eq!(twenty.len(), 40);
    assert_eq!(Username::new(twenty).unwrap().value(), twenty);
    let two = "éé";
    assert_eq!(two.len(), 4);
    assert_eq!(Username::new(two).err(), Some(INVALID_USERNAME));
}

#[test]
fn rejects_a_short_name() {
    assert_eq!(Username::new("ab").err(), Some(INVALID_USERNAME));
    assert_eq!(Username::new("a").err(), Some(INVALID_USERNAME));
}

#[test]
fn rejects_the_empty_name() {
    assert_eq!(Username::new("").err(), Some(INVALID_USERNAME));
}

#[test]
fn rejects_a_name_of_twenty_one_characters() {
    let name = "abcdefghij0123456789x";
    assert_eq!(name.chars().count(), 21);
    assert_eq!(Username::new(name).err(), Some(INVALID_USERNAME));
}

#[test]
fn rejects_characters_that_are_not_alphanumeric() {
    for name in ["bad name", "a_b", "abc!", "ab-cd", "abc\n", "a.b.c", " abc", "abc "] {
        assert_eq!(Username::new(name).err(), Some(INVALID_USERNAME), "{:?}", name);
    }
}

#[test]
fn says_why_a_name_was_rejected() {
    assert_eq!(
        Username::new("no").err(),
        Some(
            "Invalid username: it must be between 3 and 20 characters long and contain only alphanumeric characters"
        )
    );
}

#[test]
fn is_valid_agrees_with_new() {
    for name in ["alice", "ab", "", "abc", "bad name", "abcdefghij0123456789", "abcdefghij0123456789x"] {
        assert_eq!(Username::is_valid(name), Username::new(name).is_ok(), "{:?}", name);
    }
}

#[test]
fn the_bounds_are_three_and_twenty() {
    assert_eq!(MIN_USERNAME_CHARS, 3);
    assert_eq!(MAX_USERNAME_CHARS, 20);
}

#[test]
fn a_clone_holds_the_same_name() {
    let name = Username::new("alice").unwrap();
    let copy = name.clone();
    assert_eq!(copy.value(), name.value());
}
