use hangman::user::{build_user, User};

#[test]
fn a_new_user_is_active_with_one_sign_in() {
    let user = User::new(String::from("someusername123"), String::from("someone@example.com"));
    assert!(user.active);
    assert_eq!(user.username, "someusername123");
    assert_eq!(user.email, "someone@example.com");
    assert_eq!(user.sign_in_count, 1);
}

#[test]
fn build_user_takes_the_address_first() {
    let user = build_user(String::from("another@example.com"), String::from("someusername123"));
    assert!(user.active);
    assert_eq!(user.username, "someusername123");
    assert_eq!(user.email, "another@example.com");
    assert_eq!(user.sign_in_count, 1);
}

#[test]
fn both_ways_build_the_same_user() {
    let a = User::new(String::from("name"), String::from("mail"));
    let b = build_user(String::from("mail"), String::from("name"));
    assert_eq!(a.active, b.active);
    assert_eq!(a.username, b.username);
    assert_eq!(a.email, b.email);
    assert_eq!(a.sign_in_count, b.sign_in_count);
}

#[test]
fn a_user_may_have_empty_fields() {
    let user = User::new(String::new(), String::new());
    assert!(user.active);
    assert_eq!(user.username, "");
    assert_eq!(user.email, "");
    assert_eq!(user.sign_in_count, 1);
}
