use sorume::username::{is_username_valid, is_whitespace};
use sorume::{
    check_profile_exists, delete_profile_by_id, get_profile_by_id, get_profile_by_username,
    insert_profile, insert_profile_at, update_profile, DateTime, DbError, Store,
};

fn instant(day: u32) -> DateTime {
    DateTime { year: 2023, month: 8, day, hour: 18, minute: 11, second: 32, nanosecond: 0 }
}

fn add(store: &mut Store, name: &str) -> i32 {
    insert_profile_at(name, &None, "secret", "x@example.com", instant(1), store)
        .unwrap()
        .profile_id
}

#[test]
fn create_profile_sets_defaults() {
    let mut store = Store::new();
    let p = insert_profile_at(
        "alice",
        &Some("Alice".to_string()),
        "pw",
        "alice@example.com",
        instant(4),
        &mut store,
    )
    .unwrap();
    assert_eq!(p.profile_id, 1);
    assert_eq!(p.username, "alice");
    assert_eq!(p.displayname, Some("Alice".to_string()));
    assert_eq!(p.password, "pw");
    assert_eq!(p.email_address, "alice@example.com");
    assert_eq!(p.join_datetime, instant(4));
    assert_eq!(p.profile_picture, Some("default".to_string()));
    assert_eq!(get_profile_by_id(1, &store).unwrap().username, "alice");
}

#[test]
fn profile_keys_increase() {
    let mut store = Store::new();
    assert_eq!(add(&mut store, "alice"), 1);
    assert_eq!(add(&mut store, "bob"), 2);
    assert_eq!(add(&mut store, "carol"), 3);
}

#[test]
fn username_with_space_is_invalid() {
    let mut store = Store::new();
    let r = insert_profile_at("al ice", &None, "pw", "e", instant(1), &mut store);
    assert_eq!(r.unwrap_err(), DbError::InvalidUsername);
    let r = insert_profile_at("alice\t", &None, "pw", "e", instant(1), &mut store);
    assert_eq!(r.unwrap_err(), DbError::InvalidUsername);
    let r = insert_profile_at("a\u{3000}b", &None, "pw", "e", instant(1), &mut store);
    assert_eq!(r.unwrap_err(), DbError::InvalidUsername);
    assert!(get_profile_by_id(1, &store).is_err());
}

#[test]
fn username_length_limit() {
    let mut store = Store::new();
    let long = "a".repeat(33);
    let r = insert_profile_at(&long, &None, "pw", "e", instant(1), &mut store);
    assert_eq!(r.unwrap_err(), DbError::InvalidUsername);
    let fits = "b".repeat(32);
    assert!(insert_profile_at(&fits, &None, "pw", "e", instant(1), &mut store).is_ok());
}

#[test]
fn username_limit_counts_characters() {
    let mut store = Store::new();
    // Seventeen two-byte characters: 34 bytes, but only 17 characters.
    let accented = "\u{e9}".repeat(17);
    let p = insert_profile_at(&accented, &None, "pw", "e", instant(1), &mut store).unwrap();
    assert_eq!(p.username, accented);
    let wide = "\u{20ac}".repeat(32);
    assert!(insert_profile_at(&wide, &None, "pw", "e", instant(1), &mut store).is_ok());
    let too_wide = "\u{20ac}".repeat(33);
    let r = insert_profile_at(&too_wide, &None, "pw", "e", instant(1), &mut store);
    assert_eq!(r.unwrap_err(), DbError::InvalidUsername);
    assert!(is_username_valid(&"\u{e9}".repeat(32)));
    assert!(!is_username_valid(&"\u{e9}".repeat(33)));
}

#[test]
fn username_rule_direct() {
    assert!(is_username_valid("alice"));
    assert!(is_username_valid(""));
    assert!(!is_username_valid("a b"));
    assert!(!is_username_valid("ab\n"));
    assert!(!is_username_valid(&"z".repeat(33)));
    assert!(is_whitespace(' '));
    assert!(is_whitespace('\u{85}'));
    assert!(is_whitespace('\u{2009}'));
    assert!(!is_whitespace('a'));
    assert!(!is_whitespace('\u{200b}'));
}

#[test]
fn duplicate_username_is_store_error() {
    let mut store = Store::new();
    add(&mut store, "alice");
    let r = insert_profile_at("alice", &None, "pw", "e", instant(1), &mut store);
    assert_eq!(r.unwrap_err(), DbError::StoreError);
}

#[test]
fn long_displayname_is_store_error() {
    let mut store = Store::new();
    let d = Some("d".repeat(33));
    let r = insert_profile_at("alice", &d, "pw", "e", instant(1), &mut store);
    assert_eq!(r.unwrap_err(), DbError::StoreError);
}

#[test]
fn unique_valid_usernames_succeed() {
    let mut store = Store::new();
    for name in ["a", "bob", "carol_123", "\u{e9}mile"] {
        assert!(insert_profile_at(name, &None, "pw", "e", instant(1), &mut store).is_ok());
    }
}

#[test]
fn lookup_by_username() {
    let mut store = Store::new();
    add(&mut store, "alice");
    let b = add(&mut store, "bob");
    assert_eq!(get_profile_by_username("bob", &store).unwrap().profile_id, b);
    assert_eq!(get_profile_by_username("dave", &store).unwrap_err(), DbError::NotFound);
}

#[test]
fn missing_profile_not_found() {
    let store = Store::new();
    assert_eq!(get_profile_by_id(7, &store).unwrap_err(), DbError::NotFound);
    assert_eq!(check_profile_exists(7, &store).unwrap_err(), DbError::NotFound);
}

#[test]
fn delete_profile_twice_second_is_not_found() {
    let mut store = Store::new();
    let a = add(&mut store, "alice");
    assert_eq!(delete_profile_by_id(a, &mut store).unwrap().rows_affected, 1);
    assert_eq!(delete_profile_by_id(a, &mut store).unwrap_err(), DbError::NotFound);
    assert_eq!(get_profile_by_id(a, &store).unwrap_err(), DbError::NotFound);
}

#[test]
fn deleted_key_is_not_reused() {
    let mut store = Store::new();
    let a = add(&mut store, "alice");
    delete_profile_by_id(a, &mut store).unwrap();
    assert_eq!(add(&mut store, "alice"), a + 1);
}

#[test]
fn update_username_round_trip() {
    let mut store = Store::new();
    let before = insert_profile_at(
        "alice",
        &Some("Alice".to_string()),
        "pw",
        "alice@example.com",
        instant(2),
        &mut store,
    )
    .unwrap();
    let r = update_profile(before.profile_id, Some("alicia".to_string()), None, None, None, None, &mut store)
        .unwrap();
    assert_eq!(r.username, "alicia");
    let after = get_profile_by_id(before.profile_id, &store).unwrap();
    assert_eq!(after.username, "alicia");
    assert_eq!(after.displayname, before.displayname);
    assert_eq!(after.password, before.password);
    assert_eq!(after.email_address, before.email_address);
    assert_eq!(after.profile_picture, before.profile_picture);
    assert_eq!(after.join_datetime, before.join_datetime);
}

#[test]
fn update_all_fields() {
    let mut store = Store::new();
    let a = add(&mut store, "alice");
    let r = update_profile(
        a,
        None,
        Some("Al".to_string()),
        Some("pw2".to_string()),
        Some("new@example.com".to_string()),
        Some("cat.png".to_string()),
        &mut store,
    )
    .unwrap();
    assert_eq!(r.username, "alice");
    assert_eq!(r.displayname, Some("Al".to_string()));
    assert_eq!(r.password, "pw2");
    assert_eq!(r.email_address, "new@example.com");
    assert_eq!(r.profile_picture, Some("cat.png".to_string()));
}

#[test]
fn update_profile_errors() {
    let mut store = Store::new();
    let a = add(&mut store, "alice");
    add(&mut store, "bob");
    let none = || None::<String>;
    assert_eq!(
        update_profile(9, None, none(), none(), none(), none(), &mut store).unwrap_err(),
        DbError::NotFound
    );
    assert_eq!(
        update_profile(a, Some("a b".to_string()), none(), none(), none(), none(), &mut store)
            .unwrap_err(),
        DbError::InvalidUsername
    );
    assert_eq!(
        update_profile(a, Some("bob".to_string()), none(), none(), none(), none(), &mut store)
            .unwrap_err(),
        DbError::StoreError
    );
    // Keeping one's own username is no conflict.
    assert!(update_profile(a, Some("alice".to_string()), none(), none(), none(), none(), &mut store).is_ok());
    assert_eq!(get_profile_by_username("alice", &store).unwrap().profile_id, a);
}

#[test]
fn insert_profile_reads_clock() {
    let mut store = Store::new();
    let p = insert_profile("alice", &None, "pw", "e", &mut store).unwrap();
    let t = p.join_datetime;
    assert!(t.year >= 2020);
    assert!(1 <= t.month && t.month <= 12);
    assert!(1 <= t.day && t.day <= 31);
    assert!(t.hour < 24 && t.minute < 60 && t.second < 60);
}
