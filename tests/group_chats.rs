use sorume::{
    check_group_chat_exists, delete_group_chat_by_id, delete_members_of_group,
    delete_memberships_of_profile, delete_profile_by_id, delete_single_membership,
    get_group_chat_by_id, get_members_of_group, get_memberships_of_profile, get_messages_of_group,
    insert_group_chat, insert_group_chat_at, insert_group_chat_member,
    insert_group_chat_message_at, insert_profile_at, update_group_chat, DateTime, DbError, Store,
};

fn instant(day: u32) -> DateTime {
    DateTime { year: 2023, month: 5, day, hour: 21, minute: 27, second: 47, nanosecond: 5 }
}

fn add(store: &mut Store, name: &str) -> i32 {
    insert_profile_at(name, &None, "secret", "x@example.com", instant(1), store)
        .unwrap()
        .profile_id
}

fn member_ids(store: &Store, chat: i32) -> Vec<i32> {
    get_members_of_group(chat, store).unwrap().iter().map(|m| m.profile_id).collect()
}

#[test]
fn create_group_chat_empty_is_invalid() {
    let mut store = Store::new();
    assert_eq!(insert_group_chat_at(vec![], instant(1), &mut store).unwrap_err(), DbError::InvalidArgument);
    add(&mut store, "alice");
    assert_eq!(insert_group_chat_at(vec![], instant(1), &mut store).unwrap_err(), DbError::InvalidArgument);
    assert_eq!(get_group_chat_by_id(1, &store).unwrap_err(), DbError::NotFound);
}

#[test]
fn create_group_chat_skips_unknown_ids() {
    let mut store = Store::new();
    let a = add(&mut store, "alice");
    let b = add(&mut store, "bob");
    let chat = insert_group_chat_at(vec![a, 99, b, -4], instant(3), &mut store).unwrap();
    assert_eq!(chat.group_chat_id, 1);
    assert_eq!(chat.creation_date, instant(3));
    assert_eq!(chat.group_picture, None);
    assert_eq!(member_ids(&store, chat.group_chat_id), vec![a, b]);
}

#[test]
fn create_group_chat_with_no_resolvable_ids() {
    let mut store = Store::new();
    let chat = insert_group_chat_at(vec![5, 6], instant(3), &mut store).unwrap();
    assert_eq!(member_ids(&store, chat.group_chat_id), Vec::<i32>::new());
}

#[test]
fn create_group_chat_repeated_id_adds_twice() {
    let mut store = Store::new();
    let a = add(&mut store, "alice");
    let chat = insert_group_chat_at(vec![a, a], instant(3), &mut store).unwrap();
    let ms = get_members_of_group(chat.group_chat_id, &store).unwrap();
    assert_eq!(ms.len(), 2);
    assert_eq!(ms[0].member_id, 1);
    assert_eq!(ms[1].member_id, 2);
}

#[test]
fn alice_bob_chat_then_delete() {
    let mut store = Store::new();
    let alice = add(&mut store, "alice");
    let bob = add(&mut store, "bob");
    let chat = insert_group_chat_at(vec![alice, bob], instant(1), &mut store).unwrap();
    let ms = get_members_of_group(chat.group_chat_id, &store).unwrap();
    assert_eq!(ms.len(), 2);
    insert_group_chat_message_at(alice, chat.group_chat_id, "hello".to_string(), instant(2), &mut store)
        .unwrap();
    assert_eq!(get_messages_of_group(chat.group_chat_id, &store).unwrap().len(), 1);
    assert_eq!(delete_group_chat_by_id(chat.group_chat_id, &mut store).unwrap().rows_affected, 1);
    assert_eq!(get_members_of_group(chat.group_chat_id, &store).unwrap_err(), DbError::NotFound);
    assert!(get_memberships_of_profile(alice, &store).unwrap().is_empty());
}

#[test]
fn delete_missing_chat_not_found() {
    let mut store = Store::new();
    assert_eq!(delete_group_chat_by_id(3, &mut store).unwrap_err(), DbError::NotFound);
}

#[test]
fn update_group_chat_picture() {
    let mut store = Store::new();
    let a = add(&mut store, "alice");
    let chat = insert_group_chat_at(vec![a], instant(1), &mut store).unwrap();
    let c = update_group_chat(chat.group_chat_id, "pic.png".to_string(), &mut store).unwrap();
    assert_eq!(c.group_picture, Some("pic.png".to_string()));
    assert_eq!(c.creation_date, instant(1));
    let read = check_group_chat_exists(chat.group_chat_id, &store).unwrap();
    assert_eq!(read.group_picture, Some("pic.png".to_string()));
    assert_eq!(update_group_chat(42, "x".to_string(), &mut store).unwrap_err(), DbError::NotFound);
}

#[test]
fn add_member_guards() {
    let mut store = Store::new();
    let a = add(&mut store, "alice");
    let b = add(&mut store, "bob");
    let chat = insert_group_chat_at(vec![a], instant(1), &mut store).unwrap().group_chat_id;
    assert_eq!(insert_group_chat_member(77, chat, &mut store).unwrap_err(), DbError::NotFound);
    assert_eq!(insert_group_chat_member(b, 77, &mut store).unwrap_err(), DbError::NotFound);
    let m = insert_group_chat_member(b, chat, &mut store).unwrap();
    assert_eq!(m.profile_id, b);
    assert_eq!(m.group_chat_id, chat);
    assert_eq!(m.member_id, 2);
    assert_eq!(member_ids(&store, chat), vec![a, b]);
}

#[test]
fn remove_member_without_membership_is_not_found() {
    let mut store = Store::new();
    let a = add(&mut store, "alice");
    let b = add(&mut store, "bob");
    let chat = insert_group_chat_at(vec![a], instant(1), &mut store).unwrap().group_chat_id;
    assert_eq!(delete_single_membership(chat, b, &mut store).unwrap_err(), DbError::NotFound);
    assert_eq!(member_ids(&store, chat), vec![a]);
}

#[test]
fn remove_member_removes_lowest_key() {
    let mut store = Store::new();
    let a = add(&mut store, "alice");
    let chat = insert_group_chat_at(vec![a], instant(1), &mut store).unwrap().group_chat_id;
    insert_group_chat_member(a, chat, &mut store).unwrap();
    assert_eq!(delete_single_membership(chat, a, &mut store).unwrap().rows_affected, 1);
    let ms = get_members_of_group(chat, &store).unwrap();
    assert_eq!(ms.len(), 1);
    assert_eq!(ms[0].member_id, 2);
}

#[test]
fn memberships_of_profile_skip_deleted_chats() {
    let mut store = Store::new();
    let a = add(&mut store, "alice");
    let c1 = insert_group_chat_at(vec![a], instant(1), &mut store).unwrap().group_chat_id;
    let c2 = insert_group_chat_at(vec![a], instant(2), &mut store).unwrap().group_chat_id;
    let chats: Vec<i32> = get_memberships_of_profile(a, &store).unwrap().iter().map(|c| c.group_chat_id).collect();
    assert_eq!(chats, vec![c1, c2]);
    delete_group_chat_by_id(c1, &mut store).unwrap();
    let chats: Vec<i32> = get_memberships_of_profile(a, &store).unwrap().iter().map(|c| c.group_chat_id).collect();
    assert_eq!(chats, vec![c2]);
    assert_eq!(get_memberships_of_profile(50, &store).unwrap_err(), DbError::NotFound);
}

#[test]
fn bulk_membership_deletes() {
    let mut store = Store::new();
    let a = add(&mut store, "alice");
    let b = add(&mut store, "bob");
    let c1 = insert_group_chat_at(vec![a, b], instant(1), &mut store).unwrap().group_chat_id;
    let c2 = insert_group_chat_at(vec![a, b], instant(1), &mut store).unwrap().group_chat_id;
    assert_eq!(delete_memberships_of_profile(a, &mut store).unwrap().rows_affected, 2);
    assert_eq!(member_ids(&store, c1), vec![b]);
    assert_eq!(delete_members_of_group(c2, &mut store).unwrap().rows_affected, 1);
    assert!(member_ids(&store, c2).is_empty());
    assert_eq!(delete_members_of_group(c2, &mut store).unwrap().rows_affected, 0);
    assert_eq!(delete_members_of_group(9, &mut store).unwrap_err(), DbError::NotFound);
    assert_eq!(delete_memberships_of_profile(9, &mut store).unwrap_err(), DbError::NotFound);
}

#[test]
fn deleting_profile_leaves_memberships() {
    let mut store = Store::new();
    let a = add(&mut store, "alice");
    let chat = insert_group_chat_at(vec![a], instant(1), &mut store).unwrap().group_chat_id;
    delete_profile_by_id(a, &mut store).unwrap();
    assert_eq!(member_ids(&store, chat), vec![a]);
}

#[test]
fn insert_group_chat_reads_clock() {
    let mut store = Store::new();
    let a = add(&mut store, "alice");
    let chat = insert_group_chat(vec![a], &mut store).unwrap();
    assert!(chat.creation_date.year >= 2020);
    assert!(1 <= chat.creation_date.month && chat.creation_date.month <= 12);
}
