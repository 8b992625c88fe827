use sorume::api_models::{GetGroupChatMessage, GetPrivateMessage, GetProfile};
use sorume::{
    check_group_message_exists, delete_group_chat_by_id, delete_group_messages_of_profile,
    delete_messages_of_group, delete_private_message_by_id, delete_private_messages_of_chat,
    delete_single_group_message, get_group_message_by_id, get_group_messages_of_profile,
    get_messages_of_group, get_private_message_by_id, get_private_messages_of_chat,
    insert_group_chat_at, insert_group_chat_message, insert_group_chat_message_at,
    insert_private_message, insert_profile_at, update_group_message, update_private_message,
    DateTime, DbError, Store,
};

fn instant(minute: u32) -> DateTime {
    DateTime { year: 2024, month: 1, day: 2, hour: 3, minute, second: 4, nanosecond: 0 }
}

fn add(store: &mut Store, name: &str) -> i32 {
    insert_profile_at(name, &None, "secret", "x@example.com", instant(0), store)
        .unwrap()
        .profile_id
}

#[test]
fn private_chat_is_directional() {
    let mut store = Store::new();
    let alice = add(&mut store, "alice");
    let bob = add(&mut store, "bob");
    let m = insert_private_message(alice, bob, Some("hi".to_string()), &mut store).unwrap();
    assert_eq!(m.private_message_id, 1);
    assert!(get_private_messages_of_chat(bob, alice, &store).is_empty());
    let forward = get_private_messages_of_chat(alice, bob, &store);
    assert_eq!(forward.len(), 1);
    assert_eq!(forward[0].content, Some("hi".to_string()));
}

#[test]
fn private_message_without_existing_profiles() {
    let mut store = Store::new();
    let m = insert_private_message(40, 41, None, &mut store).unwrap();
    assert_eq!(m.sender_id, 40);
    assert_eq!(m.recipient_id, 41);
    assert_eq!(m.content, None);
}

#[test]
fn private_message_update_and_delete() {
    let mut store = Store::new();
    let m = insert_private_message(1, 2, Some("a".to_string()), &mut store).unwrap();
    let u = update_private_message(m.private_message_id, "b".to_string(), &mut store).unwrap();
    assert_eq!(u.content, Some("b".to_string()));
    assert_eq!(u.sender_id, 1);
    assert_eq!(get_private_message_by_id(m.private_message_id, &store).unwrap().content, Some("b".to_string()));
    assert_eq!(update_private_message(99, "c".to_string(), &mut store).unwrap_err(), DbError::NotFound);
    assert_eq!(delete_private_message_by_id(m.private_message_id, &mut store).unwrap().rows_affected, 1);
    assert_eq!(delete_private_message_by_id(m.private_message_id, &mut store).unwrap_err(), DbError::NotFound);
    assert_eq!(get_private_message_by_id(m.private_message_id, &store).unwrap_err(), DbError::NotFound);
}

#[test]
fn delete_private_chat_keeps_reverse() {
    let mut store = Store::new();
    insert_private_message(1, 2, Some("x".to_string()), &mut store).unwrap();
    insert_private_message(1, 2, Some("y".to_string()), &mut store).unwrap();
    insert_private_message(2, 1, Some("z".to_string()), &mut store).unwrap();
    assert_eq!(delete_private_messages_of_chat(1, 2, &mut store).rows_affected, 2);
    assert!(get_private_messages_of_chat(1, 2, &store).is_empty());
    assert_eq!(get_private_messages_of_chat(2, 1, &store).len(), 1);
}

#[test]
fn group_message_post_and_read() {
    let mut store = Store::new();
    let a = add(&mut store, "alice");
    let chat = insert_group_chat_at(vec![a], instant(1), &mut store).unwrap().group_chat_id;
    let m = insert_group_chat_message_at(a, chat, "hello".to_string(), instant(5), &mut store).unwrap();
    assert_eq!(m.message_id, 1);
    assert_eq!(m.author_id, a);
    assert_eq!(m.chat_id, chat);
    assert_eq!(m.send_time, instant(5));
    assert_eq!(m.content, Some("hello".to_string()));
    assert_eq!(get_group_message_by_id(1, &store).unwrap().content, Some("hello".to_string()));
    assert_eq!(check_group_message_exists(2, &store).unwrap_err(), DbError::NotFound);
}

#[test]
fn group_message_guards() {
    let mut store = Store::new();
    let a = add(&mut store, "alice");
    let chat = insert_group_chat_at(vec![a], instant(1), &mut store).unwrap().group_chat_id;
    assert_eq!(
        insert_group_chat_message_at(8, chat, "x".to_string(), instant(1), &mut store).unwrap_err(),
        DbError::NotFound
    );
    assert_eq!(
        insert_group_chat_message_at(a, 8, "x".to_string(), instant(1), &mut store).unwrap_err(),
        DbError::NotFound
    );
    let too_long = "m".repeat(2049);
    assert_eq!(
        insert_group_chat_message_at(a, chat, too_long, instant(1), &mut store).unwrap_err(),
        DbError::StoreError
    );
    assert!(insert_group_chat_message_at(a, chat, "m".repeat(2048), instant(1), &mut store).is_ok());
}

#[test]
fn group_messages_by_author() {
    let mut store = Store::new();
    let a = add(&mut store, "alice");
    let b = add(&mut store, "bob");
    let chat = insert_group_chat_at(vec![a, b], instant(1), &mut store).unwrap().group_chat_id;
    insert_group_chat_message_at(a, chat, "1".to_string(), instant(1), &mut store).unwrap();
    insert_group_chat_message_at(b, chat, "2".to_string(), instant(2), &mut store).unwrap();
    insert_group_chat_message_at(a, chat, "3".to_string(), instant(3), &mut store).unwrap();
    let mine: Vec<i32> = get_group_messages_of_profile(a, chat, &store).unwrap().iter().map(|m| m.message_id).collect();
    assert_eq!(mine, vec![1, 3]);
    assert_eq!(get_messages_of_group(chat, &store).unwrap().len(), 3);
    assert_eq!(get_group_messages_of_profile(a, 9, &store).unwrap_err(), DbError::NotFound);
    assert_eq!(get_group_messages_of_profile(9, chat, &store).unwrap_err(), DbError::NotFound);
    assert_eq!(get_messages_of_group(9, &store).unwrap_err(), DbError::NotFound);
    assert_eq!(delete_group_messages_of_profile(a, chat, &mut store).unwrap().rows_affected, 2);
    assert_eq!(get_messages_of_group(chat, &store).unwrap().len(), 1);
    assert_eq!(delete_messages_of_group(chat, &mut store).unwrap().rows_affected, 1);
    assert!(get_messages_of_group(chat, &store).unwrap().is_empty());
    assert_eq!(delete_messages_of_group(9, &mut store).unwrap_err(), DbError::NotFound);
    assert_eq!(delete_group_messages_of_profile(9, chat, &mut store).unwrap_err(), DbError::NotFound);
}

#[test]
fn group_message_update_and_delete() {
    let mut store = Store::new();
    let a = add(&mut store, "alice");
    let chat = insert_group_chat_at(vec![a], instant(1), &mut store).unwrap().group_chat_id;
    let m = insert_group_chat_message_at(a, chat, "x".to_string(), instant(1), &mut store).unwrap();
    let u = update_group_message(m.message_id, "y".to_string(), &mut store).unwrap();
    assert_eq!(u.content, Some("y".to_string()));
    assert_eq!(u.send_time, instant(1));
    assert_eq!(update_group_message(5, "z".to_string(), &mut store).unwrap_err(), DbError::NotFound);
    assert_eq!(
        update_group_message(m.message_id, "q".repeat(2049), &mut store).unwrap_err(),
        DbError::StoreError
    );
    assert_eq!(delete_single_group_message(m.message_id, &mut store).unwrap().rows_affected, 1);
    assert_eq!(delete_single_group_message(m.message_id, &mut store).unwrap_err(), DbError::NotFound);
}

#[test]
fn chat_deletion_keeps_messages() {
    let mut store = Store::new();
    let a = add(&mut store, "alice");
    let chat = insert_group_chat_at(vec![a], instant(1), &mut store).unwrap().group_chat_id;
    let m = insert_group_chat_message_at(a, chat, "kept".to_string(), instant(1), &mut store).unwrap();
    delete_group_chat_by_id(chat, &mut store).unwrap();
    assert_eq!(get_group_message_by_id(m.message_id, &store).unwrap().chat_id, chat);
}

#[test]
fn insert_group_message_reads_clock() {
    let mut store = Store::new();
    let a = add(&mut store, "alice");
    let chat = insert_group_chat_at(vec![a], instant(1), &mut store).unwrap().group_chat_id;
    let m = insert_group_chat_message(a, chat, "now".to_string(), &mut store).unwrap();
    assert!(m.send_time.year >= 2020);
    assert!(m.send_time.hour < 24);
}

#[test]
fn response_views() {
    let mut store = Store::new();
    let p = insert_profile_at("alice", &None, "pw", "a@x", instant(9), &mut store).unwrap();
    let g = GetProfile::from_profile(&p);
    assert_eq!(g.username, "alice");
    assert_eq!(g.displayname, "");
    assert_eq!(g.email_address, "a@x");
    assert_eq!(g.join_datetime, instant(9));
    let chat = insert_group_chat_at(vec![p.profile_id], instant(1), &mut store).unwrap().group_chat_id;
    let m = insert_group_chat_message_at(p.profile_id, chat, "t".to_string(), instant(2), &mut store).unwrap();
    let gm = GetGroupChatMessage::from_message(&m);
    assert_eq!(gm.message_id, m.message_id);
    assert_eq!(gm.content, Some("t".to_string()));
    let pm = insert_private_message(1, 2, Some("p".to_string()), &mut store).unwrap();
    let gp = GetPrivateMessage::from_message(&pm);
    assert_eq!((gp.sender_id, gp.recipient_id), (1, 2));
    assert_eq!(gp.content, Some("p".to_string()));
}
