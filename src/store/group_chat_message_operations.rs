//! Messages posted in group chats.
use vstd::prelude::*;
use crate::entities::{local_now, DateTime, GroupChatMessage, Record};
use crate::store::group_chat_member_operations::{chat_pattern, pair_pattern};
use crate::store::{found, DbError, DeleteResult, Store, StoreView};
use crate::table::{
    discard, find_index, find_row, has_key, index_of, lemma_push_row, lemma_remove_row,
    lemma_selected_ok, lemma_update_row, lookup, select, selected, Pattern,
};
use crate::username::{check_content, content_fits};

verus! {

/// What `insert_group_chat_message_at` does, from store `v` to store `w` with result `r`.
pub open spec fn insert_message_post(
    v: StoreView,
    w: StoreView,
    author_id: i32,
    group_chat_id: i32,
    content: String,
    at: DateTime,
    r: Result<GroupChatMessage, DbError>,
) -> bool {
    if !has_key(v.profiles, author_id) || !has_key(v.group_chats, group_chat_id) {
        r == Err::<GroupChatMessage, DbError>(DbError::NotFound) && w == v
    } else if !content_fits(content@) || v.next_message_id == i32::MAX {
        r == Err::<GroupChatMessage, DbError>(DbError::StoreError) && w == v
    } else {
        let m = GroupChatMessage {
            message_id: v.next_message_id,
            author_id,
            chat_id: group_chat_id,
            send_time: at,
            content: Some(content),
        };
        r == Ok::<GroupChatMessage, DbError>(m) && w == StoreView {
            group_messages: v.group_messages.push(m),
            next_message_id: (v.next_message_id + 1) as i32,
            ..v
        }
    }
}

/// Posts `content` by profile `author_id` in chat `group_chat_id` at `now`,
/// after both guards pass.
pub fn insert_group_chat_message_at(
    author_id: i32,
    group_chat_id: i32,
    content: String,
    now: DateTime,
    store: &mut Store,
) -> (r: Result<GroupChatMessage, DbError>)
    requires
        old(store).wf(),
    ensures
        final(store).wf(),
        insert_message_post(old(store)@, final(store)@, author_id, group_chat_id, content, now, r),
{
    if find_index(&store.profiles, author_id).is_none() {
        return Err(DbError::NotFound);
    }
    if find_index(&store.group_chats, group_chat_id).is_none() {
        return Err(DbError::NotFound);
    }
    if !check_content(content.as_str()) || store.next_message_id == i32::MAX {
        return Err(DbError::StoreError);
    }
    let m = GroupChatMessage {
        message_id: store.next_message_id,
        author_id,
        chat_id: group_chat_id,
        send_time: now,
        content: Some(content),
    };
    let out = m.duplicate();
    proof {
        lemma_push_row(store.group_messages@, store.next_message_id, m);
    }
    store.group_messages.push(m);
    store.next_message_id = store.next_message_id + 1;
    Ok(out)
}

/// Posts a message at the current local time; see `insert_group_chat_message_at`.
pub fn insert_group_chat_message(
    author_id: i32,
    group_chat_id: i32,
    content: String,
    store: &mut Store,
) -> (r: Result<GroupChatMessage, DbError>)
    requires
        old(store).wf(),
    ensures
        final(store).wf(),
        exists|at: DateTime|
            at.wf() && insert_message_post(
                old(store)@,
                final(store)@,
                author_id,
                group_chat_id,
                content,
                at,
                r,
            ),
{
    let now = local_now();
    insert_group_chat_message_at(author_id, group_chat_id, content, now, store)
}

/// Reads the group message with key `message_id`.
pub fn get_group_message_by_id(message_id: i32, store: &Store) -> (r: Result<
    GroupChatMessage,
    DbError,
>)
    requires
        store.wf(),
    ensures
        r == found(lookup(store@.group_messages, message_id)),
{
    match find_row(&store.group_messages, message_id) {
        Some(m) => Ok(m),
        None => Err(DbError::NotFound),
    }
}

/// The group message guard: the message with key `message_id`, or `NotFound`.
pub fn check_group_message_exists(message_id: i32, store: &Store) -> (r: Result<
    GroupChatMessage,
    DbError,
>)
    requires
        store.wf(),
    ensures
        r == found(lookup(store@.group_messages, message_id)),
{
    get_group_message_by_id(message_id, store)
}

/// Lists the messages of chat `group_chat_id`, or `NotFound` if the chat does not exist.
pub fn get_messages_of_group(group_chat_id: i32, store: &Store) -> (r: Result<
    Vec<GroupChatMessage>,
    DbError,
>)
    requires
        store.wf(),
    ensures
        match r {
            Ok(ms) => has_key(store@.group_chats, group_chat_id) && ms@ == selected(
                store@.group_messages,
                chat_pattern(group_chat_id),
                true,
            ),
            Err(e) => e == DbError::NotFound && !has_key(store@.group_chats, group_chat_id),
        },
{
    if find_index(&store.group_chats, group_chat_id).is_none() {
        return Err(DbError::NotFound);
    }
    let p = Pattern { first: None, second: Some(group_chat_id) };
    Ok(select(&store.group_messages, &p))
}

/// Lists the messages of profile `profile_id` in chat `group_chat_id`, or
/// `NotFound` if either does not exist.
pub fn get_group_messages_of_profile(profile_id: i32, group_chat_id: i32, store: &Store) -> (r:
    Result<Vec<GroupChatMessage>, DbError>)
    requires
        store.wf(),
    ensures
        match r {
            Ok(ms) => has_key(store@.profiles, profile_id) && has_key(
                store@.group_chats,
                group_chat_id,
            ) && ms@ == selected(
                store@.group_messages,
                pair_pattern(profile_id, group_chat_id),
                true,
            ),
            Err(e) => e == DbError::NotFound && !(has_key(store@.profiles, profile_id) && has_key(
                store@.group_chats,
                group_chat_id,
            )),
        },
{
    if find_index(&store.profiles, profile_id).is_none() {
        return Err(DbError::NotFound);
    }
    if find_index(&store.group_chats, group_chat_id).is_none() {
        return Err(DbError::NotFound);
    }
    let p = Pattern { first: Some(profile_id), second: Some(group_chat_id) };
    Ok(select(&store.group_messages, &p))
}

/// What `update_group_message` does, from store `v` to store `w` with result `r`.
pub open spec fn update_message_post(
    v: StoreView,
    w: StoreView,
    message_id: i32,
    content: String,
    r: Result<GroupChatMessage, DbError>,
) -> bool {
    match lookup(v.group_messages, message_id) {
        None => r == Err::<GroupChatMessage, DbError>(DbError::NotFound) && w == v,
        Some(m) => if !content_fits(content@) {
            r == Err::<GroupChatMessage, DbError>(DbError::StoreError) && w == v
        } else {
            let n = GroupChatMessage { content: Some(content), ..m };
            r == Ok::<GroupChatMessage, DbError>(n) && w == StoreView {
                group_messages: v.group_messages.update(index_of(v.group_messages, message_id), n),
                ..v
            }
        },
    }
}

/// Replaces the content of group message `message_id`.
pub fn update_group_message(message_id: i32, content: String, store: &mut Store) -> (r: Result<
    GroupChatMessage,
    DbError,
>)
    requires
        old(store).wf(),
    ensures
        final(store).wf(),
        update_message_post(old(store)@, final(store)@, message_id, content, r),
{
    let i = match find_index(&store.group_messages, message_id) {
        Some(i) => i,
        None => return Err(DbError::NotFound),
    };
    if !check_content(content.as_str()) {
        return Err(DbError::StoreError);
    }
    let old_message = &store.group_messages[i];
    let m = GroupChatMessage {
        message_id: old_message.message_id,
        author_id: old_message.author_id,
        chat_id: old_message.chat_id,
        send_time: old_message.send_time,
        content: Some(content),
    };
    let out = m.duplicate();
    proof {
        lemma_update_row(store.group_messages@, store.next_message_id, i as int, m);
    }
    store.group_messages.set(i, m);
    Ok(out)
}

/// What `delete_single_group_message` does, from store `v` to store `w` with result `r`.
pub open spec fn delete_message_post(
    v: StoreView,
    w: StoreView,
    message_id: i32,
    r: Result<DeleteResult, DbError>,
) -> bool {
    if !has_key(v.group_messages, message_id) {
        r == Err::<DeleteResult, DbError>(DbError::NotFound) && w == v
    } else {
        r == Ok::<DeleteResult, DbError>(DeleteResult { rows_affected: 1 }) && w == StoreView {
            group_messages: v.group_messages.remove(index_of(v.group_messages, message_id)),
            ..v
        }
    }
}

/// Deletes group message `message_id`.
pub fn delete_single_group_message(group_chat_message_id: i32, store: &mut Store) -> (r: Result<
    DeleteResult,
    DbError,
>)
    requires
        old(store).wf(),
    ensures
        final(store).wf(),
        delete_message_post(old(store)@, final(store)@, group_chat_message_id, r),
{
    match find_index(&store.group_messages, group_chat_message_id) {
        None => Err(DbError::NotFound),
        Some(i) => {
            proof {
                lemma_remove_row(store.group_messages@, store.next_message_id, i as int);
            }
            store.group_messages.remove(i);
            Ok(DeleteResult { rows_affected: 1 })
        },
    }
}

/// What a bulk delete of the group messages that `p` admits does, where
/// `guarded` tells whether the guards passed: from store `v` to store `w` with result `r`.
pub open spec fn delete_messages_post(
    v: StoreView,
    w: StoreView,
    guarded: bool,
    p: Pattern,
    r: Result<DeleteResult, DbError>,
) -> bool {
    if !guarded {
        r == Err::<DeleteResult, DbError>(DbError::NotFound) && w == v
    } else {
        &&& w == StoreView { group_messages: selected(v.group_messages, p, false), ..v }
        &&& r matches Ok(d)
        &&& r->Ok_0.rows_affected == v.group_messages.len() - w.group_messages.len()
    }
}

fn discard_messages(store: &mut Store, p: &Pattern) -> (r: u64)
    requires
        old(store).wf(),
    ensures
        final(store).wf(),
        final(store)@ == (StoreView {
            group_messages: selected(old(store)@.group_messages, *p, false),
            ..old(store)@
        }),
        r == old(store)@.group_messages.len() - final(store)@.group_messages.len(),
{
    proof {
        lemma_selected_ok(store.group_messages@, store.next_message_id, *p, false);
    }
    discard(&mut store.group_messages, p)
}

/// Deletes every message of chat `group_chat_id`, or `NotFound` if the chat does not exist.
pub fn delete_messages_of_group(group_chat_id: i32, store: &mut Store) -> (r: Result<
    DeleteResult,
    DbError,
>)
    requires
        old(store).wf(),
    ensures
        final(store).wf(),
        delete_messages_post(
            old(store)@,
            final(store)@,
            has_key(old(store)@.group_chats, group_chat_id),
            chat_pattern(group_chat_id),
            r,
        ),
{
    if find_index(&store.group_chats, group_chat_id).is_none() {
        return Err(DbError::NotFound);
    }
    let p = Pattern { first: None, second: Some(group_chat_id) };
    let n = discard_messages(store, &p);
    Ok(DeleteResult { rows_affected: n })
}

/// Deletes every message of profile `profile_id` in chat `group_chat_id`, or
/// `NotFound` if either does not exist.
pub fn delete_group_messages_of_profile(profile_id: i32, group_chat_id: i32, store: &mut Store) -> (r:
    Result<DeleteResult, DbError>)
    requires
        old(store).wf(),
    ensures
        final(store).wf(),
        delete_messages_post(
            old(store)@,
            final(store)@,
            has_key(old(store)@.profiles, profile_id) && has_key(
                old(store)@.group_chats,
                group_chat_id,
            ),
            pair_pattern(profile_id, group_chat_id),
            r,
        ),
{
    if find_index(&store.profiles, profile_id).is_none() {
        return Err(DbError::NotFound);
    }
    if find_index(&store.group_chats, group_chat_id).is_none() {
        return Err(DbError::NotFound);
    }
    let p = Pattern { first: Some(profile_id), second: Some(group_chat_id) };
    let n = discard_messages(store, &p);
    Ok(DeleteResult { rows_affected: n })
}

} // verus!
