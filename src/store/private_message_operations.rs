//! Private messages. A private chat is the set of messages of one ordered
//! (sender, recipient) pair: messages from B to A form another chat than
//! those from A to B.
use vstd::prelude::*;
use crate::entities::{PrivateMessage, Record};
use crate::store::group_chat_member_operations::pair_pattern;
use crate::store::{found, DbError, DeleteResult, Store, StoreView};
use crate::table::{
    discard, find_index, find_row, has_key, index_of, lemma_push_row, lemma_remove_row,
    lemma_selected_ok, lemma_update_row, lookup, select, selected, Pattern,
};

verus! {

/// The messages of the private chat from `sender_id` to `recipient_id`, in key order.
pub open spec fn chat_messages(
    pms: Seq<PrivateMessage>,
    sender_id: i32,
    recipient_id: i32,
) -> Seq<PrivateMessage> {
    selected(pms, pair_pattern(sender_id, recipient_id), true)
}

/// What `insert_private_message` does, from store `v` to store `w` with result `r`.
pub open spec fn insert_private_message_post(
    v: StoreView,
    w: StoreView,
    sender_id: i32,
    recipient_id: i32,
    content: Option<String>,
    r: Result<PrivateMessage, DbError>,
) -> bool {
    if v.next_private_message_id == i32::MAX {
        r == Err::<PrivateMessage, DbError>(DbError::StoreError) && w == v
    } else {
        let m = PrivateMessage {
            private_message_id: v.next_private_message_id,
            sender_id,
            recipient_id,
            content,
        };
        r == Ok::<PrivateMessage, DbError>(m) && w == StoreView {
            private_messages: v.private_messages.push(m),
            next_private_message_id: (v.next_private_message_id + 1) as i32,
            ..v
        }
    }
}

/// Sends a private message. Neither party is checked for existence.
pub fn insert_private_message(
    sender_id: i32,
    recipient_id: i32,
    content: Option<String>,
    store: &mut Store,
) -> (r: Result<PrivateMessage, DbError>)
    requires
        old(store).wf(),
    ensures
        final(store).wf(),
        insert_private_message_post(old(store)@, final(store)@, sender_id, recipient_id, content, r),
{
    if store.next_private_message_id == i32::MAX {
        return Err(DbError::StoreError);
    }
    let m = PrivateMessage {
        private_message_id: store.next_private_message_id,
        sender_id,
        recipient_id,
        content,
    };
    let out = m.duplicate();
    proof {
        lemma_push_row(store.private_messages@, store.next_private_message_id, m);
    }
    store.private_messages.push(m);
    store.next_private_message_id = store.next_private_message_id + 1;
    Ok(out)
}

/// What `update_private_message` does, from store `v` to store `w` with result `r`.
pub open spec fn update_private_message_post(
    v: StoreView,
    w: StoreView,
    message_id: i32,
    content: String,
    r: Result<PrivateMessage, DbError>,
) -> bool {
    match lookup(v.private_messages, message_id) {
        None => r == Err::<PrivateMessage, DbError>(DbError::NotFound) && w == v,
        Some(m) => {
            let n = PrivateMessage { content: Some(content), ..m };
            r == Ok::<PrivateMessage, DbError>(n) && w == StoreView {
                private_messages: v.private_messages.update(
                    index_of(v.private_messages, message_id),
                    n,
                ),
                ..v
            }
        },
    }
}

/// Replaces the content of private message `message_id`.
pub fn update_private_message(message_id: i32, content: String, store: &mut Store) -> (r:
    Result<PrivateMessage, DbError>)
    requires
        old(store).wf(),
    ensures
        final(store).wf(),
        update_private_message_post(old(store)@, final(store)@, message_id, content, r),
{
    let i = match find_index(&store.private_messages, message_id) {
        Some(i) => i,
        None => return Err(DbError::NotFound),
    };
    let old_message = &store.private_messages[i];
    let m = PrivateMessage {
        private_message_id: old_message.private_message_id,
        sender_id: old_message.sender_id,
        recipient_id: old_message.recipient_id,
        content: Some(content),
    };
    let out = m.duplicate();
    proof {
        lemma_update_row(store.private_messages@, store.next_private_message_id, i as int, m);
    }
    store.private_messages.set(i, m);
    Ok(out)
}

/// Lists the private chat from `sender_id` to `recipient_id`; the reverse
/// direction is not included.
pub fn get_private_messages_of_chat(sender_id: i32, recipient_id: i32, store: &Store) -> (r: Vec<
    PrivateMessage,
>)
    requires
        store.wf(),
    ensures
        r@ == chat_messages(store@.private_messages, sender_id, recipient_id),
{
    let p = Pattern { first: Some(sender_id), second: Some(recipient_id) };
    select(&store.private_messages, &p)
}

/// Reads the private message with key `message_id`.
pub fn get_private_message_by_id(message_id: i32, store: &Store) -> (r: Result<
    PrivateMessage,
    DbError,
>)
    requires
        store.wf(),
    ensures
        r == found(lookup(store@.private_messages, message_id)),
{
    match find_row(&store.private_messages, message_id) {
        Some(m) => Ok(m),
        None => Err(DbError::NotFound),
    }
}

/// What `delete_private_message_by_id` does, from store `v` to store `w` with result `r`.
pub open spec fn delete_private_message_post(
    v: StoreView,
    w: StoreView,
    message_id: i32,
    r: Result<DeleteResult, DbError>,
) -> bool {
    if !has_key(v.private_messages, message_id) {
        r == Err::<DeleteResult, DbError>(DbError::NotFound) && w == v
    } else {
        r == Ok::<DeleteResult, DbError>(DeleteResult { rows_affected: 1 }) && w == StoreView {
            private_messages: v.private_messages.remove(index_of(v.private_messages, message_id)),
            ..v
        }
    }
}

/// Deletes private message `private_message_id`.
pub fn delete_private_message_by_id(private_message_id: i32, store: &mut Store) -> (r: Result<
    DeleteResult,
    DbError,
>)
    requires
        old(store).wf(),
    ensures
        final(store).wf(),
        delete_private_message_post(old(store)@, final(store)@, private_message_id, r),
{
    match find_index(&store.private_messages, private_message_id) {
        None => Err(DbError::NotFound),
        Some(i) => {
            proof {
                lemma_remove_row(store.private_messages@, store.next_private_message_id, i as int);
            }
            store.private_messages.remove(i);
            Ok(DeleteResult { rows_affected: 1 })
        },
    }
}

/// Deletes the private chat from `sender_id` to `recipient_id`.
pub fn delete_private_messages_of_chat(sender_id: i32, recipient_id: i32, store: &mut Store) -> (r:
    DeleteResult)
    requires
        old(store).wf(),
    ensures
        final(store).wf(),
        final(store)@ == (StoreView {
            private_messages: selected(
                old(store)@.private_messages,
                pair_pattern(sender_id, recipient_id),
                false,
            ),
            ..old(store)@
        }),
        r.rows_affected == old(store)@.private_messages.len() - final(store)@.private_messages.len(),
{
    let p = Pattern { first: Some(sender_id), second: Some(recipient_id) };
    proof {
        lemma_selected_ok(store.private_messages@, store.next_private_message_id, p, false);
    }
    let n = discard(&mut store.private_messages, &p);
    DeleteResult { rows_affected: n }
}

} // verus!
