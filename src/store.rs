//! The entity store: five tables, each with its key counter, and the
//! well-formedness that every operation keeps.
use vstd::prelude::*;
use crate::entities::{GroupChat, GroupChatMember, GroupChatMessage, PrivateMessage, Profile};
use crate::table::{table_ok, Linked};
use crate::username::{displayname_fits, valid_username};

pub mod group_chat_member_operations;
pub mod group_chat_message_operations;
pub mod group_chat_operations;
pub mod private_message_operations;
pub mod profile_operations;

verus! {

/// Why an operation failed.
#[derive(Clone, Copy, Debug, PartialEq, Eq, Structural)]
pub enum DbError {
    /// A referenced row does not exist.
    NotFound,
    /// An argument is malformed, such as an empty member list.
    InvalidArgument,
    /// A username breaks the naming rule.
    InvalidUsername,
    /// The store refused the write: a uniqueness or length constraint, or an
    /// exhausted key counter.
    StoreError,
}

/// How many rows a delete removed.
#[derive(Clone, Copy, Debug, PartialEq, Eq, Structural)]
pub struct DeleteResult {
    pub rows_affected: u64,
}

/// The abstract state of a store: its tables in key order and its key counters.
pub struct StoreView {
    pub profiles: Seq<Profile>,
    pub group_chats: Seq<GroupChat>,
    pub members: Seq<GroupChatMember>,
    pub group_messages: Seq<GroupChatMessage>,
    pub private_messages: Seq<PrivateMessage>,
    pub next_profile_id: i32,
    pub next_group_chat_id: i32,
    pub next_member_id: i32,
    pub next_message_id: i32,
    pub next_private_message_id: i32,
}

/// Turns a lookup into the result of a read: the row, or `NotFound`.
pub open spec fn found<T>(o: Option<T>) -> Result<T, DbError> {
    match o {
        Some(x) => Ok(x),
        None => Err(DbError::NotFound),
    }
}

impl StoreView {
    /// Every table is in ascending key order below its counter; usernames are
    /// valid and distinct and display names within their limit; and every
    /// membership names a chat key that has been handed out, so a new chat
    /// starts without members.
    pub open spec fn valid(self) -> bool {
        &&& table_ok(self.profiles, self.next_profile_id)
        &&& table_ok(self.group_chats, self.next_group_chat_id)
        &&& table_ok(self.members, self.next_member_id)
        &&& table_ok(self.group_messages, self.next_message_id)
        &&& table_ok(self.private_messages, self.next_private_message_id)
        &&& forall|i: int|
            0 <= i < self.profiles.len() ==> valid_username(#[trigger] self.profiles[i].username@)
                && displayname_fits(self.profiles[i].displayname)
        &&& forall|i: int, j: int|
            0 <= i < j < self.profiles.len() ==> #[trigger] self.profiles[i].username@
                != #[trigger] self.profiles[j].username@
        &&& forall|i: int|
            0 <= i < self.members.len() ==> #[trigger] self.members[i].link().1
                < self.next_group_chat_id
    }
}

/// An in-memory entity store. Keys are handed out in increasing order and never reused.
pub struct Store {
    pub(crate) profiles: Vec<Profile>,
    pub(crate) group_chats: Vec<GroupChat>,
    pub(crate) members: Vec<GroupChatMember>,
    pub(crate) group_messages: Vec<GroupChatMessage>,
    pub(crate) private_messages: Vec<PrivateMessage>,
    pub(crate) next_profile_id: i32,
    pub(crate) next_group_chat_id: i32,
    pub(crate) next_member_id: i32,
    pub(crate) next_message_id: i32,
    pub(crate) next_private_message_id: i32,
}

impl View for Store {
    type V = StoreView;

    closed spec fn view(&self) -> StoreView {
        StoreView {
            profiles: self.profiles@,
            group_chats: self.group_chats@,
            members: self.members@,
            group_messages: self.group_messages@,
            private_messages: self.private_messages@,
            next_profile_id: self.next_profile_id,
            next_group_chat_id: self.next_group_chat_id,
            next_member_id: self.next_member_id,
            next_message_id: self.next_message_id,
            next_private_message_id: self.next_private_message_id,
        }
    }
}

impl Store {
    /// The store's abstract state is valid; every operation requires and keeps it.
    pub open spec fn wf(&self) -> bool {
        self@.valid()
    }

    /// An empty store whose counters start at 1.
    pub fn new() -> (r: Store)
        ensures
            r.wf(),
            r@.profiles.len() == 0,
            r@.group_chats.len() == 0,
            r@.members.len() == 0,
            r@.group_messages.len() == 0,
            r@.private_messages.len() == 0,
            r@.next_profile_id == 1,
            r@.next_group_chat_id == 1,
            r@.next_member_id == 1,
            r@.next_message_id == 1,
            r@.next_private_message_id == 1,
    {
        Store {
            profiles: Vec::new(),
            group_chats: Vec::new(),
            members: Vec::new(),
            group_messages: Vec::new(),
            private_messages: Vec::new(),
            next_profile_id: 1,
            next_group_chat_id: 1,
            next_member_id: 1,
            next_message_id: 1,
            next_private_message_id: 1,
        }
    }
}

} // verus!
