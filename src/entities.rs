//! The five record kinds of the entity store and the calendar instant that
//! stamps them.
use vstd::prelude::*;
use chrono::{Datelike, Timelike};
use crate::table::Linked;

verus! {

/// A local calendar date and time of day, as the store records creation instants.
#[derive(Clone, Copy, Debug, PartialEq, Eq, Structural)]
pub struct DateTime {
    pub year: i32,
    pub month: u32,
    pub day: u32,
    pub hour: u32,
    pub minute: u32,
    pub second: u32,
    /// Nanoseconds within the second; values from one billion up mark a leap second.
    pub nanosecond: u32,
}

impl DateTime {
    /// Each component lies in its calendar range.
    pub open spec fn wf(&self) -> bool {
        &&& 1 <= self.month <= 12
        &&& 1 <= self.day <= 31
        &&& self.hour < 24
        &&& self.minute < 60
        &&& self.second < 60
        &&& self.nanosecond < 2_000_000_000
    }
}

/// Relies on chrono's `Local::now` and `DateTime::naive_local` for the current
/// local instant, read out through the `Datelike` and `Timelike` accessors,
/// whose documented ranges give the postcondition.
#[verifier::external_body]
pub(crate) fn local_now() -> (r: DateTime)
    ensures
        r.wf(),
{
    let now = chrono::Local::now().naive_local();
    DateTime {
        year: now.year(),
        month: now.month(),
        day: now.day(),
        hour: now.hour(),
        minute: now.minute(),
        second: now.second(),
        nanosecond: now.nanosecond(),
    }
}

/// A copy of an optional string, equal to it.
pub fn copy_opt_string(o: &Option<String>) -> (r: Option<String>)
    ensures
        r == *o,
{
    match o {
        Some(s) => Some(s.clone()),
        None => None,
    }
}

/// A row of one of the store's tables, identified by its surrogate key.
pub trait Record: Sized {
    /// The row's surrogate key.
    spec fn key(&self) -> i32;

    fn get_key(&self) -> (r: i32)
        ensures
            r == self.key(),
    ;

    /// A copy of the row that equals it.
    fn duplicate(&self) -> (r: Self)
        ensures
            r == *self,
    ;
}

/// A user profile.
#[derive(Clone, Debug)]
pub struct Profile {
    pub profile_id: i32,
    pub username: String,
    pub displayname: Option<String>,
    pub password: String,
    pub email_address: String,
    pub join_datetime: DateTime,
    pub profile_picture: Option<String>,
}

impl Record for Profile {
    open spec fn key(&self) -> i32 {
        self.profile_id
    }

    fn get_key(&self) -> (r: i32) {
        self.profile_id
    }

    fn duplicate(&self) -> (r: Self) {
        Profile {
            profile_id: self.profile_id,
            username: self.username.clone(),
            displayname: copy_opt_string(&self.displayname),
            password: self.password.clone(),
            email_address: self.email_address.clone(),
            join_datetime: self.join_datetime,
            profile_picture: copy_opt_string(&self.profile_picture),
        }
    }
}

/// A group chat.
#[derive(Clone, Debug)]
pub struct GroupChat {
    pub group_chat_id: i32,
    pub creation_date: DateTime,
    pub group_picture: Option<String>,
}

impl Record for GroupChat {
    open spec fn key(&self) -> i32 {
        self.group_chat_id
    }

    fn get_key(&self) -> (r: i32) {
        self.group_chat_id
    }

    fn duplicate(&self) -> (r: Self) {
        GroupChat {
            group_chat_id: self.group_chat_id,
            creation_date: self.creation_date,
            group_picture: copy_opt_string(&self.group_picture),
        }
    }
}

/// A membership: the join row linking one profile to one group chat.
#[derive(Clone, Copy, Debug, PartialEq, Eq, Structural)]
pub struct GroupChatMember {
    pub member_id: i32,
    pub profile_id: i32,
    pub group_chat_id: i32,
}

impl Record for GroupChatMember {
    open spec fn key(&self) -> i32 {
        self.member_id
    }

    fn get_key(&self) -> (r: i32) {
        self.member_id
    }

    fn duplicate(&self) -> (r: Self) {
        *self
    }
}

impl Linked for GroupChatMember {
    open spec fn link(&self) -> (i32, i32) {
        (self.profile_id, self.group_chat_id)
    }

    fn get_link(&self) -> (r: (i32, i32)) {
        (self.profile_id, self.group_chat_id)
    }
}

/// A message posted by a profile in a group chat.
#[derive(Clone, Debug)]
pub struct GroupChatMessage {
    pub message_id: i32,
    pub author_id: i32,
    pub chat_id: i32,
    pub send_time: DateTime,
    pub content: Option<String>,
}

impl Record for GroupChatMessage {
    open spec fn key(&self) -> i32 {
        self.message_id
    }

    fn get_key(&self) -> (r: i32) {
        self.message_id
    }

    fn duplicate(&self) -> (r: Self) {
        GroupChatMessage {
            message_id: self.message_id,
            author_id: self.author_id,
            chat_id: self.chat_id,
            send_time: self.send_time,
            content: copy_opt_string(&self.content),
        }
    }
}

impl Linked for GroupChatMessage {
    open spec fn link(&self) -> (i32, i32) {
        (self.author_id, self.chat_id)
    }

    fn get_link(&self) -> (r: (i32, i32)) {
        (self.author_id, self.chat_id)
    }
}

/// A message from one profile to another; the ordered pair (sender, recipient)
/// names the private chat it belongs to.
#[derive(Clone, Debug)]
pub struct PrivateMessage {
    pub private_message_id: i32,
    pub sender_id: i32,
    pub recipient_id: i32,
    pub content: Option<String>,
}

impl Record for PrivateMessage {
    open spec fn key(&self) -> i32 {
        self.private_message_id
    }

    fn get_key(&self) -> (r: i32) {
        self.private_message_id
    }

    fn duplicate(&self) -> (r: Self) {
        PrivateMessage {
            private_message_id: self.private_message_id,
            sender_id: self.sender_id,
            recipient_id: self.recipient_id,
            content: copy_opt_string(&self.content),
        }
    }
}

impl Linked for PrivateMessage {
    open spec fn link(&self) -> (i32, i32) {
        (self.sender_id, self.recipient_id)
    }

    fn get_link(&self) -> (r: (i32, i32)) {
        (self.sender_id, self.recipient_id)
    }
}

} // verus!
