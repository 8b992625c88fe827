//! Request and response shapes of the HTTP surface, without their wire
//! encoding, and the views that turn stored rows into responses.
use vstd::prelude::*;
use crate::entities::{
    copy_opt_string, DateTime, GroupChat, GroupChatMember, GroupChatMessage, PrivateMessage,
    Profile,
};

verus! {

/// Body of a request that creates a group chat.
#[derive(Clone, Debug)]
pub struct NewGroupChatSchema {
    pub member_ids: Vec<i32>,
    pub group_picture: Option<String>,
}

/// Body of a request that adds a member to a group chat.
#[derive(Clone, Debug)]
pub struct NewGroupChatMember {
    pub profile_id: i32,
}

/// Body of a request that adds a member to a group chat.
#[derive(Clone, Debug)]
pub struct PostGroupChatMember {
    pub profile_id: i32,
}

/// A member of a group chat, as listed in a response.
#[derive(Clone, Debug)]
pub struct GetGroupChatMember {
    pub profile_id: i32,
}

/// Body of a request that posts a group chat message.
#[derive(Clone, Debug)]
pub struct PostGroupChatMessage {
    pub author_id: i32,
    pub content: Option<String>,
}

/// A group chat message, as listed in a response.
#[derive(Clone, Debug)]
pub struct GetGroupChatMessage {
    pub message_id: i32,
    pub author_id: i32,
    pub send_time: DateTime,
    pub content: Option<String>,
    pub chat_id: i32,
}

/// Body of a request that changes a group chat message.
#[derive(Clone, Debug)]
pub struct PatchGroupChatMessage {
    pub content: String,
}

/// Body of a request that creates a group chat.
#[derive(Clone, Debug)]
pub struct PostGroupChat {
    pub member_ids: Vec<i32>,
    pub group_picture: Option<String>,
}

/// A group chat, as returned in a response.
#[derive(Clone, Debug)]
pub struct GetGroupChat {
    pub creation_date: DateTime,
    pub group_picture: Option<String>,
}

/// Body of a request that changes a group chat's picture.
#[derive(Clone, Debug)]
pub struct PatchGroupChat {
    pub group_picture: String,
}

/// Body of a request that sends a private message.
#[derive(Clone, Debug)]
pub struct PostPrivateMessage {
    pub sender_id: i32,
    pub recipient_id: i32,
    pub content: Option<String>,
}

/// A private message, as returned in a response.
#[derive(Clone, Debug)]
pub struct GetPrivateMessage {
    pub sender_id: i32,
    pub recipient_id: i32,
    pub content: Option<String>,
}

/// Body of a request that changes a private message.
#[derive(Clone, Debug)]
pub struct PatchPrivateMessage {
    pub content: String,
}

/// Names the private chat that a request reads or deletes.
#[derive(Clone, Debug)]
pub struct DeletePostPrivateChat {
    pub sender_id: i32,
    pub recipient_id: i32,
}

/// Body of a request that creates a profile.
#[derive(Clone, Debug)]
pub struct PostProfile {
    pub username: String,
    pub displayname: Option<String>,
    pub password: String,
    pub email_address: String,
}

/// A profile, as returned in a response; an absent display name reads as empty.
#[derive(Clone, Debug)]
pub struct GetProfile {
    pub username: String,
    pub displayname: String,
    pub email_address: String,
    pub join_datetime: DateTime,
}

/// Body of a request that changes a profile; absent fields keep their value.
#[derive(Clone, Debug)]
pub struct PatchProfile {
    pub username: Option<String>,
    pub displayname: Option<String>,
    pub password: Option<String>,
    pub email_address: Option<String>,
    pub profile_picture: Option<String>,
}

/// Names a private chat by its ordered pair of profiles.
#[derive(Clone, Debug)]
pub struct PrivateChatSchema {
    pub sender_id: i32,
    pub recipient_id: i32,
}

/// Fields of a profile that a change may replace.
#[derive(Clone, Debug)]
pub struct UpdateProfileSchema {
    pub username: Option<String>,
    pub password: Option<String>,
    pub email_address: Option<String>,
    pub profile_picture: Option<String>,
}

/// The new picture of a group chat.
#[derive(Clone, Debug)]
pub struct UpdateGroupChatSchema {
    pub group_picture: String,
}

/// The new content of a private message.
#[derive(Clone, Debug)]
pub struct UpdatePrivateMessage {
    pub content: String,
}

impl GetProfile {
    pub fn from_profile(p: &Profile) -> (r: GetProfile)
        ensures
            r.username@ == p.username@,
            r.displayname@ == match p.displayname {
                Some(d) => d@,
                None => Seq::<char>::empty(),
            },
            r.email_address@ == p.email_address@,
            r.join_datetime == p.join_datetime,
    {
        GetProfile {
            username: p.username.clone(),
            displayname: match &p.displayname {
                Some(d) => d.clone(),
                None => String::new(),
            },
            email_address: p.email_address.clone(),
            join_datetime: p.join_datetime,
        }
    }
}

impl GetGroupChat {
    pub fn from_group_chat(c: &GroupChat) -> (r: GetGroupChat)
        ensures
            r.creation_date == c.creation_date,
            r.group_picture == c.group_picture,
    {
        GetGroupChat {
            creation_date: c.creation_date,
            group_picture: copy_opt_string(&c.group_picture),
        }
    }
}

impl GetGroupChatMember {
    pub fn from_member(m: &GroupChatMember) -> (r: GetGroupChatMember)
        ensures
            r.profile_id == m.profile_id,
    {
        GetGroupChatMember { profile_id: m.profile_id }
    }
}

impl GetGroupChatMessage {
    pub fn from_message(m: &GroupChatMessage) -> (r: GetGroupChatMessage)
        ensures
            r.message_id == m.message_id,
            r.author_id == m.author_id,
            r.send_time == m.send_time,
            r.content == m.content,
            r.chat_id == m.chat_id,
    {
        GetGroupChatMessage {
            message_id: m.message_id,
            author_id: m.author_id,
            send_time: m.send_time,
            content: copy_opt_string(&m.content),
            chat_id: m.chat_id,
        }
    }
}

impl GetPrivateMessage {
    pub fn from_message(m: &PrivateMessage) -> (r: GetPrivateMessage)
        ensures
            r.sender_id == m.sender_id,
            r.recipient_id == m.recipient_id,
            r.content == m.content,
    {
        GetPrivateMessage {
            sender_id: m.sender_id,
            recipient_id: m.recipient_id,
            content: copy_opt_string(&m.content),
        }
    }
}

} // verus!
