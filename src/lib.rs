//! Relational domain layer of a messaging backend: profiles, group chats with
//! their memberships and messages, and private messages, kept in an in-memory
//! entity store whose operations enforce existence guards and cascades.
use vstd::prelude::*;

pub mod api_models;
pub mod entities;
pub mod laws;
pub mod store;
pub mod table;
pub mod username;

pub use entities::{DateTime, GroupChat, GroupChatMember, GroupChatMessage, PrivateMessage, Profile};
pub use store::{DbError, DeleteResult, Store};
pub use store::group_chat_member_operations::{
    delete_members_of_group, delete_memberships_of_profile, delete_single_membership,
    get_members_of_group, get_memberships_of_profile, insert_group_chat_member,
};
pub use store::group_chat_message_operations::{
    check_group_message_exists, delete_group_messages_of_profile, delete_messages_of_group,
    delete_single_group_message, get_group_message_by_id, get_group_messages_of_profile,
    get_messages_of_group, insert_group_chat_message, insert_group_chat_message_at,
    update_group_message,
};
pub use store::group_chat_operations::{
    check_group_chat_exists, delete_group_chat_by_id, get_group_chat_by_id, insert_group_chat,
    insert_group_chat_at, update_group_chat,
};
pub use store::private_message_operations::{
    delete_private_message_by_id, delete_private_messages_of_chat, get_private_message_by_id,
    get_private_messages_of_chat, insert_private_message, update_private_message,
};
pub use store::profile_operations::{
    check_profile_exists, delete_profile_by_id, get_profile_by_id, get_profile_by_username,
    insert_profile, insert_profile_at, update_profile,
};

verus! {

} // verus!
