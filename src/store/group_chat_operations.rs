//! Create, read, update and delete of group chats, and the chat guard.
use vstd::prelude::*;
use crate::entities::{local_now, DateTime, GroupChat, GroupChatMember, Profile, Record};
use crate::store::group_chat_member_operations::{
    chat_pattern, delete_members_of_group, insert_group_chat_member,
};
use crate::store::{found, DbError, DeleteResult, Store, StoreView};
use crate::table::{
    find_index, find_row, has_key, index_of, lemma_index_of, lemma_push_row, lemma_remove_row,
    lemma_update_row, lookup, selected,
};

verus! {

/// The ids of `ids`, in order, that name an existing profile.
pub open spec fn resolvable(ids: Seq<i32>, ps: Seq<Profile>) -> Seq<i32> {
    ids.filter(|id: i32| has_key(ps, id))
}

/// One membership in chat `group_chat_id` for each of `profile_ids`, keyed
/// from `first` upwards.
pub open spec fn new_memberships(profile_ids: Seq<i32>, group_chat_id: i32, first: i32) -> Seq<
    GroupChatMember,
> {
    Seq::new(
        profile_ids.len(),
        |k: int|
            GroupChatMember {
                member_id: (first + k) as i32,
                profile_id: profile_ids[k],
                group_chat_id,
            },
    )
}

/// What `insert_group_chat_at` does, from store `v` to store `w` with result `r`.
pub open spec fn insert_group_chat_post(
    v: StoreView,
    w: StoreView,
    member_ids: Seq<i32>,
    at: DateTime,
    r: Result<GroupChat, DbError>,
) -> bool {
    if member_ids.len() == 0 {
        r == Err::<GroupChat, DbError>(DbError::InvalidArgument) && w == v
    } else if v.next_group_chat_id == i32::MAX || v.next_member_id + member_ids.len()
        > i32::MAX {
        r == Err::<GroupChat, DbError>(DbError::StoreError) && w == v
    } else {
        let c = GroupChat { group_chat_id: v.next_group_chat_id, creation_date: at, group_picture: None };
        let added = resolvable(member_ids, v.profiles);
        &&& r == Ok::<GroupChat, DbError>(c)
        &&& w == StoreView {
            group_chats: v.group_chats.push(c),
            next_group_chat_id: (v.next_group_chat_id + 1) as i32,
            members: v.members + new_memberships(added, c.group_chat_id, v.next_member_id),
            next_member_id: (v.next_member_id + added.len()) as i32,
            ..v
        }
    }
}

proof fn lemma_resolvable_step(ids: Seq<i32>, ps: Seq<Profile>, i: int)
    requires
        0 <= i < ids.len(),
    ensures
        resolvable(ids.subrange(0, i + 1), ps) == if has_key(ps, ids[i]) {
            resolvable(ids.subrange(0, i), ps).push(ids[i])
        } else {
            resolvable(ids.subrange(0, i), ps)
        },
        resolvable(ids.subrange(0, i), ps).len() <= i,
{
    let s = ids.subrange(0, i + 1);
    assert(s.drop_last() =~= ids.subrange(0, i));
    reveal(Seq::filter);
    ids.subrange(0, i).lemma_filter_len(|id: i32| has_key(ps, id));
}

/// Creates a group chat at `now` and adds to it, in order, each of
/// `member_ids` that names an existing profile; the others are skipped.
pub fn insert_group_chat_at(member_ids: Vec<i32>, now: DateTime, store: &mut Store) -> (r:
    Result<GroupChat, DbError>)
    requires
        old(store).wf(),
    ensures
        final(store).wf(),
        insert_group_chat_post(old(store)@, final(store)@, member_ids@, now, r),
{
    if member_ids.len() == 0 {
        return Err(DbError::InvalidArgument);
    }
    if store.next_group_chat_id == i32::MAX || member_ids.len() > (i32::MAX - store.next_member_id) as usize {
        return Err(DbError::StoreError);
    }
    let chat = GroupChat { group_chat_id: store.next_group_chat_id, creation_date: now, group_picture: None };
    let group_chat_id = chat.group_chat_id;
    let out = chat.duplicate();
    proof {
        lemma_push_row(store.group_chats@, store.next_group_chat_id, chat);
    }
    store.group_chats.push(chat);
    store.next_group_chat_id = store.next_group_chat_id + 1;
    let ghost v = old(store)@;
    let ghost u = store@;
    assert(has_key(u.group_chats, group_chat_id)) by {
        lemma_index_of(u.group_chats, v.group_chats.len() as int);
    }
    let mut i: usize = 0;
    while i < member_ids.len()
        invariant
            store.wf(),
            i <= member_ids@.len(),
            v.next_member_id + member_ids@.len() <= i32::MAX,
            has_key(store@.group_chats, group_chat_id),
            out == (GroupChat { group_chat_id: v.next_group_chat_id, creation_date: now, group_picture: None }),
            u == (StoreView {
                group_chats: v.group_chats.push(out),
                next_group_chat_id: (v.next_group_chat_id + 1) as i32,
                ..v
            }),
            store@ == (StoreView {
                members: v.members + new_memberships(
                    resolvable(member_ids@.subrange(0, i as int), v.profiles),
                    group_chat_id,
                    v.next_member_id,
                ),
                next_member_id: (v.next_member_id + resolvable(
                    member_ids@.subrange(0, i as int),
                    v.profiles,
                ).len()) as i32,
                ..u
            }),
        decreases member_ids@.len() - i,
    {
        proof {
            lemma_resolvable_step(member_ids@, v.profiles, i as int);
        }
        let ghost before = store@;
        let added = insert_group_chat_member(member_ids[i], group_chat_id, store);
        proof {
            let pre = resolvable(member_ids@.subrange(0, i as int), v.profiles);
            let post = resolvable(member_ids@.subrange(0, i as int + 1), v.profiles);
            let id = member_ids@[i as int];
            assert(before.profiles == v.profiles);
            if has_key(v.profiles, id) {
                assert(before.next_member_id < i32::MAX);
                let m = GroupChatMember {
                    member_id: before.next_member_id,
                    profile_id: id,
                    group_chat_id,
                };
                assert(added == Ok::<GroupChatMember, DbError>(m));
                assert(store@.members == before.members.push(m));
                assert(new_memberships(post, group_chat_id, v.next_member_id) =~= new_memberships(
                    pre,
                    group_chat_id,
                    v.next_member_id,
                ).push(m));
                assert(store@.members =~= v.members + new_memberships(
                    post,
                    group_chat_id,
                    v.next_member_id,
                ));
            } else {
                assert(post == pre);
                assert(store@ == before);
            }
        }
        i += 1;
    }
    assert(member_ids@.subrange(0, member_ids@.len() as int) =~= member_ids@);
    Ok(out)
}

/// Creates a group chat at the current local time; see `insert_group_chat_at`.
pub fn insert_group_chat(member_ids: Vec<i32>, store: &mut Store) -> (r: Result<
    GroupChat,
    DbError,
>)
    requires
        old(store).wf(),
    ensures
        final(store).wf(),
        exists|at: DateTime|
            at.wf() && insert_group_chat_post(old(store)@, final(store)@, member_ids@, at, r),
{
    let now = local_now();
    insert_group_chat_at(member_ids, now, store)
}

/// What `update_group_chat` does, from store `v` to store `w` with result `r`.
pub open spec fn update_group_chat_post(
    v: StoreView,
    w: StoreView,
    group_chat_id: i32,
    group_picture: String,
    r: Result<GroupChat, DbError>,
) -> bool {
    match lookup(v.group_chats, group_chat_id) {
        None => r == Err::<GroupChat, DbError>(DbError::NotFound) && w == v,
        Some(c) => {
            let d = GroupChat { group_picture: Some(group_picture), ..c };
            r == Ok::<GroupChat, DbError>(d) && w == StoreView {
                group_chats: v.group_chats.update(index_of(v.group_chats, group_chat_id), d),
                ..v
            }
        },
    }
}

/// Sets the picture of chat `group_chat_id`.
pub fn update_group_chat(group_chat_id: i32, group_picture: String, store: &mut Store) -> (r:
    Result<GroupChat, DbError>)
    requires
        old(store).wf(),
    ensures
        final(store).wf(),
        update_group_chat_post(old(store)@, final(store)@, group_chat_id, group_picture, r),
{
    match find_index(&store.group_chats, group_chat_id) {
        None => Err(DbError::NotFound),
        Some(i) => {
            let c = GroupChat {
                group_chat_id: store.group_chats[i].group_chat_id,
                creation_date: store.group_chats[i].creation_date,
                group_picture: Some(group_picture),
            };
            let out = c.duplicate();
            proof {
                lemma_update_row(store.group_chats@, store.next_group_chat_id, i as int, c);
            }
            store.group_chats.set(i, c);
            Ok(out)
        },
    }
}

/// Reads the chat with key `group_chat_id`.
pub fn get_group_chat_by_id(group_chat_id: i32, store: &Store) -> (r: Result<GroupChat, DbError>)
    requires
        store.wf(),
    ensures
        r == found(lookup(store@.group_chats, group_chat_id)),
{
    match find_row(&store.group_chats, group_chat_id) {
        Some(c) => Ok(c),
        None => Err(DbError::NotFound),
    }
}

/// The chat guard: the chat with key `group_chat_id`, or `NotFound`.
pub fn check_group_chat_exists(group_chat_id: i32, store: &Store) -> (r: Result<
    GroupChat,
    DbError,
>)
    requires
        store.wf(),
    ensures
        r == found(lookup(store@.group_chats, group_chat_id)),
{
    get_group_chat_by_id(group_chat_id, store)
}

/// What `delete_group_chat_by_id` does, from store `v` to store `w` with result `r`.
pub open spec fn delete_group_chat_post(
    v: StoreView,
    w: StoreView,
    group_chat_id: i32,
    r: Result<DeleteResult, DbError>,
) -> bool {
    if !has_key(v.group_chats, group_chat_id) {
        r == Err::<DeleteResult, DbError>(DbError::NotFound) && w == v
    } else {
        r == Ok::<DeleteResult, DbError>(DeleteResult { rows_affected: 1 }) && w == StoreView {
            group_chats: v.group_chats.remove(index_of(v.group_chats, group_chat_id)),
            members: selected(v.members, chat_pattern(group_chat_id), false),
            ..v
        }
    }
}

/// Deletes chat `group_chat_id` after removing its memberships. Its messages
/// stay, keeping the key of the deleted chat.
pub fn delete_group_chat_by_id(group_chat_id: i32, store: &mut Store) -> (r: Result<
    DeleteResult,
    DbError,
>)
    requires
        old(store).wf(),
    ensures
        final(store).wf(),
        delete_group_chat_post(old(store)@, final(store)@, group_chat_id, r),
{
    match delete_members_of_group(group_chat_id, store) {
        Err(e) => Err(e),
        Ok(_) => {
            let i = match find_index(&store.group_chats, group_chat_id) {
                Some(i) => i,
                None => return Err(DbError::NotFound),
            };
            proof {
                lemma_remove_row(store.group_chats@, store.next_group_chat_id, i as int);
            }
            store.group_chats.remove(i);
            Ok(DeleteResult { rows_affected: 1 })
        },
    }
}

} // verus!
