//! Memberships: the join rows between profiles and group chats.
use vstd::prelude::*;
use crate::entities::{GroupChat, GroupChatMember, Record};
use crate::store::{DbError, DeleteResult, Store, StoreView};
use crate::table::{
    any_admitted, discard, find_first, find_index, find_row, first_admitted, has_key,
    lemma_push_row, lemma_remove_row, lemma_selected_ok, lemma_selected_sub, lookup, select,
    selected, Linked, Pattern,
};

verus! {

/// Admits the memberships of chat `group_chat_id`.
pub open spec fn chat_pattern(group_chat_id: i32) -> Pattern {
    Pattern { first: None, second: Some(group_chat_id) }
}

/// Admits the memberships of profile `profile_id`.
pub open spec fn profile_pattern(profile_id: i32) -> Pattern {
    Pattern { first: Some(profile_id), second: None }
}

/// Admits the memberships of profile `profile_id` in chat `group_chat_id`.
pub open spec fn pair_pattern(profile_id: i32, group_chat_id: i32) -> Pattern {
    Pattern { first: Some(profile_id), second: Some(group_chat_id) }
}

/// The memberships of a chat, in key order.
pub open spec fn members_of_chat(ms: Seq<GroupChatMember>, group_chat_id: i32) -> Seq<
    GroupChatMember,
> {
    selected(ms, chat_pattern(group_chat_id), true)
}

/// The chats that the memberships of `profile_id` point to and that still
/// exist, one for each such membership, in membership key order.
pub open spec fn chats_of_profile(
    ms: Seq<GroupChatMember>,
    chats: Seq<GroupChat>,
    profile_id: i32,
) -> Seq<GroupChat>
    decreases ms.len(),
{
    if ms.len() == 0 {
        Seq::empty()
    } else {
        let rest = chats_of_profile(ms.drop_last(), chats, profile_id);
        let m = ms.last();
        if m.profile_id == profile_id && has_key(chats, m.group_chat_id) {
            rest.push(lookup(chats, m.group_chat_id)->Some_0)
        } else {
            rest
        }
    }
}

/// What `insert_group_chat_member` does, from store `v` to store `w` with result `r`.
pub open spec fn insert_member_post(
    v: StoreView,
    w: StoreView,
    profile_id: i32,
    group_chat_id: i32,
    r: Result<GroupChatMember, DbError>,
) -> bool {
    if !has_key(v.profiles, profile_id) || !has_key(v.group_chats, group_chat_id) {
        r == Err::<GroupChatMember, DbError>(DbError::NotFound) && w == v
    } else if v.next_member_id == i32::MAX {
        r == Err::<GroupChatMember, DbError>(DbError::StoreError) && w == v
    } else {
        let m = GroupChatMember { member_id: v.next_member_id, profile_id, group_chat_id };
        r == Ok::<GroupChatMember, DbError>(m) && w == StoreView {
            members: v.members.push(m),
            next_member_id: (v.next_member_id + 1) as i32,
            ..v
        }
    }
}

/// Adds profile `profile_id` to chat `group_chat_id`, after both guards pass.
/// A profile may be added to the same chat more than once.
pub fn insert_group_chat_member(profile_id: i32, group_chat_id: i32, store: &mut Store) -> (r:
    Result<GroupChatMember, DbError>)
    requires
        old(store).wf(),
    ensures
        final(store).wf(),
        insert_member_post(old(store)@, final(store)@, profile_id, group_chat_id, r),
{
    if find_index(&store.profiles, profile_id).is_none() {
        return Err(DbError::NotFound);
    }
    if find_index(&store.group_chats, group_chat_id).is_none() {
        return Err(DbError::NotFound);
    }
    if store.next_member_id == i32::MAX {
        return Err(DbError::StoreError);
    }
    let m = GroupChatMember { member_id: store.next_member_id, profile_id, group_chat_id };
    proof {
        lemma_push_row(store.members@, store.next_member_id, m);
        let k = choose|k: int|
            0 <= k < store.group_chats@.len() && #[trigger] store.group_chats@[k].key()
                == group_chat_id;
    }
    store.members.push(m);
    store.next_member_id = store.next_member_id + 1;
    proof {
        let w = store@;
        assert forall|i: int| 0 <= i < w.members.len() implies #[trigger] w.members[i].link().1
            < w.next_group_chat_id by {
            if i < old(store)@.members.len() {
                assert(w.members[i] == old(store)@.members[i]);
            }
        }
    }
    Ok(m)
}

/// Lists the memberships of chat `group_chat_id`, or `NotFound` if the chat does not exist.
pub fn get_members_of_group(group_chat_id: i32, store: &Store) -> (r: Result<
    Vec<GroupChatMember>,
    DbError,
>)
    requires
        store.wf(),
    ensures
        match r {
            Ok(ms) => has_key(store@.group_chats, group_chat_id) && ms@ == members_of_chat(
                store@.members,
                group_chat_id,
            ),
            Err(e) => e == DbError::NotFound && !has_key(store@.group_chats, group_chat_id),
        },
{
    if find_index(&store.group_chats, group_chat_id).is_none() {
        return Err(DbError::NotFound);
    }
    let p = Pattern { first: None, second: Some(group_chat_id) };
    Ok(select(&store.members, &p))
}

/// Lists the chats that profile `profile_id` belongs to, skipping memberships
/// whose chat no longer exists, or `NotFound` if the profile does not exist.
pub fn get_memberships_of_profile(profile_id: i32, store: &Store) -> (r: Result<
    Vec<GroupChat>,
    DbError,
>)
    requires
        store.wf(),
    ensures
        match r {
            Ok(cs) => has_key(store@.profiles, profile_id) && cs@ == chats_of_profile(
                store@.members,
                store@.group_chats,
                profile_id,
            ),
            Err(e) => e == DbError::NotFound && !has_key(store@.profiles, profile_id),
        },
{
    if find_index(&store.profiles, profile_id).is_none() {
        return Err(DbError::NotFound);
    }
    let mut groups: Vec<GroupChat> = Vec::new();
    let mut i: usize = 0;
    while i < store.members.len()
        invariant
            store.wf(),
            i <= store@.members.len(),
            groups@ == chats_of_profile(
                store@.members.subrange(0, i as int),
                store@.group_chats,
                profile_id,
            ),
        decreases store@.members.len() - i,
    {
        let m = store.members[i];
        proof {
            let s = store@.members.subrange(0, i as int + 1);
            assert(s.drop_last() =~= store@.members.subrange(0, i as int));
        }
        if m.profile_id == profile_id {
            match find_row(&store.group_chats, m.group_chat_id) {
                Some(c) => groups.push(c),
                None => {},
            }
        }
        i += 1;
    }
    assert(store@.members.subrange(0, store@.members.len() as int) =~= store@.members);
    Ok(groups)
}

/// What `delete_single_membership` does, from store `v` to store `w` with result `r`.
pub open spec fn delete_membership_post(
    v: StoreView,
    w: StoreView,
    group_chat_id: i32,
    profile_id: i32,
    r: Result<DeleteResult, DbError>,
) -> bool {
    let p = pair_pattern(profile_id, group_chat_id);
    if !any_admitted(v.members, p) {
        r == Err::<DeleteResult, DbError>(DbError::NotFound) && w == v
    } else {
        r == Ok::<DeleteResult, DbError>(DeleteResult { rows_affected: 1 }) && w == StoreView {
            members: v.members.remove(first_admitted(v.members, p)),
            ..v
        }
    }
}

/// Removes one membership of profile `profile_id` in chat `group_chat_id`:
/// where the pair was added more than once, the one with the lowest key.
pub fn delete_single_membership(group_chat_id: i32, profile_id: i32, store: &mut Store) -> (r:
    Result<DeleteResult, DbError>)
    requires
        old(store).wf(),
    ensures
        final(store).wf(),
        delete_membership_post(old(store)@, final(store)@, group_chat_id, profile_id, r),
{
    let p = Pattern { first: Some(profile_id), second: Some(group_chat_id) };
    match find_first(&store.members, &p) {
        None => Err(DbError::NotFound),
        Some(i) => {
            proof {
                lemma_remove_row(store.members@, store.next_member_id, i as int);
            }
            store.members.remove(i);
            proof {
                let v = old(store)@;
                let w = store@;
                assert(w.members =~= v.members.remove(i as int));
                assert forall|k: int| 0 <= k < w.members.len() implies #[trigger] w.members[k].link().1
                    < w.next_group_chat_id by {
                    let k0 = if k < i { k } else { k + 1 };
                    assert(w.members[k] == v.members[k0]);
                }
            }
            Ok(DeleteResult { rows_affected: 1 })
        },
    }
}

/// What a bulk delete of the memberships that `p` admits does, where
/// `guarded` tells whether the guards passed: from store `v` to store `w` with result `r`.
pub open spec fn delete_members_post(
    v: StoreView,
    w: StoreView,
    guarded: bool,
    p: Pattern,
    r: Result<DeleteResult, DbError>,
) -> bool {
    if !guarded {
        r == Err::<DeleteResult, DbError>(DbError::NotFound) && w == v
    } else {
        &&& w == StoreView { members: selected(v.members, p, false), ..v }
        &&& r matches Ok(d)
        &&& r->Ok_0.rows_affected == v.members.len() - w.members.len()
    }
}

fn discard_members(store: &mut Store, p: &Pattern) -> (r: u64)
    requires
        old(store).wf(),
    ensures
        final(store).wf(),
        final(store)@ == (StoreView { members: selected(old(store)@.members, *p, false), ..old(store)@ }),
        r == old(store)@.members.len() - final(store)@.members.len(),
{
    proof {
        lemma_selected_ok(store.members@, store.next_member_id, *p, false);
        lemma_selected_sub(store.members@, *p, false);
    }
    let n = discard(&mut store.members, p);
    proof {
        let v = old(store)@;
        let w = store@;
        assert forall|k: int| 0 <= k < w.members.len() implies #[trigger] w.members[k].link().1
            < w.next_group_chat_id by {
            let j = choose|j: int| 0 <= j < v.members.len() && w.members[k] == v.members[j];
            assert(v.members[j].link().1 < v.next_group_chat_id);
        }
    }
    n
}

/// Removes every membership of chat `group_chat_id`, or `NotFound` if the chat does not exist.
pub fn delete_members_of_group(group_chat_id: i32, store: &mut Store) -> (r: Result<
    DeleteResult,
    DbError,
>)
    requires
        old(store).wf(),
    ensures
        final(store).wf(),
        delete_members_post(
            old(store)@,
            final(store)@,
            has_key(old(store)@.group_chats, group_chat_id),
            chat_pattern(group_chat_id),
            r,
        ),
{
    if find_index(&store.group_chats, group_chat_id).is_none() {
        return Err(DbError::NotFound);
    }
    let p = Pattern { first: None, second: Some(group_chat_id) };
    let n = discard_members(store, &p);
    Ok(DeleteResult { rows_affected: n })
}

/// Removes every membership of profile `profile_id`, or `NotFound` if the profile does not exist.
pub fn delete_memberships_of_profile(profile_id: i32, store: &mut Store) -> (r: Result<
    DeleteResult,
    DbError,
>)
    requires
        old(store).wf(),
    ensures
        final(store).wf(),
        delete_members_post(
            old(store)@,
            final(store)@,
            has_key(old(store)@.profiles, profile_id),
            profile_pattern(profile_id),
            r,
        ),
{
    if find_index(&store.profiles, profile_id).is_none() {
        return Err(DbError::NotFound);
    }
    let p = Pattern { first: Some(profile_id), second: None };
    let n = discard_members(store, &p);
    Ok(DeleteResult { rows_affected: n })
}

} // verus!
