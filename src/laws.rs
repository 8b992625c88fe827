//! Laws that relate several operations of the store, proved from their contracts.
use vstd::prelude::*;
use crate::entities::{DateTime, GroupChat, GroupChatMember, Profile};
use crate::store::group_chat_member_operations::{chat_pattern, members_of_chat};
use crate::store::group_chat_operations::{insert_group_chat_post, new_memberships, resolvable};
use crate::store::profile_operations::{
    delete_profile_post, insert_profile_post, update_profile_post, username_taken,
};
use crate::store::{found, DbError, StoreView};
use crate::table::{
    has_key, index_of, lemma_push_row, lemma_remove_row, lemma_selected_all,
    lemma_selected_append, lemma_selected_none, lemma_update_row, lookup, Linked,
};
use crate::username::{displayname_fits, is_white_space, valid_username};

verus! {

/// The profile ids named by a list of memberships, in order.
pub open spec fn member_profile_ids(ms: Seq<GroupChatMember>) -> Seq<i32> {
    ms.map_values(|m: GroupChatMember| m.profile_id)
}

proof fn lemma_filter_from_source(ids: Seq<i32>, ps: Seq<Profile>)
    ensures
        forall|k: int|
            0 <= k < resolvable(ids, ps).len() ==> ids.contains(#[trigger] resolvable(ids, ps)[k]),
    decreases ids.len(),
{
    reveal(Seq::filter);
    if ids.len() > 0 {
        let d = ids.drop_last();
        lemma_filter_from_source(d, ps);
        assert forall|k: int| 0 <= k < resolvable(ids, ps).len() implies ids.contains(
            #[trigger] resolvable(ids, ps)[k],
        ) by {
            let s = resolvable(ids, ps);
            if k < resolvable(d, ps).len() {
                assert(s[k] == resolvable(d, ps)[k]);
                let j = choose|j: int| 0 <= j < d.len() && d[j] == s[k];
                assert(ids[j] == s[k]);
            } else {
                assert(s[k] == ids[ids.len() - 1]);
            }
        }
    }
}

/// Creating a group chat from a non-empty id list, while the key counters have
/// room, succeeds; the new chat's memberships then name, in order, exactly the
/// requested ids that resolve to existing profiles, so as a set they are the
/// requested ids that resolve.
pub proof fn lemma_new_chat_members(
    v: StoreView,
    w: StoreView,
    member_ids: Seq<i32>,
    at: DateTime,
    r: Result<GroupChat, DbError>,
)
    requires
        v.valid(),
        member_ids.len() > 0,
        v.next_group_chat_id < i32::MAX,
        v.next_member_id + member_ids.len() <= i32::MAX,
        insert_group_chat_post(v, w, member_ids, at, r),
    ensures
        r is Ok,
        has_key(w.group_chats, r->Ok_0.group_chat_id),
        member_profile_ids(members_of_chat(w.members, r->Ok_0.group_chat_id)) == resolvable(
            member_ids,
            v.profiles,
        ),
        member_profile_ids(members_of_chat(w.members, r->Ok_0.group_chat_id)).to_set()
            == member_ids.to_set().filter(|id: i32| has_key(v.profiles, id)),
{
    let c = r->Ok_0;
    let cid = c.group_chat_id;
    let added = resolvable(member_ids, v.profiles);
    let nm = new_memberships(added, cid, v.next_member_id);
    lemma_push_row(v.group_chats, v.next_group_chat_id, c);
    let p = chat_pattern(cid);
    lemma_selected_append(v.members, nm, p, true);
    assert forall|i: int| 0 <= i < v.members.len() implies !p.admits(
        #[trigger] v.members[i].link(),
    ) by {
        assert(v.members[i].link().1 < v.next_group_chat_id);
    }
    lemma_selected_none(v.members, p);
    assert forall|i: int| 0 <= i < nm.len() implies p.admits(#[trigger] nm[i].link()) by {}
    lemma_selected_all(nm, p);
    assert(members_of_chat(w.members, cid) =~= nm);
    assert(member_profile_ids(nm) =~= added);
    lemma_filter_from_source(member_ids, v.profiles);
    let lhs = added.to_set();
    let rhs = member_ids.to_set().filter(|id: i32| has_key(v.profiles, id));
    assert forall|x: i32| lhs.contains(x) <==> rhs.contains(x) by {
        if lhs.contains(x) {
            let k = choose|k: int| 0 <= k < added.len() && added[k] == x;
            member_ids.lemma_filter_pred(|id: i32| has_key(v.profiles, id), k);
            assert(member_ids.contains(added[k]));
        }
        if rhs.contains(x) {
            let j = choose|j: int| 0 <= j < member_ids.len() && member_ids[j] == x;
            member_ids.lemma_filter_contains(|id: i32| has_key(v.profiles, id), j);
        }
    }
    assert(lhs =~= rhs);
}

/// The naming rule at profile creation: a username with a whitespace character,
/// or longer than 32 characters, is refused with `InvalidUsername`; any other
/// username that no profile holds is accepted, given a display name within its
/// limit and room in the key counter.
pub proof fn lemma_username_rule(
    v: StoreView,
    w: StoreView,
    username: Seq<char>,
    displayname: Option<String>,
    password: Seq<char>,
    email: Seq<char>,
    at: DateTime,
    r: Result<Profile, DbError>,
)
    requires
        v.valid(),
        insert_profile_post(v, w, username, displayname, password, email, at, r),
    ensures
        (exists|i: int| 0 <= i < username.len() && is_white_space(#[trigger] username[i])) ==> r
            == Err::<Profile, DbError>(DbError::InvalidUsername),
        username.len() >= 33 ==> r == Err::<Profile, DbError>(
            DbError::InvalidUsername,
        ),
        valid_username(username) && !username_taken(v.profiles, username, None)
            && displayname_fits(displayname) && v.next_profile_id < i32::MAX ==> r is Ok
            && r->Ok_0.username@ == username,
{
}

/// Deleting a profile twice: the second delete reports `NotFound` and changes nothing.
pub proof fn lemma_delete_profile_twice(
    v: StoreView,
    w: StoreView,
    x: StoreView,
    profile_id: i32,
    r1: Result<crate::store::DeleteResult, DbError>,
    r2: Result<crate::store::DeleteResult, DbError>,
)
    requires
        v.valid(),
        delete_profile_post(v, w, profile_id, r1),
        delete_profile_post(w, x, profile_id, r2),
    ensures
        r2 == Err::<crate::store::DeleteResult, DbError>(DbError::NotFound),
        x == w,
{
    if has_key(v.profiles, profile_id) {
        let i = index_of(v.profiles, profile_id);
        lemma_remove_row(v.profiles, v.next_profile_id, i);
    }
}

/// Changing only the username of a profile, to a valid one that no other
/// profile holds, then reading the profile gives the new username with every
/// other field, the join instant included, as before.
pub proof fn lemma_update_username_round_trip(
    v: StoreView,
    w: StoreView,
    profile_id: i32,
    username: String,
    r: Result<Profile, DbError>,
)
    requires
        v.valid(),
        has_key(v.profiles, profile_id),
        valid_username(username@),
        !username_taken(v.profiles, username@, Some(profile_id)),
        update_profile_post(v, w, profile_id, Some(username), None, None, None, None, r),
    ensures
        r is Ok,
        found(lookup(w.profiles, profile_id)) == Ok::<Profile, DbError>(
            Profile { username, ..lookup(v.profiles, profile_id)->Some_0 },
        ),
{
    let i = index_of(v.profiles, profile_id);
    let p = v.profiles[i];
    assert(valid_username(v.profiles[i].username@));
    assert(displayname_fits(p.displayname));
    let q = Profile { username, ..p };
    lemma_update_row(v.profiles, v.next_profile_id, i, q);
}

} // verus!
