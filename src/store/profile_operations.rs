//! Create, read, update and delete of profiles, and the profile guard.
use vstd::prelude::*;
use crate::entities::{copy_opt_string, local_now, DateTime, Profile, Record};
use crate::store::{found, DbError, DeleteResult, Store, StoreView};
use crate::table::{find_index, find_row, index_of, lemma_remove_row, lemma_update_row, lookup};
use crate::username::{check_displayname, displayname_fits, is_username_valid, valid_username};

verus! {

/// The picture that a new profile starts with.
pub open spec fn default_picture() -> Seq<char> {
    "default"@
}

/// `p` is the profile that an insert with these arguments creates under key `id`.
pub open spec fn new_profile(
    p: Profile,
    id: i32,
    username: Seq<char>,
    displayname: Option<String>,
    password: Seq<char>,
    email: Seq<char>,
    at: DateTime,
) -> bool {
    &&& p.profile_id == id
    &&& p.username@ == username
    &&& p.displayname == displayname
    &&& p.password@ == password
    &&& p.email_address@ == email
    &&& p.join_datetime == at
    &&& p.profile_picture matches Some(pic) && pic@ == default_picture()
}

/// Some profile other than the one with key `except` has username `name`.
pub open spec fn username_taken(ps: Seq<Profile>, name: Seq<char>, except: Option<i32>) -> bool {
    exists|i: int|
        0 <= i < ps.len() && #[trigger] ps[i].username@ == name && except != Some(ps[i].profile_id)
}

/// What `insert_profile_at` does, from store `v` to store `w` with result `r`.
pub open spec fn insert_profile_post(
    v: StoreView,
    w: StoreView,
    username: Seq<char>,
    displayname: Option<String>,
    password: Seq<char>,
    email: Seq<char>,
    at: DateTime,
    r: Result<Profile, DbError>,
) -> bool {
    if !valid_username(username) {
        r == Err::<Profile, DbError>(DbError::InvalidUsername) && w == v
    } else if !displayname_fits(displayname) || username_taken(v.profiles, username, None)
        || v.next_profile_id == i32::MAX {
        r == Err::<Profile, DbError>(DbError::StoreError) && w == v
    } else {
        &&& r matches Ok(p)
        &&& new_profile(r->Ok_0, v.next_profile_id, username, displayname, password, email, at)
        &&& w == StoreView {
            profiles: v.profiles.push(r->Ok_0),
            next_profile_id: (v.next_profile_id + 1) as i32,
            ..v
        }
    }
}

/// The profile `p` with the given fields replaced; absent fields keep their value.
pub open spec fn patched_profile(
    p: Profile,
    username: Option<String>,
    displayname: Option<String>,
    password: Option<String>,
    email: Option<String>,
    picture: Option<String>,
) -> Profile {
    Profile {
        profile_id: p.profile_id,
        username: match username {
            Some(u) => u,
            None => p.username,
        },
        displayname: match displayname {
            Some(d) => Some(d),
            None => p.displayname,
        },
        password: match password {
            Some(s) => s,
            None => p.password,
        },
        email_address: match email {
            Some(e) => e,
            None => p.email_address,
        },
        join_datetime: p.join_datetime,
        profile_picture: match picture {
            Some(x) => Some(x),
            None => p.profile_picture,
        },
    }
}

/// What `update_profile` does, from store `v` to store `w` with result `r`.
pub open spec fn update_profile_post(
    v: StoreView,
    w: StoreView,
    id: i32,
    username: Option<String>,
    displayname: Option<String>,
    password: Option<String>,
    email: Option<String>,
    picture: Option<String>,
    r: Result<Profile, DbError>,
) -> bool {
    match lookup(v.profiles, id) {
        None => r == Err::<Profile, DbError>(DbError::NotFound) && w == v,
        Some(p) => {
            let q = patched_profile(p, username, displayname, password, email, picture);
            if !valid_username(q.username@) {
                r == Err::<Profile, DbError>(DbError::InvalidUsername) && w == v
            } else if !displayname_fits(q.displayname) || username_taken(
                v.profiles,
                q.username@,
                Some(id),
            ) {
                r == Err::<Profile, DbError>(DbError::StoreError) && w == v
            } else {
                r == Ok::<Profile, DbError>(q) && w == StoreView {
                    profiles: v.profiles.update(index_of(v.profiles, id), q),
                    ..v
                }
            }
        },
    }
}

/// What `delete_profile_by_id` does, from store `v` to store `w` with result `r`.
pub open spec fn delete_profile_post(
    v: StoreView,
    w: StoreView,
    id: i32,
    r: Result<DeleteResult, DbError>,
) -> bool {
    match lookup(v.profiles, id) {
        None => r == Err::<DeleteResult, DbError>(DbError::NotFound) && w == v,
        Some(_) => r == Ok::<DeleteResult, DbError>(DeleteResult { rows_affected: 1 }) && w
            == StoreView { profiles: v.profiles.remove(index_of(v.profiles, id)), ..v },
    }
}

/// The profile whose username is `name`, if any.
pub open spec fn profile_named(ps: Seq<Profile>, name: Seq<char>) -> Option<Profile> {
    if exists|i: int| 0 <= i < ps.len() && #[trigger] ps[i].username@ == name {
        Some(ps[choose|i: int| 0 <= i < ps.len() && #[trigger] ps[i].username@ == name])
    } else {
        None
    }
}

/// Compares two strings character by character.
pub fn str_equal(a: &str, b: &str) -> (r: bool)
    ensures
        r == (a@ == b@),
{
    let n = a.unicode_len();
    if n != b.unicode_len() {
        return false;
    }
    let mut i: usize = 0;
    while i < n
        invariant
            n == a@.len(),
            n == b@.len(),
            i <= n,
            forall|j: int| 0 <= j < i ==> a@[j] == b@[j],
        decreases n - i,
    {
        if a.get_char(i) != b.get_char(i) {
            return false;
        }
        i += 1;
    }
    assert(a@ =~= b@);
    true
}

/// Finds the position of the first profile, other than the one with key
/// `except`, whose username is `name`.
fn find_username(ps: &Vec<Profile>, name: &str, except: Option<i32>) -> (r: Option<usize>)
    ensures
        match r {
            Some(i) => i < ps@.len() && ps@[i as int].username@ == name@ && except != Some(
                ps@[i as int].profile_id,
            ) && username_taken(ps@, name@, except),
            None => !username_taken(ps@, name@, except),
        },
{
    let mut i: usize = 0;
    while i < ps.len()
        invariant
            i <= ps@.len(),
            forall|j: int|
                0 <= j < i ==> #[trigger] ps@[j].username@ != name@ || except == Some(
                    ps@[j].profile_id,
                ),
        decreases ps@.len() - i,
    {
        if str_equal(ps[i].username.as_str(), name) {
            let skip = match except {
                Some(e) => e == ps[i].profile_id,
                None => false,
            };
            if !skip {
                return Some(i);
            }
        }
        i += 1;
    }
    None
}

/// Creates a profile joined at `now`, with the default picture, under the next
/// profile key.
pub fn insert_profile_at(
    username: &str,
    displayname: &Option<String>,
    hashed_password: &str,
    email_address: &str,
    now: DateTime,
    store: &mut Store,
) -> (r: Result<Profile, DbError>)
    requires
        old(store).wf(),
    ensures
        final(store).wf(),
        insert_profile_post(
            old(store)@,
            final(store)@,
            username@,
            *displayname,
            hashed_password@,
            email_address@,
            now,
            r,
        ),
{
    if !is_username_valid(username) {
        return Err(DbError::InvalidUsername);
    }
    if !check_displayname(displayname) {
        return Err(DbError::StoreError);
    }
    if find_username(&store.profiles, username, None).is_some() {
        return Err(DbError::StoreError);
    }
    if store.next_profile_id == i32::MAX {
        return Err(DbError::StoreError);
    }
    let profile = Profile {
        profile_id: store.next_profile_id,
        username: username.to_owned(),
        displayname: copy_opt_string(displayname),
        password: hashed_password.to_owned(),
        email_address: email_address.to_owned(),
        join_datetime: now,
        profile_picture: Some("default".to_owned()),
    };
    let out = profile.duplicate();
    store.profiles.push(profile);
    store.next_profile_id = store.next_profile_id + 1;
    proof {
        let v = old(store)@;
        let w = store@;
        assert(w.profiles =~= v.profiles.push(out));
        assert forall|i: int, j: int| 0 <= i < j < w.profiles.len() implies #[trigger] w.profiles[i].username@
            != #[trigger] w.profiles[j].username@ by {
            if j == v.profiles.len() {
                assert(v.profiles[i].username@ == w.profiles[i].username@);
            } else {
                assert(v.profiles[i] == w.profiles[i]);
                assert(v.profiles[j] == w.profiles[j]);
            }
        }
    }
    Ok(out)
}

/// Creates a profile joined at the current local time.
pub fn insert_profile(
    username: &str,
    displayname: &Option<String>,
    hashed_password: &str,
    email_address: &str,
    store: &mut Store,
) -> (r: Result<Profile, DbError>)
    requires
        old(store).wf(),
    ensures
        final(store).wf(),
        exists|at: DateTime|
            at.wf() && insert_profile_post(
                old(store)@,
                final(store)@,
                username@,
                *displayname,
                hashed_password@,
                email_address@,
                at,
                r,
            ),
{
    let now = local_now();
    insert_profile_at(username, displayname, hashed_password, email_address, now, store)
}

/// Reads the profile with key `profile_id`.
pub fn get_profile_by_id(profile_id: i32, store: &Store) -> (r: Result<Profile, DbError>)
    requires
        store.wf(),
    ensures
        r == found(lookup(store@.profiles, profile_id)),
{
    match find_row(&store.profiles, profile_id) {
        Some(p) => Ok(p),
        None => Err(DbError::NotFound),
    }
}

/// The profile guard: the profile with key `profile_id`, or `NotFound`.
pub fn check_profile_exists(profile_id: i32, store: &Store) -> (r: Result<Profile, DbError>)
    requires
        store.wf(),
    ensures
        r == found(lookup(store@.profiles, profile_id)),
{
    get_profile_by_id(profile_id, store)
}

/// Reads the profile whose username is `username`.
pub fn get_profile_by_username(username: &str, store: &Store) -> (r: Result<Profile, DbError>)
    requires
        store.wf(),
    ensures
        r == found(profile_named(store@.profiles, username@)),
{
    match find_username(&store.profiles, username, None) {
        Some(i) => {
            proof {
                let ps = store@.profiles;
                let k = choose|k: int| 0 <= k < ps.len() && #[trigger] ps[k].username@ == username@;
                if k < i {
                    assert(ps[k].username@ != ps[i as int].username@);
                } else if k > i {
                    assert(ps[i as int].username@ != ps[k].username@);
                }
            }
            Ok(store.profiles[i].duplicate())
        },
        None => {
            assert(!exists|k: int|
                0 <= k < store@.profiles.len() && #[trigger] store@.profiles[k].username@
                    == username@);
            Err(DbError::NotFound)
        },
    }
}

/// Replaces the given fields of the profile with key `profile_id`; fields
/// passed as `None` keep their value, and the join instant never changes.
pub fn update_profile(
    profile_id: i32,
    username: Option<String>,
    displayname: Option<String>,
    hashed_password: Option<String>,
    email_address: Option<String>,
    profile_picture: Option<String>,
    store: &mut Store,
) -> (r: Result<Profile, DbError>)
    requires
        old(store).wf(),
    ensures
        final(store).wf(),
        update_profile_post(
            old(store)@,
            final(store)@,
            profile_id,
            username,
            displayname,
            hashed_password,
            email_address,
            profile_picture,
            r,
        ),
{
    let i = match find_index(&store.profiles, profile_id) {
        Some(i) => i,
        None => return Err(DbError::NotFound),
    };
    let ghost gu = username;
    let ghost gd = displayname;
    let ghost gp = hashed_password;
    let ghost ge = email_address;
    let ghost gx = profile_picture;
    let p = store.profiles[i].duplicate();
    let q = Profile {
        profile_id: p.profile_id,
        username: match username {
            Some(u) => u,
            None => p.username,
        },
        displayname: match displayname {
            Some(d) => Some(d),
            None => p.displayname,
        },
        password: match hashed_password {
            Some(s) => s,
            None => p.password,
        },
        email_address: match email_address {
            Some(e) => e,
            None => p.email_address,
        },
        join_datetime: p.join_datetime,
        profile_picture: match profile_picture {
            Some(x) => Some(x),
            None => p.profile_picture,
        },
    };
    assert(q == patched_profile(store@.profiles[i as int], gu, gd, gp, ge, gx));
    if !is_username_valid(q.username.as_str()) {
        return Err(DbError::InvalidUsername);
    }
    if !check_displayname(&q.displayname) {
        return Err(DbError::StoreError);
    }
    if find_username(&store.profiles, q.username.as_str(), Some(profile_id)).is_some() {
        return Err(DbError::StoreError);
    }
    let out = q.duplicate();
    proof {
        lemma_update_row(store.profiles@, store.next_profile_id, i as int, q);
    }
    store.profiles.set(i, q);
    proof {
        let v = old(store)@;
        let w = store@;
        assert(w.profiles =~= v.profiles.update(i as int, out));
        assert forall|a: int| 0 <= a < w.profiles.len() implies valid_username(
            #[trigger] w.profiles[a].username@,
        ) && displayname_fits(w.profiles[a].displayname) by {
            if a != i {
                assert(w.profiles[a] == v.profiles[a]);
                assert(valid_username(v.profiles[a].username@));
            }
        }
        assert forall|a: int, b: int| 0 <= a < b < w.profiles.len() implies #[trigger] w.profiles[a].username@
            != #[trigger] w.profiles[b].username@ by {
            if a == i {
                assert(!(w.profiles[b].username@ == out.username@ && Some(profile_id) != Some(
                    v.profiles[b].profile_id,
                )));
                assert(v.profiles[a].key() < v.profiles[b].key());
            } else if b == i {
                assert(!(w.profiles[a].username@ == out.username@ && Some(profile_id) != Some(
                    v.profiles[a].profile_id,
                )));
                assert(v.profiles[a].key() < v.profiles[b].key());
            }
        }
    }
    Ok(out)
}

/// Deletes the profile with key `profile_id`. Nothing that references it is
/// touched: its memberships and messages keep the dangling key.
pub fn delete_profile_by_id(profile_id: i32, store: &mut Store) -> (r: Result<
    DeleteResult,
    DbError,
>)
    requires
        old(store).wf(),
    ensures
        final(store).wf(),
        delete_profile_post(old(store)@, final(store)@, profile_id, r),
{
    match find_index(&store.profiles, profile_id) {
        Some(i) => {
            proof {
                lemma_remove_row(store.profiles@, store.next_profile_id, i as int);
            }
            store.profiles.remove(i);
            proof {
                let v = old(store)@;
                let w = store@;
                assert forall|a: int, b: int| 0 <= a < b < w.profiles.len() implies #[trigger] w.profiles[a].username@
                    != #[trigger] w.profiles[b].username@ by {
                    let a0 = if a < i { a } else { a + 1 };
                    let b0 = if b < i { b } else { b + 1 };
                    assert(w.profiles[a] == v.profiles[a0]);
                    assert(w.profiles[b] == v.profiles[b0]);
                }
                assert forall|a: int| 0 <= a < w.profiles.len() implies valid_username(#[trigger] w.profiles[a].username@)
                    && displayname_fits(w.profiles[a].displayname) by {
                    let a0 = if a < i { a } else { a + 1 };
                    assert(w.profiles[a] == v.profiles[a0]);
                    assert(valid_username(v.profiles[a0].username@));
                }
            }
            Ok(DeleteResult { rows_affected: 1 })
        },
        None => Err(DbError::NotFound),
    }
}

} // verus!
