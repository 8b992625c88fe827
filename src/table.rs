//! Generic table machinery: rows kept in ascending key order, lookups by key,
//! and selection of rows by the pair of foreign keys they carry.
use vstd::prelude::*;
use crate::entities::Record;

verus! {

/// A row that references two other rows by their keys.
pub trait Linked: Record {
    /// The two foreign keys of the row.
    spec fn link(&self) -> (i32, i32);

    fn get_link(&self) -> (r: (i32, i32))
        ensures
            r == self.link(),
    ;
}

/// A filter on the two foreign keys of a row; `None` admits any value.
#[derive(Clone, Copy, Debug, PartialEq, Eq, Structural)]
pub struct Pattern {
    pub first: Option<i32>,
    pub second: Option<i32>,
}

impl Pattern {
    pub open spec fn admits(self, l: (i32, i32)) -> bool {
        &&& (self.first matches Some(a) ==> l.0 == a)
        &&& (self.second matches Some(b) ==> l.1 == b)
    }

    pub fn check(&self, l: (i32, i32)) -> (r: bool)
        ensures
            r == self.admits(l),
    {
        let a = match self.first {
            Some(a) => l.0 == a,
            None => true,
        };
        let b = match self.second {
            Some(b) => l.1 == b,
            None => true,
        };
        a && b
    }
}

/// Keys strictly increase along the table.
pub open spec fn keys_ascending<T: Record>(rows: Seq<T>) -> bool {
    forall|i: int, j: int|
        0 <= i < j < rows.len() ==> #[trigger] rows[i].key() < #[trigger] rows[j].key()
}

/// Every key is positive and below the next key to hand out.
pub open spec fn keys_below<T: Record>(rows: Seq<T>, next: i32) -> bool {
    forall|i: int| 0 <= i < rows.len() ==> 1 <= #[trigger] rows[i].key() < next
}

/// The table is well formed with respect to its key counter.
pub open spec fn table_ok<T: Record>(rows: Seq<T>, next: i32) -> bool {
    &&& 1 <= next
    &&& keys_ascending(rows)
    &&& keys_below(rows, next)
}

pub open spec fn has_key<T: Record>(rows: Seq<T>, id: i32) -> bool {
    exists|i: int| 0 <= i < rows.len() && #[trigger] rows[i].key() == id
}

pub open spec fn index_of<T: Record>(rows: Seq<T>, id: i32) -> int {
    choose|i: int| 0 <= i < rows.len() && #[trigger] rows[i].key() == id
}

/// The row with the given key, if the table holds one.
pub open spec fn lookup<T: Record>(rows: Seq<T>, id: i32) -> Option<T> {
    if has_key(rows, id) {
        Some(rows[index_of(rows, id)])
    } else {
        None
    }
}

/// The rows that `p` admits (`keep`) or those it does not (`!keep`), in table order.
pub open spec fn selected<T: Linked>(rows: Seq<T>, p: Pattern, keep: bool) -> Seq<T> {
    rows.filter(|x: T| p.admits(x.link()) == keep)
}

/// Whether some row is admitted by `p`.
pub open spec fn any_admitted<T: Linked>(rows: Seq<T>, p: Pattern) -> bool {
    exists|i: int| 0 <= i < rows.len() && p.admits(#[trigger] rows[i].link())
}

/// The position of the first row that `p` admits.
pub open spec fn first_admitted<T: Linked>(rows: Seq<T>, p: Pattern) -> int {
    choose|i: int|
        0 <= i < rows.len() && p.admits(#[trigger] rows[i].link()) && forall|j: int|
            0 <= j < i ==> !p.admits(#[trigger] rows[j].link())
}

pub proof fn lemma_index_of<T: Record>(rows: Seq<T>, i: int)
    requires
        keys_ascending(rows),
        0 <= i < rows.len(),
    ensures
        has_key(rows, rows[i].key()),
        index_of(rows, rows[i].key()) == i,
        lookup(rows, rows[i].key()) == Some(rows[i]),
{
    let id = rows[i].key();
    assert(has_key(rows, id));
    let k = index_of(rows, id);
    if k < i {
        assert(rows[k].key() < rows[i].key());
    } else if k > i {
        assert(rows[i].key() < rows[k].key());
    }
}

pub proof fn lemma_push_row<T: Record>(rows: Seq<T>, next: i32, x: T)
    requires
        table_ok(rows, next),
        x.key() == next,
        next < i32::MAX,
    ensures
        table_ok(rows.push(x), (next + 1) as i32),
        lookup(rows.push(x), next) == Some(x),
        forall|id: i32| id != next ==> lookup(rows.push(x), id) == lookup(rows, id),
{
    let s = rows.push(x);
    assert forall|i: int| 0 <= i < rows.len() implies s[i] == rows[i] by {}
    assert(s[rows.len() as int] == x);
    lemma_index_of(s, rows.len() as int);
    assert forall|id: i32| id != next implies lookup(s, id) == lookup(rows, id) by {
        if has_key(rows, id) {
            let k = index_of(rows, id);
            lemma_index_of(rows, k);
            lemma_index_of(s, k);
        } else if has_key(s, id) {
            let k = index_of(s, id);
            assert(k < rows.len());
            assert(rows[k].key() == id);
        }
    }
}

pub proof fn lemma_remove_row<T: Record>(rows: Seq<T>, next: i32, i: int)
    requires
        table_ok(rows, next),
        0 <= i < rows.len(),
    ensures
        table_ok(rows.remove(i), next),
        lookup(rows.remove(i), rows[i].key()) == None::<T>,
        forall|id: i32| id != rows[i].key() ==> lookup(rows.remove(i), id) == lookup(rows, id),
        forall|k: int|
            0 <= k < rows.remove(i).len() ==> #[trigger] rows.remove(i)[k] == rows[if k < i {
                k
            } else {
                k + 1
            }],
{
    let s = rows.remove(i);
    assert forall|k: int| 0 <= k < s.len() implies #[trigger] s[k] == rows[if k < i {
        k
    } else {
        k + 1
    }] by {}
    assert forall|a: int, b: int| 0 <= a < b < s.len() implies #[trigger] s[a].key()
        < #[trigger] s[b].key() by {
        let a0 = if a < i { a } else { a + 1 };
        let b0 = if b < i { b } else { b + 1 };
        assert(s[a] == rows[a0]);
        assert(s[b] == rows[b0]);
    }
    assert forall|a: int| 0 <= a < s.len() implies 1 <= #[trigger] s[a].key() < next by {
        let a0 = if a < i { a } else { a + 1 };
        assert(s[a] == rows[a0]);
    }
    if has_key(s, rows[i].key()) {
        let k = index_of(s, rows[i].key());
        let k0 = if k < i { k } else { k + 1 };
        assert(s[k] == rows[k0]);
    }
    assert forall|id: i32| id != rows[i].key() implies lookup(s, id) == lookup(rows, id) by {
        if has_key(rows, id) {
            let k = index_of(rows, id);
            lemma_index_of(rows, k);
            let k1 = if k < i { k } else { k - 1 };
            assert(s[k1] == rows[k]);
            lemma_index_of(s, k1);
        } else if has_key(s, id) {
            let k = index_of(s, id);
            let k0 = if k < i { k } else { k + 1 };
            assert(s[k] == rows[k0]);
        }
    }
}

pub proof fn lemma_update_row<T: Record>(rows: Seq<T>, next: i32, i: int, x: T)
    requires
        table_ok(rows, next),
        0 <= i < rows.len(),
        x.key() == rows[i].key(),
    ensures
        table_ok(rows.update(i, x), next),
        lookup(rows.update(i, x), x.key()) == Some(x),
        forall|id: i32| id != x.key() ==> lookup(rows.update(i, x), id) == lookup(rows, id),
{
    let s = rows.update(i, x);
    assert forall|a: int, b: int| 0 <= a < b < s.len() implies #[trigger] s[a].key()
        < #[trigger] s[b].key() by {
        assert(s[a].key() == rows[a].key());
        assert(s[b].key() == rows[b].key());
    }
    assert forall|a: int| 0 <= a < s.len() implies 1 <= #[trigger] s[a].key() < next by {
        assert(s[a].key() == rows[a].key());
    }
    lemma_index_of(s, i);
    assert forall|id: i32| id != x.key() implies lookup(s, id) == lookup(rows, id) by {
        if has_key(rows, id) {
            let k = index_of(rows, id);
            lemma_index_of(rows, k);
            lemma_index_of(s, k);
        } else if has_key(s, id) {
            let k = index_of(s, id);
            assert(rows[k].key() == id);
        }
    }
}

/// Selecting from two tables joined is selecting from each and joining.
pub proof fn lemma_selected_append<T: Linked>(a: Seq<T>, b: Seq<T>, p: Pattern, keep: bool)
    ensures
        selected(a + b, p, keep) == selected(a, p, keep) + selected(b, p, keep),
    decreases b.len(),
{
    reveal(Seq::filter);
    if b.len() == 0 {
        assert(a + b =~= a);
        assert(selected(a, p, keep) + selected(b, p, keep) =~= selected(a, p, keep));
    } else {
        lemma_selected_append(a, b.drop_last(), p, keep);
        assert((a + b).drop_last() =~= a + b.drop_last());
        assert((a + b).last() == b.last());
        if p.admits(b.last().link()) == keep {
            assert(selected(a, p, keep) + selected(b.drop_last(), p, keep).push(b.last())
                =~= (selected(a, p, keep) + selected(b.drop_last(), p, keep)).push(b.last()));
        }
    }
}

/// Where `p` admits no row, selecting what it admits gives nothing.
pub proof fn lemma_selected_none<T: Linked>(rows: Seq<T>, p: Pattern)
    requires
        forall|i: int| 0 <= i < rows.len() ==> !p.admits(#[trigger] rows[i].link()),
    ensures
        selected(rows, p, true) == Seq::<T>::empty(),
{
    lemma_selected_sub(rows, p, true);
    let s = selected(rows, p, true);
    if s.len() > 0 {
        let j = choose|j: int| 0 <= j < rows.len() && s[0] == rows[j];
        assert(p.admits(s[0].link()));
    }
    assert(s =~= Seq::<T>::empty());
}

/// Where `p` admits every row, selecting what it admits gives the whole table.
pub proof fn lemma_selected_all<T: Linked>(rows: Seq<T>, p: Pattern)
    requires
        forall|i: int| 0 <= i < rows.len() ==> p.admits(#[trigger] rows[i].link()),
    ensures
        selected(rows, p, true) == rows,
    decreases rows.len(),
{
    reveal(Seq::filter);
    if rows.len() > 0 {
        let d = rows.drop_last();
        assert forall|i: int| 0 <= i < d.len() implies p.admits(#[trigger] d[i].link()) by {
            assert(d[i] == rows[i]);
        }
        lemma_selected_all(d, p);
        assert(p.admits(rows[rows.len() - 1].link()));
        assert(d.push(rows.last()) =~= rows);
    }
}

/// Selection keeps a table well formed.
pub proof fn lemma_selected_ok<T: Linked>(rows: Seq<T>, next: i32, p: Pattern, keep: bool)
    requires
        table_ok(rows, next),
    ensures
        table_ok(selected(rows, p, keep), next),
{
    lemma_selected_sub(rows, p, keep);
    let s = selected(rows, p, keep);
    assert forall|a: int| 0 <= a < s.len() implies 1 <= #[trigger] s[a].key() < next by {
        let j = choose|j: int| 0 <= j < rows.len() && s[a] == rows[j];
    }
}

/// Looks up the position of the row with key `id`.
pub fn find_index<T: Record>(rows: &Vec<T>, id: i32) -> (r: Option<usize>)
    requires
        keys_ascending(rows@),
    ensures
        match r {
            Some(i) => i < rows@.len() && rows@[i as int].key() == id && has_key(rows@, id)
                && index_of(rows@, id) == i && lookup(rows@, id) == Some(rows@[i as int]),
            None => !has_key(rows@, id) && lookup(rows@, id) == None::<T>,
        },
{
    let mut i: usize = 0;
    while i < rows.len()
        invariant
            i <= rows@.len(),
            keys_ascending(rows@),
            forall|j: int| 0 <= j < i ==> #[trigger] rows@[j].key() != id,
        decreases rows@.len() - i,
    {
        if rows[i].get_key() == id {
            proof {
                lemma_index_of(rows@, i as int);
            }
            return Some(i);
        }
        i += 1;
    }
    None
}

/// A copy of the row with key `id`, if any.
pub fn find_row<T: Record>(rows: &Vec<T>, id: i32) -> (r: Option<T>)
    requires
        keys_ascending(rows@),
    ensures
        r == lookup(rows@, id),
{
    match find_index(rows, id) {
        Some(i) => Some(rows[i].duplicate()),
        None => None,
    }
}

/// Finds the first row that `p` admits.
pub fn find_first<T: Linked>(rows: &Vec<T>, p: &Pattern) -> (r: Option<usize>)
    ensures
        match r {
            Some(i) => i < rows@.len() && any_admitted(rows@, *p) && first_admitted(rows@, *p)
                == i,
            None => !any_admitted(rows@, *p),
        },
{
    let mut i: usize = 0;
    while i < rows.len()
        invariant
            i <= rows@.len(),
            forall|j: int| 0 <= j < i ==> !p.admits(#[trigger] rows@[j].link()),
        decreases rows@.len() - i,
    {
        if p.check(rows[i].get_link()) {
            proof {
                let k = first_admitted(rows@, *p);
                assert(p.admits(rows@[i as int].link()));
                if k < i {
                } else if k > i {
                    assert(!p.admits(rows@[i as int].link()));
                }
            }
            return Some(i);
        }
        i += 1;
    }
    None
}

proof fn lemma_selected_step<T: Linked>(rows: Seq<T>, p: Pattern, keep: bool, i: int)
    requires
        0 <= i < rows.len(),
    ensures
        selected(rows.subrange(0, i + 1), p, keep) == if (p.admits(rows[i].link()) == keep) {
            selected(rows.subrange(0, i), p, keep).push(rows[i])
        } else {
            selected(rows.subrange(0, i), p, keep)
        },
{
    let s = rows.subrange(0, i + 1);
    assert(s.drop_last() =~= rows.subrange(0, i));
    reveal(Seq::filter);
}

/// Selection keeps table order, and so ascending keys, and holds rows of the table only.
pub proof fn lemma_selected_sub<T: Linked>(rows: Seq<T>, p: Pattern, keep: bool)
    ensures
        keys_ascending(rows) ==> keys_ascending(selected(rows, p, keep)),
        forall|k: int|
            0 <= k < selected(rows, p, keep).len() ==> exists|j: int|
                0 <= j < rows.len() && #[trigger] selected(rows, p, keep)[k] == rows[j],
        forall|k: int|
            0 <= k < selected(rows, p, keep).len() ==> p.admits(
                #[trigger] selected(rows, p, keep)[k].link(),
            ) == keep,
    decreases rows.len(),
{
    reveal(Seq::filter);
    if rows.len() > 0 {
        let d = rows.drop_last();
        lemma_selected_sub(d, p, keep);
        let sd = selected(d, p, keep);
        let s = selected(rows, p, keep);
        assert forall|k: int| 0 <= k < sd.len() implies exists|j: int|
            0 <= j < rows.len() && #[trigger] sd[k] == rows[j] by {
            let j = choose|j: int| 0 <= j < d.len() && sd[k] == d[j];
            assert(sd[k] == rows[j]);
        }
        if p.admits(rows.last().link()) == keep {
            assert(s == sd.push(rows.last()));
            assert forall|k: int| 0 <= k < s.len() implies exists|j: int|
                0 <= j < rows.len() && #[trigger] s[k] == rows[j] by {
                if k == sd.len() {
                    assert(s[k] == rows[rows.len() - 1]);
                } else {
                    assert(s[k] == sd[k]);
                }
            }
            if keys_ascending(rows) {
                assert(keys_ascending(d));
                assert forall|a: int, b: int| 0 <= a < b < s.len() implies #[trigger] s[a].key()
                    < #[trigger] s[b].key() by {
                    if b == sd.len() {
                        let j = choose|j: int| 0 <= j < d.len() && sd[a] == d[j];
                        assert(s[a] == rows[j]);
                        assert(s[b] == rows[rows.len() - 1]);
                    } else {
                        assert(s[a] == sd[a]);
                        assert(s[b] == sd[b]);
                    }
                }
            }
        } else {
            assert(s == sd);
            if keys_ascending(rows) {
                assert(keys_ascending(d));
            }
        }
    }
}

/// Copies the rows that `p` admits, in table order.
pub fn select<T: Linked>(rows: &Vec<T>, p: &Pattern) -> (r: Vec<T>)
    ensures
        r@ == selected(rows@, *p, true),
{
    let mut out: Vec<T> = Vec::new();
    let mut i: usize = 0;
    while i < rows.len()
        invariant
            i <= rows@.len(),
            out@ == selected(rows@.subrange(0, i as int), *p, true),
        decreases rows@.len() - i,
    {
        proof {
            lemma_selected_step(rows@, *p, true, i as int);
        }
        if p.check(rows[i].get_link()) {
            out.push(rows[i].duplicate());
        }
        i += 1;
    }
    assert(rows@.subrange(0, rows@.len() as int) =~= rows@);
    out
}

/// Removes the rows that `p` admits and returns how many there were.
pub fn discard<T: Linked>(rows: &mut Vec<T>, p: &Pattern) -> (r: u64)
    ensures
        final(rows)@ == selected(old(rows)@, *p, false),
        r == old(rows)@.len() - final(rows)@.len(),
{
    let mut kept: Vec<T> = Vec::new();
    let mut i: usize = 0;
    while i < rows.len()
        invariant
            i <= rows@.len(),
            kept@ == selected(rows@.subrange(0, i as int), *p, false),
            kept@.len() <= i,
        decreases rows@.len() - i,
    {
        proof {
            lemma_selected_step(rows@, *p, false, i as int);
        }
        if !p.check(rows[i].get_link()) {
            kept.push(rows[i].duplicate());
        }
        i += 1;
    }
    assert(rows@.subrange(0, rows@.len() as int) =~= rows@);
    let removed = (rows.len() - kept.len()) as u64;
    *rows = kept;
    removed
}

} // verus!
