//! Tasks kept in insertion order, at most one per task id: the storage under
//! the cron, monitor and loop registries.

use vstd::prelude::*;
use crate::task::TaskId;

verus! {

/// A record that carries a task id.
pub trait Keyed: Sized {
    spec fn key(&self) -> Seq<char>;

    fn task_id(&self) -> (r: &TaskId)
        ensures
            r@ == self.key(),
    ;
}

/// No two records share an id.
pub open spec fn keys_distinct<T: Keyed>(s: Seq<T>) -> bool {
    forall|i: int, j: int| 0 <= i < s.len() && 0 <= j < s.len() && i != j ==> #[trigger] s[i].key()
        != #[trigger] s[j].key()
}

/// Some record has the id `k`.
pub open spec fn has_key<T: Keyed>(s: Seq<T>, k: Seq<char>) -> bool {
    exists|i: int| 0 <= i < s.len() && #[trigger] s[i].key() == k
}

/// The position of the record with id `k` (meaningful when `has_key`).
pub open spec fn key_index<T: Keyed>(s: Seq<T>, k: Seq<char>) -> int {
    choose|i: int| 0 <= i < s.len() && #[trigger] s[i].key() == k
}

/// The record with id `k`, if any.
pub open spec fn lookup<T: Keyed>(s: Seq<T>, k: Seq<char>) -> Option<T> {
    if has_key(s, k) {
        Some(s[key_index(s, k)])
    } else {
        None
    }
}

/// `s` with `x` stored under its id: it replaces the record with that id in
/// place, or is appended (`HashMap::insert` on an id-keyed table).
pub open spec fn upsert<T: Keyed>(s: Seq<T>, x: T) -> Seq<T> {
    if has_key(s, x.key()) {
        s.update(key_index(s, x.key()), x)
    } else {
        s.push(x)
    }
}

/// `s` without the record with id `k`; the others keep their order.
pub open spec fn remove_key<T: Keyed>(s: Seq<T>, k: Seq<char>) -> Seq<T> {
    if has_key(s, k) {
        s.remove(key_index(s, k))
    } else {
        s
    }
}

/// The records with the id `k` at `i` is the one `key_index` picks.
pub proof fn lemma_key_index_unique<T: Keyed>(s: Seq<T>, k: Seq<char>, i: int)
    requires
        keys_distinct(s),
        0 <= i < s.len(),
        s[i].key() == k,
    ensures
        has_key(s, k),
        key_index(s, k) == i,
{
    assert(has_key(s, k));
    let j = key_index(s, k);
    if j != i {
        assert(s[i].key() != s[j].key());
    }
}

/// The position of the record with the given id, if any.
pub(crate) fn find_index<T: Keyed>(v: &Vec<T>, id: &TaskId) -> (r: Option<usize>)
    requires
        keys_distinct(v@),
    ensures
        r is Some <==> has_key(v@, id@),
        r matches Some(k) ==> k < v@.len() && v@[k as int].key() == id@ && k == key_index(
            v@,
            id@,
        ),
{
    let n = v.len();
    let mut i: usize = 0;
    while i < n
        invariant
            n == v@.len(),
            i <= n,
            keys_distinct(v@),
            forall|j: int| 0 <= j < i ==> (#[trigger] v@[j]).key() != id@,
        decreases n - i,
    {
        if v[i].task_id().same_as(id) {
            proof {
                lemma_key_index_unique(v@, id@, i as int);
            }
            return Some(i);
        }
        i += 1;
    }
    proof {
        if has_key(v@, id@) {
            let j = key_index(v@, id@);
            assert(v@[j].key() == id@);
        }
    }
    None
}

/// Stores `x` under its id (replacing or appending).
pub(crate) fn upsert_vec<T: Keyed>(v: &mut Vec<T>, x: T)
    requires
        keys_distinct(old(v)@),
    ensures
        final(v)@ == upsert(old(v)@, x),
        keys_distinct(final(v)@),
{
    let ghost k = x.key();
    let found = find_index(v, x.task_id());
    match found {
        Some(i) => {
            let ghost s = v@;
            v.set(i, x);
            proof {
                assert forall|a: int, b: int|
                    0 <= a < v@.len() && 0 <= b < v@.len() && a != b implies #[trigger] v@[a].key()
                    != #[trigger] v@[b].key() by {
                    if a != i && b != i {
                        assert(s[a].key() != s[b].key());
                    } else if a == i {
                        assert(s[b].key() != s[i as int].key());
                    } else {
                        assert(s[a].key() != s[i as int].key());
                    }
                }
            }
        },
        None => {
            let ghost s = v@;
            v.push(x);
            proof {
                assert forall|a: int, b: int|
                    0 <= a < v@.len() && 0 <= b < v@.len() && a != b implies #[trigger] v@[a].key()
                    != #[trigger] v@[b].key() by {
                    if a < s.len() && b < s.len() {
                        assert(s[a].key() != s[b].key());
                    } else if a < s.len() {
                        assert(s[a].key() != k);
                    } else {
                        assert(s[b].key() != k);
                    }
                }
            }
        },
    }
}

/// Removes the record with the given id, returning it.
pub(crate) fn remove_vec<T: Keyed>(v: &mut Vec<T>, id: &TaskId) -> (r: Option<T>)
    requires
        keys_distinct(old(v)@),
    ensures
        final(v)@ == remove_key(old(v)@, id@),
        r == lookup(old(v)@, id@),
        keys_distinct(final(v)@),
{
    match find_index(v, id) {
        Some(i) => {
            let ghost s = v@;
            let x = v.remove(i);
            proof {
                assert forall|a: int, b: int|
                    0 <= a < v@.len() && 0 <= b < v@.len() && a != b implies #[trigger] v@[a].key()
                    != #[trigger] v@[b].key() by {
                    let a2 = if a < i { a } else { a + 1 };
                    let b2 = if b < i { b } else { b + 1 };
                    assert(s[a2].key() != s[b2].key());
                }
            }
            Some(x)
        },
        None => None,
    }
}


/// `s` with the record with id `k` replaced by `x` (`s` when there is none).
pub open spec fn replace_key<T: Keyed>(s: Seq<T>, k: Seq<char>, x: T) -> Seq<T> {
    if has_key(s, k) {
        s.update(key_index(s, k), x)
    } else {
        s
    }
}

/// Puts `x` at position `i`, which holds a record with the same id.
pub(crate) fn replace_at<T: Keyed>(v: &mut Vec<T>, i: usize, x: T)
    requires
        keys_distinct(old(v)@),
        i < old(v)@.len(),
        x.key() == old(v)@[i as int].key(),
    ensures
        final(v)@ == old(v)@.update(i as int, x),
        keys_distinct(final(v)@),
{
    let ghost s = v@;
    v.set(i, x);
    proof {
        assert forall|a: int, b: int|
            0 <= a < v@.len() && 0 <= b < v@.len() && a != b implies #[trigger] v@[a].key()
            != #[trigger] v@[b].key() by {
            assert(s[a].key() != s[b].key());
        }
    }
}

/// A copy of every record, in order.
pub(crate) fn clone_all<T: Keyed + Clone>(v: &Vec<T>) -> (r: Vec<T>)
    requires
        forall|x: T, y: T| #[trigger] call_ensures(T::clone, (&x,), y) ==> x == y,
    ensures
        r@ == v@,
{
    let mut out: Vec<T> = Vec::new();
    let n = v.len();
    let mut i: usize = 0;
    while i < n
        invariant
            n == v@.len(),
            i <= n,
            out@ == v@.take(i as int),
            forall|x: T, y: T| #[trigger] call_ensures(T::clone, (&x,), y) ==> x == y,
        decreases n - i,
    {
        out.push(v[i].clone());
        i += 1;
        assert(out@ =~= v@.take(i as int));
    }
    assert(v@.take(n as int) =~= v@);
    out
}


/// Storing a record keeps the ids distinct.
pub proof fn lemma_upsert_distinct<T: Keyed>(s: Seq<T>, x: T)
    requires
        keys_distinct(s),
    ensures
        keys_distinct(upsert(s, x)),
{
    let u = upsert(s, x);
    if has_key(s, x.key()) {
        let i = key_index(s, x.key());
        assert forall|a: int, b: int|
            0 <= a < u.len() && 0 <= b < u.len() && a != b implies #[trigger] u[a].key()
            != #[trigger] u[b].key() by {
            if a != i && b != i {
                assert(s[a].key() != s[b].key());
            } else if a == i {
                assert(s[b].key() != s[i].key());
            } else {
                assert(s[a].key() != s[i].key());
            }
        }
    } else {
        assert forall|a: int, b: int|
            0 <= a < u.len() && 0 <= b < u.len() && a != b implies #[trigger] u[a].key()
            != #[trigger] u[b].key() by {
            if a < s.len() && b < s.len() {
                assert(s[a].key() != s[b].key());
            } else if a < s.len() {
                assert(s[a].key() != x.key());
            } else {
                assert(s[b].key() != x.key());
            }
        }
    }
}

/// Removing a record keeps the ids distinct.
pub proof fn lemma_remove_distinct<T: Keyed>(s: Seq<T>, k: Seq<char>)
    requires
        keys_distinct(s),
    ensures
        keys_distinct(remove_key(s, k)),
{
    if has_key(s, k) {
        let i = key_index(s, k);
        let r = remove_key(s, k);
        assert forall|a: int, b: int|
            0 <= a < r.len() && 0 <= b < r.len() && a != b implies #[trigger] r[a].key()
            != #[trigger] r[b].key() by {
            let a2 = if a < i { a } else { a + 1 };
            let b2 = if b < i { b } else { b + 1 };
            assert(r[a] == s[a2]);
            assert(r[b] == s[b2]);
            assert(s[a2].key() != s[b2].key());
        }
    }
}

/// Once a record is stored, its id finds it, and every other id finds what
/// it found before.
pub proof fn law_lookup_after_upsert<T: Keyed>(s: Seq<T>, x: T, k: Seq<char>)
    requires
        keys_distinct(s),
    ensures
        lookup(upsert(s, x), x.key()) == Some(x),
        k != x.key() ==> lookup(upsert(s, x), k) == lookup(s, k),
{
    let u = upsert(s, x);
    lemma_upsert_distinct(s, x);
    let i = if has_key(s, x.key()) {
        key_index(s, x.key())
    } else {
        s.len() as int
    };
    assert(u[i] == x);
    lemma_key_index_unique(u, x.key(), i);
    if k != x.key() {
        if has_key(s, k) {
            let j = key_index(s, k);
            assert(s[j].key() == k);
            assert(u[j] == s[j]);
            lemma_key_index_unique(u, k, j);
        } else {
            assert forall|j: int| 0 <= j < u.len() implies #[trigger] u[j].key() != k by {
                if j != i {
                    assert(u[j] == s[j]);
                }
            }
        }
    }
}

/// Once an id is removed it finds nothing, and every other id finds what it
/// found before.
pub proof fn law_lookup_after_remove<T: Keyed>(s: Seq<T>, k: Seq<char>, other: Seq<char>)
    requires
        keys_distinct(s),
    ensures
        lookup(remove_key(s, k), k) is None,
        other != k ==> lookup(remove_key(s, k), other) == lookup(s, other),
{
    let r = remove_key(s, k);
    lemma_remove_distinct(s, k);
    if has_key(s, k) {
        let i = key_index(s, k);
        assert forall|j: int| 0 <= j < r.len() implies #[trigger] r[j].key() != k by {
            let j2 = if j < i { j } else { j + 1 };
            assert(r[j] == s[j2]);
            assert(s[j2].key() != s[i].key());
        }
        if other != k {
            if has_key(s, other) {
                let j = key_index(s, other);
                assert(s[j].key() == other);
                let j2 = if j < i { j } else { j - 1 };
                assert(r[j2] == s[j]);
                lemma_key_index_unique(r, other, j2);
            } else {
                assert forall|j: int| 0 <= j < r.len() implies #[trigger] r[j].key() != other by {
                    let j2 = if j < i { j } else { j + 1 };
                    assert(r[j] == s[j2]);
                }
            }
        }
    }
}

/// Storing a record under an id the table does not hold, then removing
/// that id, gives back the table.
pub proof fn law_remove_undoes_upsert<T: Keyed>(s: Seq<T>, x: T)
    requires
        !has_key(s, x.key()),
    ensures
        remove_key(upsert(s, x), x.key()) == s,
{
    let u = s.push(x);
    assert(u[s.len() as int].key() == x.key());
    assert(has_key(u, x.key()));
    let i = key_index(u, x.key());
    if i != s.len() {
        assert(u[i] == s[i]);
    }
    assert(u.remove(s.len() as int) =~= s);
}

/// Storing adds a record for a new id and replaces the one of a held id.
pub proof fn law_upsert_len<T: Keyed>(s: Seq<T>, x: T)
    ensures
        upsert(s, x).len() == if has_key(s, x.key()) {
            s.len()
        } else {
            s.len() + 1
        },
{
}


/// Putting a record with the same id in place of the record of `k`: `k`
/// finds the new record (when it was held), every other id finds what it
/// found before, and the ids stay distinct.
pub proof fn law_lookup_after_replace<T: Keyed>(s: Seq<T>, k: Seq<char>, x: T, other: Seq<char>)
    requires
        keys_distinct(s),
        x.key() == k,
    ensures
        keys_distinct(replace_key(s, k, x)),
        replace_key(s, k, x).len() == s.len(),
        has_key(s, k) ==> lookup(replace_key(s, k, x), k) == Some(x),
        !has_key(s, k) ==> replace_key(s, k, x) == s,
        other != k ==> lookup(replace_key(s, k, x), other) == lookup(s, other),
{
    if has_key(s, k) {
        let i = key_index(s, k);
        let r = replace_key(s, k, x);
        assert(r == upsert(s, x));
        law_lookup_after_upsert(s, x, other);
        lemma_upsert_distinct(s, x);
    }
}

} // verus!
