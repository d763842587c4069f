//! An in-memory table of records, keyed by id: the storage behind the
//! in-memory repositories. Rows keep their insertion order.

use crate::ids::is_canonical_uuid;
use crate::repositories::order::{newest_first, sort_newest_first, views, Stamped};
use vstd::prelude::*;

verus! {

broadcast use vstd::seq_lib::group_to_multiset_ensures;

/// A stored record: keyed by id, optionally belonging to a parent
/// record, and overwritten in place by an update.
pub trait Record: Stamped {
    spec fn key_of(v: Self::V) -> Seq<char>;

    spec fn parent_of(v: Self::V) -> Seq<char>;

    /// What `stored` becomes when overwritten with `incoming`.
    spec fn overwritten(stored: Self::V, incoming: Self::V) -> Self::V;

    fn key_is(&self, key: &String) -> (r: bool)
        ensures
            r == (Self::key_of(self@) == key@),
    ;

    fn parent_is(&self, parent: &String) -> (r: bool)
        ensures
            r == (Self::parent_of(self@) == parent@),
    ;

    fn key_string(&self) -> (r: String)
        ensures
            r@ == Self::key_of(self@),
    ;

    fn copy(&self) -> (r: Self)
        ensures
            r@ == self@,
    ;

    fn overwrite(&self, incoming: &Self) -> (r: Self)
        ensures
            r@ == Self::overwritten(self@, incoming@),
    ;
}

/// Some row has key `k`.
pub open spec fn has_key<T: Record>(rows: Seq<T::V>, k: Seq<char>) -> bool {
    exists|i: int| 0 <= i < rows.len() && T::key_of(rows[i]) == k
}

/// Some row's key is a canonical UUID: the only rows a freshly drawn
/// id can collide with.
pub open spec fn holds_uuid_key<T: Record>(rows: Seq<T::V>) -> bool {
    exists|k: Seq<char>| is_canonical_uuid(k) && #[trigger] has_key::<T>(rows, k)
}

/// `v` is one of the rows with key `k`.
pub open spec fn is_row_with_key<T: Record>(rows: Seq<T::V>, k: Seq<char>, v: T::V) -> bool {
    exists|i: int| 0 <= i < rows.len() && T::key_of(rows[i]) == k && rows[i] == v
}

/// The first row with key `k`, if any: the row a lookup by key finds.
pub open spec fn first_with_key<T: Record>(rows: Seq<T::V>, k: Seq<char>) -> Option<T::V>
    decreases rows.len(),
{
    if rows.len() == 0 {
        None
    } else if T::key_of(rows[0]) == k {
        Some(rows[0])
    } else {
        first_with_key::<T>(rows.drop_first(), k)
    }
}

/// Row `i` has key `k` and no earlier row has it: it is the first.
proof fn lemma_first_with_key_at<T: Record>(rows: Seq<T::V>, k: Seq<char>, i: int)
    requires
        0 <= i < rows.len(),
        T::key_of(rows[i]) == k,
        forall|j: int| 0 <= j < i ==> T::key_of(#[trigger] rows[j]) != k,
    ensures
        first_with_key::<T>(rows, k) == Some(rows[i]),
    decreases i,
{
    if i > 0 {
        let rest = rows.drop_first();
        assert forall|j: int| 0 <= j < i - 1 implies T::key_of(#[trigger] rest[j]) != k by {
            assert(rest[j] == rows[j + 1]);
        }
        assert(T::key_of(rows[0]) != k);
        lemma_first_with_key_at::<T>(rest, k, i - 1);
    }
}

/// Without a row of key `k`, a lookup finds nothing.
proof fn lemma_first_with_key_absent<T: Record>(rows: Seq<T::V>, k: Seq<char>)
    requires
        !has_key::<T>(rows, k),
    ensures
        first_with_key::<T>(rows, k) is None,
    decreases rows.len(),
{
    if rows.len() > 0 {
        let rest = rows.drop_first();
        assert(T::key_of(rows[0]) != k);
        assert forall|j: int| 0 <= j < rest.len() implies T::key_of(#[trigger] rest[j]) != k by {
            assert(rest[j] == rows[j + 1]);
        }
        lemma_first_with_key_absent::<T>(rest, k);
    }
}

/// The rows whose key is not `k`, in order.
pub open spec fn without_key<T: Record>(rows: Seq<T::V>, k: Seq<char>) -> Seq<T::V>
    decreases rows.len(),
{
    if rows.len() == 0 {
        rows
    } else {
        let rest = without_key::<T>(rows.drop_last(), k);
        if T::key_of(rows.last()) != k {
            rest.push(rows.last())
        } else {
            rest
        }
    }
}

/// The rows belonging to `parent`, in order.
pub open spec fn children<T: Record>(rows: Seq<T::V>, parent: Seq<char>) -> Seq<T::V>
    decreases rows.len(),
{
    if rows.len() == 0 {
        rows
    } else {
        let rest = children::<T>(rows.drop_last(), parent);
        if T::parent_of(rows.last()) == parent {
            rest.push(rows.last())
        } else {
            rest
        }
    }
}

/// Every row with `incoming`'s key overwritten with it.
pub open spec fn overwritten_rows<T: Record>(rows: Seq<T::V>, incoming: T::V) -> Seq<T::V> {
    rows.map_values(
        |r: T::V|
            if T::key_of(r) == T::key_of(incoming) {
                T::overwritten(r, incoming)
            } else {
                r
            },
    )
}

/// `listed` holds exactly the records of `rows`, newest first.
pub open spec fn lists<T: Record>(listed: Seq<T::V>, rows: Seq<T::V>) -> bool {
    listed.to_multiset() == rows.to_multiset() && newest_first::<T>(listed)
}

/// `v` is a row of `rows` stamped at least as late as every row.
pub open spec fn is_newest<T: Record>(rows: Seq<T::V>, v: T::V) -> bool {
    &&& rows.contains(v)
    &&& forall|i: int| 0 <= i < rows.len() ==> T::stamp_of(#[trigger] rows[i]) <= T::stamp_of(v)
}

pub proof fn lemma_take_push<A>(s: Seq<A>, i: int)
    requires
        0 <= i < s.len(),
    ensures
        s.take(i + 1) == s.take(i).push(s[i]),
        s.take(i + 1).drop_last() == s.take(i),
        s.take(i + 1).last() == s[i],
{
    assert(s.take(i + 1) =~= s.take(i).push(s[i]));
    assert(s.take(i + 1).drop_last() =~= s.take(i));
}

pub proof fn lemma_push_contains<A>(s: Seq<A>, x: A, v: A)
    ensures
        s.push(x).contains(v) <==> (s.contains(v) || v == x),
{
    if s.contains(v) {
        let i = choose|i: int| 0 <= i < s.len() && s[i] == v;
        assert(s.push(x)[i] == v);
    }
    if v == x {
        assert(s.push(x)[s.len() as int] == v);
    }
    if s.push(x).contains(v) {
        let i = choose|i: int| 0 <= i < s.push(x).len() && s.push(x)[i] == v;
        if i < s.len() {
            assert(s[i] == v);
        }
    }
}

pub proof fn lemma_push_has_key<T: Record>(s: Seq<T::V>, x: T::V, j: Seq<char>)
    ensures
        has_key::<T>(s.push(x), j) <==> (has_key::<T>(s, j) || T::key_of(x) == j),
{
    if has_key::<T>(s, j) {
        let i = choose|i: int| 0 <= i < s.len() && T::key_of(s[i]) == j;
        assert(s.push(x)[i] == s[i]);
    }
    if T::key_of(x) == j {
        assert(s.push(x)[s.len() as int] == x);
    }
    if has_key::<T>(s.push(x), j) {
        let i = choose|i: int| 0 <= i < s.push(x).len() && T::key_of(s.push(x)[i]) == j;
        if i < s.len() {
            assert(s.push(x)[i] == s[i]);
        }
    }
}

/// A record belongs to `children(rows, parent)` exactly when it is a row
/// of `rows` whose parent is `parent`.
pub proof fn lemma_children_contains<T: Record>(rows: Seq<T::V>, parent: Seq<char>, v: T::V)
    ensures
        children::<T>(rows, parent).contains(v) <==> (rows.contains(v) && T::parent_of(v)
            == parent),
    decreases rows.len(),
{
    if rows.len() > 0 {
        let init = rows.drop_last();
        lemma_children_contains::<T>(init, parent, v);
        assert(rows == init.push(rows.last()));
        lemma_push_contains(init, rows.last(), v);
        lemma_push_contains(children::<T>(init, parent), rows.last(), v);
    }
}

/// After removing key `k`, exactly the other keys remain.
pub proof fn lemma_without_key_has_key<T: Record>(rows: Seq<T::V>, k: Seq<char>, j: Seq<char>)
    ensures
        has_key::<T>(without_key::<T>(rows, k), j) <==> (has_key::<T>(rows, j) && j != k),
    decreases rows.len(),
{
    if rows.len() > 0 {
        let init = rows.drop_last();
        lemma_without_key_has_key::<T>(init, k, j);
        assert(rows == init.push(rows.last()));
        lemma_push_has_key::<T>(init, rows.last(), j);
        lemma_push_has_key::<T>(without_key::<T>(init, k), rows.last(), j);
    }
}

/// Removing a key that no row has leaves the rows as they are.
pub proof fn lemma_without_absent_key<T: Record>(rows: Seq<T::V>, k: Seq<char>)
    requires
        !has_key::<T>(rows, k),
    ensures
        without_key::<T>(rows, k) == rows,
    decreases rows.len(),
{
    if rows.len() > 0 {
        let init = rows.drop_last();
        lemma_push_has_key::<T>(init, rows.last(), k);
        assert(rows == init.push(rows.last()));
        lemma_without_absent_key::<T>(init, k);
    }
}

/// Read after create: once a record whose key was free is stored, a
/// lookup of its key finds it, and only it.
pub proof fn lemma_created_is_read_back<T: Record>(rows: Seq<T::V>, v: T::V)
    requires
        !has_key::<T>(rows, T::key_of(v)),
    ensures
        has_key::<T>(rows.push(v), T::key_of(v)),
        is_row_with_key::<T>(rows.push(v), T::key_of(v), v),
        forall|w: T::V| #[trigger] is_row_with_key::<T>(rows.push(v), T::key_of(v), w) ==> w == v,
{
    let after = rows.push(v);
    assert(after[rows.len() as int] == v);
    assert forall|w: T::V| #[trigger] is_row_with_key::<T>(after, T::key_of(v), w) implies w == v by {
        let i = choose|i: int| 0 <= i < after.len() && T::key_of(after[i]) == T::key_of(v) && after[i] == w;
        if i < rows.len() {
            assert(after[i] == rows[i]);
        }
    }
}

/// A stored record is listed: a listing of the rows after a create
/// holds the created record.
pub proof fn lemma_created_is_listed<T: Record>(rows: Seq<T::V>, v: T::V, listed: Seq<T::V>)
    requires
        lists::<T>(listed, rows.push(v)),
    ensures
        listed.contains(v),
{
    assert(rows.push(v).contains(v)) by {
        assert(rows.push(v)[rows.len() as int] == v);
    }
    assert(rows.push(v).to_multiset().count(v) > 0);
}

/// Delete then read: after a delete, no row has the deleted key, and
/// every other key is still there.
pub proof fn lemma_deleted_is_gone<T: Record>(rows: Seq<T::V>, k: Seq<char>)
    ensures
        !has_key::<T>(without_key::<T>(rows, k), k),
        forall|j: Seq<char>|
            j != k ==> (#[trigger] has_key::<T>(without_key::<T>(rows, k), j) == has_key::<T>(
                rows,
                j,
            )),
{
    lemma_without_key_has_key::<T>(rows, k, k);
    assert forall|j: Seq<char>| j != k implies (#[trigger] has_key::<T>(
        without_key::<T>(rows, k),
        j,
    ) == has_key::<T>(rows, j)) by {
        lemma_without_key_has_key::<T>(rows, k, j);
    }
}

/// Update then read: a row with the updated key reads back as a stored
/// row of that key, overwritten.
pub proof fn lemma_updated_is_read_back<T: Record>(rows: Seq<T::V>, incoming: T::V, w: T::V)
    requires
        is_row_with_key::<T>(overwritten_rows::<T>(rows, incoming), T::key_of(incoming), w),
    ensures
        exists|stored: T::V|
            is_row_with_key::<T>(rows, T::key_of(incoming), stored) && w == T::overwritten(
                stored,
                incoming,
            ),
{
    let after = overwritten_rows::<T>(rows, incoming);
    let i = choose|i: int|
        0 <= i < after.len() && T::key_of(after[i]) == T::key_of(incoming) && after[i] == w;
    let stored = rows[i];
    assert(after[i] == (if T::key_of(stored) == T::key_of(incoming) {
        T::overwritten(stored, incoming)
    } else {
        stored
    }));
    assert(is_row_with_key::<T>(rows, T::key_of(incoming), stored));
}

/// Records in insertion order.
pub struct Table<T> {
    rows: Vec<T>,
}

impl<T: Record> Table<T> {
    pub closed spec fn rows(&self) -> Seq<T::V> {
        views(self.rows@)
    }

    pub fn new() -> (t: Self)
        ensures
            t.rows() == Seq::<T::V>::empty(),
    {
        let t = Table { rows: Vec::new() };
        assert(t.rows() =~= Seq::<T::V>::empty());
        t
    }

    /// The index of the first row with key `key`.
    fn find(&self, key: &String) -> (r: Option<usize>)
        ensures
            match r {
                Some(i) => i < self.rows@.len() && T::key_of(self.rows()[i as int]) == key@
                    && first_with_key::<T>(self.rows(), key@) == Some(self.rows()[i as int]),
                None => !has_key::<T>(self.rows(), key@) && first_with_key::<T>(self.rows(), key@) is None,
            },
    {
        let mut i: usize = 0;
        while i < self.rows.len()
            invariant
                i <= self.rows@.len(),
                forall|j: int| 0 <= j < i ==> T::key_of(#[trigger] self.rows()[j]) != key@,
            decreases self.rows.len() - i,
        {
            if self.rows[i].key_is(key) {
                proof {
                    lemma_first_with_key_at::<T>(self.rows(), key@, i as int);
                }
                return Some(i);
            }
            i = i + 1;
        }
        proof {
            lemma_first_with_key_absent::<T>(self.rows(), key@);
        }
        None
    }

    /// Appends `record` unless a row already has its key.
    pub fn insert(&mut self, record: T) -> (r: bool)
        ensures
            r == !has_key::<T>(old(self).rows(), T::key_of(record@)),
            final(self).rows() == if r {
                old(self).rows().push(record@)
            } else {
                old(self).rows()
            },
    {
        let key = record.key_string();
        match self.find(&key) {
            Some(_) => false,
            None => {
                let ghost old_rows = self.rows@;
                self.rows.push(record);
                proof {
                    crate::repositories::order::lemma_views_push(old_rows, record);
                }
                true
            },
        }
    }

    /// A copy of the first row with key `key`.
    pub fn get(&self, key: &str) -> (r: Option<T>)
        ensures
            match r {
                Some(v) => is_row_with_key::<T>(self.rows(), key@, v@) && first_with_key::<T>(
                    self.rows(),
                    key@,
                ) == Some(v@),
                None => !has_key::<T>(self.rows(), key@) && first_with_key::<T>(self.rows(), key@) is None,
            },
    {
        let k = String::from_str(key);
        match self.find(&k) {
            Some(i) => Some(self.rows[i].copy()),
            None => None,
        }
    }

    /// Copies of all rows, newest first.
    pub fn all(&self) -> (r: Vec<T>)
        ensures
            lists::<T>(views(r@), self.rows()),
    {
        let mut out: Vec<T> = Vec::new();
        let mut i: usize = 0;
        while i < self.rows.len()
            invariant
                i <= self.rows@.len(),
                out@.len() == i,
                forall|j: int| 0 <= j < i ==> #[trigger] out@[j]@ == self.rows@[j]@,
            decreases self.rows.len() - i,
        {
            out.push(self.rows[i].copy());
            i = i + 1;
        }
        assert(views(out@) =~= self.rows());
        sort_newest_first(out)
    }

    /// Copies of the rows belonging to `parent`, in insertion order.
    fn children_in_order(&self, parent: &str) -> (r: Vec<T>)
        ensures
            views(r@) == children::<T>(self.rows(), parent@),
    {
        let p = String::from_str(parent);
        let mut out: Vec<T> = Vec::new();
        let mut i: usize = 0;
        while i < self.rows.len()
            invariant
                i <= self.rows@.len(),
                p@ == parent@,
                views(out@) == children::<T>(self.rows().take(i as int), parent@),
            decreases self.rows.len() - i,
        {
            proof {
                lemma_take_push(self.rows(), i as int);
            }
            let ghost before = out@;
            if self.rows[i].parent_is(&p) {
                let c = self.rows[i].copy();
                out.push(c);
                proof {
                    crate::repositories::order::lemma_views_push(before, c);
                }
            }
            i = i + 1;
        }
        assert(self.rows().take(i as int) =~= self.rows());
        out
    }

    /// Copies of the rows belonging to `parent`, newest first.
    pub fn children_of(&self, parent: &str) -> (r: Vec<T>)
        ensures
            lists::<T>(views(r@), children::<T>(self.rows(), parent@)),
    {
        let v = self.children_in_order(parent);
        sort_newest_first(v)
    }

    /// A copy of the row belonging to `parent` stamped latest; among equal
    /// stamps, the one stored last.
    pub fn newest_child(&self, parent: &str) -> (r: Option<T>)
        ensures
            match r {
                Some(v) => is_newest::<T>(children::<T>(self.rows(), parent@), v@),
                None => children::<T>(self.rows(), parent@).len() == 0,
            },
    {
        let v = self.children_in_order(parent);
        if v.len() == 0 {
            return None;
        }
        let mut best: usize = 0;
        let mut best_stamp = v[0].stamp();
        let mut k: usize = 1;
        while k < v.len()
            invariant
                0 < v@.len(),
                best < k <= v@.len(),
                best_stamp == T::stamp_of(v@[best as int]@),
                forall|j: int| 0 <= j < k ==> T::stamp_of(#[trigger] views(v@)[j]) <= best_stamp,
            decreases v.len() - k,
        {
            let s = v[k].stamp();
            if s >= best_stamp {
                best = k;
                best_stamp = s;
            }
            k = k + 1;
        }
        let r = v[best].copy();
        assert(views(v@)[best as int] == r@);
        Some(r)
    }

    /// Overwrites every row having `incoming`'s key; whether one existed.
    pub fn overwrite(&mut self, incoming: &T) -> (r: bool)
        ensures
            r == has_key::<T>(old(self).rows(), T::key_of(incoming@)),
            final(self).rows() == overwritten_rows::<T>(old(self).rows(), incoming@),
    {
        let key = incoming.key_string();
        let mut out: Vec<T> = Vec::new();
        let mut found = false;
        let mut i: usize = 0;
        while i < self.rows.len()
            invariant
                i <= self.rows@.len(),
                key@ == T::key_of(incoming@),
                out@.len() == i,
                forall|j: int|
                    0 <= j < i ==> #[trigger] out@[j]@ == (if T::key_of(self.rows()[j]) == key@ {
                        T::overwritten(self.rows()[j], incoming@)
                    } else {
                        self.rows()[j]
                    }),
                found == exists|j: int| 0 <= j < i && T::key_of(#[trigger] self.rows()[j]) == key@,
            decreases self.rows.len() - i,
        {
            if self.rows[i].key_is(&key) {
                out.push(self.rows[i].overwrite(incoming));
                found = true;
            } else {
                out.push(self.rows[i].copy());
            }
            proof {
                if T::key_of(self.rows()[i as int]) == key@ {
                    assert(T::key_of(self.rows()[i as int]) == key@);
                }
                assert(found == exists|j: int|
                    0 <= j < i + 1 && T::key_of(#[trigger] self.rows()[j]) == key@) by {
                    if exists|j: int| 0 <= j < i + 1 && T::key_of(#[trigger] self.rows()[j]) == key@ {
                        let j = choose|j: int| 0 <= j < i + 1 && T::key_of(#[trigger] self.rows()[j]) == key@;
                        if j < i {
                            assert(T::key_of(self.rows()[j]) == key@);
                        }
                    }
                }
            }
            i = i + 1;
        }
        let ghost old_rows = self.rows();
        self.rows = out;
        assert(self.rows() =~= overwritten_rows::<T>(old_rows, incoming@));
        found
    }

    /// Removes every row with key `key`; whether one existed.
    pub fn remove(&mut self, key: &str) -> (r: bool)
        ensures
            r == has_key::<T>(old(self).rows(), key@),
            final(self).rows() == without_key::<T>(old(self).rows(), key@),
    {
        let k = String::from_str(key);
        let found = self.find(&k).is_some();
        let mut out: Vec<T> = Vec::new();
        let mut i: usize = 0;
        while i < self.rows.len()
            invariant
                i <= self.rows@.len(),
                k@ == key@,
                views(out@) == without_key::<T>(self.rows().take(i as int), key@),
            decreases self.rows.len() - i,
        {
            proof {
                lemma_take_push(self.rows(), i as int);
            }
            let ghost before = out@;
            if !self.rows[i].key_is(&k) {
                let c = self.rows[i].copy();
                out.push(c);
                proof {
                    crate::repositories::order::lemma_views_push(before, c);
                }
            }
            i = i + 1;
        }
        assert(self.rows().take(i as int) =~= self.rows());
        self.rows = out;
        found
    }

    /// The keys of all rows, in order.
    pub fn keys(&self) -> (r: Vec<String>)
        ensures
            r@.len() == self.rows().len(),
            forall|i: int| 0 <= i < r@.len() ==> #[trigger] r@[i]@ == T::key_of(self.rows()[i]),
    {
        let mut out: Vec<String> = Vec::new();
        let mut i: usize = 0;
        while i < self.rows.len()
            invariant
                i <= self.rows@.len(),
                out@.len() == i,
                forall|j: int| 0 <= j < i ==> #[trigger] out@[j]@ == T::key_of(self.rows()[j]),
            decreases self.rows.len() - i,
        {
            out.push(self.rows[i].key_string());
            i = i + 1;
        }
        out
    }
}

} // verus!
