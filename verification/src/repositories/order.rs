//! Ordering of listed records: newest first, by a timestamp of the record.

use vstd::prelude::*;

verus! {

broadcast use vstd::seq_lib::group_to_multiset_ensures;

/// A record with the timestamp it is listed by.
pub trait Stamped: View + Sized {
    spec fn stamp_of(v: Self::V) -> i64;

    fn stamp(&self) -> (r: i64)
        ensures
            r == Self::stamp_of(self@),
    ;
}

/// The views of a sequence of records.
pub open spec fn views<T: View>(s: Seq<T>) -> Seq<T::V> {
    s.map_values(|x: T| x@)
}

/// Each record's stamp is at least that of every record after it.
pub open spec fn newest_first<T: Stamped>(s: Seq<T::V>) -> bool {
    forall|i: int, j: int| 0 <= i < j < s.len() ==> T::stamp_of(s[i]) >= T::stamp_of(s[j])
}

pub proof fn lemma_views_push<T: View>(s: Seq<T>, x: T)
    ensures
        views(s.push(x)) == views(s).push(x@),
{
    assert(views(s.push(x)) =~= views(s).push(x@));
}

pub proof fn lemma_views_remove<T: View>(s: Seq<T>, i: int)
    requires
        0 <= i < s.len(),
    ensures
        views(s.remove(i)) == views(s).remove(i),
{
    assert(views(s.remove(i)) =~= views(s).remove(i));
}

/// `v`'s records reordered newest first.
pub fn sort_newest_first<T: Stamped>(v: Vec<T>) -> (r: Vec<T>)
    ensures
        views(r@).to_multiset() == views(v@).to_multiset(),
        views(r@).len() == views(v@).len(),
        newest_first::<T>(views(r@)),
{
    let ghost original = views(v@);
    let mut rest = v;
    let mut r: Vec<T> = Vec::new();
    while rest.len() > 0
        invariant
            views(r@).to_multiset().add(views(rest@).to_multiset()) == original.to_multiset(),
            views(r@).len() + views(rest@).len() == original.len(),
            newest_first::<T>(views(r@)),
            forall|i: int, j: int|
                0 <= i < r@.len() && 0 <= j < rest@.len() ==> T::stamp_of(#[trigger] r@[i]@)
                    >= T::stamp_of(#[trigger] rest@[j]@),
        decreases rest.len(),
    {
        let mut best: usize = 0;
        let mut best_stamp = rest[0].stamp();
        let mut k: usize = 1;
        while k < rest.len()
            invariant
                0 < rest.len(),
                best < k <= rest.len(),
                best_stamp == T::stamp_of(rest@[best as int]@),
                forall|j: int| 0 <= j < k ==> T::stamp_of(#[trigger] rest@[j]@) <= best_stamp,
            decreases rest.len() - k,
        {
            let s = rest[k].stamp();
            if s > best_stamp {
                best = k;
                best_stamp = s;
            }
            k = k + 1;
        }
        let ghost old_rest = rest@;
        let ghost old_r = r@;
        let x = rest.remove(best);
        proof {
            lemma_views_remove(old_rest, best as int);
            assert(views(old_rest)[best as int] == x@);
            assert(views(old_rest).remove(best as int).to_multiset() =~= views(
                old_rest,
            ).to_multiset().remove(x@));
        }
        r.push(x);
        proof {
            lemma_views_push(old_r, x);
            assert(views(r@).to_multiset() =~= views(old_r).to_multiset().insert(x@));
            assert(views(old_rest).to_multiset().count(x@) > 0) by {
                assert(views(old_rest).contains(x@)) by {
                    assert(views(old_rest)[best as int] == x@);
                }
            }
            assert(views(r@).to_multiset().add(views(rest@).to_multiset()) =~= original.to_multiset());
            assert forall|i: int, j: int| 0 <= i < j < views(r@).len() implies T::stamp_of(
                views(r@)[i],
            ) >= T::stamp_of(views(r@)[j]) by {
                if j == views(r@).len() - 1 {
                    assert(old_r[i]@ == views(r@)[i]);
                    assert(T::stamp_of(old_r[i]@) >= T::stamp_of(old_rest[best as int]@));
                } else {
                    assert(views(old_r)[i] == views(r@)[i]);
                    assert(views(old_r)[j] == views(r@)[j]);
                }
            }
            assert forall|i: int, j: int|
                0 <= i < r@.len() && 0 <= j < rest@.len() implies T::stamp_of(#[trigger] r@[i]@)
                >= T::stamp_of(#[trigger] rest@[j]@) by {
                let jj = if j < best { j } else { j + 1 };
                assert(rest@[j] == old_rest[jj]);
                if i < old_r.len() {
                    assert(r@[i] == old_r[i]);
                }
            }
        }
    }
    r
}

} // verus!
