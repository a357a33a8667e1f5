//! Ordering of records by a rank, keeping records of equal rank in the order
//! in which they came.

use vstd::prelude::*;

verus! {

/// A record that is ordered by an integer rank read from its view.
pub trait Ranked: View + Sized {
    /// The rank of a record: a record of lower rank comes first.
    spec fn rank_of(v: Self::V) -> int;

    /// Tells whether this record has a lower rank than the other.
    fn ranks_before(&self, other: &Self) -> (before: bool)
        ensures
            before == (Self::rank_of(self@) < Self::rank_of(other@)),
    ;
}

/// The views of a list of records.
pub open spec fn views<T: View>(s: Seq<T>) -> Seq<T::V> {
    Seq::new(s.len(), |i: int| s[i]@)
}

/// Whether ranks never fall along the list.
pub open spec fn ascending<T: Ranked>(s: Seq<T::V>) -> bool {
    forall|i: int, j: int| 0 <= i < j < s.len() ==> T::rank_of(s[i]) <= T::rank_of(s[j])
}

/// The list with one more record, placed behind the last record whose rank
/// is not higher than its own.
pub open spec fn inserted<T: Ranked>(s: Seq<T::V>, x: T::V) -> Seq<T::V>
    decreases s.len(),
{
    if s.len() == 0 {
        seq![x]
    } else if T::rank_of(s.last()) <= T::rank_of(x) {
        s.push(x)
    } else {
        inserted::<T>(s.drop_last(), x).push(s.last())
    }
}

/// The list in ascending order of rank; records of equal rank keep their
/// order.
pub open spec fn ordered<T: Ranked>(s: Seq<T::V>) -> Seq<T::V>
    decreases s.len(),
{
    if s.len() == 0 {
        s
    } else {
        inserted::<T>(ordered::<T>(s.drop_last()), s.last())
    }
}

/// The records of one rank, in the order of the list.
pub open spec fn of_rank<T: Ranked>(s: Seq<T::V>, rank: int) -> Seq<T::V>
    decreases s.len(),
{
    if s.len() == 0 {
        s
    } else if T::rank_of(s.last()) == rank {
        of_rank::<T>(s.drop_last(), rank).push(s.last())
    } else {
        of_rank::<T>(s.drop_last(), rank)
    }
}

/// Where the new record goes: behind position `p` every rank is higher than
/// its own, and the record before `p`, if there is one, has no higher rank.
pub proof fn lemma_inserted_at<T: Ranked>(s: Seq<T::V>, x: T::V, p: int)
    requires
        0 <= p <= s.len(),
        forall|j: int| p <= j < s.len() ==> T::rank_of(s[j]) > T::rank_of(x),
        p > 0 ==> T::rank_of(s[p - 1]) <= T::rank_of(x),
    ensures
        inserted::<T>(s, x) == s.insert(p, x),
    decreases s.len(),
{
    if s.len() == 0 {
        assert(s.insert(p, x) =~= seq![x]);
    } else if p == s.len() {
        assert(s.insert(p, x) =~= s.push(x));
    } else {
        let rest = s.drop_last();
        lemma_inserted_at::<T>(rest, x, p);
        assert(rest.insert(p, x).push(s.last()) =~= s.insert(p, x));
    }
}

/// Inserting keeps an ascending list ascending and adds exactly the new
/// record.
pub proof fn lemma_inserted<T: Ranked>(s: Seq<T::V>, x: T::V)
    requires
        ascending::<T>(s),
    ensures
        ascending::<T>(inserted::<T>(s, x)),
        inserted::<T>(s, x).len() == s.len() + 1,
        inserted::<T>(s, x).to_multiset() == s.to_multiset().insert(x),
    decreases s.len(),
{
    broadcast use vstd::seq_lib::to_multiset_build;

    if s.len() == 0 {
        assert(s =~= Seq::<T::V>::empty());
        assert(seq![x] =~= s.push(x));
    } else if T::rank_of(s.last()) <= T::rank_of(x) {
    } else {
        let rest = s.drop_last();
        let last = s.last();
        lemma_inserted::<T>(rest, x);
        let mid = inserted::<T>(rest, x);
        let out = mid.push(last);
        assert(s =~= rest.push(last));
        assert(out.to_multiset() =~= s.to_multiset().insert(x));
        assert forall|i: int, j: int| 0 <= i < j < out.len() implies T::rank_of(out[i])
            <= T::rank_of(out[j]) by {
            if j == mid.len() {
                // every record of `mid` is `x` or a record of `rest`
                assert(mid.to_multiset().count(mid[i]) > 0) by {
                    mid.to_multiset_ensures();
                    assert(mid.contains(mid[i]));
                }
                if mid[i] != x {
                    assert(rest.to_multiset().count(mid[i]) > 0);
                    rest.to_multiset_ensures();
                    assert(rest.contains(mid[i]));
                    let k = choose|k: int| 0 <= k < rest.len() && rest[k] == mid[i];
                    assert(T::rank_of(s[k]) <= T::rank_of(s[s.len() - 1]));
                }
            }
        }
    }
}

/// The ordered list is ascending and holds the same records as the list.
pub proof fn lemma_ordered<T: Ranked>(s: Seq<T::V>)
    ensures
        ascending::<T>(ordered::<T>(s)),
        ordered::<T>(s).len() == s.len(),
        ordered::<T>(s).to_multiset() == s.to_multiset(),
    decreases s.len(),
{
    broadcast use vstd::seq_lib::to_multiset_build;

    if s.len() > 0 {
        lemma_ordered::<T>(s.drop_last());
        lemma_inserted::<T>(ordered::<T>(s.drop_last()), s.last());
        assert(s =~= s.drop_last().push(s.last()));
    }
}

/// The records of one rank in a list with one more record at its end.
pub proof fn lemma_of_rank_push<T: Ranked>(s: Seq<T::V>, x: T::V, rank: int)
    ensures
        of_rank::<T>(s.push(x), rank) == if T::rank_of(x) == rank {
            of_rank::<T>(s, rank).push(x)
        } else {
            of_rank::<T>(s, rank)
        },
{
    assert(s.push(x).drop_last() =~= s);
    assert(s.push(x).last() == x);
}

/// Among the records of one rank, the new record comes last.
pub proof fn lemma_inserted_stable<T: Ranked>(s: Seq<T::V>, x: T::V, rank: int)
    ensures
        of_rank::<T>(inserted::<T>(s, x), rank) == of_rank::<T>(s.push(x), rank),
    decreases s.len(),
{
    if s.len() == 0 {
        assert(seq![x] =~= s.push(x));
    } else if T::rank_of(s.last()) <= T::rank_of(x) {
    } else {
        let rest = s.drop_last();
        let last = s.last();
        let mid = inserted::<T>(rest, x);
        assert(s =~= rest.push(last));
        lemma_inserted_stable::<T>(rest, x, rank);
        lemma_of_rank_push::<T>(mid, last, rank);
        lemma_of_rank_push::<T>(rest, x, rank);
        lemma_of_rank_push::<T>(rest, last, rank);
        lemma_of_rank_push::<T>(s, x, rank);
    }
}

/// Ordering is stable: the records of one rank come in the order in which
/// they came in the list.
pub proof fn lemma_ordered_stable<T: Ranked>(s: Seq<T::V>, rank: int)
    ensures
        of_rank::<T>(ordered::<T>(s), rank) == of_rank::<T>(s, rank),
    decreases s.len(),
{
    if s.len() > 0 {
        let rest = s.drop_last();
        let sorted = ordered::<T>(rest);
        assert(s =~= rest.push(s.last()));
        lemma_ordered_stable::<T>(rest, rank);
        lemma_inserted_stable::<T>(sorted, s.last(), rank);
        lemma_of_rank_push::<T>(sorted, s.last(), rank);
        lemma_of_rank_push::<T>(rest, s.last(), rank);
    }
}

/// Ordering a list that is ascending already changes nothing.
pub proof fn lemma_ordered_fixed<T: Ranked>(s: Seq<T::V>)
    requires
        ascending::<T>(s),
    ensures
        ordered::<T>(s) == s,
    decreases s.len(),
{
    if s.len() > 0 {
        let rest = s.drop_last();
        lemma_ordered_fixed::<T>(rest);
        if rest.len() > 0 {
            assert(T::rank_of(s[rest.len() - 1]) <= T::rank_of(s[s.len() - 1]));
            assert(rest.last() == s[rest.len() - 1]);
        }
        assert(s =~= rest.push(s.last()));
    }
}

/// Ordering twice gives what ordering once gives.
pub proof fn lemma_ordered_idempotent<T: Ranked>(s: Seq<T::V>)
    ensures
        ordered::<T>(ordered::<T>(s)) == ordered::<T>(s),
{
    lemma_ordered::<T>(s);
    lemma_ordered_fixed::<T>(ordered::<T>(s));
}

/// Puts one more record into an ascending list.
pub fn insert_ranked<T: Ranked>(out: &mut Vec<T>, x: T)
    ensures
        views(final(out)@) == inserted::<T>(views(old(out)@), x@),
{
    let ghost before = views(out@);
    let mut p: usize = out.len();
    while p > 0 && x.ranks_before(&out[p - 1])
        invariant
            p <= out.len(),
            before == views(out@),
            out@ == old(out)@,
            forall|j: int| p <= j < before.len() ==> T::rank_of(before[j]) > T::rank_of(x@),
        decreases p,
    {
        assert(before[p - 1] == out[p - 1]@);
        p -= 1;
    }
    proof {
        if p > 0 {
            assert(before[p - 1] == out[p - 1]@);
        }
        lemma_inserted_at::<T>(before, x@, p as int);
    }
    out.insert(p, x);
    proof {
        assert(views(out@) =~= before.insert(p as int, x@));
    }
}

/// Puts a list into ascending order of rank; records of equal rank keep
/// their order.
pub fn sort_ranked<T: Ranked>(list: Vec<T>) -> (sorted: Vec<T>)
    ensures
        views(sorted@) == ordered::<T>(views(list@)),
{
    let ghost all = list@;
    let mut sorted: Vec<T> = Vec::new();
    proof {
        assert(views(all.take(0)) =~= Seq::<T::V>::empty());
    }
    for x in it: list
        invariant
            it.seq() == all,
            views(sorted@) == ordered::<T>(views(all.take(it.index() as int))),
    {
        proof {
            let done = views(all.take(it.index() as int));
            let next = views(all.take(it.index() + 1));
            assert(next.drop_last() =~= done);
            assert(next.last() == x@);
        }
        insert_ranked(&mut sorted, x);
    }
    proof {
        assert(all.take(all.len() as int) =~= all);
    }
    sorted
}

} // verus!
