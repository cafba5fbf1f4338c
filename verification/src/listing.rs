//! The order in which lists are answered: most recently updated first, and among
//! rows updated at the same instant, the highest id first.

use vstd::prelude::*;

verus! {

broadcast use vstd::seq_lib::group_to_multiset_ensures, vstd::multiset::group_multiset_axioms;

/// An instant, as seconds since the Unix epoch and the nanoseconds within that second.
#[derive(Clone, Copy, Debug, PartialEq, Eq, Structural)]
pub struct Timestamp {
    pub secs: i64,
    pub nanos: u32,
}

/// The key by which a row is listed: when it was last updated, then its id.
pub type Rank = (i64, u32, i64);

/// Whether a row of rank `a` may be listed before a row of rank `b`: it was updated
/// later, or at the same instant with an id at least as high.
pub open spec fn listed_before(a: Rank, b: Rank) -> bool {
    ||| a.0 > b.0
    ||| a.0 == b.0 && a.1 > b.1
    ||| a.0 == b.0 && a.1 == b.1 && a.2 >= b.2
}

/// A row that lists carry.
pub trait Listed: Sized {
    /// The rank of the row, `(updated_at.secs, updated_at.nanos, id)`.
    spec fn spec_rank(&self) -> Rank;

    /// Computes the rank of the row.
    fn rank(&self) -> (r: Rank)
        ensures
            r == self.spec_rank(),
    ;
}

/// Whether `s` is ordered most recently updated first, ties broken by the highest id.
pub open spec fn newest_first<T: Listed>(s: Seq<T>) -> bool {
    forall|i: int, j: int|
        0 <= i < j < s.len() ==> listed_before(#[trigger] s[i].spec_rank(), #[trigger] s[j].spec_rank())
}

/// Whether no two rows of `s` share a rank unless they are the same row: ids are unique.
pub open spec fn ranks_identify<T: Listed>(s: Seq<T>) -> bool {
    forall|i: int, j: int|
        0 <= i < s.len() && 0 <= j < s.len() && #[trigger] s[i].spec_rank()
            == #[trigger] s[j].spec_rank() ==> s[i] == s[j]
}

/// A list is determined by its rows: two lists that hold the same rows, both newest
/// first, are the same list when rows of the same rank are the same row.
pub proof fn newest_first_is_unique<T: Listed>(a: Seq<T>, b: Seq<T>)
    requires
        newest_first(a),
        newest_first(b),
        a.to_multiset() == b.to_multiset(),
        ranks_identify(a),
    ensures
        a == b,
    decreases a.len(),
{
    a.to_multiset_ensures();
    b.to_multiset_ensures();
    if a.len() > 0 {
        let x = a[0];
        let y = b[0];
        assert(a.to_multiset().count(x) > 0);
        assert(b.contains(x));
        let k = choose|k: int| 0 <= k < b.len() && b[k] == x;
        assert(b.to_multiset().count(y) > 0);
        assert(a.contains(y));
        let m = choose|m: int| 0 <= m < a.len() && a[m] == y;
        if k > 0 {
            assert(listed_before(b[0].spec_rank(), b[k].spec_rank()));
        }
        if m > 0 {
            assert(listed_before(a[0].spec_rank(), a[m].spec_rank()));
        }
        assert(a[0].spec_rank() == a[m].spec_rank());
        assert(x == y);
        assert(a.remove(0) =~= a.drop_first());
        assert(b.remove(0) =~= b.drop_first());
        vstd::seq_lib::to_multiset_remove(a, 0);
        vstd::seq_lib::to_multiset_remove(b, 0);
        let a1 = a.drop_first();
        let b1 = b.drop_first();
        assert forall|i: int, j: int| 0 <= i < j < a1.len() implies listed_before(
            #[trigger] a1[i].spec_rank(),
            #[trigger] a1[j].spec_rank(),
        ) by {
            assert(a1[i] == a[i + 1] && a1[j] == a[j + 1]);
        }
        assert forall|i: int, j: int| 0 <= i < j < b1.len() implies listed_before(
            #[trigger] b1[i].spec_rank(),
            #[trigger] b1[j].spec_rank(),
        ) by {
            assert(b1[i] == b[i + 1] && b1[j] == b[j + 1]);
        }
        assert forall|i: int, j: int|
            0 <= i < a1.len() && 0 <= j < a1.len() && #[trigger] a1[i].spec_rank()
                == #[trigger] a1[j].spec_rank() implies a1[i] == a1[j] by {
            assert(a1[i] == a[i + 1] && a1[j] == a[j + 1]);
        }
        newest_first_is_unique(a1, b1);
        assert(a =~= b) by {
            assert forall|i: int| 0 <= i < a.len() implies a[i] == b[i] by {
                if i > 0 {
                    assert(a[i] == a1[i - 1] && b[i] == b1[i - 1]);
                }
            }
        }
    } else {
        assert(a =~= b);
    }
}

/// Whether `a` is listed before `b`, computed on their ranks.
pub fn rank_listed_before(a: Rank, b: Rank) -> (r: bool)
    ensures
        r == listed_before(a, b),
{
    a.0 > b.0 || (a.0 == b.0 && a.1 > b.1) || (a.0 == b.0 && a.1 == b.1 && a.2 >= b.2)
}

/// Puts `item` into the list `sorted`, which stays ordered newest first.
pub fn insert_newest_first<T: Listed>(sorted: &mut Vec<T>, item: T)
    requires
        newest_first(old(sorted)@),
    ensures
        newest_first(final(sorted)@),
        final(sorted)@.to_multiset() == old(sorted)@.to_multiset().insert(item),
{
    let key = item.rank();
    let n = sorted.len();
    let mut pos: usize = 0;
    while pos < n && rank_listed_before(sorted[pos].rank(), key)
        invariant
            n == sorted@.len(),
            pos <= n,
            forall|k: int| 0 <= k < pos ==> listed_before(#[trigger] sorted@[k].spec_rank(), key),
        decreases n - pos,
    {
        pos = pos + 1;
    }
    let ghost before = sorted@;
    sorted.insert(pos, item);
    proof {
        assert(sorted@ == before.insert(pos as int, item));
        assert forall|i: int, j: int| 0 <= i < j < sorted@.len() implies listed_before(
            #[trigger] sorted@[i].spec_rank(),
            #[trigger] sorted@[j].spec_rank(),
        ) by {
            if j < pos {
                assert(sorted@[i] == before[i] && sorted@[j] == before[j]);
            } else if j == pos {
                assert(sorted@[i] == before[i]);
            } else if i == pos {
                assert(sorted@[j] == before[j - 1]);
                assert(listed_before(key, before[pos as int].spec_rank()));
                if j - 1 > pos {
                    assert(listed_before(before[pos as int].spec_rank(), before[j - 1].spec_rank()));
                }
            } else if i < pos {
                assert(sorted@[i] == before[i] && sorted@[j] == before[j - 1]);
            } else {
                assert(sorted@[i] == before[i - 1] && sorted@[j] == before[j - 1]);
            }
        }
    }
}

} // verus!
