//! Lists of reported items: dropping repeats that follow each other, and
//! ordering by name, as `Vec::dedup` and a stable sort by name do.

use vstd::prelude::*;
use vstd::string::*;

use crate::order::{compare_str, lemma_seq_lt_irreflexive, lemma_seq_lt_transitive, lemma_seq_lt_trichotomy, seq_lt};

verus! {

broadcast use vstd::seq_lib::group_to_multiset_ensures;

/// An item that is listed by its name.
pub trait Listed: Sized {
    /// The name the item is listed by.
    spec fn name_view(&self) -> Seq<char>;

    /// Whether two items are the same item.
    spec fn same_as(&self, other: &Self) -> bool;

    /// The name the item is listed by
    fn name(&self) -> (s: &str)
        ensures
            s@ == self.name_view(),
    ;

    /// Whether two items are the same item
    fn is_same(&self, other: &Self) -> (b: bool)
        ensures
            b == self.same_as(other),
    ;
}

/// What `Vec::dedup` leaves of a sequence: each item that is the same as the
/// last one kept is dropped.
pub open spec fn deduped<T: Listed>(s: Seq<T>) -> Seq<T>
    decreases s.len(),
{
    if s.len() == 0 {
        s
    } else {
        let kept = deduped(s.drop_last());
        if kept.len() > 0 && s.last().same_as(&kept.last()) {
            kept
        } else {
            kept.push(s.last())
        }
    }
}

/// Each item kept is one of the items, and no kept item is the same as the
/// one kept before it.
pub proof fn lemma_deduped_kept<T: Listed>(s: Seq<T>)
    ensures
        forall|x: T| deduped(s).contains(x) ==> s.contains(x),
        forall|i: int| 0 < i < deduped(s).len() ==> !(#[trigger] deduped(s)[i]).same_as(&deduped(s)[i - 1]),
    decreases s.len(),
{
    if s.len() > 0 {
        lemma_deduped_kept(s.drop_last());
        let kept = deduped(s.drop_last());
        assert forall|x: T| deduped(s).contains(x) implies s.contains(x) by {
            if kept.contains(x) {
                assert(s.drop_last().contains(x));
                let k = choose|k: int| 0 <= k < s.drop_last().len() && s.drop_last()[k] == x;
                assert(s[k] == x);
            } else {
                assert(x == s.last());
                assert(s[s.len() - 1] == x);
            }
        }
    }
}

/// Drop each item that is the same as the last one kept
pub fn dedup<T: Listed>(items: Vec<T>) -> (kept: Vec<T>)
    ensures
        kept@ == deduped(items@),
{
    let ghost all = items@;
    let mut kept: Vec<T> = Vec::new();
    proof {
        assert(all.take(0) =~= Seq::<T>::empty());
    }
    for x in it: items.into_iter()
        invariant
            it.seq() == all,
            kept@ == deduped(all.take(it.index() as int)),
    {
        let ghost i = it.index() as int;
        proof {
            assert(all.take(i + 1).drop_last() =~= all.take(i));
            assert(all.take(i + 1).last() == x);
        }
        let n = kept.len();
        if n > 0 && x.is_same(&kept[n - 1]) {
        } else {
            kept.push(x);
        }
    }
    proof {
        assert(all.take(all.len() as int) =~= all);
    }
    kept
}

/// `a` comes strictly before `b` in an ascending, or a descending, order of names.
pub open spec fn name_before(a: Seq<char>, b: Seq<char>, descending: bool) -> bool {
    if descending {
        seq_lt(b, a)
    } else {
        seq_lt(a, b)
    }
}

/// No name comes before itself.
pub proof fn lemma_name_before_irreflexive(a: Seq<char>, descending: bool)
    ensures
        !name_before(a, a, descending),
{
    lemma_seq_lt_irreflexive(a);
}

/// Coming before is transitive.
pub proof fn lemma_name_before_transitive(a: Seq<char>, b: Seq<char>, c: Seq<char>, descending: bool)
    requires
        name_before(a, b, descending),
        name_before(b, c, descending),
    ensures
        name_before(a, c, descending),
{
    if descending {
        lemma_seq_lt_transitive(c, b, a);
    } else {
        lemma_seq_lt_transitive(a, b, c);
    }
}

/// Of two names, one comes before the other, or they are equal.
pub proof fn lemma_name_before_trichotomy(a: Seq<char>, b: Seq<char>, descending: bool)
    ensures
        name_before(a, b, descending) || a == b || name_before(b, a, descending),
{
    lemma_seq_lt_trichotomy(a, b);
}

/// No item comes strictly before one that precedes it.
pub open spec fn sorted_by_name<T: Listed>(s: Seq<T>, descending: bool) -> bool {
    forall|i: int, j: int|
        0 <= i < j < s.len() ==> !name_before(
            #[trigger] s[j].name_view(),
            #[trigger] s[i].name_view(),
            descending,
        )
}

/// `sorted` holds the items at the positions `from` gives, and items of one
/// name stand in the order they had among the items.
pub open spec fn arranged_from<T: Listed>(items: Seq<T>, sorted: Seq<T>, from: Seq<int>) -> bool {
    &&& from.len() == sorted.len()
    &&& forall|k: int| 0 <= k < from.len() ==> 0 <= #[trigger] from[k] < items.len() && sorted[k] == items[from[k]]
    &&& forall|k: int, l: int|
        0 <= k < l < from.len() && (#[trigger] sorted[k]).name_view() == (#[trigger] sorted[l]).name_view()
            ==> from[k] < from[l]
}

/// Putting an item before the first one it comes strictly before keeps the
/// items in order, and puts it after those of its name.
proof fn lemma_insert_in_order<T: Listed>(
    items: Seq<T>,
    sorted: Seq<T>,
    from: Seq<int>,
    x: T,
    i: int,
    p: int,
    descending: bool,
)
    requires
        0 <= p <= sorted.len(),
        0 <= i < items.len(),
        items[i] == x,
        sorted_by_name(sorted, descending),
        arranged_from(items, sorted, from),
        forall|k: int| 0 <= k < from.len() ==> #[trigger] from[k] < i,
        forall|k: int| 0 <= k < p ==> !name_before(x.name_view(), #[trigger] sorted[k].name_view(), descending),
        p < sorted.len() ==> name_before(x.name_view(), sorted[p].name_view(), descending),
    ensures
        sorted_by_name(sorted.insert(p, x), descending),
        arranged_from(items, sorted.insert(p, x), from.insert(p, i)),
{
    let t = sorted.insert(p, x);
    let f = from.insert(p, i);
    assert forall|a: int, b: int| 0 <= a < b < t.len() implies !name_before(
        #[trigger] t[b].name_view(),
        #[trigger] t[a].name_view(),
        descending,
    ) && (t[a].name_view() == t[b].name_view() ==> f[a] < f[b]) by {
        if a < p && b == p {
            assert(t[a] == sorted[a]);
            assert(f[a] == from[a]);
            lemma_name_before_trichotomy(x.name_view(), sorted[a].name_view(), descending);
            if x.name_view() == sorted[a].name_view() {
                lemma_name_before_irreflexive(x.name_view(), descending);
            }
        } else if a == p && b > p {
            let y = sorted[b - 1];
            let q = sorted[p];
            assert(t[b] == y);
            lemma_name_before_trichotomy(y.name_view(), q.name_view(), descending);
            if p < b - 1 {
                assert(!name_before(y.name_view(), q.name_view(), descending));
            }
            if name_before(q.name_view(), y.name_view(), descending) {
                lemma_name_before_transitive(x.name_view(), q.name_view(), y.name_view(), descending);
            }
            if name_before(y.name_view(), x.name_view(), descending) {
                lemma_name_before_transitive(y.name_view(), x.name_view(), y.name_view(), descending);
                lemma_name_before_irreflexive(y.name_view(), descending);
            }
            if x.name_view() == y.name_view() {
                lemma_name_before_irreflexive(y.name_view(), descending);
            }
        } else if a < p && b > p {
            assert(t[a] == sorted[a] && f[a] == from[a]);
            assert(t[b] == sorted[b - 1] && f[b] == from[b - 1]);
        } else if a > p {
            assert(t[a] == sorted[a - 1] && f[a] == from[a - 1]);
            assert(t[b] == sorted[b - 1] && f[b] == from[b - 1]);
        } else {
            assert(t[a] == sorted[a] && f[a] == from[a]);
            assert(t[b] == sorted[b] && f[b] == from[b]);
        }
    }
    assert forall|k: int| 0 <= k < f.len() implies 0 <= #[trigger] f[k] < items.len() && t[k] == items[f[k]] by {
        if k < p {
            assert(f[k] == from[k] && t[k] == sorted[k]);
        } else if k > p {
            assert(f[k] == from[k - 1] && t[k] == sorted[k - 1]);
        }
    }
}

/// The items ordered by name, ascending or descending; items of one name keep
/// the order they came in
pub fn sort_by_name<T: Listed>(items: Vec<T>, descending: bool) -> (sorted: Vec<T>)
    ensures
        sorted@.to_multiset() == items@.to_multiset(),
        sorted_by_name(sorted@, descending),
        exists|from: Seq<int>| arranged_from(items@, sorted@, from),
{
    let ghost all = items@;
    let ghost mut from: Seq<int> = Seq::empty();
    let mut sorted: Vec<T> = Vec::new();
    proof {
        assert(all.take(0) =~= Seq::<T>::empty());
    }
    for x in it: items.into_iter()
        invariant
            it.seq() == all,
            sorted@.to_multiset() == all.take(it.index()).to_multiset(),
            sorted_by_name(sorted@, descending),
            arranged_from(all, sorted@, from),
            forall|k: int| 0 <= k < from.len() ==> #[trigger] from[k] < it.index(),
    {
        let ghost i = it.index();
        proof {
            assert(all.take(i + 1) =~= all.take(i).push(x));
        }
        let n = sorted.len();
        let mut p: usize = 0;
        while p < n && !precedes(x.name(), sorted[p].name(), descending)
            invariant
                n == sorted@.len(),
                p <= n,
                forall|k: int| 0 <= k < p ==> !name_before(x.name_view(), #[trigger] sorted@[k].name_view(), descending),
            decreases n - p,
        {
            p += 1;
        }
        let ghost old_sorted = sorted@;
        sorted.insert(p, x);
        proof {
            lemma_insert_in_order(all, old_sorted, from, x, i, p as int, descending);
            from = from.insert(p as int, i);
            assert(sorted@ == old_sorted.insert(p as int, x));
        }
    }
    proof {
        assert(all.take(all.len() as int) =~= all);
    }
    sorted
}

/// Whether the name `a` comes strictly before `b`
fn precedes(a: &str, b: &str, descending: bool) -> (r: bool)
    ensures
        r == name_before(a@, b@, descending),
{
    let c = compare_str(a, b);
    if descending {
        c > 0
    } else {
        c < 0
    }
}

} // verus!
