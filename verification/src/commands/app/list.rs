//! Listing installed apps: the orders the list can be sorted in.

use vstd::prelude::*;
use vstd::string::*;

use crate::listing::{lemma_name_before_transitive, name_before};
use crate::order::{compare_str, lemma_seq_lt_irreflexive, lemma_seq_lt_trichotomy, seq_lt};

verus! {

broadcast use vstd::seq_lib::group_to_multiset_ensures;

/// An installed app, as the list shows it
#[derive(Debug, Clone)]
pub struct Info {
    pub name: String,
    pub version: String,
    pub source: String,
    pub updated: String,
    pub notes: String,
}

/// The fields the list can be sorted by
#[derive(Debug, Copy, Clone, PartialEq, Eq, Structural)]
pub enum SortBy {
    Name,
    Version,
    Source,
    Updated,
    Notes,
}

/// The lowercase form of a string, as `str::to_lowercase` gives it.
pub uninterp spec fn lowercase(s: Seq<char>) -> Seq<char>;

/// `str::to_lowercase`: the lowercase form of the string, which `lowercase` names.
#[verifier::external_body]
fn to_lowercase(s: &str) -> (r: String)
    ensures
        r@ == lowercase(s@),
{
    s.to_lowercase()
}

/// How two strings compare in the order of `Ord` for strings.
pub open spec fn order_of(a: Seq<char>, b: Seq<char>) -> std::cmp::Ordering {
    if seq_lt(a, b) {
        std::cmp::Ordering::Less
    } else if a == b {
        std::cmp::Ordering::Equal
    } else {
        std::cmp::Ordering::Greater
    }
}

/// The opposite of an ordering.
pub open spec fn reversed(o: std::cmp::Ordering) -> std::cmp::Ordering {
    match o {
        std::cmp::Ordering::Less => std::cmp::Ordering::Greater,
        std::cmp::Ordering::Equal => std::cmp::Ordering::Equal,
        std::cmp::Ordering::Greater => std::cmp::Ordering::Less,
    }
}

/// How two strings compare
fn order_str(a: &str, b: &str) -> (o: std::cmp::Ordering)
    ensures
        o == order_of(a@, b@),
{
    let c = compare_str(a, b);
    if c < 0 {
        std::cmp::Ordering::Less
    } else if c == 0 {
        std::cmp::Ordering::Equal
    } else {
        std::cmp::Ordering::Greater
    }
}

impl SortBy {
    /// How two apps compare on the field: names without regard to case, the
    /// other fields as strings.
    pub open spec fn field_order(self, a: Info, b: Info) -> std::cmp::Ordering {
        match self {
            SortBy::Name => order_of(lowercase(a.name@), lowercase(b.name@)),
            SortBy::Version => order_of(a.version@, b.version@),
            SortBy::Source => order_of(a.source@, b.source@),
            SortBy::Updated => order_of(a.updated@, b.updated@),
            SortBy::Notes => order_of(a.notes@, b.notes@),
        }
    }

    /// What the list compares of an app: its name in lowercase, or the field
    /// as it stands.
    pub open spec fn sort_key(self, a: Info) -> Seq<char> {
        match self {
            SortBy::Name => lowercase(a.name@),
            SortBy::Version => a.version@,
            SortBy::Source => a.source@,
            SortBy::Updated => a.updated@,
            SortBy::Notes => a.notes@,
        }
    }

    /// How two apps are ordered in the list: by the field, reversed when
    /// `descending` is set.
    pub open spec fn list_order(self, a: Info, b: Info, descending: bool) -> std::cmp::Ordering {
        if descending {
            reversed(self.field_order(a, b))
        } else {
            self.field_order(a, b)
        }
    }

    /// How two apps are ordered in the list: by the field, reversed when
    /// `descending` is set
    pub fn sort(self, a: &Info, b: &Info, descending: bool) -> (o: std::cmp::Ordering)
        ensures
            o == self.list_order(*a, *b, descending),
    {
        let ordering = match self {
            SortBy::Name => {
                let x = to_lowercase(a.name.as_str());
                let y = to_lowercase(b.name.as_str());
                order_str(x.as_str(), y.as_str())
            },
            SortBy::Version => order_str(a.version.as_str(), b.version.as_str()),
            SortBy::Source => order_str(a.source.as_str(), b.source.as_str()),
            SortBy::Updated => order_str(a.updated.as_str(), b.updated.as_str()),
            SortBy::Notes => order_str(a.notes.as_str(), b.notes.as_str()),
        };
        if descending {
            match ordering {
                std::cmp::Ordering::Less => std::cmp::Ordering::Greater,
                std::cmp::Ordering::Equal => std::cmp::Ordering::Equal,
                std::cmp::Ordering::Greater => std::cmp::Ordering::Less,
            }
        } else {
            ordering
        }
    }
}

/// Comparing strings puts `x` first exactly when it sorts first, and ties
/// exactly when they are equal.
proof fn lemma_order_of_meaning(x: Seq<char>, y: Seq<char>)
    ensures
        (order_of(x, y) == std::cmp::Ordering::Less) == seq_lt(x, y),
        (order_of(x, y) == std::cmp::Ordering::Equal) == (x == y),
{
    crate::order::lemma_seq_lt_irreflexive(x);
}

/// Sorting by a field compares that field and nothing else: by name the
/// names regardless of case, by version, source, update time or notes those
/// strings. The list keeps that order, and reverses it when `descending` is
/// set.
pub proof fn lemma_sort_by_field(a: Info, b: Info, descending: bool)
    ensures
        (SortBy::Name.field_order(a, b) == std::cmp::Ordering::Less) == seq_lt(lowercase(a.name@), lowercase(b.name@)),
        (SortBy::Name.field_order(a, b) == std::cmp::Ordering::Equal) == (lowercase(a.name@) == lowercase(b.name@)),
        (SortBy::Version.field_order(a, b) == std::cmp::Ordering::Less) == seq_lt(a.version@, b.version@),
        (SortBy::Version.field_order(a, b) == std::cmp::Ordering::Equal) == (a.version@ == b.version@),
        (SortBy::Source.field_order(a, b) == std::cmp::Ordering::Less) == seq_lt(a.source@, b.source@),
        (SortBy::Source.field_order(a, b) == std::cmp::Ordering::Equal) == (a.source@ == b.source@),
        (SortBy::Updated.field_order(a, b) == std::cmp::Ordering::Less) == seq_lt(a.updated@, b.updated@),
        (SortBy::Updated.field_order(a, b) == std::cmp::Ordering::Equal) == (a.updated@ == b.updated@),
        (SortBy::Notes.field_order(a, b) == std::cmp::Ordering::Less) == seq_lt(a.notes@, b.notes@),
        (SortBy::Notes.field_order(a, b) == std::cmp::Ordering::Equal) == (a.notes@ == b.notes@),
        forall|by: SortBy| #[trigger] by.list_order(a, b, false) == by.field_order(a, b),
        forall|by: SortBy| #[trigger] by.list_order(a, b, true) == reversed(by.field_order(a, b)),
        forall|by: SortBy|
            (#[trigger] by.list_order(a, b, true) == std::cmp::Ordering::Less) == (by.field_order(a, b)
                == std::cmp::Ordering::Greater) && (by.list_order(a, b, true) == std::cmp::Ordering::Greater) == (
            by.field_order(a, b) == std::cmp::Ordering::Less) && (by.list_order(a, b, true)
                == std::cmp::Ordering::Equal) == (by.field_order(a, b) == std::cmp::Ordering::Equal),
{
    lemma_order_of_meaning(lowercase(a.name@), lowercase(b.name@));
    lemma_order_of_meaning(a.version@, b.version@);
    lemma_order_of_meaning(a.source@, b.source@);
    lemma_order_of_meaning(a.updated@, b.updated@);
    lemma_order_of_meaning(a.notes@, b.notes@);
}

/// Swapping two strings reverses how they compare.
pub proof fn lemma_order_of_antisymmetric(a: Seq<char>, b: Seq<char>)
    ensures
        order_of(a, b) == reversed(order_of(b, a)),
{
    crate::order::lemma_seq_lt_trichotomy(a, b);
    crate::order::lemma_seq_lt_irreflexive(a);
    if seq_lt(a, b) && seq_lt(b, a) {
        crate::order::lemma_seq_lt_transitive(a, b, a);
    }
}

/// Swapping two apps reverses how the list orders them, in either direction.
pub proof fn lemma_sort_antisymmetric(by: SortBy, a: Info, b: Info)
    ensures
        by.field_order(a, b) == reversed(by.field_order(b, a)),
{
    match by {
        SortBy::Name => lemma_order_of_antisymmetric(lowercase(a.name@), lowercase(b.name@)),
        SortBy::Version => lemma_order_of_antisymmetric(a.version@, b.version@),
        SortBy::Source => lemma_order_of_antisymmetric(a.source@, b.source@),
        SortBy::Updated => lemma_order_of_antisymmetric(a.updated@, b.updated@),
        SortBy::Notes => lemma_order_of_antisymmetric(a.notes@, b.notes@),
    }
}

/// An app comes first in the list exactly when its key comes before the
/// other's, in descending order of keys when `descending` is set; it ties
/// exactly when the keys are equal.
pub proof fn lemma_list_order_keys(by: SortBy, a: Info, b: Info, descending: bool)
    ensures
        (by.list_order(a, b, descending) == std::cmp::Ordering::Less) == name_before(
            by.sort_key(a),
            by.sort_key(b),
            descending,
        ),
        (by.list_order(a, b, descending) == std::cmp::Ordering::Equal) == (by.sort_key(a) == by.sort_key(b)),
{
    lemma_seq_lt_trichotomy(by.sort_key(a), by.sort_key(b));
    lemma_seq_lt_irreflexive(by.sort_key(a));
    if seq_lt(by.sort_key(a), by.sort_key(b)) && seq_lt(by.sort_key(b), by.sort_key(a)) {
        crate::order::lemma_seq_lt_transitive(by.sort_key(a), by.sort_key(b), by.sort_key(a));
    }
}

impl SortBy {
    /// The list puts `a` strictly before `b`.
    pub open spec fn list_before(self, a: Info, b: Info, descending: bool) -> bool {
        self.list_order(a, b, descending) == std::cmp::Ordering::Less
    }

    /// The list puts `a` strictly after `b`.
    pub open spec fn list_after(self, a: Info, b: Info, descending: bool) -> bool {
        self.list_order(a, b, descending) == std::cmp::Ordering::Greater
    }
}

/// No app comes after one that the list orders after it.
pub open spec fn list_sorted(s: Seq<Info>, by: SortBy, descending: bool) -> bool {
    forall|i: int, j: int|
        0 <= i < j < s.len() ==> !by.list_after(#[trigger] s[i], #[trigger] s[j], descending)
}

/// Whether the list puts `a` strictly before `b`
fn comes_first(by: SortBy, a: &Info, b: &Info, descending: bool) -> (r: bool)
    ensures
        r == by.list_before(*a, *b, descending),
{
    is_less(by.sort(a, b, descending))
}

/// The apps in the order of the list
pub fn sort_list(infos: Vec<Info>, by: SortBy, descending: bool) -> (sorted: Vec<Info>)
    ensures
        sorted@.to_multiset() == infos@.to_multiset(),
        list_sorted(sorted@, by, descending),
{
    let ghost all = infos@;
    let mut sorted: Vec<Info> = Vec::new();
    proof {
        assert(all.take(0) =~= Seq::<Info>::empty());
    }
    for x in it: infos.into_iter()
        invariant
            it.seq() == all,
            sorted@.to_multiset() == all.take(it.index()).to_multiset(),
            list_sorted(sorted@, by, descending),
    {
        let ghost i = it.index();
        proof {
            assert(all.take(i + 1) =~= all.take(i).push(x));
        }
        let n = sorted.len();
        let mut p: usize = 0;
        while p < n && !comes_first(by, &x, &sorted[p], descending)
            invariant
                n == sorted@.len(),
                p <= n,
                forall|k: int| 0 <= k < p ==> !by.list_before(x, #[trigger] sorted@[k], descending),
            decreases n - p,
        {
            p += 1;
        }
        let ghost old_sorted = sorted@;
        sorted.insert(p, x);
        proof {
            lemma_insert_keeps_sorted(old_sorted, x, p as int, by, descending);
            assert(sorted@ == old_sorted.insert(p as int, x));
        }
    }
    proof {
        assert(all.take(all.len() as int) =~= all);
    }
    sorted
}

/// Whether an ordering is `Less`
fn is_less(o: std::cmp::Ordering) -> (b: bool)
    ensures
        b == (o == std::cmp::Ordering::Less),
{
    match o {
        std::cmp::Ordering::Less => true,
        _ => false,
    }
}

/// Putting an app before the first one it comes before keeps the list in order.
proof fn lemma_insert_keeps_sorted(s: Seq<Info>, x: Info, p: int, by: SortBy, descending: bool)
    requires
        0 <= p <= s.len(),
        list_sorted(s, by, descending),
        forall|k: int| 0 <= k < p ==> !by.list_before(x, #[trigger] s[k], descending),
        p < s.len() ==> by.list_before(x, s[p], descending),
    ensures
        list_sorted(s.insert(p, x), by, descending),
{
    let t = s.insert(p, x);
    assert forall|a: int, b: int| 0 <= a < b < t.len() implies !by.list_after(
        #[trigger] t[a],
        #[trigger] t[b],
        descending,
    ) by {
        if a < p && b == p {
            lemma_list_order_keys(by, x, s[a], descending);
            lemma_list_order_keys(by, s[a], x, descending);
            lemma_sort_antisymmetric(by, s[a], x);
        } else if a == p && b > p {
            let y = s[b - 1];
            let q = s[p];
            lemma_list_order_keys(by, x, q, descending);
            lemma_list_order_keys(by, q, y, descending);
            lemma_list_order_keys(by, x, y, descending);
            lemma_sort_antisymmetric(by, q, y);
            if b - 1 > p {
                assert(!by.list_after(q, y, descending));
            }
            if name_before(by.sort_key(q), by.sort_key(y), descending) {
                lemma_name_before_transitive(by.sort_key(x), by.sort_key(q), by.sort_key(y), descending);
            }
        } else if a < p && b > p {
            assert(t[a] == s[a]);
            assert(t[b] == s[b - 1]);
        } else if a > p {
            assert(t[a] == s[a - 1]);
            assert(t[b] == s[b - 1]);
        } else {
            assert(t[a] == s[a]);
            assert(t[b] == s[b]);
        }
    }
}

} // verus!
