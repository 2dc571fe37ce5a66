//! Entries of Scoop's download cache: what their file names tell, in the
//! order they are listed.

use vstd::prelude::*;
use vstd::string::*;

use crate::commands::app::cleanup::stem_fields;
use crate::pattern::{regex_compiles, regex_is_match, Pattern};
use crate::order::{compare_str, lemma_seq_lt_irreflexive, lemma_seq_lt_transitive, lemma_seq_lt_trichotomy, seq_lt};
use crate::sizes::Size;
use crate::text::{split_once_char, strings_view};

verus! {

broadcast use vstd::seq_lib::group_to_multiset_ensures;

/// An entry of the download cache
#[derive(Debug)]
pub enum CacheEntry {
    /// A file named `name#version#hash...`
    Known { file_path: String, name: String, version: String, size: Size, hash: String },
    /// Any other file
    Loose { file_path: String, size: Size },
}

/// The error for a cache holding no entry that was asked for
#[derive(Debug, Copy, Clone, PartialEq, Eq, Structural)]
pub struct NoCacheEntries;

/// What an entry is made of: its kind (0 known, 1 loose), path, name,
/// version, size and hash, in the order that entries sort by.
pub open spec fn file_key(file_path: Seq<char>, file_name: Seq<char>, size: nat) -> (int, Seq<char>, Seq<char>, Seq<char>, nat, Seq<char>) {
    match stem_fields(file_name) {
        Ok((name, version, hash)) => (0, file_path, name, version, size, hash),
        Err(_) => (1, file_path, Seq::empty(), Seq::empty(), size, Seq::empty()),
    }
}

/// One entry's key sorts strictly before another's.
pub open spec fn key_lt(x: (int, Seq<char>, Seq<char>, Seq<char>, nat, Seq<char>), y: (int, Seq<char>, Seq<char>, Seq<char>, nat, Seq<char>)) -> bool {
    ||| x.0 < y.0
    ||| x.0 == y.0 && seq_lt(x.1, y.1)
    ||| x.0 == y.0 && x.1 == y.1 && seq_lt(x.2, y.2)
    ||| x.0 == y.0 && x.1 == y.1 && x.2 == y.2 && seq_lt(x.3, y.3)
    ||| x.0 == y.0 && x.1 == y.1 && x.2 == y.2 && x.3 == y.3 && x.4 < y.4
    ||| x.0 == y.0 && x.1 == y.1 && x.2 == y.2 && x.3 == y.3 && x.4 == y.4 && seq_lt(x.5, y.5)
}

/// No key sorts before itself.
pub proof fn lemma_key_lt_irreflexive(x: (int, Seq<char>, Seq<char>, Seq<char>, nat, Seq<char>))
    ensures
        !key_lt(x, x),
{
    lemma_seq_lt_irreflexive(x.1);
    lemma_seq_lt_irreflexive(x.2);
    lemma_seq_lt_irreflexive(x.3);
    lemma_seq_lt_irreflexive(x.5);
}

/// Sorting keys is transitive.
pub proof fn lemma_key_lt_transitive(
    x: (int, Seq<char>, Seq<char>, Seq<char>, nat, Seq<char>),
    y: (int, Seq<char>, Seq<char>, Seq<char>, nat, Seq<char>),
    z: (int, Seq<char>, Seq<char>, Seq<char>, nat, Seq<char>),
)
    requires
        key_lt(x, y),
        key_lt(y, z),
    ensures
        key_lt(x, z),
{
    if seq_lt(x.1, y.1) && seq_lt(y.1, z.1) {
        lemma_seq_lt_transitive(x.1, y.1, z.1);
    }
    if seq_lt(x.2, y.2) && seq_lt(y.2, z.2) {
        lemma_seq_lt_transitive(x.2, y.2, z.2);
    }
    if seq_lt(x.3, y.3) && seq_lt(y.3, z.3) {
        lemma_seq_lt_transitive(x.3, y.3, z.3);
    }
    if seq_lt(x.5, y.5) && seq_lt(y.5, z.5) {
        lemma_seq_lt_transitive(x.5, y.5, z.5);
    }
}

/// Of two keys, one sorts before the other, or they are equal.
pub proof fn lemma_key_lt_trichotomy(
    x: (int, Seq<char>, Seq<char>, Seq<char>, nat, Seq<char>),
    y: (int, Seq<char>, Seq<char>, Seq<char>, nat, Seq<char>),
)
    ensures
        key_lt(x, y) || x == y || key_lt(y, x),
{
    lemma_seq_lt_trichotomy(x.1, y.1);
    lemma_seq_lt_trichotomy(x.2, y.2);
    lemma_seq_lt_trichotomy(x.3, y.3);
    lemma_seq_lt_trichotomy(x.5, y.5);
}

impl CacheEntry {
    /// The path of the entry's file.
    pub open spec fn path_view(self) -> Seq<char> {
        match self {
            CacheEntry::Known { file_path, .. } => file_path@,
            CacheEntry::Loose { file_path, .. } => file_path@,
        }
    }

    /// The size of the entry's file.
    pub open spec fn size_view(self) -> Size {
        match self {
            CacheEntry::Known { size, .. } => size,
            CacheEntry::Loose { size, .. } => size,
        }
    }

    /// What the entry is made of, in the order that entries sort by.
    pub open spec fn key(self) -> (int, Seq<char>, Seq<char>, Seq<char>, nat, Seq<char>) {
        match self {
            CacheEntry::Known { file_path, name, version, size, hash } => (
                0,
                file_path@,
                name@,
                version@,
                size.spec_bytes(),
                hash@,
            ),
            CacheEntry::Loose { file_path, size } => (
                1,
                file_path@,
                Seq::empty(),
                Seq::empty(),
                size.spec_bytes(),
                Seq::empty(),
            ),
        }
    }

    /// The path of the entry's file
    pub fn file_path(&self) -> (p: &str)
        ensures
            p@ == self.path_view(),
    {
        match self {
            CacheEntry::Known { file_path, .. } | CacheEntry::Loose { file_path, .. } => file_path.as_str(),
        }
    }

    /// The size of the entry's file
    pub fn size(&self) -> (s: Size)
        ensures
            s == self.size_view(),
    {
        match self {
            CacheEntry::Known { size, .. } | CacheEntry::Loose { size, .. } => *size,
        }
    }

    /// The entry for a file of the cache: a known entry when its name reads as
    /// `name#version#hash...`, a loose one otherwise
    pub fn from_file(file_path: String, file_name: &str, size: Size) -> (e: CacheEntry)
        ensures
            e.key() == file_key(file_path@, file_name@, size.spec_bytes()),
    {
        match get_known_info(file_name) {
            Some((name, version, hash)) => CacheEntry::Known { file_path, name, version, size, hash },
            None => CacheEntry::Loose { file_path, size },
        }
    }

    /// Whether this entry sorts strictly before `other`
    pub fn sorts_before(&self, other: &CacheEntry) -> (b: bool)
        ensures
            b == key_lt(self.key(), other.key()),
    {
        match (self, other) {
            (CacheEntry::Known { .. }, CacheEntry::Loose { .. }) => true,
            (CacheEntry::Loose { .. }, CacheEntry::Known { .. }) => false,
            (
                CacheEntry::Known { file_path: p1, name: n1, version: v1, size: s1, hash: h1 },
                CacheEntry::Known { file_path: p2, name: n2, version: v2, size: s2, hash: h2 },
            ) => {
                let c = compare_str(p1.as_str(), p2.as_str());
                if c != 0 {
                    return c < 0;
                }
                let c = compare_str(n1.as_str(), n2.as_str());
                if c != 0 {
                    return c < 0;
                }
                let c = compare_str(v1.as_str(), v2.as_str());
                if c != 0 {
                    return c < 0;
                }
                if s1.bytes() != s2.bytes() {
                    return s1.bytes() < s2.bytes();
                }
                compare_str(h1.as_str(), h2.as_str()) < 0
            },
            (
                CacheEntry::Loose { file_path: p1, size: s1 },
                CacheEntry::Loose { file_path: p2, size: s2 },
            ) => {
                proof {
                    lemma_seq_lt_irreflexive(Seq::<char>::empty());
                }
                let c = compare_str(p1.as_str(), p2.as_str());
                if c != 0 {
                    return c < 0;
                }
                s1.bytes() < s2.bytes()
            },
        }
    }
}

/// The name, version and hash that a cache file name `name#version#hash...` holds
pub fn get_known_info(file_name: &str) -> (r: Option<(String, String, String)>)
    ensures
        match stem_fields(file_name@) {
            Ok((name, version, hash)) => r matches Some((n, v, h)) && n@ == name && v@ == version
                && h@ == hash,
            Err(_) => r is None,
        },
{
    let (name, rest) = match split_once_char(file_name, '#') {
        Some(parts) => parts,
        None => return None,
    };
    let (version, rest) = match split_once_char(rest, '#') {
        Some(parts) => parts,
        None => return None,
    };
    let hash = match split_once_char(rest, '#') {
        Some((hash, _)) => hash,
        None => rest,
    };
    Some((String::from_str(name), String::from_str(version), String::from_str(hash)))
}

/// The keys of a sequence of entries.
pub open spec fn keys(entries: Seq<CacheEntry>) -> Seq<(int, Seq<char>, Seq<char>, Seq<char>, nat, Seq<char>)> {
    entries.map_values(|e: CacheEntry| e.key())
}

/// No entry sorts strictly before one that precedes it.
pub open spec fn is_sorted(entries: Seq<CacheEntry>) -> bool {
    forall|i: int, j: int| 0 <= i < j < entries.len() ==> !key_lt(#[trigger] entries[j].key(), #[trigger] entries[i].key())
}

/// The entries in the order of their keys
pub fn sort_entries(entries: Vec<CacheEntry>) -> (sorted: Vec<CacheEntry>)
    ensures
        keys(sorted@).to_multiset() == keys(entries@).to_multiset(),
        is_sorted(sorted@),
{
    let ghost original = entries@;
    let mut rest = entries;
    let mut sorted: Vec<CacheEntry> = Vec::new();
    assert(keys(sorted@) =~= Seq::<(int, Seq<char>, Seq<char>, Seq<char>, nat, Seq<char>)>::empty());
    while rest.len() > 0
        invariant
            keys(rest@).to_multiset().add(keys(sorted@).to_multiset()) == keys(original).to_multiset(),
            is_sorted(sorted@),
        decreases rest@.len(),
    {
        let ghost before_rest = rest@;
        let e = rest.pop().unwrap();
        proof {
            assert(before_rest =~= rest@.push(e));
            assert(keys(before_rest) =~= keys(rest@).push(e.key()));
        }
        let n = sorted.len();
        let mut p: usize = 0;
        while p < n && !e.sorts_before(&sorted[p])
            invariant
                n == sorted@.len(),
                p <= n,
                forall|k: int| 0 <= k < p ==> !key_lt(e.key(), #[trigger] sorted@[k].key()),
            decreases n - p,
        {
            p += 1;
        }
        let ghost old_sorted = sorted@;
        sorted.insert(p, e);
        proof {
            assert(keys(sorted@) =~= keys(old_sorted).insert(p as int, e.key()));
            assert forall|i: int, j: int| 0 <= i < j < sorted@.len() implies !key_lt(
                #[trigger] sorted@[j].key(),
                #[trigger] sorted@[i].key(),
            ) by {
                if i < p && j == p {
                    assert(sorted@[i] == old_sorted[i]);
                    assert(!key_lt(e.key(), old_sorted[i].key()));
                } else if i == p && j > p {
                    let a = old_sorted[j - 1];
                    assert(sorted@[j] == a);
                    assert(key_lt(e.key(), old_sorted[p as int].key()));
                    if p < j - 1 {
                        assert(!key_lt(a.key(), old_sorted[p as int].key()));
                    }
                    lemma_key_lt_trichotomy(a.key(), old_sorted[p as int].key());
                    if key_lt(old_sorted[p as int].key(), a.key()) {
                        lemma_key_lt_transitive(e.key(), old_sorted[p as int].key(), a.key());
                    }
                    if key_lt(a.key(), e.key()) {
                        lemma_key_lt_transitive(a.key(), e.key(), a.key());
                        lemma_key_lt_irreflexive(a.key());
                    }
                } else if i < p && j > p {
                    assert(sorted@[i] == old_sorted[i]);
                    assert(sorted@[j] == old_sorted[j - 1]);
                } else if i > p {
                    assert(sorted@[i] == old_sorted[i - 1]);
                    assert(sorted@[j] == old_sorted[j - 1]);
                } else {
                    assert(sorted@[i] == old_sorted[i]);
                    assert(sorted@[j] == old_sorted[j]);
                }
            }
        }
    }
    assert(keys(rest@) =~= Seq::<(int, Seq<char>, Seq<char>, Seq<char>, nat, Seq<char>)>::empty());
    sorted
}

/// The keys of the entries for a list of files, each given by its path, its
/// name and its size.
pub open spec fn file_keys(files: Seq<(String, String, Size)>) -> Seq<(int, Seq<char>, Seq<char>, Seq<char>, nat, Seq<char>)> {
    files.map_values(|f: (String, String, Size)| file_key(f.0@, f.1@, f.2.spec_bytes()))
}

impl CacheEntry {
    /// The entries for the files found in the cache, each given by its path,
    /// its name and its size, sorted; an error when no file was found
    pub fn from_files(files: Vec<(String, String, Size)>) -> (r: Result<Vec<CacheEntry>, NoCacheEntries>)
        ensures
            files@.len() == 0 ==> r == Err::<Vec<CacheEntry>, NoCacheEntries>(NoCacheEntries),
            files@.len() > 0 ==> (r matches Ok(v) && is_sorted(v@) && keys(v@).to_multiset()
                == file_keys(files@).to_multiset()),
    {
        if files.len() == 0 {
            return Err(NoCacheEntries);
        }
        let ghost original = files@;
        let mut rest = files;
        let mut built: Vec<CacheEntry> = Vec::new();
        assert(keys(built@) =~= Seq::<(int, Seq<char>, Seq<char>, Seq<char>, nat, Seq<char>)>::empty());
        while rest.len() > 0
            invariant
                file_keys(rest@).to_multiset().add(keys(built@).to_multiset()) == file_keys(
                    original,
                ).to_multiset(),
            decreases rest@.len(),
        {
            let ghost before_rest = rest@;
            let ghost before_built = built@;
            let (file_path, file_name, size) = rest.pop().unwrap();
            let entry = CacheEntry::from_file(file_path, file_name.as_str(), size);
            built.push(entry);
            proof {
                assert(before_rest =~= rest@.push((file_path, file_name, size)));
                assert(file_keys(before_rest) =~= file_keys(rest@).push(
                    file_key(file_path@, file_name@, size.spec_bytes()),
                ));
                assert(keys(built@) =~= keys(before_built).push(entry.key()));
            }
        }
        assert(file_keys(rest@) =~= Seq::<(int, Seq<char>, Seq<char>, Seq<char>, nat, Seq<char>)>::empty());
        Ok(sort_entries(built))
    }
}

/// The bytes of all entries together.
pub open spec fn total_bytes(entries: Seq<CacheEntry>) -> nat
    decreases entries.len(),
{
    if entries.len() == 0 {
        0
    } else {
        total_bytes(entries.drop_last()) + entries.last().size_view().spec_bytes()
    }
}

/// The bytes of a prefix are at most those of the whole.
pub proof fn lemma_total_bytes_prefix(entries: Seq<CacheEntry>, i: int)
    requires
        0 <= i <= entries.len(),
    ensures
        total_bytes(entries.take(i)) <= total_bytes(entries),
    decreases entries.len(),
{
    if i < entries.len() {
        assert(entries.drop_last().take(i) =~= entries.take(i));
        lemma_total_bytes_prefix(entries.drop_last(), i);
    } else {
        assert(entries.take(i) =~= entries);
    }
}

/// The size of all entries together
pub fn total_size(entries: &Vec<CacheEntry>) -> (s: Size)
    requires
        total_bytes(entries@) <= u64::MAX,
    ensures
        s.spec_bytes() == total_bytes(entries@),
{
    let mut total = Size::new(0);
    let n = entries.len();
    let mut i: usize = 0;
    assert(entries@.take(0) =~= Seq::<CacheEntry>::empty());
    while i < n
        invariant
            n == entries@.len(),
            i <= n,
            total_bytes(entries@) <= u64::MAX,
            total.spec_bytes() == total_bytes(entries@.take(i as int)),
        decreases n - i,
    {
        proof {
            assert(entries@.take(i + 1).drop_last() =~= entries@.take(i as int));
            lemma_total_bytes_prefix(entries@, i + 1);
        }
        total = total.plus(entries[i].size());
        i += 1;
    }
    assert(entries@.take(n as int) =~= entries@);
    total
}

/// The sources of the patterns that compile, in order.
pub open spec fn compiling(sources: Seq<Seq<char>>) -> Seq<Seq<char>> {
    sources.filter(|p: Seq<char>| regex_compiles(p))
}

/// The views of a list of patterns.
pub open spec fn patterns_view(v: Seq<Pattern>) -> Seq<Seq<char>> {
    v.map_values(|p: Pattern| p@)
}

/// The expressions compiled from the patterns, in order; a pattern that does
/// not compile is left out
pub fn compile_patterns(sources: &Vec<String>) -> (patterns: Vec<Pattern>)
    ensures
        patterns_view(patterns@) == compiling(strings_view(sources@)),
{
    let mut patterns: Vec<Pattern> = Vec::new();
    let n = sources.len();
    let mut i: usize = 0;
    proof {
        reveal(Seq::filter);
        assert(strings_view(sources@.take(0)) =~= Seq::<Seq<char>>::empty());
        assert(patterns_view(patterns@) =~= Seq::<Seq<char>>::empty());
    }
    while i < n
        invariant
            n == sources@.len(),
            i <= n,
            patterns_view(patterns@) == compiling(strings_view(sources@.take(i as int))),
        decreases n - i,
    {
        let ghost before = patterns@;
        let ghost taken = strings_view(sources@.take(i + 1));
        proof {
            reveal(Seq::filter);
            assert(taken.drop_last() =~= strings_view(sources@.take(i as int)));
            assert(taken.last() == sources@[i as int]@);
        }
        match Pattern::new(sources[i].as_str()) {
            Some(p) => {
                patterns.push(p);
                assert(patterns_view(patterns@) =~= patterns_view(before).push(p@));
            },
            None => {},
        }
        i += 1;
    }
    assert(sources@.take(n as int) =~= sources@);
    patterns
}

/// Some pattern matches somewhere in the name.
pub open spec fn any_matches(patterns: Seq<Seq<char>>, name: Seq<char>) -> bool {
    exists|i: int| 0 <= i < patterns.len() && regex_is_match(#[trigger] patterns[i], name)
}

/// Whether some pattern matches somewhere in the name
pub fn matches_any(patterns: &Vec<Pattern>, name: &str) -> (b: bool)
    ensures
        b == any_matches(patterns_view(patterns@), name@),
{
    let n = patterns.len();
    let mut i: usize = 0;
    while i < n
        invariant
            n == patterns@.len(),
            i <= n,
            forall|j: int| 0 <= j < i ==> !regex_is_match(#[trigger] patterns_view(patterns@)[j], name@),
        decreases n - i,
    {
        if patterns[i].is_match(name) {
            assert(regex_is_match(patterns_view(patterns@)[i as int], name@));
            return true;
        }
        i += 1;
    }
    false
}

/// The files, each given by its path, its name and its size, whose name some
/// pattern matches, in order.
pub open spec fn selected(patterns: Seq<Seq<char>>, files: Seq<(String, String, Size)>) -> Seq<(String, String, Size)> {
    files.filter(|f: (String, String, Size)| any_matches(patterns, f.1@))
}

/// Each file chosen is one of the files, and some pattern matches its name.
pub proof fn lemma_selected_files_match(patterns: Seq<Seq<char>>, files: Seq<(String, String, Size)>)
    ensures
        forall|f: (String, String, Size)| selected(patterns, files).contains(f) ==> files.contains(f) && any_matches(patterns, f.1@),
{
    let pred = |f: (String, String, Size)| any_matches(patterns, f.1@);
    assert forall|f: (String, String, Size)| selected(patterns, files).contains(f) implies files.contains(f) && any_matches(patterns, f.1@) by {
        let k = choose|k: int| 0 <= k < selected(patterns, files).len() && selected(patterns, files)[k] == f;
        files.lemma_filter_pred(pred, k);
        files.lemma_filter_contains_rev(pred, f);
    }
}

/// The entries for the files whose name one of the patterns matches, sorted;
/// patterns that do not compile are left out, and it is an error when no file
/// is left
pub fn match_files(sources: &Vec<String>, files: Vec<(String, String, Size)>) -> (r: Result<Vec<CacheEntry>, NoCacheEntries>)
    ensures
        ({
            let chosen = selected(compiling(strings_view(sources@)), files@);
            &&& chosen.len() == 0 ==> r == Err::<Vec<CacheEntry>, NoCacheEntries>(NoCacheEntries)
            &&& chosen.len() > 0 ==> (r matches Ok(v) && is_sorted(v@) && keys(v@).to_multiset()
                == file_keys(chosen).to_multiset())
        }),
{
    let patterns = compile_patterns(sources);
    let ghost ps = patterns_view(patterns@);
    let ghost all = files@;
    let mut chosen: Vec<(String, String, Size)> = Vec::new();
    proof {
        reveal(Seq::filter);
        assert(all.take(0) =~= Seq::<(String, String, Size)>::empty());
    }
    for f in it: files.into_iter()
        invariant
            it.seq() == all,
            ps == patterns_view(patterns@),
            chosen@ == selected(ps, all.take(it.index() as int)),
    {
        let ghost i = it.index() as int;
        proof {
            reveal(Seq::filter);
            assert(all.take(i + 1).drop_last() =~= all.take(i));
            assert(all.take(i + 1).last() == f);
        }
        if matches_any(&patterns, f.1.as_str()) {
            chosen.push(f);
        }
    }
    proof {
        assert(all.take(all.len() as int) =~= all);
    }
    CacheEntry::from_files(chosen)
}

/// The size of all entries together, or `None` when it does not fit in 64 bits
pub fn checked_total_size(entries: &Vec<CacheEntry>) -> (r: Option<Size>)
    ensures
        r is Some <==> total_bytes(entries@) <= u64::MAX,
        r matches Some(s) ==> s.spec_bytes() == total_bytes(entries@),
{
    let n = entries.len();
    let mut total: u64 = 0;
    let mut i: usize = 0;
    assert(entries@.take(0) =~= Seq::<CacheEntry>::empty());
    while i < n
        invariant
            n == entries@.len(),
            i <= n,
            total == total_bytes(entries@.take(i as int)),
        decreases n - i,
    {
        assert(entries@.take(i + 1).drop_last() =~= entries@.take(i as int));
        let bytes = entries[i].size().bytes();
        match total.checked_add(bytes) {
            Some(t) => total = t,
            None => {
                proof {
                    lemma_total_bytes_prefix(entries@, i + 1);
                }
                return None;
            },
        }
        i += 1;
    }
    assert(entries@.take(n as int) =~= entries@);
    Some(Size::new(total))
}

} // verus!
