//! Searching the buckets' manifests: which manifests match a pattern, by
//! name or by the binaries they install.

use vstd::prelude::*;
use vstd::string::*;

use crate::order::{compare_str, lemma_seq_lt_irreflexive, lemma_seq_lt_transitive, lemma_seq_lt_trichotomy, seq_lt};
use crate::pattern::{regex_is_match, Pattern};
use crate::text::{opt_string_view, split_once, split_once_char, str_eq, strings_view};

verus! {

broadcast use vstd::seq_lib::group_to_multiset_ensures;

/// The criteria for a match
#[derive(Debug)]
pub struct MatchCriteria {
    /// The name matched
    pub name: bool,
    /// The binaries that matched
    pub bins: Vec<String>,
}

/// The strings of `items` that the pattern matches, in order.
pub open spec fn matching(pattern: Seq<char>, items: Seq<Seq<char>>) -> Seq<Seq<char>> {
    items.filter(|b: Seq<char>| regex_is_match(pattern, b))
}

impl MatchCriteria {
    /// No match
    pub fn new() -> (c: MatchCriteria)
        ensures
            !c.name,
            c.bins@.len() == 0,
    {
        MatchCriteria { name: false, bins: Vec::new() }
    }

    /// What matches the pattern: the file name, when names are searched,
    /// and the binaries that match, when binaries are searched; the binaries
    /// are listed, by calling `list_binaries`, only then
    pub fn matches<F: FnOnce() -> Vec<String>>(
        file_name: &str,
        pattern: &Pattern,
        list_binaries: F,
        match_names: bool,
        match_binaries: bool,
    ) -> (c: MatchCriteria)
        requires
            match_binaries ==> list_binaries.requires(()),
        ensures
            c.name == (match_names && regex_is_match(pattern@, file_name@)),
            !match_binaries ==> c.bins@.len() == 0,
            match_binaries ==> exists|binaries: Vec<String>|
                list_binaries.ensures((), binaries) && #[trigger] matching(pattern@, binaries.deep_view())
                    == c.bins.deep_view(),
    {
        let mut output = MatchCriteria::new();
        if match_names {
            output.match_names(pattern, file_name);
        }
        if match_binaries {
            let binaries = list_binaries();
            output.match_binaries(pattern, binaries);
            assert(output.bins.deep_view() =~= matching(pattern@, binaries.deep_view()));
        }
        output
    }

    fn match_names(&mut self, pattern: &Pattern, file_name: &str)
        ensures
            final(self).name == (old(self).name || regex_is_match(pattern@, file_name@)),
            final(self).bins == old(self).bins,
    {
        if pattern.is_match(file_name) {
            self.name = true;
        }
    }

    fn match_binaries(&mut self, pattern: &Pattern, binaries: Vec<String>)
        ensures
            final(self).name == old(self).name,
            final(self).bins.deep_view() == old(self).bins.deep_view() + matching(
                pattern@,
                binaries.deep_view(),
            ),
    {
        let ghost pred = |b: Seq<char>| regex_is_match(pattern@, b);
        let ghost start = self.bins.deep_view();
        let n = binaries.len();
        let mut i: usize = 0;
        while i < n
            invariant
                n == binaries@.len(),
                i <= n,
                pred == (|b: Seq<char>| regex_is_match(pattern@, b)),
                self.bins.deep_view() == start + binaries.deep_view().take(i as int).filter(pred),
                self.name == old(self).name,
            decreases n - i,
        {
            let b = &binaries[i];
            proof {
                assert(binaries.deep_view().take(i + 1) =~= binaries.deep_view().take(i as int).push(b@));
                binaries.deep_view().take(i as int).lemma_filter_push(b@, pred);
            }
            let ghost before = self.bins.deep_view();
            if pattern.is_match(b.as_str()) {
                self.bins.push(b.clone());
                assert(self.bins.deep_view() =~= before.push(b@));
            }
            i += 1;
        }
        assert(binaries.deep_view().take(n as int) =~= binaries.deep_view());
    }
}

/// A manifest's section among the results, as its parts: the title starts
/// with the package name, shown bold when `bold_name` is set, and goes on with
/// `title_rest`; below it stand the lines, one per binary that matched, each
/// shown bold, or none at all
#[derive(Debug)]
pub struct ResultSection {
    pub name: String,
    pub bold_name: bool,
    pub title_rest: String,
    pub children: Option<Vec<String>>,
}

/// A manifest found by a search
#[derive(Debug)]
pub struct MatchedManifest {
    pub name: String,
    pub bucket: String,
    pub version: String,
    pub installed: bool,
    pub name_matched: bool,
    pub bins: Vec<String>,
    pub exact_match: bool,
}

impl MatchedManifest {
    /// The manifest is listed: it is installed, if only installed ones are
    /// asked for, and its name or one of its binaries matched.
    pub open spec fn listed(self, installed_only: bool) -> bool {
        (self.installed || !installed_only) && (self.name_matched || self.bins@.len() > 0)
    }

    /// A found manifest, from what the search found of it
    pub fn new(
        name: String,
        bucket: String,
        version: String,
        pattern: &Pattern,
        criteria: MatchCriteria,
        installed: bool,
    ) -> (m: MatchedManifest)
        ensures
            m.name == name,
            m.bucket == bucket,
            m.version == version,
            m.installed == installed,
            m.name_matched == criteria.name,
            m.bins == criteria.bins,
            m.exact_match == (name@ == pattern@),
    {
        let exact_match = str_eq(name.as_str(), pattern.as_str());
        MatchedManifest {
            name,
            bucket,
            version,
            installed,
            name_matched: criteria.name,
            bins: criteria.bins,
            exact_match,
        }
    }

    /// The title of the manifest's section: its name, its version in
    /// brackets, and a mark when it is installed.
    pub open spec fn title_view(self) -> Seq<char> {
        self.name@ + " ("@ + self.version@ + ") "@ + (if self.installed {
            "[installed] "@
        } else {
            Seq::empty()
        })
    }

    /// The title of the manifest's section among the results
    pub fn title(&self) -> (t: String)
        ensures
            t@ == self.title_view(),
    {
        let mut t = String::from_str(self.name.as_str());
        t.append(" (");
        t.append(self.version.as_str());
        t.append(") ");
        if self.installed {
            t.append("[installed] ");
        }
        t
    }

    /// What follows the name in the title of the manifest's section: its
    /// version in brackets, and a mark when it is installed.
    pub open spec fn title_rest_view(self) -> Seq<char> {
        " ("@ + self.version@ + ") "@ + (if self.installed {
            "[installed] "@
        } else {
            Seq::empty()
        })
    }

    /// The manifest's section among the results: its name, bold on an exact
    /// match, then its version and installed mark; one line per binary that
    /// matched, in order, or none when none did
    pub fn to_section(&self) -> (r: ResultSection)
        ensures
            r.name@ == self.name@,
            r.bold_name == self.exact_match,
            r.title_rest@ == self.title_rest_view(),
            r.name@ + r.title_rest@ == self.title_view(),
            self.bins@.len() == 0 <==> r.children is None,
            r.children matches Some(lines) ==> lines.deep_view() == self.bins.deep_view(),
    {
        let mut rest = String::from_str(" (");
        rest.append(self.version.as_str());
        rest.append(") ");
        if self.installed {
            rest.append("[installed] ");
        }
        let children = if self.bins.len() == 0 {
            None
        } else {
            let mut lines: Vec<String> = Vec::new();
            let n = self.bins.len();
            let mut i: usize = 0;
            while i < n
                invariant
                    n == self.bins@.len(),
                    i <= n,
                    lines.deep_view() == self.bins.deep_view().take(i as int),
                decreases n - i,
            {
                let ghost before = lines.deep_view();
                let line = String::from_str(self.bins[i].as_str());
                lines.push(line);
                assert(self.bins.deep_view()[i as int] == self.bins@[i as int]@);
                assert(lines.deep_view() =~= before.push(line@));
                assert(lines.deep_view() =~= self.bins.deep_view().take(i + 1));
                i += 1;
            }
            assert(self.bins.deep_view().take(n as int) =~= self.bins.deep_view());
            Some(lines)
        };
        assert(self.name@ + rest@ =~= self.title_view());
        ResultSection { name: String::from_str(self.name.as_str()), bold_name: self.exact_match, title_rest: rest, children }
    }

    /// Whether the manifest is listed among the results
    pub fn should_match(&self, installed_only: bool) -> (b: bool)
        ensures
            b == self.listed(installed_only),
    {
        if !self.installed && installed_only {
            return false;
        }
        if !self.name_matched && self.bins.len() == 0 {
            return false;
        }
        true
    }
}

/// The bucket to search in and the regular expression to search with: a
/// `bucket/pattern` argument names the bucket unless `--bucket` does, and the
/// pattern matches regardless of case unless asked otherwise.
pub open spec fn search_target(pattern: Seq<char>, bucket: Option<Seq<char>>, case_sensitive: bool) -> (Option<Seq<char>>, Seq<char>) {
    let prefix = if case_sensitive {
        Seq::<char>::empty()
    } else {
        "(?i)"@
    };
    match split_once(pattern, '/') {
        Some((named, raw)) => (
            match bucket {
                Some(b) => Some(b),
                None => Some(named),
            },
            prefix + raw,
        ),
        None => (bucket, prefix + pattern),
    }
}

/// The bucket to search in and the source of the regular expression to search with
pub fn search_target_of(pattern: &str, bucket: Option<String>, case_sensitive: bool) -> (r: (Option<String>, String))
    ensures
        (opt_string_view(r.0), r.1@) == search_target(pattern@, opt_string_view(bucket), case_sensitive),
{
    let mut source = if case_sensitive {
        String::new()
    } else {
        String::from_str("(?i)")
    };
    match split_once_char(pattern, '/') {
        Some((named, raw)) => {
            source.append(raw);
            let bucket = match bucket {
                Some(b) => b,
                None => String::from_str(named),
            };
            (Some(bucket), source)
        },
        None => {
            source.append(pattern);
            (bucket, source)
        },
    }
}

/// The title of a bucket's results.
pub open spec fn bucket_title_view(bucket: Seq<char>) -> Seq<char> {
    "'"@ + bucket + "' bucket:"@
}

/// The title of a bucket's results
pub fn bucket_title(bucket: &str) -> (t: String)
    ensures
        t@ == bucket_title_view(bucket@),
{
    let mut t = String::from_str("'");
    t.append(bucket);
    t.append("' bucket:");
    t
}

/// The buckets searched: only the one named, when it opens; otherwise all of them.
pub open spec fn scope_of(named: Option<Seq<char>>, named_opens: bool, all: Seq<Seq<char>>) -> Seq<Seq<char>> {
    match named {
        Some(bucket) => if named_opens {
            seq![bucket]
        } else {
            all
        },
        None => all,
    }
}

/// The buckets to search, given the bucket named, whether it opens, and all buckets
pub fn search_scope(named: Option<String>, named_opens: bool, all: Vec<String>) -> (r: Vec<String>)
    ensures
        strings_view(r@) == scope_of(opt_string_view(named), named_opens, strings_view(all@)),
{
    match named {
        Some(bucket) => {
            if named_opens {
                let ghost b = bucket@;
                let mut r: Vec<String> = Vec::new();
                r.push(bucket);
                assert(strings_view(r@) =~= seq![b]);
                r
            } else {
                all
            }
        },
        None => all,
    }
}

/// The manifests of a bucket that are listed, in order.
pub open spec fn listed_of(manifests: Seq<MatchedManifest>, installed_only: bool) -> Seq<MatchedManifest> {
    manifests.filter(|m: MatchedManifest| m.listed(installed_only))
}

/// A bucket's results as plain values: its name and its manifests.
pub open spec fn section_view(section: (String, Vec<MatchedManifest>)) -> (Seq<char>, Seq<MatchedManifest>) {
    (section.0@, section.1@)
}

/// The views of a list of buckets' results.
pub open spec fn sections_view(sections: Seq<(String, Vec<MatchedManifest>)>) -> Seq<(Seq<char>, Seq<MatchedManifest>)> {
    sections.map_values(|s: (String, Vec<MatchedManifest>)| section_view(s))
}

/// The buckets that keep a result, in order, each with its listed manifests.
pub open spec fn kept_of(found: Seq<(Seq<char>, Seq<MatchedManifest>)>, installed_only: bool) -> Seq<(Seq<char>, Seq<MatchedManifest>)>
    decreases found.len(),
{
    if found.len() == 0 {
        Seq::empty()
    } else {
        let rest = kept_of(found.drop_last(), installed_only);
        let listed = listed_of(found.last().1, installed_only);
        if listed.len() > 0 {
            rest.push((found.last().0, listed))
        } else {
            rest
        }
    }
}

/// No bucket's results come before those of a bucket whose title sorts first.
pub open spec fn sorted_by_title(sections: Seq<(Seq<char>, Seq<MatchedManifest>)>) -> bool {
    forall|i: int, j: int|
        0 <= i < j < sections.len() ==> !seq_lt(
            bucket_title_view(#[trigger] sections[j].0),
            bucket_title_view(#[trigger] sections[i].0),
        )
}

/// The manifests of a bucket that are listed
fn listed_manifests(manifests: Vec<MatchedManifest>, installed_only: bool) -> (r: Vec<MatchedManifest>)
    ensures
        r@ == listed_of(manifests@, installed_only),
{
    let ghost all = manifests@;
    let mut r: Vec<MatchedManifest> = Vec::new();
    proof {
        reveal(Seq::filter);
        assert(all.take(0) =~= Seq::<MatchedManifest>::empty());
    }
    for m in it: manifests.into_iter()
        invariant
            it.seq() == all,
            r@ == listed_of(all.take(it.index()), installed_only),
    {
        let ghost i = it.index();
        proof {
            reveal(Seq::filter);
            assert(all.take(i + 1).drop_last() =~= all.take(i));
            assert(all.take(i + 1).last() == m);
        }
        if m.should_match(installed_only) {
            r.push(m);
        }
    }
    proof {
        assert(all.take(all.len() as int) =~= all);
    }
    r
}

/// Whether the results of bucket `a` come strictly before those of `b`
fn title_before(a: &str, b: &str) -> (r: bool)
    ensures
        r == seq_lt(bucket_title_view(a@), bucket_title_view(b@)),
{
    let x = bucket_title(a);
    let y = bucket_title(b);
    compare_str(x.as_str(), y.as_str()) < 0
}

/// Putting a bucket's results before the first ones whose title sorts after
/// its own keeps the results in order.
proof fn lemma_insert_by_title(
    s: Seq<(Seq<char>, Seq<MatchedManifest>)>,
    x: (Seq<char>, Seq<MatchedManifest>),
    p: int,
)
    requires
        0 <= p <= s.len(),
        sorted_by_title(s),
        forall|k: int| 0 <= k < p ==> !seq_lt(bucket_title_view(x.0), bucket_title_view(#[trigger] s[k].0)),
        p < s.len() ==> seq_lt(bucket_title_view(x.0), bucket_title_view(s[p].0)),
    ensures
        sorted_by_title(s.insert(p, x)),
{
    let t = s.insert(p, x);
    assert forall|a: int, b: int| 0 <= a < b < t.len() implies !seq_lt(
        bucket_title_view(#[trigger] t[b].0),
        bucket_title_view(#[trigger] t[a].0),
    ) by {
        let tx = bucket_title_view(x.0);
        if a < p && b == p {
            let ta = bucket_title_view(s[a].0);
            assert(t[a] == s[a]);
            lemma_seq_lt_trichotomy(tx, ta);
            if tx == ta {
                lemma_seq_lt_irreflexive(tx);
            }
        } else if a == p && b > p {
            let ty = bucket_title_view(s[b - 1].0);
            let tq = bucket_title_view(s[p].0);
            assert(t[b] == s[b - 1]);
            lemma_seq_lt_trichotomy(ty, tq);
            if p < b - 1 {
                assert(!seq_lt(ty, tq));
            }
            if seq_lt(tq, ty) {
                lemma_seq_lt_transitive(tx, tq, ty);
            }
            if seq_lt(ty, tx) {
                if seq_lt(tx, ty) {
                    lemma_seq_lt_transitive(ty, tx, ty);
                }
                lemma_seq_lt_irreflexive(ty);
            }
        } else if a < p && b > p {
            assert(t[a] == s[a]);
            assert(t[b] == s[b - 1]);
        } else if a > p {
            assert(t[a] == s[a - 1]);
            assert(t[b] == s[b - 1]);
        } else {
            assert(t[a] == s[a]);
            assert(t[b] == s[b]);
        }
    }
}

/// The results of a search, from what each bucket found: a bucket is kept
/// when some manifest of it is listed, with its listed manifests in order, and
/// the buckets are ordered by the titles of their results
pub fn search_results(found: Vec<(String, Vec<MatchedManifest>)>, installed_only: bool) -> (r: Vec<(String, Vec<MatchedManifest>)>)
    ensures
        sections_view(r@).to_multiset() == kept_of(sections_view(found@), installed_only).to_multiset(),
        sorted_by_title(sections_view(r@)),
{
    let ghost all = found@;
    let mut kept: Vec<(String, Vec<MatchedManifest>)> = Vec::new();
    proof {
        assert(sections_view(all.take(0)) =~= Seq::<(Seq<char>, Seq<MatchedManifest>)>::empty());
        assert(sections_view(kept@) =~= Seq::<(Seq<char>, Seq<MatchedManifest>)>::empty());
    }
    for section in it: found.into_iter()
        invariant
            it.seq() == all,
            sections_view(kept@) == kept_of(sections_view(all.take(it.index())), installed_only),
    {
        let ghost i = it.index();
        let ghost before = kept@;
        proof {
            assert(sections_view(all.take(i + 1)).drop_last() =~= sections_view(all.take(i)));
            assert(sections_view(all.take(i + 1)).last() == section_view(section));
        }
        let (bucket, manifests) = section;
        let listed = listed_manifests(manifests, installed_only);
        if listed.len() > 0 {
            kept.push((bucket, listed));
            assert(sections_view(kept@) =~= sections_view(before).push((bucket@, listed@)));
        }
    }
    proof {
        assert(all.take(all.len() as int) =~= all);
    }
    let ghost chosen = sections_view(kept@);
    let mut sorted: Vec<(String, Vec<MatchedManifest>)> = Vec::new();
    proof {
        assert(chosen.take(0) =~= Seq::<(Seq<char>, Seq<MatchedManifest>)>::empty());
        assert(sections_view(sorted@) =~= Seq::<(Seq<char>, Seq<MatchedManifest>)>::empty());
    }
    let ghost kept_all = kept@;
    for x in it: kept.into_iter()
        invariant
            it.seq() == kept_all,
            chosen == sections_view(kept_all),
            sections_view(sorted@).to_multiset() == chosen.take(it.index()).to_multiset(),
            sorted_by_title(sections_view(sorted@)),
    {
        let ghost i = it.index();
        proof {
            assert(chosen.take(i + 1) =~= chosen.take(i).push(section_view(x)));
        }
        let n = sorted.len();
        let mut p: usize = 0;
        while p < n && !title_before(x.0.as_str(), sorted[p].0.as_str())
            invariant
                n == sorted@.len(),
                p <= n,
                forall|k: int|
                    0 <= k < p ==> !seq_lt(bucket_title_view(x.0@), bucket_title_view(#[trigger] sections_view(sorted@)[k].0)),
            decreases n - p,
        {
            p += 1;
        }
        let ghost old_view = sections_view(sorted@);
        sorted.insert(p, x);
        proof {
            assert(sections_view(sorted@) =~= old_view.insert(p as int, section_view(x)));
            lemma_insert_by_title(old_view, section_view(x), p as int);
        }
    }
    proof {
        assert(chosen.take(chosen.len() as int) =~= chosen);
    }
    sorted
}

/// The expression searched with is the raw pattern (what follows the first
/// `/`, or the whole pattern when it holds none) preceded by `(?i)`, so that
/// it ignores case, unless the search is case-sensitive; `--bucket` names the
/// bucket whenever it is given, and a pattern without `/` names none of its own.
pub proof fn lemma_search_target_pattern(pattern: Seq<char>, bucket: Option<Seq<char>>, case_sensitive: bool)
    ensures
        ({
            let raw = match split_once(pattern, '/') {
                Some((_, rest)) => rest,
                None => pattern,
            };
            search_target(pattern, bucket, case_sensitive).1 == (if case_sensitive {
                raw
            } else {
                "(?i)"@ + raw
            })
        }),
        !case_sensitive ==> search_target(pattern, bucket, case_sensitive).1.take(4) == "(?i)"@,
        (forall|i: int| 0 <= i < pattern.len() ==> pattern[i] != '/') ==> search_target(pattern, bucket, case_sensitive)
            == (bucket, if case_sensitive {
            pattern
        } else {
            "(?i)"@ + pattern
        }),
        bucket is Some ==> search_target(pattern, bucket, case_sensitive).0 == bucket,
{
    reveal_strlit("(?i)");
    if !case_sensitive {
        let raw = match split_once(pattern, '/') {
            Some((_, rest)) => rest,
            None => pattern,
        };
        assert(("(?i)"@ + raw).take(4) =~= "(?i)"@);
    }
    if forall|i: int| 0 <= i < pattern.len() ==> pattern[i] != '/' {
        assert(!exists|i: int| crate::text::is_first_index(pattern, '/', i));
    }
}

} // verus!
