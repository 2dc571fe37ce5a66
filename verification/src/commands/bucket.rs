//! Buckets: the manifest files they hold, and the buckets that no installed
//! app comes from.

use vstd::prelude::*;
use vstd::string::*;

use crate::commands::app::cleanup::{file_stem, file_stem_of_name, is_last_index};
use crate::text::{str_eq, strings_view};

verus! {

/// The line shown when every bucket is used
pub const NO_UNUSED_BUCKETS: &'static str = "No unused buckets";

/// The title of the list of unused buckets
pub const UNUSED_TITLE: &'static str = "The following buckets are unused:";

/// The buckets, in order, from which no installed app comes.
pub open spec fn unused_of(buckets: Seq<Seq<char>>, used: Seq<Seq<char>>) -> Seq<Seq<char>> {
    buckets.filter(|b: Seq<char>| !used.contains(b))
}

/// Each unused bucket is one of the buckets, and none is among the used ones.
pub proof fn lemma_unused_not_used(buckets: Seq<Seq<char>>, used: Seq<Seq<char>>)
    ensures
        forall|b: Seq<char>| unused_of(buckets, used).contains(b) ==> buckets.contains(b) && !used.contains(b),
{
    let pred = |b: Seq<char>| !used.contains(b);
    assert forall|b: Seq<char>| unused_of(buckets, used).contains(b) implies buckets.contains(b) && !used.contains(b) by {
        let k = choose|k: int| 0 <= k < unused_of(buckets, used).len() && unused_of(buckets, used)[k] == b;
        buckets.lemma_filter_pred(pred, k);
        buckets.lemma_filter_contains_rev(pred, b);
    }
}

/// Whether the name is among the names
fn contains_name(names: &Vec<String>, name: &str) -> (b: bool)
    ensures
        b == strings_view(names@).contains(name@),
{
    let n = names.len();
    let mut i: usize = 0;
    while i < n
        invariant
            n == names@.len(),
            i <= n,
            forall|j: int| 0 <= j < i ==> strings_view(names@)[j] != name@,
        decreases n - i,
    {
        if str_eq(names[i].as_str(), name) {
            assert(strings_view(names@)[i as int] == name@);
            return true;
        }
        i += 1;
    }
    false
}

/// The buckets, in order, that are not among the buckets installed apps come from
pub fn unused_buckets(buckets: &Vec<String>, used: &Vec<String>) -> (unused: Vec<String>)
    ensures
        strings_view(unused@) == unused_of(strings_view(buckets@), strings_view(used@)),
{
    let mut unused: Vec<String> = Vec::new();
    let n = buckets.len();
    let mut i: usize = 0;
    proof {
        reveal(Seq::filter);
        assert(strings_view(buckets@.take(0)) =~= Seq::<Seq<char>>::empty());
        assert(strings_view(unused@) =~= Seq::<Seq<char>>::empty());
    }
    while i < n
        invariant
            n == buckets@.len(),
            i <= n,
            strings_view(unused@) == unused_of(strings_view(buckets@.take(i as int)), strings_view(used@)),
        decreases n - i,
    {
        let ghost taken = strings_view(buckets@.take(i + 1));
        let ghost before = unused@;
        proof {
            reveal(Seq::filter);
            assert(taken.drop_last() =~= strings_view(buckets@.take(i as int)));
            assert(taken.last() == buckets@[i as int]@);
        }
        let name = buckets[i].as_str();
        if !contains_name(used, name) {
            unused.push(String::from_str(name));
            assert(strings_view(unused@) =~= strings_view(before).push(name@));
        }
        i += 1;
    }
    assert(buckets@.take(n as int) =~= buckets@);
    unused
}

/// The name of the manifest file of a package: the name with `.json` after it.
pub open spec fn manifest_file_name_of(name: Seq<char>) -> Seq<char> {
    name + ".json"@
}

/// The name of the manifest file of a package
pub fn manifest_file_name(name: &str) -> (s: String)
    ensures
        s@ == manifest_file_name_of(name@),
{
    let mut s = String::from_str(name);
    s.append(".json");
    s
}

/// The names of the packages whose manifest files a bucket holds: each file
/// name without its extension
pub fn package_names(file_names: &Vec<String>) -> (names: Vec<String>)
    ensures
        strings_view(names@) == strings_view(file_names@).map_values(|f: Seq<char>| file_stem_of_name(f)),
{
    let mut names: Vec<String> = Vec::new();
    let n = file_names.len();
    let mut i: usize = 0;
    while i < n
        invariant
            n == file_names@.len(),
            i <= n,
            strings_view(names@) == strings_view(file_names@.take(i as int)).map_values(
                |f: Seq<char>| file_stem_of_name(f),
            ),
        decreases n - i,
    {
        let ghost before = names@;
        let stem = file_stem(file_names[i].as_str());
        names.push(String::from_str(stem));
        assert(strings_view(file_names@.take(i + 1)) =~= strings_view(file_names@.take(i as int)).push(
            file_names@[i as int]@,
        ));
        assert(strings_view(names@) =~= strings_view(before).push(stem@));
        i += 1;
    }
    assert(file_names@.take(n as int) =~= file_names@);
    names
}

/// A package's manifest file reads back as the package's name, when the name
/// is not empty.
pub proof fn lemma_manifest_file_name_round_trip(name: Seq<char>)
    requires
        name.len() > 0,
    ensures
        file_stem_of_name(manifest_file_name_of(name)) == name,
{
    reveal_strlit(".json");
    let f = manifest_file_name_of(name);
    let i = name.len() as int;
    assert(f[i] == '.');
    assert(is_last_index(f, '.', i));
    let k = choose|k: int| is_last_index(f, '.', k) && k > 0;
    if k < i {
        assert(f[i] != '.');
    } else if k > i {
        assert(f[k] != '.');
    }
    assert(f.take(i) =~= name);
}

} // verus!
