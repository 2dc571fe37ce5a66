//! Showing a package's information: how the binaries a manifest installs are
//! listed, whether the package is installed, and when it was last updated.

use vstd::prelude::*;
use vstd::string::*;

use crate::commands::app::cleanup::{file_stem, file_stem_of_name};
use crate::text::{decimal, opt_string_view, push_decimal, str_eq};

verus! {

/// A string, or a list of strings, as manifests write them
#[derive(Debug, Clone)]
pub enum StringArray {
    String(String),
    StringArray(Vec<String>),
}

/// The `bin` field of a manifest: one entry, or a list of entries each of
/// which is a binary or a binary with its alias and arguments
#[derive(Debug, Clone)]
pub enum AliasArray {
    NestedArray(StringArray),
    AliasArray(Vec<StringArray>),
}

/// The parts joined, with `sep` between each two.
pub open spec fn join(parts: Seq<Seq<char>>, sep: Seq<char>) -> Seq<char>
    decreases parts.len(),
{
    if parts.len() == 0 {
        Seq::empty()
    } else if parts.len() == 1 {
        parts[0]
    } else {
        join(parts.drop_last(), sep) + sep + parts.last()
    }
}

/// The binary an entry of a `bin` list names: the string itself, or the
/// first string of a list.
pub open spec fn entry_binary(entry: StringArray) -> Seq<char> {
    match entry {
        StringArray::String(bin) => bin@,
        StringArray::StringArray(bins) => bins@[0]@,
    }
}

/// Every list in the `bin` field names its binary first, so no list is empty.
pub open spec fn well_formed(bin: AliasArray) -> bool {
    match bin {
        AliasArray::NestedArray(_) => true,
        AliasArray::AliasArray(entries) => forall|i: int|
            0 <= i < entries@.len() ==> (#[trigger] entries@[i] matches StringArray::StringArray(
                bins,
            ) ==> bins@.len() > 0),
    }
}

/// The binaries of a `bin` field as `sfsu info` lists them, separated by ` | `.
pub open spec fn binaries_listed(bin: AliasArray) -> Seq<char> {
    match bin {
        AliasArray::NestedArray(StringArray::String(bin)) => bin@,
        AliasArray::NestedArray(StringArray::StringArray(bins)) => join(bins.deep_view(), " | "@),
        AliasArray::AliasArray(entries) => join(entries@.map_values(|e: StringArray| entry_binary(e)), " | "@),
    }
}

/// Joining one part more adds the separator and the part.
pub proof fn lemma_join_step(parts: Seq<Seq<char>>, sep: Seq<char>, i: int)
    requires
        0 <= i < parts.len(),
    ensures
        join(parts.take(i + 1), sep) == if i == 0 {
            parts[0]
        } else {
            join(parts.take(i), sep) + sep + parts[i]
        },
{
    assert(parts.take(i + 1).drop_last() =~= parts.take(i));
}

/// The strings joined with ` | `
fn join_bins(bins: &Vec<String>) -> (s: String)
    ensures
        s@ == join(bins.deep_view(), " | "@),
{
    let ghost parts = bins.deep_view();
    let mut s = String::new();
    let n = bins.len();
    let mut i: usize = 0;
    assert(parts.take(0) =~= Seq::<Seq<char>>::empty());
    while i < n
        invariant
            n == bins@.len(),
            parts == bins.deep_view(),
            i <= n,
            s@ == join(parts.take(i as int), " | "@),
        decreases n - i,
    {
        proof {
            lemma_join_step(parts, " | "@, i as int);
        }
        if i > 0 {
            s.append(" | ");
        }
        s.append(bins[i].as_str());
        assert(s@ =~= join(parts.take(i + 1), " | "@));
        i += 1;
    }
    assert(parts.take(n as int) =~= parts);
    s
}

/// The binaries of a manifest's `bin` field as `sfsu info` lists them
pub fn binaries_text(bin: &AliasArray) -> (s: String)
    requires
        well_formed(*bin),
    ensures
        s@ == binaries_listed(*bin),
{
    match bin {
        AliasArray::NestedArray(StringArray::String(bin)) => bin.clone(),
        AliasArray::NestedArray(StringArray::StringArray(bins)) => join_bins(bins),
        AliasArray::AliasArray(entries) => {
            let ghost parts = entries@.map_values(|e: StringArray| entry_binary(e));
            let mut s = String::new();
            let n = entries.len();
            let mut i: usize = 0;
            assert(parts.take(0) =~= Seq::<Seq<char>>::empty());
            while i < n
                invariant
                    n == entries@.len(),
                    parts == entries@.map_values(|e: StringArray| entry_binary(e)),
                    well_formed(AliasArray::AliasArray(*entries)),
                    i <= n,
                    s@ == join(parts.take(i as int), " | "@),
                decreases n - i,
            {
                proof {
                    lemma_join_step(parts, " | "@, i as int);
                }
                if i > 0 {
                    s.append(" | ");
                }
                match &entries[i] {
                    StringArray::String(b) => s.append(b.as_str()),
                    StringArray::StringArray(bins) => {
                        assert(entries@[i as int] matches StringArray::StringArray(_));
                        s.append(bins[0].as_str());
                    },
                }
                assert(s@ =~= join(parts.take(i + 1), " | "@));
                i += 1;
            }
            assert(parts.take(n as int) =~= parts);
            s
        },
    }
}

/// The name of the app that an installed app's directory holds: the
/// directory's name without an extension, as `Path::with_extension("")`
/// leaves it.
pub open spec fn app_dir_name(dir_name: Seq<char>) -> Seq<char> {
    file_stem_of_name(dir_name)
}

/// Whether the package of that name is installed, given the names of the
/// directories of the installed apps
pub fn installed_by_name(installed_apps: &Vec<String>, name: &str) -> (b: bool)
    ensures
        b == exists|i: int| 0 <= i < installed_apps@.len() && app_dir_name(#[trigger] installed_apps@[i]@) == name@,
{
    let n = installed_apps.len();
    let mut i: usize = 0;
    while i < n
        invariant
            n == installed_apps@.len(),
            i <= n,
            forall|j: int| 0 <= j < i ==> app_dir_name(#[trigger] installed_apps@[j]@) != name@,
        decreases n - i,
    {
        if str_eq(file_stem(installed_apps[i].as_str()), name) {
            return true;
        }
        i += 1;
    }
    false
}

/// When a package was last updated and by whom: nothing when that is not
/// asked for; else what the bucket's history tells, when it can be read;
/// else the time the installed app was last changed, if it is installed.
pub open spec fn updated_info_of(
    disable_updated: bool,
    git: Option<(Option<Seq<char>>, Option<Seq<char>>)>,
    modified: Option<Seq<char>>,
) -> (Option<Seq<char>>, Option<Seq<char>>) {
    if disable_updated {
        (None, None)
    } else {
        match git {
            Some(info) => info,
            None => match modified {
                Some(time) => (Some(time), None),
                None => (None, None),
            },
        }
    }
}

/// When a package was last updated and by whom, given whether that is
/// asked for, what the bucket's history tells (`None` when it cannot be
/// read), and the time the installed app was last changed (`None` when it is
/// not installed)
pub fn updated_info(
    disable_updated: bool,
    git: Option<(Option<String>, Option<String>)>,
    modified: Option<String>,
) -> (r: (Option<String>, Option<String>))
    ensures
        (opt_string_view(r.0), opt_string_view(r.1)) == updated_info_of(
            disable_updated,
            match git {
                Some((at, by)) => Some((opt_string_view(at), opt_string_view(by))),
                None => None,
            },
            opt_string_view(modified),
        ),
{
    if disable_updated {
        return (None, None);
    }
    match git {
        Some(info) => info,
        None => match modified {
            Some(time) => (Some(time), None),
            None => (None, None),
        },
    }
}

/// What is said when several packages match, unless only one is shown.
pub open spec fn found_message_of(count: nat, single: bool, package: Seq<char>) -> Option<Seq<char>> {
    if count > 1 && !single {
        Some("Found "@ + decimal(count) + " packages, matching \""@ + package + "\":"@)
    } else {
        None
    }
}

/// What is said when several packages match the one asked for
pub fn found_message(count: usize, single: bool, package: &str) -> (m: Option<String>)
    ensures
        opt_string_view(m) == found_message_of(count as nat, single, package@),
{
    if count > 1 && !single {
        let mut m = String::from_str("Found ");
        push_decimal(&mut m, count as u64);
        m.append(" packages, matching \"");
        m.append(package);
        m.append("\":");
        Some(m)
    } else {
        None
    }
}

/// Why nothing is shown when no package matches.
pub open spec fn not_found_message(package: Seq<char>) -> Seq<char> {
    "No package found with the name \""@ + package + "\""@
}

/// Why nothing is shown when no package matches the one asked for
pub fn no_package_message(package: &str) -> (m: String)
    ensures
        m@ == not_found_message(package@),
{
    let mut m = String::from_str("No package found with the name \"");
    m.append(package);
    m.append("\"");
    m
}

} // verus!
