//! Checking the state of Scoop, its buckets and its installed apps: which of
//! them are worth reporting, and in what order.

use vstd::prelude::*;
use vstd::string::*;

use crate::listing::{arranged_from, dedup, deduped, lemma_deduped_kept, sort_by_name, sorted_by_name, Listed};
use crate::text::{decimal, opt_string_view, push_decimal, str_eq, strings_view};

verus! {

/// An app is reported when it misses dependencies, when its status carries a
/// note, or when a newer version is available; a held app with nothing else
/// to report is left out when held apps are ignored.
pub open spec fn reported(
    missing_dependencies: bool,
    info: Option<Seq<char>>,
    ignore_held: bool,
    current: Seq<char>,
    available: Seq<char>,
) -> bool {
    match info {
        Some(note) => !(!missing_dependencies && note == "Held package"@ && ignore_held),
        None => missing_dependencies || current != available,
    }
}

/// `--ignore-held` hides only held apps with nothing else to report: for an
/// app with no note, or a note other than "Held package", or missing
/// dependencies, it changes nothing. An app with missing dependencies or a
/// note is always reported but for that case; an app with neither is
/// reported exactly when another version is available.
pub proof fn lemma_ignore_held_hides_only_held(
    missing_dependencies: bool,
    info: Option<Seq<char>>,
    ignore_held: bool,
    current: Seq<char>,
    available: Seq<char>,
)
    ensures
        (info != Some("Held package"@) || missing_dependencies) ==> reported(
            missing_dependencies,
            info,
            true,
            current,
            available,
        ) == reported(missing_dependencies, info, false, current, available),
        info is None && current != available ==> reported(missing_dependencies, info, ignore_held, current, available),
        missing_dependencies ==> reported(missing_dependencies, info, ignore_held, current, available),
        info is None && !missing_dependencies ==> reported(missing_dependencies, info, ignore_held, current, available)
            == (current != available),
        info is Some && !ignore_held ==> reported(missing_dependencies, info, ignore_held, current, available),
        info == Some("Held package"@) && !missing_dependencies && ignore_held ==> !reported(
            missing_dependencies,
            info,
            ignore_held,
            current,
            available,
        ),
{
}

/// Whether an app's status is reported
pub fn needs_report(
    missing_dependencies: bool,
    info: &Option<String>,
    ignore_held: bool,
    current: &str,
    available: &str,
) -> (b: bool)
    ensures
        b == reported(missing_dependencies, opt_string_view(*info), ignore_held, current@, available@),
{
    let info_exists = match info {
        Some(note) => {
            if !missing_dependencies && str_eq(note.as_str(), "Held package") && ignore_held {
                return false;
            }
            true
        },
        None => false,
    };
    info_exists || missing_dependencies || !str_eq(current, available)
}

/// The state of one installed app, as its local and remote manifests give it
#[derive(Debug)]
pub struct AppStatus {
    pub name: String,
    pub current: String,
    pub available: String,
    pub missing_dependencies: Vec<String>,
    pub info: Option<String>,
}

impl AppStatus {
    /// What the status holds, as plain values.
    pub open spec fn fields(&self) -> (Seq<char>, Seq<char>, Seq<char>, Seq<Seq<char>>, Option<Seq<char>>) {
        (
            self.name@,
            self.current@,
            self.available@,
            strings_view(self.missing_dependencies@),
            opt_string_view(self.info),
        )
    }

    /// Whether this status is reported, held apps being ignored or not.
    pub open spec fn is_reported(&self, ignore_held: bool) -> bool {
        reported(
            self.missing_dependencies@.len() > 0,
            opt_string_view(self.info),
            ignore_held,
            self.current@,
            self.available@,
        )
    }

    /// Whether this status is reported
    pub fn should_report(&self, ignore_held: bool) -> (b: bool)
        ensures
            b == self.is_reported(ignore_held),
    {
        needs_report(
            self.missing_dependencies.len() > 0,
            &self.info,
            ignore_held,
            self.current.as_str(),
            self.available.as_str(),
        )
    }
}

/// Whether two lists of strings hold the same strings in the same order
fn strings_eq(a: &Vec<String>, b: &Vec<String>) -> (r: bool)
    ensures
        r == (strings_view(a@) == strings_view(b@)),
{
    let n = a.len();
    if n != b.len() {
        return false;
    }
    let mut i: usize = 0;
    while i < n
        invariant
            n == a@.len(),
            n == b@.len(),
            i <= n,
            forall|j: int| 0 <= j < i ==> a@[j]@ == b@[j]@,
        decreases n - i,
    {
        if !str_eq(a[i].as_str(), b[i].as_str()) {
            assert(strings_view(a@)[i as int] != strings_view(b@)[i as int]);
            return false;
        }
        i += 1;
    }
    assert(strings_view(a@) =~= strings_view(b@));
    true
}

/// Whether two optional strings are both absent or both the same string
fn opt_str_eq(a: &Option<String>, b: &Option<String>) -> (r: bool)
    ensures
        r == (opt_string_view(*a) == opt_string_view(*b)),
{
    match (a, b) {
        (Some(x), Some(y)) => str_eq(x.as_str(), y.as_str()),
        (None, None) => true,
        _ => false,
    }
}

impl Listed for AppStatus {
    open spec fn name_view(&self) -> Seq<char> {
        self.name@
    }

    open spec fn same_as(&self, other: &Self) -> bool {
        self.fields() == other.fields()
    }

    fn name(&self) -> (s: &str) {
        self.name.as_str()
    }

    fn is_same(&self, other: &Self) -> (b: bool) {
        str_eq(self.name.as_str(), other.name.as_str()) && str_eq(
            self.current.as_str(),
            other.current.as_str(),
        ) && str_eq(self.available.as_str(), other.available.as_str()) && strings_eq(
            &self.missing_dependencies,
            &other.missing_dependencies,
        ) && opt_str_eq(&self.info, &other.info)
    }
}

/// The statuses that are reported, in the order they came.
pub open spec fn reported_only(apps: Seq<AppStatus>, ignore_held: bool) -> Seq<AppStatus> {
    apps.filter(|a: AppStatus| a.is_reported(ignore_held))
}

/// The statuses worth reporting: those that are reported, each repeat that
/// follows the same status dropped, ordered by app name, statuses of one name
/// in the order they came
pub fn apps_to_report(apps: Vec<AppStatus>, ignore_held: bool) -> (r: Vec<AppStatus>)
    ensures
        r@.to_multiset() == deduped(reported_only(apps@, ignore_held)).to_multiset(),
        sorted_by_name(r@, false),
        exists|from: Seq<int>| arranged_from(deduped(reported_only(apps@, ignore_held)), r@, from),
{
    let ghost all = apps@;
    let mut kept: Vec<AppStatus> = Vec::new();
    proof {
        assert(all.take(0) =~= Seq::<AppStatus>::empty());
        assert(reported_only(all.take(0), ignore_held) =~= Seq::<AppStatus>::empty());
    }
    for app in it: apps.into_iter()
        invariant
            it.seq() == all,
            kept@ == reported_only(all.take(it.index() as int), ignore_held),
    {
        let ghost i = it.index() as int;
        proof {
            reveal(Seq::filter);
            assert(all.take(i + 1).drop_last() =~= all.take(i));
            assert(all.take(i + 1).last() == app);
        }
        if app.should_report(ignore_held) {
            kept.push(app);
            proof {
                assert(reported_only(all.take(i + 1), ignore_held) =~= reported_only(all.take(i), ignore_held).push(app));
            }
        } else {
            proof {
                assert(reported_only(all.take(i + 1), ignore_held) =~= reported_only(all.take(i), ignore_held));
            }
        }
    }
    proof {
        assert(all.take(all.len() as int) =~= all);
    }
    sort_by_name(dedup(kept), false)
}

/// Each status worth reporting is one of the statuses checked, and is
/// reported: a held app with nothing else to report is not listed when held
/// apps are ignored, and an app that is up to date, misses nothing and carries
/// no note is never listed.
pub proof fn lemma_listed_apps_are_reported(apps: Seq<AppStatus>, ignore_held: bool, listed: Seq<AppStatus>)
    requires
        listed.to_multiset() == deduped(reported_only(apps, ignore_held)).to_multiset(),
    ensures
        forall|x: AppStatus| listed.contains(x) ==> apps.contains(x) && x.is_reported(ignore_held),
{
    broadcast use vstd::seq_lib::group_to_multiset_ensures;

    let pred = |a: AppStatus| a.is_reported(ignore_held);
    let chosen = reported_only(apps, ignore_held);
    lemma_deduped_kept(chosen);
    assert forall|x: AppStatus| listed.contains(x) implies apps.contains(x) && x.is_reported(ignore_held) by {
        assert(deduped(chosen).to_multiset().count(x) > 0);
        assert(deduped(chosen).contains(x));
        assert(chosen.contains(x));
        let k = choose|k: int| 0 <= k < chosen.len() && chosen[k] == x;
        apps.lemma_filter_pred(pred, k);
        apps.lemma_filter_contains_rev(pred, x);
    }
}

/// The line shown when no app is worth reporting
pub const PACKAGES_OK: &'static str = "All packages are okay and up to date.";

/// The line shown when all buckets are up to date
pub const BUCKETS_OK: &'static str = "All buckets up to date.";

/// The line shown, outside verbose output, when a bucket is behind
pub const BUCKETS_OUTDATED: &'static str = "Bucket(s) are out of date. Run `scoop update` to get the latest changes.";

/// The line shown when Scoop itself is behind
pub const SCOOP_OUTDATED: &'static str = "Scoop is out of date. Run `scoop update` to get the latest changes.";

/// The line shown when Scoop itself is up to date
pub const SCOOP_OK: &'static str = "Scoop app is up to date.";

/// The names of the buckets whose check says they are behind: a check that
/// failed counts as up to date.
pub open spec fn outdated_of(checks: Seq<(String, Option<bool>)>) -> Seq<Seq<char>>
    decreases checks.len(),
{
    if checks.len() == 0 {
        Seq::empty()
    } else {
        let rest = outdated_of(checks.drop_last());
        if checks.last().1 == Some(true) {
            rest.push(checks.last().0@)
        } else {
            rest
        }
    }
}

/// The names of the outdated buckets, in the order they were checked
pub fn outdated_buckets(checks: &Vec<(String, Option<bool>)>) -> (names: Vec<String>)
    ensures
        strings_view(names@) == outdated_of(checks@),
{
    let mut names: Vec<String> = Vec::new();
    let n = checks.len();
    let mut i: usize = 0;
    assert(checks@.take(0) =~= Seq::<(String, Option<bool>)>::empty());
    assert(strings_view(names@) =~= Seq::<Seq<char>>::empty());
    while i < n
        invariant
            n == checks@.len(),
            i <= n,
            strings_view(names@) == outdated_of(checks@.take(i as int)),
        decreases n - i,
    {
        let ghost before = names@;
        assert(checks@.take(i + 1).drop_last() =~= checks@.take(i as int));
        assert(checks@.take(i + 1).last() == checks@[i as int]);
        let (name, outdated) = &checks[i];
        if let Some(true) = outdated {
            let copy = String::from_str(name.as_str());
            names.push(copy);
            assert(strings_view(names@) =~= strings_view(before).push(copy@));
        }
        i += 1;
    }
    assert(checks@.take(n as int) =~= checks@);
    names
}

/// The title of the list of outdated buckets in verbose output.
pub open spec fn outdated_title(n: nat) -> Seq<char> {
    decimal(n) + " outdated buckets:"@
}

/// What the status of the buckets says: in verbose output, the title of the
/// list of outdated buckets, or that all are up to date; otherwise whether
/// any is behind.
pub open spec fn buckets_line(outdated: nat, verbose: bool) -> Seq<char> {
    if outdated == 0 {
        BUCKETS_OK@
    } else if verbose {
        outdated_title(outdated)
    } else {
        BUCKETS_OUTDATED@
    }
}

/// The line the status of the buckets starts with, given how many are behind
pub fn buckets_summary(outdated: usize, verbose: bool) -> (line: String)
    ensures
        line@ == buckets_line(outdated as nat, verbose),
{
    if outdated == 0 {
        String::from_str(BUCKETS_OK)
    } else if verbose {
        let mut line = String::new();
        push_decimal(&mut line, outdated as u64);
        line.append(" outdated buckets:");
        line
    } else {
        String::from_str(BUCKETS_OUTDATED)
    }
}

/// The line on Scoop itself
pub fn scoop_summary(is_outdated: bool) -> (line: &'static str)
    ensures
        line@ == (if is_outdated { SCOOP_OUTDATED@ } else { SCOOP_OK@ }),
{
    if is_outdated {
        SCOOP_OUTDATED
    } else {
        SCOOP_OK
    }
}

/// A bucket is listed as outdated exactly when its check says it is behind:
/// there are no more names than checks, each check that says so adds its
/// bucket's name, and a failed check or one that says up to date adds none.
pub proof fn lemma_outdated_buckets(checks: Seq<(String, Option<bool>)>)
    ensures
        outdated_of(checks).len() <= checks.len(),
        (forall|i: int| 0 <= i < checks.len() ==> checks[i].1 != Some(true)) ==> outdated_of(checks).len() == 0,
        (forall|i: int| 0 <= i < checks.len() ==> checks[i].1 == Some(true)) ==> outdated_of(checks)
            == checks.map_values(|c: (String, Option<bool>)| c.0@),
        forall|n: Seq<char>| outdated_of(checks).contains(n) ==> exists|i: int|
            0 <= i < checks.len() && checks[i].1 == Some(true) && #[trigger] checks[i].0@ == n,
    decreases checks.len(),
{
    if checks.len() > 0 {
        let rest = checks.drop_last();
        lemma_outdated_buckets(rest);
        if forall|i: int| 0 <= i < checks.len() ==> checks[i].1 == Some(true) {
            assert forall|i: int| 0 <= i < rest.len() implies rest[i].1 == Some(true) by {
                assert(rest[i] == checks[i]);
            }
            assert(checks.map_values(|c: (String, Option<bool>)| c.0@) =~= rest.map_values(
                |c: (String, Option<bool>)| c.0@,
            ).push(checks.last().0@));
        }
        if forall|i: int| 0 <= i < checks.len() ==> checks[i].1 != Some(true) {
            assert forall|i: int| 0 <= i < rest.len() implies rest[i].1 != Some(true) by {
                assert(rest[i] == checks[i]);
            }
            assert(checks[checks.len() - 1].1 != Some(true));
        }
        assert forall|n: Seq<char>| outdated_of(checks).contains(n) implies exists|i: int|
            0 <= i < checks.len() && checks[i].1 == Some(true) && #[trigger] checks[i].0@ == n by {
            if outdated_of(rest).contains(n) {
                let i = choose|i: int| 0 <= i < rest.len() && rest[i].1 == Some(true) && #[trigger] rest[i].0@ == n;
                assert(checks[i] == rest[i]);
            } else {
                assert(checks[checks.len() - 1].0@ == n);
            }
        }
    }
}

/// With no bucket behind the buckets are up to date, in verbose output or
/// not; with some behind, verbose output counts them and plain output only
/// says so.
pub proof fn lemma_buckets_line(outdated: nat, verbose: bool)
    ensures
        outdated == 0 ==> buckets_line(outdated, verbose) == BUCKETS_OK@,
        outdated > 0 && !verbose ==> buckets_line(outdated, verbose) == BUCKETS_OUTDATED@,
        outdated > 0 && verbose ==> buckets_line(outdated, verbose) == decimal(outdated) + " outdated buckets:"@,
        buckets_line(outdated, true) != buckets_line(outdated, false) ==> outdated > 0,
{
}

} // verus!
