//! Purging the persist folders of apps: which folders go, which apps are
//! warned about, and what the user is asked.

use vstd::prelude::*;
use vstd::string::*;

use crate::text::{decimal, push_decimal, str_eq, strings_view};

verus! {

/// The persist folders to purge, each named by its app's bucket and name,
/// and the names of the apps that have no persist folder, from the apps asked
/// for, each given by its bucket, its name and whether its persist folder
/// exists: an app already chosen is passed over, one without a folder is
/// warned about.
pub open spec fn purge_plan_of(apps: Seq<(Seq<char>, Seq<char>, bool)>) -> (Seq<(Seq<char>, Seq<char>)>, Seq<Seq<char>>)
    decreases apps.len(),
{
    if apps.len() == 0 {
        (Seq::empty(), Seq::empty())
    } else {
        let (targets, missing) = purge_plan_of(apps.drop_last());
        let (bucket, name, exists) = apps.last();
        if targets.contains((bucket, name)) {
            (targets, missing)
        } else if !exists {
            (targets, missing.push(name))
        } else {
            (targets.push((bucket, name)), missing)
        }
    }
}

/// No persist folder is purged twice, and each one purged is that of an app
/// asked for whose folder exists.
pub proof fn lemma_purge_targets(apps: Seq<(Seq<char>, Seq<char>, bool)>)
    ensures
        forall|i: int, j: int|
            0 <= i < j < purge_plan_of(apps).0.len() ==> #[trigger] purge_plan_of(apps).0[i]
                != #[trigger] purge_plan_of(apps).0[j],
        forall|i: int|
            0 <= i < purge_plan_of(apps).0.len() ==> apps.contains(
                (#[trigger] purge_plan_of(apps).0[i].0, purge_plan_of(apps).0[i].1, true),
            ),
    decreases apps.len(),
{
    if apps.len() > 0 {
        let rest = apps.drop_last();
        lemma_purge_targets(rest);
        let (targets, missing) = purge_plan_of(rest);
        let (bucket, name, exists) = apps.last();
        assert forall|i: int|
            0 <= i < targets.len() implies apps.contains((targets[i].0, targets[i].1, true)) by {
            assert(rest.contains((targets[i].0, targets[i].1, true)));
            let k = choose|k: int| 0 <= k < rest.len() && rest[k] == (targets[i].0, targets[i].1, true);
            assert(apps[k] == rest[k]);
        }
        if !targets.contains((bucket, name)) && exists {
            let now = targets.push((bucket, name));
            assert(now == purge_plan_of(apps).0);
            assert forall|i: int, j: int| 0 <= i < j < now.len() implies now[i] != now[j] by {
                if j == now.len() - 1 {
                    assert(targets[i] == now[i]);
                }
            }
            assert(apps[apps.len() - 1] == (bucket, name, true));
        }
    }
}

/// The views of the apps asked for.
pub open spec fn apps_view(apps: Seq<(String, String, bool)>) -> Seq<(Seq<char>, Seq<char>, bool)> {
    apps.map_values(|a: (String, String, bool)| (a.0@, a.1@, a.2))
}

/// The views of chosen apps.
pub open spec fn pairs_view(pairs: Seq<(String, String)>) -> Seq<(Seq<char>, Seq<char>)> {
    pairs.map_values(|p: (String, String)| (p.0@, p.1@))
}

/// Whether an app of that bucket and name is among those chosen
fn chosen(targets: &Vec<(String, String)>, bucket: &str, name: &str) -> (b: bool)
    ensures
        b == pairs_view(targets@).contains((bucket@, name@)),
{
    let n = targets.len();
    let mut i: usize = 0;
    while i < n
        invariant
            n == targets@.len(),
            i <= n,
            forall|j: int| 0 <= j < i ==> pairs_view(targets@)[j] != (bucket@, name@),
        decreases n - i,
    {
        let (b, m) = &targets[i];
        if str_eq(b.as_str(), bucket) && str_eq(m.as_str(), name) {
            assert(pairs_view(targets@)[i as int] == (bucket@, name@));
            return true;
        }
        i += 1;
    }
    false
}

/// The persist folders to purge, by bucket and name, and the names of the
/// apps without one, from the apps asked for, each with its bucket, its name
/// and whether its persist folder exists
pub fn purge_plan(apps: &Vec<(String, String, bool)>) -> (r: (Vec<(String, String)>, Vec<String>))
    ensures
        (pairs_view(r.0@), strings_view(r.1@)) == purge_plan_of(apps_view(apps@)),
{
    let mut targets: Vec<(String, String)> = Vec::new();
    let mut missing: Vec<String> = Vec::new();
    let n = apps.len();
    let mut i: usize = 0;
    assert(apps_view(apps@.take(0)) =~= Seq::<(Seq<char>, Seq<char>, bool)>::empty());
    assert(pairs_view(targets@) =~= Seq::<(Seq<char>, Seq<char>)>::empty());
    assert(strings_view(missing@) =~= Seq::<Seq<char>>::empty());
    while i < n
        invariant
            n == apps@.len(),
            i <= n,
            (pairs_view(targets@), strings_view(missing@)) == purge_plan_of(apps_view(apps@.take(i as int))),
        decreases n - i,
    {
        let ghost taken = apps_view(apps@.take(i + 1));
        assert(taken.drop_last() =~= apps_view(apps@.take(i as int)));
        assert(taken.last() == (apps@[i as int].0@, apps@[i as int].1@, apps@[i as int].2));
        let ghost before_targets = targets@;
        let ghost before_missing = missing@;
        let (bucket, name, exists) = &apps[i];
        if chosen(&targets, bucket.as_str(), name.as_str()) {
        } else if !*exists {
            missing.push(String::from_str(name.as_str()));
            assert(strings_view(missing@) =~= strings_view(before_missing).push(name@));
        } else {
            targets.push((String::from_str(bucket.as_str()), String::from_str(name.as_str())));
            assert(pairs_view(targets@) =~= pairs_view(before_targets).push((bucket@, name@)));
        }
        i += 1;
    }
    assert(apps@.take(n as int) =~= apps@);
    (targets, missing)
}

/// What the user is asked before the folders are purged.
pub open spec fn purge_question(count: nat) -> Seq<char> {
    "Are you sure you want to purge the persist folder for "@ + (if count == 1 {
        "this app"@
    } else {
        decimal(count) + " apps"@
    }) + "?"@
}

/// What the user is asked before purging the persist folders of that many apps
pub fn purge_prompt(count: usize) -> (q: String)
    ensures
        q@ == purge_question(count as nat),
{
    let mut q = String::from_str("Are you sure you want to purge the persist folder for ");
    if count == 1 {
        q.append("this app");
    } else {
        push_decimal(&mut q, count as u64);
        q.append(" apps");
    }
    q.append("?");
    q
}

/// What the user is asked when some of the apps are installed
pub const INSTALLED_PROMPT: &'static str =
    "Some apps are installed. This could cause issues when running the app. Are you sure you want to continue?";

} // verus!
