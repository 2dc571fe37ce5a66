//! Listing outdated apps and buckets: which apps are listed, in what order,
//! and what is said of the buckets.

use vstd::prelude::*;
use vstd::string::*;

use crate::listing::{arranged_from, dedup, deduped, sort_by_name, sorted_by_name, Listed};
use crate::text::str_eq;

verus! {

/// An installed app for which its bucket has another version
#[derive(Debug)]
pub struct OutdatedApp {
    pub name: String,
    pub current: String,
    pub available: String,
}

impl Listed for OutdatedApp {
    open spec fn name_view(&self) -> Seq<char> {
        self.name@
    }

    open spec fn same_as(&self, other: &Self) -> bool {
        self.name@ == other.name@ && self.current@ == other.current@ && self.available@
            == other.available@
    }

    fn name(&self) -> (s: &str) {
        self.name.as_str()
    }

    fn is_same(&self, other: &Self) -> (b: bool) {
        str_eq(self.name.as_str(), other.name.as_str()) && str_eq(
            self.current.as_str(),
            other.current.as_str(),
        ) && str_eq(self.available.as_str(), other.available.as_str())
    }
}

/// The outdated apps as they are listed: each repeat that follows the same
/// app dropped, in descending order of name, apps of one name in the order
/// they came
pub fn outdated_list(apps: Vec<OutdatedApp>) -> (r: Vec<OutdatedApp>)
    ensures
        r@.to_multiset() == deduped(apps@).to_multiset(),
        sorted_by_name(r@, true),
        exists|from: Seq<int>| arranged_from(deduped(apps@), r@, from),
{
    sort_by_name(dedup(apps), true)
}

/// The line shown when no app is outdated
pub const NO_OUTDATED_APPS: &'static str = "No outdated packages.";

/// The line shown when no bucket is outdated
pub const BUCKETS_UP_TO_DATE: &'static str = "All buckets are up to date!";

/// The line that reports one outdated bucket.
pub open spec fn bucket_line(name: Seq<char>) -> Seq<char> {
    "❌ `"@ + name + "` bucket is out of date"@
}

/// The line that reports an outdated bucket
pub fn outdated_bucket_line(name: &str) -> (line: String)
    ensures
        line@ == bucket_line(name@),
{
    let mut line = String::from_str("❌ `");
    line.append(name);
    line.append("` bucket is out of date");
    line
}

} // verus!
