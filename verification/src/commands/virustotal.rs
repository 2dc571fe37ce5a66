//! Scanning apps with VirusTotal: what a scan's statistics count, and which
//! results are reported.

use vstd::prelude::*;
use vstd::string::*;

use crate::text::{decimal, push_decimal};

verus! {

/// How dangerous VirusTotal finds a file
#[derive(Debug, Copy, Clone, PartialEq, Eq, PartialOrd, Ord, Hash, Structural)]
pub enum Status {
    Undetected,
    Suspicious,
    Malicious,
}

impl Status {
    /// The place of the status in the order `Undetected < Suspicious < Malicious`.
    pub open spec fn rank(self) -> int {
        match self {
            Status::Undetected => 0,
            Status::Suspicious => 1,
            Status::Malicious => 2,
        }
    }
}

/// A result is reported when no `--filter` is given, or when its status is above the filter.
pub open spec fn reported_under(status: Status, filter: Option<Status>) -> bool {
    match filter {
        Some(f) => status.rank() > f.rank(),
        None => true,
    }
}

/// Whether a result is reported: with a `--filter`, only statuses above it are
pub fn is_reported(status: Status, filter: Option<Status>) -> (b: bool)
    ensures
        b == reported_under(status, filter),
{
    match filter {
        Some(f) => match (status, f) {
            (Status::Malicious, Status::Suspicious) | (Status::Malicious, Status::Undetected) | (
                Status::Suspicious,
                Status::Undetected,
            ) => true,
            _ => false,
        },
        None => true,
    }
}

/// A statistic missing from a scan's analysis
#[derive(Debug, Copy, Clone, PartialEq, Eq, Structural)]
pub enum StatsError {
    NoMalicious,
    NoSuspicious,
    NoUndetected,
}

/// The detections and the total of a scan, from its counts of malicious,
/// suspicious and undetected verdicts: the detections are the malicious and
/// suspicious ones, the total adds the undetected ones. A missing count is an
/// error, the first missing one in that order.
pub fn tally(malicious: Option<u64>, suspicious: Option<u64>, undetected: Option<u64>) -> (r: Result<(u64, u64), StatsError>)
    requires
        malicious is Some && suspicious is Some ==> malicious->0 + suspicious->0 <= u64::MAX,
        malicious is Some && suspicious is Some && undetected is Some ==> malicious->0
            + suspicious->0 + undetected->0 <= u64::MAX,
    ensures
        match (malicious, suspicious, undetected) {
            (None, _, _) => r == Err::<(u64, u64), StatsError>(StatsError::NoMalicious),
            (Some(_), None, _) => r == Err::<(u64, u64), StatsError>(StatsError::NoSuspicious),
            (Some(_), Some(_), None) => r == Err::<(u64, u64), StatsError>(StatsError::NoUndetected),
            (Some(m), Some(s), Some(u)) => r == Ok::<(u64, u64), StatsError>(
                ((m + s) as u64, (m + s + u) as u64),
            ),
        },
{
    let m = match malicious {
        Some(m) => m,
        None => return Err(StatsError::NoMalicious),
    };
    let s = match suspicious {
        Some(s) => s,
        None => return Err(StatsError::NoSuspicious),
    };
    let detected = m + s;
    let u = match undetected {
        Some(u) => u,
        None => return Err(StatsError::NoUndetected),
    };
    Ok((detected, detected + u))
}

/// A result reported under a filter is reported under any lower filter, and
/// without one.
pub proof fn lemma_reporting_monotone(status: Status, filter: Status, lower: Status)
    requires
        reported_under(status, Some(filter)),
        lower.rank() <= filter.rank(),
    ensures
        reported_under(status, Some(lower)),
        reported_under(status, None),
{
}

/// What a scan looks up: a file by its hash, or a download URL
#[derive(Debug, Clone)]
pub enum SearchType {
    FileHash(String),
    Url(String),
}

/// An app to scan, with what to look up for it
#[derive(Debug, Clone)]
pub struct StrippedManifest {
    pub name: String,
    pub bucket: String,
    pub search_type: SearchType,
}

impl StrippedManifest {
    /// The app of the given name and bucket, with what to look up for it
    pub fn new(name: String, bucket: String, search_type: SearchType) -> (m: StrippedManifest)
        ensures
            m.name == name,
            m.bucket == bucket,
            m.search_type == search_type,
    {
        StrippedManifest { name, bucket, search_type }
    }
}

/// The line reporting a scan: `bucket/name: detected/total`, and for a file
/// hash where to see more.
pub open spec fn report_line(manifest: StrippedManifest, detected: u64, total: u64) -> Seq<char> {
    let base = manifest.bucket@ + "/"@ + manifest.name@ + ": "@ + decimal(detected as nat) + "/"@
        + decimal(total as nat);
    match manifest.search_type {
        SearchType::FileHash(hash) => base + ". See more at https://www.virustotal.com/gui/url/"@ + hash@,
        SearchType::Url(_) => base,
    }
}

/// The report on a scan, unless the filter leaves it out
pub fn scan_report(manifest: &StrippedManifest, status: Status, filter: Option<Status>, detected: u64, total: u64) -> (r: Option<String>)
    ensures
        r is Some <==> reported_under(status, filter),
        r matches Some(line) ==> line@ == report_line(*manifest, detected, total),
{
    if !is_reported(status, filter) {
        return None;
    }
    let mut info = manifest.bucket.clone();
    info.append("/");
    info.append(manifest.name.as_str());
    info.append(": ");
    push_decimal(&mut info, detected);
    info.append("/");
    push_decimal(&mut info, total);
    match &manifest.search_type {
        SearchType::FileHash(hash) => {
            info.append(". See more at https://www.virustotal.com/gui/url/");
            info.append(hash.as_str());
        },
        SearchType::Url(_) => {},
    }
    assert(info@ =~= report_line(*manifest, detected, total));
    Some(info)
}

} // verus!
