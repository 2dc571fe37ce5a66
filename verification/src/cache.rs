//! Downloads into Scoop's cache: the names the files are stored under, and
//! the label of each download's progress bar.

use vstd::prelude::*;
use vstd::string::*;

use crate::commands::app::cleanup::{first_part, is_last_index, stem_fields};

verus! {

/// The name a download is cached under: `name#version#url`.
pub open spec fn cache_name(name: Seq<char>, version: Seq<char>, url: Seq<char>) -> Seq<char> {
    name + "#"@ + version + "#"@ + url
}

/// The name of the cache file for a download of an app's version from a URL
pub fn cache_file_name(name: &str, version: &str, url: &str) -> (s: String)
    ensures
        s@ == cache_name(name@, version@, url@),
{
    let mut s = String::from_str(name);
    s.append("#");
    s.append(version);
    s.append("#");
    s.append(url);
    s
}

/// The label of a download's progress bar: what follows the last `_` of the
/// cached file's name, or all of it.
pub open spec fn progress_label(file_name: Seq<char>) -> Seq<char> {
    if exists|i: int| is_last_index(file_name, '_', i) {
        file_name.skip((choose|i: int| is_last_index(file_name, '_', i)) + 1)
    } else {
        file_name
    }
}

/// The label of a download's progress bar
pub fn progress_message(file_name: &str) -> (s: String)
    ensures
        s@ == progress_label(file_name@),
{
    let n = file_name.unicode_len();
    let mut i: usize = n;
    while i > 0
        invariant
            n == file_name@.len(),
            i <= n,
            forall|j: int| i <= j < n ==> file_name@[j] != '_',
        decreases i,
    {
        i -= 1;
        if file_name.get_char(i) == '_' {
            let label = file_name.substring_char(i + 1, n);
            proof {
                assert(is_last_index(file_name@, '_', i as int));
                let k = choose|k: int| is_last_index(file_name@, '_', k);
                if k < i {
                    assert(file_name@[i as int] != '_');
                } else if k > i {
                    assert(file_name@[k] != '_');
                }
                assert(label@ =~= file_name@.skip(i + 1));
            }
            return String::from_str(label);
        }
    }
    proof {
        assert forall|k: int| !is_last_index(file_name@, '_', k) by {
            if is_last_index(file_name@, '_', k) {
                assert(file_name@[k] != '_');
            }
        }
    }
    String::from_str(file_name)
}

/// A download's cache name reads back as the app's name, its version and the
/// URL up to its first `#`, when neither name nor version holds a `#`.
pub proof fn lemma_cache_name_reads_back(name: Seq<char>, version: Seq<char>, url: Seq<char>)
    requires
        forall|i: int| 0 <= i < name.len() ==> name[i] != '#',
        forall|i: int| 0 <= i < version.len() ==> version[i] != '#',
    ensures
        stem_fields(cache_name(name, version, url)) == Ok::<(Seq<char>, Seq<char>, Seq<char>), crate::commands::app::cleanup::CacheEntryError>(
            (name, version, first_part(url, '#')),
        ),
{
    reveal_strlit("#");
    assert("#"@ =~= seq!['#']);
    let rest = version + seq!['#'] + url;
    assert(cache_name(name, version, url) =~= name + seq!['#'] + rest);
    crate::text::lemma_split_once_joined(name, '#', rest);
    crate::text::lemma_split_once_joined(version, '#', url);
}

/// The number of bytes a download copies into its cache file at a time
pub const CHUNK_SIZE: u64 = 1024;

/// What a download reads next
#[derive(Debug, Copy, Clone, PartialEq, Eq, Structural)]
pub enum ReadStep {
    /// A whole chunk of `CHUNK_SIZE` bytes, after which the download goes on
    Chunk,
    /// All that is left, after which the download is done
    Rest,
}

/// What a download of `total` bytes reads next after `current` bytes: a
/// whole chunk while at least one is left, then the rest.
pub open spec fn read_step(total: nat, current: nat) -> ReadStep {
    if total - current < CHUNK_SIZE {
        ReadStep::Rest
    } else {
        ReadStep::Chunk
    }
}

/// What a download of `total` bytes reads next, having read `current` of them
pub fn next_read(total: u64, current: u64) -> (step: ReadStep)
    requires
        current <= total,
    ensures
        step == read_step(total as nat, current as nat),
{
    if total - current < CHUNK_SIZE {
        ReadStep::Rest
    } else {
        ReadStep::Chunk
    }
}

/// Reading whole chunks never goes past the end: after a chunk is read, at
/// most `total` bytes have been read.
pub proof fn lemma_chunks_stay_within(total: nat, current: nat)
    requires
        current <= total,
        read_step(total, current) == ReadStep::Chunk,
    ensures
        current + CHUNK_SIZE <= total,
{
}

} // verus!
