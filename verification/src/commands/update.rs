//! Updating Scoop and its buckets: how fetch progress is shown, and how wide
//! the bucket names are laid out.

use vstd::prelude::*;
use vstd::string::*;

verus! {

/// What the progress bar of a fetch shows next
#[derive(Debug, Copy, Clone, PartialEq, Eq)]
pub struct ProgressUpdate {
    pub position: u64,
    pub length: u64,
    /// The new message, if it changes
    pub message: Option<&'static str>,
}

/// How a fetch's progress is shown, from git's transfer statistics: a thin
/// pack counts indexed objects; once all objects are received, indexed
/// deltas are counted while "Resolving deltas"; before that, received objects
/// while "Receiving objects". With no objects yet nothing changes.
pub open spec fn progress_of(
    thin: bool,
    indexed_objects: u64,
    received_objects: u64,
    total_objects: u64,
    indexed_deltas: u64,
    total_deltas: u64,
) -> Option<ProgressUpdate> {
    if thin {
        Some(ProgressUpdate { position: indexed_objects, length: total_objects, message: None })
    } else if received_objects == total_objects {
        Some(ProgressUpdate { position: indexed_deltas, length: total_deltas, message: Some("Resolving deltas") })
    } else if total_objects > 0 {
        Some(ProgressUpdate { position: received_objects, length: total_objects, message: Some("Receiving objects") })
    } else {
        None
    }
}

/// The next state of a fetch's progress bar
pub fn progress_update(
    thin: bool,
    indexed_objects: u64,
    received_objects: u64,
    total_objects: u64,
    indexed_deltas: u64,
    total_deltas: u64,
) -> (r: Option<ProgressUpdate>)
    ensures
        r == progress_of(thin, indexed_objects, received_objects, total_objects, indexed_deltas, total_deltas),
{
    if thin {
        Some(ProgressUpdate { position: indexed_objects, length: total_objects, message: None })
    } else if received_objects == total_objects {
        Some(ProgressUpdate { position: indexed_deltas, length: total_deltas, message: Some("Resolving deltas") })
    } else if total_objects > 0 {
        Some(ProgressUpdate { position: received_objects, length: total_objects, message: Some("Receiving objects") })
    } else {
        None
    }
}

/// The largest length in bytes of the names, or zero for none.
pub open spec fn longest(names: Seq<String>) -> nat
    decreases names.len(),
{
    if names.len() == 0 {
        0
    } else {
        let rest = longest(names.drop_last());
        let len = vstd::utf8::encode_utf8(names.last()@).len();
        if len > rest {
            len
        } else {
            rest
        }
    }
}

/// The width to pad bucket names to: the length of the longest one
pub fn longest_name_len(names: &Vec<String>) -> (w: usize)
    ensures
        w == longest(names@),
{
    let mut w: usize = 0;
    let n = names.len();
    let mut i: usize = 0;
    assert(names@.take(0) =~= Seq::<String>::empty());
    while i < n
        invariant
            n == names@.len(),
            i <= n,
            w == longest(names@.take(i as int)),
        decreases n - i,
    {
        let name = names[i].as_str();
        let len = name.as_bytes().len();
        assert(names@.take(i + 1).drop_last() =~= names@.take(i as int));
        assert(names@.take(i + 1).last() == names@[i as int]);
        assert(name@ == names@[i as int]@);
        assert(len == vstd::utf8::encode_utf8(names@[i as int]@).len());
        if len > w {
            w = len;
        }
        i += 1;
    }
    assert(names@.take(n as int) =~= names@);
    w
}

/// `n` spaces.
pub open spec fn spaces(n: nat) -> Seq<char> {
    Seq::new(n, |i: int| ' ')
}

/// The text left-aligned in a field `width` characters wide, as `{:<width$}`
/// formats it: spaces follow it up to the width.
pub open spec fn padded(text: Seq<char>, width: nat) -> Seq<char> {
    if text.len() < width {
        text + spaces((width - text.len()) as nat)
    } else {
        text
    }
}

/// The text left-aligned in a field `width` characters wide
pub fn pad_right(text: &str, width: usize) -> (s: String)
    ensures
        s@ == padded(text@, width as nat),
{
    let mut s = String::from_str(text);
    let n = text.unicode_len();
    let mut i: usize = n;
    assert(s@ =~= text@ + spaces(0));
    while i < width
        invariant
            n == text@.len(),
            n <= i,
            i <= width || i == n,
            s@ == text@ + spaces((i - n) as nat),
        decreases width - i,
    {
        let ghost before = s@;
        s.append(" ");
        proof {
            reveal_strlit(" ");
            assert(spaces((i + 1 - n) as nat) =~= spaces((i - n) as nat).push(' '));
            assert(s@ =~= text@ + spaces((i + 1 - n) as nat));
        }
        i += 1;
    }
    s
}

/// The prefix of a bucket's progress bar: a bucket, then its name padded to the width.
pub open spec fn bucket_prefix_of(name: Seq<char>, width: nat) -> Seq<char> {
    "🪣 "@ + padded(name, width)
}

/// The prefix of a bucket's progress bar
pub fn bucket_prefix(name: &str, width: usize) -> (s: String)
    ensures
        s@ == bucket_prefix_of(name@, width as nat),
{
    let mut s = String::from_str("🪣 ");
    let padded_name = pad_right(name, width);
    s.append(padded_name.as_str());
    s
}

/// The prefix of Scoop's own progress bar: an ice cream, then "Scoop" padded to the width.
pub open spec fn scoop_prefix_of(width: nat) -> Seq<char> {
    "🍨 "@ + padded("Scoop"@, width)
}

/// The prefix of Scoop's own progress bar
pub fn scoop_prefix(width: usize) -> (s: String)
    ensures
        s@ == scoop_prefix_of(width as nat),
{
    let mut s = String::from_str("🍨 ");
    let padded_name = pad_right("Scoop", width);
    s.append(padded_name.as_str());
    s
}

/// The message of a repository that has no update
pub const NO_UPDATES: &'static str = "✅ No updates available";

/// The title of Scoop's own changes
pub const SCOOP_CHANGES: &'static str = "Scoop changes:";

/// The title of a bucket's changes.
pub open spec fn changes_title_of(name: Seq<char>) -> Seq<char> {
    name + " changes:"@
}

/// The title of a bucket's changes, or `None` when the bucket has none to show
pub fn changes_title(name: &str, changes: usize) -> (t: Option<String>)
    ensures
        changes == 0 <==> t is None,
        t matches Some(s) ==> s@ == changes_title_of(name@),
{
    if changes == 0 {
        return None;
    }
    let mut s = String::from_str(name);
    s.append(" changes:");
    Some(s)
}

/// Padding keeps the text at the start and adds only spaces: the result is as
/// wide as the field, or the text itself when it is wider.
pub proof fn lemma_padded(text: Seq<char>, width: nat)
    ensures
        padded(text, width).len() == if text.len() < width {
            width
        } else {
            text.len()
        },
        padded(text, width).take(text.len() as int) == text,
        forall|i: int| text.len() <= i < padded(text, width).len() ==> padded(text, width)[i] == ' ',
{
    assert(padded(text, width).take(text.len() as int) =~= text);
}

} // verus!
