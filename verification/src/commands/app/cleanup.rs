//! Names of files in Scoop's download cache, read back into the app, version
//! and URL hash they were stored under.

use vstd::prelude::*;
use vstd::string::*;

use crate::text::{opt_string_view, push_char, split_once, split_once_char, str_eq};

verus! {

/// The hash of the URL a cached file was downloaded from
#[derive(Debug)]
pub enum UrlHash {
    /// A hash of the expected seven characters
    Valid([char; 7]),
    /// Anything else found where the hash stands
    Invalid(String),
}

impl UrlHash {
    /// The characters of the hash.
    pub open spec fn chars(self) -> Seq<char> {
        match self {
            UrlHash::Valid(chars) => chars@,
            UrlHash::Invalid(s) => s@,
        }
    }

    /// The hash as text, as its `Display` writes it
    pub fn to_string(&self) -> (s: String)
        ensures
            s@ == self.chars(),
    {
        match self {
            UrlHash::Valid(chars) => {
                let mut s = String::new();
                let mut i: usize = 0;
                while i < 7
                    invariant
                        i <= 7,
                        chars@.len() == 7,
                        s@ == chars@.take(i as int),
                    decreases 7 - i,
                {
                    push_char(&mut s, chars[i]);
                    assert(chars@.take(i + 1) =~= chars@.take(i as int).push(chars@[i as int]));
                    i += 1;
                }
                assert(chars@.take(7) =~= chars@);
                s
            },
            UrlHash::Invalid(s) => s.clone(),
        }
    }
}

/// An entry of the download cache, read from its file name
#[derive(Debug)]
pub struct CacheEntry {
    pub name: String,
    pub version: String,
    pub url_hash: UrlHash,
}

/// Why a cache file name could not be read
#[derive(Debug, Copy, Clone, PartialEq, Eq, Structural)]
pub enum CacheEntryError {
    /// The path has no file name
    NoFileStem,
    /// The file name holds no `#` after the app's name
    NoVersion,
    /// The file name holds no `#` after the version
    NoHash,
}

/// `i` is the position of the last `sep` in `s`.
pub open spec fn is_last_index(s: Seq<char>, sep: char, i: int) -> bool {
    &&& 0 <= i < s.len()
    &&& s[i] == sep
    &&& forall|j: int| i < j < s.len() ==> s[j] != sep
}

/// The stem of a file name, as `Path::file_stem` documents it: the whole name
/// when it holds no `.` but a leading one, else what precedes its final `.`.
pub open spec fn file_stem_of_name(name: Seq<char>) -> Seq<char> {
    if exists|i: int| is_last_index(name, '.', i) && i > 0 {
        name.take(choose|i: int| is_last_index(name, '.', i) && i > 0)
    } else {
        name
    }
}

/// What precedes the first `sep` in `s`, or all of `s`.
pub open spec fn first_part(s: Seq<char>, sep: char) -> Seq<char> {
    match split_once(s, sep) {
        Some((part, _)) => part,
        None => s,
    }
}

/// The name, version and hash that a file stem `name#version#hash` holds:
/// the first three fields of the stem split at `#`.
pub open spec fn stem_fields(stem: Seq<char>) -> Result<(Seq<char>, Seq<char>, Seq<char>), CacheEntryError> {
    match split_once(stem, '#') {
        None => Err(CacheEntryError::NoVersion),
        Some((name, rest)) => match split_once(rest, '#') {
            None => Err(CacheEntryError::NoHash),
            Some((version, rest)) => Ok((name, version, first_part(rest, '#'))),
        },
    }
}

impl CacheEntry {
    /// The entry holds the given name, version and hash, the hash valid exactly
    /// when it has seven characters.
    pub open spec fn holds(self, name: Seq<char>, version: Seq<char>, hash: Seq<char>) -> bool {
        &&& self.name@ == name
        &&& self.version@ == version
        &&& self.url_hash.chars() == hash
        &&& (self.url_hash is Valid <==> hash.len() == 7)
    }

    /// What reading a file name gives.
    pub open spec fn reads_file_name(file_name: Seq<char>, r: Result<CacheEntry, CacheEntryError>) -> bool {
        match stem_fields(file_stem_of_name(file_name)) {
            Ok((name, version, hash)) => r matches Ok(e) && e.holds(name, version, hash),
            Err(err) => r matches Err(e) && e == err,
        }
    }

    /// Read a cache entry from the name of its file
    pub fn parse_file_name(file_name: &str) -> (r: Result<CacheEntry, CacheEntryError>)
        ensures
            Self::reads_file_name(file_name@, r),
    {
        let stem = file_stem(file_name);
        let (name, rest) = match split_once_char(stem, '#') {
            Some(parts) => parts,
            None => return Err(CacheEntryError::NoVersion),
        };
        let (version, rest) = match split_once_char(rest, '#') {
            Some(parts) => parts,
            None => return Err(CacheEntryError::NoHash),
        };
        let hash = match split_once_char(rest, '#') {
            Some((hash, _)) => hash,
            None => rest,
        };
        let url_hash = if hash.unicode_len() == 7 {
            let chars = [
                hash.get_char(0),
                hash.get_char(1),
                hash.get_char(2),
                hash.get_char(3),
                hash.get_char(4),
                hash.get_char(5),
                hash.get_char(6),
            ];
            assert(chars@ =~= hash@);
            UrlHash::Valid(chars)
        } else {
            UrlHash::Invalid(String::from_str(hash))
        };
        Ok(CacheEntry { name: String::from_str(name), version: String::from_str(version), url_hash })
    }

    /// Read a cache entry from the path of its file
    pub fn parse_path(path: &str) -> (r: Result<CacheEntry, CacheEntryError>)
        ensures
            match r {
                Err(CacheEntryError::NoFileStem) => true,
                _ => exists|name: Seq<char>|
                    crate::text::contains_seq(path@, name) && name.len() > 0 && #[trigger] Self::reads_file_name(
                        name,
                        r,
                    ),
            },
            known_file_name(path@) matches Some(f) ==> Self::reads_file_name(f, r),
    {
        match file_name(path) {
            Some(name) => {
                let r = Self::parse_file_name(name.as_str());
                assert(Self::reads_file_name(name@, r));
                r
            },
            None => Err(CacheEntryError::NoFileStem),
        }
    }

    /// The entry belongs to the given app but to another version than the current one.
    pub open spec fn stale_for(self, app_name: Option<Seq<char>>, current_version: Seq<char>) -> bool {
        app_name == Some(self.name@) && self.version@ != current_version
    }

    /// Whether cleaning the given app, at its current version, removes this entry
    pub fn is_stale_for(&self, app_name: &Option<String>, current_version: &str) -> (b: bool)
        ensures
            b == self.stale_for(opt_string_view(*app_name), current_version@),
    {
        match app_name {
            Some(app) => str_eq(app.as_str(), self.name.as_str()) && !str_eq(
                self.version.as_str(),
                current_version,
            ),
            None => false,
        }
    }
}

/// The stem of a file name: the name without its final extension
pub fn file_stem(name: &str) -> (stem: &str)
    ensures
        stem@ == file_stem_of_name(name@),
{
    let n = name.unicode_len();
    let mut i: usize = n;
    while i > 0
        invariant
            n == name@.len(),
            i <= n,
            forall|j: int| i <= j < n ==> name@[j] != '.',
        decreases i,
    {
        i -= 1;
        if name.get_char(i) == '.' {
            if i == 0 {
                proof {
                    assert forall|k: int| !(is_last_index(name@, '.', k) && k > 0) by {
                        if is_last_index(name@, '.', k) && k > 0 {
                            assert(name@[0] == '.');
                        }
                    }
                }
                return name;
            }
            let stem = name.substring_char(0, i);
            proof {
                assert(is_last_index(name@, '.', i as int));
                let k = choose|k: int| is_last_index(name@, '.', k) && k > 0;
                if k < i {
                    assert(name@[i as int] != '.');
                } else if k > i {
                    assert(name@[k] != '.');
                }
                assert(stem@ =~= name@.take(i as int));
            }
            return stem;
        }
    }
    proof {
        assert forall|k: int| !(is_last_index(name@, '.', k) && k > 0) by {
            if is_last_index(name@, '.', k) {
                assert(name@[k] != '.');
            }
        }
    }
    name
}

/// A path that is a bare file name on every platform: not empty, not `.` or
/// `..`, and free of `/`, `\\` and `:`.
pub open spec fn plain_file_name(path: Seq<char>) -> bool {
    &&& path.len() > 0
    &&& path != "."@
    &&& path != ".."@
    &&& forall|i: int| 0 <= i < path.len() ==> path[i] != '/' && path[i] != '\\' && path[i] != ':'
}

/// The final component of a path where every platform agrees on it: a bare
/// file name is its own; a path `d/f`, with `f` a bare file name, `d` free of
/// `\\`, and the path not starting with `//` (which Windows reads as a
/// network share), ends in `f`. Elsewhere none is known.
pub open spec fn known_file_name(path: Seq<char>) -> Option<Seq<char>> {
    if plain_file_name(path) {
        Some(path)
    } else if exists|i: int| is_last_index(path, '/', i) {
        let i = choose|i: int| is_last_index(path, '/', i);
        let f = path.skip(i + 1);
        if plain_file_name(f) && (forall|j: int| 0 <= j < i ==> path[j] != '\\') && !(path.len() >= 2
            && path[0] == '/' && path[1] == '/') {
            Some(f)
        } else {
            None
        }
    } else {
        None
    }
}

/// `Path::file_name`: the final component of a path, if there is one.
///
/// Which characters separate components depends on the platform (`\\` counts
/// on Windows, and alone in a verbatim path), so the contract pins the
/// component down only where `known_file_name` knows it; elsewhere it states
/// that a component found is a non-empty part of the path.
#[verifier::external_body]
fn file_name(path: &str) -> (name: Option<String>)
    ensures
        name matches Some(n) ==> crate::text::contains_seq(path@, n@) && n@.len() > 0,
        known_file_name(path@) matches Some(f) ==> name is Some && name.unwrap()@ == f,
{
    std::path::Path::new(path).file_name().map(|n| n.to_string_lossy().into_owned())
}

impl core::str::FromStr for CacheEntry {
    type Err = CacheEntryError;

    fn from_str(s: &str) -> (r: Result<CacheEntry, CacheEntryError>)
        ensures
            match r {
                Err(CacheEntryError::NoFileStem) => true,
                _ => exists|name: Seq<char>|
                    crate::text::contains_seq(s@, name) && name.len() > 0 && #[trigger] CacheEntry::reads_file_name(
                        name,
                        r,
                    ),
            },
            known_file_name(s@) matches Some(f) ==> CacheEntry::reads_file_name(f, r),
    {
        CacheEntry::parse_path(s)
    }
}

/// The installed versions of an app that cleaning removes: all but the current one, in order.
pub open spec fn old_versions_of(versions: Seq<Seq<char>>, current_version: Seq<char>) -> Seq<Seq<char>> {
    versions.filter(|v: Seq<char>| v != current_version)
}

/// The installed versions of an app that cleaning removes
pub fn old_versions(versions: Vec<String>, current_version: &str) -> (old: Vec<String>)
    ensures
        old.deep_view() == old_versions_of(versions.deep_view(), current_version@),
{
    let ghost pred = |v: Seq<char>| v != current_version@;
    let ghost all = versions.deep_view();
    let mut old: Vec<String> = Vec::new();
    let n = versions.len();
    let mut i: usize = 0;
    assert(all.take(0) =~= Seq::<Seq<char>>::empty());
    while i < n
        invariant
            n == versions@.len(),
            all == versions.deep_view(),
            i <= n,
            pred == (|v: Seq<char>| v != current_version@),
            old.deep_view() == all.take(i as int).filter(pred),
        decreases n - i,
    {
        let v = &versions[i];
        proof {
            assert(all.take(i + 1) =~= all.take(i as int).push(v@));
            all.take(i as int).lemma_filter_push(v@, pred);
        }
        let ghost before = old.deep_view();
        if !str_eq(v.as_str(), current_version) {
            old.push(v.clone());
            assert(old.deep_view() =~= before.push(v@));
        }
        i += 1;
    }
    assert(all.take(n as int) =~= all);
    old
}

/// The cache file, given by its path and its name, holds an entry of the app
/// at another version than the current one.
pub open spec fn stale_file(file: (Seq<char>, Seq<char>), app_name: Option<Seq<char>>, current_version: Seq<char>) -> bool {
    match stem_fields(file_stem_of_name(file.1)) {
        Ok((name, version, _)) => app_name == Some(name) && version != current_version,
        Err(_) => false,
    }
}

/// The paths of the cache files that cleaning an app removes, in order: of
/// the files, each given by its path and its name, those whose name reads as
/// an entry of the app at another version than the current one.
pub open spec fn stale_paths_of(files: Seq<(Seq<char>, Seq<char>)>, app_name: Option<Seq<char>>, current_version: Seq<char>) -> Seq<Seq<char>>
    decreases files.len(),
{
    if files.len() == 0 {
        Seq::empty()
    } else {
        let rest = stale_paths_of(files.drop_last(), app_name, current_version);
        if stale_file(files.last(), app_name, current_version) {
            rest.push(files.last().0)
        } else {
            rest
        }
    }
}

/// The views of files given by their path and name.
pub open spec fn files_view(files: Seq<(String, String)>) -> Seq<(Seq<char>, Seq<char>)> {
    files.map_values(|f: (String, String)| (f.0@, f.1@))
}

/// The paths of the cache files, each given by its path and its name, that
/// cleaning the app at its current version removes
pub fn stale_cache_files(files: &Vec<(String, String)>, app_name: &Option<String>, current_version: &str) -> (paths: Vec<String>)
    ensures
        paths.deep_view() == stale_paths_of(files_view(files@), opt_string_view(*app_name), current_version@),
{
    let mut paths: Vec<String> = Vec::new();
    let n = files.len();
    let mut i: usize = 0;
    assert(files_view(files@.take(0)) =~= Seq::<(Seq<char>, Seq<char>)>::empty());
    assert(paths.deep_view() =~= Seq::<Seq<char>>::empty());
    while i < n
        invariant
            n == files@.len(),
            i <= n,
            paths.deep_view() == stale_paths_of(files_view(files@.take(i as int)), opt_string_view(*app_name), current_version@),
        decreases n - i,
    {
        let ghost taken = files_view(files@.take(i + 1));
        assert(taken.drop_last() =~= files_view(files@.take(i as int)));
        assert(taken.last() == (files@[i as int].0@, files@[i as int].1@));
        let ghost before = paths.deep_view();
        let (path, name) = &files[i];
        match CacheEntry::parse_file_name(name.as_str()) {
            Ok(entry) => {
                if entry.is_stale_for(app_name, current_version) {
                    paths.push(path.clone());
                    assert(paths.deep_view() =~= before.push(path@));
                }
            },
            Err(_) => {},
        }
        i += 1;
    }
    assert(files@.take(n as int) =~= files@);
    paths
}

/// What cleaning an app removes, given its stale cache files and its old
/// version directories: the cache files only when the cache is cleaned too,
/// and nothing in a dry run.
pub open spec fn removals_of(clean_cache: bool, dry_run: bool, stale_cache: Seq<Seq<char>>, old_dirs: Seq<Seq<char>>) -> (Seq<Seq<char>>, Seq<Seq<char>>) {
    if dry_run {
        (Seq::empty(), Seq::empty())
    } else if clean_cache {
        (stale_cache, old_dirs)
    } else {
        (Seq::empty(), old_dirs)
    }
}

/// The cache files and the version directories that cleaning an app removes
pub fn cleanup_removals(clean_cache: bool, dry_run: bool, stale_cache: Vec<String>, old_dirs: Vec<String>) -> (r: (Vec<String>, Vec<String>))
    ensures
        (r.0.deep_view(), r.1.deep_view()) == removals_of(clean_cache, dry_run, stale_cache.deep_view(), old_dirs.deep_view()),
{
    if dry_run {
        let a: Vec<String> = Vec::new();
        let b: Vec<String> = Vec::new();
        assert(a.deep_view() =~= Seq::<Seq<char>>::empty());
        assert(b.deep_view() =~= Seq::<Seq<char>>::empty());
        (a, b)
    } else if clean_cache {
        (stale_cache, old_dirs)
    } else {
        let a: Vec<String> = Vec::new();
        assert(a.deep_view() =~= Seq::<Seq<char>>::empty());
        (a, old_dirs)
    }
}

} // verus!
