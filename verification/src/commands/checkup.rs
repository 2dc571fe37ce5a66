//! Checking the machine for what Scoop needs: the report that `checkup` and
//! `doctor` print from the findings.

use vstd::prelude::*;
use vstd::string::*;

use crate::commands::info::{join, lemma_join_step};
use crate::text::strings_view;

verus! {

/// Whether Windows lets paths grow past the old length limit
#[derive(Debug, Copy, Clone, PartialEq, Eq, Structural)]
pub enum LongPathsStatus {
    Enabled,
    OldWindows,
    Disabled,
}

/// A helper program that Scoop uses and that is not installed, with the
/// packages that provide it
#[derive(Debug)]
pub struct Helper {
    pub name: String,
    pub packages: Vec<String>,
}

/// What was found on the machine
#[derive(Debug)]
pub struct Diagnostics {
    pub git_installed: bool,
    pub main_bucket: bool,
    pub windows_developer: bool,
    pub long_paths: LongPathsStatus,
    pub scoop_ntfs: bool,
    pub missing_helpers: Vec<Helper>,
}

pub const GIT_OK: &'static str = "✅ Git is installed";

pub const GIT_MISSING: &'static str = "❌ Git is not installed";

pub const GIT_WHY: &'static str =
    "\tScoop relies on Git to manage itself and its buckets. sfsu does not expressly require git, but it is still recommended to install it, until sfsu can manage itself entirely without Scoop.";

pub const GIT_FIX: &'static str = "\tRun `scoop install git` to install it";

pub const MAIN_OK: &'static str = "✅ Main bucket is installed";

pub const MAIN_MISSING: &'static str = "❌ Main bucket is not installed";

pub const MAIN_FIX: &'static str = "\tRun `scoop bucket add main` to install it";

pub const DEVELOPER_OK: &'static str = "✅ Windows Developer Mode is enabled";

pub const DEVELOPER_OFF: &'static str = "❌ Windows Developer Mode is not enabled";

pub const DEVELOPER_WHY: &'static str =
    "\tWindows Developer Mode is not enabled. Operations relevant to symlinks may fail without proper rights";

pub const LONG_PATHS_OK: &'static str = "✅ Long paths are enabled";

pub const LONG_PATHS_OLD: &'static str = "❌ This version of Windows does not support long paths";

pub const LONG_PATHS_OFF: &'static str = "❌ Long paths are disabled";

pub const LONG_PATHS_FIX: &'static str =
    "\tRun `Set-ItemProperty 'HKLM:\\SYSTEM\\CurrentControlSet\\Control\\FileSystem' -Name 'LongPathsEnabled' -Value 1` as admin to enable it";

pub const NTFS_OK: &'static str = "✅ NTFS is the filesystem of the Scoop directory";

pub const NTFS_MISSING: &'static str = "❌ NTFS is not the filesystem of the Scoop directory";

pub const NTFS_FIX: &'static str =
    "\tScoop requires an NTFS volume to work! Please point `$env:SCOOP or 'root_path' variable in '~/.config/scoop/config.json' to another Drive with NTFS filesystem";

/// The lines on Git.
pub open spec fn git_lines(installed: bool) -> Seq<Seq<char>> {
    if installed {
        seq![GIT_OK@]
    } else {
        seq![GIT_MISSING@, GIT_WHY@, GIT_FIX@]
    }
}

/// The lines on the main bucket.
pub open spec fn main_bucket_lines(installed: bool) -> Seq<Seq<char>> {
    if installed {
        seq![MAIN_OK@]
    } else {
        seq![MAIN_MISSING@, MAIN_FIX@]
    }
}

/// The lines on Windows Developer Mode.
pub open spec fn developer_lines(enabled: bool) -> Seq<Seq<char>> {
    if enabled {
        seq![DEVELOPER_OK@]
    } else {
        seq![DEVELOPER_OFF@, DEVELOPER_WHY@]
    }
}

/// The lines on long paths.
pub open spec fn long_paths_lines(status: LongPathsStatus) -> Seq<Seq<char>> {
    match status {
        LongPathsStatus::Enabled => seq![LONG_PATHS_OK@],
        LongPathsStatus::OldWindows => seq![LONG_PATHS_OLD@],
        LongPathsStatus::Disabled => seq![LONG_PATHS_OFF@, LONG_PATHS_FIX@],
    }
}

/// The lines on the filesystem of the Scoop directory.
pub open spec fn ntfs_lines(ntfs: bool) -> Seq<Seq<char>> {
    if ntfs {
        seq![NTFS_OK@]
    } else {
        seq![NTFS_MISSING@, NTFS_FIX@]
    }
}

/// The command that installs a package, in backticks.
pub open spec fn install_command(package: Seq<char>) -> Seq<char> {
    "`scoop install "@ + package + "`"@
}

/// The lines on one missing helper: its name, and each package that provides
/// it, as the command that installs it, joined by ` or `.
pub open spec fn helper_lines(name: Seq<char>, packages: Seq<Seq<char>>) -> Seq<Seq<char>> {
    seq![
        "❌ Missing helper: "@ + name,
        "\tInstall it with: "@ + join(packages.map_values(|p: Seq<char>| install_command(p)), " or "@),
    ]
}

/// The lines on all missing helpers, one after the other.
pub open spec fn helpers_lines(helpers: Seq<Helper>) -> Seq<Seq<char>>
    decreases helpers.len(),
{
    if helpers.len() == 0 {
        Seq::empty()
    } else {
        helpers_lines(helpers.drop_last()) + helper_lines(
            helpers.last().name@,
            strings_view(helpers.last().packages@),
        )
    }
}

impl Diagnostics {
    /// The report of `checkup`: Git, the main bucket, Developer Mode, long
    /// paths, the filesystem, then each missing helper.
    pub open spec fn checkup_lines(&self) -> Seq<Seq<char>> {
        git_lines(self.git_installed) + main_bucket_lines(self.main_bucket) + developer_lines(
            self.windows_developer,
        ) + long_paths_lines(self.long_paths) + ntfs_lines(self.scoop_ntfs) + helpers_lines(
            self.missing_helpers@,
        )
    }

    /// The report of `doctor`: the main bucket, Developer Mode and long paths.
    pub open spec fn doctor_lines(&self) -> Seq<Seq<char>> {
        main_bucket_lines(self.main_bucket) + developer_lines(self.windows_developer)
            + long_paths_lines(self.long_paths)
    }

    /// The lines that `checkup` prints
    pub fn checkup_report(&self) -> (lines: Vec<String>)
        ensures
            strings_view(lines@) == self.checkup_lines(),
    {
        let mut lines: Vec<String> = Vec::new();
        assert(strings_view(lines@) =~= Seq::<Seq<char>>::empty());
        self.push_git_lines(&mut lines);
        self.push_doctor_lines(&mut lines);
        self.push_ntfs_lines(&mut lines);
        self.push_helpers_lines(&mut lines);
        assert(strings_view(lines@) =~= self.checkup_lines());
        lines
    }

    /// Add the lines on Git
    fn push_git_lines(&self, lines: &mut Vec<String>)
        ensures
            strings_view(final(lines)@) == strings_view(old(lines)@) + git_lines(self.git_installed),
    {
        let ghost start = strings_view(lines@);
        if self.git_installed {
            push_line(lines, GIT_OK);
        } else {
            push_line(lines, GIT_MISSING);
            push_line(lines, GIT_WHY);
            push_line(lines, GIT_FIX);
        }
        assert(strings_view(lines@) =~= start + git_lines(self.git_installed));
    }

    /// Add the lines on the filesystem of the Scoop directory
    fn push_ntfs_lines(&self, lines: &mut Vec<String>)
        ensures
            strings_view(final(lines)@) == strings_view(old(lines)@) + ntfs_lines(self.scoop_ntfs),
    {
        let ghost start = strings_view(lines@);
        if self.scoop_ntfs {
            push_line(lines, NTFS_OK);
        } else {
            push_line(lines, NTFS_MISSING);
            push_line(lines, NTFS_FIX);
        }
        assert(strings_view(lines@) =~= start + ntfs_lines(self.scoop_ntfs));
    }

    /// Add the lines on each missing helper
    fn push_helpers_lines(&self, lines: &mut Vec<String>)
        ensures
            strings_view(final(lines)@) == strings_view(old(lines)@) + helpers_lines(self.missing_helpers@),
    {
        let n = self.missing_helpers.len();
        let mut i: usize = 0;
        let ghost head = strings_view(lines@);
        assert(self.missing_helpers@.take(0) =~= Seq::<Helper>::empty());
        assert(head + helpers_lines(self.missing_helpers@.take(0)) =~= head);
        while i < n
            invariant
                n == self.missing_helpers@.len(),
                i <= n,
                strings_view(lines@) == head + helpers_lines(self.missing_helpers@.take(i as int)),
            decreases n - i,
        {
            let helper = &self.missing_helpers[i];
            let ghost before = lines@;
            let mut first = String::from_str("❌ Missing helper: ");
            first.append(helper.name.as_str());
            let second = install_line(&helper.packages);
            lines.push(first);
            lines.push(second);
            proof {
                let taken = self.missing_helpers@.take(i + 1);
                assert(taken.drop_last() =~= self.missing_helpers@.take(i as int));
                assert(taken.last() == self.missing_helpers@[i as int]);
                assert(strings_view(lines@) =~= strings_view(before) + helper_lines(
                    helper.name@,
                    strings_view(helper.packages@),
                ));
            }
            i += 1;
        }
        assert(self.missing_helpers@.take(n as int) =~= self.missing_helpers@);
    }

    /// The lines that `doctor` prints
    pub fn doctor_report(&self) -> (lines: Vec<String>)
        ensures
            strings_view(lines@) == self.doctor_lines(),
    {
        let mut lines: Vec<String> = Vec::new();
        assert(strings_view(lines@) =~= Seq::<Seq<char>>::empty());
        self.push_doctor_lines(&mut lines);
        assert(strings_view(lines@) =~= self.doctor_lines());
        lines
    }

    /// Add the lines on the main bucket, Developer Mode and long paths
    fn push_doctor_lines(&self, lines: &mut Vec<String>)
        ensures
            strings_view(final(lines)@) == strings_view(old(lines)@) + self.doctor_lines(),
    {
        let ghost start = strings_view(lines@);
        if self.main_bucket {
            push_line(lines, MAIN_OK);
        } else {
            push_line(lines, MAIN_MISSING);
            push_line(lines, MAIN_FIX);
        }
        assert(strings_view(lines@) =~= start + main_bucket_lines(self.main_bucket));
        let ghost mid = strings_view(lines@);
        if self.windows_developer {
            push_line(lines, DEVELOPER_OK);
        } else {
            push_line(lines, DEVELOPER_OFF);
            push_line(lines, DEVELOPER_WHY);
        }
        assert(strings_view(lines@) =~= mid + developer_lines(self.windows_developer));
        let ghost last = strings_view(lines@);
        match self.long_paths {
            LongPathsStatus::Enabled => push_line(lines, LONG_PATHS_OK),
            LongPathsStatus::OldWindows => push_line(lines, LONG_PATHS_OLD),
            LongPathsStatus::Disabled => {
                push_line(lines, LONG_PATHS_OFF);
                push_line(lines, LONG_PATHS_FIX);
            },
        }
        assert(strings_view(lines@) =~= last + long_paths_lines(self.long_paths));
    }
}

/// Add one line
fn push_line(lines: &mut Vec<String>, line: &str)
    ensures
        strings_view(final(lines)@) == strings_view(old(lines)@).push(line@),
{
    let ghost before = lines@;
    lines.push(String::from_str(line));
    assert(strings_view(lines@) =~= strings_view(before).push(line@));
}

/// How a missing helper is installed: the command for each package that
/// provides it, joined by ` or `
fn install_line(packages: &Vec<String>) -> (line: String)
    ensures
        line@ == "\tInstall it with: "@ + join(strings_view(packages@).map_values(|p: Seq<char>| install_command(p)), " or "@),
{
    let ghost parts = strings_view(packages@).map_values(|p: Seq<char>| install_command(p));
    let mut joined = String::new();
    let n = packages.len();
    let mut i: usize = 0;
    assert(parts.take(0) =~= Seq::<Seq<char>>::empty());
    while i < n
        invariant
            n == packages@.len(),
            parts == strings_view(packages@).map_values(|p: Seq<char>| install_command(p)),
            i <= n,
            joined@ == join(parts.take(i as int), " or "@),
        decreases n - i,
    {
        proof {
            lemma_join_step(parts, " or "@, i as int);
        }
        if i > 0 {
            joined.append(" or ");
        }
        joined.append("`scoop install ");
        joined.append(packages[i].as_str());
        joined.append("`");
        i += 1;
    }
    assert(parts.take(n as int) =~= parts);
    let mut line = String::from_str("\tInstall it with: ");
    line.append(joined.as_str());
    line
}

/// The report of `doctor` is the part of the report of `checkup` that
/// follows the lines on Git; `checkup` adds the filesystem and the missing
/// helpers after it, two lines for each helper.
pub proof fn lemma_doctor_within_checkup(d: Diagnostics)
    ensures
        d.checkup_lines() == git_lines(d.git_installed) + d.doctor_lines() + ntfs_lines(d.scoop_ntfs) + helpers_lines(
            d.missing_helpers@,
        ),
        helpers_lines(d.missing_helpers@).len() == 2 * d.missing_helpers@.len(),
{
    assert(d.checkup_lines() =~= git_lines(d.git_installed) + d.doctor_lines() + ntfs_lines(d.scoop_ntfs)
        + helpers_lines(d.missing_helpers@));
    lemma_helpers_lines_len(d.missing_helpers@);
}

/// Each missing helper takes two lines.
proof fn lemma_helpers_lines_len(helpers: Seq<Helper>)
    ensures
        helpers_lines(helpers).len() == 2 * helpers.len(),
    decreases helpers.len(),
{
    if helpers.len() > 0 {
        lemma_helpers_lines_len(helpers.drop_last());
    }
}

} // verus!
