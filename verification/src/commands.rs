//! The commands that sfsu can stand in for in a shell, and deprecation notices.

pub mod app;
pub mod bucket;
pub mod cache;
pub mod checkup;
pub mod credits;
pub mod hook;
pub mod info;
pub mod manage_config;
pub mod outdated;
pub mod search;
pub mod status;
pub mod uninstall;
pub mod update;
pub mod virustotal;

use vstd::prelude::*;
use vstd::string::*;

use crate::text::{opt_string_view, str_eq, strings_view};

verus! {

/// How a deprecated command tells its users what to do instead
#[derive(Debug, Copy, Clone, PartialEq, Eq)]
pub enum DeprecationMessage {
    /// Replacement info
    Replacement(&'static str),
    /// Warning message
    Warning(&'static str),
}

impl DeprecationMessage {
    /// The text of the message, as its `Display` writes it.
    pub open spec fn text(self) -> Seq<char> {
        match self {
            DeprecationMessage::Replacement(replacement) => "Use `"@ + replacement@ + "` instead"@,
            DeprecationMessage::Warning(warning) => warning@,
        }
    }

    /// The text of the message
    pub fn to_string(&self) -> (s: String)
        ensures
            s@ == self.text(),
    {
        match self {
            DeprecationMessage::Replacement(replacement) => {
                let mut s = String::from_str("Use `");
                s.append(replacement);
                s.append("` instead");
                s
            },
            DeprecationMessage::Warning(warning) => String::from_str(warning),
        }
    }
}

/// Why a command was refused before it ran
pub const ELEVATION_REQUIRED: &'static str = "This command requires elevation. Please run as an administrator.";

/// The notice printed before a command in beta runs
pub const BETA_NOTICE: &'static str =
    "This command is in beta and may not work as expected. Please report any and all bugs you find!\n";

/// What happens before a command runs
#[derive(Debug)]
pub struct Preamble {
    /// The notices printed, in order
    pub notices: Vec<String>,
    /// Whether the command goes on to run; when it does not, it fails with
    /// `ELEVATION_REQUIRED`
    pub may_run: bool,
}

/// What happens before a command runs: its deprecation notice, if any, with a
/// blank line after it; then, if it needs elevation that the process does not
/// have, it is refused; otherwise the beta notice, if it is in beta.
pub open spec fn preamble_of(deprecation: Option<Seq<char>>, needs_elevation: bool, elevated: bool, beta: bool) -> (Seq<Seq<char>>, bool) {
    let first = match deprecation {
        Some(text) => seq![text + "\n"@],
        None => Seq::empty(),
    };
    if needs_elevation && !elevated {
        (first, false)
    } else if beta {
        (first.push(BETA_NOTICE@), true)
    } else {
        (first, true)
    }
}

/// What happens before a command runs, given the text of its deprecation
/// notice, whether it needs elevation, whether the process has it, and
/// whether the command is in beta
pub fn preamble(deprecation: Option<String>, needs_elevation: bool, elevated: bool, beta: bool) -> (p: Preamble)
    ensures
        (strings_view(p.notices@), p.may_run) == preamble_of(opt_string_view(deprecation), needs_elevation, elevated, beta),
{
    let mut notices: Vec<String> = Vec::new();
    match deprecation {
        Some(text) => {
            let mut line = text;
            line.append("\n");
            notices.push(line);
        },
        None => {},
    }
    let ghost first = strings_view(notices@);
    assert(first =~= preamble_of(opt_string_view(deprecation), true, false, false).0);
    if needs_elevation && !elevated {
        return Preamble { notices, may_run: false };
    }
    if beta {
        notices.push(String::from_str(BETA_NOTICE));
        assert(strings_view(notices@) =~= first.push(BETA_NOTICE@));
    }
    Preamble { notices, may_run: true }
}

/// The sfsu commands that a shell hook can route `scoop <hook>` to
#[derive(Debug, Copy, Clone, PartialEq, Eq, Hash, Structural)]
pub enum CommandHooks {
    Cat,
    Cleanup,
    Download,
    Home,
    Info,
    List,
    Search,
    UnusedBuckets,
    Bucket,
    Describe,
    Outdated,
    Depends,
    Status,
    Export,
    Checkup,
    Cache,
    Scan,
    Uninstall,
    App,
}

impl CommandHooks {
    /// The sfsu command line that runs the hooked command.
    pub open spec fn command_name(self) -> Seq<char> {
        match self {
            CommandHooks::App => "app"@,
            CommandHooks::Cat => "app cat"@,
            CommandHooks::Cleanup => "app cleanup"@,
            CommandHooks::Download => "app download"@,
            CommandHooks::Home => "app home"@,
            CommandHooks::Info => "app info"@,
            CommandHooks::List => "app list"@,
            CommandHooks::Search => "search"@,
            CommandHooks::UnusedBuckets => "unused-buckets"@,
            CommandHooks::Bucket => "bucket"@,
            CommandHooks::Describe => "describe"@,
            CommandHooks::Outdated => "outdated"@,
            CommandHooks::Depends => "depends"@,
            CommandHooks::Status => "status"@,
            CommandHooks::Export => "export"@,
            CommandHooks::Checkup => "checkup"@,
            CommandHooks::Cache => "cache"@,
            CommandHooks::Scan => "scan"@,
            CommandHooks::Uninstall => "app uninstall"@,
        }
    }

    /// The Scoop subcommand that the hook intercepts.
    pub open spec fn hook_name(self) -> Seq<char> {
        match self {
            CommandHooks::App => "app"@,
            CommandHooks::Cat => "cat"@,
            CommandHooks::Cleanup => "cleanup"@,
            CommandHooks::Download => "download"@,
            CommandHooks::Home => "home"@,
            CommandHooks::Info => "info"@,
            CommandHooks::List => "list"@,
            CommandHooks::Search => "search"@,
            CommandHooks::UnusedBuckets => "unused-buckets"@,
            CommandHooks::Bucket => "bucket"@,
            CommandHooks::Describe => "describe"@,
            CommandHooks::Outdated => "outdated"@,
            CommandHooks::Depends => "depends"@,
            CommandHooks::Status => "status"@,
            CommandHooks::Export => "export"@,
            CommandHooks::Checkup => "checkup"@,
            CommandHooks::Cache => "cache"@,
            CommandHooks::Scan => "virustotal"@,
            CommandHooks::Uninstall => "uninstall"@,
        }
    }

    /// All hooks, in declaration order.
    pub open spec fn all() -> Seq<CommandHooks> {
        seq![
            CommandHooks::Cat,
            CommandHooks::Cleanup,
            CommandHooks::Download,
            CommandHooks::Home,
            CommandHooks::Info,
            CommandHooks::List,
            CommandHooks::Search,
            CommandHooks::UnusedBuckets,
            CommandHooks::Bucket,
            CommandHooks::Describe,
            CommandHooks::Outdated,
            CommandHooks::Depends,
            CommandHooks::Status,
            CommandHooks::Export,
            CommandHooks::Checkup,
            CommandHooks::Cache,
            CommandHooks::Scan,
            CommandHooks::Uninstall,
            CommandHooks::App,
        ]
    }

    /// The hook whose name `s` is, if any.
    pub open spec fn hook_of_name(s: Seq<char>) -> Option<CommandHooks> {
        if exists|h: CommandHooks| h.hook_name() == s {
            Some(choose|h: CommandHooks| h.hook_name() == s)
        } else {
            None
        }
    }

    /// The sfsu command that stands in for the hooked Scoop command
    pub fn command(self) -> (s: &'static str)
        ensures
            s@ == self.command_name(),
    {
        match self {
            CommandHooks::App => "app",
            CommandHooks::Cat => "app cat",
            CommandHooks::Cleanup => "app cleanup",
            CommandHooks::Download => "app download",
            CommandHooks::Home => "app home",
            CommandHooks::Info => "app info",
            CommandHooks::List => "app list",
            CommandHooks::Search => "search",
            CommandHooks::UnusedBuckets => "unused-buckets",
            CommandHooks::Bucket => "bucket",
            CommandHooks::Describe => "describe",
            CommandHooks::Outdated => "outdated",
            CommandHooks::Depends => "depends",
            CommandHooks::Status => "status",
            CommandHooks::Export => "export",
            CommandHooks::Checkup => "checkup",
            CommandHooks::Cache => "cache",
            CommandHooks::Scan => "scan",
            CommandHooks::Uninstall => "app uninstall",
        }
    }

    /// The Scoop subcommand that the hook intercepts
    pub fn hook(self) -> (s: &'static str)
        ensures
            s@ == self.hook_name(),
    {
        match self {
            CommandHooks::App => "app",
            CommandHooks::Cat => "cat",
            CommandHooks::Cleanup => "cleanup",
            CommandHooks::Download => "download",
            CommandHooks::Home => "home",
            CommandHooks::Info => "info",
            CommandHooks::List => "list",
            CommandHooks::Search => "search",
            CommandHooks::UnusedBuckets => "unused-buckets",
            CommandHooks::Bucket => "bucket",
            CommandHooks::Describe => "describe",
            CommandHooks::Outdated => "outdated",
            CommandHooks::Depends => "depends",
            CommandHooks::Status => "status",
            CommandHooks::Export => "export",
            CommandHooks::Checkup => "checkup",
            CommandHooks::Cache => "cache",
            CommandHooks::Scan => "virustotal",
            CommandHooks::Uninstall => "uninstall",
        }
    }

    /// All hooks, in declaration order
    pub fn variants() -> (v: Vec<CommandHooks>)
        ensures
            v@ == Self::all(),
    {
        let v = vec![
            CommandHooks::Cat,
            CommandHooks::Cleanup,
            CommandHooks::Download,
            CommandHooks::Home,
            CommandHooks::Info,
            CommandHooks::List,
            CommandHooks::Search,
            CommandHooks::UnusedBuckets,
            CommandHooks::Bucket,
            CommandHooks::Describe,
            CommandHooks::Outdated,
            CommandHooks::Depends,
            CommandHooks::Status,
            CommandHooks::Export,
            CommandHooks::Checkup,
            CommandHooks::Cache,
            CommandHooks::Scan,
            CommandHooks::Uninstall,
            CommandHooks::App,
        ];
        assert(v@ =~= Self::all());
        v
    }

    /// The hook that a Scoop subcommand name stands for, if any
    pub fn parse(name: &str) -> (r: Option<CommandHooks>)
        ensures
            r == Self::hook_of_name(name@),
    {
        let all = Self::variants();
        let n = all.len();
        let mut i: usize = 0;
        while i < n
            invariant
                n == all@.len(),
                all@ == Self::all(),
                i <= n,
                forall|j: int| 0 <= j < i ==> (#[trigger] all@[j]).hook_name() != name@,
            decreases n - i,
        {
            let h = all[i];
            if str_eq(name, h.hook()) {
                proof {
                    lemma_hook_of_name(h);
                }
                return Some(h);
            }
            i += 1;
        }
        proof {
            assert forall|h: CommandHooks| h.hook_name() != name@ by {
                lemma_all_lists_every_hook(h);
                let j = choose|j: int| 0 <= j < Self::all().len() && Self::all()[j] == h;
                assert(all@[j] == h);
            }
        }
        None
    }

    /// Convert a Scoop subcommand name into the hook that intercepts it
    pub fn from(string: String) -> (h: CommandHooks)
        requires
            Self::hook_of_name(string@) is Some,
        ensures
            Self::hook_of_name(string@) == Some(h),
    {
        match Self::parse(string.as_str()) {
            Some(h) => h,
            None => CommandHooks::App,
        }
    }
}

/// Distinct hooks intercept distinct Scoop subcommands.
pub proof fn lemma_hook_names_distinct(a: CommandHooks, b: CommandHooks)
    requires
        a.hook_name() == b.hook_name(),
    ensures
        a == b,
{
    reveal_strlit("app");
    reveal_strlit("cat");
    reveal_strlit("cleanup");
    reveal_strlit("download");
    reveal_strlit("home");
    reveal_strlit("info");
    reveal_strlit("list");
    reveal_strlit("search");
    reveal_strlit("unused-buckets");
    reveal_strlit("bucket");
    reveal_strlit("describe");
    reveal_strlit("outdated");
    reveal_strlit("depends");
    reveal_strlit("status");
    reveal_strlit("export");
    reveal_strlit("checkup");
    reveal_strlit("cache");
    reveal_strlit("virustotal");
    reveal_strlit("uninstall");
    let (x, y) = (a.hook_name(), b.hook_name());
    assert(x.len() == y.len());
    assert(x[0] == y[0]);
    assert(x[1] == y[1]);
}

/// Distinct hooks run distinct sfsu commands.
pub proof fn lemma_command_names_distinct(a: CommandHooks, b: CommandHooks)
    requires
        a.command_name() == b.command_name(),
    ensures
        a == b,
{
    reveal_strlit("app");
    reveal_strlit("app cat");
    reveal_strlit("app cleanup");
    reveal_strlit("app download");
    reveal_strlit("app home");
    reveal_strlit("app info");
    reveal_strlit("app list");
    reveal_strlit("search");
    reveal_strlit("unused-buckets");
    reveal_strlit("bucket");
    reveal_strlit("describe");
    reveal_strlit("outdated");
    reveal_strlit("depends");
    reveal_strlit("status");
    reveal_strlit("export");
    reveal_strlit("checkup");
    reveal_strlit("cache");
    reveal_strlit("scan");
    reveal_strlit("app uninstall");
    let (x, y) = (a.command_name(), b.command_name());
    assert(x.len() == y.len());
    assert(x[0] == y[0]);
    assert(x[1] == y[1]);
    if x.len() > 4 {
        assert(x[4] == y[4]);
    }
}

/// Every hook is listed among all hooks.
pub proof fn lemma_all_lists_every_hook(h: CommandHooks)
    ensures
        exists|j: int| 0 <= j < CommandHooks::all().len() && CommandHooks::all()[j] == h,
{
    let all = CommandHooks::all();
    match h {
        CommandHooks::Cat => assert(all[0] == h),
        CommandHooks::Cleanup => assert(all[1] == h),
        CommandHooks::Download => assert(all[2] == h),
        CommandHooks::Home => assert(all[3] == h),
        CommandHooks::Info => assert(all[4] == h),
        CommandHooks::List => assert(all[5] == h),
        CommandHooks::Search => assert(all[6] == h),
        CommandHooks::UnusedBuckets => assert(all[7] == h),
        CommandHooks::Bucket => assert(all[8] == h),
        CommandHooks::Describe => assert(all[9] == h),
        CommandHooks::Outdated => assert(all[10] == h),
        CommandHooks::Depends => assert(all[11] == h),
        CommandHooks::Status => assert(all[12] == h),
        CommandHooks::Export => assert(all[13] == h),
        CommandHooks::Checkup => assert(all[14] == h),
        CommandHooks::Cache => assert(all[15] == h),
        CommandHooks::Scan => assert(all[16] == h),
        CommandHooks::Uninstall => assert(all[17] == h),
        CommandHooks::App => assert(all[18] == h),
    }
}

/// Converting a hook's name gives back the hook, for every hook.
pub proof fn lemma_hook_of_name(h: CommandHooks)
    ensures
        CommandHooks::hook_of_name(h.hook_name()) == Some(h),
{
    let k = choose|k: CommandHooks| k.hook_name() == h.hook_name();
    lemma_hook_names_distinct(k, h);
}

/// A command runs exactly unless it needs elevation that the process lacks;
/// the deprecation notice comes first whether or not it runs, and the beta
/// notice comes last, and only, for a command in beta that runs.
pub proof fn lemma_preamble(deprecation: Option<Seq<char>>, needs_elevation: bool, elevated: bool, beta: bool)
    ensures
        preamble_of(deprecation, needs_elevation, elevated, beta).1 == (!needs_elevation || elevated),
        deprecation matches Some(text) ==> (preamble_of(deprecation, needs_elevation, elevated, beta).0.len() > 0
            && preamble_of(deprecation, needs_elevation, elevated, beta).0[0] == text + "\n"@),
        preamble_of(deprecation, needs_elevation, elevated, beta).0.len() == (if deprecation is Some {
            1int
        } else {
            0int
        }) + (if beta && (!needs_elevation || elevated) {
            1int
        } else {
            0int
        }),
        beta && (!needs_elevation || elevated) ==> preamble_of(deprecation, needs_elevation, elevated, beta).0.last()
            == BETA_NOTICE@,
{
}

} // verus!
