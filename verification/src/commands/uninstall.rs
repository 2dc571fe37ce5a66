//! Uninstalling apps: which requested packages can be uninstalled.

use vstd::prelude::*;
use vstd::string::*;

use crate::text::{decimal, push_decimal, str_eq};

verus! {

/// How a package to uninstall was named
#[derive(Debug, Copy, Clone, PartialEq, Eq, Structural)]
pub enum ReferenceKind {
    /// A manifest file
    File,
    /// `bucket/name`
    BucketNamePair,
    /// A name
    Name,
    /// A manifest URL
    Url,
}

/// Whether a requested package is uninstalled, and why not
#[derive(Debug, Copy, Clone, PartialEq, Eq, Structural)]
pub enum UninstallVerdict {
    Accept,
    ScoopUnsupported,
    NotInstalled,
    InvalidReference,
}

pub const SCOOP_UNSUPPORTED: &'static str = "Uninstalling Scoop is not supported yet. Please run `scoop.ps1 uninstall scoop` instead";

pub const INVALID_REFERENCE: &'static str = "Invalid package reference. You cannot reference a file or url for uninstallation";

pub const NO_PACKAGES: &'static str = "No packages provided";

/// Only packages named by name are uninstalled: never Scoop itself, and
/// only installed ones.
pub open spec fn verdict_of(kind: ReferenceKind, name: Seq<char>, installed: bool) -> UninstallVerdict {
    if kind == ReferenceKind::BucketNamePair || kind == ReferenceKind::Name {
        if name == "scoop"@ {
            UninstallVerdict::ScoopUnsupported
        } else if installed {
            UninstallVerdict::Accept
        } else {
            UninstallVerdict::NotInstalled
        }
    } else {
        UninstallVerdict::InvalidReference
    }
}

/// Whether a requested package is uninstalled; `name` is the package's name
/// and `installed` whether it is installed
pub fn verdict(kind: ReferenceKind, name: &str, installed: bool) -> (v: UninstallVerdict)
    ensures
        v == verdict_of(kind, name@, installed),
{
    if kind == ReferenceKind::BucketNamePair || kind == ReferenceKind::Name {
        if str_eq(name, "scoop") {
            UninstallVerdict::ScoopUnsupported
        } else if installed {
            UninstallVerdict::Accept
        } else {
            UninstallVerdict::NotInstalled
        }
    } else {
        UninstallVerdict::InvalidReference
    }
}

/// The error shown for a package that is not uninstalled.
pub open spec fn refusal_of(v: UninstallVerdict, name: Seq<char>) -> Option<Seq<char>> {
    match v {
        UninstallVerdict::Accept => None,
        UninstallVerdict::ScoopUnsupported => Some(SCOOP_UNSUPPORTED@),
        UninstallVerdict::NotInstalled => Some("'"@ + name + "' not installed"@),
        UninstallVerdict::InvalidReference => Some(INVALID_REFERENCE@),
    }
}

/// The error shown for a package that is not uninstalled
pub fn refusal(v: UninstallVerdict, name: &str) -> (m: Option<String>)
    ensures
        match refusal_of(v, name@) {
            Some(t) => m matches Some(s) && s@ == t,
            None => m is None,
        },
{
    match v {
        UninstallVerdict::Accept => None,
        UninstallVerdict::ScoopUnsupported => Some(String::from_str(SCOOP_UNSUPPORTED)),
        UninstallVerdict::NotInstalled => {
            let mut s = String::from_str("'");
            s.append(name);
            s.append("' not installed");
            Some(s)
        },
        UninstallVerdict::InvalidReference => Some(String::from_str(INVALID_REFERENCE)),
    }
}

/// How an app's uninstaller is run, from what its manifest names
#[derive(Debug, Copy, Clone, PartialEq, Eq, Structural)]
pub enum UninstallerChoice {
    /// Run the uninstaller file
    File,
    /// Run the uninstaller script in PowerShell
    Script,
    /// The manifest names no uninstaller to run
    Nothing,
}

/// A file named by the manifest's uninstaller is run; otherwise its script,
/// if it has one.
pub open spec fn choice_of(has_file: bool, has_script: bool) -> UninstallerChoice {
    if has_file {
        UninstallerChoice::File
    } else if has_script {
        UninstallerChoice::Script
    } else {
        UninstallerChoice::Nothing
    }
}

/// How the uninstaller is run, given whether the manifest names a file and a script
pub fn uninstaller_choice(has_file: bool, has_script: bool) -> (c: UninstallerChoice)
    ensures
        c == choice_of(has_file, has_script),
{
    if has_file {
        UninstallerChoice::File
    } else if has_script {
        UninstallerChoice::Script
    } else {
        UninstallerChoice::Nothing
    }
}

/// One step of uninstalling an app
#[derive(Debug, PartialEq, Eq)]
pub enum UninstallStep {
    /// Remove the link to the current version
    UnlinkCurrent,
    /// Run the manifest's pre-uninstall script
    RunPreUninstall,
    /// Report why the app is left as it is, and stop
    Stop(String),
    /// Run the uninstaller
    RunUninstaller(UninstallerChoice),
}

/// The message for an app that is running.
pub open spec fn running_message(name: Seq<char>) -> Seq<char> {
    name + " is running. Please stop it before uninstalling"@
}

/// The message for a version directory that cannot be written.
pub open spec fn denied_message(version_dir: Seq<char>) -> Seq<char> {
    "Access Denied: "@ + version_dir + ". Try again, or fix permissions on the directory"@
}

/// A step of uninstalling, with its message as plain text
pub enum StepView {
    UnlinkCurrent,
    RunPreUninstall,
    Stop(Seq<char>),
    RunUninstaller(UninstallerChoice),
}

/// The view of a step.
pub open spec fn step_view(step: UninstallStep) -> StepView {
    match step {
        UninstallStep::UnlinkCurrent => StepView::UnlinkCurrent,
        UninstallStep::RunPreUninstall => StepView::RunPreUninstall,
        UninstallStep::Stop(m) => StepView::Stop(m@),
        UninstallStep::RunUninstaller(c) => StepView::RunUninstaller(c),
    }
}

/// The views of steps.
pub open spec fn steps_view(steps: Seq<UninstallStep>) -> Seq<StepView> {
    steps.map_values(|s: UninstallStep| step_view(s))
}

/// The steps of uninstalling an app: the link to the current version goes
/// first, then the pre-uninstall script runs, if there is one; a running app,
/// or a version directory that cannot be written, stops it with a message;
/// otherwise the uninstaller runs, if there is one. A dry run changes
/// nothing: of these steps it keeps only the message that would stop it.
pub open spec fn plan_of(
    dry_run: bool,
    has_pre_uninstall: bool,
    running: bool,
    writable: bool,
    uninstaller: UninstallerChoice,
    name: Seq<char>,
    version_dir: Seq<char>,
) -> Seq<StepView> {
    let unlink: Seq<StepView> = if dry_run {
        Seq::empty()
    } else {
        seq![StepView::UnlinkCurrent]
    };
    let pre: Seq<StepView> = if !dry_run && has_pre_uninstall {
        seq![StepView::RunPreUninstall]
    } else {
        Seq::empty()
    };
    let rest: Seq<StepView> = if running {
        seq![StepView::Stop(running_message(name))]
    } else if !writable {
        seq![StepView::Stop(denied_message(version_dir))]
    } else if !dry_run && uninstaller != UninstallerChoice::Nothing {
        seq![StepView::RunUninstaller(uninstaller)]
    } else {
        Seq::empty()
    };
    unlink + pre + rest
}

/// The steps of uninstalling an app, given whether it is a dry run, whether
/// its manifest has a pre-uninstall script, whether the app is running,
/// whether its version directory can be written, how its uninstaller runs,
/// its name and its version directory
pub fn uninstall_plan(
    dry_run: bool,
    has_pre_uninstall: bool,
    running: bool,
    writable: bool,
    uninstaller: UninstallerChoice,
    name: &str,
    version_dir: &str,
) -> (steps: Vec<UninstallStep>)
    ensures
        steps_view(steps@) == plan_of(dry_run, has_pre_uninstall, running, writable, uninstaller, name@, version_dir@),
{
    let mut steps: Vec<UninstallStep> = Vec::new();
    if !dry_run {
        steps.push(UninstallStep::UnlinkCurrent);
    }
    if !dry_run && has_pre_uninstall {
        steps.push(UninstallStep::RunPreUninstall);
    }
    if running {
        let mut m = String::from_str(name);
        m.append(" is running. Please stop it before uninstalling");
        steps.push(UninstallStep::Stop(m));
    } else if !writable {
        let mut m = String::from_str("Access Denied: ");
        m.append(version_dir);
        m.append(". Try again, or fix permissions on the directory");
        steps.push(UninstallStep::Stop(m));
    } else if !dry_run && uninstaller != UninstallerChoice::Nothing {
        steps.push(UninstallStep::RunUninstaller(uninstaller));
    }
    assert(steps_view(steps@) =~= plan_of(dry_run, has_pre_uninstall, running, writable, uninstaller, name@, version_dir@));
    steps
}

/// The step changes something: it unlinks, or runs a script or an uninstaller.
pub open spec fn has_effect(step: StepView) -> bool {
    !(step is Stop)
}

/// A dry run plans no step that changes anything.
pub proof fn lemma_dry_run_changes_nothing(
    has_pre_uninstall: bool,
    running: bool,
    writable: bool,
    uninstaller: UninstallerChoice,
    name: Seq<char>,
    version_dir: Seq<char>,
)
    ensures
        forall|i: int|
            0 <= i < plan_of(true, has_pre_uninstall, running, writable, uninstaller, name, version_dir).len()
                ==> !has_effect(
                #[trigger] plan_of(true, has_pre_uninstall, running, writable, uninstaller, name, version_dir)[i],
            ),
{
}

/// The uninstaller runs, as the manifest names it (a file before a script),
/// exactly when it is no dry run, the app is not running, its version
/// directory can be written and the manifest names an uninstaller; it is then
/// the last step. The link to the current version goes first exactly when it
/// is no dry run, and the pre-uninstall script runs exactly when it is no dry
/// run and the manifest has one.
pub proof fn lemma_uninstaller_runs(
    dry_run: bool,
    has_pre_uninstall: bool,
    running: bool,
    writable: bool,
    has_file: bool,
    has_script: bool,
    name: Seq<char>,
    version_dir: Seq<char>,
)
    ensures
        ({
            let c = choice_of(has_file, has_script);
            let plan = plan_of(dry_run, has_pre_uninstall, running, writable, c, name, version_dir);
            &&& has_file ==> c == UninstallerChoice::File
            &&& !has_file && has_script ==> c == UninstallerChoice::Script
            &&& !has_file && !has_script ==> c == UninstallerChoice::Nothing
            &&& (exists|i: int| 0 <= i < plan.len() && plan[i] == StepView::RunUninstaller(c)) <==> (!dry_run && !running
                && writable && (has_file || has_script))
            &&& (!dry_run && !running && writable && (has_file || has_script)) ==> plan.last()
                == StepView::RunUninstaller(c)
            &&& (plan.len() > 0 && plan[0] == StepView::UnlinkCurrent) <==> !dry_run
            &&& (exists|i: int| 0 <= i < plan.len() && plan[i] == StepView::RunPreUninstall) <==> (!dry_run
                && has_pre_uninstall)
            &&& running ==> plan.last() == StepView::Stop(running_message(name))
        }),
{
    let c = choice_of(has_file, has_script);
    let plan = plan_of(dry_run, has_pre_uninstall, running, writable, c, name, version_dir);
    if !dry_run && !running && writable && (has_file || has_script) {
        assert(plan[plan.len() - 1] == StepView::RunUninstaller(c));
    }
    if !dry_run && has_pre_uninstall {
        assert(plan[1] == StepView::RunPreUninstall);
    }
}

/// The decimal form of a signed number.
pub open spec fn signed_decimal(n: int) -> Seq<char> {
    if n < 0 {
        "-"@ + decimal((-n) as nat)
    } else {
        decimal(n as nat)
    }
}

/// How an uninstaller file's run ends, from its exit code, if it had one,
/// and its output: success for code 0, an error that quotes the code and the
/// output otherwise.
pub open spec fn exit_outcome(code: Option<i32>, output: Seq<char>) -> Result<(), Seq<char>> {
    match code {
        Some(c) => if c == 0 {
            Ok(())
        } else {
            Err("uninstall.ps1 exited with code "@ + signed_decimal(c as int) + ".\nOutput:\n"@ + output)
        },
        None => Err("uninstall.ps1 exited without a status code.\nOutput:\n"@ + output),
    }
}

/// How an uninstaller file's run ends, given its exit code and its output
pub fn uninstaller_outcome(code: Option<i32>, output: &str) -> (r: Result<(), String>)
    ensures
        match exit_outcome(code, output@) {
            Ok(()) => r is Ok,
            Err(m) => r matches Err(s) && s@ == m,
        },
{
    match code {
        Some(c) => {
            if c == 0 {
                Ok(())
            } else {
                let mut m = String::from_str("uninstall.ps1 exited with code ");
                if c < 0 {
                    m.append("-");
                    let magnitude: u64 = if c == i32::MIN {
                        2147483648
                    } else {
                        (-c) as u64
                    };
                    push_decimal(&mut m, magnitude);
                } else {
                    push_decimal(&mut m, c as u64);
                }
                m.append(".\nOutput:\n");
                m.append(output);
                Err(m)
            }
        },
        None => {
            let mut m = String::from_str("uninstall.ps1 exited without a status code.\nOutput:\n");
            m.append(output);
            Err(m)
        },
    }
}

/// An uninstaller file's run succeeds exactly when it exits with code 0; any
/// failure quotes its output at the end.
pub proof fn lemma_exit_outcome(code: Option<i32>, output: Seq<char>)
    ensures
        exit_outcome(code, output) is Ok <==> code == Some(0i32),
        exit_outcome(code, output) matches Err(m) ==> m.len() >= output.len() && m.skip(m.len() - output.len()) == output,
{
    if let Err(m) = exit_outcome(code, output) {
        assert(m.skip(m.len() - output.len()) =~= output);
    }
}

/// A package is uninstalled only when it is named by name (alone or with
/// its bucket), is installed, and is not Scoop itself; whether it is
/// installed decides nothing for a file or URL, nor for Scoop.
pub proof fn lemma_verdict(kind: ReferenceKind, name: Seq<char>, installed: bool)
    ensures
        verdict_of(kind, name, installed) == UninstallVerdict::Accept <==> ((kind == ReferenceKind::Name || kind
            == ReferenceKind::BucketNamePair) && installed && name != "scoop"@),
        (kind == ReferenceKind::File || kind == ReferenceKind::Url) ==> verdict_of(kind, name, installed)
            == UninstallVerdict::InvalidReference,
        verdict_of(kind, name, true) == UninstallVerdict::NotInstalled ==> false,
        verdict_of(kind, name, installed) != UninstallVerdict::Accept ==> refusal_of(verdict_of(kind, name, installed), name) is Some,
        refusal_of(UninstallVerdict::Accept, name) is None,
{
}

} // verus!
