//! Shell hooks that route `scoop <command>` to sfsu: which commands are
//! hooked, the script text for each shell, and what a hook invocation does.

use vstd::prelude::*;
use vstd::string::*;

use crate::commands::CommandHooks;
use crate::text::{contains_seq, contains_str, opt_string_view};

verus! {

/// The shells that sfsu writes hooks for
#[derive(Debug, Copy, Clone, PartialEq, Eq, Structural)]
pub enum Shell {
    Powershell,
    Bash,
    Zsh,
    Nu,
}

/// The hook subcommands
#[derive(Debug, Clone, PartialEq, Eq)]
pub enum HookCommands {
    /// Install the hook for PowerShell automatically
    Powershell { print: bool, uninstall: bool, system: bool },
    /// Print the hook for Bash
    Bash { uninstall: bool },
    /// Print the hook for Zsh
    Zsh { uninstall: bool },
    /// Print the hook for Nushell
    Nu { uninstall: bool },
    /// Install the hook for WSL automatically
    Wsl { distro: Option<String>, uninstall: bool },
}

/// What a hook invocation does
#[derive(Debug, Clone, PartialEq, Eq)]
pub enum HookAction {
    /// Install the PowerShell hook, for all users when `system` is set
    InstallPowershell { system: bool },
    /// Uninstall the PowerShell hook, for all users when `system` is set
    UninstallPowershell { system: bool },
    /// Print the hook script for the shell
    Print(Shell),
    /// Refuse, with the given message
    Refuse(&'static str),
    /// Add the hook to the bashrc of a WSL distribution
    InstallWsl { distro: Option<String> },
    /// Remove the hook from the bashrc of a WSL distribution
    UninstallWsl { distro: Option<String> },
}

pub const BASH_UNINSTALL_UNSUPPORTED: &'static str = "Automatic uninstallation for Bash is not yet supported on Windows host. Please remove the hook from your .bashrc manually.";

pub const ZSH_UNINSTALL_UNSUPPORTED: &'static str = "Automatic uninstallation for Zsh is not yet supported on Windows host. Please remove the hook from your .zshrc manually.";

pub const NU_UNINSTALL_UNSUPPORTED: &'static str = "Automatic uninstallation for Nushell is not yet supported. Please remove the hook from your config.nu manually.";

/// What `sfsu hook` does, given its subcommand, its `--rm` flag and its `--shell` option.
pub open spec fn hook_action(command: Option<HookCommands>, rm: bool, shell: Shell) -> HookAction {
    match command {
        Some(HookCommands::Powershell { print, uninstall, system }) => {
            if uninstall || rm {
                HookAction::UninstallPowershell { system }
            } else if !print {
                HookAction::InstallPowershell { system }
            } else {
                HookAction::Print(Shell::Powershell)
            }
        },
        Some(HookCommands::Bash { uninstall }) => {
            if uninstall || rm {
                HookAction::Refuse(BASH_UNINSTALL_UNSUPPORTED)
            } else {
                HookAction::Print(Shell::Bash)
            }
        },
        Some(HookCommands::Zsh { uninstall }) => {
            if uninstall || rm {
                HookAction::Refuse(ZSH_UNINSTALL_UNSUPPORTED)
            } else {
                HookAction::Print(Shell::Zsh)
            }
        },
        Some(HookCommands::Nu { uninstall }) => {
            if uninstall || rm {
                HookAction::Refuse(NU_UNINSTALL_UNSUPPORTED)
            } else {
                HookAction::Print(Shell::Nu)
            }
        },
        Some(HookCommands::Wsl { distro, uninstall }) => {
            if uninstall || rm {
                HookAction::UninstallWsl { distro }
            } else {
                HookAction::InstallWsl { distro }
            }
        },
        None => HookAction::Print(shell),
    }
}

/// Asking a subcommand to uninstall, by its own flag or by the top-level
/// `--rm`, never installs or prints anything: PowerShell and WSL remove their
/// hook, and the other shells refuse. Without either flag, PowerShell and WSL
/// install their hook unless PowerShell is asked to print it, the other
/// shells print theirs, and with no subcommand the hook for `--shell` is printed.
pub proof fn lemma_hook_action_flags(command: Option<HookCommands>, rm: bool, shell: Shell)
    ensures
        command matches Some(HookCommands::Wsl { distro, uninstall }) ==> hook_action(command, rm, shell) == (if uninstall
            || rm {
            HookAction::UninstallWsl { distro }
        } else {
            HookAction::InstallWsl { distro }
        }),
        command matches Some(HookCommands::Powershell { print, uninstall, system }) ==> hook_action(command, rm, shell)
            == (if uninstall || rm {
            HookAction::UninstallPowershell { system }
        } else if print {
            HookAction::Print(Shell::Powershell)
        } else {
            HookAction::InstallPowershell { system }
        }),
        command matches Some(HookCommands::Bash { uninstall }) ==> hook_action(command, rm, shell) == (if uninstall
            || rm {
            HookAction::Refuse(BASH_UNINSTALL_UNSUPPORTED)
        } else {
            HookAction::Print(Shell::Bash)
        }),
        command matches Some(HookCommands::Zsh { uninstall }) ==> hook_action(command, rm, shell) == (if uninstall
            || rm {
            HookAction::Refuse(ZSH_UNINSTALL_UNSUPPORTED)
        } else {
            HookAction::Print(Shell::Zsh)
        }),
        command matches Some(HookCommands::Nu { uninstall }) ==> hook_action(command, rm, shell) == (if uninstall
            || rm {
            HookAction::Refuse(NU_UNINSTALL_UNSUPPORTED)
        } else {
            HookAction::Print(Shell::Nu)
        }),
        command is None ==> hook_action(command, rm, shell) == HookAction::Print(shell),
        rm ==> !(hook_action(command, rm, shell) is InstallPowershell) && !(hook_action(command, rm, shell) is InstallWsl),
{
}

/// A subcommand's own uninstall flag acts exactly as the top-level `--rm`;
/// once either is given, the other changes nothing; and `--shell` matters
/// only when no subcommand is given.
pub proof fn lemma_uninstall_flag_is_rm(distro: Option<String>, print: bool, system: bool, rm: bool, shell: Shell, other: Shell)
    ensures
        hook_action(Some(HookCommands::Wsl { distro, uninstall: true }), false, shell) == hook_action(
            Some(HookCommands::Wsl { distro, uninstall: false }),
            true,
            shell,
        ),
        hook_action(Some(HookCommands::Wsl { distro, uninstall: true }), rm, shell) == hook_action(
            Some(HookCommands::Wsl { distro, uninstall: rm }),
            true,
            other,
        ),
        hook_action(Some(HookCommands::Powershell { print, uninstall: true, system }), false, shell) == hook_action(
            Some(HookCommands::Powershell { print, uninstall: false, system }),
            true,
            shell,
        ),
        hook_action(Some(HookCommands::Bash { uninstall: true }), false, shell) == hook_action(
            Some(HookCommands::Bash { uninstall: false }),
            true,
            other,
        ),
        hook_action(Some(HookCommands::Zsh { uninstall: true }), false, shell) == hook_action(
            Some(HookCommands::Zsh { uninstall: false }),
            true,
            other,
        ),
        hook_action(Some(HookCommands::Nu { uninstall: true }), false, shell) == hook_action(
            Some(HookCommands::Nu { uninstall: false }),
            true,
            other,
        ),
        hook_action(None, rm, shell) == hook_action(None, !rm, shell),
        hook_action(Some(HookCommands::Wsl { distro, uninstall: true }), rm, shell) != hook_action(
            Some(HookCommands::Wsl { distro, uninstall: false }),
            false,
            shell,
        ),
{
}

/// Decide what `sfsu hook` does
pub fn decide(command: Option<HookCommands>, rm: bool, shell: Shell) -> (a: HookAction)
    ensures
        a == hook_action(command, rm, shell),
{
    match command {
        Some(HookCommands::Powershell { print, uninstall, system }) => {
            if uninstall || rm {
                HookAction::UninstallPowershell { system }
            } else if !print {
                HookAction::InstallPowershell { system }
            } else {
                HookAction::Print(Shell::Powershell)
            }
        },
        Some(HookCommands::Bash { uninstall }) => {
            if uninstall || rm {
                HookAction::Refuse(BASH_UNINSTALL_UNSUPPORTED)
            } else {
                HookAction::Print(Shell::Bash)
            }
        },
        Some(HookCommands::Zsh { uninstall }) => {
            if uninstall || rm {
                HookAction::Refuse(ZSH_UNINSTALL_UNSUPPORTED)
            } else {
                HookAction::Print(Shell::Zsh)
            }
        },
        Some(HookCommands::Nu { uninstall }) => {
            if uninstall || rm {
                HookAction::Refuse(NU_UNINSTALL_UNSUPPORTED)
            } else {
                HookAction::Print(Shell::Nu)
            }
        },
        Some(HookCommands::Wsl { distro, uninstall }) => {
            if uninstall || rm {
                HookAction::UninstallWsl { distro }
            } else {
                HookAction::InstallWsl { distro }
            }
        },
        None => HookAction::Print(shell),
    }
}

/// The hooks to write: those given with `--enabled` (all hooks when none is
/// given), minus those given with `--disable`, in their order.
pub open spec fn enabled_hooks_of(enabled: Seq<CommandHooks>, disable: Seq<CommandHooks>) -> Seq<CommandHooks> {
    let base = if enabled.len() == 0 {
        CommandHooks::all()
    } else {
        enabled
    };
    base.filter(|h: CommandHooks| !disable.contains(h))
}

/// The hooks to write for the given `--enabled` and `--disable` lists
pub fn enabled_hooks(enabled: &Vec<CommandHooks>, disable: &Vec<CommandHooks>) -> (r: Vec<CommandHooks>)
    ensures
        r@ == enabled_hooks_of(enabled@, disable@),
{
    let base = if enabled.len() == 0 {
        CommandHooks::variants()
    } else {
        enabled.clone()
    };
    let ghost pred = |h: CommandHooks| !disable@.contains(h);
    let mut r: Vec<CommandHooks> = Vec::new();
    let n = base.len();
    let mut i: usize = 0;
    while i < n
        invariant
            n == base@.len(),
            base@ == (if enabled@.len() == 0 { CommandHooks::all() } else { enabled@ }),
            i <= n,
            pred == (|h: CommandHooks| !disable@.contains(h)),
            r@ == base@.take(i as int).filter(pred),
        decreases n - i,
    {
        let h = base[i];
        let mut listed = false;
        let mut j: usize = 0;
        while j < disable.len()
            invariant
                j <= disable@.len(),
                listed == exists|k: int| 0 <= k < j && disable@[k] == h,
            decreases disable@.len() - j,
        {
            if disable[j] == h {
                listed = true;
            }
            j += 1;
        }
        proof {
            assert(base@.take(i + 1) =~= base@.take(i as int).push(h));
            base@.take(i as int).lemma_filter_push(h, pred);
            if listed {
                let k = choose|k: int| 0 <= k < disable@.len() && disable@[k] == h;
                assert(disable@.contains(h));
            } else {
                assert(!disable@.contains(h));
            }
            assert(pred(h) == !listed);
        }
        if !listed {
            r.push(h);
        }
        i += 1;
    }
    assert(base@.take(n as int) =~= base@);
    r
}

/// The text of each hook's lines, one after the other.
pub open spec fn join_lines(hooks: Seq<CommandHooks>, line: spec_fn(CommandHooks) -> Seq<char>) -> Seq<char>
    decreases hooks.len(),
{
    if hooks.len() == 0 {
        Seq::empty()
    } else {
        join_lines(hooks.drop_last(), line) + line(hooks.last())
    }
}

/// Joining one hook more adds that hook's line at the end.
pub proof fn lemma_join_lines_step(hooks: Seq<CommandHooks>, line: spec_fn(CommandHooks) -> Seq<char>, i: int)
    requires
        0 <= i < hooks.len(),
    ensures
        join_lines(hooks.take(i + 1), line) == join_lines(hooks.take(i), line) + line(hooks[i]),
{
    assert(hooks.take(i + 1).drop_last() =~= hooks.take(i));
}

pub const POWERSHELL_HEADER: &'static str = "function scoop { switch ($args[0]) { ";

pub const POWERSHELL_FOOTER: &'static str =
    "default { scoop.ps1 @args } } }\n# To add this to your config, add the following block to the end of your PowerShell profile:\n# >>> sfsu hook >>>\nInvoke-Expression (&sfsu hook)\n# <<< sfsu hook <<<\n# You can also optionally disable certain hooks via the --disable <COMMAND> flag\n#     Invoke-Expression (&sfsu hook --disable list)\n";

pub const POWERSHELL_WSL_NOTE: &'static str =
    "# WSL detected: to have the installer add the following to your WSL ~/.bashrc automatically, run `sfsu hook wsl`:\n#   source <(sfsu.exe hook --shell bash)\n";

pub const POWERSHELL_NU_NOTE: &'static str =
    "# Nushell is also supported. Run the following command to save it to a file.\n#   sfsu hook --shell nu | save -f path/to/some/file.nu\n# Then source it in your config.nu (situated in path $nu.config-path). \n#   source path/to/the/file.nu\n";

/// The PowerShell `switch` case that routes one hook.
pub open spec fn powershell_case(h: CommandHooks) -> Seq<char> {
    "  '"@ + h.hook_name() + "' { return sfsu.exe "@ + h.command_name()
        + " @($args | Select-Object -Skip 1) } "@
}

/// The PowerShell hook script, with the notes on WSL and on Nushell where they apply.
pub open spec fn powershell_script(hooks: Seq<CommandHooks>, has_wsl: bool, has_nu: bool) -> Seq<char> {
    POWERSHELL_HEADER@ + join_lines(hooks, |h: CommandHooks| powershell_case(h)) + POWERSHELL_FOOTER@
        + (if has_wsl { POWERSHELL_WSL_NOTE@ } else { Seq::empty() })
        + (if has_nu { POWERSHELL_NU_NOTE@ } else { Seq::empty() })
}

/// The PowerShell hook script for the given hooks; `has_wsl` tells whether WSL
/// is installed, `has_nu` whether Nushell is found on the host or in WSL
pub fn powershell_hook(hooks: &Vec<CommandHooks>, has_wsl: bool, has_nu: bool) -> (s: String)
    ensures
        s@ == powershell_script(hooks@, has_wsl, has_nu),
{
    let ghost line = |h: CommandHooks| powershell_case(h);
    let mut s = String::from_str(POWERSHELL_HEADER);
    let n = hooks.len();
    let mut i: usize = 0;
    while i < n
        invariant
            n == hooks@.len(),
            i <= n,
            line == (|h: CommandHooks| powershell_case(h)),
            s@ == POWERSHELL_HEADER@ + join_lines(hooks@.take(i as int), line),
        decreases n - i,
    {
        let h = hooks[i];
        proof {
            lemma_join_lines_step(hooks@, line, i as int);
            assert(line(h) == powershell_case(h));
        }
        s.append("  '");
        s.append(h.hook());
        s.append("' { return sfsu.exe ");
        s.append(h.command());
        s.append(" @($args | Select-Object -Skip 1) } ");
        assert(s@ =~= POWERSHELL_HEADER@ + join_lines(hooks@.take(i + 1), line));
        i += 1;
    }
    assert(hooks@.take(n as int) =~= hooks@);
    s.append(POWERSHELL_FOOTER);
    if has_wsl {
        s.append(POWERSHELL_WSL_NOTE);
    }
    if has_nu {
        s.append(POWERSHELL_NU_NOTE);
    }
    assert(s@ =~= powershell_script(hooks@, has_wsl, has_nu));
    s
}

pub const POSIX_HEADER: &'static str =
    "SCOOP_EXEC=$(which scoop) \nscoop () { \ncase $1 in\n";

/// The `case` branch of a Bash or Zsh hook that routes one hook.
pub open spec fn posix_case(h: CommandHooks) -> Seq<char> {
    "("@ + h.hook_name() + ") sfsu.exe "@ + h.command_name() + " ${@:2} ;;\n"@
}

/// The Bash or Zsh hook script; `shell` is the shell's name, `shell_config`
/// the name of its startup file in the home directory.
pub open spec fn posix_script(hooks: Seq<CommandHooks>, shell: Seq<char>, shell_config: Seq<char>) -> Seq<char> {
    POSIX_HEADER@ + join_lines(hooks, |h: CommandHooks| posix_case(h))
        + "(*) $SCOOP_EXEC $@ ;; \nesac \n} \n\n# Add the following block to the end of your ~/."@
        + shell_config + " \n# >>> sfsu hook >>> \n#   source <(sfsu.exe hook --shell "@ + shell
        + ") \n# <<< sfsu hook <<<\n"@
}

/// The Bash or Zsh hook script for the given hooks
pub fn posix_hook(hooks: &Vec<CommandHooks>, shell: &str, shell_config: &str) -> (s: String)
    ensures
        s@ == posix_script(hooks@, shell@, shell_config@),
{
    let ghost line = |h: CommandHooks| posix_case(h);
    let mut s = String::from_str(POSIX_HEADER);
    let n = hooks.len();
    let mut i: usize = 0;
    while i < n
        invariant
            n == hooks@.len(),
            i <= n,
            line == (|h: CommandHooks| posix_case(h)),
            s@ == POSIX_HEADER@ + join_lines(hooks@.take(i as int), line),
        decreases n - i,
    {
        let h = hooks[i];
        proof {
            lemma_join_lines_step(hooks@, line, i as int);
            assert(line(h) == posix_case(h));
        }
        s.append("(");
        s.append(h.hook());
        s.append(") sfsu.exe ");
        s.append(h.command());
        s.append(" ${@:2} ;;\n");
        assert(s@ =~= POSIX_HEADER@ + join_lines(hooks@.take(i + 1), line));
        i += 1;
    }
    assert(hooks@.take(n as int) =~= hooks@);
    s.append("(*) $SCOOP_EXEC $@ ;; \nesac \n} \n\n# Add the following block to the end of your ~/.");
    s.append(shell_config);
    s.append(" \n# >>> sfsu hook >>> \n#   source <(sfsu.exe hook --shell ");
    s.append(shell);
    s.append(") \n# <<< sfsu hook <<<\n");
    assert(s@ =~= posix_script(hooks@, shell@, shell_config@));
    s
}

/// The Nushell command that routes one hook.
pub open spec fn nu_case(h: CommandHooks) -> Seq<char> {
    "def --wrapped \"scoop "@ + h.hook_name() + "\" [...rest] { sfsu "@ + h.command_name()
        + " ...$rest }\n"@
}

/// The Nushell hook script; `shell` is the shell's name, `shell_config` the
/// name of its configuration file.
pub open spec fn nu_script(hooks: Seq<CommandHooks>, shell: Seq<char>, shell_config: Seq<char>) -> Seq<char> {
    join_lines(hooks, |h: CommandHooks| nu_case(h))
        + "\n# To add this to your config, run `sfsu hook --shell "@ + shell
        + " | save ~/.cache/sfsu.nu`\n# And then in your "@ + shell_config
        + " add the following line to the end:\n#   source ~/.cache/sfsu.nu\n"@
}

/// The Nushell hook script for the given hooks
pub fn nu_hook(hooks: &Vec<CommandHooks>, shell: &str, shell_config: &str) -> (s: String)
    ensures
        s@ == nu_script(hooks@, shell@, shell_config@),
{
    let ghost line = |h: CommandHooks| nu_case(h);
    let mut s = String::new();
    let n = hooks.len();
    let mut i: usize = 0;
    while i < n
        invariant
            n == hooks@.len(),
            i <= n,
            line == (|h: CommandHooks| nu_case(h)),
            s@ == join_lines(hooks@.take(i as int), line),
        decreases n - i,
    {
        let h = hooks[i];
        proof {
            lemma_join_lines_step(hooks@, line, i as int);
            assert(line(h) == nu_case(h));
        }
        s.append("def --wrapped \"scoop ");
        s.append(h.hook());
        s.append("\" [...rest] { sfsu ");
        s.append(h.command());
        s.append(" ...$rest }\n");
        assert(s@ =~= join_lines(hooks@.take(i + 1), line));
        i += 1;
    }
    assert(hooks@.take(n as int) =~= hooks@);
    s.append("\n# To add this to your config, run `sfsu hook --shell ");
    s.append(shell);
    s.append(" | save ~/.cache/sfsu.nu`\n# And then in your ");
    s.append(shell_config);
    s.append(" add the following line to the end:\n#   source ~/.cache/sfsu.nu\n");
    assert(s@ =~= nu_script(hooks@, shell@, shell_config@));
    s
}

/// The shell command that adds the hook to a WSL user's bashrc, unless it is there.
pub const WSL_INSTALL_SCRIPT: &'static str = "if [ -f ~/.bashrc ] && (grep -q '# >>> sfsu hook >>>' ~/.bashrc || grep -q 'sfsu.exe hook --shell bash' ~/.bashrc); then echo 'sfsu: hook already present'; else printf \"\\n# >>> sfsu hook >>>\\nsource <(sfsu.exe hook --shell bash)\\n# <<< sfsu hook <<<\\n\" >> ~/.bashrc; fi";

/// The shell command that removes the hook from a WSL user's bashrc.
pub const WSL_UNINSTALL_SCRIPT: &'static str = "if [ -f ~/.bashrc ] && grep -q '# >>> sfsu hook >>>' ~/.bashrc; then sed -i '/# >>> sfsu hook >>>/,/# <<< sfsu hook <<</d' ~/.bashrc && echo 'removed block'; elif [ -f ~/.bashrc ] && grep -q 'sfsu.exe hook --shell bash' ~/.bashrc; then sed -i '/sfsu.exe hook --shell bash/d' ~/.bashrc && echo 'removed line'; fi";

/// The arguments to `wsl` that install (or remove) the hook in the given
/// distribution, or in the default one.
pub open spec fn wsl_args(distro: Option<Seq<char>>, install: bool) -> Seq<Seq<char>> {
    let selection = match distro {
        Some(d) => seq!["-d"@, d],
        None => Seq::empty(),
    };
    selection + seq![
        "--"@,
        "bash"@,
        "-lc"@,
        if install {
            WSL_INSTALL_SCRIPT@
        } else {
            WSL_UNINSTALL_SCRIPT@
        },
    ]
}

/// The arguments to `wsl` that install the hook (`install`) or remove it
pub fn wsl_hook_args(distro: &Option<String>, install: bool) -> (args: Vec<String>)
    ensures
        args.deep_view() == wsl_args(opt_string_view(*distro), install),
{
    let mut args: Vec<String> = Vec::new();
    match distro {
        Some(d) => {
            args.push(String::from_str("-d"));
            args.push(d.clone());
        },
        None => {},
    }
    args.push(String::from_str("--"));
    args.push(String::from_str("bash"));
    args.push(String::from_str("-lc"));
    if install {
        args.push(String::from_str(WSL_INSTALL_SCRIPT));
    } else {
        args.push(String::from_str(WSL_UNINSTALL_SCRIPT));
    }
    assert(args.deep_view() =~= wsl_args(opt_string_view(*distro), install));
    args
}

/// What sfsu reports after the WSL command succeeded, given its output.
pub open spec fn wsl_report(install: bool, stdout: Seq<char>) -> Seq<char> {
    if install {
        if contains_seq(stdout, "already present"@) {
            "sfsu: Hook already present in WSL"@
        } else {
            "sfsu: Ensured WSL bashrc contains sfsu hook"@
        }
    } else {
        if contains_seq(stdout, "removed"@) {
            "sfsu: Removed hook from WSL bashrc"@
        } else {
            "sfsu: Hook markers or command not found in WSL"@
        }
    }
}

/// The report on a successful WSL install (`install`) or removal, from the command's output
pub fn wsl_success_message(install: bool, stdout: &str) -> (m: &'static str)
    ensures
        m@ == wsl_report(install, stdout@),
{
    if install {
        if contains_str(stdout, "already present") {
            "sfsu: Hook already present in WSL"
        } else {
            "sfsu: Ensured WSL bashrc contains sfsu hook"
        }
    } else {
        if contains_str(stdout, "removed") {
            "sfsu: Removed hook from WSL bashrc"
        } else {
            "sfsu: Hook markers or command not found in WSL"
        }
    }
}

/// The hooks written are exactly the hooks enabled (all of them when none is
/// named) that are not disabled.
pub proof fn lemma_enabled_hooks_respect_flags(enabled: Seq<CommandHooks>, disable: Seq<CommandHooks>, h: CommandHooks)
    ensures
        enabled_hooks_of(enabled, disable).contains(h) <==> (
        (if enabled.len() == 0 {
            CommandHooks::all()
        } else {
            enabled
        }).contains(h) && !disable.contains(h)),
{
    let base = if enabled.len() == 0 {
        CommandHooks::all()
    } else {
        enabled
    };
    let pred = |k: CommandHooks| !disable.contains(k);
    assert(enabled_hooks_of(enabled, disable) == base.filter(pred));
    if base.filter(pred).contains(h) {
        let i = choose|i: int| 0 <= i < base.filter(pred).len() && base.filter(pred)[i] == h;
        base.lemma_filter_pred(pred, i);
        base.lemma_filter_contains_rev(pred, h);
    }
    if base.contains(h) && !disable.contains(h) {
        let j = choose|j: int| 0 <= j < base.len() && base[j] == h;
        base.lemma_filter_contains(pred, j);
    }
}

/// The PowerShell hook of the standalone `sfss` and `sfsl` binaries, leaving
/// out the `search` or the `list` hook when asked to.
pub open spec fn legacy_script(no_search: bool, no_list: bool) -> Seq<char> {
    "function scoop { "@ + (if no_search {
        Seq::empty()
    } else {
        "if ($args[0] -eq 'search') { sfss.exe @($args | Select-Object -Skip 1) } else"@
    }) + (if no_list {
        Seq::empty()
    } else {
        "if ($args[0] -eq 'list') { sfsl.exe @($args | Select-Object -Skip 1) } else"@
    }) + " { scoop.ps1 @args } }"@
}

/// The PowerShell hook of the standalone `sfss` and `sfsl` binaries
pub fn legacy_hook(no_search: bool, no_list: bool) -> (s: String)
    ensures
        s@ == legacy_script(no_search, no_list),
{
    let mut s = String::from_str("function scoop { ");
    if !no_search {
        s.append("if ($args[0] -eq 'search') { sfss.exe @($args | Select-Object -Skip 1) } else");
    }
    if !no_list {
        s.append("if ($args[0] -eq 'list') { sfsl.exe @($args | Select-Object -Skip 1) } else");
    }
    s.append(" { scoop.ps1 @args } }");
    assert(s@ =~= legacy_script(no_search, no_list));
    s
}

} // verus!
