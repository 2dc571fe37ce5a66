use sfsu::commands::hook::{
    decide, enabled_hooks, legacy_hook, nu_hook, posix_hook, powershell_hook, wsl_hook_args, wsl_success_message,
    HookAction, HookCommands, Shell, BASH_UNINSTALL_UNSUPPORTED, NU_UNINSTALL_UNSUPPORTED,
    POWERSHELL_FOOTER, POWERSHELL_NU_NOTE, POWERSHELL_WSL_NOTE, WSL_INSTALL_SCRIPT,
    WSL_UNINSTALL_SCRIPT, ZSH_UNINSTALL_UNSUPPORTED,
};
use sfsu::commands::{CommandHooks, DeprecationMessage};

#[test]
fn hook_and_command_names() {
    assert_eq!(CommandHooks::Cat.hook(), "cat");
    assert_eq!(CommandHooks::Cat.command(), "app cat");
    assert_eq!(CommandHooks::Scan.hook(), "virustotal");
    assert_eq!(CommandHooks::Scan.command(), "scan");
    assert_eq!(CommandHooks::Uninstall.hook(), "uninstall");
    assert_eq!(CommandHooks::Uninstall.command(), "app uninstall");
    assert_eq!(CommandHooks::UnusedBuckets.hook(), "unused-buckets");
    assert_eq!(CommandHooks::App.command(), "app");
}

#[test]
fn variants_are_all_hooks_once() {
    let all = CommandHooks::variants();
    assert_eq!(all.len(), 19);
    assert_eq!(all[0], CommandHooks::Cat);
    assert_eq!(all[18], CommandHooks::App);
    for (i, a) in all.iter().enumerate() {
        for b in &all[i + 1..] {
            assert_ne!(a, b);
            assert_ne!(a.hook(), b.hook());
            assert_ne!(a.command(), b.command());
        }
    }
}

#[test]
fn hook_names_convert_back() {
    for hook in CommandHooks::variants() {
        assert_eq!(CommandHooks::parse(hook.hook()), Some(hook));
        assert_eq!(CommandHooks::from(hook.hook().to_string()), hook);
    }
}

#[test]
fn unknown_hook_names_are_rejected() {
    assert_eq!(CommandHooks::parse("scan"), None);
    assert_eq!(CommandHooks::parse("app cat"), None);
    assert_eq!(CommandHooks::parse(""), None);
    assert_eq!(CommandHooks::parse("virustotal"), Some(CommandHooks::Scan));
}

#[test]
fn enabled_hooks_default_to_all() {
    let hooks = enabled_hooks(&vec![], &vec![]);
    assert_eq!(hooks, CommandHooks::variants());
}

#[test]
fn enabled_hooks_drop_disabled_ones() {
    let hooks = enabled_hooks(&vec![], &vec![CommandHooks::List, CommandHooks::Search]);
    assert_eq!(hooks.len(), 17);
    assert!(!hooks.contains(&CommandHooks::List));
    assert!(!hooks.contains(&CommandHooks::Search));
    assert_eq!(hooks[4], CommandHooks::Info);
    assert_eq!(hooks[5], CommandHooks::UnusedBuckets);
}

#[test]
fn enabled_hooks_keep_exclusive_list_in_order() {
    let hooks = enabled_hooks(
        &vec![CommandHooks::Status, CommandHooks::Cat, CommandHooks::Search],
        &vec![CommandHooks::Cat],
    );
    assert_eq!(hooks, vec![CommandHooks::Status, CommandHooks::Search]);
}

#[test]
fn decide_powershell() {
    let ps = |print, uninstall, system| Some(HookCommands::Powershell { print, uninstall, system });
    assert_eq!(decide(ps(false, false, true), false, Shell::Bash), HookAction::InstallPowershell { system: true });
    assert_eq!(decide(ps(true, false, false), false, Shell::Bash), HookAction::Print(Shell::Powershell));
    assert_eq!(decide(ps(true, true, false), false, Shell::Bash), HookAction::UninstallPowershell { system: false });
    assert_eq!(decide(ps(false, false, false), true, Shell::Bash), HookAction::UninstallPowershell { system: false });
}

#[test]
fn decide_posix_and_nu() {
    assert_eq!(decide(Some(HookCommands::Bash { uninstall: false }), false, Shell::Nu), HookAction::Print(Shell::Bash));
    assert_eq!(decide(Some(HookCommands::Bash { uninstall: true }), false, Shell::Nu), HookAction::Refuse(BASH_UNINSTALL_UNSUPPORTED));
    assert_eq!(decide(Some(HookCommands::Zsh { uninstall: false }), true, Shell::Nu), HookAction::Refuse(ZSH_UNINSTALL_UNSUPPORTED));
    assert_eq!(decide(Some(HookCommands::Nu { uninstall: false }), false, Shell::Bash), HookAction::Print(Shell::Nu));
    assert_eq!(decide(Some(HookCommands::Nu { uninstall: true }), false, Shell::Bash), HookAction::Refuse(NU_UNINSTALL_UNSUPPORTED));
    assert!(BASH_UNINSTALL_UNSUPPORTED.contains(".bashrc"));
}

#[test]
fn decide_wsl_and_default() {
    let distro = Some("Ubuntu".to_string());
    assert_eq!(
        decide(Some(HookCommands::Wsl { distro: distro.clone(), uninstall: false }), false, Shell::Bash),
        HookAction::InstallWsl { distro: distro.clone() }
    );
    assert_eq!(
        decide(Some(HookCommands::Wsl { distro: None, uninstall: false }), true, Shell::Bash),
        HookAction::UninstallWsl { distro: None }
    );
    assert_eq!(decide(None, false, Shell::Zsh), HookAction::Print(Shell::Zsh));
    assert_eq!(decide(None, true, Shell::Powershell), HookAction::Print(Shell::Powershell));
}

#[test]
fn powershell_script_routes_each_hook() {
    let script = powershell_hook(&vec![CommandHooks::List, CommandHooks::Scan], false, false);
    let expected = format!(
        "function scoop {{ switch ($args[0]) {{   'list' {{ return sfsu.exe app list @($args | Select-Object -Skip 1) }}   'virustotal' {{ return sfsu.exe scan @($args | Select-Object -Skip 1) }} {}",
        POWERSHELL_FOOTER
    );
    assert_eq!(script, expected);
    assert!(script.starts_with("function scoop { switch ($args[0]) { "));
    assert!(script.contains("default { scoop.ps1 @args } } }\n"));
    assert!(script.ends_with("#     Invoke-Expression (&sfsu hook --disable list)\n"));
}

#[test]
fn powershell_script_notes() {
    let plain = powershell_hook(&vec![], false, false);
    let wsl = powershell_hook(&vec![], true, false);
    let both = powershell_hook(&vec![], true, true);
    assert_eq!(wsl, format!("{plain}{POWERSHELL_WSL_NOTE}"));
    assert_eq!(both, format!("{plain}{POWERSHELL_WSL_NOTE}{POWERSHELL_NU_NOTE}"));
    assert!(both.contains("#   source <(sfsu.exe hook --shell bash)\n"));
    assert!(both.contains("#   sfsu hook --shell nu | save -f path/to/some/file.nu\n"));
}

#[test]
fn posix_script_text() {
    let script = posix_hook(&vec![CommandHooks::Search], "bash", "bashrc");
    let expected = "SCOOP_EXEC=$(which scoop) \nscoop () { \ncase $1 in\n(search) sfsu.exe search ${@:2} ;;\n(*) $SCOOP_EXEC $@ ;; \nesac \n} \n\n# Add the following block to the end of your ~/.bashrc \n# >>> sfsu hook >>> \n#   source <(sfsu.exe hook --shell bash) \n# <<< sfsu hook <<<\n";
    assert_eq!(script, expected);
}

#[test]
fn nu_script_text() {
    let script = nu_hook(&vec![CommandHooks::Cat, CommandHooks::Home], "nu", "config.nu");
    let expected = "def --wrapped \"scoop cat\" [...rest] { sfsu app cat ...$rest }\ndef --wrapped \"scoop home\" [...rest] { sfsu app home ...$rest }\n\n# To add this to your config, run `sfsu hook --shell nu | save ~/.cache/sfsu.nu`\n# And then in your config.nu add the following line to the end:\n#   source ~/.cache/sfsu.nu\n";
    assert_eq!(script, expected);
}

#[test]
fn wsl_args_with_and_without_distro() {
    let args = wsl_hook_args(&Some("Debian".to_string()), true);
    assert_eq!(args, vec!["-d", "Debian", "--", "bash", "-lc", WSL_INSTALL_SCRIPT]);
    let args = wsl_hook_args(&None, false);
    assert_eq!(args, vec!["--", "bash", "-lc", WSL_UNINSTALL_SCRIPT]);
    assert!(WSL_INSTALL_SCRIPT.contains("echo 'sfsu: hook already present'"));
    assert!(WSL_UNINSTALL_SCRIPT.contains("echo 'removed block'"));
}

#[test]
fn wsl_reports() {
    assert_eq!(wsl_success_message(true, "sfsu: hook already present\n"), "sfsu: Hook already present in WSL");
    assert_eq!(wsl_success_message(true, ""), "sfsu: Ensured WSL bashrc contains sfsu hook");
    assert_eq!(wsl_success_message(false, "removed line\n"), "sfsu: Removed hook from WSL bashrc");
    assert_eq!(wsl_success_message(false, "nothing"), "sfsu: Hook markers or command not found in WSL");
}

#[test]
fn deprecation_messages() {
    assert_eq!(DeprecationMessage::Replacement("sfsu status").to_string(), "Use `sfsu status` instead");
    assert_eq!(DeprecationMessage::Warning("going away").to_string(), "going away");
}

#[test]
fn legacy_hooks() {
    assert_eq!(
        legacy_hook(false, false),
        "function scoop { if ($args[0] -eq 'search') { sfss.exe @($args | Select-Object -Skip 1) } elseif ($args[0] -eq 'list') { sfsl.exe @($args | Select-Object -Skip 1) } else { scoop.ps1 @args } }"
    );
    assert_eq!(legacy_hook(true, true), "function scoop {  { scoop.ps1 @args } }");
    assert_eq!(
        legacy_hook(false, true),
        "function scoop { if ($args[0] -eq 'search') { sfss.exe @($args | Select-Object -Skip 1) } else { scoop.ps1 @args } }"
    );
}
