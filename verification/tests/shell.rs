use robo::project::{up_init, up_target, UpInit, UpTarget};
use robo::project::{exit_code_of, uv_run_prefix};
use robo::shell::{completion_shell, standalone_completion_shell, CompletionShell};
use robo::hook::{fish_hook, fish_quote, hook_shell, posix_function, posix_hook_text, posix_hook_var_calls, shell_quote};
use robo::shell::{requested_shell_name, shell_basename, supports_interactive_shell};

#[test]
fn posix_hook_stays_single_line_for_unquoted_eval() {
    let hook = posix_hook_text("/bin/robo");

    assert!(!hook.contains('\n'));
    assert!(hook.contains("__shell-env"));
    assert!(hook.contains(r#"if [ -n "${ROBO_NIX_ACTIVE:-}" ]"#));
    assert!(hook.contains("__robo_save_var PATH"));
    assert!(hook.contains("__robo_save_var MUJOCO_GL"));
    assert!(hook.contains("__robo_restore_var SHELL"));
}

#[test]
fn requested_shell_name_accepts_shell_path() {
    let shell = requested_shell_name(Some("/usr/bin/zsh"), None, "robo hook")
        .expect("shell path should parse");

    assert_eq!(shell, "zsh");
}

#[test]
fn supported_shells_are_the_interactive_hook_shells() {
    for shell in ["bash", "zsh", "fish"] {
        assert!(supports_interactive_shell(shell));
    }
    assert!(!supports_interactive_shell("nu"));
}

#[test]
fn requested_shell_name_falls_back_to_shell_variable() {
    assert_eq!(
        requested_shell_name(None, Some("/bin/bash"), "robo hook"),
        Ok("bash".to_string())
    );
    assert_eq!(
        requested_shell_name(None, None, "robo hook"),
        Err("robo hook needs a shell name when SHELL is unknown.".to_string())
    );
}

#[test]
fn shell_basename_keeps_bare_names() {
    assert_eq!(shell_basename("fish"), "fish");
    assert_eq!(shell_basename("/usr/local/bin/fish"), "fish");
    assert_eq!(shell_basename("/"), "/");
}

#[test]
fn posix_quote_escapes_single_quotes() {
    assert_eq!(shell_quote("/opt/robo"), "'/opt/robo'");
    assert_eq!(shell_quote("it's"), "'it'\\''s'");
}

#[test]
fn fish_quote_escapes_backslashes_then_quotes() {
    assert_eq!(fish_quote("a\\b"), "'a\\\\b'");
    assert_eq!(fish_quote("it's"), "'it\\'s'");
}

#[test]
fn posix_function_joins_body_lines() {
    assert_eq!(posix_function("f", &["a", "b"]), "f() { a; b; }");
}

#[test]
fn hook_var_calls_cover_every_state_var_in_order() {
    let calls = posix_hook_var_calls("save");
    assert!(calls.starts_with("save PATH; save LD_LIBRARY_PATH; "));
    assert!(calls.ends_with("; save VIRTUAL_ENV"));
    assert_eq!(calls.split("; ").count(), 25);
}

#[test]
fn posix_hook_quotes_the_binary_path() {
    let hook = posix_hook_text("/tmp/it's/robo");
    assert!(hook.starts_with("__robo_bin='/tmp/it'\\''s/robo'; __robo_save_var() { "));
    assert!(hook.ends_with("if [ -n \"${ROBO_NIX_ACTIVE:-}\" ]; then __robo_prompt_enable; fi"));
}

#[test]
fn fish_hook_sets_the_quoted_binary() {
    let hook = fish_hook("/bin/robo");
    assert!(hook.starts_with("\nset -gx __robo_bin '/bin/robo'\n"));
    assert!(hook.contains("function robo\n    command $__robo_bin $argv\nend"));
}

#[test]
fn hook_shell_rejects_unsupported_shells() {
    assert_eq!(hook_shell(Some("/bin/zsh"), None), Ok("zsh".to_string()));
    assert_eq!(
        hook_shell(Some("nu"), Some("/bin/bash")),
        Err("unsupported hook shell: nu".to_string())
    );
    assert_eq!(hook_shell(None, Some("/usr/bin/fish")), Ok("fish".to_string()));
}

use robo::shell_launch::{
    clean_interactive_shell_args, command_shell_flag, default_command_shell, interactive_launch,
    is_generic_sh, is_nix_bash, launch_program, normalize_shell_args_with, prompted_fish_args,
    resolve_shell_path_with, select_default_interactive_shell, shell_launch_label, zshenv,
    ShellLaunch, ShellsInPath,
};

fn strings(values: &[&str]) -> Vec<String> {
    values.iter().map(|v| v.to_string()).collect()
}

fn nowhere() -> ShellsInPath {
    ShellsInPath { zsh: None, bash: None, fish: None, sh: None }
}

#[test]
fn shell_command_with_single_quoted_string_uses_shell() {
    let args = strings(&["-c", "python test.py"]);
    let normalized = normalize_shell_args_with(
        args,
        Some("/run/current-system/sw/bin/zsh".to_string()),
    )
    .expect("arguments were given");

    assert_eq!(
        normalized.args,
        strings(&["-c", "/run/current-system/sw/bin/zsh", "-lc", "python test.py"])
    );
    assert_eq!(
        normalized.env,
        vec![(
            "SHELL".to_string(),
            "/run/current-system/sw/bin/zsh".to_string()
        )]
    );
}

#[test]
fn shell_command_with_posix_sh_uses_plain_command_flag() {
    let args = strings(&["-c", "echo test"]);
    let normalized =
        normalize_shell_args_with(args, Some("/bin/sh".to_string())).expect("arguments were given");

    assert_eq!(normalized.args, strings(&["-c", "/bin/sh", "-c", "echo test"]));
}

#[test]
fn shell_command_without_resolved_shell_is_left_unchanged() {
    let args = strings(&["-c", "python test.py"]);
    let normalized = normalize_shell_args_with(args.clone(), None);

    assert_eq!(normalized, Some(ShellLaunch::args(args)));
}

#[test]
fn shell_command_without_args_uses_user_shell() {
    let normalized = interactive_launch("/bin/sh".to_string(), None);

    assert_eq!(normalized.args, strings(&["-c", "/bin/sh", "-i"]));
    assert_eq!(
        normalized.env,
        vec![("SHELL".to_string(), "/bin/sh".to_string())]
    );
}

#[test]
fn default_shell_loads_user_startup_files() {
    assert_eq!(clean_interactive_shell_args("zsh"), vec!["-i"]);
    assert_eq!(clean_interactive_shell_args("bash"), vec!["-i"]);
    assert_eq!(clean_interactive_shell_args("fish"), vec!["-i"]);
}

#[test]
fn shell_card_labels_shell_name() {
    let launch = ShellLaunch::args(strings(&["-c", "/usr/bin/zsh", "-i"]));

    assert_eq!(shell_launch_label(&launch), "zsh");
}

#[test]
fn generic_sh_is_not_treated_as_user_default_shell() {
    assert!(is_generic_sh("/bin/sh"));
    assert!(is_generic_sh("/usr/bin/dash"));
    assert!(!is_generic_sh("/bin/zsh"));
    assert!(!is_generic_sh("/bin/bash"));
}

#[test]
fn generic_shell_env_defers_to_parent_zsh() {
    let selected = select_default_interactive_shell(
        None,
        Some("/bin/sh".to_string()),
        Some("/usr/bin/zsh".to_string()),
        Some("/bin/sh".to_string()),
        nowhere(),
    );

    assert_eq!(selected, Some("/usr/bin/zsh".to_string()));
}

#[test]
fn nix_bash_with_generic_login_shell_defers_to_parent_zsh() {
    let selected = select_default_interactive_shell(
        None,
        Some("/nix/store/abc-bash-5.3/bin/bash".to_string()),
        Some("/usr/bin/zsh".to_string()),
        Some("/bin/sh".to_string()),
        ShellsInPath {
            zsh: None,
            bash: Some("/nix/store/abc-bash-5.3/bin/bash".to_string()),
            fish: None,
            sh: None,
        },
    );

    assert_eq!(selected, Some("/usr/bin/zsh".to_string()));
}

#[test]
fn shell_command_uses_program_after_develop_command_flag() {
    let (program, args) =
        launch_program(strings(&["-c", "/bin/sh", "-i"])).expect("shell command should parse");

    assert_eq!(program, "/bin/sh");
    assert_eq!(args, strings(&["-i"]));
}

#[test]
fn shell_command_keeps_split_argv_intact() {
    let args = strings(&["-c", "python", "test.py"]);
    let normalized = normalize_shell_args_with(args.clone(), Some("/bin/bash".to_string()))
        .expect("arguments were given");

    assert_eq!(normalized.args, strings(&["-c", "python", "test.py"]));
    assert_eq!(normalized, ShellLaunch::args(args));
}

#[test]
fn no_arguments_start_the_default_interactive_shell() {
    assert_eq!(normalize_shell_args_with(Vec::new(), Some("/bin/bash".to_string())), None);
}

#[test]
fn robo_nix_shell_wins_over_everything() {
    let selected = select_default_interactive_shell(
        Some("/opt/fish".to_string()),
        Some("/bin/zsh".to_string()),
        None,
        None,
        nowhere(),
    );
    assert_eq!(selected, Some("/opt/fish".to_string()));
}

#[test]
fn path_shells_are_the_last_resort() {
    let selected = select_default_interactive_shell(
        None,
        Some("/bin/sh".to_string()),
        None,
        None,
        ShellsInPath {
            zsh: None,
            bash: Some("/usr/bin/bash".to_string()),
            fish: Some("/usr/bin/fish".to_string()),
            sh: Some("/usr/bin/sh".to_string()),
        },
    );
    assert_eq!(selected, Some("/usr/bin/bash".to_string()));
    let only_sh = select_default_interactive_shell(None, None, None, None, ShellsInPath {
        zsh: None,
        bash: None,
        fish: None,
        sh: Some("/usr/bin/sh".to_string()),
    });
    assert_eq!(only_sh, Some("/usr/bin/sh".to_string()));
}

#[test]
fn nix_bash_is_recognised_by_store_path_and_name() {
    assert!(is_nix_bash("/nix/store/abc-bash-5.3/bin/bash"));
    assert!(!is_nix_bash("/usr/bin/bash"));
    assert!(!is_nix_bash("/nix/store/abc-zsh/bin/zsh"));
}

#[test]
fn login_shells_get_the_login_command_flag() {
    assert_eq!(command_shell_flag("ksh"), "-lc");
    assert_eq!(command_shell_flag("dash"), "-c");
}

#[test]
fn resolving_prefers_the_executable_path() {
    assert_eq!(
        resolve_shell_path_with("/bin/zsh".to_string(), true, None),
        Some("/bin/zsh".to_string())
    );
    assert_eq!(
        resolve_shell_path_with("/gone/zsh".to_string(), false, Some("/usr/bin/zsh".to_string())),
        Some("/usr/bin/zsh".to_string())
    );
    assert_eq!(resolve_shell_path_with("/".to_string(), false, Some("/x".to_string())), None);
}

#[test]
fn default_command_shell_falls_back_to_bash_then_sh() {
    assert_eq!(
        default_command_shell(None, None, Some("/bin/sh".to_string())),
        Some("/bin/sh".to_string())
    );
    assert_eq!(
        default_command_shell(Some("/bin/zsh".to_string()), Some("/bin/bash".to_string()), None),
        Some("/bin/zsh".to_string())
    );
}

#[test]
fn launch_program_needs_a_program_after_dash_c() {
    assert_eq!(
        launch_program(strings(&["-c"])),
        Err("shell command is missing a program after -c.".to_string())
    );
    assert_eq!(
        launch_program(Vec::new()),
        Err("could not determine an interactive shell to launch.".to_string())
    );
    assert_eq!(
        launch_program(strings(&["zsh", "-i"])),
        Ok(("zsh".to_string(), strings(&["-i"])))
    );
}

#[test]
fn prompted_launch_uses_the_prompt_arguments() {
    let prompted = prompted_fish_args();
    assert_eq!(prompted.0[0], "--init-command");
    let launch = interactive_launch("/usr/bin/fish".to_string(), Some(prompted));
    assert_eq!(launch.args[0], "-c");
    assert_eq!(launch.args[1], "/usr/bin/fish");
    assert_eq!(launch.args[2], "--init-command");
    assert_eq!(launch.args[4], "-i");
    assert_eq!(launch.env, vec![("SHELL".to_string(), "/usr/bin/fish".to_string())]);
}

#[test]
fn zshenv_exports_the_quoted_startup_dir() {
    assert!(zshenv(".robo-nix/shell-startup/zsh").ends_with("\nexport ZDOTDIR='.robo-nix/shell-startup/zsh'\n"));
}

#[test]
fn completion_shell_takes_the_argument_then_shell_base_name() {
    assert_eq!(completion_shell(Some("/usr/bin/zsh"), Some("/bin/bash")), Ok(CompletionShell::Zsh));
    assert_eq!(completion_shell(None, Some("/bin/fish")), Ok(CompletionShell::Fish));
    assert_eq!(
        completion_shell(Some("tcsh"), None),
        Err("unsupported completion shell: tcsh".to_string())
    );
    assert_eq!(
        completion_shell(None, None),
        Err("robo completion needs a shell name when SHELL is unknown.".to_string())
    );
    assert_eq!(standalone_completion_shell(None, Some("/usr/local/bin/bash")), Ok(CompletionShell::Bash));
    assert_eq!(
        standalone_completion_shell(Some("nu"), None),
        Err("robo: unsupported completion shell: nu".to_string())
    );
    assert_eq!(
        standalone_completion_shell(None, Some("/bin/csh")),
        Err("robo completion needs a shell name when SHELL is unknown.".to_string())
    );
}

#[test]
fn run_exit_codes_and_uv_prefix() {
    assert_eq!(exit_code_of(Some(0)), 0);
    assert_eq!(exit_code_of(Some(3)), 3);
    assert_eq!(exit_code_of(Some(300)), 1);
    assert_eq!(exit_code_of(Some(-1)), 1);
    assert_eq!(exit_code_of(None), 1);
    assert_eq!(uv_run_prefix(Some("uv"), Some("run")), 2);
    assert_eq!(uv_run_prefix(Some("uv"), Some("sync")), 0);
    assert_eq!(uv_run_prefix(Some("python"), None), 0);
}

#[test]
fn up_generates_runtime_files_only_when_one_is_missing() {
    assert_eq!(up_init(true, true, true, true), UpInit::AlreadyInitialized);
    assert_eq!(up_init(true, false, true, false), UpInit::Initialize(true));
    assert_eq!(up_init(false, true, false, true), UpInit::Initialize(false));
    assert_eq!(up_init(false, false, false, false), UpInit::Confirm);
    assert_eq!(up_target(true, false), UpTarget::Exists);
    assert_eq!(up_target(false, true), UpTarget::Create);
    assert_eq!(up_target(false, false), UpTarget::ConfirmCreate);
}
