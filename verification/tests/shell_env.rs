use robo::shell_env::{parse_runtime_input_fingerprints, serialize_runtime_input_fingerprints};
use robo::shell_env::{
    active_spinner_for_elapsed, append_shell_state, completed_tree_line, display_shell_step,
    fingerprint_bytes, hex16, is_shell_export_blocked, is_shell_identifier,
    nix_evaluated_package_path, parse_cached_shell_env, render_finished_tree, render_live_tree,
    runtime_input_key_from_fingerprints, serialize_shell_env, set_shell_env,
    shell_env_cache_key_path, shell_env_cache_path, shell_env_exports_from,
    shell_env_progress_detail, shell_env_value, should_export_shell_var, tree_metadata,
    truncate_progress_detail, LiveTree, ShellState,
};
use robo::ui::{label, pad_display, status_message, Config, LabelKind};

fn plain() -> Config {
    Config { color: false, debug: false }
}

fn pair(name: &str, value: &str) -> (String, String) {
    (name.to_string(), value.to_string())
}

#[test]
fn shell_env_cache_round_trips_values() {
    let env = vec![
        ("PATH".to_string(), "/nix/store/bin:/usr/bin".to_string()),
        ("ROBO_NIX_ACTIVE".to_string(), "1".to_string()),
        ("CMAKE_PREFIX_PATH".to_string(), "/tmp/pkg/share/cmake".to_string()),
    ];

    assert_eq!(
        parse_cached_shell_env(&serialize_shell_env(&env)).expect("cache should parse"),
        env
    );
}

#[test]
fn shell_env_cache_rejects_truncated_entries() {
    let bytes = b"PATH\0/bin\0ROBO_NIX_ACTIVE";

    assert_eq!(
        parse_cached_shell_env(bytes).expect_err("truncated cache should fail"),
        "shell env cache is truncated"
    );
}

#[test]
fn shell_env_exports_skip_unchanged_parent_values() {
    let baseline = vec![pair("EXPECTED_SHELL", "/tmp/first"), pair("PATH", "/usr/bin")];
    let lookup = |name: &str| shell_env_value(&baseline, name).map(|v| v.as_str());

    assert!(!should_export_shell_var(
        "EXPECTED_SHELL",
        "/tmp/first",
        lookup("EXPECTED_SHELL")
    ));
    assert!(should_export_shell_var("PATH", "/nix/bin:/usr/bin", lookup("PATH")));
    assert!(!should_export_shell_var("SHELL", "/nix/store/bash", lookup("SHELL")));
}

#[test]
fn live_tree_keeps_active_phase_on_its_own_line() {
    let config = plain();
    let state = LiveTree {
        completed: vec![completed_tree_line(
            config,
            "shell: evaluating and realizing dev shell",
            Some("cached"),
            0,
            "79ms",
        )],
        active_message: "shell: launching shell".to_string(),
        active_elapsed_millis: 812,
        active_duration: "812ms".to_string(),
        evaluated_packages: 0,
        details: vec![
            "evaluating file '/workspace/flake.nix'".to_string(),
            "copying '/workspace/' to the store".to_string(),
        ],
    };
    let live = render_live_tree(config, &state);

    assert_eq!(
        live,
        "robo shell\n  └ ✓ evaluating and realizing dev shell cached         79ms\n  └ ⠋ launching shell                                  812ms\n    evaluating file '/workspace/flake.nix'\n    copying '/workspace/' to the store"
    );
    assert!(!live.contains("robo shell  └"));
    assert!(!live.contains("robo shell └"));
}

#[test]
fn finished_tree_preserves_completed_phase_tree() {
    let config = plain();
    let completed = vec![
        completed_tree_line(
            config,
            "shell: evaluating and realizing dev shell",
            Some("cached"),
            0,
            "13ms",
        ),
        completed_tree_line(config, "shell: launching shell", None, 0, "0ms"),
    ];

    assert_eq!(
        render_finished_tree(config, &completed, "14ms"),
        "✓ robo ready                                            14ms\n  └ ✓ evaluating and realizing dev shell cached         13ms"
    );
}

#[test]
fn evaluation_phase_shows_unique_package_count() {
    let config = plain();
    let state = LiveTree {
        completed: Vec::new(),
        active_message: "shell: evaluating and realizing dev shell".to_string(),
        active_elapsed_millis: 812,
        active_duration: "812ms".to_string(),
        evaluated_packages: 2,
        details: Vec::new(),
    };

    assert_eq!(
        render_live_tree(config, &state),
        "robo shell\n  └ ⠋ evaluating and realizing dev shell 2 packages    812ms"
    );
    assert_eq!(
        completed_tree_line(
            config,
            "shell: evaluating and realizing dev shell",
            None,
            2,
            "15.0s",
        ),
        "  └ ✓ evaluating and realizing dev shell 2 packages    15.0s"
    );
}

#[test]
fn active_child_spinner_advances_with_elapsed_time() {
    assert_eq!(active_spinner_for_elapsed(0), "⠋");
    assert_eq!(active_spinner_for_elapsed(80), "⠙");
    assert_eq!(active_spinner_for_elapsed(160), "⠹");
}

#[test]
fn nix_progress_details_are_cleaned_for_display() {
    assert_eq!(
        nix_evaluated_package_path(
            b"evaluating file '/nix/store/source/pkgs/by-name/ja/jasper/package.nix'\n"
        )
        .as_deref(),
        Some("/nix/store/source/pkgs/by-name/ja/jasper/package.nix")
    );
    assert_eq!(
        nix_evaluated_package_path(b"evaluating file '/workspace/flake.nix'\n"),
        None
    );
    assert_eq!(
        shell_env_progress_detail(b"evaluating file '/workspace/flake.nix'\n"),
        None
    );
    assert_eq!(
        shell_env_progress_detail(
            br#"linking "/nix/store/source/file" to "/nix/store/.links/hash"
"#
        ),
        None
    );
}

#[test]
fn progress_detail_keeps_the_text_after_the_last_carriage_return() {
    assert_eq!(
        shell_env_progress_detail(b"old line\rcopying path '/nix/store/x'\x07\n").as_deref(),
        Some("copying path '/nix/store/x'")
    );
    assert_eq!(shell_env_progress_detail(b"  \n"), None);
}

#[test]
fn long_progress_details_end_in_an_ellipsis() {
    let long = "x".repeat(200);
    let truncated = truncate_progress_detail(&long);
    assert_eq!(truncated.chars().count(), 110);
    assert!(truncated.ends_with('…'));
    assert_eq!(truncate_progress_detail("short"), "short");
}

#[test]
fn spinner_wraps_after_ten_frames() {
    assert_eq!(active_spinner_for_elapsed(799), "⠏");
    assert_eq!(active_spinner_for_elapsed(800), "⠋");
}

#[test]
fn step_names_drop_the_shell_phase() {
    assert_eq!(display_shell_step("shell: launching shell"), "launching shell");
    assert_eq!(display_shell_step("other"), "other");
}

#[test]
fn tree_metadata_kinds_follow_the_suffix() {
    let skipped = tree_metadata("shell: x", Some("skipped"), 0).expect("suffix given");
    assert_eq!(skipped.text, "skipped");
    assert_eq!(skipped.kind, LabelKind::Warn);
    let cached = tree_metadata("shell: x", Some("cached"), 3).expect("suffix given");
    assert_eq!(cached.kind, LabelKind::SecondaryOk);
    assert!(tree_metadata("shell: x", None, 3).is_none());
    let counted = tree_metadata("shell: evaluating and realizing dev shell", Some("cached"), 3)
        .expect("packages counted");
    assert_eq!(counted.text, "3 packages");
    assert_eq!(counted.kind, LabelKind::Status);
}

#[test]
fn set_shell_env_replaces_the_first_entry_or_appends() {
    let mut env = vec![pair("A", "1"), pair("B", "2")];
    set_shell_env(&mut env, "B", "3".to_string());
    set_shell_env(&mut env, "C", "4".to_string());
    assert_eq!(env, vec![pair("A", "1"), pair("B", "3"), pair("C", "4")]);
    assert_eq!(shell_env_value(&env, "B").map(|v| v.as_str()), Some("3"));
    assert_eq!(shell_env_value(&env, "Z"), None);
}

#[test]
fn shell_env_value_reads_the_last_entry() {
    let env = vec![pair("A", "1"), pair("A", "2")];
    assert_eq!(shell_env_value(&env, "A").map(|v| v.as_str()), Some("2"));
}

#[test]
fn blocked_and_invalid_names_are_not_exported() {
    assert!(is_shell_export_blocked("BASH_VERSINFO"));
    assert!(is_shell_export_blocked("shellHook"));
    assert!(!is_shell_export_blocked("PATH"));
    assert!(is_shell_identifier("_A1"));
    assert!(!is_shell_identifier("1A"));
    assert!(!is_shell_identifier("A-B"));
}

#[test]
fn exports_are_read_from_nul_separated_output() {
    let baseline = vec![pair("HOME", "/home/u")];
    let exports = shell_env_exports_from(
        "HOME=/home/u\0CUDA_HOME=/nix/cuda\0SHLVL=2\0bad-name=x\0noequals\0",
        &baseline,
    );
    assert_eq!(exports, vec![pair("CUDA_HOME", "/nix/cuda")]);
}

#[test]
fn cache_paths_live_under_robo_nix() {
    assert_eq!(shell_env_cache_path(), ".robo-nix/shell-env");
    assert_eq!(shell_env_cache_key_path(), ".robo-nix/shell-env.key");
}

#[test]
fn cache_reports_invalid_utf8() {
    assert_eq!(
        parse_cached_shell_env(b"A\0\xff\0").expect_err("invalid value"),
        "shell env cache contains an invalid variable value"
    );
    assert_eq!(
        parse_cached_shell_env(b"\xff\0x\0").expect_err("invalid name"),
        "shell env cache contains an invalid variable name"
    );
    assert_eq!(parse_cached_shell_env(b"").expect("empty cache"), Vec::new());
}

#[test]
fn hex_keys_have_sixteen_digits() {
    assert_eq!(hex16(0), "0000000000000000");
    assert_eq!(hex16(0xdead_beef), "00000000deadbeef");
    assert_eq!(hex16(u64::MAX), "ffffffffffffffff");
    assert_eq!(fingerprint_bytes(b"abc").len(), 16);
    assert_eq!(fingerprint_bytes(b"abc"), fingerprint_bytes(b"abc"));
    assert_ne!(fingerprint_bytes(b"abc"), fingerprint_bytes(b"abd"));
    let fps = vec![pair("uv.lock", "1")];
    assert_eq!(runtime_input_key_from_fingerprints(&fps).len(), 16);
}

#[test]
fn shell_state_marks_the_shell_and_prefixes_path() {
    let mut env = vec![pair("PATH", "/nix/bin")];
    let state = ShellState {
        env_name: "demo".to_string(),
        python_version: "3.11".to_string(),
        workspace: "/work".to_string(),
        input_key: "k".to_string(),
        input_files: "[]".to_string(),
        exe_dir: Some("/opt/robo".to_string()),
        inherited_path: Some("/usr/bin".to_string()),
    };
    append_shell_state(&mut env, &state);
    assert_eq!(shell_env_value(&env, "PATH").map(|v| v.as_str()), Some("/opt/robo:/nix/bin"));
    assert_eq!(shell_env_value(&env, "ROBO_NIX_ACTIVE").map(|v| v.as_str()), Some("1"));
    assert_eq!(shell_env_value(&env, "ROBO_NIX_PROMPT_PREFIX").map(|v| v.as_str()), Some("[robo]"));
    assert_eq!(shell_env_value(&env, "WORKSPACE_ROOT").map(|v| v.as_str()), Some("/work"));
}

#[test]
fn plain_labels_and_status_lines_are_the_text() {
    assert_eq!(label(plain(), "ok:", LabelKind::Pass), "ok:");
    assert_eq!(status_message(plain(), "shell: evaluating"), "shell: evaluating");
    assert_eq!(pad_display("ab".to_string(), 4), "ab  ");
    assert_eq!(pad_display("abcdef".to_string(), 4), "abcdef");
}

#[test]
fn runtime_input_fingerprints_round_trip() {
    let fingerprints = vec![
        ("pyproject.toml".to_string(), "abc".to_string()),
        ("robo.nix".to_string(), "def".to_string()),
    ];

    assert_eq!(
        parse_runtime_input_fingerprints(&serialize_runtime_input_fingerprints(&fingerprints)),
        fingerprints
    );
}

#[test]
fn runtime_input_fingerprints_parse_legacy_env_value() {
    assert_eq!(
        parse_runtime_input_fingerprints("pyproject.toml=abc;robo.nix=def"),
        vec![
            ("pyproject.toml".to_string(), "abc".to_string()),
            ("robo.nix".to_string(), "def".to_string()),
        ]
    );
}

#[test]
fn runtime_input_fingerprints_are_json_pairs() {
    assert_eq!(
        serialize_runtime_input_fingerprints(&[("a".to_string(), "b\"c".to_string())]),
        r#"[["a","b\"c"]]"#
    );
    assert_eq!(
        parse_runtime_input_fingerprints(r#"[["a", "1"], ["b=c", "2"]]"#),
        vec![("a".to_string(), "1".to_string()), ("b=c".to_string(), "2".to_string())]
    );
    assert_eq!(parse_runtime_input_fingerprints("[[\"a\"]]"), Vec::<(String, String)>::new());
    assert_eq!(
        parse_runtime_input_fingerprints("x=1=2;junk;y="),
        vec![("x".to_string(), "1=2".to_string()), ("y".to_string(), String::new())]
    );
}
