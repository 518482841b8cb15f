use robo::init::probe::scan_would_cut;
use robo::scaffold::python_lines_fit;
use robo::scaffold::confirmed;
use robo::init::manifest::{
    Component, DependencyRule, Manifest, Profile, RuntimeInference, ScriptDiscovery, ScriptRule,
    WorkspaceDirectoryRule,
};
use robo::init::spec::ProjectSpec;
use robo::scaffold::{
    contains_any, escape_nix, escape_toml, file_contents, flake_source_url, flake_writable,
    init_summary_lines, is_discovered_script, join_path, looks_like_daemon, probe_python_version,
    probe_script_paths, pyproject_name, quoted_value, render_flake, render_list, render_project,
    render_pyproject, scaffold_spec, InitArgs, ScriptFile, WorkspaceFacts,
};
use robo::ui::Config;

fn component(description: &str) -> Component {
    Component {
        category: "test".to_string(),
        description: description.to_string(),
        scaffold_directories: Vec::new(),
        supported_systems: vec!["x86_64-linux".to_string()],
        provides: Vec::new(),
    }
}

fn discovery() -> ScriptDiscovery {
    ScriptDiscovery {
        roots: vec!["scripts".to_string()],
        names: vec!["setup.sh".to_string()],
        prefixes: vec!["bootstrap".to_string()],
        daemon_text_contains: vec!["roscore".to_string()],
        checkout_function: "checkout".to_string(),
        path_root: "third_party".to_string(),
    }
}

fn manifest() -> Manifest {
    Manifest {
        components: vec![
            ("core".to_string(), component("core runtime")),
            ("graphics".to_string(), component("graphics runtime")),
            ("ros".to_string(), component("ROS")),
        ],
        profiles: vec![(
            "minimal".to_string(),
            Profile {
                description: "minimal".to_string(),
                components: vec!["core".to_string()],
                python_version: "3.12".to_string(),
                supported_systems: vec!["x86_64-linux".to_string()],
                workspace_root: ".".to_string(),
            },
        )],
        runtime_inference: RuntimeInference {
            default_profile: "minimal".to_string(),
            dependency_rules: vec![DependencyRule {
                dependencies: vec!["opencv-python".to_string()],
                requires: Vec::new(),
                components: vec!["graphics".to_string()],
                note: "OpenCV wheels commonly need graphics runtime libraries".to_string(),
            }],
            compound_dependency_rules: Vec::new(),
            workspace_directory_rules: vec![WorkspaceDirectoryRule {
                root: "src".to_string(),
                name_contains: vec!["ROS".to_string()],
                components: vec!["ros".to_string()],
                note: "workspace has ROS packages".to_string(),
            }],
            script_discovery: discovery(),
            script_rules: vec![ScriptRule {
                text_contains: vec!["ros2".to_string()],
                components: vec!["ros".to_string()],
                note: "bootstrap script uses ROS 2".to_string(),
            }],
        },
    }
}

fn args(target: &str) -> InitArgs {
    InitArgs {
        target: Some(target.to_string()),
        interactive: false,
        list_profiles: false,
        list_components: false,
        stdout: false,
        force: false,
        name: None,
        profile: None,
        with_components: None,
        no_probe: false,
        description: None,
        workspace_root: ".".to_string(),
        components: None,
        python_version: None,
        systems: None,
        required_dir: Vec::new(),
        required_file: Vec::new(),
        source_script: Vec::new(),
        env: Vec::new(),
        robo_nix_url: None,
    }
}

fn no_facts() -> WorkspaceFacts {
    WorkspaceFacts { pyproject: None, directories: vec![Vec::new()], scripts: vec![Vec::new()] }
}

#[test]
fn nix_and_toml_strings_escape_backslashes_then_quotes() {
    assert_eq!(escape_nix(r#"a\b"c"#), r#"a\\b\"c"#);
    assert_eq!(escape_toml(r#"say "hi""#), r#"say \"hi\""#);
    assert_eq!(escape_nix("plain"), "plain");
}

#[test]
fn flake_points_at_the_source() {
    let flake = render_flake("path:/src/robo-nix");
    assert!(flake.starts_with("{\n  inputs.robo-nix.url = \"path:/src/robo-nix\";\n"));
    assert!(flake.ends_with("robo-nix.lib.mkProjectFlakeFromManifest ./robo.nix;\n}"));
    assert_eq!(flake_source_url(None, None), "path:.");
    assert_eq!(flake_source_url(None, Some("github:x/y".to_string())), "github:x/y");
    assert_eq!(
        flake_source_url(Some("path:/a".to_string()), Some("github:x/y".to_string())),
        "path:/a"
    );
}

#[test]
fn lists_render_one_quoted_entry_per_line() {
    assert_eq!(render_list(&vec!["a".to_string(), "b\"c".to_string()]), "    \"a\"\n    \"b\\\"c\"");
    assert_eq!(render_list(&Vec::new()), "");
}

#[test]
fn pyproject_starts_from_the_environment_python() {
    let spec = ProjectSpec::from_profile("minimal", &manifest()).unwrap();
    assert_eq!(
        render_pyproject(&spec),
        "[project]\nname = \"project\"\nversion = \"0.1.0\"\nrequires-python = \">=3.12\"\ndependencies = []\n"
    );
}

#[test]
fn robo_nix_holds_the_description_and_its_provenance() {
    let mut spec = ProjectSpec::from_profile("minimal", &manifest()).unwrap();
    spec.env.push("FOO=bar".to_string());
    spec.env.push("not-an-assignment".to_string());
    spec.source_scripts.push("scripts/setup.sh".to_string());
    let text = render_project(&spec);
    assert!(text.starts_with("{\n  schemaVersion = 1;\n  envName = \"project\";\n  description = \"minimal\";\n  components = [\n    \"core\"\n  ];\n  pythonVersion = \"3.12\";\n  supportedSystems = [\n    \"x86_64-linux\"\n  ];\n  workspaceRoot = \".\";"));
    assert!(text.contains("\n\n  shellInit = ''\n    export FOO=\"bar\"\n  '';"));
    assert!(text.contains("\n\n  bootstrap = ''\n    . \"$WORKSPACE_ROOT/scripts/setup.sh\"\n  '';"));
    assert!(text.contains("    componentReasons = [\n      {\n        name = \"core\";\n        source = \"profile\";\n        reason = \"selected by the `minimal` profile\";\n      }\n    ];\n"));
    assert!(!text.contains("requiredDirectories"));
    assert!(text.ends_with("  };\n}"));
}

#[test]
fn first_double_quoted_text_is_the_value() {
    assert_eq!(quoted_value(" = \"demo\" # x").as_deref(), Some("demo"));
    assert_eq!(quoted_value(" = 'single'"), None);
    assert_eq!(quoted_value("\"open"), None);
}

#[test]
fn pyproject_name_comes_from_the_first_quoted_name_line() {
    assert_eq!(pyproject_name("[project]\nname = \"demo\"\n").as_deref(), Some("demo"));
    assert_eq!(pyproject_name("[project]\nversion = \"1\"\n"), None);
}

#[test]
fn requires_python_without_star_tokens() {
    let m = manifest();
    let mut spec = ProjectSpec::from_profile("minimal", &m).unwrap();
    probe_python_version("requires-python = \">=3.10\"\n", &mut spec);
    assert_eq!(spec.python_version, "3.10");
    assert_eq!(spec.probe_notes, vec!["python 3.10: pyproject.toml requires-python".to_string()]);
}

#[test]
fn scripts_are_found_by_name_or_prefix() {
    let d = discovery();
    assert!(is_discovered_script("setup.sh", &d));
    assert!(is_discovered_script("bootstrap_ros.sh", &d));
    assert!(!is_discovered_script("run.sh", &d));
    assert!(looks_like_daemon("exec roscore &", &d));
    assert!(!looks_like_daemon("ROSCORE", &d));
    assert!(contains_any("my ros workspace", &vec!["ROS".to_string()]));
    assert!(!contains_any("nothing", &vec!["ROS".to_string()]));
}

#[test]
fn checkout_calls_suggest_vendor_paths() {
    let m = manifest();
    let mut spec = ProjectSpec::from_profile("minimal", &m).unwrap();
    let script = "VENDOR=\"${ROOT}/third_party/isaac\"\ncheckout \"$VENDOR\" assets/robot.usd config;\n";
    probe_script_paths(script, &m.runtime_inference.script_discovery, &mut spec);
    let suggestions: Vec<(String, String)> = spec
        .suggestions
        .iter()
        .map(|s| (s.kind.clone(), s.path.clone()))
        .collect();
    assert_eq!(
        suggestions,
        vec![
            ("file".to_string(), "third_party/isaac/assets/robot.usd".to_string()),
            ("directory".to_string(), "third_party/isaac/config".to_string()),
        ]
    );
}

#[test]
fn scaffold_reads_pyproject_directories_and_scripts() {
    let facts = WorkspaceFacts {
        pyproject: Some("[project]\nname = \"demo\"\nrequires-python = \"==3.11\"\ndependencies = [\"opencv-python\"]\n".to_string()),
        directories: vec![vec!["my_ros_pkg".to_string()]],
        scripts: vec![vec![
            ScriptFile { name: "setup.sh".to_string(), text: Some("source /opt/ros2/setup.bash\n".to_string()) },
            ScriptFile { name: "notes.txt".to_string(), text: Some("ignored".to_string()) },
            ScriptFile { name: "bootstrap_daemon.sh".to_string(), text: Some("roscore\n".to_string()) },
        ]],
    };
    let named = scaffold_spec(&args("/tmp/robo-scaffold"), &manifest(), &facts).unwrap();
    assert_eq!(named.target_dir, "/tmp/robo-scaffold");
    assert_eq!(named.spec.env_name, "robo-scaffold");
    let draft = scaffold_spec(&args("."), &manifest(), &facts).unwrap();
    assert_eq!(draft.spec.env_name, "demo");
    assert_eq!(draft.spec.python_version, "3.11");
    assert_eq!(
        draft.spec.components,
        vec!["core".to_string(), "graphics".to_string(), "ros".to_string()]
    );
    assert_eq!(draft.spec.required_dirs, vec!["src/my_ros_pkg".to_string()]);
    assert_eq!(draft.spec.source_scripts, vec!["scripts/setup.sh".to_string()]);
    assert!(draft
        .spec
        .probe_notes
        .contains(&"skipped bootstrap scripts/bootstrap_daemon.sh: appears to start a long-running process".to_string()));
}

#[test]
fn scaffold_names_the_environment_after_the_target() {
    let draft = scaffold_spec(&args("/work/rover"), &manifest(), &no_facts()).unwrap();
    assert_eq!(draft.spec.env_name, "rover");
    let draft = scaffold_spec(&args("."), &manifest(), &no_facts()).unwrap();
    assert_eq!(draft.spec.env_name, "project");
}

#[test]
fn scaffold_refuses_unknown_profiles_and_components() {
    let mut a = args(".");
    a.profile = Some("nope".to_string());
    assert_eq!(
        scaffold_spec(&a, &manifest(), &no_facts()).err(),
        Some("unknown profile: nope".to_string())
    );
    let mut a = args(".");
    a.with_components = Some("warp".to_string());
    assert_eq!(
        scaffold_spec(&a, &manifest(), &no_facts()).err(),
        Some("unknown component: warp".to_string())
    );
}

#[test]
fn only_generated_flakes_are_replaced_without_force() {
    assert!(flake_writable(false, None, false));
    assert!(flake_writable(true, Some("outputs = x: robo-nix.lib.mkProjectFlakeFromManifest ./robo.nix;"), false));
    assert!(!flake_writable(true, Some("{ outputs = _: {}; }"), false));
    assert!(!flake_writable(true, None, false));
    assert!(flake_writable(true, None, true));
}

#[test]
fn written_files_end_with_one_newline() {
    assert_eq!(file_contents("text \n\n"), "text\n");
    assert_eq!(join_path(".", "flake.nix"), "./flake.nix");
    assert_eq!(join_path("/a/", "b"), "/a/b");
    assert_eq!(join_path("", "b"), "b");
}

#[test]
fn init_summary_lists_detections_and_next_steps() {
    let mut spec = ProjectSpec::from_profile("minimal", &manifest()).unwrap();
    spec.probe_notes.push("python 3.11: pyproject.toml requires-python".to_string());
    let plain = Config { color: false, debug: false };
    let lines = init_summary_lines(plain, "demo", &spec, "kept", "path:/src/robo-nix");
    assert_eq!(lines[0], "robo init");
    assert_eq!(lines[1], "  target: demo");
    assert_eq!(lines[5], "Detected:");
    assert_eq!(lines[6], "  + python 3.11: pyproject.toml requires-python");
    assert!(lines.contains(&"  kept demo/pyproject.toml".to_string()));
    assert!(lines.contains(&"  nix flake lock --update-input robo-nix  # after local robo-nix source edits".to_string()));
    assert_eq!(lines.last().unwrap(), "  robo run pytest tests");
}

#[test]
fn only_yes_or_y_confirms() {
    assert!(confirmed("yes"));
    assert!(confirmed("y"));
    assert!(!confirmed("Y"));
    assert!(!confirmed("no"));
    assert!(!confirmed(""));
}

#[test]
fn requirements_that_would_cut_a_character_are_recognised() {
    assert!(scan_would_cut(">=3.1\u{20ac}", false));
    assert!(!scan_would_cut("==3.1\u{20ac}", false));
    assert!(!scan_would_cut(">=3.11", true));
    assert!(!python_lines_fit("[project]\nrequires-python = \">=3.1\u{20ac}\"\n"));
    assert!(python_lines_fit("[project]\nrequires-python = \">=3.11\"\n"));
    assert!(python_lines_fit("name = \"demo\"\n"));
}
