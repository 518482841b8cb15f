use robo::init::manifest::{
    component_lines, profile_lines, validate, Component, DependencyRule, Manifest, Profile,
    RuntimeInference, ScriptDiscovery, ScriptRule, WorkspaceDirectoryRule,
};
use robo::init::pipeline::build_draft;
use robo::init::probe::infer_python_version;
use robo::init::spec::{
    dedupe, dedupe_all, parse_list, ComponentProvenance, ComponentSuggestion, ProjectSpec,
    RuntimeRequirement,
};
use robo::init::InitArgs;

fn component(description: &str) -> Component {
    Component {
        category: "test".to_string(),
        description: description.to_string(),
        scaffold_directories: Vec::new(),
        supported_systems: vec!["x86_64-linux".to_string()],
        provides: Vec::new(),
    }
}

fn discovery() -> ScriptDiscovery {
    ScriptDiscovery {
        roots: Vec::new(),
        names: Vec::new(),
        prefixes: Vec::new(),
        daemon_text_contains: Vec::new(),
        checkout_function: "checkout".to_string(),
        path_root: "third_party".to_string(),
    }
}

fn manifest() -> Manifest {
    Manifest {
        components: vec![
            ("core".to_string(), component("core runtime")),
            ("cuda-toolkit".to_string(), component("CUDA toolkit")),
            ("graphics".to_string(), component("graphics runtime")),
        ],
        profiles: vec![(
            "minimal".to_string(),
            Profile {
                description: "minimal".to_string(),
                components: vec!["core".to_string()],
                python_version: "3.12".to_string(),
                supported_systems: vec!["x86_64-linux".to_string()],
                workspace_root: ".".to_string(),
            },
        )],
        runtime_inference: RuntimeInference {
            default_profile: "minimal".to_string(),
            dependency_rules: vec![DependencyRule {
                dependencies: vec!["opencv-python".to_string()],
                requires: Vec::new(),
                components: vec!["graphics".to_string()],
                note: "OpenCV wheels commonly need graphics runtime libraries".to_string(),
            }],
            compound_dependency_rules: Vec::new(),
            workspace_directory_rules: Vec::<WorkspaceDirectoryRule>::new(),
            script_discovery: discovery(),
            script_rules: Vec::<ScriptRule>::new(),
        },
    }
}

fn args() -> InitArgs {
    InitArgs {
        target: Some("/tmp/robo-pipeline-explicit".to_string()),
        interactive: false,
        list_profiles: false,
        list_components: false,
        stdout: false,
        force: false,
        build: false,
        name: Some("manual-name".to_string()),
        profile: None,
        with_components: Some("cuda-toolkit".to_string()),
        no_probe: false,
        description: None,
        workspace_root: ".".to_string(),
        components: None,
        python_version: Some("3.11".to_string()),
        systems: None,
        required_dir: Vec::new(),
        required_file: Vec::new(),
        source_script: Vec::new(),
        env: Vec::new(),
        robo_nix_url: None,
    }
}

const PYPROJECT: &str = r#"[project]
name = "from-pyproject"
requires-python = "==3.10.*"
dependencies = ["opencv-python"]
"#;

#[test]
fn explicit_cli_values_win_after_project_probing() {
    let draft = build_draft(&args(), &manifest(), Some(PYPROJECT), None).unwrap();

    assert_eq!(draft.spec.env_name, "manual-name");
    assert_eq!(draft.spec.python_version, "3.11");
    assert!(draft.spec.components.iter().any(|item| item == "graphics"));
    assert!(draft.spec.components.iter().any(|item| item == "cuda-toolkit"));
}

#[test]
fn probing_names_the_project_and_its_python_without_cli_values() {
    let mut a = args();
    a.name = None;
    a.python_version = None;
    a.with_components = None;
    let draft = build_draft(&a, &manifest(), Some(PYPROJECT), None).unwrap();

    assert_eq!(draft.spec.env_name, "robo-pipeline-explicit");
    assert_eq!(draft.spec.python_version, "3.10");
    assert_eq!(draft.spec.components, vec!["core".to_string(), "graphics".to_string()]);
    assert_eq!(draft.target_dir, "/tmp/robo-pipeline-explicit");

    a.target = Some(".".to_string());
    let draft = build_draft(&a, &manifest(), Some(PYPROJECT), None).unwrap();
    assert_eq!(draft.spec.env_name, "from-pyproject");
}

#[test]
fn unknown_profile_is_refused() {
    let mut a = args();
    a.profile = Some("nope".to_string());
    match build_draft(&a, &manifest(), None, None) {
        Err(message) => assert_eq!(message, "unknown profile: nope"),
        Ok(_) => panic!("an unknown profile must be refused"),
    }
}

#[test]
fn switching_probing_off_ignores_the_project_files() {
    let mut a = args();
    a.no_probe = true;
    a.name = None;
    let draft = build_draft(&a, &manifest(), Some(PYPROJECT), None).unwrap();
    assert_eq!(draft.spec.env_name, "robo-pipeline-explicit");
    assert!(!draft.spec.components.iter().any(|item| item == "graphics"));
}

#[test]
fn requires_python_points_at_an_exact_pin_or_the_first_version() {
    assert_eq!(infer_python_version(">=3.10,<3.13").as_deref(), Some("3.10"));
    assert_eq!(infer_python_version(">=3.9, ==3.11.*").as_deref(), Some("3.11"));
    assert_eq!(infer_python_version("!=3.8, >=3.9").as_deref(), Some("3.8"));
    assert_eq!(infer_python_version("any"), None);
}

#[test]
fn lists_are_trimmed_and_deduplicated_in_order() {
    assert_eq!(parse_list(" a, b ,,c "), vec!["a", "b", "c"]);
    assert_eq!(
        dedupe(vec!["b".to_string(), "a".to_string(), "b".to_string()]),
        vec!["b".to_string(), "a".to_string()]
    );
}

#[test]
fn validation_names_the_first_problem() {
    let m = manifest();
    let mut spec = ProjectSpec::from_profile("minimal", &m).unwrap();
    assert_eq!(validate(&m, &spec), Ok(()));
    spec.components.push("warp".to_string());
    assert_eq!(validate(&m, &spec), Err("unknown component: warp".to_string()));
    spec.supported_systems.clear();
    assert_eq!(
        validate(&m, &spec),
        Err("expected at least one value for systems".to_string())
    );
}

#[test]
fn profile_and_component_lists_are_columns() {
    let m = manifest();
    assert_eq!(
        profile_lines(&m),
        vec![format!("{:<18} {:<30} {}", "minimal", "x86_64-linux", "minimal")]
    );
    assert_eq!(
        component_lines(&m)[0],
        format!("{:<18} {:<12} {:<30} {}", "core", "test", "x86_64-linux", "core runtime")
    );
}

fn spec_lists(spec: &ProjectSpec) -> Vec<Vec<String>> {
    vec![
        spec.requirements.iter().map(|r| r.id.clone()).collect(),
        spec.components.clone(),
        spec.env.clone(),
        spec.component_provenance.iter().map(|p| format!("{}|{}|{}", p.name, p.source, p.reason)).collect(),
        spec.component_suggestions.iter().map(|c| format!("{}|{}|{}", c.name, c.evidence, c.reason)).collect(),
    ]
}

#[test]
fn normalizing_twice_changes_nothing_more() {
    let m = manifest();
    let mut spec = ProjectSpec::from_profile("minimal", &m).unwrap();
    for id in ["zlib", "cuda", "zlib", "alsa"] {
        spec.requirements.push(RuntimeRequirement { id: id.to_string() });
    }
    spec.components.push("graphics".to_string());
    spec.components.push("core".to_string());
    spec.env.push("B=2".to_string());
    spec.env.push("A=1".to_string());
    spec.env.push("B=2".to_string());
    for (name, source) in [("graphics", "probe"), ("core", "profile"), ("graphics", "cli")] {
        spec.component_provenance.push(ComponentProvenance {
            name: name.to_string(),
            source: source.to_string(),
            reason: "r".to_string(),
        });
    }
    for name in ["graphics", "cuda-toolkit", "cuda-toolkit"] {
        spec.component_suggestions.push(ComponentSuggestion {
            name: name.to_string(),
            evidence: "e".to_string(),
            reason: "why".to_string(),
        });
    }
    dedupe_all(&mut spec);
    let once = spec_lists(&spec);
    assert_eq!(once[0], vec!["alsa", "cuda", "zlib"]);
    assert_eq!(once[1], vec!["core", "graphics"]);
    assert_eq!(once[2], vec!["B=2", "A=1"]);
    assert_eq!(
        once[3],
        vec![
            "core|profile|r",
            "core|profile|selected by the `minimal` profile",
            "graphics|cli|r",
            "graphics|probe|r",
        ]
    );
    assert_eq!(once[4], vec!["cuda-toolkit|e|why"]);
    dedupe_all(&mut spec);
    assert_eq!(spec_lists(&spec), once);
}
