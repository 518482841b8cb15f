use robo::ui::Config;
use robo::vendor::{
    add_vendor_report, best_vendor_match, bootstrap_source, bootstrap_status, candidate_paths,
    detected_root, doctor_vendors, export_vendor, list_vendor_lines, vendor_command,
    vendor_line_text, BootstrapSource, VendorArgs, VendorCommand, VendorFacts, VendorLevel,
    VendorManifest, VendorModule,
};

fn module(install: &str, detect: &[&str], source: Option<&str>) -> VendorModule {
    VendorModule {
        description: "Isaac Lab \"ext\"".to_string(),
        install_path: install.to_string(),
        detect_paths: detect.iter().map(|s| s.to_string()).collect(),
        source_url: source.map(ToOwned::to_owned),
        components: vec!["isaac-sim".to_string(), "cuda-toolkit".to_string()],
        required_paths: vec!["source".to_string()],
        bootstrap_scripts: vec!["scripts/bootstrap_isaaclab.sh".to_string()],
        patches: Vec::new(),
    }
}

fn manifest() -> VendorManifest {
    VendorManifest {
        vendors: vec![
            (
                "isaaclab".to_string(),
                module("third_party/IsaacLab", &["vendor/isaaclab"], Some("https://example.invalid/IsaacLab.git")),
            ),
            ("mujoco-menagerie".to_string(), module("third_party/mujoco_menagerie", &[], None)),
        ],
    }
}

fn plain() -> Config {
    Config { color: false, debug: false }
}

fn texts(lines: &[robo::vendor::VendorLine]) -> Vec<String> {
    lines.iter().map(|l| vendor_line_text(plain(), l)).collect()
}

#[test]
fn bootstrap_is_the_default_command() {
    assert!(matches!(vendor_command(VendorArgs { command: None }), VendorCommand::Bootstrap));
    assert!(matches!(
        vendor_command(VendorArgs { command: Some(VendorCommand::List) }),
        VendorCommand::List
    ));
}

#[test]
fn checkouts_match_modules_by_last_component_without_case() {
    let m = manifest();
    assert_eq!(best_vendor_match(&m, "/home/me/src/ISAACLAB/"), Some(0));
    assert_eq!(best_vendor_match(&m, "../IsaacLab"), Some(0));
    assert_eq!(best_vendor_match(&m, "mujoco_menagerie"), Some(1));
    assert_eq!(best_vendor_match(&m, "/home/me/other"), None);
    assert_eq!(best_vendor_match(&m, "/"), None);
}

#[test]
fn the_first_existing_candidate_is_the_checkout() {
    let v = &manifest().vendors[0].1;
    assert_eq!(candidate_paths(v), vec!["vendor/isaaclab".to_string(), "third_party/IsaacLab".to_string()]);
    assert_eq!(detected_root(v, &vec![false, true]).as_deref(), Some("third_party/IsaacLab"));
    assert_eq!(detected_root(v, &vec![true, true]).as_deref(), Some("vendor/isaaclab"));
    assert_eq!(detected_root(v, &vec![false, false]), None);
}

#[test]
fn add_reports_the_matching_module() {
    let (lines, ok) = add_vendor_report(&manifest(), "/src/IsaacLab", true);
    assert!(ok);
    assert_eq!(
        texts(&lines),
        vec![
            "vendor: ok: /src/IsaacLab matches curated module isaaclab",
            "vendor: info: default install path: third_party/IsaacLab",
            "vendor: info: install source: https://example.invalid/IsaacLab.git",
            "vendor: hint: add components to robo.nix: isaac-sim,cuda-toolkit",
            "vendor: info: module expects source inside the vendor checkout",
        ]
    );
}

#[test]
fn add_reports_missing_paths_and_unknown_checkouts() {
    let (lines, ok) = add_vendor_report(&manifest(), "/nope", false);
    assert!(!ok);
    assert_eq!(texts(&lines), vec!["vendor: error: /nope does not exist"]);
    let (lines, ok) = add_vendor_report(&manifest(), "/src/other", true);
    assert!(ok);
    assert_eq!(lines.len(), 2);
    assert!(matches!(lines[0].level, VendorLevel::Warn));
}

#[test]
fn doctor_counts_missing_paths_as_issues() {
    let m = manifest();
    let facts = vec![
        VendorFacts {
            root: Some("third_party/IsaacLab".to_string()),
            required: vec![false],
            scripts: vec![true],
            patches: Vec::new(),
        },
        VendorFacts { root: None, required: vec![false], scripts: vec![false], patches: Vec::new() },
    ];
    let (lines, ok) = doctor_vendors(&m, &facts);
    assert!(!ok);
    assert_eq!(
        texts(&lines),
        vec![
            "vendor: ok: isaaclab source present at third_party/IsaacLab",
            "vendor: error: isaaclab missing third_party/IsaacLab/source",
            "vendor: ok: isaaclab bootstrap script present: scripts/bootstrap_isaaclab.sh",
            "vendor: info: isaaclab suggests components: isaac-sim,cuda-toolkit",
            "vendor: hint: run from the project root that contains third_party/",
            "vendor: status=error detected=1 issues=1",
        ]
    );
}

#[test]
fn doctor_without_checkouts_is_fine() {
    let m = manifest();
    let facts = vec![
        VendorFacts { root: None, required: vec![false], scripts: vec![false], patches: Vec::new() },
        VendorFacts { root: None, required: vec![false], scripts: vec![false], patches: Vec::new() },
    ];
    let (lines, ok) = doctor_vendors(&m, &facts);
    assert!(ok);
    assert_eq!(
        texts(&lines),
        vec![
            "vendor: status=ok detected=0",
            "vendor: hint: no curated local vendors were detected under this project root",
        ]
    );
}

#[test]
fn export_prints_a_nix_attribute() {
    let out = export_vendor(&manifest(), "mujoco-menagerie").ok().unwrap();
    assert_eq!(out[0], "mujoco-menagerie = {");
    assert_eq!(out[1], "  description = \"Isaac Lab \\\"ext\\\"\";");
    assert_eq!(out[2], "  installPath = \"third_party/mujoco_menagerie\";");
    assert_eq!(out[3], "  detectPaths = [");
    assert_eq!(out[4], "  ];");
    assert_eq!(out[5], "  sourceUrl = null;");
    assert_eq!(out.last().unwrap(), "};");
    match export_vendor(&manifest(), "nope") {
        Err(line) => assert_eq!(vendor_line_text(plain(), &line), "vendor: error: unknown vendor module nope"),
        Ok(_) => panic!("unknown modules have no export"),
    }
}

#[test]
fn list_shows_presence_in_columns() {
    let m = manifest();
    let lines = list_vendor_lines(&m, &vec![vec![false, true], vec![false]]);
    assert_eq!(
        lines[0],
        format!("{:<34} {:<8} {:<44} {}", "isaaclab", "present", "third_party/IsaacLab", "Isaac Lab \"ext\"")
    );
    assert!(lines[1].contains(" missing  "));
}

#[test]
fn bootstrap_clones_or_hints_when_nothing_is_found() {
    let m = manifest();
    let (source, line) = bootstrap_source("isaaclab", &m.vendors[0].1, None);
    assert!(matches!(source, BootstrapSource::Clone(ref u) if u == "https://example.invalid/IsaacLab.git"));
    assert_eq!(
        vendor_line_text(plain(), &line.unwrap()),
        "vendor: info: cloning isaaclab into third_party/IsaacLab"
    );
    let (source, line) = bootstrap_source("mujoco-menagerie", &m.vendors[1].1, None);
    assert!(matches!(source, BootstrapSource::Missing));
    assert_eq!(
        vendor_line_text(plain(), &line.unwrap()),
        "vendor: hint: mujoco-menagerie has no sourceUrl; place it at third_party/mujoco_menagerie or one of: "
    );
    let (source, line) = bootstrap_source("isaaclab", &m.vendors[0].1, Some("vendor/isaaclab".to_string()));
    assert!(matches!(source, BootstrapSource::Found(ref p) if p == "vendor/isaaclab"));
    assert!(line.is_none());
    let (status, ok) = bootstrap_status(2, 0);
    assert!(ok);
    assert_eq!(vendor_line_text(plain(), &status), "vendor: status=ok scripts=2");
    let (status, ok) = bootstrap_status(1, 3);
    assert!(!ok);
    assert_eq!(vendor_line_text(plain(), &status), "vendor: status=error scripts=1 issues=3");
}
