use robo::check::deep::ProbeOutcome;
use robo::doctor::{
    build_text_runtime_why, clean_nix_summary, doctor_close, doctor_cuda_host, doctor_cuda_root,
    doctor_deep_skipped, doctor_head, doctor_inferred_components, doctor_lock_freshness,
    doctor_python_files, doctor_runtime_preview, doctor_runtime_probes, doctor_runtime_tools,
    doctor_schema_version, doctor_suggestions, doctor_uv_files, gui_probes, has_dependency,
    new_doctor_output, print_runtime_why, profile_components, robo_nix_path_source,
    summarize_nix_dry_run, DriverProbe,
};
use robo::nix::combined_output;
use robo::nix_text::{nix_attr_value, nix_list_values, nix_source_scripts, read_project_runtime};
use robo::python::exact_python_requirement;
use robo::ui::Config;

fn plain() -> Config {
    Config { color: false, debug: false }
}

const ROBO_NIX: &str = r#"{
  schemaVersion = 1;
  envName = "demo";
  components = [
    "core"
    "graphics"
    "ros"
  ];
  pythonVersion = "3.11";
  requiredDirectories = [
    "src/pkg"
  ];
  bootstrap = ''
    . "$WORKSPACE_ROOT/scripts/setup.sh"
  '';
  provenance = {
    generatedBy = "robo init";
    profile = "minimal";
    componentReasons = [
      {
        name = "graphics";
        source = "pyproject inference";
        reason = "OpenCV wheels commonly need graphics runtime libraries";
      }
    ];
    inferred = [
      "OpenCV wheels commonly need graphics runtime libraries"
    ];
    suggestions = [
      {
        kind = "file";
        path = "third_party/x/a.usd";
        reason = "bootstrap script referenced a vendor checkout file";
      }
    ];
  };
}"#;

#[test]
fn robo_nix_text_is_read_back() {
    let runtime = read_project_runtime(ROBO_NIX);
    assert_eq!(runtime.schema_version.as_deref(), Some("1"));
    assert_eq!(runtime.env_name, "demo");
    assert_eq!(runtime.python_version, "3.11");
    assert_eq!(runtime.components, vec!["core", "graphics", "ros"]);
    assert_eq!(runtime.suggestions, vec!["third_party/x/a.usd"]);
    assert_eq!(nix_attr_value(ROBO_NIX, "profile").as_deref(), Some("minimal"));
    assert_eq!(nix_list_values(ROBO_NIX, "requiredDirectories"), vec!["src/pkg"]);
    assert_eq!(nix_source_scripts(ROBO_NIX), vec!["scripts/setup.sh"]);
    let empty = read_project_runtime("");
    assert_eq!(empty.env_name, "project");
    assert_eq!(empty.python_version, "unknown");
}

#[test]
fn doctor_why_explains_each_entry_by_its_provenance() {
    let runtime = read_project_runtime(ROBO_NIX);
    let why = build_text_runtime_why(&runtime, ROBO_NIX, &vec!["core".to_string()]);
    assert_eq!(why.profile.as_deref(), Some("minimal"));
    assert_eq!(why.components[0].source, "profile");
    assert_eq!(why.components[0].reason, "selected by the `minimal` profile");
    assert_eq!(why.components[1].source, "pyproject inference");
    assert_eq!(why.components[2].source, "inference");
    assert_eq!(why.components[2].reason, "OpenCV wheels commonly need graphics runtime libraries");
    assert_eq!(why.required_directories[0].source, "workspace inference");
    assert_eq!(why.required_directories[0].remove_hint, "remove `src/pkg` from requiredDirectories in robo.nix");
    assert_eq!(why.bootstrap_scripts[0].name, "scripts/setup.sh");
    assert_eq!(why.suggestions[0].source, "workspace inference");

    let mut out = new_doctor_output(plain());
    print_runtime_why(&mut out, plain(), &why);
    assert_eq!(out.lines[0], "doctor: why: profile=minimal");
    assert_eq!(out.lines[1], "doctor: why: component=core source=profile reason=selected by the `minimal` profile");
}

#[test]
fn manual_components_are_explained_without_provenance() {
    let text = "{\n  components = [\n    \"ros\"\n  ];\n}";
    let runtime = read_project_runtime(text);
    let why = build_text_runtime_why(&runtime, text, &Vec::new());
    assert_eq!(why.profile, None);
    assert_eq!(why.components[0].source, "manual config");
    assert_eq!(why.components[0].reason, "listed directly in robo.nix");
    let mut out = new_doctor_output(plain());
    print_runtime_why(&mut out, plain(), &why);
    assert_eq!(out.lines[0], "doctor: why: profile=manual/unknown");
}

#[test]
fn profile_components_come_from_the_first_profile_of_the_name() {
    let profiles = vec![
        ("minimal".to_string(), vec!["core".to_string()]),
        ("minimal".to_string(), vec!["other".to_string()]),
    ];
    assert_eq!(profile_components(&profiles, "minimal"), vec!["core".to_string()]);
    assert!(profile_components(&profiles, "gpu").is_empty());
}

#[test]
fn doctor_checks_python_files_against_the_runtime() {
    let mut out = new_doctor_output(plain());
    doctor_head(&mut out, plain(), "demo", "3.11", "/work/demo");
    doctor_schema_version(&mut out, plain(), Some("2"));
    doctor_python_files(
        &mut out,
        plain(),
        "3.11",
        Some("3.10\n"),
        Some("[project]\nrequires-python = \"==3.12\"\n"),
    );
    assert_eq!(out.issues, 1);
    assert_eq!(out.warnings, 2);
    assert_eq!(
        out.lines,
        vec![
            "doctor: env=demo",
            "doctor: python=3.11",
            "doctor: workspace=/work/demo",
            "doctor: ok: workspace root exists",
            "doctor: warn: robo.nix schema version 2 is newer than this robo supports",
            "doctor: hint: upgrade robo-nix or regenerate with `robo init . --force` after reviewing local edits",
            "doctor: warn: .python-version is 3.10 but robo.nix declares 3.11",
            "doctor: hint: update .python-version or pythonVersion in robo.nix",
            "doctor: error: pyproject.toml requires Python 3.12 but robo.nix declares 3.11",
            "doctor: hint: set `pythonVersion = \"3.12\";` in robo.nix and write `3.12` to .python-version",
        ]
    );
    let closing_ok = doctor_close(&mut out, plain(), false);
    assert!(!closing_ok);
    assert_eq!(out.lines.last().unwrap(), "doctor: status=error issues=1 warnings=2");
}

#[test]
fn a_clean_doctor_run_ends_ok() {
    let mut out = new_doctor_output(plain());
    doctor_schema_version(&mut out, plain(), Some("1"));
    doctor_uv_files(&mut out, plain(), true, true);
    doctor_deep_skipped(&mut out, plain());
    assert!(doctor_close(&mut out, plain(), false));
    assert_eq!(
        out.lines,
        vec![
            "doctor: ok: robo.nix schema version is 1",
            "doctor: ok: uv.lock is present",
            "doctor: ok: uv virtual environment exists",
            "doctor: warn: deep runtime checks skipped",
            "doctor: hint: run 'robo doctor --deep' to probe uv, PyQt, matplotlib, and native runtime libraries",
            "doctor: next: run 'robo doctor --deep' before debugging native runtime failures",
            "doctor: next: run 'robo develop' to enter the environment",
            "doctor: status=ok warnings=1",
        ]
    );
}

#[test]
fn qt_bindings_need_qt_components() {
    let mut out = new_doctor_output(plain());
    doctor_inferred_components(
        &mut out,
        plain(),
        &vec!["qt6".to_string()],
        Some("dependencies = [\"pyqt6>=6\"]"),
    );
    assert_eq!(out.warnings, 1);
    assert_eq!(out.lines[0], "doctor: ok: Qt binding dependency has qt6 runtime component");
    assert_eq!(out.lines[1], "doctor: warn: Qt binding dependency detected but x11-gl is not selected");
    assert_eq!(gui_probes(Some("[\"pyqt6\", 'matplotlib']")), (true, true));
    assert_eq!(gui_probes(None), (false, false));
}

#[test]
fn cuda_host_checks_only_cuda_runtimes() {
    let mut out = new_doctor_output(plain());
    doctor_cuda_host(&mut out, plain(), &vec!["core".to_string()], true, DriverProbe::Missing, "/usr/local/cuda", false);
    assert!(out.lines.is_empty());
    doctor_cuda_host(&mut out, plain(), &vec!["cuda-toolkit".to_string()], true, DriverProbe::Missing, "/opt/cuda", true);
    assert_eq!(out.issues, 1);
    assert_eq!(
        out.lines,
        vec![
            "doctor: ok: Linux host detected for CUDA environment",
            "doctor: error: nvidia-smi is not available on this host",
            "doctor: hint: run this environment on a machine with NVIDIA drivers installed",
            "doctor: ok: CUDA root exists at /opt/cuda",
        ]
    );
    assert_eq!(doctor_cuda_root(None, Some("/cuda".to_string()), None), "/cuda");
    assert_eq!(doctor_cuda_root(None, None, None), "/usr/local/cuda");
}

#[test]
fn suggestions_and_probes_are_reported() {
    let mut out = new_doctor_output(plain());
    doctor_suggestions(&mut out, plain(), &vec!["third_party/x".to_string()]);
    assert_eq!(out.lines[0], "doctor: suggestion: check whether third_party/x should be required for this project");
    let mut out = new_doctor_output(plain());
    doctor_runtime_tools(&mut out, plain(), ProbeOutcome::Failed("uv: not found".to_string()));
    assert_eq!(out.issues, 1);
    assert_eq!(out.lines, vec!["doctor: error: uv is not available in the runtime shell", "doctor: hint: uv: not found"]);
    let mut out = new_doctor_output(plain());
    doctor_runtime_probes(&mut out, plain(), Some("\"matplotlib\""), false, None, None);
    assert_eq!(out.lines[0], "doctor: warn: Python virtualenv is missing; skipped matplotlib backend probe");
    let mut out = new_doctor_output(plain());
    doctor_runtime_probes(&mut out, plain(), Some("\"matplotlib\""), true, None, Some(ProbeOutcome::Passed));
    assert_eq!(out.lines, vec!["doctor: ok: matplotlib QtAgg smoke test works"]);
}

#[test]
fn dry_run_preview_summarizes_downloads() {
    let text = "these 2 derivations will be built:\n  /nix/store/a.drv\nthese 3 paths will be fetched (1.0 MiB download):\n";
    assert_eq!(
        summarize_nix_dry_run(text),
        vec![
            "local builds: these 2 items will be built".to_string(),
            "downloads: these 3 items will be fetched (1.0 MiB download)".to_string(),
        ]
    );
    assert_eq!(clean_nix_summary("this path will be fetched:"), "this item will be fetched");
    let mut out = new_doctor_output(plain());
    doctor_runtime_preview(&mut out, plain(), ProbeOutcome::Passed, "");
    assert_eq!(out.lines, vec!["doctor: preview: runtime is already available or Nix reported no downloads"]);
}

#[test]
fn local_robo_nix_sources_are_checked_for_changes() {
    let flake = "{\n  inputs.robo-nix.url = \"path:/src/robo-nix\";\n}";
    assert_eq!(robo_nix_path_source(flake).as_deref(), Some("/src/robo-nix"));
    assert_eq!(robo_nix_path_source("inputs.robo-nix.url = \"github:x/y\";"), None);
    let mut out = new_doctor_output(plain());
    doctor_lock_freshness(&mut out, plain(), true);
    assert_eq!(out.warnings, 1);
    doctor_lock_freshness(&mut out, plain(), false);
    assert_eq!(out.lines.len(), 2);
}

#[test]
fn dependency_names_are_matched_as_quoted_starts() {
    assert!(has_dependency("deps = [\"pyqt6>=6\"]", &vec!["pyqt6".to_string()]));
    assert!(has_dependency("deps = ['pyside6']", &vec!["pyqt5".to_string(), "pyside6".to_string()]));
    assert!(!has_dependency("# pyqt6", &vec!["pyqt6".to_string()]));
}

#[test]
fn exact_python_pins_are_read_line_by_line() {
    assert_eq!(exact_python_requirement("requires-python = \"==3.11\"").as_deref(), Some("3.11"));
    assert_eq!(exact_python_requirement("requires-python = \"=== 3.12.1\"").as_deref(), Some("3.12.1"));
    assert_eq!(exact_python_requirement("requires-python = \">=3.11\""), None);
    assert_eq!(exact_python_requirement("requires-python = \"==3.11.*\""), None);
}

#[test]
fn command_output_is_joined_or_replaced_by_the_status() {
    assert_eq!(combined_output(b" out \n", b"err\n", "exit status: 1"), "out\nerr");
    assert_eq!(combined_output(b"", b"err", "exit status: 1"), "err");
    assert_eq!(combined_output(b"", b"", "exit status: 1"), "command exited with exit status: 1");
    assert_eq!(combined_output(b"only", b"", "exit status: 0"), "only");
}
