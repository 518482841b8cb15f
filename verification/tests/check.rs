use robo::cuda_compat::{ensure_runtime_cuda_compat, CudaCompat, CudaProbe, CudaStep};
use robo::check::detail::{check_mujoco_context, MujocoVerdict, ProbeRun};
use robo::egl::{Finding, FindingKind};
use robo::check::detail::{graphics_finding_lines, graphics_gate_lines, GraphicsGate};
use robo::check::detail::{default_check_lines, DefaultCheck};
use robo::check::deep::{deep_step_count, next_deep_check, DeepNext, DeepStep};
use robo::check::cuda::{
    check_cuda_host, check_cuda_host_requirement, check_cuda_toolkit_requirement, cuda_check_plan,
    cuda_check_plan_from_expected, CudaCheckPlan, HostCuda, ToolkitCuda,
};
use robo::check::native::{
    check_native_tool_wheel_shims, native_tool_wheel_shims, normalize_package_name,
    uv_lock_package_names,
};
use robo::check::output::{
    check_error, check_field, check_hint, check_next, check_ok, check_status, check_warn,
    check_why, check_why_item,
};
use robo::runtime::{runtime_has_component, ProjectRuntime};
use robo::ui::{Config, LabelKind};

fn plain() -> Config {
    Config { color: false, debug: false }
}

fn runtime(components: &[&str], cuda_wheel_version: Option<&str>) -> ProjectRuntime {
    ProjectRuntime {
        schema_version: Some("1".to_string()),
        env_name: "test".to_string(),
        python_version: "3.11".to_string(),
        cuda_wheel_version: cuda_wheel_version.map(ToOwned::to_owned),
        components: components.iter().map(|item| item.to_string()).collect(),
        suggestions: Vec::new(),
    }
}

#[test]
fn cuda_wheels_require_host_but_not_toolkit() {
    let plan = cuda_check_plan_from_expected(&runtime(&[], Some("12.8")), Some("12.8".into()));

    assert!(plan.host_required);
    assert!(!plan.toolkit_required);
    assert_eq!(plan.expected_wheel_version.as_deref(), Some("12.8"));
}

#[test]
fn cuda_toolkit_requires_build_surface_but_not_host_by_itself() {
    let plan = cuda_check_plan_from_expected(&runtime(&["cuda-toolkit"], None), None);

    assert!(!plan.host_required);
    assert!(plan.toolkit_required);
    assert_eq!(plan.expected_wheel_version, None);
}

#[test]
fn isaac_sim_requires_cuda_host_even_before_lockfile_exists() {
    let plan = cuda_check_plan_from_expected(&runtime(&["isaac-sim"], None), None);

    assert!(plan.host_required);
    assert!(!plan.toolkit_required);
}

#[test]
fn reads_top_level_uv_lock_package_names() {
    let lock = r#"
[[package]]
name = "cmake"
version = "4.1.3"
dependencies = [
  { name = "not-a-package-entry" },
]

[[package]]
name = "Ninja"
version = "1.13.0"
"#;

    let names = uv_lock_package_names(lock);

    assert!(names.contains(&"cmake".to_string()));
    assert!(names.contains(&"ninja".to_string()));
    assert!(!names.contains(&"not-a-package-entry".to_string()));
}

#[test]
fn lock_names_are_listed_once() {
    let lock = "[[package]]\nname = \"A_b\"\n[[package]]\nname = \"a-b\"\n";
    assert_eq!(uv_lock_package_names(lock), vec!["a-b".to_string()]);
    assert_eq!(normalize_package_name("Py.Qt_6"), "py-qt-6");
}

#[test]
fn shims_need_both_the_lock_entry_and_the_file() {
    let names = vec!["cmake".to_string(), "patchelf".to_string()];
    assert_eq!(
        native_tool_wheel_shims(&names, (true, true, false)),
        vec!["cmake".to_string()]
    );
    assert!(native_tool_wheel_shims(&names, (false, true, false)).is_empty());
    let mut warnings = 0;
    let lines = check_native_tool_wheel_shims(plain(), &mut warnings, &vec!["cmake".into(), "ninja".into()]);
    assert_eq!(warnings, 1);
    assert_eq!(lines[0], "warn: Python virtualenv contains native build tool shims: cmake, ninja");
    assert_eq!(lines.len(), 3);
    let none = check_native_tool_wheel_shims(plain(), &mut warnings, &Vec::new());
    assert!(none.is_empty());
    assert_eq!(warnings, 1);
}

#[test]
fn check_lines_count_warnings_and_issues() {
    let mut warnings = 0;
    let mut issues = 0;
    assert_eq!(check_ok(plain(), "fine"), "ok: fine");
    assert_eq!(check_warn(plain(), &mut warnings, "careful"), "warn: careful");
    assert_eq!(check_error(plain(), &mut issues, "broken"), "error: broken");
    assert_eq!((warnings, issues), (1, 1));
    assert_eq!(check_hint(plain(), "one\ntwo"), vec!["hint: one", "hint: two"]);
    assert_eq!(check_why(plain(), "because"), "why: because");
    assert_eq!(check_why_item(plain(), "item"), "  item");
    assert_eq!(check_next(plain(), "robo shell"), "next: robo shell");
    assert_eq!(check_field(plain(), "python=3.11"), "python=3.11");
    assert_eq!(
        check_status(plain(), "error", LabelKind::Error, 2, 1),
        "status=error issues=2 warnings=1"
    );
    assert_eq!(check_status(plain(), "ok", LabelKind::Pass, 0, 0), "status=ok warnings=0");
}

#[test]
fn runtime_components_are_looked_up_by_name() {
    let rt = runtime(&["mujoco", "cuda-toolkit"], None);
    assert!(runtime_has_component(&rt, "mujoco"));
    assert!(!runtime_has_component(&rt, "isaac-sim"));
}

#[test]
fn cuda_plan_reads_the_lock_when_robo_nix_is_silent() {
    let lock = "[[package]]\nname = \"nvidia-cuda-runtime-cu12\"\nversion = \"12.4.1\"\n";
    let plan = cuda_check_plan(&runtime(&[], None), Some(lock));
    assert_eq!(plan.expected_wheel_version.as_deref(), Some("12.4"));
    assert!(plan.host_required);
    let declared = cuda_check_plan(&runtime(&[], Some("12.8")), Some(lock));
    assert_eq!(declared.expected_wheel_version.as_deref(), Some("12.8"));
    assert!(!CudaCheckPlan { expected_wheel_version: None, host_required: false, toolkit_required: false }.needed());
}

fn host(linux: bool, driver: Option<&str>, libcuda: Option<&str>) -> HostCuda {
    HostCuda {
        is_linux: linux,
        driver_version: driver.map(ToOwned::to_owned),
        libcuda: libcuda.map(ToOwned::to_owned),
        libcuda_dir: libcuda.map(|_| "/run/opengl-driver/lib".to_string()),
        libcuda_override: false,
    }
}

#[test]
fn host_checks_report_an_old_driver() {
    let plan = cuda_check_plan_from_expected(&runtime(&[], None), Some("12.8".into()));
    let mut issues = 0;
    let mut warnings = 0;
    let lines = check_cuda_host_requirement(
        plain(),
        &plan,
        &host(true, Some("12.4"), Some("/run/opengl-driver/lib/libcuda.so.1")),
        &mut issues,
        &mut warnings,
    );
    assert_eq!(issues, 1);
    assert_eq!(warnings, 0);
    assert_eq!(lines[0], "ok: CUDA host driver supports 12.4");
    assert_eq!(lines[1], "ok: CUDA driver library visible at /run/opengl-driver/lib/libcuda.so.1");
    assert!(lines[2].starts_with("hint: robo run/shell will add /run/opengl-driver/lib"));
    assert_eq!(lines[3], "error: CUDA host driver mismatch: host supports 12.4, uv.lock expects 12.8");
}

#[test]
fn host_checks_need_linux() {
    let plan = cuda_check_plan_from_expected(&runtime(&["isaac-sim"], None), None);
    let mut issues = 0;
    let mut warnings = 0;
    let lines = check_cuda_host_requirement(plain(), &plan, &host(false, None, None), &mut issues, &mut warnings);
    assert_eq!(lines[0], "error: CUDA environments require a Linux host");
    assert_eq!((issues, warnings), (1, 0));
    let mut issues = 0;
    let lines = check_cuda_host_requirement(plain(), &plan, &host(true, None, None), &mut issues, &mut warnings);
    assert_eq!(issues, 1);
    assert_eq!(warnings, 1);
    assert!(lines.iter().any(|l| l.starts_with("warn: libcuda.so.1 was not visible")));
}

#[test]
fn toolkit_checks_compare_versions() {
    let plan = cuda_check_plan_from_expected(&runtime(&["cuda-toolkit"], None), Some("12.8".into()));
    let mut issues = 0;
    let mut warnings = 0;
    let toolkit = ToolkitCuda { root: Some("/nix/cuda".into()), root_version: Some("12.6".into()) };
    let lines = check_cuda_toolkit_requirement(plain(), &plan, false, &toolkit, &mut issues, &mut warnings);
    assert_eq!(lines[0], "ok: CUDA root exists at /nix/cuda");
    assert_eq!(lines[1], "error: CUDA mismatch: uv.lock expects 12.8, runtime reports 12.6");
    assert_eq!(issues, 1);
    let missing = ToolkitCuda { root: None, root_version: None };
    let deep = check_cuda_toolkit_requirement(plain(), &plan, true, &missing, &mut issues, &mut warnings);
    assert_eq!(deep.len(), 1);
    assert_eq!(warnings, 0);
    let shallow = check_cuda_toolkit_requirement(plain(), &plan, false, &missing, &mut issues, &mut warnings);
    assert_eq!(shallow[0], "warn: CUDA root is not visible in the current shell");
    assert_eq!(warnings, 1);
}

#[test]
fn cuda_checks_are_skipped_when_nothing_needs_cuda() {
    let mut issues = 0;
    let mut warnings = 0;
    let lines = check_cuda_host(
        plain(),
        &runtime(&["mujoco"], None),
        false,
        None,
        &host(true, None, None),
        &ToolkitCuda { root: None, root_version: None },
        &mut issues,
        &mut warnings,
    );
    assert!(lines.is_empty());
    assert_eq!((issues, warnings), (0, 0));
}

#[test]
fn deep_checks_run_in_order_and_stop_when_the_build_fails() {
    let mut last = None;
    let mut seen = Vec::new();
    loop {
        match next_deep_check(last, true) {
            DeepNext::Run(step) => {
                seen.push(step);
                last = Some(step);
            }
            DeepNext::Done => break,
            DeepNext::Stop => panic!("stopped although every step succeeded"),
        }
    }
    assert_eq!(
        seen,
        vec![
            DeepStep::Preview,
            DeepStep::Bootstrap,
            DeepStep::Tools,
            DeepStep::EglSurface,
            DeepStep::CudaBuildSurface,
            DeepStep::Probes,
        ]
    );
    assert_eq!(seen.len() as u64, deep_step_count());
    assert_eq!(next_deep_check(Some(DeepStep::Bootstrap), false), DeepNext::Stop);
    assert_eq!(next_deep_check(Some(DeepStep::Tools), false), DeepNext::Run(DeepStep::EglSurface));
}

#[test]
fn default_check_verdicts_print_their_guidance() {
    let plain = Config { color: false, debug: false };
    let (lines, code) = default_check_lines(plain, "demo", &DefaultCheck::UntrustedSchema);
    assert_eq!(code, 1);
    assert_eq!(lines.last().unwrap(), "  robo init . --force");
    let (lines, code) = default_check_lines(
        plain,
        "demo",
        &DefaultCheck::MissingComponents(vec![("qt6".to_string(), "PyQt6 is a dependency".to_string())]),
    );
    assert_eq!(code, 1);
    assert_eq!(
        lines,
        vec![
            "robo may be missing runtime components for demo.",
            "",
            "- qt6: PyQt6 is a dependency",
            "",
            "Review robo.nix, then refresh the runtime:",
            "  robo build",
        ]
    );
    let (lines, code) = default_check_lines(plain, "demo", &DefaultCheck::NotSynced);
    assert_eq!(code, 0);
    assert_eq!(lines[0], "ready: runtime is prepared for `demo`");
    assert_eq!(lines[4], "default: uv sync");
    let (lines, _) = default_check_lines(
        plain,
        "demo",
        &DefaultCheck::NativeShims(vec!["cmake".to_string(), "ninja".to_string()]),
    );
    assert_eq!(lines[2], "Found: cmake, ninja");
    let (with_cuda, _) = default_check_lines(plain, "demo", &DefaultCheck::Ready(true));
    let (without_cuda, _) = default_check_lines(plain, "demo", &DefaultCheck::Ready(false));
    assert!(with_cuda.contains(&"  robo check cuda".to_string()));
    assert!(!without_cuda.contains(&"  robo check cuda".to_string()));
    assert_eq!(with_cuda.last().unwrap(), "  robo check --deep");
}

#[test]
fn graphics_gates_and_findings_print_their_guidance() {
    let plain = Config { color: false, debug: false };
    let (lines, code) = graphics_gate_lines(plain, &GraphicsGate::MujocoGlForced("egl".to_string()));
    assert_eq!(code, Some(1));
    assert_eq!(lines[2], "Found MUJOCO_GL=egl.");
    assert_eq!(lines.last().unwrap(), "  robo check graphics");
    let (lines, code) = graphics_gate_lines(plain, &GraphicsGate::Probe);
    assert!(lines.is_empty());
    assert_eq!(code, None);
    assert_eq!(
        graphics_gate_lines(plain, &GraphicsGate::NotRequired),
        (vec!["Graphics runtime is not required by this project.".to_string()], Some(0))
    );
    let finding = Finding { kind: FindingKind::Error, message: "no EGL vendor".to_string(), hint: Some("install a driver") };
    assert_eq!(
        graphics_finding_lines(plain, &finding, true),
        vec![
            "Graphics runtime is blocked.",
            "",
            "no EGL vendor",
            "",
            "install a driver",
            "",
            "Show full evidence:",
            "  robo check graphics --verbose",
        ]
    );
    let warning = Finding { kind: FindingKind::Warn, message: "slow".to_string(), hint: None };
    assert_eq!(graphics_finding_lines(plain, &warning, false), vec!["graphics  warning", "", "slow"]);
}

#[test]
fn cuda_compat_runs_each_probe_only_when_needed() {
    let rt = runtime(&["cuda-toolkit"], Some("12.8"));
    assert!(matches!(
        ensure_runtime_cuda_compat(&runtime(&[], Some("12.8")), None, false, None, None),
        CudaStep::Done(CudaCompat::NotNeeded)
    ));
    assert!(matches!(
        ensure_runtime_cuda_compat(&rt, None, false, None, None),
        CudaStep::Run(CudaProbe::HostDriver)
    ));
    assert!(matches!(
        ensure_runtime_cuda_compat(&rt, None, false, Some(None), None),
        CudaStep::Done(CudaCompat::DriverMissing)
    ));
    assert!(matches!(
        ensure_runtime_cuda_compat(&rt, None, false, Some(Some("12.2")), None),
        CudaStep::Done(CudaCompat::DriverTooOld(_, _))
    ));
    assert!(matches!(
        ensure_runtime_cuda_compat(&rt, None, false, Some(Some("12.9")), None),
        CudaStep::Run(CudaProbe::RuntimeToolkit)
    ));
    assert!(matches!(
        ensure_runtime_cuda_compat(&rt, None, false, Some(Some("12.9")), Some(None)),
        CudaStep::Done(CudaCompat::ToolkitMissing(_))
    ));
    match ensure_runtime_cuda_compat(
        &rt,
        None,
        false,
        Some(Some("12.9")),
        Some(Some(("/nix/store/cuda".to_string(), "12.8".to_string()))),
    ) {
        CudaStep::Done(CudaCompat::Passed(expected, root)) => {
            assert_eq!(expected, "12.8");
            assert_eq!(root, "/nix/store/cuda");
        }
        _ => panic!("expected the check to pass"),
    }
}

#[test]
fn mujoco_context_probes_egl_only_after_the_default_fails() {
    let rt = runtime(&["mujoco"], None);
    assert!(matches!(check_mujoco_context(&rt, true, None, None), MujocoVerdict::RunDefaultProbe));
    assert!(matches!(
        check_mujoco_context(&rt, true, Some(ProbeRun::Passed), None),
        MujocoVerdict::Continue(_)
    ));
    assert!(matches!(
        check_mujoco_context(&rt, true, Some(ProbeRun::Failed), None),
        MujocoVerdict::RunEglProbe
    ));
    assert!(matches!(
        check_mujoco_context(&rt, true, Some(ProbeRun::Failed), Some(ProbeRun::Passed)),
        MujocoVerdict::NeedsEgl
    ));
    assert!(matches!(check_mujoco_context(&rt, false, None, None), MujocoVerdict::Continue(_)));
}

#[test]
fn stale_schema_warnings_name_their_diagnosis() {
    let plain = Config { color: false, debug: false };
    let mut rt = runtime(&[], None);
    rt.schema_version = None;
    let mut warnings = 0usize;
    let lines = robo::check::detail::check_schema_version(plain, &rt, &mut warnings);
    assert_eq!(warnings, 1);
    assert_eq!(lines[0], "warn[runtime.files-missing-or-stale]: robo.nix schema version is missing");
    let diagnosis = robo::diagnose::diagnose_text(&lines[0]);
    assert_eq!(diagnosis[0].id, "runtime.files-missing-or-stale");
    assert!(matches!(diagnosis[0].severity, robo::diagnose::Severity::Warning));
    let mut warnings = 0usize;
    let uv = robo::check::detail::check_uv_files(plain, false, false, &mut warnings);
    assert_eq!(warnings, 2);
    assert_eq!(uv[0], "warn[python.project-files-missing]: uv.lock is missing");
    assert!(uv.contains(&"warn[python.env-missing]: uv virtual environment is missing".to_string()));
    let mut issues = 0usize;
    let paths = robo::check::detail::check_required_paths(
        plain,
        &vec![("src".to_string(), "create src".to_string(), false)],
        &vec![("robo.nix".to_string(), "run robo init".to_string(), false)],
        &Vec::new(),
        &mut issues,
    );
    assert_eq!(issues, 2);
    assert_eq!(paths[0], "error[project.required-directories-missing]: required directory is missing: src");
    assert_eq!(paths[2], "error[runtime.files-missing-or-stale]: required file is missing: robo.nix");
}

#[test]
fn coloured_lines_keep_their_text_in_order() {
    console::set_colors_enabled(true);
    let coloured = Config { color: true, debug: false };
    let (lines, code) = robo::check::detail::graphics_gate_lines(
        coloured,
        &robo::check::detail::GraphicsGate::MujocoGlForced("egl".to_string()),
    );
    assert_eq!(code, Some(1));
    assert_eq!(lines.len(), 8);
    let shown = robo::ui::label(coloured, "robo check graphics", LabelKind::Command);
    assert!(shown.contains("robo check graphics"));
    assert!(shown.starts_with("\x1b["));

    let plain = Config { color: false, debug: false };
    let (plain_lines, plain_code) = robo::check::detail::graphics_gate_lines(
        plain,
        &robo::check::detail::GraphicsGate::MujocoGlForced("egl".to_string()),
    );
    assert_eq!(plain_code, code);
    let stripped: Vec<String> = lines.iter().map(|line| without_escape_codes(line)).collect();
    assert_eq!(stripped, plain_lines);
}

fn without_escape_codes(line: &str) -> String {
    let chars: Vec<char> = line.chars().collect();
    let mut out = String::new();
    let mut i = 0;
    while i < chars.len() {
        if chars[i] == '\x1b' && i + 1 < chars.len() && chars[i + 1] == '[' {
            let mut j = i + 2;
            while j < chars.len() && (chars[j].is_ascii_digit() || chars[j] == ';') {
                j += 1;
            }
            if j < chars.len() && chars[j] == 'm' {
                i = j + 1;
                continue;
            }
        }
        out.push(chars[i]);
        i += 1;
    }
    out
}
