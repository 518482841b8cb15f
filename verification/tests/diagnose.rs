use robo::diagnose::{
    diagnose_text, diagnosis_report_lines, entries, suggest_text, Diagnosis, DiagnosisResult,
    Severity,
};
use robo::ui::Config;
use std::collections::BTreeSet;

fn ids(text: &str) -> Vec<&'static str> {
    diagnose_text(text)
        .into_iter()
        .map(|diagnosis| diagnosis.id)
        .collect()
}

fn first_match(text: &str) -> Diagnosis {
    diagnose_text(text)
        .into_iter()
        .next()
        .expect("expected a diagnosis")
}

fn suggestion_ids(text: &str) -> Vec<&'static str> {
    suggest_text(text)
        .into_iter()
        .map(|suggestion| suggestion.id)
        .collect()
}

#[test]
fn diagnosis_entries_have_unique_ids_and_specific_docs() {
    let mut ids = BTreeSet::new();
    for entry in entries() {
        assert!(ids.insert(entry.template.id), "duplicate diagnosis id");
        assert!(
            entry
                .template
                .docs
                .starts_with("https://ausbxuse.github.io/robo-nix/users/"),
            "diagnosis docs should link to user docs: {}",
            entry.template.id
        );
        assert!(
            entry.template.docs.contains('#'),
            "diagnosis docs should link to a specific section: {}",
            entry.template.id
        );
    }
}

#[test]
fn explicit_diagnostic_prefix_can_override_default_severity() {
    let warning =
        first_match("warn[runtime.files-missing-or-stale]: robo.nix schema version is missing");
    let error =
        first_match("error[runtime.files-missing-or-stale]: required file is missing: robo.nix");

    assert!(matches!(warning.severity, Severity::Warning));
    assert!(matches!(error.severity, Severity::Error));
}

#[test]
fn leading_robo_status_prefix_sets_marker_match_severity() {
    let warning = first_match("warn: TorchCodec import failed");

    assert_eq!(warning.id, "media.ffmpeg-runtime-missing");
    assert!(matches!(warning.severity, Severity::Warning));
}

#[test]
fn diagnoses_glibc_abi_mix_only_with_nix_store_requirement() {
    let text = "/lib/x86_64-linux-gnu/libc.so.6: version `GLIBC_2.38' not found \
        (required by /nix/store/41ym-gcc-lib/lib/libstdc++.so.6)";

    assert!(ids(text).contains(&"python.glibc-abi-mix"));
    assert!(!ids("GLIBC_2.38 not found").contains(&"python.glibc-abi-mix"));
}

#[test]
fn diagnoses_local_editable_source_missing() {
    let text = "Distribution not found at: file:///repo/third_party/pkg";

    assert_eq!(ids(text), vec!["python.local-editable-missing"]);
}

#[test]
fn diagnoses_qt6_cmake_missing() {
    let text = "Could not find a package configuration file provided by \"Qt6\" with \
        any of the following names: Qt6Config.cmake";

    assert_eq!(ids(text), vec!["native.qt6-cmake-missing"]);
}

#[test]
fn diagnoses_python_owned_cmake_helpers() {
    assert_eq!(
        ids("Could not find pybind11Config.cmake"),
        vec!["python.cmake-helper-missing"]
    );
    assert_eq!(
        ids("Could not find nanobindConfig.cmake"),
        vec!["python.cmake-helper-missing"]
    );
}

#[test]
fn diagnoses_cuda_driver_visibility_and_mismatch() {
    assert_eq!(
        ids("libcuda.so.1: cannot open shared object file"),
        vec!["cuda.driver-not-visible"]
    );
    assert_eq!(
        ids("CUDA driver version is insufficient for CUDA runtime version"),
        vec!["cuda.driver-wheel-mismatch"]
    );
}

#[test]
fn diagnoses_egl_context_failures_from_specific_and_short_messages() {
    assert_eq!(
        ids("GLFWError: (65542) b'EGL: Failed to get EGL display: Success'"),
        vec!["graphics.egl-context"]
    );
    assert_eq!(ids("Failed to get EGL display"), vec!["graphics.egl-context"]);
    assert_eq!(ids("Failed EGL display"), vec!["graphics.egl-context"]);
}

#[test]
fn reports_only_actual_matched_markers() {
    let diagnosis = first_match("Failed to get EGL display");

    assert_eq!(diagnosis.matched, vec!["Failed to get EGL display"]);
}

#[test]
fn matches_case_insensitively_and_with_collapsed_whitespace() {
    let diagnosis = first_match("failed to get\nEGL   display");

    assert_eq!(diagnosis.id, "graphics.egl-context");
}

#[test]
fn diagnoses_linux_headers_missing() {
    assert_eq!(
        ids("fatal error: linux/input.h: No such file or directory"),
        vec!["native.linux-headers-missing"]
    );
}

#[test]
fn diagnoses_native_build_tool_shim_when_glibc_error_is_present() {
    let text = ".venv/bin/cmake: /lib/libc.so.6: version `GLIBC_2.38' not found";

    assert_eq!(ids(text), vec!["native.python-build-tool-shim"]);
}

#[test]
fn diagnoses_native_build_tool_shim_warning_from_robo_check() {
    let text = "warn: Python virtualenv contains native build tool shims: cmake";

    assert_eq!(ids(text), vec!["native.python-build-tool-shim"]);
}

#[test]
fn diagnosis_id_in_robo_output_wins_over_text_matching() {
    let text = "warn[native.python-build-tool-shim]: Python virtualenv contains native build tool shims: cmake";
    let diagnosis = first_match(text);

    assert_eq!(diagnosis.id, "native.python-build-tool-shim");
    assert_eq!(diagnosis.matched, vec!["native.python-build-tool-shim"]);
}

#[test]
fn diagnosis_id_in_status_output_is_enough() {
    let text = "! environment: native build tool shims: cmake [native.python-build-tool-shim]";

    assert_eq!(ids(text), vec!["native.python-build-tool-shim"]);
}

#[test]
fn diagnoses_robo_check_python_contract_lines() {
    assert_eq!(ids("warn: Python virtualenv is missing"), vec!["python.env-missing"]);
    assert_eq!(
        ids("error: Python virtualenv was created outside robo-nix"),
        vec!["python.env-host-owned"]
    );
    assert_eq!(
        ids("error: pyproject.toml requires Python 3.12 but robo.nix declares 3.11"),
        vec!["python.version-mismatch"]
    );
    assert_eq!(
        ids("warn: .python-version is missing"),
        vec!["python.project-files-missing"]
    );
    assert_eq!(
        ids("! project: pyproject.toml missing"),
        vec!["python.project-files-missing"]
    );
    assert!(ids("ok: pyproject.toml requires Python 3.11").is_empty());
}

#[test]
fn diagnoses_robo_status_runtime_lines() {
    assert_eq!(
        ids("! runtime: runtime components may be incomplete"),
        vec!["runtime.components-incomplete"]
    );
    assert_eq!(
        ids("! runtime: required directories missing"),
        vec!["project.required-directories-missing"]
    );
    assert_eq!(
        ids("! runtime: runtime files need review"),
        vec!["runtime.files-missing-or-stale"]
    );
}

#[test]
fn diagnoses_robo_check_cuda_lines() {
    assert_eq!(
        ids("error: could not detect host NVIDIA driver CUDA support"),
        vec!["cuda.host-not-ready"]
    );
    assert_eq!(
        ids("! environment: CUDA host driver is too old"),
        vec!["cuda.driver-wheel-mismatch"]
    );
    assert_eq!(
        ids("warn: libcuda.so.1 was not visible through ROBO_NIX_LIBCUDA_PATH"),
        vec!["cuda.driver-not-visible"]
    );
    assert_eq!(
        ids("error: CUDA mismatch: uv.lock expects 12.4, runtime reports 12.2"),
        vec!["cuda.driver-wheel-mismatch"]
    );
    assert_eq!(
        ids("error: CUDA native build surface is incomplete"),
        vec!["cuda.toolkit-not-visible"]
    );
    assert_eq!(
        ids("! environment: CUDA toolkit version is unknown"),
        vec!["cuda.toolkit-not-visible"]
    );
    assert_eq!(
        ids("error: uv is not available in the runtime shell"),
        vec!["runtime.tool-missing"]
    );
}

#[test]
fn diagnoses_robo_check_graphics_and_media_lines() {
    assert_eq!(
        ids("error: libEGL.so.1 is not visible in the runtime library path"),
        vec!["graphics.egl-context"]
    );
    assert_eq!(
        ids("warn: LIBGL_ALWAYS_SOFTWARE=1 forces software rendering"),
        vec!["graphics.software-renderer"]
    );
    assert_eq!(
        ids("! environment: MuJoCo GL backend is forced"),
        vec!["graphics.mujoco-gl-forced"]
    );
    assert_eq!(
        ids("warn: PyQt6 GUI import failed"),
        vec!["graphics.python-gui-import"]
    );
    assert_eq!(
        ids("warn: TorchCodec import failed"),
        vec!["media.ffmpeg-runtime-missing"]
    );
}

#[test]
fn unknown_text_has_no_match() {
    assert!(ids("some project-specific pytest failure").is_empty());
}

#[test]
fn short_search_phrases_return_possible_matches_not_diagnoses() {
    assert!(ids("EGL display").is_empty());
    assert_eq!(suggestion_ids("EGL display"), vec!["graphics.egl-context"]);
}

#[test]
fn confident_output_has_no_suggestions() {
    let output = DiagnosisResult::from_text("Failed EGL display");

    assert_eq!(output.matches[0].id, "graphics.egl-context");
    assert!(output.suggestions.is_empty());
}

#[test]
fn reports_list_diagnoses_or_possible_matches_or_where_to_look() {
    let plain = Config { color: false, debug: false };
    let none = diagnosis_report_lines(plain, &DiagnosisResult::from_text("nothing to see"));
    assert_eq!(
        none,
        vec![
            "no diagnosis matched",
            "",
            "try",
            "  robo check --deep",
            "",
            "docs",
            "  https://ausbxuse.github.io/robo-nix/users/troubleshooting",
        ]
    );
    let possible = diagnosis_report_lines(plain, &DiagnosisResult::from_text("EGL display"));
    assert_eq!(possible[0], "no diagnosis matched");
    assert_eq!(possible[4], "possible matches");
    assert!(possible[5].starts_with("  graphics.egl-context  "));
    assert!(possible[6].starts_with("    docs  "));
    assert_eq!(possible[7], "try");
    assert_eq!(possible[9], "  robo check --deep");
    let result = DiagnosisResult::from_text("Failed to get EGL display");
    let d = &result.matches[0];
    let report = diagnosis_report_lines(plain, &result);
    assert_eq!(report[0], format!("{}[{}]: {}", d.severity.label(), d.id, d.title));
    assert_eq!(report[2], "problem");
    assert_eq!(report[3], format!("  {}", d.summary));
    assert_eq!(report[5], "evidence");
    assert_eq!(report.last().unwrap(), &format!("  {}", d.docs));
}
