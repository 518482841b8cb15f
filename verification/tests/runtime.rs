use robo::runtime::{
    cuda_driver_api_version, cuda_release_version_from_text, cuda_version_less_than,
    extract_quoted, find_cuda_release_version, find_nvidia_smi_cuda_version,
    infer_cuda_wheel_version_from_uv_lock_text, is_cuda_package_name, parse_cuda_version_from_path,
    parse_major_minor,
};

fn chars(s: &str) -> Vec<char> {
    s.chars().collect()
}

#[test]
fn infers_cuda_wheel_version_from_uv_lock() {
    let lock = r#"
[[package]]
name = "numpydantic"
version = "1.6.7"

[[package]]
name = "nvidia-cudnn-cu12"
version = "9.5.1.17"

[[package]]
name = "nvidia-cuda-runtime-cu12"
version = "12.6.77"
"#;
    assert_eq!(
        infer_cuda_wheel_version_from_uv_lock_text(lock),
        Some("12.6".to_string())
    );
}

#[test]
fn infers_max_cuda_minor_from_uv_lock() {
    let lock = r#"
[[package]]
name = "nvidia-cublas-cu12"
version = "12.5.3"

[[package]]
name = "nvidia-cuda-runtime-cu12"
version = "12.6.77"
"#;
    assert_eq!(
        infer_cuda_wheel_version_from_uv_lock_text(lock),
        Some("12.6".to_string())
    );
}

#[test]
fn parses_cuda_version_from_path() {
    assert_eq!(
        parse_cuda_version_from_path("/nix/store/x-robo-cuda-toolkit-12.8"),
        Some("12.8".to_string())
    );
    assert_eq!(
        parse_cuda_version_from_path("/nix/store/x-cuda-toolkit-12.3"),
        Some("12.3".to_string())
    );
}

#[test]
fn parses_release_line() {
    let output = "Cuda compilation tools, release 12.8, V12.8.0";
    assert_eq!(find_cuda_release_version(output), Some("12.8".to_string()));
}

#[test]
fn parses_nvidia_smi_cuda_version() {
    let output = "| NVIDIA-SMI 550.54.15 Driver Version: 550.54.15 CUDA Version: 12.4 |";
    assert_eq!(
        find_nvidia_smi_cuda_version(output),
        Some("12.4".to_string())
    );
}

#[test]
fn parses_cuda_driver_api_version() {
    assert_eq!(cuda_driver_api_version(12080), Some("12.8".to_string()));
    assert_eq!(cuda_driver_api_version(0), None);
}

#[test]
fn compares_cuda_versions() {
    assert_eq!(cuda_version_less_than("12.4", "12.8"), Some(true));
    assert_eq!(cuda_version_less_than("12.8", "12.8"), Some(false));
    assert_eq!(cuda_version_less_than("12.9", "12.8"), Some(false));
}

#[test]
fn version_comparison_needs_both_versions() {
    assert_eq!(cuda_version_less_than("twelve", "12.8"), None);
    assert_eq!(cuda_version_less_than("12.4", ""), None);
    assert_eq!(cuda_version_less_than("11.10", "12.1"), Some(true));
}

#[test]
fn negative_driver_api_version_is_rejected() {
    assert_eq!(cuda_driver_api_version(-5), None);
    assert_eq!(cuda_driver_api_version(11020), Some("11.2".to_string()));
}

#[test]
fn major_minor_needs_two_numeric_parts() {
    assert_eq!(parse_major_minor(&chars("12.6.77")), Some((12, 6)));
    assert_eq!(parse_major_minor(&chars("12")), None);
    assert_eq!(parse_major_minor(&chars("12.x")), None);
}

#[test]
fn release_text_without_release_word_gives_nothing() {
    assert_eq!(cuda_release_version_from_text("nvcc: no version here"), None);
    assert_eq!(
        cuda_release_version_from_text("Cuda compilation tools, release 11.8, V11.8.89"),
        Some("11.8".to_string())
    );
}

#[test]
fn quoted_value_is_extracted() {
    assert_eq!(extract_quoted(&chars("name = \"torch\"")), Some(chars("torch")));
    assert_eq!(extract_quoted(&chars("name = torch")), None);
}

#[test]
fn cuda_package_names_are_recognised() {
    assert!(is_cuda_package_name(&chars("nvidia-cuda-runtime-cu12")));
    assert!(!is_cuda_package_name(&chars("numpy")));
}

#[test]
fn lock_without_cuda_packages_gives_nothing() {
    let lock = "[[package]]\nname = \"numpy\"\nversion = \"2.0.0\"\n";
    assert_eq!(infer_cuda_wheel_version_from_uv_lock_text(lock), None);
}
