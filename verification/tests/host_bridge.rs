use robo::host_bridge::{
    append_host_graphics_bridge, apply_host_cuda_driver_bridge,
    apply_host_graphics_bridge_in_workspace, apply_host_graphics_bridge_with_parent_env,
    egl_vendor_is_nix_mesa, host_cuda_bridge_wanted, ldconfig_library_candidates,
    manifest_library_names_in, path_list_contains, parent_dir_of,
    runtime_needs_host_cuda_driver, runtime_needs_host_nvidia_graphics, HostCudaFacts,
};
use robo::runtime::ProjectRuntime;
use robo::shell_env::shell_env_value;

fn runtime(components: &[&str], cuda_wheel_version: Option<&str>) -> ProjectRuntime {
    ProjectRuntime {
        schema_version: None,
        env_name: "test".to_string(),
        python_version: "3.11".to_string(),
        cuda_wheel_version: cuda_wheel_version.map(ToOwned::to_owned),
        components: components.iter().map(|item| item.to_string()).collect(),
        suggestions: Vec::new(),
    }
}

fn plain_facts() -> HostCudaFacts {
    HostCudaFacts {
        parent_triton_set: false,
        parent_library_path: None,
        driver_dir_has_glibc: false,
        bridge_dir: None,
    }
}

fn value<'a>(env: &'a Vec<(String, String)>, name: &str) -> Option<&'a str> {
    shell_env_value(env, name).map(String::as_str)
}

fn cuda_driver_sets_minimal_runtime_vars() {
    let mut env = vec![("LD_LIBRARY_PATH".to_string(), "/nix/store/lib".to_string())];

    apply_host_cuda_driver_bridge(&mut env, "/run/opengl-driver/lib/libcuda.so.1", &plain_facts());

    assert_eq!(value(&env, "ROBO_NIX_LIBCUDA_PATH"), Some("/run/opengl-driver/lib/libcuda.so.1"));
    assert_eq!(value(&env, "TRITON_LIBCUDA_PATH"), Some("/run/opengl-driver/lib"));
    assert_eq!(value(&env, "ROBO_NIX_HOST_LIBCUDA_AUTO"), Some("/run/opengl-driver/lib"));
    assert_eq!(value(&env, "LD_LIBRARY_PATH"), Some("/nix/store/lib:/run/opengl-driver/lib"));
}

fn cuda_driver_does_not_duplicate_library_path() {
    let mut env = vec![
        (
            "LD_LIBRARY_PATH".to_string(),
            "/nix/store/lib:/run/opengl-driver/lib".to_string(),
        ),
        ("TRITON_LIBCUDA_PATH".to_string(), "/custom/triton".to_string()),
    ];

    apply_host_cuda_driver_bridge(&mut env, "/run/opengl-driver/lib/libcuda.so.1", &plain_facts());

    assert_eq!(value(&env, "LD_LIBRARY_PATH"), Some("/nix/store/lib:/run/opengl-driver/lib"));
    assert_eq!(value(&env, "TRITON_LIBCUDA_PATH"), Some("/custom/triton"));
}

#[test]
fn host_bridge_host_cuda_driver_bridge_sets_minimal_runtime_vars() {
    cuda_driver_sets_minimal_runtime_vars();
}

#[test]
fn cuda_driver_host_cuda_driver_bridge_sets_minimal_runtime_vars() {
    cuda_driver_sets_minimal_runtime_vars();
}

#[test]
fn host_bridge_host_cuda_driver_bridge_does_not_duplicate_library_path() {
    cuda_driver_does_not_duplicate_library_path();
}

#[test]
fn cuda_driver_host_cuda_driver_bridge_does_not_duplicate_library_path() {
    cuda_driver_does_not_duplicate_library_path();
}

#[test]
fn host_cuda_driver_bridge_does_not_inject_glibc_dir() {
    let mut env = vec![("LD_LIBRARY_PATH".to_string(), "/nix/store/lib".to_string())];
    let facts = HostCudaFacts {
        parent_triton_set: false,
        parent_library_path: None,
        driver_dir_has_glibc: true,
        bridge_dir: Some(".robo-nix/host-libs".to_string()),
    };

    apply_host_cuda_driver_bridge(&mut env, "/tmp/robo-host-cuda/libcuda.so.1", &facts);

    assert_eq!(value(&env, "LD_LIBRARY_PATH"), Some("/nix/store/lib:.robo-nix/host-libs"));
    assert_eq!(value(&env, "ROBO_NIX_HOST_LIBCUDA_BRIDGE"), Some(".robo-nix/host-libs"));
    assert_eq!(
        value(&env, "ROBO_NIX_HOST_LIBCUDA_LD_LIBRARY_PATH_SKIPPED"),
        Some("/tmp/robo-host-cuda")
    );
}

fn toolkit_only() {
    assert!(!runtime_needs_host_cuda_driver(&runtime(&["cuda-toolkit"], None)));
}

fn cuda_wheels_and_isaac() {
    assert!(runtime_needs_host_cuda_driver(&runtime(&[], Some("12.8"))));
    assert!(runtime_needs_host_cuda_driver(&runtime(&["isaac-sim"], None)));
}

#[test]
fn host_bridge_toolkit_only_runtime_does_not_require_host_cuda_driver_bridge() {
    toolkit_only();
}

#[test]
fn cuda_driver_toolkit_only_runtime_does_not_require_host_cuda_driver_bridge() {
    toolkit_only();
}

#[test]
fn host_bridge_cuda_wheels_and_isaac_runtime_require_host_cuda_driver_bridge() {
    cuda_wheels_and_isaac();
}

#[test]
fn cuda_driver_cuda_wheels_and_isaac_runtime_require_host_cuda_driver_bridge() {
    cuda_wheels_and_isaac();
}

#[test]
fn host_nvidia_gl_runtime_requires_host_nvidia_graphics_bridge() {
    assert!(runtime_needs_host_nvidia_graphics(&runtime(&["host-nvidia-gl"], None)));
    assert!(!runtime_needs_host_nvidia_graphics(&runtime(&["isaac-sim"], None)));
    assert!(!runtime_needs_host_nvidia_graphics(&runtime(&["base"], None)));
}

fn replaces_nix_mesa() {
    let manifest = "/tmp/robo-graphics/10_nvidia.json";
    let lib_dir = "/tmp/robo-graphics/lib";
    let mut env = vec![
        (
            "__EGL_VENDOR_LIBRARY_FILENAMES".to_string(),
            "/nix/store/abc-mesa-25.2.4/share/glvnd/egl_vendor.d/50_mesa.json".to_string(),
        ),
        ("LD_LIBRARY_PATH".to_string(), "/nix/store/lib".to_string()),
    ];

    let applied = apply_host_graphics_bridge_with_parent_env(&mut env, Some(manifest), None, false, false);
    apply_host_graphics_bridge_in_workspace(&mut env, Some(lib_dir.to_string()), &None);

    assert_eq!(applied, vec![manifest.to_string()]);
    assert_eq!(value(&env, "__EGL_VENDOR_LIBRARY_FILENAMES"), Some(manifest));
    assert_eq!(value(&env, "ROBO_NIX_HOST_GRAPHICS_AUTO"), Some(manifest));
    assert_eq!(value(&env, "ROBO_NIX_HOST_GRAPHICS_LIB_DIRS_AUTO"), Some(lib_dir));
    assert_eq!(value(&env, "LD_LIBRARY_PATH"), Some("/nix/store/lib:/tmp/robo-graphics/lib"));
}

fn keeps_user_egl_vendor() {
    let mut env = vec![(
        "__EGL_VENDOR_LIBRARY_FILENAMES".to_string(),
        "/custom/egl_vendor.json".to_string(),
    )];

    apply_host_graphics_bridge_with_parent_env(
        &mut env,
        Some("/run/opengl-driver/share/glvnd/egl_vendor.d/10_nvidia.json"),
        Some("/run/opengl-driver/share/vulkan/icd.d/nvidia_icd.x86_64.json"),
        false,
        false,
    );

    assert_eq!(value(&env, "__EGL_VENDOR_LIBRARY_FILENAMES"), Some("/custom/egl_vendor.json"));
    assert_eq!(
        value(&env, "VK_ICD_FILENAMES"),
        Some("/run/opengl-driver/share/vulkan/icd.d/nvidia_icd.x86_64.json")
    );
}

fn keeps_parent_process_graphics_choices() {
    let mut env = Vec::new();

    apply_host_graphics_bridge_with_parent_env(
        &mut env,
        Some("/run/opengl-driver/share/glvnd/egl_vendor.d/10_nvidia.json"),
        Some("/run/opengl-driver/share/vulkan/icd.d/nvidia_icd.x86_64.json"),
        true,
        true,
    );

    assert!(value(&env, "__EGL_VENDOR_LIBRARY_FILENAMES").is_none());
    assert!(value(&env, "VK_ICD_FILENAMES").is_none());
    assert!(value(&env, "ROBO_NIX_HOST_GRAPHICS_AUTO").is_none());
}

#[test]
fn host_bridge_host_graphics_bridge_replaces_nix_mesa_for_isaac_nvidia_runtime() {
    replaces_nix_mesa();
}

#[test]
fn graphics_host_graphics_bridge_replaces_nix_mesa_for_isaac_nvidia_runtime() {
    replaces_nix_mesa();
}

#[test]
fn host_bridge_host_graphics_bridge_keeps_user_egl_vendor() {
    keeps_user_egl_vendor();
}

#[test]
fn graphics_host_graphics_bridge_keeps_user_egl_vendor() {
    keeps_user_egl_vendor();
}

#[test]
fn host_bridge_host_graphics_bridge_keeps_parent_process_graphics_choices() {
    keeps_parent_process_graphics_choices();
}

#[test]
fn graphics_host_graphics_bridge_keeps_parent_process_graphics_choices() {
    keeps_parent_process_graphics_choices();
}

fn collects_nested_entries_once() {
    let json = r#"{
        "ICD": {"library_path": "libGLX_nvidia.so.0"},
        "layers": [
            {"library_path": "libGLX_nvidia.so.0"},
            {"library_path": "/opt/nvidia/lib/libnvidia-egl-gbm.so.1"}
        ]
    }"#;

    assert_eq!(
        manifest_library_names_in(json),
        vec![
            "libGLX_nvidia.so.0".to_string(),
            "/opt/nvidia/lib/libnvidia-egl-gbm.so.1".to_string()
        ]
    );
}

#[test]
fn host_bridge_manifest_library_paths_collects_nested_entries_once() {
    collects_nested_entries_once();
}

#[test]
fn graphics_manifest_library_paths_collects_nested_entries_once() {
    collects_nested_entries_once();
}

#[test]
fn manifest_library_dirs_resolves_relative_vendor_library_from_ldconfig() {
    let ldconfig = "libEGL_nvidia.so.0 (libc6,x86-64) => /tmp/robo-graphics/nvidia/libEGL_nvidia.so.0\n";
    assert_eq!(
        ldconfig_library_candidates(ldconfig, "libEGL_nvidia.so.0"),
        vec!["/tmp/robo-graphics/nvidia/libEGL_nvidia.so.0".to_string()]
    );
    assert_eq!(
        parent_dir_of("/tmp/robo-graphics/nvidia/libEGL_nvidia.so.0"),
        Some("/tmp/robo-graphics/nvidia".to_string())
    );
}

#[test]
fn manifest_that_is_not_json_names_no_library() {
    assert!(manifest_library_names_in("not json").is_empty());
}

#[test]
fn nix_mesa_vendor_file_is_recognised() {
    let mesa = "/nix/store/abc-mesa-25.2.4/share/glvnd/egl_vendor.d/50_mesa.json".to_string();
    let custom = "/custom/egl_vendor.json".to_string();
    assert!(egl_vendor_is_nix_mesa(Some(&mesa)));
    assert!(!egl_vendor_is_nix_mesa(Some(&custom)));
    assert!(!egl_vendor_is_nix_mesa(None));
}

#[test]
fn library_path_membership_is_by_whole_entry() {
    assert!(path_list_contains("/a:/b/lib", "/b/lib"));
    assert!(!path_list_contains("/a:/b/lib64", "/b/lib"));
    assert!(!path_list_contains("", "/b/lib"));
}

#[test]
fn cuda_bridge_is_skipped_when_disabled_or_already_named() {
    let wheels = runtime(&[], Some("12.8"));
    let empty: Vec<(String, String)> = Vec::new();
    assert!(host_cuda_bridge_wanted(&empty, &wheels, None, false));
    assert!(!host_cuda_bridge_wanted(&empty, &wheels, Some(" Yes "), false));
    assert!(host_cuda_bridge_wanted(&empty, &wheels, Some("no"), false));
    assert!(!host_cuda_bridge_wanted(&empty, &wheels, None, true));
    let named = vec![("ROBO_NIX_LIBCUDA_PATH".to_string(), "/x/libcuda.so.1".to_string())];
    assert!(!host_cuda_bridge_wanted(&named, &wheels, None, false));
    assert!(!host_cuda_bridge_wanted(&empty, &runtime(&["base"], None), None, false));
}

#[test]
fn graphics_bridge_needs_the_host_nvidia_component() {
    let mut env = Vec::new();
    let applied = append_host_graphics_bridge(
        &mut env,
        &runtime(&["isaac-sim"], None),
        None,
        Some("/run/egl/10_nvidia.json"),
        None,
        false,
        false,
    );
    assert!(applied.is_empty());
    assert!(env.is_empty());
}
