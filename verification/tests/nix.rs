use robo::bootstrap::{is_env_var_name, missing_env_var, project_bootstrap_failure_hints};
use robo::nix::{is_cuda_link_library, missing_native_cuda_link_library, native_cuda_link_failure_hints};
use robo::search::{
    nix_index_database_missing_stderr, nix_locate_args, nix_locate_attr, nix_locate_attrs,
    normalize_library_query, valid_nix_attr,
};

#[test]
fn detects_missing_env_var_from_bootstrap_output() {
    assert_eq!(
        missing_env_var("PROJECT_SDK_ROOT is not set"),
        Some("PROJECT_SDK_ROOT".to_string())
    );
}

#[test]
fn ignores_non_env_var_bootstrap_output() {
    assert_eq!(missing_env_var("some lowercase setting is not set"), None);
}

#[test]
fn detects_cuda_link_library_failures() {
    let text = "/nix/store/bin/ld: cannot find -lcudart: No such file or directory";
    assert_eq!(
        missing_native_cuda_link_library(text),
        Some("cudart".to_string())
    );
}

#[test]
fn ignores_non_cuda_link_library_failures() {
    let text = "/nix/store/bin/ld: cannot find -lssl: No such file or directory";
    assert_eq!(missing_native_cuda_link_library(text), None);
}

#[test]
fn normalizes_versioned_shared_libraries() {
    assert_eq!(normalize_library_query("libassimp.so.5"), "libassimp.so");
    assert_eq!(
        normalize_library_query("/nix/store/path/lib/libassimp.so.5.2.0"),
        "libassimp.so"
    );
    assert_eq!(normalize_library_query("libassimp.so.5:"), "libassimp.so");
}

#[test]
fn parses_minimal_nix_locate_attrs() {
    let output = "kdePackages.qtquick3d.debug\nassimp.lib\n(consumer.out)\nxorg.libX11.out\n";

    assert_eq!(
        nix_locate_attrs(output),
        vec![
            "assimp".to_string(),
            "consumer".to_string(),
            "xorg.libX11".to_string()
        ]
    );
}

#[test]
fn detects_missing_nix_index_database() {
    assert!(nix_index_database_missing_stderr(
        "error: reading from the database at '/home/me/.cache/nix-index/files' failed: I/O error: No such file or directory (os error 2)"
    ));
}

#[test]
fn env_var_names_are_upper_case_identifiers() {
    assert!(is_env_var_name("_SDK2"));
    assert!(!is_env_var_name("2SDK"));
    assert!(!is_env_var_name(""));
    assert!(!is_env_var_name("Sdk"));
}

#[test]
fn bootstrap_hints_name_the_unset_variable() {
    let hints = project_bootstrap_failure_hints("log line\n  ISAAC_PATH is not set  \n");
    assert_eq!(hints.len(), 3);
    assert_eq!(
        hints[1],
        "set `ISAAC_PATH` in your shell or map it from a robo-nix runtime variable in robo.nix."
    );
    assert_eq!(project_bootstrap_failure_hints("ok").len(), 2);
}

#[test]
fn cuda_link_libraries_include_the_cuda_prefix() {
    assert!(is_cuda_link_library("cudadevrt"));
    assert!(is_cuda_link_library("nvJitLink"));
    assert!(!is_cuda_link_library("ssl"));
    let later = "ld: cannot find -lssl\nld: cannot find -l'cublas'\n";
    assert_eq!(missing_native_cuda_link_library(later), Some("cublas".to_string()));
    assert_eq!(native_cuda_link_failure_hints(later).len(), 3);
    assert!(native_cuda_link_failure_hints("fine").is_empty());
}

#[test]
fn locate_lines_keep_the_package_attribute() {
    assert_eq!(nix_locate_attr("qt6.qtbase.dev /nix/store/x"), Some("qt6.qtbase".to_string()));
    assert_eq!(nix_locate_attr("pkg.debug"), None);
    assert_eq!(nix_locate_attr("pkg.man"), Some("pkg.man".to_string()));
    assert_eq!(nix_locate_attr("   "), None);
    assert!(!valid_nix_attr("bad/attr"));
    assert_eq!(nix_locate_attrs("b.out\na.lib\nb.lib\n"), vec!["a".to_string(), "b".to_string()]);
    assert_eq!(nix_locate_args("libGL.so")[6], "libGL.so");
}
