use robo::egl::{findings, parse, summary_sections, FindingKind, MujocoContext, Probe, VendorFile};

#[test]
fn parses_display_libegl_and_vendor_files() {
    let probe = parse(
        "XDG_SESSION_TYPE=wayland\n\
         WAYLAND_DISPLAY=wayland-0\n\
         DISPLAY=:0\n\
         LIBGL_ALWAYS_SOFTWARE=\n\
         MESA_LOADER_DRIVER_OVERRIDE=\n\
         GBM_BACKEND=nvidia-drm\n\
         CONTAINER=present:podman\n\
         LIBEGL=/nix/store/abc-libglvnd/lib/libEGL.so.1\n\
         EGL_VENDOR_FILE=exists:/nix/store/def-mesa/share/glvnd/egl_vendor.d/50_mesa.json\n\
         EGL_VENDOR_FILE=missing:/tmp/missing.json\n\
         DEV_DRI=present:card0 renderD128\n\
         RUN_OPENGL_DRIVER=present:/run/opengl-driver\n\
         ROBO_NIX_HOST_GRAPHICS_AUTO=/run/opengl-driver/share/glvnd/egl_vendor.d/10_nvidia.json\n\
         ROBO_NIX_HOST_GRAPHICS_LIB_DIRS_AUTO=/run/opengl-driver/lib\n\
         GLXINFO_DIRECT=Yes\n\
         GLXINFO_VENDOR=NVIDIA Corporation\n\
         GLXINFO_RENDERER=NVIDIA GeForce RTX\n\
         GLXINFO_VERSION=4.6.0 vendor-driver\n",
    );

    assert_eq!(probe.session_type.as_deref(), Some("wayland"));
    assert_eq!(probe.wayland_display.as_deref(), Some("wayland-0"));
    assert_eq!(probe.display.as_deref(), Some(":0"));
    assert_eq!(probe.gbm_backend.as_deref(), Some("nvidia-drm"));
    assert_eq!(probe.container.as_deref(), Some("podman"));
    assert_eq!(
        probe.libegl.as_deref(),
        Some("/nix/store/abc-libglvnd/lib/libEGL.so.1")
    );
    assert_eq!(
        probe.vendor_files,
        vec![
            VendorFile {
                path: "/nix/store/def-mesa/share/glvnd/egl_vendor.d/50_mesa.json"
                    .to_string(),
                exists: true,
            },
            VendorFile {
                path: "/tmp/missing.json".to_string(),
                exists: false,
            },
        ]
    );
    assert_eq!(probe.dev_dri.as_deref(), Some("card0 renderD128"));
    assert!(probe.run_opengl_driver);
    assert_eq!(
        probe.host_graphics_auto.as_deref(),
        Some("/run/opengl-driver/share/glvnd/egl_vendor.d/10_nvidia.json")
    );
    assert_eq!(
        probe.host_graphics_lib_dirs_auto.as_deref(),
        Some("/run/opengl-driver/lib")
    );
    assert_eq!(probe.glxinfo_direct.as_deref(), Some("Yes"));
    assert_eq!(
        probe.glxinfo_vendor.as_deref(),
        Some("NVIDIA Corporation")
    );
    assert_eq!(probe.glxinfo_renderer.as_deref(), Some("NVIDIA GeForce RTX"));
    assert_eq!(probe.glxinfo_version.as_deref(), Some("4.6.0 vendor-driver"));
    assert!(!probe.vendor_unset);
}

#[test]
fn records_unset_vendor_selection() {
    let probe = parse(
        "XDG_SESSION_TYPE=\n\
         WAYLAND_DISPLAY=\n\
         DISPLAY=\n\
         LIBEGL=\n\
         EGL_VENDOR_FILE=unset:\n",
    );

    assert_eq!(
        probe,
        Probe {
            vendor_unset: true,
            ..Probe::default()
        }
    );
}

#[test]
fn missing_vendor_file_is_an_error() {
    let probe = Probe {
        session_type: Some("wayland".to_string()),
        wayland_display: Some("wayland-0".to_string()),
        libegl: Some("/nix/store/abc-libglvnd/lib/libEGL.so.1".to_string()),
        vendor_files: vec![VendorFile {
            path: "/tmp/missing.json".to_string(),
            exists: false,
        }],
        ..Probe::default()
    };

    assert!(findings(&probe).iter().any(|finding| {
        finding.kind == FindingKind::Error
            && finding
                .message
                .contains("EGL vendor file is missing: /tmp/missing.json")
    }));
}

#[test]
fn nix_libegl_with_non_nix_vendor_file_is_a_warning() {
    let probe = Probe {
        session_type: Some("wayland".to_string()),
        wayland_display: Some("wayland-0".to_string()),
        libegl: Some("/nix/store/abc-libglvnd/lib/libEGL.so.1".to_string()),
        vendor_files: vec![VendorFile {
            path: "/usr/share/glvnd/egl_vendor.d/10_nvidia.json".to_string(),
            exists: true,
        }],
        ..Probe::default()
    };

    assert!(findings(&probe).iter().any(|finding| {
        finding.kind == FindingKind::Warn
            && finding
                .message
                .contains("Nix libEGL is paired with a non-Nix EGL vendor file")
    }));
}

#[test]
fn nix_libegl_with_robo_managed_host_vendor_file_is_not_a_warning() {
    let probe = Probe {
        session_type: Some("wayland".to_string()),
        wayland_display: Some("wayland-0".to_string()),
        libegl: Some("/nix/store/abc-libglvnd/lib/libEGL.so.1".to_string()),
        vendor_files: vec![VendorFile {
            path: "/run/opengl-driver/share/glvnd/egl_vendor.d/10_nvidia.json".to_string(),
            exists: true,
        }],
        host_graphics_auto: Some(
            "/run/opengl-driver/share/glvnd/egl_vendor.d/10_nvidia.json:/run/opengl-driver/share/vulkan/icd.d/nvidia_icd.json"
                .to_string(),
        ),
        ..Probe::default()
    };

    assert!(!findings(&probe).iter().any(|finding| {
        finding.kind == FindingKind::Warn
            && finding
                .message
                .contains("Nix libEGL is paired with a non-Nix EGL vendor file")
    }));
}

#[test]
fn software_renderer_is_a_container_graphics_warning() {
    let probe = Probe {
        session_type: Some("wayland".to_string()),
        wayland_display: Some("wayland-0".to_string()),
        container: Some("podman".to_string()),
        libegl: Some("/nix/store/abc-libglvnd/lib/libEGL.so.1".to_string()),
        vendor_files: vec![VendorFile {
            path: "/nix/store/def-mesa/share/glvnd/egl_vendor.d/50_mesa.json".to_string(),
            exists: true,
        }],
        dev_dri: Some("card0 renderD128".to_string()),
        glxinfo_renderer: Some("llvmpipe (LLVM 19.1.7, 256 bits)".to_string()),
        ..Probe::default()
    };

    let findings = findings(&probe);
    assert!(findings.iter().any(|finding| {
        finding.kind == FindingKind::Warn
            && finding
                .message
                .contains("OpenGL renderer appears to be software")
    }));
    assert!(findings.iter().any(|finding| {
        finding.kind == FindingKind::Warn
            && finding.message.contains("/run/opengl-driver is not visible")
    }));
}

#[test]
fn forced_software_flag_is_a_warning() {
    let probe = Probe {
        libgl_always_software: Some("1".to_string()),
        ..Probe::default()
    };

    assert!(findings(&probe).iter().any(|finding| {
        finding.kind == FindingKind::Warn
            && finding
                .message
                .contains("LIBGL_ALWAYS_SOFTWARE=1 forces software rendering")
    }));
}

#[test]
fn summary_sections_use_probe_fields_not_finding_text() {
    let probe = Probe {
        session_type: Some("wayland".to_string()),
        wayland_display: Some("wayland-0".to_string()),
        libegl: Some("/nix/store/abc-libglvnd/lib/libEGL.so.1".to_string()),
        vendor_files: vec![VendorFile {
            path: "/nix/store/def-mesa/share/glvnd/egl_vendor.d/50_mesa.json".to_string(),
            exists: true,
        }],
        dev_dri: Some("card0 renderD128".to_string()),
        run_opengl_driver: true,
        ..Probe::default()
    };

    let sections = summary_sections(&probe, MujocoContext::Ready);

    assert_eq!(sections[0].title, "display");
    assert_eq!(sections[0].rows[0].value, "Wayland wayland-0");
    assert_eq!(sections[0].rows[1].value, "card0 renderD128");
    assert_eq!(sections[1].rows[0].value, "Nix libglvnd");
    assert_eq!(sections[1].rows[1].value, "Mesa from Nix");
    assert_eq!(sections[1].rows[2].value, "visible");
    assert_eq!(
        sections[2].rows[0].value,
        "current GL settings can create a MuJoCo OpenGL context"
    );
}
