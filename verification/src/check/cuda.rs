//! Which CUDA checks a runtime needs, and what they report.
//!
//! The facts about the host (its OS, driver and the CUDA root in the
//! environment) are gathered by the caller.
use vstd::prelude::*;
use crate::check::output::{check_error, check_hint, check_ok, check_warn, plain_hints, plain_line};
use crate::runtime::{has_component, lock_version_spec, runtime_has_component, ProjectRuntime};
use crate::text::{append_str, chars_of, opt_str, string_of, strs};
use crate::ui::{renders_lines, Config, Rendered};

verus! {

/// What the CUDA checks look at.
#[derive(Debug, Clone, PartialEq, Eq)]
pub struct CudaCheckPlan {
    /// The CUDA version the project's wheels were built for.
    pub expected_wheel_version: Option<String>,
    pub host_required: bool,
    pub toolkit_required: bool,
}

impl CudaCheckPlan {
    pub fn needed(&self) -> (r: bool)
        ensures
            r == (self.host_required || self.toolkit_required),
    {
        self.host_required || self.toolkit_required
    }
}

/// The toolkit is checked when the runtime has the `cuda-toolkit`
/// component; the host driver when CUDA wheels are expected or Isaac Sim is
/// in the runtime.
pub fn cuda_check_plan_from_expected(
    runtime: &ProjectRuntime,
    expected_wheel_version: Option<String>,
) -> (r: CudaCheckPlan)
    ensures
        r.expected_wheel_version == expected_wheel_version,
        r.toolkit_required == has_component(*runtime, "cuda-toolkit"@),
        r.host_required == (expected_wheel_version is Some || has_component(
            *runtime,
            "isaac-sim"@,
        )),
{
    let toolkit_required = runtime_has_component(runtime, "cuda-toolkit");
    let host_required = expected_wheel_version.is_some() || runtime_has_component(
        runtime,
        "isaac-sim",
    );
    CudaCheckPlan { expected_wheel_version, host_required, toolkit_required }
}

/// The plan for a runtime: the expected CUDA version is the one `robo.nix`
/// declares, else the newest CUDA wheel version in `uv.lock` (its text, when
/// the file could be read).
pub fn cuda_check_plan(runtime: &ProjectRuntime, uv_lock: Option<&str>) -> (r: CudaCheckPlan)
    ensures
        opt_str(r.expected_wheel_version) == (if runtime.cuda_wheel_version is Some {
            opt_str(runtime.cuda_wheel_version)
        } else {
            match uv_lock {
                Some(text) => lock_version_spec(text@),
                None => None,
            }
        }),
        r.toolkit_required == has_component(*runtime, "cuda-toolkit"@),
        r.host_required == (r.expected_wheel_version is Some || has_component(
            *runtime,
            "isaac-sim"@,
        )),
{
    let expected = match &runtime.cuda_wheel_version {
        Some(v) => Some(v.clone()),
        None => match uv_lock {
            Some(text) => crate::runtime::infer_cuda_wheel_version_from_uv_lock_text(text),
            None => None,
        },
    };
    cuda_check_plan_from_expected(runtime, expected)
}

/// What the caller found out about the host for the CUDA checks.
pub struct HostCuda {
    pub is_linux: bool,
    /// The CUDA version the host driver supports.
    pub driver_version: Option<String>,
    /// Where `libcuda.so.1` was found, and its directory.
    pub libcuda: Option<String>,
    pub libcuda_dir: Option<String>,
    /// Whether `ROBO_NIX_LIBCUDA_PATH` is set.
    pub libcuda_override: bool,
}

/// What the caller found out about the CUDA toolkit for the checks.
pub struct ToolkitCuda {
    /// The CUDA root the environment points at.
    pub root: Option<String>,
    /// The `major.minor` version read from that root.
    pub root_version: Option<String>,
}

fn push_all(out: &mut Vec<String>, lines: Vec<String>)
    ensures
        final(out)@ == old(out)@ + lines@,
{
    let ghost start = out@;
    let mut i: usize = 0;
    while i < lines.len()
        invariant
            i <= lines.len(),
            out@ == start + lines@.take(i as int),
        decreases lines.len() - i,
    {
        out.push(lines[i].clone());
        assert(lines@.take(i + 1) == lines@.take(i as int).push(lines@[i as int]));
        i = i + 1;
    }
    assert(lines@.take(lines.len() as int) == lines@);
}

/// The host-driver checks in plain output, with the issues and warnings
/// they add.
pub open spec fn host_report(plan: CudaCheckPlan, host: HostCuda) -> (Seq<Seq<char>>, nat, nat) {
    if !host.is_linux {
        (
            seq![plain_line("error:"@, "CUDA environments require a Linux host"@)] + plain_hints(
                "use a Linux NVIDIA machine for gpu-learning or isaac-learning environments"@,
            ),
            1,
            0,
        )
    } else {
        let (driver, driver_issues) = match host.driver_version {
            Some(v) => (seq![plain_line("ok:"@, "CUDA host driver supports "@ + v@)], 0nat),
            None => (
                seq![plain_line("error:"@, "could not detect host NVIDIA driver CUDA support"@)]
                    + plain_hints(
                    "repair the host NVIDIA driver installation before using CUDA environments"@,
                ),
                1nat,
            ),
        };
        let (lib, lib_warnings) = match host.libcuda {
            Some(path) => (
                seq![plain_line("ok:"@, "CUDA driver library visible at "@ + path@)] + (if !host.libcuda_override
                    && plan.host_required && host.libcuda_dir is Some {
                    plain_hints(
                        "robo run/shell will add "@ + host.libcuda_dir->0@
                            + " to the runtime automatically; set ROBO_NIX_LIBCUDA_PATH to override"@,
                    )
                } else {
                    Seq::empty()
                }),
                0nat,
            ),
            None => (
                seq![
                    plain_line(
                        "warn:"@,
                        "libcuda.so.1 was not visible through ROBO_NIX_LIBCUDA_PATH, LD_LIBRARY_PATH, ldconfig, or known host driver locations"@,
                    ),
                ] + plain_hints(
                    "Nix provides the CUDA build toolkit; libcuda.so.1 must come from the NVIDIA host driver"@,
                ),
                1nat,
            ),
        };
        let too_old = plan.expected_wheel_version is Some && host.driver_version is Some
            && crate::runtime::less_than_spec(
            host.driver_version->0@,
            plan.expected_wheel_version->0@,
        ) == Some(true);
        let (mismatch, mismatch_issues) = if too_old {
            (
                seq![
                    plain_line(
                        "error:"@,
                        "CUDA host driver mismatch: host supports "@ + host.driver_version->0@
                            + ", uv.lock expects "@ + plan.expected_wheel_version->0@,
                    ),
                ] + plain_hints(
                    "upgrade the host NVIDIA driver or regenerate uv.lock with CUDA wheels supported by this host"@,
                ),
                1nat,
            )
        } else {
            (Seq::empty(), 0nat)
        };
        (driver + lib + mismatch, driver_issues + mismatch_issues, lib_warnings)
    }
}

pub fn check_cuda_host_requirement(
    config: Config,
    plan: &CudaCheckPlan,
    host: &HostCuda,
    issues: &mut usize,
    warnings: &mut usize,
) -> (r: Vec<String>)
    requires
        *old(issues) + 2 <= usize::MAX,
        *old(warnings) + 1 <= usize::MAX,
    ensures
        *final(issues) == *old(issues) + host_report(*plan, *host).1,
        *final(warnings) == *old(warnings) + host_report(*plan, *host).2,
        renders_lines(config, strs(r@), host_report(*plan, *host).0),
{
    let mut out = Rendered::new(config);
    if !host.is_linux {
        out.push(config, check_error(config, issues, "CUDA environments require a Linux host"), Ghost(plain_line("error:"@, "CUDA environments require a Linux host"@)));
        out.append(config, check_hint(
                config,
                "use a Linux NVIDIA machine for gpu-learning or isaac-learning environments",
            ), Ghost(plain_hints("use a Linux NVIDIA machine for gpu-learning or isaac-learning environments"@)));
        proof {
            {
                assert(out.plain@ =~= host_report(*plan, *host).0);
            }
        }
        return out.lines;
    }
    let ghost start_issues = *issues;
    match &host.driver_version {
        Some(v) => {
            {
        let m = crate::text::concat("CUDA host driver supports ", v.as_str());
        out.push(config, check_ok(config, m.as_str()), Ghost(plain_line("ok:"@, m@)));
    };
        },
        None => {
            out.push(config, check_error(config, issues, "could not detect host NVIDIA driver CUDA support"), Ghost(plain_line("error:"@, "could not detect host NVIDIA driver CUDA support"@)));
            out.append(config, check_hint(
                    config,
                    "repair the host NVIDIA driver installation before using CUDA environments",
                ), Ghost(plain_hints("repair the host NVIDIA driver installation before using CUDA environments"@)));
        },
    }
    let ghost driver_lines = out.plain@;
    match &host.libcuda {
        Some(path) => {
            {
        let m = crate::text::concat("CUDA driver library visible at ", path.as_str());
        out.push(config, check_ok(config, m.as_str()), Ghost(plain_line("ok:"@, m@)));
    };
            if !host.libcuda_override && plan.host_required {
                match &host.libcuda_dir {
                    Some(dir) => {
                        {
        let h = crate::text::concat3(
                                    "robo run/shell will add ",
                                    dir.as_str(),
                                    " to the runtime automatically; set ROBO_NIX_LIBCUDA_PATH to override",
                                );
        out.append(config, check_hint(config, h.as_str()), Ghost(plain_hints(h@)));
    };
                    },
                    None => {},
                }
            }
        },
        None => {
            out.push(config, check_warn(
                    config,
                    warnings,
                    "libcuda.so.1 was not visible through ROBO_NIX_LIBCUDA_PATH, LD_LIBRARY_PATH, ldconfig, or known host driver locations",
                ), Ghost(plain_line("warn:"@, "libcuda.so.1 was not visible through ROBO_NIX_LIBCUDA_PATH, LD_LIBRARY_PATH, ldconfig, or known host driver locations"@)));
            out.append(config, check_hint(
                    config,
                    "Nix provides the CUDA build toolkit; libcuda.so.1 must come from the NVIDIA host driver",
                ), Ghost(plain_hints("Nix provides the CUDA build toolkit; libcuda.so.1 must come from the NVIDIA host driver"@)));
        },
    }
    let ghost lib_lines = out.plain@;
    match (&plan.expected_wheel_version, &host.driver_version) {
        (Some(expected), Some(found)) => {
            if crate::runtime::cuda_version_less_than(found.as_str(), expected.as_str()) == Some(true) {
                {
        let m = crate::text::concat4(
                            "CUDA host driver mismatch: host supports ",
                            found.as_str(),
                            ", uv.lock expects ",
                            expected.as_str(),
                        );
        out.push(config, check_error(config, issues, m.as_str()), Ghost(plain_line("error:"@, m@)));
    };
                out.append(config, check_hint(
                        config,
                        "upgrade the host NVIDIA driver or regenerate uv.lock with CUDA wheels supported by this host",
                    ), Ghost(plain_hints("upgrade the host NVIDIA driver or regenerate uv.lock with CUDA wheels supported by this host"@)));
            }
        },
        _ => {},
    }
    proof {
        {
            assert(out.plain@ =~= host_report(*plan, *host).0);
        }
    }
    out.lines
}

/// The toolkit checks in plain output, with the issues and warnings they add.
pub open spec fn toolkit_report(plan: CudaCheckPlan, deep: bool, toolkit: ToolkitCuda) -> (
    Seq<Seq<char>>,
    nat,
    nat,
) {
    match toolkit.root {
        None => if deep {
            (
                plain_hints(
                    "CUDA root is not visible in the current shell; deep checks will validate the runtime created by nix develop"@,
                ),
                0,
                0,
            )
        } else {
            (
                seq![plain_line("warn:"@, "CUDA root is not visible in the current shell"@)]
                    + plain_hints(
                    "robo shell sets CUDA_HOME/CUDA_PATH from the cuda-toolkit component"@,
                ) + plain_hints(
                    "open the runtime shell or run deep checks to validate the Nix CUDA toolkit"@,
                ),
                0,
                1,
            )
        },
        Some(root) => {
            let found = seq![plain_line("ok:"@, "CUDA root exists at "@ + root@)];
            match plan.expected_wheel_version {
                None => (found, 0, 0),
                Some(expected) => match toolkit.root_version {
                    None => (
                        found + seq![
                            plain_line(
                                "warn:"@,
                                "found CUDA root but could not detect its major.minor version"@,
                            ),
                        ] + plain_hints(
                            "run `robo shell -c \"$CUDA_HOME/bin/nvcc --version\"` to inspect this CUDA root"@,
                        ),
                        0,
                        1,
                    ),
                    Some(actual) => if actual@ == expected@ {
                        (
                            found + seq![
                                plain_line(
                                    "ok:"@,
                                    "CUDA version alignment: "@ + expected@ + " at "@ + root@,
                                ),
                            ],
                            0,
                            0,
                        )
                    } else {
                        (
                            found + seq![
                                plain_line(
                                    "error:"@,
                                    "CUDA mismatch: uv.lock expects "@ + expected@
                                        + ", runtime reports "@ + actual@,
                                ),
                            ] + plain_hints(
                                "point `ROBO_NIX_CUDA_ROOT` or `CUDA_HOME` to a toolkit matching expected CUDA ABI"@,
                            ),
                            1,
                            0,
                        )
                    },
                },
            }
        },
    }
}

pub fn check_cuda_toolkit_requirement(
    config: Config,
    plan: &CudaCheckPlan,
    deep: bool,
    toolkit: &ToolkitCuda,
    issues: &mut usize,
    warnings: &mut usize,
) -> (r: Vec<String>)
    requires
        *old(issues) + 1 <= usize::MAX,
        *old(warnings) + 1 <= usize::MAX,
    ensures
        *final(issues) == *old(issues) + toolkit_report(*plan, deep, *toolkit).1,
        *final(warnings) == *old(warnings) + toolkit_report(*plan, deep, *toolkit).2,
        renders_lines(config, strs(r@), toolkit_report(*plan, deep, *toolkit).0),
{
    let mut out = Rendered::new(config);
    let root = match &toolkit.root {
        Some(root) => root,
        None => {
            if deep {
                out.append(config, check_hint(
                        config,
                        "CUDA root is not visible in the current shell; deep checks will validate the runtime created by nix develop",
                    ), Ghost(plain_hints("CUDA root is not visible in the current shell; deep checks will validate the runtime created by nix develop"@)));
            } else {
                out.push(config, check_warn(config, warnings, "CUDA root is not visible in the current shell"), Ghost(plain_line("warn:"@, "CUDA root is not visible in the current shell"@)));
                out.append(config, check_hint(config, "robo shell sets CUDA_HOME/CUDA_PATH from the cuda-toolkit component"), Ghost(plain_hints("robo shell sets CUDA_HOME/CUDA_PATH from the cuda-toolkit component"@)));
                out.append(config, check_hint(
                        config,
                        "open the runtime shell or run deep checks to validate the Nix CUDA toolkit",
                    ), Ghost(plain_hints("open the runtime shell or run deep checks to validate the Nix CUDA toolkit"@)));
            }
            proof {
                {
                    assert(out.plain@ =~= toolkit_report(*plan, deep, *toolkit).0);
                }
            }
            return out.lines;
        },
    };
    {
        let m = crate::text::concat("CUDA root exists at ", root.as_str());
        out.push(config, check_ok(config, m.as_str()), Ghost(plain_line("ok:"@, m@)));
    };
    let expected = match &plan.expected_wheel_version {
        Some(expected) => expected,
        None => {
            return out.lines;
        },
    };
    match &toolkit.root_version {
        None => {
            out.push(config, check_warn(
                    config,
                    warnings,
                    "found CUDA root but could not detect its major.minor version",
                ), Ghost(plain_line("warn:"@, "found CUDA root but could not detect its major.minor version"@)));
            out.append(config, check_hint(
                    config,
                    "run `robo shell -c \"$CUDA_HOME/bin/nvcc --version\"` to inspect this CUDA root",
                ), Ghost(plain_hints("run `robo shell -c \"$CUDA_HOME/bin/nvcc --version\"` to inspect this CUDA root"@)));
        },
        Some(actual) => {
            if crate::text::str_eq(actual.as_str(), expected.as_str()) {
                {
        let m = crate::text::concat4(
                            "CUDA version alignment: ",
                            expected.as_str(),
                            " at ",
                            root.as_str(),
                        );
        out.push(config, check_ok(config, m.as_str()), Ghost(plain_line("ok:"@, m@)));
    };
            } else {
                {
        let m = crate::text::concat4(
                            "CUDA mismatch: uv.lock expects ",
                            expected.as_str(),
                            ", runtime reports ",
                            actual.as_str(),
                        );
        out.push(config, check_error(config, issues, m.as_str()), Ghost(plain_line("error:"@, m@)));
    };
                out.append(config, check_hint(
                        config,
                        "point `ROBO_NIX_CUDA_ROOT` or `CUDA_HOME` to a toolkit matching expected CUDA ABI",
                    ), Ghost(plain_hints("point `ROBO_NIX_CUDA_ROOT` or `CUDA_HOME` to a toolkit matching expected CUDA ABI"@)));
            }
        },
    }
    proof {
        {
            assert(out.plain@ =~= toolkit_report(*plan, deep, *toolkit).0);
        }
    }
    out.lines
}

/// All CUDA checks of a runtime: none when the plan needs none, else the
/// host checks and then the toolkit checks that the plan asks for.
pub open spec fn cuda_report(plan: CudaCheckPlan, deep: bool, host: HostCuda, toolkit: ToolkitCuda) -> (
    Seq<Seq<char>>,
    nat,
    nat,
) {
    let h = if plan.host_required {
        host_report(plan, host)
    } else {
        (Seq::empty(), 0, 0)
    };
    let t = if plan.toolkit_required {
        toolkit_report(plan, deep, toolkit)
    } else {
        (Seq::empty(), 0, 0)
    };
    (h.0 + t.0, h.1 + t.1, h.2 + t.2)
}

pub fn check_cuda_host(
    config: Config,
    runtime: &ProjectRuntime,
    deep: bool,
    uv_lock: Option<&str>,
    host: &HostCuda,
    toolkit: &ToolkitCuda,
    issues: &mut usize,
    warnings: &mut usize,
) -> (r: Vec<String>)
    requires
        *old(issues) + 3 <= usize::MAX,
        *old(warnings) + 2 <= usize::MAX,
    ensures
        exists|plan: CudaCheckPlan|
            {
                &&& opt_str(plan.expected_wheel_version) == (if runtime.cuda_wheel_version is Some {
                    opt_str(runtime.cuda_wheel_version)
                } else {
                    match uv_lock {
                        Some(text) => lock_version_spec(text@),
                        None => None,
                    }
                })
                &&& plan.toolkit_required == has_component(*runtime, "cuda-toolkit"@)
                &&& plan.host_required == (plan.expected_wheel_version is Some || has_component(
                    *runtime,
                    "isaac-sim"@,
                ))
                &&& *final(issues) == *old(issues) + cuda_report(plan, deep, *host, *toolkit).1
                &&& *final(warnings) == *old(warnings) + cuda_report(plan, deep, *host, *toolkit).2
                &&& renders_lines(config, strs(r@), cuda_report(plan, deep, *host, *toolkit).0)
            },
{
    let plan = cuda_check_plan(runtime, uv_lock);
    let mut out = Rendered::new(config);
    if plan.host_required {
        let lines = check_cuda_host_requirement(config, &plan, host, issues, warnings);
        out.append(config, lines, Ghost(host_report(plan, *host).0));
    }
    if plan.toolkit_required {
        let more = check_cuda_toolkit_requirement(config, &plan, deep, toolkit, issues, warnings);
        out.append(config, more, Ghost(toolkit_report(plan, deep, *toolkit).0));
    }
    assert(out.plain@ =~= cuda_report(plan, deep, *host, *toolkit).0);
    out.lines
}

} // verus!
