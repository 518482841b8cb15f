//! The CUDA compatibility check `robo build` and `robo run` make for
//! runtimes with the CUDA toolkit: the host driver must support the CUDA
//! version the project's wheels were built for, and the runtime's toolkit
//! must be that version. The driver and toolkit are probed by the caller.
use vstd::prelude::*;
use crate::runtime::{has_component, less_than_spec, lock_version_spec, release_version_spec, runtime_has_component, ProjectRuntime};
use crate::text::{concat, concat3, concat4, lines, opt_str, strip_prefix};

verus! {

/// The CUDA version the project expects: `cudaWheelVersion` from
/// `robo.nix`, else the newest CUDA wheel in `uv.lock` (its text, when
/// read). None when the runtime has no CUDA toolkit.
pub open spec fn expected_cuda(runtime: ProjectRuntime, uv_lock: Option<Seq<char>>) -> Option<Seq<char>> {
    match runtime.cuda_wheel_version {
        Some(v) => Some(v@),
        None => match uv_lock {
            Some(t) => lock_version_spec(t),
            None => None,
        },
    }
}

/// How the compatibility check ends.
pub enum CudaCompat {
    /// The runtime has no CUDA toolkit.
    NotNeeded,
    /// No expected version is known; whether `uv.lock` exists.
    NoExpectation(bool),
    /// The host driver is older than the expected version (host, expected).
    DriverTooOld(String, String),
    /// No host driver was detected.
    DriverMissing,
    /// The runtime's toolkit could not be probed (expected).
    ToolkitMissing(String),
    /// The toolkit's version differs (expected, actual).
    Mismatch(String, String),
    /// Everything matches (expected, the toolkit's root).
    Passed(String, String),
}

/// A probe the check asks for before it can decide.
#[derive(PartialEq, Eq, Structural, Clone, Copy, Debug)]
pub enum CudaProbe {
    /// The host driver's CUDA version, from `nvidia-smi`.
    HostDriver,
    /// The runtime's CUDA toolkit root and version.
    RuntimeToolkit,
}

/// What the check does next: run a probe and decide again with its result,
/// or end.
pub enum CudaStep {
    Run(CudaProbe),
    Done(CudaCompat),
}

/// The first `root=` line of the probe's output, without the prefix.
pub open spec fn first_root(ls: Seq<Seq<char>>) -> Option<Seq<char>>
    decreases ls.len(),
{
    if ls.len() == 0 {
        None
    } else {
        match strip_prefix(ls[0], "root="@) {
            Some(r) => Some(r),
            None => first_root(ls.skip(1)),
        }
    }
}

/// What the toolkit probe found: its root (when the first `root=` line is
/// not empty) and the `nvcc` release in its stdout, else its stderr.
pub open spec fn probed_toolkit(stdout: Seq<char>, stderr: Seq<char>) -> Option<(Seq<char>, Seq<char>)> {
    match first_root(lines(stdout)) {
        Some(root) => if root.len() == 0 {
            None
        } else {
            match release_version_spec(stdout) {
                Some(v) => Some((root, v)),
                None => match release_version_spec(stderr) {
                    Some(v) => Some((root, v)),
                    None => None,
                },
            }
        },
        None => None,
    }
}

pub fn probe_runtime_cuda(stdout: &str, stderr: &str) -> (r: Option<(String, String)>)
    ensures
        match r {
            Some(x) => probed_toolkit(stdout@, stderr@) == Some((x.0@, x.1@)),
            None => probed_toolkit(stdout@, stderr@) is None,
        },
{
    let ls = crate::text::lines_str(stdout);
    let ghost lv = crate::text::views(ls@);
    let mut root: Option<String> = None;
    let mut i: usize = 0;
    assert(lv.skip(0) =~= lv);
    while i < ls.len()
        invariant_except_break
            root is None,
        invariant
            i <= ls.len(),
            lv == crate::text::views(ls@),
            lv == lines(stdout@),
            root is None ==> first_root(lv) == first_root(lv.skip(i as int)),
            root matches Some(r) ==> first_root(lv) == Some(r@),
        ensures
            root is None ==> i == ls.len(),
        decreases ls.len() - i,
    {
        assert(lv.skip(i as int)[0] == ls@[i as int]@);
        assert(lv.skip(i as int).skip(1) =~= lv.skip(i + 1));
        match crate::text::strip_prefix_str(&ls[i], "root=") {
            Some(rest) => {
                root = Some(crate::text::string_of(&rest));
                break;
            },
            None => {},
        }
        i = i + 1;
    }
    let root = match root {
        Some(r) => r,
        None => {
            assert(lv.skip(ls.len() as int).len() == 0);
            return None;
        },
    };
    if root.unicode_len() == 0 {
        return None;
    }
    let version = match crate::runtime::cuda_release_version_from_text(stdout) {
        Some(v) => v,
        None => match crate::runtime::cuda_release_version_from_text(stderr) {
            Some(v) => v,
            None => {
                return None;
            },
        },
    };
    Some((root, version))
}

/// The check's end, from the runtime, `uv.lock`, the host driver's CUDA
/// version and the toolkit probe, in the order the check looks at them.
pub open spec fn cuda_compat_spec(
    runtime: ProjectRuntime,
    uv_lock: Option<Seq<char>>,
    uv_lock_exists: bool,
    host: Option<Seq<char>>,
    toolkit: Option<(Seq<char>, Seq<char>)>,
    r: CudaCompat,
) -> bool {
    if !has_component(runtime, "cuda-toolkit"@) {
        r is NotNeeded
    } else {
        match expected_cuda(runtime, uv_lock) {
            None => r == CudaCompat::NoExpectation(uv_lock_exists),
            Some(e) => match host {
                None => r is DriverMissing,
                Some(h) => if less_than_spec(h, e) == Some(true) {
                    r matches CudaCompat::DriverTooOld(x, y) && x@ == h && y@ == e
                } else {
                    match toolkit {
                        None => r matches CudaCompat::ToolkitMissing(x) && x@ == e,
                        Some((root, actual)) => if actual != e {
                            r matches CudaCompat::Mismatch(x, y) && x@ == e && y@ == actual
                        } else {
                            r matches CudaCompat::Passed(x, y) && x@ == e && y@ == root
                        },
                    }
                },
            },
        }
    }
}

/// The probe the check needs next, given the probe results it has (an
/// outer `None` is a probe not run yet): the host driver once a version is
/// expected, then the runtime's toolkit once the driver is new enough.
pub open spec fn cuda_probe_needed(
    runtime: ProjectRuntime,
    uv_lock: Option<Seq<char>>,
    host: Option<Option<Seq<char>>>,
    toolkit_probed: bool,
) -> Option<CudaProbe> {
    if !has_component(runtime, "cuda-toolkit"@) {
        None
    } else {
        match expected_cuda(runtime, uv_lock) {
            None => None,
            Some(e) => match host {
                None => Some(CudaProbe::HostDriver),
                Some(None) => None,
                Some(Some(h)) => if less_than_spec(h, e) == Some(true) || toolkit_probed {
                    None
                } else {
                    Some(CudaProbe::RuntimeToolkit)
                },
            },
        }
    }
}

/// A probe result, or none when the probe was not run.
pub open spec fn ran<T>(o: Option<Option<T>>) -> Option<T> {
    match o {
        Some(x) => x,
        None => None,
    }
}

/// The runtime CUDA compatibility check, given the runtime, `uv.lock` and
/// the probe results there are so far: the probe to run next, else how the
/// check ends. The probes run only when their result is needed.
pub fn ensure_runtime_cuda_compat(
    runtime: &ProjectRuntime,
    uv_lock: Option<&str>,
    uv_lock_exists: bool,
    host_version: Option<Option<&str>>,
    toolkit: Option<Option<(String, String)>>,
) -> (r: CudaStep)
    ensures
        match cuda_probe_needed(
            *runtime,
            crate::host_bridge::opt_text(uv_lock),
            match host_version {
                Some(h) => Some(crate::host_bridge::opt_text(h)),
                None => None,
            },
            toolkit is Some,
        ) {
            Some(p) => r matches CudaStep::Run(q) && q == p,
            None => r matches CudaStep::Done(c) && cuda_compat_spec(
                *runtime,
                crate::host_bridge::opt_text(uv_lock),
                uv_lock_exists,
                crate::host_bridge::opt_text(ran(host_version)),
                match ran(toolkit) {
                    Some(t) => Some((t.0@, t.1@)),
                    None => None,
                },
                c,
            ),
        },
{
    if !runtime_has_component(runtime, "cuda-toolkit") {
        return CudaStep::Done(CudaCompat::NotNeeded);
    }
    let expected = match &runtime.cuda_wheel_version {
        Some(v) => Some(v.clone()),
        None => match uv_lock {
            Some(t) => crate::runtime::infer_cuda_wheel_version_from_uv_lock_text(t),
            None => None,
        },
    };
    let expected = match expected {
        Some(e) => e,
        None => {
            return CudaStep::Done(CudaCompat::NoExpectation(uv_lock_exists));
        },
    };
    let host = match host_version {
        None => {
            return CudaStep::Run(CudaProbe::HostDriver);
        },
        Some(None) => {
            return CudaStep::Done(CudaCompat::DriverMissing);
        },
        Some(Some(h)) => h,
    };
    if crate::runtime::cuda_version_less_than(host, expected.as_str()) == Some(true) {
        return CudaStep::Done(CudaCompat::DriverTooOld(host.to_string(), expected));
    }
    match toolkit {
        None => CudaStep::Run(CudaProbe::RuntimeToolkit),
        Some(None) => CudaStep::Done(CudaCompat::ToolkitMissing(expected)),
        Some(Some((root, actual))) => {
            if !crate::text::str_eq(actual.as_str(), expected.as_str()) {
                CudaStep::Done(CudaCompat::Mismatch(expected, actual))
            } else {
                CudaStep::Done(CudaCompat::Passed(expected, root))
            }
        },
    }
}

/// How a line of the check is shown.
#[derive(PartialEq, Eq)]
pub enum Level {
    Pass,
    Warn,
    Error,
    Hint,
}

/// The lines the check prints and whether it fails the command: problems
/// are errors that fail it in strict mode and warnings otherwise.
pub open spec fn cuda_compat_lines(r: CudaCompat, strict: bool) -> (Seq<(Level, Seq<char>)>, bool) {
    let bad = if strict {
        Level::Error
    } else {
        Level::Warn
    };
    match r {
        CudaCompat::NotNeeded => (Seq::empty(), false),
        CudaCompat::NoExpectation(lock) => (
            seq![(Level::Hint, if lock {
                "robo.nix does not contain `cudaWheelVersion`; run `robo init . --force` to regenerate metadata."@
            } else {
                "create/update uv.lock so robo can infer CUDA runtime expectations."@
            })],
            false,
        ),
        CudaCompat::DriverTooOld(h, e) => (
            seq![
                (bad, "host NVIDIA driver supports CUDA "@ + h@ + ", but uv.lock expects CUDA "@ + e@),
                (Level::Hint, "upgrade the host NVIDIA driver or regenerate uv.lock with CUDA wheels supported by this host."@),
            ],
            strict,
        ),
        CudaCompat::DriverMissing => (
            seq![
                (bad, "could not detect host NVIDIA driver CUDA support with nvidia-smi"@),
                (Level::Hint, "repair the host NVIDIA driver before running CUDA/Isaac workloads."@),
            ],
            strict,
        ),
        CudaCompat::ToolkitMissing(e) => (
            seq![
                (bad, "runtime CUDA toolkit is not available inside nix develop; expected CUDA "@ + e@),
                (Level::Hint, "run `robo check --deep` and check the cuda-toolkit component in robo.nix."@),
            ],
            strict,
        ),
        CudaCompat::Mismatch(e, a) => (
            seq![
                (bad, "runtime CUDA mismatch: uv.lock expects CUDA "@ + e@ + ", nix develop provides "@ + a@),
                (Level::Hint, "align cudaWheelVersion, uv.lock CUDA wheels, or the cuda-toolkit component before building CUDA extensions."@),
            ],
            strict,
        ),
        CudaCompat::Passed(e, root) => (
            seq![(Level::Pass, "runtime CUDA compatibility check passed ("@ + e@ + " at "@ + root@ + ")"@)],
            false,
        ),
    }
}

pub open spec fn level_lines(v: Seq<(Level, String)>) -> Seq<(Level, Seq<char>)> {
    v.map_values(|l: (Level, String)| (l.0, l.1@))
}

pub fn cuda_compat_report(outcome: &CudaCompat, strict: bool) -> (r: (Vec<(Level, String)>, bool))
    ensures
        (level_lines(r.0@), r.1) == cuda_compat_lines(*outcome, strict),
{
    let bad = if strict {
        Level::Error
    } else {
        Level::Warn
    };
    let mut out: Vec<(Level, String)> = Vec::new();
    let failed = match outcome {
        CudaCompat::NotNeeded => {
            assert(level_lines(out@) =~= cuda_compat_lines(*outcome, strict).0);
            false
        },
        CudaCompat::NoExpectation(lock) => {
            if *lock {
                out.push((Level::Hint, "robo.nix does not contain `cudaWheelVersion`; run `robo init . --force` to regenerate metadata.".to_string()));
            } else {
                out.push((Level::Hint, "create/update uv.lock so robo can infer CUDA runtime expectations.".to_string()));
            }
            assert(level_lines(out@) =~= cuda_compat_lines(*outcome, strict).0);
            false
        },
        CudaCompat::DriverTooOld(h, e) => {
            out.push((bad, concat4("host NVIDIA driver supports CUDA ", h.as_str(), ", but uv.lock expects CUDA ", e.as_str())));
            out.push((Level::Hint, "upgrade the host NVIDIA driver or regenerate uv.lock with CUDA wheels supported by this host.".to_string()));
            assert(level_lines(out@) =~= cuda_compat_lines(*outcome, strict).0);
            strict
        },
        CudaCompat::DriverMissing => {
            out.push((bad, "could not detect host NVIDIA driver CUDA support with nvidia-smi".to_string()));
            out.push((Level::Hint, "repair the host NVIDIA driver before running CUDA/Isaac workloads.".to_string()));
            assert(level_lines(out@) =~= cuda_compat_lines(*outcome, strict).0);
            strict
        },
        CudaCompat::ToolkitMissing(e) => {
            out.push((bad, concat("runtime CUDA toolkit is not available inside nix develop; expected CUDA ", e.as_str())));
            out.push((Level::Hint, "run `robo check --deep` and check the cuda-toolkit component in robo.nix.".to_string()));
            assert(level_lines(out@) =~= cuda_compat_lines(*outcome, strict).0);
            strict
        },
        CudaCompat::Mismatch(e, a) => {
            out.push((bad, concat4("runtime CUDA mismatch: uv.lock expects CUDA ", e.as_str(), ", nix develop provides ", a.as_str())));
            out.push((Level::Hint, "align cudaWheelVersion, uv.lock CUDA wheels, or the cuda-toolkit component before building CUDA extensions.".to_string()));
            assert(level_lines(out@) =~= cuda_compat_lines(*outcome, strict).0);
            strict
        },
        CudaCompat::Passed(e, root) => {
            let tail = concat(root.as_str(), ")");
            let line = concat4("runtime CUDA compatibility check passed (", e.as_str(), " at ", tail.as_str());
            assert(line@ =~= "runtime CUDA compatibility check passed ("@ + e@ + " at "@ + root@ + ")"@);
            out.push((Level::Pass, line));
            assert(level_lines(out@) =~= cuda_compat_lines(*outcome, strict).0);
            false
        },
    };
    assert(level_lines(out@) =~= cuda_compat_lines(*outcome, strict).0);
    (out, failed)
}

} // verus!
