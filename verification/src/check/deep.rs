//! The deep checks: runtime probes `robo check --deep` runs inside the
//! runtime, and what their results are reported as. The probes themselves
//! are run by the caller.
use vstd::prelude::*;
use crate::check::output::{check_error, check_hint, check_ok, check_warn, plain_hints, plain_line};
use crate::egl::{Finding, FindingKind};
use crate::pyproject::has_any;
use crate::text::{concat, concat3, decimal, strs};
use crate::ui::{renders_lines, Config, Rendered};

verus! {

/// The steps of `robo check --deep`, in the order they run.
#[derive(PartialEq, Eq, Structural, Clone, Copy, Debug)]
pub enum DeepStep {
    /// A dry-run build that previews what the runtime would download.
    Preview,
    /// Building the runtime.
    Bootstrap,
    /// `uv` inside the runtime.
    Tools,
    /// The EGL/GLVND libraries the runtime exposes.
    EglSurface,
    /// The CUDA toolkit the runtime builds against.
    CudaBuildSurface,
    /// The Python runtime probes.
    Probes,
}

/// What the deep checks do next: run a step, stop because the runtime
/// could not be built (the check then ends with the build's exit code), or
/// finish.
#[derive(PartialEq, Eq, Structural, Clone, Copy, Debug)]
pub enum DeepNext {
    Run(DeepStep),
    Stop,
    Done,
}

/// How many steps the deep checks' progress counts.
pub open spec fn deep_step_total() -> nat {
    6
}

/// The step after `last` (the first when nothing has run): the steps run in
/// order; a failed runtime build stops the rest, any other step's result
/// does not.
pub open spec fn deep_after(last: Option<DeepStep>, succeeded: bool) -> DeepNext {
    match last {
        None => DeepNext::Run(DeepStep::Preview),
        Some(DeepStep::Preview) => DeepNext::Run(DeepStep::Bootstrap),
        Some(DeepStep::Bootstrap) => if succeeded {
            DeepNext::Run(DeepStep::Tools)
        } else {
            DeepNext::Stop
        },
        Some(DeepStep::Tools) => DeepNext::Run(DeepStep::EglSurface),
        Some(DeepStep::EglSurface) => DeepNext::Run(DeepStep::CudaBuildSurface),
        Some(DeepStep::CudaBuildSurface) => DeepNext::Run(DeepStep::Probes),
        Some(DeepStep::Probes) => DeepNext::Done,
    }
}

/// The number of steps the deep checks' progress bar counts.
pub fn deep_step_count() -> (r: u64)
    ensures
        r == deep_step_total(),
{
    6
}

/// The decision of `robo check --deep` after a step: which step runs next,
/// given the last one and whether it succeeded. The caller runs the step and
/// reports its result.
pub fn next_deep_check(last: Option<DeepStep>, succeeded: bool) -> (r: DeepNext)
    ensures
        r == deep_after(last, succeeded),
{
    match last {
        None => DeepNext::Run(DeepStep::Preview),
        Some(DeepStep::Preview) => DeepNext::Run(DeepStep::Bootstrap),
        Some(DeepStep::Bootstrap) => if succeeded {
            DeepNext::Run(DeepStep::Tools)
        } else {
            DeepNext::Stop
        },
        Some(DeepStep::Tools) => DeepNext::Run(DeepStep::EglSurface),
        Some(DeepStep::EglSurface) => DeepNext::Run(DeepStep::CudaBuildSurface),
        Some(DeepStep::CudaBuildSurface) => DeepNext::Run(DeepStep::Probes),
        Some(DeepStep::Probes) => DeepNext::Done,
    }
}

/// The Python runtime probes, in the order they run.
#[derive(PartialEq, Eq)]
pub enum RuntimeProbe {
    /// PyQt6 QtCore/QtGui/QtWidgets import.
    QtImport,
    /// A matplotlib figure with the QtAgg backend.
    MatplotlibQtAgg,
    /// TorchCodec import.
    TorchCodec,
}

/// Whether any of the names is a dependency.
pub fn has_dependency(dependencies: &Vec<String>, names: &[&str]) -> (r: bool)
    ensures
        r == has_any(strs(dependencies@).to_set(), names@.map_values(|s: &str| s@)),
{
    crate::pyproject::has_dependency_name(dependencies, names)
}

/// The probes a project's dependencies call for: Qt bindings, matplotlib,
/// TorchCodec.
pub open spec fn probes_for(deps: Set<Seq<char>>) -> Seq<RuntimeProbe> {
    (if has_any(deps, seq!["pyqt6"@, "pyqt5"@, "pyside6"@]) {
        seq![RuntimeProbe::QtImport]
    } else {
        Seq::empty()
    }) + (if has_any(deps, seq!["matplotlib"@]) {
        seq![RuntimeProbe::MatplotlibQtAgg]
    } else {
        Seq::empty()
    }) + (if has_any(deps, seq!["torchcodec"@]) {
        seq![RuntimeProbe::TorchCodec]
    } else {
        Seq::empty()
    })
}

pub fn runtime_probe_plan(dependencies: &Vec<String>) -> (r: Vec<RuntimeProbe>)
    ensures
        r@ == probes_for(strs(dependencies@).to_set()),
{
    let mut out: Vec<RuntimeProbe> = Vec::new();
    let qt: [&str; 3] = ["pyqt6", "pyqt5", "pyside6"];
    let mpl: [&str; 1] = ["matplotlib"];
    let codec: [&str; 1] = ["torchcodec"];
    proof {
        reveal_strlit("pyqt6");
        reveal_strlit("pyqt5");
        reveal_strlit("pyside6");
        reveal_strlit("matplotlib");
        reveal_strlit("torchcodec");
        assert(qt@.map_values(|s: &str| s@) =~= seq!["pyqt6"@, "pyqt5"@, "pyside6"@]);
        assert(mpl@.map_values(|s: &str| s@) =~= seq!["matplotlib"@]);
        assert(codec@.map_values(|s: &str| s@) =~= seq!["torchcodec"@]);
    }
    let a = has_dependency(dependencies, &qt);
    let b = has_dependency(dependencies, &mpl);
    let c = has_dependency(dependencies, &codec);
    if a {
        out.push(RuntimeProbe::QtImport);
    }
    let ghost o1 = out@;
    if b {
        out.push(RuntimeProbe::MatplotlibQtAgg);
    }
    let ghost o2 = out@;
    if c {
        out.push(RuntimeProbe::TorchCodec);
    }
    assert(out@ =~= probes_for(strs(dependencies@).to_set()));
    out
}

/// How a runtime probe went: passed, failed with its output, or not
/// started, with the error.
pub enum ProbeOutcome {
    Passed,
    Failed(String),
    NotStarted(String),
}

/// The words a probe is reported with: the skipped message and its hint,
/// what runs, the success message, the failure message and the failure
/// hint.
pub open spec fn probe_texts(p: RuntimeProbe) -> (Seq<char>, Seq<char>, Seq<char>, Seq<char>, Seq<char>) {
    match p {
        RuntimeProbe::QtImport => (
            "Python virtualenv is missing; skipped Qt binding import probe"@,
            "run 'robo shell', then run 'uv sync' before GUI runtime probing"@,
            "PyQt6 QtCore/QtGui/QtWidgets import works"@,
            "PyQt6 GUI import failed"@,
            "failed to run PyQt6 GUI probe: "@,
        ),
        RuntimeProbe::MatplotlibQtAgg => (
            "Python virtualenv is missing; skipped matplotlib backend probe"@,
            "run 'robo shell', then run 'uv sync' before matplotlib runtime probing"@,
            "matplotlib QtAgg backend probe works"@,
            "matplotlib QtAgg backend probe failed"@,
            "failed to run matplotlib QtAgg probe: "@,
        ),
        RuntimeProbe::TorchCodec => (
            "Python virtualenv is missing; skipped TorchCodec import probe"@,
            "run 'robo shell', then run 'uv sync' before video decoder runtime probing"@,
            "TorchCodec import works with the runtime FFmpeg libraries"@,
            "TorchCodec import failed"@,
            "failed to run TorchCodec import probe: "@,
        ),
    }
}

/// What a failed probe is reported with: its output and a hint, in the
/// probe's order.
pub open spec fn failure_hints(p: RuntimeProbe, output: Seq<char>) -> Seq<Seq<char>> {
    match p {
        RuntimeProbe::QtImport => plain_hints(output) + plain_hints(
            "run 'uv sync' after changing Python dependencies or add missing native runtime components"@,
        ),
        RuntimeProbe::MatplotlibQtAgg => plain_hints(output) + plain_hints(
            "install a Qt binding such as pyqt6 and include qt6,desktop-gl when using plt.show()"@,
        ),
        RuntimeProbe::TorchCodec => plain_hints("TorchCodec needs FFmpeg shared libraries from the media component"@)
            + plain_hints(output),
    }
}

/// The report of one probe and the warnings it adds; without a virtualenv
/// the probe is skipped.
pub open spec fn probe_report(p: RuntimeProbe, venv_python: bool, outcome: ProbeOutcome) -> (Seq<Seq<char>>, nat) {
    let t = probe_texts(p);
    if !venv_python {
        (seq![plain_line("warn:"@, t.0)] + plain_hints(t.1), 1)
    } else {
        match outcome {
            ProbeOutcome::Passed => (seq![plain_line("ok:"@, t.2)], 0),
            ProbeOutcome::Failed(out) => (seq![plain_line("warn:"@, t.3)] + failure_hints(p, out@), 1),
            ProbeOutcome::NotStarted(err) => (seq![plain_line("warn:"@, t.4 + err@)], 1),
        }
    }
}

fn push_lines(out: &mut Vec<String>, lines: Vec<String>)
    ensures
        final(out)@ == old(out)@ + lines@,
{
    let ghost start = out@;
    let mut i: usize = 0;
    while i < lines.len()
        invariant
            i <= lines.len(),
            out@ == start + lines@.take(i as int),
        decreases lines.len() - i,
    {
        out.push(lines[i].clone());
        assert(lines@.take(i + 1) =~= lines@.take(i as int).push(lines@[i as int]));
        i = i + 1;
    }
    assert(lines@.take(lines.len() as int) == lines@);
}

pub fn runtime_probe_report(
    config: Config,
    probe: &RuntimeProbe,
    venv_python: bool,
    outcome: &ProbeOutcome,
    warnings: &mut usize,
) -> (r: Vec<String>)
    requires
        *old(warnings) < usize::MAX,
    ensures
        *final(warnings) == *old(warnings) + probe_report(*probe, venv_python, *outcome).1,
        renders_lines(config, strs(r@), probe_report(*probe, venv_python, *outcome).0),
{
    let (skipped, skipped_hint, passed, failed, not_started) = match probe {
        RuntimeProbe::QtImport => (
            "Python virtualenv is missing; skipped Qt binding import probe",
            "run 'robo shell', then run 'uv sync' before GUI runtime probing",
            "PyQt6 QtCore/QtGui/QtWidgets import works",
            "PyQt6 GUI import failed",
            "failed to run PyQt6 GUI probe: ",
        ),
        RuntimeProbe::MatplotlibQtAgg => (
            "Python virtualenv is missing; skipped matplotlib backend probe",
            "run 'robo shell', then run 'uv sync' before matplotlib runtime probing",
            "matplotlib QtAgg backend probe works",
            "matplotlib QtAgg backend probe failed",
            "failed to run matplotlib QtAgg probe: ",
        ),
        RuntimeProbe::TorchCodec => (
            "Python virtualenv is missing; skipped TorchCodec import probe",
            "run 'robo shell', then run 'uv sync' before video decoder runtime probing",
            "TorchCodec import works with the runtime FFmpeg libraries",
            "TorchCodec import failed",
            "failed to run TorchCodec import probe: ",
        ),
    };
    let mut out = Rendered::new(config);
    if !venv_python {
        out.push(config, check_warn(config, warnings, skipped), Ghost(plain_line("warn:"@, skipped@)));
        out.append(config, check_hint(config, skipped_hint), Ghost(plain_hints(skipped_hint@)));
    } else {
        match outcome {
            ProbeOutcome::Passed => {
                out.push(config, check_ok(config, passed), Ghost(plain_line("ok:"@, passed@)));
            },
            ProbeOutcome::Failed(output) => {
                out.push(config, check_warn(config, warnings, failed), Ghost(plain_line("warn:"@, failed@)));
                match probe {
                    RuntimeProbe::QtImport => {
                        out.append(config, check_hint(config, output.as_str()), Ghost(plain_hints(output@)));
                        out.append(config, check_hint(config, "run 'uv sync' after changing Python dependencies or add missing native runtime components"), Ghost(plain_hints("run 'uv sync' after changing Python dependencies or add missing native runtime components"@)));
                    },
                    RuntimeProbe::MatplotlibQtAgg => {
                        out.append(config, check_hint(config, output.as_str()), Ghost(plain_hints(output@)));
                        out.append(config, check_hint(config, "install a Qt binding such as pyqt6 and include qt6,desktop-gl when using plt.show()"), Ghost(plain_hints("install a Qt binding such as pyqt6 and include qt6,desktop-gl when using plt.show()"@)));
                    },
                    RuntimeProbe::TorchCodec => {
                        out.append(config, check_hint(config, "TorchCodec needs FFmpeg shared libraries from the media component"), Ghost(plain_hints("TorchCodec needs FFmpeg shared libraries from the media component"@)));
                        out.append(config, check_hint(config, output.as_str()), Ghost(plain_hints(output@)));
                    },
                }
            },
            ProbeOutcome::NotStarted(err) => {
                let m = concat(not_started, err.as_str());
                out.push(config, check_warn(config, warnings, m.as_str()), Ghost(plain_line("warn:"@, m@)));
            },
        }
    }
    proof {
        {
            assert(out.plain@ =~= probe_report(*probe, venv_python, *outcome).0);
        }
    }
    out.lines
}

/// The summary of a `nix build --dry-run --json` plan (one entry per
/// derivation: its path and how many outputs it has).
pub open spec fn dry_run_summary(items: Seq<(Seq<char>, nat)>) -> Seq<Seq<char>> {
    if items.len() == 0 {
        Seq::empty()
    } else {
        let outputs = total_outputs(items);
        seq![
            "planned builds: "@ + decimal(items.len()) + " derivation"@ + (if items.len() == 1 {
                Seq::<char>::empty()
            } else {
                "s"@
            }) + " producing "@ + decimal(outputs) + " output"@ + (if outputs == 1 {
                Seq::<char>::empty()
            } else {
                "s"@
            }),
        ] + (if items.len() == 1 {
            seq!["derivation: "@ + items[0].0]
        } else {
            Seq::empty()
        })
    }
}

pub open spec fn total_outputs(items: Seq<(Seq<char>, nat)>) -> nat
    decreases items.len(),
{
    if items.len() == 0 {
        0
    } else {
        total_outputs(items.drop_last()) + items.last().1
    }
}

pub open spec fn item_views(items: Seq<(String, u64)>) -> Seq<(Seq<char>, nat)> {
    items.map_values(|i: (String, u64)| (i.0@, i.1 as nat))
}

pub fn summarize_nix_dry_run(items: &Vec<(String, u64)>) -> (r: Vec<String>)
    requires
        total_outputs(item_views(items@)) <= u64::MAX,
    ensures
        strs(r@) == dry_run_summary(item_views(items@)),
{
    let mut out: Vec<String> = Vec::new();
    let ghost iv = item_views(items@);
    if items.len() == 0 {
        assert(strs(out@) =~= dry_run_summary(iv));
        return out;
    }
    let mut total: u64 = 0;
    let mut i: usize = 0;
    while i < items.len()
        invariant
            i <= items.len(),
            iv == item_views(items@),
            total_outputs(iv) <= u64::MAX,
            total == total_outputs(iv.take(i as int)),
        decreases items.len() - i,
    {
        assert(iv.take(i + 1).drop_last() == iv.take(i as int));
        proof {
            lemma_total_prefix(iv, i as int + 1);
        }
        total = total + items[i].1;
        i = i + 1;
    }
    assert(iv.take(items.len() as int) == iv);
    let n = crate::text::decimal_string(items.len() as u64);
    let m = crate::text::decimal_string(total);
    let s1 = if items.len() == 1 {
        ""
    } else {
        "s"
    };
    let s2 = if total == 1 {
        ""
    } else {
        "s"
    };
    let head = crate::text::concat4("planned builds: ", n.as_str(), " derivation", s1);
    let line = crate::text::concat4(head.as_str(), " producing ", m.as_str(), concat(" output", s2).as_str());
    out.push(line);
    if items.len() == 1 {
        out.push(concat("derivation: ", items[0].0.as_str()));
    }
    proof {
        reveal_strlit("");
        assert(total == total_outputs(iv));
        assert(iv.len() == items.len());
        assert(line@ =~= "planned builds: "@ + decimal(iv.len()) + " derivation"@ + (if iv.len() == 1 {
            Seq::<char>::empty()
        } else {
            "s"@
        }) + " producing "@ + decimal(total_outputs(iv)) + " output"@ + (if total_outputs(iv) == 1 {
            Seq::<char>::empty()
        } else {
            "s"@
        }));
        if items.len() == 1 {
            assert(iv[0].0 == items@[0].0@);
        }
        assert(strs(out@) =~= dry_run_summary(iv));
    }
    out
}

proof fn lemma_total_prefix(items: Seq<(Seq<char>, nat)>, n: int)
    requires
        0 <= n <= items.len(),
    ensures
        total_outputs(items.take(n)) <= total_outputs(items),
    decreases items.len(),
{
    if n < items.len() {
        assert(items.drop_last().take(n) == items.take(n));
        lemma_total_prefix(items.drop_last(), n);
    } else {
        assert(items.take(n) == items);
    }
}

/// The EGL/GLVND findings of the deep check as report lines, with the
/// warnings and issues they add.
pub open spec fn findings_report(fs: Seq<crate::egl::FindingView>) -> (Seq<Seq<char>>, nat, nat)
    decreases fs.len(),
{
    if fs.len() == 0 {
        (Seq::empty(), 0, 0)
    } else {
        let (ls, w, i) = findings_report(fs.drop_last());
        let f = fs.last();
        let hint = match f.hint {
            Some(h) => plain_hints(h@),
            None => Seq::empty(),
        };
        match f.kind {
            FindingKind::Pass => (ls.push(plain_line("ok:"@, f.message)), w, i),
            FindingKind::Warn => (ls.push(plain_line("warn:"@, f.message)) + hint, w + 1, i),
            FindingKind::Error => (ls.push(plain_line("error:"@, f.message)) + hint, w, i + 1),
        }
    }
}

pub fn egl_findings_report(config: Config, findings: &Vec<Finding>, issues: &mut usize, warnings: &mut usize) -> (r: Vec<String>)
    requires
        *old(issues) + findings@.len() <= usize::MAX,
        *old(warnings) + findings@.len() <= usize::MAX,
    ensures
        *final(warnings) == *old(warnings) + findings_report(crate::egl::finding_views(findings@)).1,
        *final(issues) == *old(issues) + findings_report(crate::egl::finding_views(findings@)).2,
        renders_lines(config, strs(r@), findings_report(crate::egl::finding_views(findings@)).0),
{
    let ghost fv = crate::egl::finding_views(findings@);
    let ghost w0 = *warnings;
    let ghost i0 = *issues;
    let mut out = Rendered::new(config);
    let mut k: usize = 0;
    while k < findings.len()
        invariant
            k <= findings.len(),
            fv == crate::egl::finding_views(findings@),
            w0 + findings@.len() <= usize::MAX,
            i0 + findings@.len() <= usize::MAX,
            *warnings == w0 + findings_report(fv.take(k as int)).1,
            *issues == i0 + findings_report(fv.take(k as int)).2,
            findings_report(fv.take(k as int)).1 + findings_report(fv.take(k as int)).2 <= k,
            out.fits(config),
            out.plain@ == findings_report(fv.take(k as int)).0,
        decreases findings.len() - k,
    {
        assert(fv.take(k + 1).drop_last() == fv.take(k as int));
        assert(fv.take(k + 1).last() == findings@[k as int]@);
        let f = &findings[k];
        match f.kind {
            FindingKind::Pass => {
                out.push(config, check_ok(config, f.message.as_str()), Ghost(plain_line("ok:"@, f.message@)));
            },
            FindingKind::Warn => {
                out.push(config, check_warn(config, warnings, f.message.as_str()), Ghost(plain_line("warn:"@, f.message@)));
                match f.hint {
                    Some(h) => {
                        out.append(config, check_hint(config, h), Ghost(plain_hints(h@)));
                    },
                    None => {},
                }
            },
            FindingKind::Error => {
                out.push(config, check_error(config, issues, f.message.as_str()), Ghost(plain_line("error:"@, f.message@)));
                match f.hint {
                    Some(h) => {
                        out.append(config, check_hint(config, h), Ghost(plain_hints(h@)));
                    },
                    None => {},
                }
            },
        }
        assert(out.plain@ =~= findings_report(fv.take(k + 1)).0);
        k = k + 1;
    }
    assert(fv.take(findings.len() as int) == fv);
    out.lines
}

/// The CUDA root the build-surface probe reports (its `root=` line), or a
/// generic name.
pub open spec fn reported_root(ls: Seq<Seq<char>>) -> Seq<char>
    decreases ls.len(),
{
    if ls.len() == 0 {
        "runtime CUDA toolkit"@
    } else {
        match crate::text::strip_prefix(ls[0], "root="@) {
            Some(r) => r,
            None => reported_root(ls.skip(1)),
        }
    }
}

pub fn cuda_build_surface_root(stdout: &str) -> (r: String)
    ensures
        r@ == reported_root(crate::text::lines(stdout@)),
{
    let ls = crate::text::lines_str(stdout);
    let ghost lv = crate::text::views(ls@);
    let mut i: usize = 0;
    assert(lv.skip(0) =~= lv);
    while i < ls.len()
        invariant
            i <= ls.len(),
            lv == crate::text::views(ls@),
            lv == crate::text::lines(stdout@),
            reported_root(lv) == reported_root(lv.skip(i as int)),
        decreases ls.len() - i,
    {
        assert(lv.skip(i as int)[0] == ls@[i as int]@);
        assert(lv.skip(i as int).skip(1) =~= lv.skip(i + 1));
        match crate::text::strip_prefix_str(&ls[i], "root=") {
            Some(rest) => {
                return crate::text::string_of(&rest);
            },
            None => {},
        }
        i = i + 1;
    }
    "runtime CUDA toolkit".to_string()
}

} // verus!
