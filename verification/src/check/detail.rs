//! The detailed `robo check` report and the decisions of its focused
//! checks: which areas a runtime needs checked, and what a check concludes
//! from what the caller found out.
use vstd::prelude::*;
use crate::check::cuda::CudaCheckPlan;
use crate::check::output::{check_error, check_error_diag, check_hint, check_warn_diag, diag_tag, check_line, check_next, check_ok, check_status, check_warn, check_why, check_why_item, plain_hints, plain_line, plain_status};
use crate::check::python::PythonEnvironmentOrigin;
use crate::egl::{Finding, FindingKind, MujocoContext};
use crate::runtime::{has_component, runtime_has_component, ProjectRuntime};
use crate::text::{concat, concat3, concat4, decimal, join, join_strings, opt_str, string_of, strs};
use crate::ui::{
    lemma_shows_concat, lemma_shows_concat3, lemma_shows_itself, renders, renders_lines, Config, LabelKind, Rendered,
};
use crate::why::{why_view, Why, WhyEntry};

verus! {

/// The runtime uses graphics: desktop GL, MuJoCo, Qt, Matplotlib's Qt
/// backend or Isaac Sim.
pub open spec fn graphics_needed(runtime: ProjectRuntime) -> bool {
    has_component(runtime, "desktop-gl"@) || has_component(runtime, "mujoco"@) || has_component(runtime, "qt6"@)
        || has_component(runtime, "matplotlib-qt"@) || has_component(runtime, "isaac-sim"@)
}

pub fn graphics_relevant(runtime: &ProjectRuntime) -> (r: bool)
    ensures
        r == graphics_needed(*runtime),
{
    runtime_has_component(runtime, "desktop-gl") || runtime_has_component(runtime, "mujoco")
        || runtime_has_component(runtime, "qt6") || runtime_has_component(runtime, "matplotlib-qt")
        || runtime_has_component(runtime, "isaac-sim")
}

pub fn has_display_gl(runtime: &ProjectRuntime) -> (r: bool)
    ensures
        r == has_component(*runtime, "desktop-gl"@),
{
    runtime_has_component(runtime, "desktop-gl")
}

/// The runtime builds native code: the native build component, MuJoCo, Qt,
/// the CUDA toolkit, Isaac Sim or ROS 2.
pub open spec fn native_needed(runtime: ProjectRuntime) -> bool {
    has_component(runtime, "native-build"@) || has_component(runtime, "mujoco"@) || has_component(runtime, "qt6"@)
        || has_component(runtime, "cuda-toolkit"@) || has_component(runtime, "isaac-sim"@)
        || has_component(runtime, "ros2-jazzy"@)
}

pub fn native_relevant(runtime: &ProjectRuntime) -> (r: bool)
    ensures
        r == native_needed(*runtime),
{
    runtime_has_component(runtime, "native-build") || runtime_has_component(runtime, "mujoco")
        || runtime_has_component(runtime, "qt6") || runtime_has_component(runtime, "cuda-toolkit")
        || runtime_has_component(runtime, "isaac-sim") || runtime_has_component(runtime, "ros2-jazzy")
}

/// The runtime selects ROS.
pub fn ros_selected(runtime: &ProjectRuntime) -> (r: bool)
    ensures
        r == (has_component(*runtime, "ros2-jazzy"@) || has_component(*runtime, "ros-workspace"@)),
{
    runtime_has_component(runtime, "ros2-jazzy") || runtime_has_component(runtime, "ros-workspace")
}

fn push_lines(out: &mut Vec<String>, lines: Vec<String>)
    ensures
        final(out)@ == old(out)@ + lines@,
{
    let ghost start = out@;
    let mut i: usize = 0;
    while i < lines.len()
        invariant
            i <= lines.len(),
            out@ == start + lines@.take(i as int),
        decreases lines.len() - i,
    {
        out.push(lines[i].clone());
        assert(lines@.take(i + 1) =~= lines@.take(i as int).push(lines@[i as int]));
        i = i + 1;
    }
    assert(lines@.take(lines.len() as int) == lines@);
}

// ---------------------------------------------------------------------
// The provenance in plain lines
// ---------------------------------------------------------------------

pub open spec fn why_item_text(e: Why) -> Seq<char> {
    e.0 + " <- "@ + e.1 + ": "@ + e.2
}

/// A group of explanations: its title and one line per entry; nothing
/// when it is empty.
pub open spec fn why_group_text(title: Seq<char>, entries: Seq<Why>) -> Seq<Seq<char>> {
    if entries.len() == 0 {
        Seq::empty()
    } else {
        seq![plain_line("why:"@, title)] + entries.map_values(|e: Why| "  "@ + why_item_text(e))
    }
}

pub fn print_why_group(config: Config, title: &str, entries: &Vec<WhyEntry>) -> (r: Vec<String>)
    ensures
        renders_lines(config, strs(r@), why_group_text(title@, why_view(entries@))),
{
    let mut out = Rendered::new(config);
    if entries.len() == 0 {
        assert(out.plain@ =~= why_group_text(title@, why_view(entries@)));
        return out.lines;
    }
    out.push(config, check_why(config, title), Ghost(plain_line("why:"@, title@)));
    let ghost ev = why_view(entries@);
    let mut i: usize = 0;
    assert(ev.take(0).map_values(|e: Why| "  "@ + why_item_text(e)) =~= Seq::<Seq<char>>::empty());
    while i < entries.len()
        invariant
            i <= entries.len(),
            ev == why_view(entries@),
            out.fits(config),
            out.plain@ == seq![plain_line("why:"@, title@)] + ev.take(i as int).map_values(|e: Why| "  "@ + why_item_text(e)),
        decreases entries.len() - i,
    {
        let text = concat4(entries[i].name.as_str(), " <- ", entries[i].source.as_str(), concat(": ", entries[i].reason.as_str()).as_str());
        assert(ev[i as int] == entries@[i as int]@);
        assert(text@ =~= why_item_text(ev[i as int]));
        out.push(config, check_why_item(config, text.as_str()), Ghost("  "@ + text@));
        assert(ev.take(i + 1).map_values(|e: Why| "  "@ + why_item_text(e)) =~= ev.take(i as int).map_values(|e: Why| "  "@ + why_item_text(e)).push("  "@ + why_item_text(ev[i as int])));
        i = i + 1;
    }
    assert(ev.take(entries.len() as int) == ev);
    out.lines
}

/// The provenance in plain lines: the profile, then the groups.
pub open spec fn runtime_why_text(w: crate::why::WhyReport) -> Seq<Seq<char>> {
    seq![plain_line("why:"@, "profile "@ + match w.profile {
        Some(p) => p,
        None => "manual/unknown"@,
    })] + why_group_text("requirements"@, w.requirements) + why_group_text("components"@, w.components) + why_group_text(
        "required directories"@,
        w.required_directories,
    ) + why_group_text("required files"@, w.required_files) + why_group_text("bootstrap scripts"@, w.bootstrap_scripts)
        + why_group_text("suggestions"@, w.suggestions)
}

pub fn print_runtime_why(config: Config, why: &crate::why::RuntimeWhy) -> (r: Vec<String>)
    ensures
        renders_lines(config, strs(r@), runtime_why_text(why@)),
{
    let profile = match &why.profile {
        Some(p) => concat("profile ", p.as_str()),
        None => "profile manual/unknown".to_string(),
    };
    proof {
        reveal_strlit("profile manual/unknown");
        reveal_strlit("profile ");
        reveal_strlit("manual/unknown");
        assert(profile@ =~= "profile "@ + match why@.profile {
            Some(p) => p,
            None => "manual/unknown"@,
        });
    }
    let mut out = Rendered::new(config);
    out.push(config, check_why(config, profile.as_str()), Ghost(plain_line("why:"@, profile@)));
    let g1 = print_why_group(config, "requirements", &why.requirements);
    let g2 = print_why_group(config, "components", &why.components);
    let g3 = print_why_group(config, "required directories", &why.required_directories);
    let g4 = print_why_group(config, "required files", &why.required_files);
    let g5 = print_why_group(config, "bootstrap scripts", &why.bootstrap_scripts);
    let g6 = print_why_group(config, "suggestions", &why.suggestions);
    let ghost w = why@;
    out.append(config, g1, Ghost(why_group_text("requirements"@, w.requirements)));
    out.append(config, g2, Ghost(why_group_text("components"@, w.components)));
    out.append(config, g3, Ghost(why_group_text("required directories"@, w.required_directories)));
    out.append(config, g4, Ghost(why_group_text("required files"@, w.required_files)));
    out.append(config, g5, Ghost(why_group_text("bootstrap scripts"@, w.bootstrap_scripts)));
    out.append(config, g6, Ghost(why_group_text("suggestions"@, w.suggestions)));
    proof {
        {
            assert(out.plain@ =~= runtime_why_text(why@));
        }
    }
    out.lines
}

// ---------------------------------------------------------------------
// The detailed checks
// ---------------------------------------------------------------------

/// The schema check: version 1 is understood; another or none is warned
/// about.
pub open spec fn schema_report(schema: Option<Seq<char>>) -> (Seq<Seq<char>>, nat) {
    match schema {
        Some(v) => if v == "1"@ {
            (seq![plain_line("ok:"@, "robo.nix schema version is 1"@)], 0)
        } else {
            (
                seq![plain_line(diag_tag("warn"@, "runtime.files-missing-or-stale"@), "robo.nix schema version "@ + v + " is newer than this robo supports"@)] + plain_hints(
                    "upgrade robo-nix or regenerate with `robo init . --force` after reviewing local edits"@,
                ),
                1,
            )
        },
        None => (
            seq![plain_line(diag_tag("warn"@, "runtime.files-missing-or-stale"@), "robo.nix schema version is missing"@)] + plain_hints(
                "rerun `robo init . --force` when you are ready to migrate this generated file"@,
            ),
            1,
        ),
    }
}

pub fn check_schema_version(config: Config, runtime: &ProjectRuntime, warnings: &mut usize) -> (r: Vec<String>)
    requires
        *old(warnings) < usize::MAX,
    ensures
        *final(warnings) == *old(warnings) + schema_report(opt_str(runtime.schema_version)).1,
        renders_lines(config, strs(r@), schema_report(opt_str(runtime.schema_version)).0),
{
    let mut out = Rendered::new(config);
    match &runtime.schema_version {
        Some(v) => {
            if crate::text::str_eq(v.as_str(), "1") {
                out.push(config, check_ok(config, "robo.nix schema version is 1"), Ghost(plain_line("ok:"@, "robo.nix schema version is 1"@)));
            } else {
                let m = concat3("robo.nix schema version ", v.as_str(), " is newer than this robo supports");
                out.push(config, check_warn_diag(config, warnings, "runtime.files-missing-or-stale", m.as_str()), Ghost(plain_line(diag_tag("warn"@, "runtime.files-missing-or-stale"@), m@)));
                let h = "upgrade robo-nix or regenerate with `robo init . --force` after reviewing local edits";
                out.append(config, check_hint(config, h), Ghost(plain_hints(h@)));
            }
        },
        None => {
            out.push(config, check_warn_diag(config, warnings, "runtime.files-missing-or-stale", "robo.nix schema version is missing"), Ghost(plain_line(diag_tag("warn"@, "runtime.files-missing-or-stale"@), "robo.nix schema version is missing"@)));
            let h = "rerun `robo init . --force` when you are ready to migrate this generated file";
            out.append(config, check_hint(config, h), Ghost(plain_hints(h@)));
        },
    }
    assert(out.plain@ =~= schema_report(opt_str(runtime.schema_version)).0);
    out.lines
}

/// The uv files check: the lockfile and the virtualenv.
pub open spec fn uv_files_report(uv_lock: bool, venv: bool) -> (Seq<Seq<char>>, nat) {
    let (a, aw) = if uv_lock {
        (seq![plain_line("ok:"@, "uv.lock is present"@)], 0nat)
    } else {
        (
            seq![plain_line(diag_tag("warn"@, "python.project-files-missing"@), "uv.lock is missing"@)] + plain_hints(
                "run 'robo shell', then run 'uv sync' after defining pyproject.toml dependencies"@,
            ),
            1nat,
        )
    };
    let (b, bw) = if venv {
        (seq![plain_line("ok:"@, "uv virtual environment exists"@)], 0nat)
    } else {
        (
            seq![plain_line(diag_tag("warn"@, "python.env-missing"@), "uv virtual environment is missing"@)] + plain_hints(
                "run 'robo shell', then run 'uv sync' to create .venv"@,
            ),
            1nat,
        )
    };
    (a + b, aw + bw)
}

pub fn check_uv_files(config: Config, uv_lock_exists: bool, venv_exists: bool, warnings: &mut usize) -> (r: Vec<String>)
    requires
        *old(warnings) + 2 <= usize::MAX,
    ensures
        *final(warnings) == *old(warnings) + uv_files_report(uv_lock_exists, venv_exists).1,
        renders_lines(config, strs(r@), uv_files_report(uv_lock_exists, venv_exists).0),
{
    let mut out = Rendered::new(config);
    if uv_lock_exists {
        out.push(config, check_ok(config, "uv.lock is present"), Ghost(plain_line("ok:"@, "uv.lock is present"@)));
    } else {
        out.push(
            config,
            check_warn_diag(config, warnings, "python.project-files-missing", "uv.lock is missing"),
            Ghost(plain_line(diag_tag("warn"@, "python.project-files-missing"@), "uv.lock is missing"@)),
        );
        let h = "run 'robo shell', then run 'uv sync' after defining pyproject.toml dependencies";
        out.append(config, check_hint(config, h), Ghost(plain_hints(h@)));
    }
    let ghost first = out.plain@;
    if venv_exists {
        out.push(config, check_ok(config, "uv virtual environment exists"), Ghost(plain_line("ok:"@, "uv virtual environment exists"@)));
    } else {
        out.push(
            config,
            check_warn_diag(config, warnings, "python.env-missing", "uv virtual environment is missing"),
            Ghost(plain_line(diag_tag("warn"@, "python.env-missing"@), "uv virtual environment is missing"@)),
        );
        let h = "run 'robo shell', then run 'uv sync' to create .venv";
        out.append(config, check_hint(config, h), Ghost(plain_hints(h@)));
    }
    assert(out.plain@ =~= uv_files_report(uv_lock_exists, venv_exists).0);
    out.lines
}

/// The suggestions check: each suggestion reviewed, with what to do.
pub open spec fn suggestions_text(ss: Seq<crate::runtime::RuntimeSuggestion>) -> Seq<Seq<char>>
    decreases ss.len(),
{
    if ss.len() == 0 {
        Seq::empty()
    } else {
        let s = ss.last();
        suggestions_text(ss.drop_last()) + seq![
            plain_line("suggestion:"@, "review "@ + s.kind@ + " "@ + s.path@ + ": "@ + s.reason@),
        ] + (if s.kind@ == "bootstrap"@ {
            plain_hints(
                "delete this stale bootstrap suggestion; bootstrap blocks should come from explicit project policy"@,
            )
        } else {
            plain_hints(
                "add `"@ + s.path@ + "` to requiredFiles or requiredDirectories in robo.nix only if bootstrap really needs it"@,
            )
        })
    }
}

pub fn check_suggestions(config: Config, runtime: &ProjectRuntime) -> (r: Vec<String>)
    ensures
        renders_lines(config, strs(r@), suggestions_text(runtime.suggestions@)),
{
    let ghost ss = runtime.suggestions@;
    let mut out = Rendered::new(config);
    let mut i: usize = 0;
    while i < runtime.suggestions.len()
        invariant
            i <= runtime.suggestions.len(),
            ss == runtime.suggestions@,
            out.fits(config),
            out.plain@ == suggestions_text(ss.take(i as int)),
        decreases runtime.suggestions.len() - i,
    {
        assert(ss.take(i + 1).drop_last() == ss.take(i as int));
        let s = &runtime.suggestions[i];
        let message = concat4(concat("review ", s.kind.as_str()).as_str(), " ", s.path.as_str(), concat(": ", s.reason.as_str()).as_str());
        assert(message@ =~= "review "@ + s.kind@ + " "@ + s.path@ + ": "@ + s.reason@);
        assert(ss.take(i + 1).last() == ss[i as int]);
        out.push(config, check_line(config, "suggestion:", LabelKind::Warn, message.as_str()), Ghost(plain_line("suggestion:"@, message@)));
        let h = if crate::text::str_eq(s.kind.as_str(), "bootstrap") {
            "delete this stale bootstrap suggestion; bootstrap blocks should come from explicit project policy".to_string()
        } else {
            concat3("add `", s.path.as_str(), "` to requiredFiles or requiredDirectories in robo.nix only if bootstrap really needs it")
        };
        out.append(config, check_hint(config, h.as_str()), Ghost(plain_hints(h@)));
        assert(out.plain@ =~= suggestions_text(ss.take(i + 1)));
        i = i + 1;
    }
    assert(ss.take(runtime.suggestions.len() as int) == ss);
    out.lines
}

/// The runtime footer of the detailed check: the next steps and the status.
pub open spec fn detailed_footer_text(deep: bool, issues: nat, warnings: nat) -> Seq<Seq<char>> {
    if issues == 0 {
        seq![
            plain_line("next:"@, if deep {
                "run 'robo dry-run' if you want a bootstrap-only validation pass"@
            } else {
                "run 'robo check --deep' before debugging native runtime failures"@
            }),
            plain_line("next:"@, "run 'robo shell' to enter the environment"@),
            plain_status("ok"@, 0, warnings),
        ]
    } else {
        seq![
            plain_line("next:"@, "fix the issues above and rerun 'robo check --deep'"@),
            plain_status("error"@, issues, warnings),
        ]
    }
}

/// The closing lines of `robo check --verbose` and whether it passed.
pub fn detailed_footer(config: Config, deep: bool, issues: usize, warnings: usize) -> (r: (Vec<String>, bool))
    ensures
        r.1 == (issues == 0),
        renders_lines(config, strs(r.0@), detailed_footer_text(deep, issues as nat, warnings as nat)),
{
    let mut out = Rendered::new(config);
    if issues == 0 {
        if deep {
            out.push(
                config,
                check_next(config, "run 'robo dry-run' if you want a bootstrap-only validation pass"),
                Ghost(plain_line("next:"@, "run 'robo dry-run' if you want a bootstrap-only validation pass"@)),
            );
        } else {
            out.push(
                config,
                check_next(config, "run 'robo check --deep' before debugging native runtime failures"),
                Ghost(plain_line("next:"@, "run 'robo check --deep' before debugging native runtime failures"@)),
            );
        }
        out.push(
            config,
            check_next(config, "run 'robo shell' to enter the environment"),
            Ghost(plain_line("next:"@, "run 'robo shell' to enter the environment"@)),
        );
        out.push(config, check_status(config, "ok", LabelKind::Pass, 0, warnings), Ghost(plain_status("ok"@, 0, warnings as nat)));
    } else {
        out.push(
            config,
            check_next(config, "fix the issues above and rerun 'robo check --deep'"),
            Ghost(plain_line("next:"@, "fix the issues above and rerun 'robo check --deep'"@)),
        );
        out.push(
            config,
            check_status(config, "error", LabelKind::Error, issues, warnings),
            Ghost(plain_status("error"@, issues as nat, warnings as nat)),
        );
    }
    assert(out.plain@ =~= detailed_footer_text(deep, issues as nat, warnings as nat));
    (out.lines, issues == 0)
}

/// The expected-components check, entry by entry: each implied component
/// the runtime lacks is warned about with its reason; the lines, the
/// warnings added and the components found.
pub open spec fn expected_report(pairs: Seq<(Seq<char>, Seq<char>)>, runtime: ProjectRuntime) -> (Seq<Seq<char>>, nat, Seq<Seq<char>>)
    decreases pairs.len(),
{
    if pairs.len() == 0 {
        (Seq::empty(), 0, Seq::empty())
    } else {
        let (ls, w, matched) = expected_report(pairs.drop_last(), runtime);
        let (name, reason) = pairs.last();
        if has_component(runtime, name) {
            (ls, w, matched.push(name))
        } else {
            (
                ls + seq![plain_line(diag_tag("warn"@, "runtime.components-incomplete"@), "pyproject.toml implies component "@ + name + " but robo.nix does not select it"@)]
                    + plain_hints("reason: "@ + reason + "; rerun `robo init . --force` or add `"@ + name + "` to components"@),
                w + 1,
                matched,
            )
        }
    }
}

pub open spec fn expected_components_text(pairs: Seq<(Seq<char>, Seq<char>)>, runtime: ProjectRuntime) -> Seq<Seq<char>> {
    let (ls, w, matched) = expected_report(pairs, runtime);
    ls + (if matched.len() > 0 {
        seq![plain_line("ok:"@, "pyproject runtime expectations satisfied ("@ + join(matched, ", "@) + ")"@)]
    } else {
        Seq::empty()
    })
}


/// The components `pyproject.toml` implies (with their reasons) against
/// the runtime; nothing without a `pyproject.toml`.
pub fn check_expected_components(
    config: Config,
    runtime: &ProjectRuntime,
    expected: Option<&Vec<(String, String)>>,
    warnings: &mut usize,
) -> (r: Vec<String>)
    requires
        expected matches Some(e) ==> *old(warnings) + e@.len() <= usize::MAX,
    ensures
        match expected {
            Some(e) => {
                &&& *final(warnings) == *old(warnings) + expected_report(crate::why::pairs_view(e@), *runtime).1
                &&& renders_lines(config, strs(r@), expected_components_text(crate::why::pairs_view(e@), *runtime))
            },
            None => *final(warnings) == *old(warnings) && r@.len() == 0,
        },
{
    let mut out = Rendered::new(config);
    let pairs = match expected {
        Some(e) => e,
        None => {
            return out.lines;
        },
    };
    let ghost pv = crate::why::pairs_view(pairs@);
    let ghost w0 = *warnings;
    let mut matched: Vec<String> = Vec::new();
    let mut i: usize = 0;
    while i < pairs.len()
        invariant
            i <= pairs.len(),
            pv == crate::why::pairs_view(pairs@),
            w0 + pairs@.len() <= usize::MAX,
            *warnings == w0 + expected_report(pv.take(i as int), *runtime).1,
            expected_report(pv.take(i as int), *runtime).1 <= i,
            strs(matched@) == expected_report(pv.take(i as int), *runtime).2,
            out.fits(config),
            out.plain@ == expected_report(pv.take(i as int), *runtime).0,
        decreases pairs.len() - i,
    {
        assert(pv.take(i + 1).drop_last() == pv.take(i as int));
        assert(pv.take(i + 1).last() == (pairs@[i as int].0@, pairs@[i as int].1@));
        let name = pairs[i].0.as_str();
        if runtime_has_component(runtime, name) {
            let ghost prev = matched@;
            matched.push(pairs[i].0.clone());
            assert(strs(matched@) =~= strs(prev).push(name@));
        } else {
            let m = concat3("pyproject.toml implies component ", name, " but robo.nix does not select it");
            let line = check_warn_diag(config, warnings, "runtime.components-incomplete", m.as_str());
            out.push(config, line, Ghost(plain_line(diag_tag("warn"@, "runtime.components-incomplete"@), m@)));
            let h = crate::text::concat4(concat("reason: ", pairs[i].1.as_str()).as_str(), "; rerun `robo init . --force` or add `", name, "` to components");
            out.append(config, check_hint(config, h.as_str()), Ghost(plain_hints(h@)));
            assert(out.plain@ =~= expected_report(pv.take(i + 1), *runtime).0);
        }
        i = i + 1;
    }
    assert(pv.take(pairs.len() as int) == pv);
    if matched.len() > 0 {
        let m = concat3("pyproject runtime expectations satisfied (", join_strings(&matched, ", ").as_str(), ")");
        out.push(config, check_ok(config, m.as_str()), Ghost(plain_line("ok:"@, m@)));
    }
    proof {
        {
            assert(out.plain@ =~= expected_components_text(pv, *runtime));
        }
    }
    out.lines
}

/// One group of required paths: each missing one is an issue with its
/// remediation; the count of present ones is reported when any are.
pub open spec fn paths_report(paths: Seq<(Seq<char>, Seq<char>, bool)>, id: Seq<char>, missing: Seq<char>) -> (Seq<Seq<char>>, nat, nat)
    decreases paths.len(),
{
    if paths.len() == 0 {
        (Seq::empty(), 0, 0)
    } else {
        let (ls, issues, present) = paths_report(paths.drop_last(), id, missing);
        let (name, hint, exists) = paths.last();
        if exists {
            (ls, issues, present + 1)
        } else {
            (ls + seq![plain_line(diag_tag("error"@, id), missing + name)] + plain_hints(hint), issues + 1, present)
        }
    }
}

pub open spec fn paths_text(paths: Seq<(Seq<char>, Seq<char>, bool)>, id: Seq<char>, missing: Seq<char>, present: Seq<char>) -> Seq<Seq<char>> {
    let (ls, issues, n) = paths_report(paths, id, missing);
    ls + (if n > 0 {
        seq![plain_line("ok:"@, present + " ("@ + decimal(n) + ")"@)]
    } else {
        Seq::empty()
    })
}

pub open spec fn path_views(v: Seq<(String, String, bool)>) -> Seq<(Seq<char>, Seq<char>, bool)> {
    v.map_values(|p: (String, String, bool)| (p.0@, p.1@, p.2))
}

/// Checks one group of required paths (name, remediation hint, whether it
/// exists).
pub fn check_path_group(
    config: Config,
    paths: &Vec<(String, String, bool)>,
    id: &str,
    missing: &str,
    present: &str,
    issues: &mut usize,
) -> (r: Vec<String>)
    requires
        *old(issues) + paths@.len() <= usize::MAX,
    ensures
        *final(issues) == *old(issues) + paths_report(path_views(paths@), id@, missing@).1,
        paths_report(path_views(paths@), id@, missing@).1 <= paths@.len(),
        renders_lines(config, strs(r@), paths_text(path_views(paths@), id@, missing@, present@)),
{
    let ghost pv = path_views(paths@);
    let ghost i0 = *issues;
    let mut out = Rendered::new(config);
    let mut count: usize = 0;
    let mut i: usize = 0;
    while i < paths.len()
        invariant
            i <= paths.len(),
            pv == path_views(paths@),
            i0 + paths@.len() <= usize::MAX,
            *issues == i0 + paths_report(pv.take(i as int), id@, missing@).1,
            paths_report(pv.take(i as int), id@, missing@).1 + paths_report(pv.take(i as int), id@, missing@).2 == i,
            count == paths_report(pv.take(i as int), id@, missing@).2,
            out.fits(config),
            out.plain@ == paths_report(pv.take(i as int), id@, missing@).0,
        decreases paths.len() - i,
    {
        assert(pv.take(i + 1).drop_last() == pv.take(i as int));
        assert(pv.take(i + 1).last() == (paths@[i as int].0@, paths@[i as int].1@, paths@[i as int].2));
        if paths[i].2 {
            count = count + 1;
        } else {
            let m = concat(missing, paths[i].0.as_str());
            out.push(config, check_error_diag(config, issues, id, m.as_str()), Ghost(plain_line(diag_tag("error"@, id@), m@)));
            out.append(config, check_hint(config, paths[i].1.as_str()), Ghost(plain_hints(paths@[i as int].1@)));
            assert(out.plain@ =~= paths_report(pv.take(i + 1), id@, missing@).0);
        }
        i = i + 1;
    }
    assert(pv.take(paths.len() as int) == pv);
    if count > 0 {
        let m = crate::text::concat4(present, " (", crate::text::decimal_string(count as u64).as_str(), ")");
        out.push(config, check_ok(config, m.as_str()), Ghost(plain_line("ok:"@, m@)));
    }
    proof {
        {
            assert(out.plain@ =~= paths_text(pv, id@, missing@, present@));
        }
    }
    out.lines
}

/// The graphics environment check of the detailed report.
pub open spec fn graphics_environment_text(forced: Option<Seq<char>>) -> (Seq<Seq<char>>, nat) {
    match forced {
        Some(v) => (
            seq![plain_line(diag_tag("warn"@, "graphics.mujoco-gl-forced"@), "MuJoCo GL backend forced by MUJOCO_GL="@ + v)] + plain_hints(
                "desktop GLFW viewers usually need MUJOCO_GL unset; headless probes may set it narrowly"@,
            ),
            1,
        ),
        None => (Seq::empty(), 0),
    }
}

pub fn check_graphics_environment(
    config: Config,
    runtime: &ProjectRuntime,
    mujoco_gl: Option<&str>,
    default_mujoco_gl: Option<&str>,
    warnings: &mut usize,
) -> (r: Vec<String>)
    requires
        *old(warnings) < usize::MAX,
    ensures
        ({
            let forced = crate::check::summary::forced_gl(
                *runtime,
                crate::host_bridge::opt_text(mujoco_gl),
                crate::host_bridge::opt_text(default_mujoco_gl),
            );
            &&& *final(warnings) == *old(warnings) + graphics_environment_text(forced).1
            &&& renders_lines(config, strs(r@), graphics_environment_text(forced).0)
        }),
{
    let mut out = Rendered::new(config);
    match crate::check::summary::forced_mujoco_gl(runtime, mujoco_gl, default_mujoco_gl) {
        Some(v) => {
            let m = concat("MuJoCo GL backend forced by MUJOCO_GL=", v.as_str());
            out.push(
                config,
                check_warn_diag(config, warnings, "graphics.mujoco-gl-forced", m.as_str()),
                Ghost(plain_line(diag_tag("warn"@, "graphics.mujoco-gl-forced"@), m@)),
            );
            let h = "desktop GLFW viewers usually need MUJOCO_GL unset; headless probes may set it narrowly";
            out.append(config, check_hint(config, h), Ghost(plain_hints(h@)));
        },
        None => {},
    }
    proof {
        {
            let forced = crate::check::summary::forced_gl(
                *runtime,
                crate::host_bridge::opt_text(mujoco_gl),
                crate::host_bridge::opt_text(default_mujoco_gl),
            );
            assert(out.plain@ =~= graphics_environment_text(forced).0);
        }
    }
    out.lines
}

// ---------------------------------------------------------------------
// What the focused checks conclude
// ---------------------------------------------------------------------

/// What `robo check` without a domain concludes.
pub enum DefaultCheck {
    /// The `robo.nix` schema is missing or newer than understood.
    UntrustedSchema,
    /// Components the dependencies imply are missing, with their reasons.
    MissingComponents(Vec<(String, String)>),
    /// The virtualenv was made outside the runtime, from this interpreter.
    HostPython(String),
    /// No virtualenv yet.
    NotSynced,
    /// Native build tools installed as wheels.
    NativeShims(Vec<String>),
    /// Ready; whether the CUDA check is worth suggesting.
    Ready(bool),
}

/// The implied components the runtime lacks, in order.
pub open spec fn missing_pairs(pairs: Seq<(Seq<char>, Seq<char>)>, runtime: ProjectRuntime) -> Seq<(Seq<char>, Seq<char>)> {
    pairs.filter(|p: (Seq<char>, Seq<char>)| !has_component(runtime, p.0))
}

/// The order of the default check: the schema, then missing components,
/// then the virtualenv, then native tool shims.
pub open spec fn default_check_spec(
    runtime: ProjectRuntime,
    expected: Seq<(Seq<char>, Seq<char>)>,
    origin: PythonEnvironmentOrigin,
    shims: Seq<Seq<char>>,
    plan: CudaCheckPlan,
    r: DefaultCheck,
) -> bool {
    if opt_str(runtime.schema_version) != Some("1"@) {
        r is UntrustedSchema
    } else if missing_pairs(expected, runtime).len() > 0 {
        r matches DefaultCheck::MissingComponents(m) && crate::why::pairs_view(m@) == missing_pairs(expected, runtime)
    } else {
        match origin {
            PythonEnvironmentOrigin::HostBacked(o) => r matches DefaultCheck::HostPython(x) && x@ == o@,
            PythonEnvironmentOrigin::Missing => r is NotSynced,
            PythonEnvironmentOrigin::NixBacked(_) => if shims.len() > 0 {
                r matches DefaultCheck::NativeShims(v) && strs(v@) == shims
            } else {
                r == DefaultCheck::Ready(plan.host_required || plan.toolkit_required)
            },
        }
    }
}

fn missing_expected(runtime: &ProjectRuntime, expected: &Vec<(String, String)>) -> (r: Vec<(String, String)>)
    ensures
        crate::why::pairs_view(r@) == missing_pairs(crate::why::pairs_view(expected@), *runtime),
{
    let ghost ev = crate::why::pairs_view(expected@);
    let ghost pred = |p: (Seq<char>, Seq<char>)| !has_component(*runtime, p.0);
    let mut out: Vec<(String, String)> = Vec::new();
    let mut i: usize = 0;
    while i < expected.len()
        invariant
            i <= expected.len(),
            ev == crate::why::pairs_view(expected@),
            pred == (|p: (Seq<char>, Seq<char>)| !has_component(*runtime, p.0)),
            crate::why::pairs_view(out@) == ev.take(i as int).filter(pred),
        decreases expected.len() - i,
    {
        proof {
            assert(ev.take(i + 1) =~= ev.take(i as int).push(ev[i as int]));
            ev.take(i as int).lemma_filter_push(ev[i as int], pred);
        }
        if !runtime_has_component(runtime, expected[i].0.as_str()) {
            let ghost prev = out@;
            out.push((expected[i].0.clone(), expected[i].1.clone()));
            assert(crate::why::pairs_view(out@) =~= crate::why::pairs_view(prev).push(ev[i as int]));
        }
        i = i + 1;
    }
    assert(ev.take(expected.len() as int) == ev);
    out
}

pub fn default_check(
    runtime: &ProjectRuntime,
    expected: &Vec<(String, String)>,
    origin: &PythonEnvironmentOrigin,
    shims: &Vec<String>,
    plan: &CudaCheckPlan,
) -> (r: DefaultCheck)
    ensures
        default_check_spec(*runtime, crate::why::pairs_view(expected@), *origin, strs(shims@), *plan, r),
{
    let schema_ok = match &runtime.schema_version {
        Some(v) => crate::text::str_eq(v.as_str(), "1"),
        None => false,
    };
    if !schema_ok {
        return DefaultCheck::UntrustedSchema;
    }
    let missing = missing_expected(runtime, expected);
    if missing.len() > 0 {
        return DefaultCheck::MissingComponents(missing);
    }
    match origin {
        PythonEnvironmentOrigin::HostBacked(o) => DefaultCheck::HostPython(o.clone()),
        PythonEnvironmentOrigin::Missing => DefaultCheck::NotSynced,
        PythonEnvironmentOrigin::NixBacked(_) => {
            if shims.len() > 0 {
                DefaultCheck::NativeShims(crate::text::clone_strings(shims))
            } else {
                DefaultCheck::Ready(plan.needed())
            }
        },
    }
}

fn add_line(out: &mut Vec<String>, line: String)
    ensures
        strs(final(out)@) == strs(old(out)@).push(line@),
{
    out.push(line);
    proof {
        crate::text::lemma_strs_push(old(out)@, line);
    }
}

/// A command to run, indented.
fn command_line(config: Config, command: &str) -> (r: String)
    ensures
        renders(config, r@, "  "@ + command@),
{
    let shown = crate::ui::label(config, command, LabelKind::Command);
    proof {
        lemma_shows_itself("  "@);
        lemma_shows_concat("  "@, "  "@, shown@, command@);
    }
    concat("  ", shown.as_str())
}

/// A labelled message.
fn tagged_line(config: Config, tag: &str, kind: LabelKind, message: &str) -> (r: String)
    ensures
        renders(config, r@, plain_line(tag@, message@)),
{
    let a = crate::ui::label(config, tag, kind);
    let b = crate::ui::inline(config, message);
    proof {
        reveal_strlit(" ");
        lemma_shows_itself(" "@);
        lemma_shows_concat3(a@, tag@, " "@, " "@, b@, message@);
    }
    concat3(a.as_str(), " ", b.as_str())
}

/// A labelled command.
fn tagged_command(config: Config, tag: &str, kind: LabelKind, command: &str) -> (r: String)
    ensures
        renders(config, r@, plain_line(tag@, command@)),
{
    let a = crate::ui::label(config, tag, kind);
    let b = crate::ui::label(config, command, LabelKind::Command);
    proof {
        reveal_strlit(" ");
        lemma_shows_itself(" "@);
        lemma_shows_concat3(a@, tag@, " "@, " "@, b@, command@);
    }
    concat3(a.as_str(), " ", b.as_str())
}

/// A missing component and why it is expected.
pub open spec fn missing_lines(ms: Seq<(Seq<char>, Seq<char>)>) -> Seq<Seq<char>> {
    ms.map_values(|m: (Seq<char>, Seq<char>)| "- "@ + m.0 + ": "@ + m.1)
}

/// The ready message of a runtime.
pub open spec fn ready_line(env_name: Seq<char>) -> Seq<char> {
    plain_line("ready:"@, "runtime is prepared for `"@ + env_name + "`"@)
}

/// What `robo check` prints (without colour) for the default check's
/// verdict, and the exit code it ends with.
pub open spec fn default_check_report(env_name: Seq<char>, c: DefaultCheck) -> (Seq<Seq<char>>, u8) {
    match c {
        DefaultCheck::UntrustedSchema => (
            seq![
                "robo cannot trust this runtime contract yet."@,
                Seq::empty(),
                "The generated robo.nix schema is missing or newer than this CLI understands."@,
                "Review local edits, then regenerate the runtime files:"@,
                "  "@ + "robo init . --force"@,
            ],
            1,
        ),
        DefaultCheck::MissingComponents(ms) => (
            seq!["robo may be missing runtime components for "@ + env_name + "."@, Seq::empty()]
                + missing_lines(crate::why::pairs_view(ms@)) + seq![
                Seq::empty(),
                "Review robo.nix, then refresh the runtime:"@,
                "  "@ + "robo build"@,
            ],
            1,
        ),
        DefaultCheck::HostPython(origin) => (
            seq![
                "robo is blocked for "@ + env_name + "."@,
                Seq::empty(),
                "The Python environment was created outside the robo runtime."@,
                "Found interpreter origin: "@ + origin@,
                Seq::empty(),
                "Recreate it inside the runtime:"@,
                "  "@ + "robo shell"@,
                "  "@ + "uv venv --python \"$ROBO_NIX_PYTHON\" --clear"@,
                "  "@ + "uv sync"@,
            ],
            1,
        ),
        DefaultCheck::NotSynced => (
            seq![
                ready_line(env_name),
                Seq::empty(),
                plain_line("python:"@, "packages are not synced yet"@),
                plain_line("owner:"@, "uv owns package sync; use the command documented by this project"@),
                plain_line("default:"@, "uv sync"@),
            ],
            0,
        ),
        DefaultCheck::NativeShims(tools) => (
            seq![
                "robo found Python-owned native build tool shims."@,
                Seq::empty(),
                "Found: "@ + join(strs(tools@), ", "@),
                "Nix should own CMake, Ninja, compilers, and native build tools."@,
                Seq::empty(),
                "If native builds fail, run:"@,
                "  "@ + "robo check native --verbose"@,
            ],
            0,
        ),
        DefaultCheck::Ready(cuda) => (
            seq![
                ready_line(env_name),
                Seq::empty(),
                plain_line("runtime:"@, "Nix runtime, uv Python environment, and inferred components are aligned"@),
                plain_line("diagnostics:"@, "run a focused check when a runtime area fails"@),
                "  "@ + "robo check graphics"@,
                "  "@ + "robo check native"@,
            ] + (if cuda {
                seq!["  "@ + "robo check cuda"@]
            } else {
                Seq::empty()
            }) + seq!["  "@ + "robo check --deep"@],
            0,
        ),
    }
}

/// The lines `robo check` prints for the default check's verdict, and its
/// exit code.
pub fn default_check_lines(config: Config, env_name: &str, c: &DefaultCheck) -> (r: (Vec<String>, u8))
    ensures
        r.1 == default_check_report(env_name@, *c).1,
        renders_lines(config, strs(r.0@), default_check_report(env_name@, *c).0),
{
    let mut out = Rendered::new(config);
    match c {
        DefaultCheck::UntrustedSchema => {
            out.push_text(config, "robo cannot trust this runtime contract yet.".to_string());
            out.push_text(config, String::new());
            out.push_text(config, "The generated robo.nix schema is missing or newer than this CLI understands.".to_string());
            out.push_text(config, "Review local edits, then regenerate the runtime files:".to_string());
            out.push(config, command_line(config, "robo init . --force"), Ghost("  "@ + "robo init . --force"@));
            proof {
                {
                    assert(out.plain@ =~= default_check_report(env_name@, *c).0);
                }
            }
            (out.lines, 1)
        },
        DefaultCheck::MissingComponents(ms) => {
            out.push_text(config, concat3("robo may be missing runtime components for ", env_name, "."));
            out.push_text(config, String::new());
            let ghost head = out.plain@;
            let ghost mv = crate::why::pairs_view(ms@);
            let mut i: usize = 0;
            while i < ms.len()
                invariant
                    out.fits(config),
                    i <= ms.len(),
                    mv == crate::why::pairs_view(ms@),
                    out.plain@ == head + missing_lines(mv.take(i as int)),
                decreases ms.len() - i,
            {
                out.push_text(config, concat4("- ", ms[i].0.as_str(), ": ", ms[i].1.as_str()));
                assert(missing_lines(mv.take(i + 1)) =~= missing_lines(mv.take(i as int)).push(
                    "- "@ + mv[i as int].0 + ": "@ + mv[i as int].1,
                ));
                i = i + 1;
            }
            assert(mv.take(ms.len() as int) =~= mv);
            let ghost mid = out.plain@;
            out.push_text(config, String::new());
            out.push_text(config, "Review robo.nix, then refresh the runtime:".to_string());
            out.push(config, command_line(config, "robo build"), Ghost("  "@ + "robo build"@));
            proof {
                {
                    assert(head =~= seq!["robo may be missing runtime components for "@ + env_name@ + "."@, Seq::empty()]);
                    assert(out.plain@ =~= mid + seq![Seq::empty(), "Review robo.nix, then refresh the runtime:"@, "  "@ + "robo build"@]);
                    assert(out.plain@ =~= default_check_report(env_name@, *c).0);
                }
            }
            (out.lines, 1)
        },
        DefaultCheck::HostPython(origin) => {
            out.push_text(config, concat3("robo is blocked for ", env_name, "."));
            out.push_text(config, String::new());
            out.push_text(config, "The Python environment was created outside the robo runtime.".to_string());
            out.push_text(config, concat("Found interpreter origin: ", origin.as_str()));
            out.push_text(config, String::new());
            out.push_text(config, "Recreate it inside the runtime:".to_string());
            out.push(config, command_line(config, "robo shell"), Ghost("  "@ + "robo shell"@));
            out.push(config, command_line(config, "uv venv --python \"$ROBO_NIX_PYTHON\" --clear"), Ghost("  "@ + "uv venv --python \"$ROBO_NIX_PYTHON\" --clear"@));
            out.push(config, command_line(config, "uv sync"), Ghost("  "@ + "uv sync"@));
            proof {
                {
                    assert(out.plain@ =~= default_check_report(env_name@, *c).0);
                }
            }
            (out.lines, 1)
        },
        DefaultCheck::NotSynced => {
            let ready = concat3("runtime is prepared for `", env_name, "`");
            out.push(config, tagged_line(config, "ready:", LabelKind::Pass, ready.as_str()), Ghost(plain_line("ready:"@, ready@)));
            out.push_text(config, String::new());
            out.push(config, tagged_line(config, "python:", LabelKind::Warn, "packages are not synced yet"), Ghost(plain_line("python:"@, "packages are not synced yet"@)));
            out.push(config, tagged_line(
                config,
                "owner:",
                LabelKind::Status,
                "uv owns package sync; use the command documented by this project",
            ), Ghost(plain_line("owner:"@, "uv owns package sync; use the command documented by this project"@)));
            out.push(config, tagged_command(config, "default:", LabelKind::Hint, "uv sync"), Ghost(plain_line("default:"@, "uv sync"@)));
            proof {
                {
                    assert(out.plain@ =~= default_check_report(env_name@, *c).0);
                }
            }
            (out.lines, 0)
        },
        DefaultCheck::NativeShims(tools) => {
            out.push_text(config, "robo found Python-owned native build tool shims.".to_string());
            out.push_text(config, String::new());
            out.push_text(config, concat("Found: ", join_strings(tools, ", ").as_str()));
            out.push_text(config, "Nix should own CMake, Ninja, compilers, and native build tools.".to_string());
            out.push_text(config, String::new());
            out.push_text(config, "If native builds fail, run:".to_string());
            out.push(config, command_line(config, "robo check native --verbose"), Ghost("  "@ + "robo check native --verbose"@));
            proof {
                {
                    assert(out.plain@ =~= default_check_report(env_name@, *c).0);
                }
            }
            (out.lines, 0)
        },
        DefaultCheck::Ready(cuda) => {
            let ready = concat3("runtime is prepared for `", env_name, "`");
            out.push(config, tagged_line(config, "ready:", LabelKind::Pass, ready.as_str()), Ghost(plain_line("ready:"@, ready@)));
            out.push_text(config, String::new());
            out.push(config, tagged_line(
                config,
                "runtime:",
                LabelKind::Status,
                "Nix runtime, uv Python environment, and inferred components are aligned",
            ), Ghost(plain_line("runtime:"@, "Nix runtime, uv Python environment, and inferred components are aligned"@)));
            out.push(config, tagged_line(
                config,
                "diagnostics:",
                LabelKind::Status,
                "run a focused check when a runtime area fails",
            ), Ghost(plain_line("diagnostics:"@, "run a focused check when a runtime area fails"@)));
            out.push(config, command_line(config, "robo check graphics"), Ghost("  "@ + "robo check graphics"@));
            out.push(config, command_line(config, "robo check native"), Ghost("  "@ + "robo check native"@));
            let ghost mid = out.plain@;
            if *cuda {
                out.push(config, command_line(config, "robo check cuda"), Ghost("  "@ + "robo check cuda"@));
            }
            let ghost late = out.plain@;
            out.push(config, command_line(config, "robo check --deep"), Ghost("  "@ + "robo check --deep"@));
            proof {
                {
                    assert(late =~= mid + (if *cuda {
                        seq!["  "@ + "robo check cuda"@]
                    } else {
                        Seq::empty()
                    }));
                    assert(out.plain@ =~= default_check_report(env_name@, *c).0);
                }
            }
            (out.lines, 0)
        },
    }
}

/// What `robo check graphics` decides before probing.
#[derive(PartialEq, Eq)]
pub enum GraphicsGate {
    NotRequired,
    /// `MUJOCO_GL` forces a backend, with its value.
    MujocoGlForced(String),
    /// Graphics are needed but `desktop-gl` is not selected.
    DesktopGlMissing,
    /// Probe the EGL and display runtime.
    Probe,
}

pub fn graphics_gate(runtime: &ProjectRuntime, mujoco_gl: Option<&str>, default_mujoco_gl: Option<&str>) -> (r: GraphicsGate)
    ensures
        !graphics_needed(*runtime) ==> r is NotRequired,
        graphics_needed(*runtime) ==> match crate::check::summary::forced_gl(
            *runtime,
            crate::host_bridge::opt_text(mujoco_gl),
            crate::host_bridge::opt_text(default_mujoco_gl),
        ) {
            Some(v) => r matches GraphicsGate::MujocoGlForced(x) && x@ == v,
            None => if has_component(*runtime, "desktop-gl"@) {
                r is Probe
            } else {
                r is DesktopGlMissing
            },
        },
{
    if !graphics_relevant(runtime) {
        return GraphicsGate::NotRequired;
    }
    match crate::check::summary::forced_mujoco_gl(runtime, mujoco_gl, default_mujoco_gl) {
        Some(v) => GraphicsGate::MujocoGlForced(v),
        None => {
            if has_display_gl(runtime) {
                GraphicsGate::Probe
            } else {
                GraphicsGate::DesktopGlMissing
            }
        },
    }
}

/// What `robo check graphics` prints (without colour) for a gate that ends
/// the check, and the exit code; nothing and no code when it goes on to
/// probe.
pub open spec fn graphics_gate_report(g: GraphicsGate) -> (Seq<Seq<char>>, Option<u8>) {
    match g {
        GraphicsGate::NotRequired => (seq!["Graphics runtime is not required by this project."@], Some(0u8)),
        GraphicsGate::MujocoGlForced(v) => (
            seq![
                "Graphics runtime is blocked by MUJOCO_GL."@,
                Seq::empty(),
                "Found MUJOCO_GL="@ + v@ + "."@,
                "Desktop GLFW viewers usually need this unset."@,
                Seq::empty(),
                "Try:"@,
                "  "@ + "unset MUJOCO_GL"@,
                "  "@ + "robo check graphics"@,
            ],
            Some(1u8),
        ),
        GraphicsGate::DesktopGlMissing => (
            seq![
                "Graphics runtime is not selected for this project."@,
                Seq::empty(),
                "This runtime appears to need desktop graphics, but robo.nix does not include `desktop-gl`."@,
                Seq::empty(),
                "Add `desktop-gl` to components in robo.nix, then run:"@,
                "  "@ + "robo build"@,
            ],
            Some(1u8),
        ),
        GraphicsGate::Probe => (Seq::empty(), None),
    }
}

pub fn graphics_gate_lines(config: Config, g: &GraphicsGate) -> (r: (Vec<String>, Option<u8>))
    ensures
        r.1 == graphics_gate_report(*g).1,
        renders_lines(config, strs(r.0@), graphics_gate_report(*g).0),
{
    let mut out = Rendered::new(config);
    match g {
        GraphicsGate::NotRequired => {
            out.push_text(config, "Graphics runtime is not required by this project.".to_string());
            assert(out.plain@ =~= graphics_gate_report(*g).0);
            (out.lines, Some(0))
        },
        GraphicsGate::MujocoGlForced(v) => {
            out.push_text(config, "Graphics runtime is blocked by MUJOCO_GL.".to_string());
            out.push_text(config, String::new());
            out.push_text(config, concat3("Found MUJOCO_GL=", v.as_str(), "."));
            out.push_text(config, "Desktop GLFW viewers usually need this unset.".to_string());
            out.push_text(config, String::new());
            out.push_text(config, "Try:".to_string());
            out.push(config, command_line(config, "unset MUJOCO_GL"), Ghost("  "@ + "unset MUJOCO_GL"@));
            out.push(config, command_line(config, "robo check graphics"), Ghost("  "@ + "robo check graphics"@));
            proof {
                {
                    assert(out.plain@ =~= graphics_gate_report(*g).0);
                }
            }
            (out.lines, Some(1))
        },
        GraphicsGate::DesktopGlMissing => {
            out.push_text(config, "Graphics runtime is not selected for this project.".to_string());
            out.push_text(config, String::new());
            out.push_text(
                config,
                "This runtime appears to need desktop graphics, but robo.nix does not include `desktop-gl`.".to_string(),
            );
            out.push_text(config, String::new());
            out.push_text(config, "Add `desktop-gl` to components in robo.nix, then run:".to_string());
            out.push(config, command_line(config, "robo build"), Ghost("  "@ + "robo build"@));
            proof {
                {
                    assert(out.plain@ =~= graphics_gate_report(*g).0);
                }
            }
            (out.lines, Some(1))
        },
        GraphicsGate::Probe => {
            assert(out.plain@ =~= Seq::<Seq<char>>::empty());
            (out.lines, None)
        },
    }
}

/// What `robo check graphics` prints for the first error (`blocked`) or the
/// first warning of the probe: a heading, the finding's message, and its
/// hint when it has one; an error adds where to find the full evidence.
pub open spec fn graphics_finding_report(message: Seq<char>, hint: Option<&'static str>, blocked: bool) -> Seq<Seq<char>> {
    seq![
        if blocked {
            "Graphics runtime is blocked."@
        } else {
            "graphics  warning"@
        },
        Seq::empty(),
        message,
    ] + match hint {
        Some(h) => seq![Seq::empty(), h@],
        None => Seq::empty(),
    } + if blocked {
        seq![Seq::empty(), "Show full evidence:"@, "  "@ + "robo check graphics --verbose"@]
    } else {
        Seq::empty()
    }
}

pub fn graphics_finding_lines(config: Config, finding: &Finding, blocked: bool) -> (r: Vec<String>)
    ensures
        renders_lines(config, strs(r@), graphics_finding_report(finding.message@, finding.hint, blocked)),
{
    let mut out = Rendered::new(config);
    if blocked {
        out.push_text(config, "Graphics runtime is blocked.".to_string());
    } else {
        out.push_text(config, "graphics  warning".to_string());
    }
    out.push_text(config, String::new());
    out.push_text(config, finding.message.clone());
    let ghost head = out.plain@;
    match finding.hint {
        Some(h) => {
            out.push_text(config, String::new());
            out.push_text(config, h.to_string());
        },
        None => {},
    }
    let ghost mid = out.plain@;
    if blocked {
        out.push_text(config, String::new());
        out.push_text(config, "Show full evidence:".to_string());
        out.push(config, command_line(config, "robo check graphics --verbose"), Ghost("  "@ + "robo check graphics --verbose"@));
    }
    proof {
        {
            assert(mid =~= head + match finding.hint {
                Some(h) => seq![Seq::<char>::empty(), h@],
                None => Seq::empty(),
            });
            assert(out.plain@ =~= graphics_finding_report(finding.message@, finding.hint, blocked));
        }
    }
    out.lines
}

/// The first finding of a kind.
pub open spec fn first_of_kind(findings: Seq<Finding>, kind: FindingKind) -> Option<Finding>
    decreases findings.len(),
{
    if findings.len() == 0 {
        None
    } else if findings[0].kind == kind {
        Some(findings[0])
    } else {
        first_of_kind(findings.skip(1), kind)
    }
}

fn same_kind(a: FindingKind, b: FindingKind) -> (r: bool)
    ensures
        r == (a == b),
{
    match (a, b) {
        (FindingKind::Pass, FindingKind::Pass) => true,
        (FindingKind::Warn, FindingKind::Warn) => true,
        (FindingKind::Error, FindingKind::Error) => true,
        _ => false,
    }
}

pub fn first_finding(findings: &Vec<Finding>, kind: FindingKind) -> (r: Option<Finding>)
    ensures
        r == first_of_kind(findings@, kind),
{
    let ghost fs = findings@;
    let mut i: usize = 0;
    assert(fs.skip(0) =~= fs);
    while i < findings.len()
        invariant
            i <= findings.len(),
            fs == findings@,
            first_of_kind(fs, kind) == first_of_kind(fs.skip(i as int), kind),
        decreases findings.len() - i,
    {
        assert(fs.skip(i as int)[0] == fs[i as int]);
        assert(fs.skip(i as int).skip(1) =~= fs.skip(i + 1));
        if same_kind(findings[i].kind, kind) {
            let f = &findings[i];
            return Some(Finding { kind: f.kind, message: f.message.clone(), hint: f.hint });
        }
        i = i + 1;
    }
    None
}

/// How a runtime probe went.
#[derive(PartialEq, Eq)]
pub enum ProbeRun {
    Passed,
    Failed,
    NotStarted,
}

/// What the MuJoCo OpenGL context probe concludes.
#[derive(PartialEq, Eq)]
pub enum MujocoVerdict {
    /// Run the probe in the runtime's default OpenGL setup, then decide again
    /// with its result.
    RunDefaultProbe,
    /// The default probe failed: run the probe with `MUJOCO_GL=egl`, then
    /// decide again with both results.
    RunEglProbe,
    /// Go on with the graphics check, with what is known of the context.
    Continue(MujocoContext),
    /// The default context fails but EGL works: use `MUJOCO_GL=egl`.
    NeedsEgl,
    /// Both the default and the EGL context fail.
    Blocked,
    /// The EGL probe could not be started.
    EglProbeNotStarted,
    /// The default probe could not be started.
    ProbeNotStarted,
}

/// The MuJoCo context check: nothing to do without MuJoCo or without a
/// virtualenv; else the default probe decides, and when it fails the EGL
/// probe does. A probe runs only when its result is needed: a result not
/// yet there is asked for.
pub open spec fn mujoco_verdict(
    has_mujoco: bool,
    venv_python: bool,
    default_probe: Option<ProbeRun>,
    egl_probe: Option<ProbeRun>,
) -> MujocoVerdict {
    if !has_mujoco {
        MujocoVerdict::Continue(MujocoContext::NotSelected)
    } else if !venv_python {
        MujocoVerdict::Continue(MujocoContext::SkippedMissingVenv)
    } else {
        match default_probe {
            None => MujocoVerdict::RunDefaultProbe,
            Some(ProbeRun::Passed) => MujocoVerdict::Continue(MujocoContext::Ready),
            Some(ProbeRun::NotStarted) => MujocoVerdict::ProbeNotStarted,
            Some(ProbeRun::Failed) => match egl_probe {
                None => MujocoVerdict::RunEglProbe,
                Some(ProbeRun::Passed) => MujocoVerdict::NeedsEgl,
                Some(ProbeRun::Failed) => MujocoVerdict::Blocked,
                Some(ProbeRun::NotStarted) => MujocoVerdict::EglProbeNotStarted,
            },
        }
    }
}

/// The decision of the MuJoCo context check, given the probe results there
/// are so far: the caller runs the probe it is asked for and decides again.
pub fn check_mujoco_context(
    runtime: &ProjectRuntime,
    venv_python: bool,
    default_probe: Option<ProbeRun>,
    egl_probe: Option<ProbeRun>,
) -> (r: MujocoVerdict)
    ensures
        r == mujoco_verdict(has_component(*runtime, "mujoco"@), venv_python, default_probe, egl_probe),
{
    if !runtime_has_component(runtime, "mujoco") {
        return MujocoVerdict::Continue(MujocoContext::NotSelected);
    }
    if !venv_python {
        return MujocoVerdict::Continue(MujocoContext::SkippedMissingVenv);
    }
    match default_probe {
        None => MujocoVerdict::RunDefaultProbe,
        Some(ProbeRun::Passed) => MujocoVerdict::Continue(MujocoContext::Ready),
        Some(ProbeRun::NotStarted) => MujocoVerdict::ProbeNotStarted,
        Some(ProbeRun::Failed) => match egl_probe {
            None => MujocoVerdict::RunEglProbe,
            Some(ProbeRun::Passed) => MujocoVerdict::NeedsEgl,
            Some(ProbeRun::Failed) => MujocoVerdict::Blocked,
            Some(ProbeRun::NotStarted) => MujocoVerdict::EglProbeNotStarted,
        },
    }
}

/// What `robo check native` decides before probing.
#[derive(PartialEq, Eq)]
pub enum NativeGate {
    NotRequired,
    /// Native builds are needed but `native-build` is not selected.
    NotSelected,
    /// Native build tools are installed as wheels.
    Shims,
    /// Probe the compiler and build tools.
    Probe,
}

pub fn native_gate(runtime: &ProjectRuntime, shims: &Vec<String>) -> (r: NativeGate)
    ensures
        r == (if !native_needed(*runtime) && shims@.len() == 0 {
            NativeGate::NotRequired
        } else if !has_component(*runtime, "native-build"@) {
            NativeGate::NotSelected
        } else if shims@.len() > 0 {
            NativeGate::Shims
        } else {
            NativeGate::Probe
        }),
{
    if !native_relevant(runtime) && shims.len() == 0 {
        NativeGate::NotRequired
    } else if !runtime_has_component(runtime, "native-build") {
        NativeGate::NotSelected
    } else if shims.len() > 0 {
        NativeGate::Shims
    } else {
        NativeGate::Probe
    }
}

/// The required-paths check: directories, files and bootstrap scripts,
/// each group as `check_path_group` reports it.
pub fn check_required_paths(
    config: Config,
    directories: &Vec<(String, String, bool)>,
    files: &Vec<(String, String, bool)>,
    scripts: &Vec<(String, String, bool)>,
    issues: &mut usize,
) -> (r: Vec<String>)
    requires
        *old(issues) + directories@.len() + files@.len() + scripts@.len() <= usize::MAX,
    ensures
        *final(issues) == *old(issues) + paths_report(path_views(directories@), "project.required-directories-missing"@, "required directory is missing: "@).1
            + paths_report(path_views(files@), "runtime.files-missing-or-stale"@, "required file is missing: "@).1
            + paths_report(path_views(scripts@), "runtime.files-missing-or-stale"@, "bootstrap script is missing: "@).1,
        renders_lines(config, strs(r@), paths_text(path_views(directories@), "project.required-directories-missing"@, "required directory is missing: "@, "required directories exist"@)
            + paths_text(path_views(files@), "runtime.files-missing-or-stale"@, "required file is missing: "@, "required files exist"@)
            + paths_text(path_views(scripts@), "runtime.files-missing-or-stale"@, "bootstrap script is missing: "@, "bootstrap scripts exist"@)),
{
    let mut out = check_path_group(config, directories, "project.required-directories-missing", "required directory is missing: ", "required directories exist", issues);
    let ghost a = out@;
    let b = check_path_group(config, files, "runtime.files-missing-or-stale", "required file is missing: ", "required files exist", issues);
    let ghost bv = b@;
    push_lines(&mut out, b);
    let c = check_path_group(config, scripts, "runtime.files-missing-or-stale", "bootstrap script is missing: ", "bootstrap scripts exist", issues);
    let ghost cv = c@;
    push_lines(&mut out, c);
    proof {
        crate::text::lemma_strs_add(a, bv);
        crate::text::lemma_strs_add(a + bv, cv);
        crate::ui::lemma_renders_lines_add(config, strs(a), paths_text(path_views(directories@), "project.required-directories-missing"@, "required directory is missing: "@, "required directories exist"@), strs(bv), paths_text(path_views(files@), "runtime.files-missing-or-stale"@, "required file is missing: "@, "required files exist"@));
        crate::ui::lemma_renders_lines_add(config, strs(a + bv), paths_text(path_views(directories@), "project.required-directories-missing"@, "required directory is missing: "@, "required directories exist"@) + paths_text(path_views(files@), "runtime.files-missing-or-stale"@, "required file is missing: "@, "required files exist"@), strs(cv), paths_text(path_views(scripts@), "runtime.files-missing-or-stale"@, "bootstrap script is missing: "@, "bootstrap scripts exist"@));
    }
    out
}

} // verus!
