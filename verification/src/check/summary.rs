//! The status summary `robo doctor` and `robo status` print: what is ready
//! in the project, the runtime and the environment, and what needs
//! attention, with the issues and warnings counted.
//!
//! The caller gathers the facts (files present, the virtualenv's origin,
//! the host driver, the toolkit, the environment); the summary is built
//! from them here.
use vstd::prelude::*;
use crate::check::cuda::{CudaCheckPlan, HostCuda, ToolkitCuda};
use crate::check::python::PythonEnvironmentOrigin;
use crate::pyproject::exact_python;
use crate::runtime::{has_component, runtime_has_component, ProjectRuntime};
use crate::text::{chars_of, concat, concat3, concat4, decimal, join, join_strings, opt_str, string_of, strs, trim, Sep};
use crate::ui::{glue, glue_text, label, renders, renders_lines, text_glue, Config, LabelKind, Rendered};

verus! {

/// Something that needs attention: a title and the lines under it.
pub struct Attention {
    pub title: String,
    pub details: Vec<String>,
}

impl View for Attention {
    type V = (Seq<char>, Seq<Seq<char>>);

    open spec fn view(&self) -> Self::V {
        (self.title@, strs(self.details@))
    }
}

impl Attention {
    pub fn new(title: String) -> (r: Self)
        ensures
            r@ == (title@, Seq::<Seq<char>>::empty()),
    {
        let r = Attention { title, details: Vec::new() };
        assert(strs(r.details@) =~= Seq::<Seq<char>>::empty());
        r
    }

    /// The item with one more line under it.
    pub fn detail(self, detail: String) -> (r: Self)
        ensures
            r@ == (self@.0, self@.1.push(detail@)),
    {
        let mut r = self;
        let ghost before = r.details@;
        r.details.push(detail);
        assert(strs(r.details@) =~= strs(before).push(detail@));
        r
    }
}

fn attention1(title: &str, d1: String) -> (r: Attention)
    ensures
        r@ == (title@, seq![d1@]),
{
    let r = Attention::new(title.to_string()).detail(d1);
    assert(r@.1 =~= seq![d1@]);
    r
}

fn attention2(title: &str, d1: String, d2: String) -> (r: Attention)
    ensures
        r@ == (title@, seq![d1@, d2@]),
{
    let r = Attention::new(title.to_string()).detail(d1).detail(d2);
    assert(r@.1 =~= seq![d1@, d2@]);
    r
}

fn attention3(title: &str, d1: String, d2: String, d3: String) -> (r: Attention)
    ensures
        r@ == (title@, seq![d1@, d2@, d3@]),
{
    let r = Attention::new(title.to_string()).detail(d1).detail(d2).detail(d3);
    assert(r@.1 =~= seq![d1@, d2@, d3@]);
    r
}

/// The summary so far.
pub struct Summary {
    pub issues: usize,
    pub warnings: usize,
    pub project_ready: Vec<String>,
    pub runtime_ready: Vec<String>,
    pub environment_ready: Vec<String>,
    pub attention: Vec<Attention>,
}

#[verifier::ext_equal]
pub struct SummaryView {
    pub issues: nat,
    pub warnings: nat,
    pub project: Seq<Seq<char>>,
    pub runtime: Seq<Seq<char>>,
    pub environment: Seq<Seq<char>>,
    pub attention: Seq<(Seq<char>, Seq<Seq<char>>)>,
}

pub open spec fn attention_view(a: Seq<Attention>) -> Seq<(Seq<char>, Seq<Seq<char>>)> {
    a.map_values(|x: Attention| x@)
}

impl View for Summary {
    type V = SummaryView;

    open spec fn view(&self) -> SummaryView {
        SummaryView {
            issues: self.issues as nat,
            warnings: self.warnings as nat,
            project: strs(self.project_ready@),
            runtime: strs(self.runtime_ready@),
            environment: strs(self.environment_ready@),
            attention: attention_view(self.attention@),
        }
    }
}

/// An empty summary.
pub open spec fn empty_summary() -> SummaryView {
    SummaryView {
        issues: 0,
        warnings: 0,
        project: Seq::empty(),
        runtime: Seq::empty(),
        environment: Seq::empty(),
        attention: Seq::empty(),
    }
}

pub open spec fn warn_with(s: SummaryView, item: (Seq<char>, Seq<Seq<char>>)) -> SummaryView {
    SummaryView { warnings: s.warnings + 1, attention: s.attention.push(item), ..s }
}

pub open spec fn issue_with(s: SummaryView, item: (Seq<char>, Seq<Seq<char>>)) -> SummaryView {
    SummaryView { issues: s.issues + 1, attention: s.attention.push(item), ..s }
}

/// Room for the few more issues and warnings a summary can add.
pub open spec fn has_room(s: SummaryView, extra: nat) -> bool {
    s.issues + extra + 16 <= usize::MAX && s.warnings + extra + 16 <= usize::MAX
}

impl Summary {
    pub fn new() -> (r: Self)
        ensures
            r@ == empty_summary(),
    {
        let r = Summary {
            issues: 0,
            warnings: 0,
            project_ready: Vec::new(),
            runtime_ready: Vec::new(),
            environment_ready: Vec::new(),
            attention: Vec::new(),
        };
        assert(r@ =~= empty_summary());
        r
    }

    fn warn(&mut self, item: Attention)
        requires
            old(self).warnings < usize::MAX,
        ensures
            final(self)@ == warn_with(old(self)@, item@),
    {
        let ghost before = self@;
        self.warnings = self.warnings + 1;
        self.attention.push(item);
        assert(self@ =~= warn_with(before, item@));
    }

    fn issue(&mut self, item: Attention)
        requires
            old(self).issues < usize::MAX,
        ensures
            final(self)@ == issue_with(old(self)@, item@),
    {
        let ghost before = self@;
        self.issues = self.issues + 1;
        self.attention.push(item);
        assert(self@ =~= issue_with(before, item@));
    }

    fn project_ok(&mut self, line: String)
        ensures
            final(self)@ == (SummaryView { project: old(self)@.project.push(line@), ..old(self)@ }),
    {
        let ghost before = self@;
        self.project_ready.push(line);
        assert(self@ =~= SummaryView { project: before.project.push(line@), ..before });
    }

    fn runtime_ok(&mut self, line: String)
        ensures
            final(self)@ == (SummaryView { runtime: old(self)@.runtime.push(line@), ..old(self)@ }),
    {
        let ghost before = self@;
        self.runtime_ready.push(line);
        assert(self@ =~= SummaryView { runtime: before.runtime.push(line@), ..before });
    }

    fn environment_ok(&mut self, line: String)
        ensures
            final(self)@ == (SummaryView { environment: old(self)@.environment.push(line@), ..old(self)@ }),
    {
        let ghost before = self@;
        self.environment_ready.push(line);
        assert(self@ =~= SummaryView { environment: before.environment.push(line@), ..before });
    }
}

// ---------------------------------------------------------------------
// The sections of the summary
// ---------------------------------------------------------------------

/// Runtime files: `robo.nix` and `flake.nix` present with schema 1.
pub open spec fn runtime_files_section(s: SummaryView, robo_nix: bool, flake: bool, schema: Option<Seq<char>>) -> SummaryView {
    if robo_nix && flake && schema == Some("1"@) {
        SummaryView { runtime: s.runtime.push("runtime files"@), ..s }
    } else {
        warn_with(s, ("runtime files need review"@, seq!["run: robo init . --force"@, "note: review local edits before regenerating"@]))
    }
}

/// The Python contract: `.python-version` and `pyproject.toml` agree with
/// the runtime's Python.
pub open spec fn python_section(s: SummaryView, python: Seq<char>, python_file: Option<Seq<char>>, pyproject: Option<Seq<char>>) -> SummaryView {
    let file_ok = python_file matches Some(t) && trim(t, Sep::Whitespace) == python;
    let pyproject_ok = pyproject matches Some(p) && (exact_python(p) is None || exact_python(p) == Some(python));
    if file_ok && pyproject_ok {
        SummaryView { project: s.project.push("Python contract"@), ..s }
    } else if pyproject is None {
        warn_with(s, ("pyproject.toml missing"@, seq!["run: robo init ."@, "note: uv owns Python dependencies"@]))
    } else {
        issue_with(s, ("Python version mismatch"@, seq!["expected: "@ + python, "fix: align .python-version, pyproject.toml, and robo.nix"@]))
    }
}

pub open spec fn uv_lock_section(s: SummaryView, uv_lock: bool) -> SummaryView {
    if uv_lock {
        SummaryView { project: s.project.push("uv lockfile"@), ..s }
    } else {
        warn_with(s, ("uv.lock missing"@, seq!["run: robo shell"@, "     uv sync"@]))
    }
}

pub open spec fn environment_section(s: SummaryView, origin: PythonEnvironmentOrigin) -> SummaryView {
    match origin {
        PythonEnvironmentOrigin::Missing => warn_with(s, ("Python environment missing"@, seq!["run: robo shell"@, "     uv sync"@])),
        PythonEnvironmentOrigin::NixBacked(_) => SummaryView { environment: s.environment.push("Nix-backed Python"@), ..s },
        PythonEnvironmentOrigin::HostBacked(o) => issue_with(
            s,
            (
                "Python environment was created outside robo-nix"@,
                seq!["found: "@ + o@, "fix: robo shell -c 'uv venv --python \"$ROBO_NIX_PYTHON\" --clear && uv sync'"@],
            ),
        ),
    }
}

pub open spec fn shims_section(s: SummaryView, shims: Seq<Seq<char>>) -> SummaryView {
    if shims.len() == 0 {
        s
    } else {
        warn_with(
            s,
            (
                "Python environment contains native build tool shims"@,
                seq!["found: "@ + join(shims, ", "@), "note: Nix owns CMake, Ninja, compilers, and native build tools"@],
            ),
        )
    }
}

/// The inferred components the runtime lacks, in the order inferred.
pub open spec fn missing_components(expected: Seq<Seq<char>>, runtime: ProjectRuntime) -> Seq<Seq<char>> {
    expected.filter(|name: Seq<char>| !has_component(runtime, name))
}

pub open spec fn components_section(s: SummaryView, pyproject: bool, expected: Seq<Seq<char>>, runtime: ProjectRuntime) -> SummaryView {
    if !pyproject {
        s
    } else {
        let missing = missing_components(expected, runtime);
        if missing.len() == 0 {
            SummaryView { runtime: s.runtime.push("inferred components"@), ..s }
        } else {
            SummaryView {
                warnings: s.warnings + missing.len(),
                attention: s.attention.push(
                    ("runtime components may be incomplete"@, seq!["missing: "@ + join(missing, ", "@), "run: robo init . --force"@]),
                ),
                ..s
            }
        }
    }
}

/// The required directories that are missing, in order.
pub open spec fn missing_dirs(dirs: Seq<(Seq<char>, bool)>) -> Seq<Seq<char>> {
    dirs.filter(|d: (Seq<char>, bool)| !d.1).map_values(|d: (Seq<char>, bool)| d.0)
}

pub open spec fn directories_section(s: SummaryView, dirs: Seq<(Seq<char>, bool)>) -> SummaryView {
    let missing = missing_dirs(dirs);
    if missing.len() == 0 {
        if dirs.len() > 0 {
            SummaryView { runtime: s.runtime.push("required directories ("@ + decimal(dirs.len()) + ")"@), ..s }
        } else {
            s
        }
    } else {
        SummaryView {
            issues: s.issues + missing.len(),
            attention: s.attention.push(("required directories missing"@, seq!["missing: "@ + join(missing, ", "@)])),
            ..s
        }
    }
}

/// The host-driver part of the CUDA summary.
pub open spec fn cuda_host_section(s: SummaryView, plan: CudaCheckPlan, host: HostCuda) -> SummaryView {
    if !host.is_linux {
        issue_with(s, ("CUDA requires a Linux host"@, seq!["fix: use a Linux NVIDIA machine for this runtime"@]))
    } else {
        match host.driver_version {
            None => issue_with(s, ("NVIDIA driver stack not found"@, seq!["fix: run on a machine with NVIDIA drivers installed"@])),
            Some(hv) => {
                let s1 = match plan.expected_wheel_version {
                    Some(e) => if crate::runtime::less_than_spec(hv@, e@) == Some(true) {
                        issue_with(
                            s,
                            (
                                "CUDA host driver is too old"@,
                                seq![
                                    "found: CUDA "@ + hv@,
                                    "need: CUDA "@ + e@ + " for uv.lock CUDA wheels"@,
                                    "fix: upgrade the NVIDIA driver or regenerate uv.lock with older CUDA wheels"@,
                                ],
                            ),
                        )
                    } else {
                        SummaryView { environment: s.environment.push("CUDA host driver ("@ + hv@ + ", needs "@ + e@ + ")"@), ..s }
                    },
                    None => SummaryView { environment: s.environment.push("CUDA host driver ("@ + hv@ + ")"@), ..s },
                };
                match host.libcuda {
                    Some(p) => SummaryView { environment: s1.environment.push("CUDA driver library ("@ + p@ + ")"@), ..s1 },
                    None => warn_with(
                        s1,
                        (
                            "CUDA driver library not found"@,
                            seq![
                                "note: Nix provides the CUDA build toolkit, but libcuda.so.1 comes from the host driver"@,
                                "deep: robo check --deep"@,
                            ],
                        ),
                    ),
                }
            },
        }
    }
}

/// The toolkit part of the CUDA summary.
pub open spec fn cuda_toolkit_section(s: SummaryView, plan: CudaCheckPlan, deep: bool, toolkit: ToolkitCuda) -> SummaryView {
    match toolkit.root {
        None => if deep {
            s
        } else {
            warn_with(
                s,
                (
                    "CUDA toolkit not visible in this shell"@,
                    seq![
                        "run: robo shell"@,
                        "note: CUDA_HOME/CUDA_PATH are set inside the runtime"@,
                        "deep: robo check --deep validates the Nix CUDA toolkit"@,
                    ],
                ),
            )
        },
        Some(root) => match plan.expected_wheel_version {
            None => SummaryView { environment: s.environment.push("CUDA toolkit ("@ + root@ + ")"@), ..s },
            Some(e) => match toolkit.root_version {
                None => warn_with(s, ("CUDA toolkit version is unknown"@, seq!["path: "@ + root@, "deep: robo check --deep"@])),
                Some(a) => if a@ == e@ {
                    SummaryView { environment: s.environment.push("CUDA toolkit ("@ + a@ + ")"@), ..s }
                } else {
                    issue_with(
                        s,
                        (
                            "CUDA toolkit version does not match uv.lock"@,
                            seq!["found: CUDA "@ + a@ + " at "@ + root@, "need: CUDA "@ + e@],
                        ),
                    )
                },
            },
        },
    }
}

pub open spec fn cuda_section(s: SummaryView, plan: CudaCheckPlan, deep: bool, host: HostCuda, toolkit: ToolkitCuda) -> SummaryView {
    if !(plan.host_required || plan.toolkit_required) {
        s
    } else {
        let s1 = if plan.host_required {
            cuda_host_section(s, plan, host)
        } else {
            s
        };
        if plan.toolkit_required {
            cuda_toolkit_section(s1, plan, deep, toolkit)
        } else {
            s1
        }
    }
}

pub fn summarize_cuda_host_requirement(plan: &CudaCheckPlan, host: &HostCuda, s: &mut Summary)
    requires
        has_room(old(s)@, 0),
    ensures
        final(s)@ == cuda_host_section(old(s)@, *plan, *host),
{
    if !host.is_linux {
        s.issue(attention1("CUDA requires a Linux host", "fix: use a Linux NVIDIA machine for this runtime".to_string()));
        return;
    }
    let hv = match &host.driver_version {
        Some(v) => v,
        None => {
            s.issue(attention1("NVIDIA driver stack not found", "fix: run on a machine with NVIDIA drivers installed".to_string()));
            return;
        },
    };
    match &plan.expected_wheel_version {
        Some(e) => {
            if crate::runtime::cuda_version_less_than(hv.as_str(), e.as_str()) == Some(true) {
                s.issue(
                    attention3(
                        "CUDA host driver is too old",
                        concat("found: CUDA ", hv.as_str()),
                        concat3("need: CUDA ", e.as_str(), " for uv.lock CUDA wheels"),
                        "fix: upgrade the NVIDIA driver or regenerate uv.lock with older CUDA wheels".to_string(),
                    ),
                );
            } else {
                let line = concat4("CUDA host driver (", hv.as_str(), ", needs ", e.as_str());
                s.environment_ok(concat(line.as_str(), ")"));
            }
        },
        None => {
            s.environment_ok(concat3("CUDA host driver (", hv.as_str(), ")"));
        },
    }
    match &host.libcuda {
        Some(p) => {
            s.environment_ok(concat3("CUDA driver library (", p.as_str(), ")"));
        },
        None => {
            s.warn(
                attention2(
                    "CUDA driver library not found",
                    "note: Nix provides the CUDA build toolkit, but libcuda.so.1 comes from the host driver".to_string(),
                    "deep: robo check --deep".to_string(),
                ),
            );
        },
    }
}

pub fn summarize_cuda_toolkit_requirement(plan: &CudaCheckPlan, deep: bool, toolkit: &ToolkitCuda, s: &mut Summary)
    requires
        has_room(old(s)@, 0),
    ensures
        final(s)@ == cuda_toolkit_section(old(s)@, *plan, deep, *toolkit),
{
    let root = match &toolkit.root {
        Some(r) => r,
        None => {
            if deep {
                return;
            }
            s.warn(
                attention3(
                    "CUDA toolkit not visible in this shell",
                    "run: robo shell".to_string(),
                    "note: CUDA_HOME/CUDA_PATH are set inside the runtime".to_string(),
                    "deep: robo check --deep validates the Nix CUDA toolkit".to_string(),
                ),
            );
            return;
        },
    };
    let expected = match &plan.expected_wheel_version {
        Some(e) => e,
        None => {
            s.environment_ok(concat3("CUDA toolkit (", root.as_str(), ")"));
            return;
        },
    };
    let actual = match &toolkit.root_version {
        Some(a) => a,
        None => {
            s.warn(attention2("CUDA toolkit version is unknown", concat("path: ", root.as_str()), "deep: robo check --deep".to_string()));
            return;
        },
    };
    if crate::text::str_eq(actual.as_str(), expected.as_str()) {
        s.environment_ok(concat3("CUDA toolkit (", actual.as_str(), ")"));
    } else {
        s.issue(
            attention2(
                "CUDA toolkit version does not match uv.lock",
                concat4("found: CUDA ", actual.as_str(), " at ", root.as_str()),
                concat("need: CUDA ", expected.as_str()),
            ),
        );
    }
}

pub fn summarize_cuda_requirements(plan: &CudaCheckPlan, deep: bool, host: &HostCuda, toolkit: &ToolkitCuda, s: &mut Summary)
    requires
        has_room(old(s)@, 2),
    ensures
        final(s)@ == cuda_section(old(s)@, *plan, deep, *host, *toolkit),
{
    if !plan.needed() {
        return;
    }
    if plan.host_required {
        summarize_cuda_host_requirement(plan, host, s);
    }
    if plan.toolkit_required {
        summarize_cuda_toolkit_requirement(plan, deep, toolkit, s);
    }
}

/// The `MUJOCO_GL` value that forces MuJoCo's backend: set, not empty, and
/// not the runtime's own default, in a runtime with MuJoCo.
pub open spec fn forced_gl(runtime: ProjectRuntime, mujoco_gl: Option<Seq<char>>, default_gl: Option<Seq<char>>) -> Option<Seq<char>> {
    if !has_component(runtime, "mujoco"@) {
        None
    } else {
        match mujoco_gl {
            Some(v) => if default_gl == Some(v) || v.len() == 0 {
                None
            } else {
                Some(v)
            },
            None => None,
        }
    }
}

pub fn forced_mujoco_gl(runtime: &ProjectRuntime, mujoco_gl: Option<&str>, default_mujoco_gl: Option<&str>) -> (r: Option<String>)
    ensures
        opt_str(r) == forced_gl(
            *runtime,
            crate::host_bridge::opt_text(mujoco_gl),
            crate::host_bridge::opt_text(default_mujoco_gl),
        ),
{
    if !runtime_has_component(runtime, "mujoco") {
        return None;
    }
    let value = match mujoco_gl {
        Some(v) => v,
        None => {
            return None;
        },
    };
    match default_mujoco_gl {
        Some(d) => {
            if crate::text::str_eq(d, value) {
                return None;
            }
        },
        None => {},
    }
    if value.unicode_len() == 0 {
        None
    } else {
        Some(value.to_string())
    }
}

pub open spec fn graphics_section(s: SummaryView, forced: Option<Seq<char>>) -> SummaryView {
    match forced {
        Some(v) => warn_with(
            s,
            (
                "MuJoCo GL backend is forced"@,
                seq![
                    "found: MUJOCO_GL="@ + v,
                    "note: desktop GLFW viewers usually need this unset"@,
                    "fix: unset MUJOCO_GL before running graphical MuJoCo apps"@,
                ],
            ),
        ),
        None => s,
    }
}

pub fn summarize_graphics_environment(runtime: &ProjectRuntime, mujoco_gl: Option<&str>, default_mujoco_gl: Option<&str>, s: &mut Summary)
    requires
        has_room(old(s)@, 0),
    ensures
        final(s)@ == graphics_section(
            old(s)@,
            forced_gl(*runtime, crate::host_bridge::opt_text(mujoco_gl), crate::host_bridge::opt_text(default_mujoco_gl)),
        ),
{
    match forced_mujoco_gl(runtime, mujoco_gl, default_mujoco_gl) {
        Some(v) => {
            s.warn(
                attention3(
                    "MuJoCo GL backend is forced",
                    concat("found: MUJOCO_GL=", v.as_str()),
                    "note: desktop GLFW viewers usually need this unset".to_string(),
                    "fix: unset MUJOCO_GL before running graphical MuJoCo apps".to_string(),
                ),
            );
        },
        None => {},
    }
}


fn missing_component_names(expected: &Vec<String>, runtime: &ProjectRuntime) -> (r: Vec<String>)
    ensures
        strs(r@) == missing_components(strs(expected@), *runtime),
{
    let ghost ev = strs(expected@);
    let ghost pred = |name: Seq<char>| !has_component(*runtime, name);
    let mut out: Vec<String> = Vec::new();
    let mut i: usize = 0;
    while i < expected.len()
        invariant
            i <= expected.len(),
            ev == strs(expected@),
            pred == (|name: Seq<char>| !has_component(*runtime, name)),
            strs(out@) == ev.take(i as int).filter(pred),
        decreases expected.len() - i,
    {
        proof {
            assert(ev.take(i + 1) =~= ev.take(i as int).push(ev[i as int]));
            ev.take(i as int).lemma_filter_push(ev[i as int], pred);
        }
        if !runtime_has_component(runtime, expected[i].as_str()) {
            let ghost before = out@;
            out.push(expected[i].clone());
            assert(strs(out@) =~= strs(before).push(ev[i as int]));
        }
        i = i + 1;
    }
    assert(ev.take(expected.len() as int) == ev);
    out
}

pub open spec fn dir_views(dirs: Seq<(String, bool)>) -> Seq<(Seq<char>, bool)> {
    dirs.map_values(|d: (String, bool)| (d.0@, d.1))
}

fn missing_directory_names(dirs: &Vec<(String, bool)>) -> (r: Vec<String>)
    ensures
        strs(r@) == missing_dirs(dir_views(dirs@)),
{
    let ghost dv = dir_views(dirs@);
    let ghost pred = |d: (Seq<char>, bool)| !d.1;
    let ghost name = |d: (Seq<char>, bool)| d.0;
    let mut out: Vec<String> = Vec::new();
    let mut i: usize = 0;
    while i < dirs.len()
        invariant
            i <= dirs.len(),
            dv == dir_views(dirs@),
            pred == (|d: (Seq<char>, bool)| !d.1),
            name == (|d: (Seq<char>, bool)| d.0),
            strs(out@) == dv.take(i as int).filter(pred).map_values(name),
        decreases dirs.len() - i,
    {
        proof {
            assert(dv.take(i + 1) =~= dv.take(i as int).push(dv[i as int]));
            dv.take(i as int).lemma_filter_push(dv[i as int], pred);
        }
        if !dirs[i].1 {
            let ghost before = out@;
            out.push(dirs[i].0.clone());
            assert(strs(out@) =~= strs(before).push(dv[i as int].0));
            assert(dv.take(i + 1).filter(pred).map_values(name) =~= dv.take(i as int).filter(pred).map_values(name).push(dv[i as int].0));
        } else {
            assert(dv.take(i + 1).filter(pred).map_values(name) =~= dv.take(i as int).filter(pred).map_values(name));
        }
        i = i + 1;
    }
    assert(dv.take(dirs.len() as int) == dv);
    out
}

/// What the caller found out for the summary.
pub struct SummaryFacts {
    pub robo_nix_exists: bool,
    pub flake_exists: bool,
    /// The text of `.python-version`, and of `pyproject.toml`, when read.
    pub python_file: Option<String>,
    pub pyproject: Option<String>,
    pub uv_lock_exists: bool,
    pub python_origin: PythonEnvironmentOrigin,
    /// The native build tools installed as Python wheels.
    pub native_tool_shims: Vec<String>,
    /// The components the project's dependencies call for.
    pub expected_components: Vec<String>,
    /// The runtime's required directories and whether each exists.
    pub required_directories: Vec<(String, bool)>,
    pub plan: CudaCheckPlan,
    pub deep: bool,
    pub host: HostCuda,
    pub toolkit: ToolkitCuda,
    /// `MUJOCO_GL` and `ROBO_NIX_MUJOCO_GL_DEFAULT`.
    pub mujoco_gl: Option<String>,
    pub mujoco_gl_default: Option<String>,
}

/// The summary of a runtime from the facts, section by section: runtime
/// files, the Python contract, the lockfile, the virtualenv, native tool
/// shims, inferred components, required directories, CUDA and graphics.
pub open spec fn summary_of(runtime: ProjectRuntime, f: SummaryFacts) -> SummaryView {
    let s = runtime_files_section(empty_summary(), f.robo_nix_exists, f.flake_exists, opt_str(runtime.schema_version));
    let s = python_section(s, runtime.python_version@, opt_str(f.python_file), opt_str(f.pyproject));
    let s = uv_lock_section(s, f.uv_lock_exists);
    let s = environment_section(s, f.python_origin);
    let s = shims_section(s, strs(f.native_tool_shims@));
    let s = components_section(s, f.pyproject is Some, strs(f.expected_components@), runtime);
    let s = directories_section(s, dir_views(f.required_directories@));
    let s = cuda_section(s, f.plan, f.deep, f.host, f.toolkit);
    graphics_section(s, forced_gl(runtime, opt_str(f.mujoco_gl), opt_str(f.mujoco_gl_default)))
}

fn summarize_runtime_files(runtime: &ProjectRuntime, facts: &SummaryFacts, s: &mut Summary)
    requires
        old(s).warnings < usize::MAX,
    ensures
        final(s)@ == runtime_files_section(old(s)@, facts.robo_nix_exists, facts.flake_exists, opt_str(runtime.schema_version)),
        final(s)@.issues == old(s)@.issues,
        final(s)@.warnings <= old(s)@.warnings + 1,
{
    let schema_ok = match &runtime.schema_version {
        Some(v) => crate::text::str_eq(v.as_str(), "1"),
        None => false,
    };
    if facts.robo_nix_exists && facts.flake_exists && schema_ok {
        s.runtime_ok("runtime files".to_string());
    } else {
        s.warn(attention2("runtime files need review", "run: robo init . --force".to_string(), "note: review local edits before regenerating".to_string()));
    }
}

fn summarize_python_contract(runtime: &ProjectRuntime, facts: &SummaryFacts, s: &mut Summary)
    requires
        old(s).warnings < usize::MAX,
        old(s).issues < usize::MAX,
    ensures
        final(s)@ == python_section(old(s)@, runtime.python_version@, opt_str(facts.python_file), opt_str(facts.pyproject)),
        final(s)@.issues <= old(s)@.issues + 1,
        final(s)@.warnings <= old(s)@.warnings + 1,
{
    let file_ok = match &facts.python_file {
        Some(t) => crate::text::str_eq(string_of(&crate::text::trim_ws(&chars_of(t.as_str()))).as_str(), runtime.python_version.as_str()),
        None => false,
    };
    let pyproject_ok = match &facts.pyproject {
        Some(p) => match crate::pyproject::exact_python_requirement(p.as_str()) {
            Some(req) => crate::text::str_eq(req.as_str(), runtime.python_version.as_str()),
            None => true,
        },
        None => false,
    };
    if file_ok && pyproject_ok {
        s.project_ok("Python contract".to_string());
    } else if facts.pyproject.is_none() {
        s.warn(attention2("pyproject.toml missing", "run: robo init .".to_string(), "note: uv owns Python dependencies".to_string()));
    } else {
        s.issue(
            attention2(
                "Python version mismatch",
                concat("expected: ", runtime.python_version.as_str()),
                "fix: align .python-version, pyproject.toml, and robo.nix".to_string(),
            ),
        );
    }
}

fn summarize_uv_lock(facts: &SummaryFacts, s: &mut Summary)
    requires
        old(s).warnings < usize::MAX,
    ensures
        final(s)@ == uv_lock_section(old(s)@, facts.uv_lock_exists),
        final(s)@.issues == old(s)@.issues,
        final(s)@.warnings <= old(s)@.warnings + 1,
{
    if facts.uv_lock_exists {
        s.project_ok("uv lockfile".to_string());
    } else {
        s.warn(attention2("uv.lock missing", "run: robo shell".to_string(), "     uv sync".to_string()));
    }
}

fn summarize_python_environment(facts: &SummaryFacts, s: &mut Summary)
    requires
        old(s).warnings < usize::MAX,
        old(s).issues < usize::MAX,
    ensures
        final(s)@ == environment_section(old(s)@, facts.python_origin),
        final(s)@.issues <= old(s)@.issues + 1,
        final(s)@.warnings <= old(s)@.warnings + 1,
{
    match &facts.python_origin {
        PythonEnvironmentOrigin::Missing => {
            s.warn(attention2("Python environment missing", "run: robo shell".to_string(), "     uv sync".to_string()));
        },
        PythonEnvironmentOrigin::NixBacked(_) => {
            s.environment_ok("Nix-backed Python".to_string());
        },
        PythonEnvironmentOrigin::HostBacked(o) => {
            s.issue(
                attention2(
                    "Python environment was created outside robo-nix",
                    concat("found: ", o.as_str()),
                    "fix: robo shell -c 'uv venv --python \"$ROBO_NIX_PYTHON\" --clear && uv sync'".to_string(),
                ),
            );
        },
    }
}

fn summarize_native_shims(facts: &SummaryFacts, s: &mut Summary)
    requires
        old(s).warnings < usize::MAX,
    ensures
        final(s)@ == shims_section(old(s)@, strs(facts.native_tool_shims@)),
        final(s)@.issues == old(s)@.issues,
        final(s)@.warnings <= old(s)@.warnings + 1,
{
    if facts.native_tool_shims.len() > 0 {
        s.warn(
            attention2(
                "Python environment contains native build tool shims",
                concat("found: ", join_strings(&facts.native_tool_shims, ", ").as_str()),
                "note: Nix owns CMake, Ninja, compilers, and native build tools".to_string(),
            ),
        );
    }
}

fn summarize_components(runtime: &ProjectRuntime, facts: &SummaryFacts, s: &mut Summary)
    requires
        old(s).warnings + facts.expected_components.len() <= usize::MAX,
    ensures
        final(s)@ == components_section(old(s)@, facts.pyproject is Some, strs(facts.expected_components@), *runtime),
        final(s)@.issues == old(s)@.issues,
        final(s)@.warnings <= old(s)@.warnings + facts.expected_components.len(),
{
    if facts.pyproject.is_some() {
        let missing = missing_component_names(&facts.expected_components, runtime);
        proof {
            strs(facts.expected_components@).lemma_filter_len(|name: Seq<char>| !has_component(*runtime, name));
        }
        if missing.len() == 0 {
            s.runtime_ok("inferred components".to_string());
        } else {
            let item = attention2(
                "runtime components may be incomplete",
                concat("missing: ", join_strings(&missing, ", ").as_str()),
                "run: robo init . --force".to_string(),
            );
            let ghost before = s@;
            s.warnings = s.warnings + missing.len();
            s.attention.push(item);
            assert(s@ =~= SummaryView {
                warnings: before.warnings + missing@.len(),
                attention: before.attention.push(item@),
                ..before
            });
        }
    }
}

fn summarize_directories(facts: &SummaryFacts, s: &mut Summary)
    requires
        old(s).issues + facts.required_directories.len() <= usize::MAX,
    ensures
        final(s)@ == directories_section(old(s)@, dir_views(facts.required_directories@)),
        final(s)@.issues <= old(s)@.issues + facts.required_directories.len(),
        final(s)@.warnings == old(s)@.warnings,
{
    let missing = missing_directory_names(&facts.required_directories);
    proof {
        dir_views(facts.required_directories@).lemma_filter_len(|d: (Seq<char>, bool)| !d.1);
    }
    if missing.len() == 0 {
        if facts.required_directories.len() > 0 {
            let n = crate::text::decimal_string(facts.required_directories.len() as u64);
            assert(dir_views(facts.required_directories@).len() == facts.required_directories.len());
            s.runtime_ok(concat3("required directories (", n.as_str(), ")"));
        }
    } else {
        let item = attention1("required directories missing", concat("missing: ", join_strings(&missing, ", ").as_str()));
        let ghost before = s@;
        s.issues = s.issues + missing.len();
        s.attention.push(item);
        assert(s@ =~= SummaryView {
            issues: before.issues + missing@.len(),
            attention: before.attention.push(item@),
            ..before
        });
    }
}

/// Builds the status summary of a runtime from what the caller found out.
pub fn run_summary(runtime: &ProjectRuntime, facts: &SummaryFacts) -> (r: Summary)
    requires
        facts.expected_components.len() + 64 <= usize::MAX,
        facts.required_directories.len() + 64 <= usize::MAX,
    ensures
        r@ == summary_of(*runtime, *facts),
{
    let mut s = Summary::new();
    summarize_runtime_files(runtime, facts, &mut s);
    summarize_python_contract(runtime, facts, &mut s);
    summarize_uv_lock(facts, &mut s);
    summarize_python_environment(facts, &mut s);
    summarize_native_shims(facts, &mut s);
    summarize_components(runtime, facts, &mut s);
    summarize_directories(facts, &mut s);
    summarize_cuda_requirements(&facts.plan, facts.deep, &facts.host, &facts.toolkit, &mut s);
    let mgl = match &facts.mujoco_gl {
        Some(v) => Some(v.as_str()),
        None => None,
    };
    let mdefault = match &facts.mujoco_gl_default {
        Some(v) => Some(v.as_str()),
        None => None,
    };
    assert(crate::host_bridge::opt_text(mgl) == opt_str(facts.mujoco_gl));
    assert(crate::host_bridge::opt_text(mdefault) == opt_str(facts.mujoco_gl_default));
    summarize_graphics_environment(runtime, mgl, mdefault, &mut s);
    s
}

// ---------------------------------------------------------------------
// Printing the summary
// ---------------------------------------------------------------------

/// `N noun`, with an `s` unless N is one.
pub open spec fn count_text(count: nat, noun: Seq<char>) -> Seq<char> {
    decimal(count) + " "@ + noun + (if count == 1 {
        Seq::<char>::empty()
    } else {
        "s"@
    })
}

pub fn count_label(config: Config, count: usize, noun: &str, kind: LabelKind) -> (r: String)
    ensures
        renders(config, r@, count_text(count as nat, noun@)),
{
    let n = crate::text::decimal_string(count as u64);
    let suffix = if count == 1 {
        ""
    } else {
        "s"
    };
    proof {
        reveal_strlit("");
    }
    let rest = concat3(" ", noun, suffix);
    let r = glue_text(config, label(config, n.as_str(), kind).as_str(), Ghost(n@), rest.as_str());
    assert(n@ + rest@ =~= count_text(count as nat, noun@));
    r
}

/// The row an attention item is shown under.
pub open spec fn attention_row(title: Seq<char>) -> Seq<char> {
    if crate::text::is_prefix("Python version mismatch"@, title) || crate::text::is_prefix("pyproject.toml missing"@, title)
        || crate::text::is_prefix("uv.lock missing"@, title) {
        "project"@
    } else if crate::text::is_prefix("runtime files"@, title) || crate::text::is_prefix("runtime components"@, title)
        || crate::text::is_prefix("required directories"@, title) {
        "runtime"@
    } else {
        "environment"@
    }
}

pub fn compact_attention_label(title: &str) -> (r: &'static str)
    ensures
        r@ == attention_row(title@),
{
    let t = chars_of(title);
    if crate::text::starts_with_str(&t, "Python version mismatch") || crate::text::starts_with_str(&t, "pyproject.toml missing")
        || crate::text::starts_with_str(&t, "uv.lock missing") {
        "project"
    } else if crate::text::starts_with_str(&t, "runtime files") || crate::text::starts_with_str(&t, "runtime components")
        || crate::text::starts_with_str(&t, "required directories") {
        "runtime"
    } else {
        "environment"
    }
}

/// The first detail that starts with `found: `, without that prefix.
pub open spec fn first_found(details: Seq<Seq<char>>) -> Option<Seq<char>>
    decreases details.len(),
{
    if details.len() == 0 {
        None
    } else {
        match crate::text::strip_prefix(details[0], "found: "@) {
            Some(rest) => Some(rest),
            None => first_found(details.skip(1)),
        }
    }
}

/// The text an attention item is shown with: its title, or for native tool
/// shims the tools found.
pub open spec fn attention_body(item: (Seq<char>, Seq<Seq<char>>)) -> Seq<char> {
    if item.0 == "Python environment contains native build tool shims"@ {
        match first_found(item.1) {
            Some(found) => "native build tool shims: "@ + found,
            None => item.0,
        }
    } else {
        item.0
    }
}

pub fn compact_attention_body(item: &Attention) -> (r: String)
    ensures
        r@ == attention_body(item@),
{
    if crate::text::str_eq(item.title.as_str(), "Python environment contains native build tool shims") {
        let ghost ds = strs(item.details@);
        let mut i: usize = 0;
        assert(ds.skip(0) =~= ds);
        while i < item.details.len()
            invariant
                i <= item.details.len(),
                ds == strs(item.details@),
                item@.0 == "Python environment contains native build tool shims"@,
                first_found(ds) == first_found(ds.skip(i as int)),
            decreases item.details.len() - i,
        {
            assert(ds.skip(i as int)[0] == item.details@[i as int]@);
            assert(ds.skip(i as int).skip(1) =~= ds.skip(i + 1));
            match crate::text::strip_prefix_str(&chars_of(item.details[i].as_str()), "found: ") {
                Some(rest) => {
                    assert(crate::text::strip_prefix(ds.skip(i as int)[0], "found: "@) == Some(rest@));
                    assert(first_found(ds.skip(i as int)) == Some(rest@));
                    assert(item@.0 == "Python environment contains native build tool shims"@);
                    return concat("native build tool shims: ", string_of(&rest).as_str());
                },
                None => {},
            }
            i = i + 1;
        }
    }
    item.title.clone()
}

/// A detail line as printed: the same text, its `run:`, `note:` and `deep:`
/// prefixes and commands styled.
pub fn summary_detail(config: Config, detail: &str) -> (r: String)
    ensures
        renders(config, r@, detail@),
{
    proof {
        reveal_strlit("run: ");
        reveal_strlit("run:");
        reveal_strlit(" ");
        reveal_strlit("     ");
        reveal_strlit("note: ");
        reveal_strlit("note:");
        reveal_strlit("deep: ");
        reveal_strlit("deep:");
    }
    let d = chars_of(detail);
    match crate::text::strip_prefix_str(&d, "run: ") {
        Some(command) => {
            assert(d@ =~= "run: "@ + command@);
            assert("run: "@ =~= "run:"@ + " "@);
            let c = string_of(&command);
            let head = glue_text(config, label(config, "run:", LabelKind::Hint).as_str(), Ghost("run:"@), " ");
            let r = glue(config, head.as_str(), Ghost("run:"@ + " "@), label(config, c.as_str(), LabelKind::Command).as_str(), Ghost(c@));
            assert("run:"@ + " "@ + c@ =~= detail@);
            return r;
        },
        None => {},
    }
    match crate::text::strip_prefix_str(&d, "     ") {
        Some(command) => {
            assert(d@ =~= "     "@ + command@);
            let c = string_of(&command);
            return text_glue(config, "     ", label(config, c.as_str(), LabelKind::Command).as_str(), Ghost(c@));
        },
        None => {},
    }
    match crate::text::strip_prefix_str(&d, "note: ") {
        Some(note) => {
            assert(d@ =~= "note: "@ + note@);
            assert("note: "@ =~= "note:"@ + " "@);
            let rest = concat(" ", string_of(&note).as_str());
            let r = glue_text(config, label(config, "note:", LabelKind::Hint).as_str(), Ghost("note:"@), rest.as_str());
            assert("note:"@ + rest@ =~= detail@);
            return r;
        },
        None => {},
    }
    match crate::text::strip_prefix_str(&d, "deep: ") {
        Some(command) => {
            assert(d@ =~= "deep: "@ + command@);
            assert("deep: "@ =~= "deep:"@ + " "@);
            let c = string_of(&command);
            let head = glue_text(config, label(config, "deep:", LabelKind::Hint).as_str(), Ghost("deep:"@), " ");
            let r = glue(config, head.as_str(), Ghost("deep:"@ + " "@), label(config, c.as_str(), LabelKind::Command).as_str(), Ghost(c@));
            assert("deep:"@ + " "@ + c@ =~= detail@);
            return r;
        },
        None => {},
    }
    crate::ui::inline(config, detail)
}

/// The lines of one attention item.
pub open spec fn item_lines(item: (Seq<char>, Seq<Seq<char>>)) -> Seq<Seq<char>> {
    seq!["! "@ + attention_row(item.0) + ":: "@ + attention_body(item)] + item.1.map_values(|d: Seq<char>| "  "@ + d)
}

pub open spec fn attention_lines(items: Seq<(Seq<char>, Seq<Seq<char>>)>) -> Seq<Seq<char>>
    decreases items.len(),
{
    if items.len() == 0 {
        Seq::empty()
    } else {
        attention_lines(items.drop_last()) + item_lines(items.last())
    }
}

/// A `✓ row:: items` line, when there are items.
pub open spec fn ready_row(name: Seq<char>, items: Seq<Seq<char>>) -> Seq<Seq<char>> {
    if items.len() == 0 {
        Seq::empty()
    } else {
        seq!["✓ "@ + name + ":: "@ + join(items, ", "@)]
    }
}

/// The summary as printed in plain output: the header with the status and
/// counts, the workspace, the ready rows, the attention items, and the note
/// that deep probes were skipped.
pub open spec fn summary_text(env_name: Seq<char>, python: Seq<char>, workspace: Seq<char>, s: SummaryView, deep: bool) -> Seq<Seq<char>> {
    let header = env_name + "  "@ + (if s.issues == 0 {
        "ok"@
    } else {
        "error"@
    }) + "  python="@ + python + "  "@ + count_text(s.warnings, "warning"@) + (if s.issues == 0 {
        Seq::<char>::empty()
    } else {
        "  "@ + count_text(s.issues, "issue"@)
    });
    seq![header, workspace] + ready_row("project"@, s.project) + ready_row("runtime"@, s.runtime) + ready_row(
        "environment"@,
        s.environment,
    ) + attention_lines(s.attention) + (if deep {
        Seq::<Seq<char>>::empty()
    } else {
        seq!["! skipped:: deep runtime probes: robo check --deep"@]
    })
}

/// `MARK HEAD: BODY`, the mark and head labelled and the body inline.
fn marked_line(config: Config, mark: &str, kind: LabelKind, head: &str, body: &str) -> (r: String)
    ensures
        renders(config, r@, mark@ + " "@ + head@ + ": "@ + body@),
{
    let x1 = glue_text(config, label(config, mark, kind).as_str(), Ghost(mark@), " ");
    let x2 = glue(config, x1.as_str(), Ghost(mark@ + " "@), label(config, head, LabelKind::Status).as_str(), Ghost(head@));
    let x3 = glue_text(config, x2.as_str(), Ghost(mark@ + " "@ + head@), ": ");
    glue(config, x3.as_str(), Ghost(mark@ + " "@ + head@ + ": "@), crate::ui::inline(config, body).as_str(), Ghost(body@))
}

fn compact_row(config: Config, kind: LabelKind, name: &str, items: &Vec<String>, out: &mut Rendered)
    requires
        old(out).fits(config),
    ensures
        final(out).fits(config),
        final(out).plain@ == old(out).plain@ + ready_row(name@, strs(items@)),
{
    if items.len() == 0 {
        proof {
            assert(out.plain@ + ready_row(name@, strs(items@)) =~= out.plain@);
        }
        return;
    }
    let body = join_strings(items, ", ");
    let head = concat(name, ":");
    let line = marked_line(config, "✓", kind, head.as_str(), body.as_str());
    proof {
        reveal_strlit("✓ ");
        reveal_strlit("✓");
        reveal_strlit(" ");
        reveal_strlit(":");
        reveal_strlit(": ");
        reveal_strlit(":: ");
        assert("✓"@ + " "@ + head@ + ": "@ + body@ =~= "✓ "@ + name@ + ":: "@ + join(strs(items@), ", "@));
    }
    out.push(config, line, Ghost("✓ "@ + name@ + ":: "@ + join(strs(items@), ", "@)));
    assert(strs(items@).len() > 0);
    assert(out.plain@ =~= old(out).plain@ + ready_row(name@, strs(items@)));
}

fn item_rows(config: Config, item: &Attention, out: &mut Rendered)
    requires
        old(out).fits(config),
    ensures
        final(out).fits(config),
        final(out).plain@ == old(out).plain@ + item_lines(item@),
{
    let row = compact_attention_label(item.title.as_str());
    let body = compact_attention_body(item);
    let head = concat(row, ":");
    let line = marked_line(config, "!", LabelKind::Warn, head.as_str(), body.as_str());
    let ghost start = out.plain@;
    proof {
        reveal_strlit("! ");
        reveal_strlit("!");
        reveal_strlit(" ");
        reveal_strlit(":");
        reveal_strlit(": ");
        reveal_strlit(":: ");
        assert("!"@ + " "@ + head@ + ": "@ + body@ =~= "! "@ + attention_row(item@.0) + ":: "@ + attention_body(item@));
    }
    out.push(config, line, Ghost("! "@ + attention_row(item@.0) + ":: "@ + attention_body(item@)));
    let ghost first = "! "@ + attention_row(item@.0) + ":: "@ + attention_body(item@);
    let ghost ds = strs(item.details@);
    let mut i: usize = 0;
    assert(ds.take(0).map_values(|d: Seq<char>| "  "@ + d) =~= Seq::<Seq<char>>::empty());
    while i < item.details.len()
        invariant
            i <= item.details.len(),
            ds == strs(item.details@),
            out.fits(config),
            out.plain@ == start.push(first) + ds.take(i as int).map_values(|d: Seq<char>| "  "@ + d),
        decreases item.details.len() - i,
    {
        let d = text_glue(config, "  ", summary_detail(config, item.details[i].as_str()).as_str(), Ghost(item.details@[i as int]@));
        out.push(config, d, Ghost("  "@ + ds[i as int]));
        assert(ds.take(i + 1).map_values(|d: Seq<char>| "  "@ + d) =~= ds.take(i as int).map_values(|d: Seq<char>| "  "@ + d).push("  "@ + ds[i as int]));
        i = i + 1;
    }
    proof {
        assert(ds.take(item.details.len() as int) == ds);
        assert(out.plain@ =~= start + item_lines(item@));
    }
}

/// The summary's lines, as `robo status` prints them.
pub fn summary_lines(config: Config, env_name: &str, python: &str, workspace: &str, s: &Summary, deep: bool) -> (r: Vec<String>)
    ensures
        renders_lines(config, strs(r@), summary_text(env_name@, python@, workspace@, s@, deep)),
{
    let status = if s.issues == 0 {
        "ok"
    } else {
        "error"
    };
    let status_kind = if s.issues == 0 {
        LabelKind::Pass
    } else {
        LabelKind::Error
    };
    proof {
        reveal_strlit("");
        reveal_strlit("  ");
        reveal_strlit("  python=");
    }
    let start = concat(env_name, "  ");
    let h1 = text_glue(config, start.as_str(), label(config, status, status_kind).as_str(), Ghost(status@));
    let tail = concat3("  python=", python, "  ");
    let h2 = glue_text(config, h1.as_str(), Ghost(start@ + status@), tail.as_str());
    let warnings = count_label(config, s.warnings, "warning", LabelKind::Warn);
    let h3 = glue(config, h2.as_str(), Ghost(start@ + status@ + tail@), warnings.as_str(), Ghost(count_text(s@.warnings, "warning"@)));
    let ghost t3 = start@ + status@ + tail@ + count_text(s@.warnings, "warning"@);
    let header = if s.issues == 0 {
        proof {
            crate::ui::lemma_shows_itself(Seq::<char>::empty());
            crate::ui::lemma_shows_concat(h3@, t3, Seq::<char>::empty(), Seq::<char>::empty());
            assert(h3@ + Seq::<char>::empty() =~= h3@);
            assert(t3 + Seq::<char>::empty() =~= t3);
        }
        h3
    } else {
        let n = count_label(config, s.issues, "issue", LabelKind::Error);
        let i = text_glue(config, "  ", n.as_str(), Ghost(count_text(s@.issues, "issue"@)));
        glue(config, h3.as_str(), Ghost(t3), i.as_str(), Ghost("  "@ + count_text(s@.issues, "issue"@)))
    };
    let ghost expected = env_name@ + "  "@ + (if s@.issues == 0 {
        "ok"@
    } else {
        "error"@
    }) + "  python="@ + python@ + "  "@ + count_text(s@.warnings, "warning"@) + (if s@.issues == 0 {
        Seq::<char>::empty()
    } else {
        "  "@ + count_text(s@.issues, "issue"@)
    });
    proof {
        if s.issues == 0 {
            assert(t3 =~= expected);
        } else {
            assert(t3 + ("  "@ + count_text(s@.issues, "issue"@)) =~= expected);
        }
    }
    let mut out = Rendered::new(config);
    out.push(config, header, Ghost(expected));
    out.push_text(config, workspace.to_string());
    compact_row(config, LabelKind::Pass, "project", &s.project_ready, &mut out);
    compact_row(config, LabelKind::Pass, "runtime", &s.runtime_ready, &mut out);
    compact_row(config, LabelKind::Pass, "environment", &s.environment_ready, &mut out);
    let ghost before_items = out.plain@;
    let ghost items = attention_view(s.attention@);
    let mut i: usize = 0;
    assert(before_items + attention_lines(items.take(0)) =~= before_items);
    while i < s.attention.len()
        invariant
            i <= s.attention.len(),
            items == attention_view(s.attention@),
            out.fits(config),
            out.plain@ == before_items + attention_lines(items.take(i as int)),
        decreases s.attention.len() - i,
    {
        item_rows(config, &s.attention[i], &mut out);
        proof {
            assert(items.take(i + 1).drop_last() =~= items.take(i as int));
            assert(items.take(i + 1).last() == s.attention@[i as int]@);
            assert(out.plain@ =~= before_items + attention_lines(items.take(i + 1)));
        }
        i = i + 1;
    }
    assert(items.take(s.attention.len() as int) == items);
    if !deep {
        proof {
            reveal_strlit("!");
            reveal_strlit(" ");
            reveal_strlit("skipped:");
            reveal_strlit(": ");
            reveal_strlit("deep runtime probes");
            reveal_strlit("robo check --deep");
            reveal_strlit("! skipped:: deep runtime probes: robo check --deep");
        }
        let body = text_glue(config, ": ", label(config, "robo check --deep", LabelKind::Command).as_str(), Ghost("robo check --deep"@));
        let inner = glue(
            config,
            crate::ui::inline(config, "deep runtime probes").as_str(),
            Ghost("deep runtime probes"@),
            body.as_str(),
            Ghost(": "@ + "robo check --deep"@),
        );
        let line = marked_line_shown(config, inner.as_str(), Ghost("deep runtime probes"@ + (": "@ + "robo check --deep"@)));
        assert("!"@ + " "@ + "skipped:"@ + ": "@ + ("deep runtime probes"@ + (": "@ + "robo check --deep"@))
            =~= "! skipped:: deep runtime probes: robo check --deep"@);
        out.push(config, line, Ghost("! skipped:: deep runtime probes: robo check --deep"@));
    }
    assert(out.plain@ =~= summary_text(env_name@, python@, workspace@, s@, deep));
    out.lines
}

/// `! skipped: BODY`, with the body already rendered.
fn marked_line_shown(config: Config, body: &str, Ghost(tb): Ghost<Seq<char>>) -> (r: String)
    requires
        renders(config, body@, tb),
    ensures
        renders(config, r@, "!"@ + " "@ + "skipped:"@ + ": "@ + tb),
{
    let x1 = glue_text(config, label(config, "!", LabelKind::Warn).as_str(), Ghost("!"@), " ");
    let x2 = glue(config, x1.as_str(), Ghost("!"@ + " "@), label(config, "skipped:", LabelKind::Status).as_str(), Ghost("skipped:"@));
    let x3 = glue_text(config, x2.as_str(), Ghost("!"@ + " "@ + "skipped:"@), ": ");
    glue(config, x3.as_str(), Ghost("!"@ + " "@ + "skipped:"@ + ": "@), body, Ghost(tb))
}

} // verus!
