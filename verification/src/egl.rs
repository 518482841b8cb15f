//! The graphics probe: parsing the `KEY=value` lines a probe script prints,
//! and turning the parsed probe into findings and summary rows.
use vstd::prelude::*;

use crate::text::{
    chars_of, concat, concat3, contains, contains_str, ends_with_str, eq_str, is_prefix,
    is_suffix, lines, lines_of, lower, lowercase, owned, split, split_str, starts_with_str,
    string_of, strip_prefix, strip_prefix_str, views, Sep,
};

verus! {

#[derive(Debug, Clone, PartialEq, Eq)]
pub struct VendorFile {
    pub path: String,
    pub exists: bool,
}

/// What the probe script reported.
#[derive(Debug, Clone, PartialEq, Eq)]
pub struct Probe {
    pub session_type: Option<String>,
    pub wayland_display: Option<String>,
    pub display: Option<String>,
    pub libgl_always_software: Option<String>,
    pub mesa_loader_driver_override: Option<String>,
    pub gbm_backend: Option<String>,
    pub container: Option<String>,
    pub libegl: Option<String>,
    pub vendor_files: Vec<VendorFile>,
    pub vendor_unset: bool,
    pub dev_dri: Option<String>,
    pub run_opengl_driver: bool,
    pub host_graphics_auto: Option<String>,
    pub host_graphics_lib_dirs_auto: Option<String>,
    pub glxinfo_missing: bool,
    pub glxinfo_direct: Option<String>,
    pub glxinfo_vendor: Option<String>,
    pub glxinfo_renderer: Option<String>,
    pub glxinfo_version: Option<String>,
}

pub type Text = Seq<char>;

pub struct ProbeView {
    pub session_type: Option<Text>,
    pub wayland_display: Option<Text>,
    pub display: Option<Text>,
    pub libgl_always_software: Option<Text>,
    pub mesa_loader_driver_override: Option<Text>,
    pub gbm_backend: Option<Text>,
    pub container: Option<Text>,
    pub libegl: Option<Text>,
    pub vendor_files: Seq<(Text, bool)>,
    pub vendor_unset: bool,
    pub dev_dri: Option<Text>,
    pub run_opengl_driver: bool,
    pub host_graphics_auto: Option<Text>,
    pub host_graphics_lib_dirs_auto: Option<Text>,
    pub glxinfo_missing: bool,
    pub glxinfo_direct: Option<Text>,
    pub glxinfo_vendor: Option<Text>,
    pub glxinfo_renderer: Option<Text>,
    pub glxinfo_version: Option<Text>,
}

pub open spec fn opt_view(o: Option<String>) -> Option<Text> {
    match o {
        Some(s) => Some(s@),
        None => None,
    }
}

pub open spec fn vendor_views(v: Seq<VendorFile>) -> Seq<(Text, bool)> {
    v.map_values(|f: VendorFile| (f.path@, f.exists))
}

impl View for Probe {
    type V = ProbeView;

    open spec fn view(&self) -> ProbeView {
        ProbeView {
            session_type: opt_view(self.session_type),
            wayland_display: opt_view(self.wayland_display),
            display: opt_view(self.display),
            libgl_always_software: opt_view(self.libgl_always_software),
            mesa_loader_driver_override: opt_view(self.mesa_loader_driver_override),
            gbm_backend: opt_view(self.gbm_backend),
            container: opt_view(self.container),
            libegl: opt_view(self.libegl),
            vendor_files: vendor_views(self.vendor_files@),
            vendor_unset: self.vendor_unset,
            dev_dri: opt_view(self.dev_dri),
            run_opengl_driver: self.run_opengl_driver,
            host_graphics_auto: opt_view(self.host_graphics_auto),
            host_graphics_lib_dirs_auto: opt_view(self.host_graphics_lib_dirs_auto),
            glxinfo_missing: self.glxinfo_missing,
            glxinfo_direct: opt_view(self.glxinfo_direct),
            glxinfo_vendor: opt_view(self.glxinfo_vendor),
            glxinfo_renderer: opt_view(self.glxinfo_renderer),
            glxinfo_version: opt_view(self.glxinfo_version),
        }
    }
}

/// Nothing reported: no values, no vendor files, no flags.
pub open spec fn empty_probe() -> ProbeView {
    ProbeView {
        session_type: None,
        wayland_display: None,
        display: None,
        libgl_always_software: None,
        mesa_loader_driver_override: None,
        gbm_backend: None,
        container: None,
        libegl: None,
        vendor_files: Seq::empty(),
        vendor_unset: false,
        dev_dri: None,
        run_opengl_driver: false,
        host_graphics_auto: None,
        host_graphics_lib_dirs_auto: None,
        glxinfo_missing: false,
        glxinfo_direct: None,
        glxinfo_vendor: None,
        glxinfo_renderer: None,
        glxinfo_version: None,
    }
}

impl Default for Probe {
    fn default() -> (r: Probe)
        ensures
            r@ == empty_probe(),
    {
        let r = Probe {
            session_type: None,
            wayland_display: None,
            display: None,
            libgl_always_software: None,
            mesa_loader_driver_override: None,
            gbm_backend: None,
            container: None,
            libegl: None,
            vendor_files: Vec::new(),
            vendor_unset: false,
            dev_dri: None,
            run_opengl_driver: false,
            host_graphics_auto: None,
            host_graphics_lib_dirs_auto: None,
            glxinfo_missing: false,
            glxinfo_direct: None,
            glxinfo_vendor: None,
            glxinfo_renderer: None,
            glxinfo_version: None,
        };
        assert(r@.vendor_files =~= Seq::<(Text, bool)>::empty());
        r
    }
}

#[derive(Debug, Clone, Copy, PartialEq, Eq)]
pub enum FindingKind {
    Pass,
    Warn,
    Error,
}

#[derive(Debug, Clone, PartialEq, Eq)]
pub struct Finding {
    pub kind: FindingKind,
    pub message: String,
    pub hint: Option<&'static str>,
}

pub struct FindingView {
    pub kind: FindingKind,
    pub message: Text,
    pub hint: Option<&'static str>,
}

impl View for Finding {
    type V = FindingView;

    open spec fn view(&self) -> FindingView {
        FindingView { kind: self.kind, message: self.message@, hint: self.hint }
    }
}

pub open spec fn finding_views(v: Seq<Finding>) -> Seq<FindingView> {
    v.map_values(|f: Finding| f@)
}

pub open spec fn fv(kind: FindingKind, message: Text, hint: Option<&'static str>) -> FindingView {
    FindingView { kind, message, hint }
}

#[derive(Debug, Clone, Copy, PartialEq, Eq)]
pub enum MujocoContext {
    Ready,
    SkippedMissingVenv,
    NotSelected,
}

#[derive(Debug, Clone, PartialEq, Eq)]
pub struct SummaryRow {
    pub kind: FindingKind,
    pub name: &'static str,
    pub value: String,
}

pub struct RowView {
    pub kind: FindingKind,
    pub name: &'static str,
    pub value: Text,
}

impl View for SummaryRow {
    type V = RowView;

    open spec fn view(&self) -> RowView {
        RowView { kind: self.kind, name: self.name, value: self.value@ }
    }
}

pub open spec fn rv(kind: FindingKind, name: &'static str, value: Text) -> RowView {
    RowView { kind, name, value }
}

pub open spec fn row_views(v: Seq<SummaryRow>) -> Seq<RowView> {
    v.map_values(|r: SummaryRow| r@)
}

#[derive(Debug, Clone, PartialEq, Eq)]
pub struct SummarySection {
    pub title: &'static str,
    pub rows: Vec<SummaryRow>,
}

impl Finding {
    pub fn ok(message: String) -> (r: Finding)
        ensures
            r@ == fv(FindingKind::Pass, message@, None),
    {
        Finding { kind: FindingKind::Pass, message, hint: None }
    }

    pub fn warn(message: String, hint: &'static str) -> (r: Finding)
        ensures
            r@ == fv(FindingKind::Warn, message@, Some(hint)),
    {
        Finding { kind: FindingKind::Warn, message, hint: Some(hint) }
    }

    pub fn error(message: String, hint: &'static str) -> (r: Finding)
        ensures
            r@ == fv(FindingKind::Error, message@, Some(hint)),
    {
        Finding { kind: FindingKind::Error, message, hint: Some(hint) }
    }
}

// ---------------------------------------------------------------------
// Parsing
// ---------------------------------------------------------------------

pub open spec fn non_empty_spec(v: Text) -> Option<Text> {
    if v.len() == 0 {
        None
    } else {
        Some(v)
    }
}

/// The probe after reading one more line: the first key the line starts
/// with sets its field; other lines change nothing.
pub open spec fn apply_line(p: ProbeView, line: Text) -> ProbeView {
    if let Some(v) = strip_prefix(line, "XDG_SESSION_TYPE="@) {
        ProbeView { session_type: non_empty_spec(v), ..p }
    } else if let Some(v) = strip_prefix(line, "WAYLAND_DISPLAY="@) {
        ProbeView { wayland_display: non_empty_spec(v), ..p }
    } else if let Some(v) = strip_prefix(line, "DISPLAY="@) {
        ProbeView { display: non_empty_spec(v), ..p }
    } else if let Some(v) = strip_prefix(line, "LIBGL_ALWAYS_SOFTWARE="@) {
        ProbeView { libgl_always_software: non_empty_spec(v), ..p }
    } else if let Some(v) = strip_prefix(line, "MESA_LOADER_DRIVER_OVERRIDE="@) {
        ProbeView { mesa_loader_driver_override: non_empty_spec(v), ..p }
    } else if let Some(v) = strip_prefix(line, "GBM_BACKEND="@) {
        ProbeView { gbm_backend: non_empty_spec(v), ..p }
    } else if let Some(v) = strip_prefix(line, "CONTAINER=present:"@) {
        ProbeView { container: Some(v), ..p }
    } else if line == "CONTAINER=none:"@ {
        ProbeView { container: None, ..p }
    } else if let Some(v) = strip_prefix(line, "LIBEGL="@) {
        ProbeView { libegl: non_empty_spec(v), ..p }
    } else if line == "EGL_VENDOR_FILE=unset:"@ {
        ProbeView { vendor_unset: true, ..p }
    } else if let Some(v) = strip_prefix(line, "EGL_VENDOR_FILE=exists:"@) {
        ProbeView { vendor_files: p.vendor_files.push((v, true)), ..p }
    } else if let Some(v) = strip_prefix(line, "EGL_VENDOR_FILE=missing:"@) {
        ProbeView { vendor_files: p.vendor_files.push((v, false)), ..p }
    } else if let Some(v) = strip_prefix(line, "DEV_DRI=present:"@) {
        ProbeView { dev_dri: Some(v), ..p }
    } else if line == "DEV_DRI=missing:"@ {
        ProbeView { dev_dri: None, ..p }
    } else if line == "RUN_OPENGL_DRIVER=present:/run/opengl-driver"@ {
        ProbeView { run_opengl_driver: true, ..p }
    } else if let Some(v) = strip_prefix(line, "ROBO_NIX_HOST_GRAPHICS_AUTO="@) {
        ProbeView { host_graphics_auto: non_empty_spec(v), ..p }
    } else if let Some(v) = strip_prefix(line, "ROBO_NIX_HOST_GRAPHICS_LIB_DIRS_AUTO="@) {
        ProbeView { host_graphics_lib_dirs_auto: non_empty_spec(v), ..p }
    } else if line == "GLXINFO=missing:"@ {
        ProbeView { glxinfo_missing: true, ..p }
    } else if let Some(v) = strip_prefix(line, "GLXINFO_DIRECT="@) {
        ProbeView { glxinfo_direct: non_empty_spec(v), ..p }
    } else if let Some(v) = strip_prefix(line, "GLXINFO_VENDOR="@) {
        ProbeView { glxinfo_vendor: non_empty_spec(v), ..p }
    } else if let Some(v) = strip_prefix(line, "GLXINFO_RENDERER="@) {
        ProbeView { glxinfo_renderer: non_empty_spec(v), ..p }
    } else if let Some(v) = strip_prefix(line, "GLXINFO_VERSION="@) {
        ProbeView { glxinfo_version: non_empty_spec(v), ..p }
    } else {
        p
    }
}

pub open spec fn parse_lines(ls: Seq<Text>) -> ProbeView
    decreases ls.len(),
{
    if ls.len() == 0 {
        empty_probe()
    } else {
        apply_line(parse_lines(ls.drop_last()), ls.last())
    }
}

/// The probe described by the script's output, read line by line.
pub open spec fn parse_spec(text: Text) -> ProbeView {
    parse_lines(lines(text))
}

/// `Some` of the value when it is not empty.
pub fn non_empty(value: &Vec<char>) -> (r: Option<String>)
    ensures
        opt_view(r) == non_empty_spec(value@),
{
    if value.len() == 0 {
        None
    } else {
        Some(string_of(value))
    }
}

fn apply_probe_line(probe: &mut Probe, line: &Vec<char>)
    ensures
        final(probe)@ == apply_line(old(probe)@, line@),
{
    if let Some(v) = strip_prefix_str(line, "XDG_SESSION_TYPE=") {
        probe.session_type = non_empty(&v);
    } else if let Some(v) = strip_prefix_str(line, "WAYLAND_DISPLAY=") {
        probe.wayland_display = non_empty(&v);
    } else if let Some(v) = strip_prefix_str(line, "DISPLAY=") {
        probe.display = non_empty(&v);
    } else if let Some(v) = strip_prefix_str(line, "LIBGL_ALWAYS_SOFTWARE=") {
        probe.libgl_always_software = non_empty(&v);
    } else if let Some(v) = strip_prefix_str(line, "MESA_LOADER_DRIVER_OVERRIDE=") {
        probe.mesa_loader_driver_override = non_empty(&v);
    } else if let Some(v) = strip_prefix_str(line, "GBM_BACKEND=") {
        probe.gbm_backend = non_empty(&v);
    } else if let Some(v) = strip_prefix_str(line, "CONTAINER=present:") {
        probe.container = Some(string_of(&v));
    } else if eq_str(line, "CONTAINER=none:") {
        probe.container = None;
    } else if let Some(v) = strip_prefix_str(line, "LIBEGL=") {
        probe.libegl = non_empty(&v);
    } else if eq_str(line, "EGL_VENDOR_FILE=unset:") {
        probe.vendor_unset = true;
    } else if let Some(v) = strip_prefix_str(line, "EGL_VENDOR_FILE=exists:") {
        let ghost before = probe.vendor_files@;
        probe.vendor_files.push(VendorFile { path: string_of(&v), exists: true });
        assert(vendor_views(probe.vendor_files@) =~= vendor_views(before).push((v@, true)));
    } else if let Some(v) = strip_prefix_str(line, "EGL_VENDOR_FILE=missing:") {
        let ghost before = probe.vendor_files@;
        probe.vendor_files.push(VendorFile { path: string_of(&v), exists: false });
        assert(vendor_views(probe.vendor_files@) =~= vendor_views(before).push((v@, false)));
    } else if let Some(v) = strip_prefix_str(line, "DEV_DRI=present:") {
        probe.dev_dri = Some(string_of(&v));
    } else if eq_str(line, "DEV_DRI=missing:") {
        probe.dev_dri = None;
    } else if eq_str(line, "RUN_OPENGL_DRIVER=present:/run/opengl-driver") {
        probe.run_opengl_driver = true;
    } else if let Some(v) = strip_prefix_str(line, "ROBO_NIX_HOST_GRAPHICS_AUTO=") {
        probe.host_graphics_auto = non_empty(&v);
    } else if let Some(v) = strip_prefix_str(line, "ROBO_NIX_HOST_GRAPHICS_LIB_DIRS_AUTO=") {
        probe.host_graphics_lib_dirs_auto = non_empty(&v);
    } else if eq_str(line, "GLXINFO=missing:") {
        probe.glxinfo_missing = true;
    } else if let Some(v) = strip_prefix_str(line, "GLXINFO_DIRECT=") {
        probe.glxinfo_direct = non_empty(&v);
    } else if let Some(v) = strip_prefix_str(line, "GLXINFO_VENDOR=") {
        probe.glxinfo_vendor = non_empty(&v);
    } else if let Some(v) = strip_prefix_str(line, "GLXINFO_RENDERER=") {
        probe.glxinfo_renderer = non_empty(&v);
    } else if let Some(v) = strip_prefix_str(line, "GLXINFO_VERSION=") {
        probe.glxinfo_version = non_empty(&v);
    }
}

/// Parses the probe script's output.
pub fn parse(text: &str) -> (r: Probe)
    ensures
        r@ == parse_spec(text@),
{
    let mut probe = Probe::default();
    let v = chars_of(text);
    let ls = lines_of(&v);
    let ghost lv = views(ls@);
    let mut i: usize = 0;
    while i < ls.len()
        invariant
            i <= ls.len(),
            lv == views(ls@),
            lv == lines(text@),
            probe@ == parse_lines(lv.take(i as int)),
        decreases ls.len() - i,
    {
        assert(lv.take(i + 1).drop_last() == lv.take(i as int));
        apply_probe_line(&mut probe, &ls[i]);
        i = i + 1;
    }
    assert(lv.take(ls.len() as int) == lv);
    probe
}

// ---------------------------------------------------------------------
// Findings
// ---------------------------------------------------------------------

pub open spec fn is_some_eq(o: Option<Text>, lit: Text) -> bool {
    o == Some(lit)
}

/// Which display case the probe falls in: 0 Wayland, 1 X11, 2 other
/// session with DISPLAY, 3 session without any display, 4 nothing.
pub open spec fn display_case(p: ProbeView) -> int {
    if p.session_type == Some("wayland"@) && p.wayland_display is Some {
        0
    } else if (p.session_type == Some("x11"@) || p.session_type is None) && p.display is Some {
        1
    } else if p.session_type is Some && p.wayland_display is None && p.display is Some {
        2
    } else if p.session_type is Some && p.wayland_display is None && p.display is None {
        3
    } else {
        4
    }
}

fn display_case_of(probe: &Probe) -> (r: u8)
    ensures
        r as int == display_case(probe@),
{
    let wayland_session = match &probe.session_type {
        Some(s) => {
            let v = chars_of(s.as_str());
            eq_str(&v, "wayland")
        },
        None => false,
    };
    let x11_session = match &probe.session_type {
        Some(s) => {
            let v = chars_of(s.as_str());
            eq_str(&v, "x11")
        },
        None => false,
    };
    if wayland_session && probe.wayland_display.is_some() {
        0
    } else if (x11_session || probe.session_type.is_none()) && probe.display.is_some() {
        1
    } else if probe.session_type.is_some() && probe.wayland_display.is_none()
        && probe.display.is_some() {
        2
    } else if probe.session_type.is_some() && probe.wayland_display.is_none()
        && probe.display.is_none() {
        3
    } else {
        4
    }
}

pub open spec fn unwrap_text(o: Option<Text>) -> Text {
    match o {
        Some(t) => t,
        None => Seq::empty(),
    }
}

fn text_of(o: &Option<String>) -> (r: &str)
    requires
        o is Some,
    ensures
        r@ == unwrap_text(opt_view(*o)),
{
    match o {
        Some(s) => s.as_str(),
        None => "",
    }
}

pub open spec fn display_finding_spec(p: ProbeView) -> FindingView {
    let session = unwrap_text(p.session_type);
    let wayland = unwrap_text(p.wayland_display);
    let display = unwrap_text(p.display);
    let c = display_case(p);
    if c == 0 {
        fv(FindingKind::Pass, "Wayland display is visible ("@ + wayland + ")"@, None)
    } else if c == 1 {
        fv(FindingKind::Pass, "X11 display is visible ("@ + display + ")"@, None)
    } else if c == 2 {
        fv(
            FindingKind::Pass,
            "display is visible ("@ + session + ", DISPLAY="@ + display + ")"@,
            None,
        )
    } else if c == 3 {
        fv(
            FindingKind::Warn,
            "graphics session is "@ + session + " but no display socket variable is set"@,
            Some(
                "run graphical simulator viewers from a desktop session or pass through the display socket to the container",
            ),
        )
    } else {
        fv(
            FindingKind::Warn,
            "no Wayland or X11 display variable is visible in the runtime shell"@,
            Some("set WAYLAND_DISPLAY or DISPLAY by running from a graphical desktop session"),
        )
    }
}

pub fn display_finding(probe: &Probe) -> (r: Finding)
    ensures
        r@ == display_finding_spec(probe@),
{
    let c = display_case_of(probe);
    if c == 0 {
        let m = concat3("Wayland display is visible (", text_of(&probe.wayland_display), ")");
        Finding::ok(m)
    } else if c == 1 {
        let m = concat3("X11 display is visible (", text_of(&probe.display), ")");
        Finding::ok(m)
    } else if c == 2 {
        let mut m = concat3("display is visible (", text_of(&probe.session_type), ", DISPLAY=");
        m.append(text_of(&probe.display));
        m.append(")");
        Finding::ok(m)
    } else if c == 3 {
        let m = concat3(
            "graphics session is ",
            text_of(&probe.session_type),
            " but no display socket variable is set",
        );
        Finding::warn(
            m,
            "run graphical simulator viewers from a desktop session or pass through the display socket to the container",
        )
    } else {
        Finding::warn(
            owned("no Wayland or X11 display variable is visible in the runtime shell"),
            "set WAYLAND_DISPLAY or DISPLAY by running from a graphical desktop session",
        )
    }
}

pub open spec fn libegl_finding_spec(p: ProbeView) -> FindingView {
    match p.libegl {
        Some(path) => fv(FindingKind::Pass, "libEGL is visible at "@ + path, None),
        None => fv(
            FindingKind::Error,
            "libEGL.so.1 is not visible in the runtime library path"@,
            Some("include the desktop-gl component for desktop OpenGL/EGL clients"),
        ),
    }
}

pub fn libegl_finding(probe: &Probe) -> (r: Finding)
    ensures
        r@ == libegl_finding_spec(probe@),
{
    match &probe.libegl {
        Some(path) => Finding::ok(concat("libEGL is visible at ", path.as_str())),
        None => Finding::error(
            owned("libEGL.so.1 is not visible in the runtime library path"),
            "include the desktop-gl component for desktop OpenGL/EGL clients",
        ),
    }
}

pub open spec fn opt_push(s: Seq<FindingView>, f: Option<FindingView>) -> Seq<FindingView> {
    match f {
        Some(x) => s.push(x),
        None => s,
    }
}

pub open spec fn host_container_spec(p: ProbeView) -> Seq<FindingView> {
    let s0: Seq<FindingView> = if p.libgl_always_software == Some("1"@) {
        seq![
            fv(
                FindingKind::Warn,
                "LIBGL_ALWAYS_SOFTWARE=1 forces software rendering"@,
                Some(
                    "unset LIBGL_ALWAYS_SOFTWARE before running simulator viewers that need hardware OpenGL",
                ),
            ),
        ]
    } else {
        Seq::empty()
    };
    let s1 = s0.push(
        match p.dev_dri {
            Some(nodes) => if nodes.len() == 0 {
                fv(
                    FindingKind::Warn,
                    "/dev/dri exists but no DRM device nodes were visible"@,
                    Some(
                        "pass GPU render devices into the container; Distrobox usually needs host /dev/dri visibility for hardware rendering",
                    ),
                )
            } else {
                fv(FindingKind::Pass, "/dev/dri devices visible ("@ + nodes + ")"@, None)
            },
            None => fv(
                FindingKind::Warn,
                "/dev/dri is not visible"@,
                Some(
                    "pass GPU render devices into the container; otherwise OpenGL may fall back to software rendering",
                ),
            ),
        },
    );
    let s2 = opt_push(
        s1,
        match p.container {
            Some(c) => Some(fv(FindingKind::Pass, "container runtime detected ("@ + c + ")"@, None)),
            None => None,
        },
    );
    let s3 = if p.run_opengl_driver {
        s2.push(fv(FindingKind::Pass, "/run/opengl-driver is visible"@, None))
    } else if p.container is Some {
        s2.push(
            fv(
                FindingKind::Warn,
                "/run/opengl-driver is not visible"@,
                Some(
                    "on NixOS hosts, Distrobox may need /run/opengl-driver mounted so container graphics can use the host driver stack",
                ),
            ),
        )
    } else {
        s2
    };
    let s4 = opt_push(
        s3,
        match p.host_graphics_auto {
            Some(m) => Some(
                fv(FindingKind::Pass, "robo host graphics bridge selected "@ + m, None),
            ),
            None => None,
        },
    );
    let s5 = opt_push(
        s4,
        match p.host_graphics_lib_dirs_auto {
            Some(d) => Some(
                fv(FindingKind::Pass, "robo host graphics libraries visible at "@ + d, None),
            ),
            None => None,
        },
    );
    let s6 = opt_push(
        s5,
        match p.mesa_loader_driver_override {
            Some(v) => Some(
                fv(
                    FindingKind::Warn,
                    "MESA_LOADER_DRIVER_OVERRIDE="@ + v + " is set"@,
                    Some(
                        "manual Mesa driver overrides can force the wrong renderer inside containers",
                    ),
                ),
            ),
            None => None,
        },
    );
    opt_push(
        s6,
        match p.gbm_backend {
            Some(v) => Some(fv(FindingKind::Pass, "GBM_BACKEND="@ + v, None)),
            None => None,
        },
    )
}

fn push_finding(out: &mut Vec<Finding>, f: Finding)
    ensures
        finding_views(final(out)@) == finding_views(old(out)@).push(f@),
{
    let ghost before = out@;
    out.push(f);
    assert(finding_views(out@) =~= finding_views(before).push(f@));
}

fn opt_equals(o: &Option<String>, lit: &str) -> (r: bool)
    ensures
        r == (opt_view(*o) == Some(lit@)),
{
    match o {
        Some(s) => {
            let v = chars_of(s.as_str());
            eq_str(&v, lit)
        },
        None => false,
    }
}

/// Findings about forced software rendering, devices, the container and the
/// host graphics bridge.
pub fn host_container_findings(probe: &Probe) -> (r: Vec<Finding>)
    ensures
        finding_views(r@) == host_container_spec(probe@),
{
    let mut findings: Vec<Finding> = Vec::new();
    let p = probe;
    if opt_equals(&p.libgl_always_software, "1") {
        push_finding(
            &mut findings,
            Finding::warn(
                owned("LIBGL_ALWAYS_SOFTWARE=1 forces software rendering"),
                "unset LIBGL_ALWAYS_SOFTWARE before running simulator viewers that need hardware OpenGL",
            ),
        );
    }
    assert(finding_views(findings@) =~= (if probe@.libgl_always_software == Some("1"@) {
        seq![
            fv(
                FindingKind::Warn,
                "LIBGL_ALWAYS_SOFTWARE=1 forces software rendering"@,
                Some(
                    "unset LIBGL_ALWAYS_SOFTWARE before running simulator viewers that need hardware OpenGL",
                ),
            ),
        ]
    } else {
        Seq::<FindingView>::empty()
    }));
    match &p.dev_dri {
        Some(nodes) => {
            if nodes.as_str().is_empty() {
                push_finding(
                    &mut findings,
                    Finding::warn(
                        owned("/dev/dri exists but no DRM device nodes were visible"),
                        "pass GPU render devices into the container; Distrobox usually needs host /dev/dri visibility for hardware rendering",
                    ),
                );
            } else {
                push_finding(
                    &mut findings,
                    Finding::ok(concat3("/dev/dri devices visible (", nodes.as_str(), ")")),
                );
            }
        },
        None => push_finding(
            &mut findings,
            Finding::warn(
                owned("/dev/dri is not visible"),
                "pass GPU render devices into the container; otherwise OpenGL may fall back to software rendering",
            ),
        ),
    }
    if let Some(container) = &p.container {
        push_finding(
            &mut findings,
            Finding::ok(concat3("container runtime detected (", container.as_str(), ")")),
        );
    }
    if p.run_opengl_driver {
        push_finding(&mut findings, Finding::ok(owned("/run/opengl-driver is visible")));
    } else if p.container.is_some() {
        push_finding(
            &mut findings,
            Finding::warn(
                owned("/run/opengl-driver is not visible"),
                "on NixOS hosts, Distrobox may need /run/opengl-driver mounted so container graphics can use the host driver stack",
            ),
        );
    }
    if let Some(manifests) = &p.host_graphics_auto {
        push_finding(
            &mut findings,
            Finding::ok(concat("robo host graphics bridge selected ", manifests.as_str())),
        );
    }
    if let Some(dirs) = &p.host_graphics_lib_dirs_auto {
        push_finding(
            &mut findings,
            Finding::ok(concat("robo host graphics libraries visible at ", dirs.as_str())),
        );
    }
    if let Some(value) = &p.mesa_loader_driver_override {
        push_finding(
            &mut findings,
            Finding::warn(
                concat3("MESA_LOADER_DRIVER_OVERRIDE=", value.as_str(), " is set"),
                "manual Mesa driver overrides can force the wrong renderer inside containers",
            ),
        );
    }
    if let Some(value) = &p.gbm_backend {
        push_finding(&mut findings, Finding::ok(concat("GBM_BACKEND=", value.as_str())));
    }
    findings
}

/// The renderer name marks a software rasterizer.
pub open spec fn software_renderer_spec(renderer: Text) -> bool {
    let r = lower(renderer);
    contains(r, "llvmpipe"@) || contains(r, "softpipe"@) || contains(r, "software rasterizer"@)
        || contains(r, "swrast"@)
}

pub fn software_renderer(renderer: &str) -> (r: bool)
    ensures
        r == software_renderer_spec(renderer@),
{
    let v = chars_of(renderer);
    let l = lowercase(&v);
    contains_str(&l, "llvmpipe") || contains_str(&l, "softpipe") || contains_str(
        &l,
        "software rasterizer",
    ) || contains_str(&l, "swrast")
}

pub open spec fn renderer_spec(p: ProbeView) -> Seq<FindingView> {
    if p.glxinfo_missing && p.container is Some {
        seq![
            fv(
                FindingKind::Warn,
                "OpenGL renderer probe is unavailable because glxinfo is missing"@,
                Some(
                    "robo could not confirm hardware acceleration; install mesa-demos or run an equivalent renderer probe inside the runtime",
                ),
            ),
        ]
    } else {
        let s1 = opt_push(
            Seq::empty(),
            match p.glxinfo_direct {
                Some(d) => Some(fv(FindingKind::Pass, "GLX direct rendering: "@ + d, None)),
                None => None,
            },
        );
        let s2 = opt_push(
            s1,
            match p.glxinfo_vendor {
                Some(d) => Some(fv(FindingKind::Pass, "OpenGL vendor: "@ + d, None)),
                None => None,
            },
        );
        let s3 = opt_push(
            s2,
            match p.glxinfo_version {
                Some(d) => Some(fv(FindingKind::Pass, "OpenGL version: "@ + d, None)),
                None => None,
            },
        );
        opt_push(
            s3,
            match p.glxinfo_renderer {
                Some(r) => Some(
                    if software_renderer_spec(r) {
                        fv(
                            FindingKind::Warn,
                            "OpenGL renderer appears to be software: "@ + r,
                            Some(
                                "hardware acceleration is not active; fix container GPU/device/driver visibility before debugging MuJoCo",
                            ),
                        )
                    } else {
                        fv(FindingKind::Pass, "OpenGL renderer: "@ + r, None)
                    },
                ),
                None => None,
            },
        )
    }
}

/// Findings from the glxinfo renderer probe.
pub fn renderer_findings(probe: &Probe) -> (r: Vec<Finding>)
    ensures
        finding_views(r@) == renderer_spec(probe@),
{
    let mut findings: Vec<Finding> = Vec::new();
    if probe.glxinfo_missing && probe.container.is_some() {
        push_finding(
            &mut findings,
            Finding::warn(
                owned("OpenGL renderer probe is unavailable because glxinfo is missing"),
                "robo could not confirm hardware acceleration; install mesa-demos or run an equivalent renderer probe inside the runtime",
            ),
        );
        return findings;
    }
    assert(finding_views(findings@) =~= Seq::<FindingView>::empty());
    if let Some(direct) = &probe.glxinfo_direct {
        push_finding(&mut findings, Finding::ok(concat("GLX direct rendering: ", direct.as_str())));
    }
    if let Some(vendor) = &probe.glxinfo_vendor {
        push_finding(&mut findings, Finding::ok(concat("OpenGL vendor: ", vendor.as_str())));
    }
    if let Some(version) = &probe.glxinfo_version {
        push_finding(&mut findings, Finding::ok(concat("OpenGL version: ", version.as_str())));
    }
    if let Some(renderer) = &probe.glxinfo_renderer {
        if software_renderer(renderer.as_str()) {
            push_finding(
                &mut findings,
                Finding::warn(
                    concat("OpenGL renderer appears to be software: ", renderer.as_str()),
                    "hardware acceleration is not active; fix container GPU/device/driver visibility before debugging MuJoCo",
                ),
            );
        } else {
            push_finding(
                &mut findings,
                Finding::ok(concat("OpenGL renderer: ", renderer.as_str())),
            );
        }
    }
    findings
}

/// A vendor file outside the Nix store that the host graphics bridge did not
/// select.
pub open spec fn non_nix_unmanaged_spec(p: ProbeView, vendor_path: Text) -> bool {
    !is_prefix("/nix/store/"@, vendor_path) && !(match p.host_graphics_auto {
        Some(m) => split(m, Sep::Char(':')).contains(vendor_path),
        None => false,
    })
}

pub fn non_nix_unmanaged_vendor(probe: &Probe, vendor_path: &str) -> (r: bool)
    ensures
        r == non_nix_unmanaged_spec(probe@, vendor_path@),
{
    let path = chars_of(vendor_path);
    if starts_with_str(&path, "/nix/store/") {
        return false;
    }
    match &probe.host_graphics_auto {
        Some(manifests) => {
            let m = chars_of(manifests.as_str());
            let parts = split_str(&m, ':');
            assert(probe@.host_graphics_auto == Some(m@));
            let ghost pv = views(parts@);
            let mut i: usize = 0;
            while i < parts.len()
                invariant
                    i <= parts.len(),
                    pv == views(parts@),
                    pv == split(m@, Sep::Char(':')),
                    probe@.host_graphics_auto == Some(m@),
                    !is_prefix("/nix/store/"@, vendor_path@),
                    path@ == vendor_path@,
                    forall|k: int| 0 <= k < i ==> pv[k] != vendor_path@,
                decreases parts.len() - i,
            {
                if crate::text::eq_chars(&parts[i], &path) {
                    assert(pv[i as int] == vendor_path@);
                    assert(pv.contains(vendor_path@));
                    return false;
                }
                i = i + 1;
            }
            assert(!pv.contains(vendor_path@));
            true
        },
        None => true,
    }
}

/// Nix libEGL together with an existing vendor file that is neither from
/// the Nix store nor selected by the host graphics bridge.
pub open spec fn nix_libegl_with_host_vendor_spec(p: ProbeView) -> bool {
    (match p.libegl {
        Some(path) => is_prefix("/nix/store/"@, path),
        None => false,
    }) && exists|i: int|
        0 <= i < p.vendor_files.len() && (#[trigger] p.vendor_files[i]).1
            && non_nix_unmanaged_spec(p, p.vendor_files[i].0)
}

pub fn nix_libegl_with_host_vendor(probe: &Probe) -> (r: bool)
    ensures
        r == nix_libegl_with_host_vendor_spec(probe@),
{
    let nix_libegl = match &probe.libegl {
        Some(path) => {
            let v = chars_of(path.as_str());
            starts_with_str(&v, "/nix/store/")
        },
        None => false,
    };
    if !nix_libegl {
        return false;
    }
    let ghost vf = probe@.vendor_files;
    let mut i: usize = 0;
    while i < probe.vendor_files.len()
        invariant
            i <= probe.vendor_files.len(),
            vf == probe@.vendor_files,
            vf.len() == probe.vendor_files.len(),
            match probe@.libegl {
                Some(path) => is_prefix("/nix/store/"@, path),
                None => false,
            },
            forall|k: int|
                0 <= k < i ==> !((#[trigger] vf[k]).1 && non_nix_unmanaged_spec(probe@, vf[k].0)),
        decreases probe.vendor_files.len() - i,
    {
        let vendor = &probe.vendor_files[i];
        assert(vf[i as int] == (vendor.path@, vendor.exists));
        if vendor.exists && non_nix_unmanaged_vendor(probe, vendor.path.as_str()) {
            assert((vf[i as int]).1 && non_nix_unmanaged_spec(probe@, vf[i as int].0));
            return true;
        }
        i = i + 1;
    }
    false
}

pub open spec fn vendor_finding(v: (Text, bool)) -> FindingView {
    if v.1 {
        fv(FindingKind::Pass, "EGL vendor file exists at "@ + v.0, None)
    } else {
        fv(
            FindingKind::Error,
            "EGL vendor file is missing: "@ + v.0,
            Some(
                "unset __EGL_VENDOR_LIBRARY_FILENAMES to use the robo-nix default, or point it at an existing host EGL vendor JSON",
            ),
        )
    }
}

/// All findings for a probe, in report order.
pub open spec fn findings_spec(p: ProbeView) -> Seq<FindingView> {
    let base = seq![display_finding_spec(p), libegl_finding_spec(p)] + host_container_spec(p);
    if p.vendor_unset {
        base.push(
            fv(
                FindingKind::Warn,
                "EGL vendor file selection is unset"@,
                Some(
                    "EGL may fall through to host or container GLVND vendor files; desktop-gl should set __EGL_VENDOR_LIBRARY_FILENAMES by default",
                ),
            ),
        )
    } else if p.vendor_files.len() == 0 {
        base.push(
            fv(
                FindingKind::Warn,
                "no EGL vendor files were reported"@,
                Some(
                    "set __EGL_VENDOR_LIBRARY_FILENAMES when a host-specific EGL vendor is required",
                ),
            ),
        )
    } else {
        let with_vendors = base + p.vendor_files.map_values(|v: (Text, bool)| vendor_finding(v));
        let with_pairing = if nix_libegl_with_host_vendor_spec(p) {
            with_vendors.push(
                fv(
                    FindingKind::Warn,
                    "Nix libEGL is paired with a non-Nix EGL vendor file"@,
                    Some(
                        "this is valid only when intentionally using a host EGL vendor; otherwise unset __EGL_VENDOR_LIBRARY_FILENAMES",
                    ),
                ),
            )
        } else {
            with_vendors
        };
        with_pairing + renderer_spec(p)
    }
}

fn extend_findings(out: &mut Vec<Finding>, more: Vec<Finding>)
    ensures
        finding_views(final(out)@) == finding_views(old(out)@) + finding_views(more@),
{
    let mut more = more;
    let ghost m0 = more@;
    let ghost o0 = out@;
    out.append(&mut more);
    assert(finding_views(out@) =~= finding_views(o0) + finding_views(m0));
}

/// Every finding for a probe, in the order the report prints them.
pub fn findings(probe: &Probe) -> (r: Vec<Finding>)
    ensures
        finding_views(r@) == findings_spec(probe@),
{
    let mut out: Vec<Finding> = Vec::new();
    push_finding(&mut out, display_finding(probe));
    push_finding(&mut out, libegl_finding(probe));
    extend_findings(&mut out, host_container_findings(probe));
    assert(finding_views(out@) =~= seq![display_finding_spec(probe@), libegl_finding_spec(probe@)]
        + host_container_spec(probe@));
    if probe.vendor_unset {
        push_finding(
            &mut out,
            Finding::warn(
                owned("EGL vendor file selection is unset"),
                "EGL may fall through to host or container GLVND vendor files; desktop-gl should set __EGL_VENDOR_LIBRARY_FILENAMES by default",
            ),
        );
        return out;
    }
    if probe.vendor_files.len() == 0 {
        push_finding(
            &mut out,
            Finding::warn(
                owned("no EGL vendor files were reported"),
                "set __EGL_VENDOR_LIBRARY_FILENAMES when a host-specific EGL vendor is required",
            ),
        );
        return out;
    }
    let ghost base = finding_views(out@);
    let ghost vf = probe@.vendor_files;
    let mut i: usize = 0;
    while i < probe.vendor_files.len()
        invariant
            i <= probe.vendor_files.len(),
            vf == probe@.vendor_files,
            vf.len() == probe.vendor_files.len(),
            finding_views(out@) == base + vf.take(i as int).map_values(
                |v: (Text, bool)| vendor_finding(v),
            ),
        decreases probe.vendor_files.len() - i,
    {
        let vendor = &probe.vendor_files[i];
        assert(vf[i as int] == (vendor.path@, vendor.exists));
        if vendor.exists {
            push_finding(
                &mut out,
                Finding::ok(concat("EGL vendor file exists at ", vendor.path.as_str())),
            );
        } else {
            push_finding(
                &mut out,
                Finding::error(
                    concat("EGL vendor file is missing: ", vendor.path.as_str()),
                    "unset __EGL_VENDOR_LIBRARY_FILENAMES to use the robo-nix default, or point it at an existing host EGL vendor JSON",
                ),
            );
        }
        assert(vf.take(i + 1).map_values(|v: (Text, bool)| vendor_finding(v)) =~= vf.take(
            i as int,
        ).map_values(|v: (Text, bool)| vendor_finding(v)).push(vendor_finding(vf[i as int])));
        i = i + 1;
    }
    assert(vf.take(vf.len() as int) == vf);
    if nix_libegl_with_host_vendor(probe) {
        push_finding(
            &mut out,
            Finding::warn(
                owned("Nix libEGL is paired with a non-Nix EGL vendor file"),
                "this is valid only when intentionally using a host EGL vendor; otherwise unset __EGL_VENDOR_LIBRARY_FILENAMES",
            ),
        );
    }
    extend_findings(&mut out, renderer_findings(probe));
    out
}

// ---------------------------------------------------------------------
// Summary rows
// ---------------------------------------------------------------------

pub fn summary_row(kind: FindingKind, name: &'static str, value: String) -> (r: SummaryRow)
    ensures
        r@ == rv(kind, name, value@),
{
    SummaryRow { kind, name, value }
}

pub open spec fn display_row_spec(p: ProbeView) -> RowView {
    let session = unwrap_text(p.session_type);
    let wayland = unwrap_text(p.wayland_display);
    let display = unwrap_text(p.display);
    let c = display_case(p);
    if c == 0 {
        rv(FindingKind::Pass, "session", "Wayland "@ + wayland)
    } else if c == 1 {
        rv(FindingKind::Pass, "session", "X11 "@ + display)
    } else if c == 2 {
        rv(FindingKind::Pass, "session", session + ", DISPLAY="@ + display)
    } else if c == 3 {
        rv(FindingKind::Warn, "session", session + ", no display socket"@)
    } else {
        rv(FindingKind::Warn, "session", "no Wayland or X11 display"@)
    }
}

pub fn display_summary_row(probe: &Probe) -> (r: SummaryRow)
    ensures
        r@ == display_row_spec(probe@),
{
    let c = display_case_of(probe);
    if c == 0 {
        summary_row(FindingKind::Pass, "session", concat("Wayland ", text_of(&probe.wayland_display)))
    } else if c == 1 {
        summary_row(FindingKind::Pass, "session", concat("X11 ", text_of(&probe.display)))
    } else if c == 2 {
        summary_row(
            FindingKind::Pass,
            "session",
            concat3(text_of(&probe.session_type), ", DISPLAY=", text_of(&probe.display)),
        )
    } else if c == 3 {
        summary_row(
            FindingKind::Warn,
            "session",
            concat(text_of(&probe.session_type), ", no display socket"),
        )
    } else {
        summary_row(FindingKind::Warn, "session", owned("no Wayland or X11 display"))
    }
}

pub open spec fn dri_row_spec(p: ProbeView) -> RowView {
    match p.dev_dri {
        Some(nodes) => if nodes.len() == 0 {
            rv(FindingKind::Warn, "devices", "/dev/dri has no device nodes"@)
        } else {
            rv(FindingKind::Pass, "devices", nodes)
        },
        None => rv(FindingKind::Warn, "devices", "/dev/dri is not visible"@),
    }
}

pub fn dri_summary_row(probe: &Probe) -> (r: SummaryRow)
    ensures
        r@ == dri_row_spec(probe@),
{
    match &probe.dev_dri {
        Some(nodes) => {
            if nodes.as_str().is_empty() {
                summary_row(FindingKind::Warn, "devices", owned("/dev/dri has no device nodes"))
            } else {
                summary_row(FindingKind::Pass, "devices", owned(nodes.as_str()))
            }
        },
        None => summary_row(FindingKind::Warn, "devices", owned("/dev/dri is not visible")),
    }
}

pub open spec fn path_summary_spec(path: Text) -> Text {
    if contains(path, "libglvnd"@) {
        "Nix libglvnd"@
    } else if is_prefix("/nix/store/"@, path) {
        "Nix store"@
    } else {
        path
    }
}

pub fn graphics_path_summary(path: &str) -> (r: String)
    ensures
        r@ == path_summary_spec(path@),
{
    let v = chars_of(path);
    if contains_str(&v, "libglvnd") {
        owned("Nix libglvnd")
    } else if starts_with_str(&v, "/nix/store/") {
        owned("Nix store")
    } else {
        owned(path)
    }
}

pub open spec fn vendor_summary_spec(path: Text) -> Text {
    let provider = if contains(path, "mesa"@) || is_suffix("50_mesa.json"@, path) {
        "Mesa"@
    } else if contains(path, "nvidia"@) {
        "NVIDIA"@
    } else {
        "EGL vendor"@
    };
    let source = if is_prefix("/nix/store/"@, path) {
        "Nix"@
    } else if is_prefix("/run/opengl-driver/"@, path) {
        "host driver"@
    } else {
        path
    };
    provider + " from "@ + source
}

pub fn graphics_vendor_summary(path: &str) -> (r: String)
    ensures
        r@ == vendor_summary_spec(path@),
{
    let v = chars_of(path);
    let provider = if contains_str(&v, "mesa") || ends_with_str(&v, "50_mesa.json") {
        "Mesa"
    } else if contains_str(&v, "nvidia") {
        "NVIDIA"
    } else {
        "EGL vendor"
    };
    let source = if starts_with_str(&v, "/nix/store/") {
        "Nix"
    } else if starts_with_str(&v, "/run/opengl-driver/") {
        "host driver"
    } else {
        path
    };
    concat3(provider, " from ", source)
}

pub open spec fn libegl_row_spec(p: ProbeView) -> RowView {
    match p.libegl {
        Some(path) => rv(FindingKind::Pass, "libEGL", path_summary_spec(path)),
        None => rv(FindingKind::Error, "libEGL", "not visible"@),
    }
}

pub fn libegl_summary_row(probe: &Probe) -> (r: SummaryRow)
    ensures
        r@ == libegl_row_spec(probe@),
{
    match &probe.libegl {
        Some(path) => summary_row(FindingKind::Pass, "libEGL", graphics_path_summary(path.as_str())),
        None => summary_row(FindingKind::Error, "libEGL", owned("not visible")),
    }
}

pub open spec fn vendor_row_spec(p: ProbeView) -> RowView {
    if p.vendor_unset {
        rv(FindingKind::Warn, "vendor", "selection unset"@)
    } else if p.vendor_files.len() == 0 {
        rv(FindingKind::Warn, "vendor", "not reported"@)
    } else if p.vendor_files[0].1 {
        rv(FindingKind::Pass, "vendor", vendor_summary_spec(p.vendor_files[0].0))
    } else {
        rv(FindingKind::Error, "vendor", "missing "@ + p.vendor_files[0].0)
    }
}

pub fn vendor_summary_row(probe: &Probe) -> (r: SummaryRow)
    ensures
        r@ == vendor_row_spec(probe@),
{
    if probe.vendor_unset {
        return summary_row(FindingKind::Warn, "vendor", owned("selection unset"));
    }
    if probe.vendor_files.len() == 0 {
        return summary_row(FindingKind::Warn, "vendor", owned("not reported"));
    }
    let vendor = &probe.vendor_files[0];
    assert(probe@.vendor_files[0] == (vendor.path@, vendor.exists));
    if vendor.exists {
        summary_row(FindingKind::Pass, "vendor", graphics_vendor_summary(vendor.path.as_str()))
    } else {
        summary_row(FindingKind::Error, "vendor", concat("missing ", vendor.path.as_str()))
    }
}

pub open spec fn host_driver_row_spec(p: ProbeView) -> RowView {
    if p.run_opengl_driver {
        rv(FindingKind::Pass, "host driver", "visible"@)
    } else if p.container is Some {
        rv(FindingKind::Warn, "host driver", "/run/opengl-driver not visible"@)
    } else {
        rv(FindingKind::Warn, "host driver", "not visible"@)
    }
}

pub fn host_driver_summary_row(probe: &Probe) -> (r: SummaryRow)
    ensures
        r@ == host_driver_row_spec(probe@),
{
    if probe.run_opengl_driver {
        summary_row(FindingKind::Pass, "host driver", owned("visible"))
    } else if probe.container.is_some() {
        summary_row(FindingKind::Warn, "host driver", owned("/run/opengl-driver not visible"))
    } else {
        summary_row(FindingKind::Warn, "host driver", owned("not visible"))
    }
}

pub open spec fn mujoco_row_spec(context: MujocoContext) -> RowView {
    match context {
        MujocoContext::Ready => rv(
            FindingKind::Pass,
            "context",
            "current GL settings can create a MuJoCo OpenGL context"@,
        ),
        MujocoContext::SkippedMissingVenv => rv(
            FindingKind::Warn,
            "context",
            ".venv is missing, so the Python MuJoCo probe did not run"@,
        ),
        MujocoContext::NotSelected => rv(
            FindingKind::Pass,
            "context",
            "mujoco component is not selected"@,
        ),
    }
}

pub fn mujoco_summary_row(context: MujocoContext) -> (r: SummaryRow)
    ensures
        r@ == mujoco_row_spec(context),
{
    match context {
        MujocoContext::Ready => summary_row(
            FindingKind::Pass,
            "context",
            owned("current GL settings can create a MuJoCo OpenGL context"),
        ),
        MujocoContext::SkippedMissingVenv => summary_row(
            FindingKind::Warn,
            "context",
            owned(".venv is missing, so the Python MuJoCo probe did not run"),
        ),
        MujocoContext::NotSelected => summary_row(
            FindingKind::Pass,
            "context",
            owned("mujoco component is not selected"),
        ),
    }
}

pub struct SectionView {
    pub title: &'static str,
    pub rows: Seq<RowView>,
}

pub open spec fn section_views(v: Seq<SummarySection>) -> Seq<SectionView> {
    v.map_values(|s: SummarySection| SectionView { title: s.title, rows: row_views(s.rows@) })
}

/// The display, OpenGL/EGL and MuJoCo sections, built from probe fields.
pub open spec fn summary_spec(p: ProbeView, context: MujocoContext) -> Seq<SectionView> {
    seq![
        SectionView { title: "display", rows: seq![display_row_spec(p), dri_row_spec(p)] },
        SectionView {
            title: "opengl / egl",
            rows: seq![libegl_row_spec(p), vendor_row_spec(p), host_driver_row_spec(p)],
        },
        SectionView { title: "mujoco", rows: seq![mujoco_row_spec(context)] },
    ]
}

pub fn summary_sections(probe: &Probe, mujoco_context: MujocoContext) -> (r: Vec<SummarySection>)
    ensures
        section_views(r@) == summary_spec(probe@, mujoco_context),
{
    let a = display_summary_row(probe);
    let b = dri_summary_row(probe);
    let rows1 = vec![a, b];
    assert(row_views(rows1@) =~= seq![a@, b@]);
    let c = libegl_summary_row(probe);
    let d = vendor_summary_row(probe);
    let e = host_driver_summary_row(probe);
    let rows2 = vec![c, d, e];
    assert(row_views(rows2@) =~= seq![c@, d@, e@]);
    let f = mujoco_summary_row(mujoco_context);
    let rows3 = vec![f];
    assert(row_views(rows3@) =~= seq![f@]);
    let out = vec![
        SummarySection { title: "display", rows: rows1 },
        SummarySection { title: "opengl / egl", rows: rows2 },
        SummarySection { title: "mujoco", rows: rows3 },
    ];
    assert(section_views(out@) =~= summary_spec(probe@, mujoco_context));
    out
}

/// Whether a renderer is flagged as software does not depend on ASCII case:
/// two names equal once lowercased are flagged alike.
pub proof fn law_software_renderer_ignores_case(a: Text, b: Text)
    requires
        crate::text::lower(a) == crate::text::lower(b),
    ensures
        software_renderer_spec(a) == software_renderer_spec(b),
{
}

/// A renderer whose lowercased name contains `llvmpipe`, `softpipe`,
/// `software rasterizer` or `swrast` is flagged as software rendering.
pub proof fn law_software_renderer_markers(renderer: Text)
    requires
        contains(crate::text::lower(renderer), "llvmpipe"@) || contains(crate::text::lower(renderer), "softpipe"@)
            || contains(crate::text::lower(renderer), "software rasterizer"@) || contains(
            crate::text::lower(renderer),
            "swrast"@,
        ),
    ensures
        software_renderer_spec(renderer),
{
}

/// Only those names are flagged: a renderer flagged as software has one of
/// the four markers in its lowercased name.
pub proof fn law_software_renderer_only_markers(renderer: Text)
    requires
        software_renderer_spec(renderer),
    ensures
        contains(crate::text::lower(renderer), "llvmpipe"@) || contains(crate::text::lower(renderer), "softpipe"@)
            || contains(crate::text::lower(renderer), "software rasterizer"@) || contains(
            crate::text::lower(renderer),
            "swrast"@,
        ),
{
}

} // verus!

