//! `robo vendor`: the curated vendor modules of the component manifest,
//! matched against local checkouts, checked, and printed for upstreaming.
use vstd::prelude::*;
use crate::scaffold::{joined_path, quote_escaped};
use crate::text::{
    chars_of, concat, concat3, decimal, file_name, join, join_strings, lower, opt_str, str_eq,
    string_of, strs,
};
use crate::ui::{label, Config, LabelKind};

verus! {

/// What `robo vendor` is asked to do.
pub enum VendorCommand {
    /// Inspect a local vendor checkout and show matching curated modules.
    Add { path: String },
    /// List curated local vendor modules.
    List,
    /// Check local vendor source trees and bootstrap wiring.
    Doctor,
    /// Run bootstrap scripts for detected curated vendors.
    Bootstrap,
    /// Print a curated vendor module for upstreaming.
    Export { name: String },
}

/// The options of `robo vendor`.
pub struct VendorArgs {
    pub command: Option<VendorCommand>,
}

/// The command to run: the one given, else `bootstrap`.
pub fn vendor_command(args: VendorArgs) -> (r: VendorCommand)
    ensures
        r == match args.command {
            Some(c) => c,
            None => VendorCommand::Bootstrap,
        },
{
    match args.command {
        Some(c) => c,
        None => VendorCommand::Bootstrap,
    }
}

/// A curated vendor module.
pub struct VendorModule {
    pub description: String,
    pub install_path: String,
    pub detect_paths: Vec<String>,
    pub source_url: Option<String>,
    pub components: Vec<String>,
    pub required_paths: Vec<String>,
    pub bootstrap_scripts: Vec<String>,
    pub patches: Vec<String>,
}

/// The modules of the manifest, in name order.
pub struct VendorManifest {
    pub vendors: Vec<(String, VendorModule)>,
}

/// Where a module's checkout may be: its detect paths, then its install
/// path.
pub open spec fn candidates(v: VendorModule) -> Seq<Seq<char>> {
    strs(v.detect_paths@).push(v.install_path@)
}

pub fn candidate_paths(vendor: &VendorModule) -> (r: Vec<String>)
    ensures
        strs(r@) == candidates(*vendor),
{
    let mut out = crate::text::clone_strings(&vendor.detect_paths);
    let ghost before = out@;
    let p = vendor.install_path.clone();
    out.push(p);
    proof {
        crate::text::lemma_strs_push(before, p);
    }
    out
}

/// A module one of whose paths ends in the given name, compared without
/// ASCII case.
pub open spec fn names_checkout(v: VendorModule, canonical: Seq<char>) -> bool {
    exists|k: int|
        0 <= k < candidates(v).len() && (file_name(#[trigger] candidates(v)[k]) matches Some(n) && lower(n)
            == canonical)
}

/// The name a checkout is matched by: its last path component, lowercased.
pub open spec fn canonical_name(path: Seq<char>) -> Option<Seq<char>> {
    match file_name(path) {
        Some(n) => Some(lower(n)),
        None => None,
    }
}

fn module_names(vendor: &VendorModule, canonical: &Vec<char>) -> (r: bool)
    ensures
        r == names_checkout(*vendor, canonical@),
{
    let paths = candidate_paths(vendor);
    let ghost cs = candidates(*vendor);
    let mut i: usize = 0;
    while i < paths.len()
        invariant
            i <= paths.len(),
            cs == strs(paths@),
            cs == candidates(*vendor),
            forall|k: int|
                0 <= k < i ==> !(file_name(#[trigger] cs[k]) matches Some(n) && lower(n) == canonical@),
        decreases paths.len() - i,
    {
        assert(cs[i as int] == paths@[i as int]@);
        match crate::text::file_name_str(paths[i].as_str()) {
            Some(n) => {
                let l = crate::text::lowercase(&n);
                if crate::text::eq_chars(&l, canonical) {
                    return true;
                }
            },
            None => {},
        }
        i = i + 1;
    }
    false
}

/// The first module (in name order) that a local checkout at `path`
/// matches by its last path component.
pub fn best_vendor_match(manifest: &VendorManifest, path: &str) -> (r: Option<usize>)
    ensures
        match canonical_name(path@) {
            None => r is None,
            Some(c) => match r {
                Some(i) => i < manifest.vendors.len() && names_checkout(manifest.vendors@[i as int].1, c)
                    && forall|j: int| 0 <= j < i ==> !names_checkout(#[trigger] manifest.vendors@[j].1, c),
                None => forall|j: int|
                    0 <= j < manifest.vendors.len() ==> !names_checkout(#[trigger] manifest.vendors@[j].1, c),
            },
        },
{
    let name = match crate::text::file_name_str(path) {
        Some(n) => n,
        None => {
            return None;
        },
    };
    let canonical = crate::text::lowercase(&name);
    let ghost c = canonical@;
    assert(canonical_name(path@) == Some(c));
    let mut i: usize = 0;
    while i < manifest.vendors.len()
        invariant
            i <= manifest.vendors.len(),
            canonical@ == c,
            canonical_name(path@) == Some(c),
            forall|j: int| 0 <= j < i ==> !names_checkout(#[trigger] manifest.vendors@[j].1, c),
        decreases manifest.vendors.len() - i,
    {
        if module_names(&manifest.vendors[i].1, &canonical) {
            return Some(i);
        }
        i = i + 1;
    }
    None
}

/// Where a module's checkout is found: the first of its paths that is a
/// directory (`present[k]` for path `k`).
pub open spec fn first_present(paths: Seq<Seq<char>>, present: Seq<bool>) -> Option<Seq<char>>
    decreases paths.len(),
{
    if paths.len() == 0 || present.len() == 0 {
        None
    } else if present[0] {
        Some(paths[0])
    } else {
        first_present(paths.skip(1), present.skip(1))
    }
}

pub fn detected_root(vendor: &VendorModule, present: &Vec<bool>) -> (r: Option<String>)
    requires
        present.len() == candidates(*vendor).len(),
    ensures
        opt_str(r) == first_present(candidates(*vendor), present@),
{
    let paths = candidate_paths(vendor);
    let ghost cs = strs(paths@);
    let mut i: usize = 0;
    assert(cs.skip(0) =~= cs);
    assert(present@.skip(0) =~= present@);
    while i < paths.len()
        invariant
            i <= paths.len(),
            paths.len() == present.len(),
            cs == strs(paths@),
            cs == candidates(*vendor),
            first_present(cs, present@) == first_present(cs.skip(i as int), present@.skip(i as int)),
        decreases paths.len() - i,
    {
        assert(cs.skip(i as int)[0] == paths@[i as int]@);
        assert(cs.skip(i as int).skip(1) =~= cs.skip(i + 1));
        assert(present@.skip(i as int).skip(1) =~= present@.skip(i + 1));
        assert(present@.skip(i as int)[0] == present@[i as int]);
        if present[i] {
            return Some(crate::text::owned(paths[i].as_str()));
        }
        i = i + 1;
    }
    None
}

// ---------------------------------------------------------------------
// Output
// ---------------------------------------------------------------------

/// The tag of a line of `robo vendor` output.
#[derive(PartialEq, Eq, Structural, Clone, Copy)]
pub enum VendorLevel {
    Pass,
    Warn,
    Error,
    Info,
    Hint,
}

/// A line of `robo vendor` output: a tagged message, or the final status.
pub struct VendorLine {
    pub level: VendorLevel,
    pub status: bool,
    pub message: String,
}

pub type LineView = (VendorLevel, bool, Seq<char>);

pub open spec fn line_view(l: VendorLine) -> LineView {
    (l.level, l.status, l.message@)
}

pub open spec fn lines_view(ls: Seq<VendorLine>) -> Seq<LineView> {
    ls.map_values(|l: VendorLine| line_view(l))
}

pub open spec fn tag_text(level: VendorLevel) -> Seq<char> {
    match level {
        VendorLevel::Pass => "ok:"@,
        VendorLevel::Warn => "warn:"@,
        VendorLevel::Error => "error:"@,
        VendorLevel::Info => "info:"@,
        VendorLevel::Hint => "hint:"@,
    }
}

/// A line as printed without colour: `vendor: <tag> <message>`, or
/// `vendor: status=<message>` for the status.
pub open spec fn plain_vendor_line(l: LineView) -> Seq<char> {
    if l.1 {
        "vendor: status="@ + l.2
    } else {
        "vendor: "@ + tag_text(l.0) + " "@ + l.2
    }
}

fn label_kind(level: VendorLevel) -> (r: LabelKind) {
    match level {
        VendorLevel::Pass => LabelKind::Pass,
        VendorLevel::Warn => LabelKind::Warn,
        VendorLevel::Error => LabelKind::Error,
        VendorLevel::Info => LabelKind::Status,
        VendorLevel::Hint => LabelKind::Hint,
    }
}

fn tag(level: VendorLevel) -> (r: &'static str)
    ensures
        r@ == tag_text(level),
{
    match level {
        VendorLevel::Pass => "ok:",
        VendorLevel::Warn => "warn:",
        VendorLevel::Error => "error:",
        VendorLevel::Info => "info:",
        VendorLevel::Hint => "hint:",
    }
}

/// The text of an output line.
pub fn vendor_line_text(config: Config, line: &VendorLine) -> (r: String)
    ensures
        crate::ui::renders(config, r@, plain_vendor_line(line_view(*line))),
{
    proof {
        reveal_strlit("vendor:");
        reveal_strlit("status=");
        reveal_strlit(" ");
        reveal_strlit("vendor: status=");
        reveal_strlit("vendor: ");
    }
    let head = crate::ui::glue_text(config, label(config, "vendor:", LabelKind::Status).as_str(), Ghost("vendor:"@), " ");
    let kind = label_kind(line.level);
    if line.status {
        let x = crate::ui::glue(config, head.as_str(), Ghost("vendor:"@ + " "@), label(config, "status=", kind).as_str(), Ghost("status="@));
        let r = crate::ui::glue_text(config, x.as_str(), Ghost("vendor:"@ + " "@ + "status="@), line.message.as_str());
        assert("vendor:"@ + " "@ + "status="@ + line.message@ =~= plain_vendor_line(line_view(*line)));
        r
    } else {
        let t = tag(line.level);
        let x = crate::ui::glue(config, head.as_str(), Ghost("vendor:"@ + " "@), label(config, t, kind).as_str(), Ghost(t@));
        let rest = crate::text::concat(" ", line.message.as_str());
        let r = crate::ui::glue_text(config, x.as_str(), Ghost("vendor:"@ + " "@ + t@), rest.as_str());
        assert("vendor:"@ + " "@ + t@ + rest@ =~= plain_vendor_line(line_view(*line)));
        r
    }
}

fn line(level: VendorLevel, message: String) -> (r: VendorLine)
    ensures
        line_view(r) == (level, false, message@),
{
    VendorLine { level, status: false, message }
}

fn push_vendor_line(out: &mut Vec<VendorLine>, l: VendorLine)
    ensures
        lines_view(final(out)@) == lines_view(old(out)@).push(line_view(l)),
{
    let ghost before = out@;
    out.push(l);
    assert(lines_view(out@) =~= lines_view(before).push(line_view(l)));
}

// ---------------------------------------------------------------------
// vendor add
// ---------------------------------------------------------------------

/// What `robo vendor add` reports for a module a checkout matched: the
/// match, where it installs, where its source comes from, the components to
/// add, and the paths it expects.
pub open spec fn match_report(path: Seq<char>, name: Seq<char>, v: VendorModule) -> Seq<LineView> {
    seq![
        (VendorLevel::Pass, false, path + " matches curated module "@ + name),
        (VendorLevel::Info, false, "default install path: "@ + v.install_path@),
        match v.source_url {
            Some(u) => (VendorLevel::Info, false, "install source: "@ + u@),
            None => (
                VendorLevel::Hint,
                false,
                "this module has no public sourceUrl; place the checkout locally before bootstrapping"@,
            ),
        },
    ] + (if v.components.len() > 0 {
        seq![(VendorLevel::Hint, false, "add components to robo.nix: "@ + join(strs(v.components@), ","@))]
    } else {
        Seq::empty()
    }) + strs(v.required_paths@).map_values(
        |p: Seq<char>| (VendorLevel::Info, false, "module expects "@ + p + " inside the vendor checkout"@),
    )
}

/// What `robo vendor add` reports for a checkout at `path` (which may not
/// exist), and whether it succeeds: only a missing path fails.
pub open spec fn add_report(m: VendorManifest, path: Seq<char>, path_exists: bool) -> (Seq<LineView>, bool) {
    if !path_exists {
        (seq![(VendorLevel::Error, false, path + " does not exist"@)], false)
    } else {
        match canonical_name(path) {
            Some(c) if exists|i: int| 0 <= i < m.vendors.len() && names_checkout(#[trigger] m.vendors@[i].1, c) => {
                let i = choose|i: int|
                    0 <= i < m.vendors.len() && names_checkout(m.vendors@[i].1, c) && forall|j: int|
                        0 <= j < i ==> !names_checkout(#[trigger] m.vendors@[j].1, c);
                (match_report(path, m.vendors@[i].0@, m.vendors@[i].1), true)
            },
            _ => (
                seq![
                    (VendorLevel::Warn, false, "no curated vendor module matched "@ + path),
                    (
                        VendorLevel::Hint,
                        false,
                        "keep the source local and add required components manually in robo.nix"@,
                    ),
                ],
                true,
            ),
        }
    }
}

fn expects_lines(out: &mut Vec<VendorLine>, required: &Vec<String>)
    ensures
        lines_view(final(out)@) == lines_view(old(out)@) + strs(required@).map_values(
            |p: Seq<char>| (VendorLevel::Info, false, "module expects "@ + p + " inside the vendor checkout"@),
        ),
{
    let ghost start = lines_view(out@);
    let ghost rv = strs(required@);
    let mut i: usize = 0;
    while i < required.len()
        invariant
            i <= required.len(),
            rv == strs(required@),
            lines_view(out@) == start + rv.take(i as int).map_values(
                |p: Seq<char>| (VendorLevel::Info, false, "module expects "@ + p + " inside the vendor checkout"@),
            ),
        decreases required.len() - i,
    {
        let m = concat3("module expects ", required[i].as_str(), " inside the vendor checkout");
        push_vendor_line(out, line(VendorLevel::Info, m));
        assert(rv.take(i + 1).map_values(
            |p: Seq<char>| (VendorLevel::Info, false, "module expects "@ + p + " inside the vendor checkout"@),
        ) =~= rv.take(i as int).map_values(
            |p: Seq<char>| (VendorLevel::Info, false, "module expects "@ + p + " inside the vendor checkout"@),
        ).push((VendorLevel::Info, false, "module expects "@ + rv[i as int] + " inside the vendor checkout"@)));
        i = i + 1;
    }
    assert(rv.take(required.len() as int) =~= rv);
}

/// The lines `robo vendor add` prints for a checkout at `path`, and whether
/// it succeeds (see `add_report`).
pub fn add_vendor_report(manifest: &VendorManifest, path: &str, path_exists: bool) -> (r: (Vec<VendorLine>, bool))
    ensures
        (lines_view(r.0@), r.1) == add_report(*manifest, path@, path_exists),
{
    let mut out: Vec<VendorLine> = Vec::new();
    assert(lines_view(out@) =~= Seq::<LineView>::empty());
    if !path_exists {
        push_vendor_line(&mut out, line(VendorLevel::Error, concat(path, " does not exist")));
        return (out, false);
    }
    match best_vendor_match(manifest, path) {
        None => {
            push_vendor_line(&mut out, line(VendorLevel::Warn, concat("no curated vendor module matched ", path)));
            push_vendor_line(
                &mut out,
                line(
                    VendorLevel::Hint,
                    "keep the source local and add required components manually in robo.nix".to_string(),
                ),
            );
            proof {
                match canonical_name(path@) {
                    Some(c) => {
                        assert(!exists|i: int| 0 <= i < manifest.vendors.len() && names_checkout(#[trigger] manifest.vendors@[i].1, c));
                    },
                    None => {},
                }
            }
            (out, true)
        },
        Some(i) => {
            let ghost c = canonical_name(path@)->0;
            let (name, vendor) = (&manifest.vendors[i].0, &manifest.vendors[i].1);
            push_vendor_line(
                &mut out,
                line(VendorLevel::Pass, concat3(path, " matches curated module ", name.as_str())),
            );
            push_vendor_line(
                &mut out,
                line(VendorLevel::Info, concat("default install path: ", vendor.install_path.as_str())),
            );
            match &vendor.source_url {
                Some(url) => {
                    push_vendor_line(&mut out, line(VendorLevel::Info, concat("install source: ", url.as_str())));
                },
                None => {
                    push_vendor_line(
                        &mut out,
                        line(
                            VendorLevel::Hint,
                            "this module has no public sourceUrl; place the checkout locally before bootstrapping".to_string(),
                        ),
                    );
                },
            }
            if vendor.components.len() > 0 {
                let list = join_strings(&vendor.components, ",");
                push_vendor_line(&mut out, line(VendorLevel::Hint, concat("add components to robo.nix: ", list.as_str())));
            }
            expects_lines(&mut out, &vendor.required_paths);
            proof {
                let k = choose|k: int|
                    0 <= k < manifest.vendors.len() && names_checkout(manifest.vendors@[k].1, c) && forall|j: int|
                        0 <= j < k ==> !names_checkout(#[trigger] manifest.vendors@[j].1, c);
                if k < i {
                } else if k > i {
                    assert(!names_checkout(manifest.vendors@[i as int].1, c));
                }
                assert(k == i);
                assert(lines_view(out@) =~= match_report(path@, name@, *vendor));
            }
            (out, true)
        },
    }
}

// ---------------------------------------------------------------------
// vendor doctor
// ---------------------------------------------------------------------

/// What `robo vendor doctor` finds on disk for one module: where its
/// checkout is (when one is found), and whether each required path (inside
/// the checkout), bootstrap script and patch exists.
pub struct VendorFacts {
    pub root: Option<String>,
    pub required: Vec<bool>,
    pub scripts: Vec<bool>,
    pub patches: Vec<bool>,
}

/// The facts hold one flag per path of the module.
pub open spec fn facts_match(v: VendorModule, f: VendorFacts) -> bool {
    &&& f.required.len() == v.required_paths.len()
    &&& f.scripts.len() == v.bootstrap_scripts.len()
    &&& f.patches.len() == v.patches.len()
}

/// `Path::join`: an absolute path replaces the base.
pub open spec fn path_join(base: Seq<char>, p: Seq<char>) -> Seq<char> {
    if p.len() > 0 && p[0] == '/' {
        p
    } else {
        joined_path(base, p)
    }
}

pub fn join_paths(base: &str, p: &str) -> (r: String)
    ensures
        r@ == path_join(base@, p@),
{
    let pv = chars_of(p);
    if pv.len() > 0 && pv[0] == '/' {
        crate::text::owned(p)
    } else {
        crate::scaffold::join_path(base, p)
    }
}

/// The kinds of path a module's check looks at.
#[derive(PartialEq, Eq, Structural, Clone, Copy)]
pub enum CheckKind {
    Required,
    Script,
    Patch,
}

/// The line for one checked path.
pub open spec fn checked_line(kind: CheckKind, name: Seq<char>, root: Seq<char>, item: Seq<char>, present: bool) -> LineView {
    match kind {
        CheckKind::Required => if present {
            (VendorLevel::Pass, false, name + " has "@ + path_join(root, item))
        } else {
            (VendorLevel::Error, false, name + " missing "@ + path_join(root, item))
        },
        CheckKind::Script => if present {
            (VendorLevel::Pass, false, name + " bootstrap script present: "@ + item)
        } else {
            (VendorLevel::Error, false, name + " bootstrap script missing: "@ + item)
        },
        CheckKind::Patch => if present {
            (VendorLevel::Pass, false, name + " patch present: "@ + item)
        } else {
            (VendorLevel::Error, false, name + " patch missing: "@ + item)
        },
    }
}

pub open spec fn checked_lines(
    kind: CheckKind,
    name: Seq<char>,
    root: Seq<char>,
    items: Seq<Seq<char>>,
    present: Seq<bool>,
) -> Seq<LineView> {
    Seq::new(items.len(), |k: int| checked_line(kind, name, root, items[k], present[k]))
}

/// How many of the flags are false.
pub open spec fn missing_count(present: Seq<bool>) -> nat
    decreases present.len(),
{
    if present.len() == 0 {
        0
    } else {
        missing_count(present.drop_last()) + if present.last() {
            0nat
        } else {
            1nat
        }
    }
}

pub proof fn lemma_missing_count_bound(present: Seq<bool>)
    ensures
        missing_count(present) <= present.len(),
    decreases present.len(),
{
    if present.len() > 0 {
        lemma_missing_count_bound(present.drop_last());
    }
}

fn push_checked(
    out: &mut Vec<VendorLine>,
    kind: CheckKind,
    name: &str,
    root: &str,
    items: &Vec<String>,
    present: &Vec<bool>,
) -> (missing: usize)
    requires
        present.len() == items.len(),
    ensures
        lines_view(final(out)@) == lines_view(old(out)@) + checked_lines(kind, name@, root@, strs(items@), present@),
        missing == missing_count(present@),
{
    let ghost start = lines_view(out@);
    let ghost iv = strs(items@);
    let mut missing: usize = 0;
    let mut i: usize = 0;
    while i < items.len()
        invariant
            i <= items.len(),
            present.len() == items.len(),
            iv == strs(items@),
            missing == missing_count(present@.take(i as int)),
            missing <= i,
            lines_view(out@) == start + checked_lines(kind, name@, root@, iv.take(i as int), present@.take(i as int)),
        decreases items.len() - i,
    {
        let item = items[i].as_str();
        let message = match kind {
            CheckKind::Required => {
                let full = join_paths(root, item);
                if present[i] {
                    concat3(name, " has ", full.as_str())
                } else {
                    concat3(name, " missing ", full.as_str())
                }
            },
            CheckKind::Script => if present[i] {
                concat3(name, " bootstrap script present: ", item)
            } else {
                concat3(name, " bootstrap script missing: ", item)
            },
            CheckKind::Patch => if present[i] {
                concat3(name, " patch present: ", item)
            } else {
                concat3(name, " patch missing: ", item)
            },
        };
        let level = if present[i] {
            VendorLevel::Pass
        } else {
            VendorLevel::Error
        };
        push_vendor_line(out, line(level, message));
        assert(present@.take(i + 1).drop_last() =~= present@.take(i as int));
        if !present[i] {
            missing = missing + 1;
        }
        assert(checked_lines(kind, name@, root@, iv.take(i + 1), present@.take(i + 1)) =~= checked_lines(
            kind,
            name@,
            root@,
            iv.take(i as int),
            present@.take(i as int),
        ).push(checked_line(kind, name@, root@, iv[i as int], present@[i as int])));
        i = i + 1;
    }
    assert(iv.take(items.len() as int) =~= iv);
    assert(present@.take(items.len() as int) =~= present@);
    missing
}

/// What `robo vendor doctor` reports for one module: nothing when no
/// checkout is found; else where it is, each required path, bootstrap
/// script and patch present or missing, and the components it suggests.
pub open spec fn module_lines(name: Seq<char>, v: VendorModule, f: VendorFacts) -> Seq<LineView> {
    match f.root {
        None => Seq::empty(),
        Some(root) => seq![(VendorLevel::Pass, false, name + " source present at "@ + root@)]
            + checked_lines(CheckKind::Required, name, root@, strs(v.required_paths@), f.required@)
            + checked_lines(CheckKind::Script, name, root@, strs(v.bootstrap_scripts@), f.scripts@)
            + checked_lines(CheckKind::Patch, name, root@, strs(v.patches@), f.patches@) + (if v.components.len()
            > 0 {
            seq![(VendorLevel::Info, false, name + " suggests components: "@ + join(strs(v.components@), ","@))]
        } else {
            Seq::empty()
        }),
    }
}

/// The issues one module's check finds.
pub open spec fn module_issues(f: VendorFacts) -> nat {
    match f.root {
        None => 0,
        Some(_) => missing_count(f.required@) + missing_count(f.scripts@) + missing_count(f.patches@),
    }
}

fn module_report(out: &mut Vec<VendorLine>, name: &str, vendor: &VendorModule, facts: &VendorFacts) -> (issues: u64)
    requires
        facts_match(*vendor, *facts),
        module_issues(*facts) <= u64::MAX,
    ensures
        lines_view(final(out)@) == lines_view(old(out)@) + module_lines(name@, *vendor, *facts),
        issues == module_issues(*facts),
{
    let ghost start = lines_view(out@);
    match &facts.root {
        None => {
            assert(lines_view(out@) =~= start + module_lines(name@, *vendor, *facts));
            0
        },
        Some(root) => {
            push_vendor_line(out, line(VendorLevel::Pass, concat3(name, " source present at ", root.as_str())));
            let a = push_checked(out, CheckKind::Required, name, root.as_str(), &vendor.required_paths, &facts.required);
            let b = push_checked(out, CheckKind::Script, name, root.as_str(), &vendor.bootstrap_scripts, &facts.scripts);
            let c = push_checked(out, CheckKind::Patch, name, root.as_str(), &vendor.patches, &facts.patches);
            if vendor.components.len() > 0 {
                let list = join_strings(&vendor.components, ",");
                push_vendor_line(out, line(VendorLevel::Info, concat3(name, " suggests components: ", list.as_str())));
            }
            assert(lines_view(out@) =~= start + module_lines(name@, *vendor, *facts));
            a as u64 + b as u64 + c as u64
        },
    }
}

/// The lines of all modules' checks, in manifest order (`fs[i]` for module
/// `i`).
pub open spec fn doctor_body(vs: Seq<(String, VendorModule)>, fs: Seq<VendorFacts>) -> Seq<LineView>
    decreases vs.len(),
{
    if vs.len() == 0 {
        Seq::empty()
    } else {
        doctor_body(vs.drop_last(), fs) + module_lines(vs.last().0@, vs.last().1, fs[vs.len() - 1])
    }
}

pub open spec fn detected_count(fs: Seq<VendorFacts>) -> nat
    decreases fs.len(),
{
    if fs.len() == 0 {
        0
    } else {
        detected_count(fs.drop_last()) + if fs.last().root is Some {
            1nat
        } else {
            0nat
        }
    }
}

pub open spec fn issue_total(fs: Seq<VendorFacts>) -> nat
    decreases fs.len(),
{
    if fs.len() == 0 {
        0
    } else {
        issue_total(fs.drop_last()) + module_issues(fs.last())
    }
}

pub proof fn lemma_issue_total_prefix(fs: Seq<VendorFacts>, i: int)
    requires
        0 <= i <= fs.len(),
    ensures
        issue_total(fs.take(i)) <= issue_total(fs),
    decreases fs.len() - i,
{
    if i < fs.len() {
        lemma_issue_total_prefix(fs, i + 1);
        assert(fs.take(i + 1).drop_last() =~= fs.take(i));
    } else {
        assert(fs.take(i) =~= fs);
    }
}

pub proof fn lemma_detected_bound(fs: Seq<VendorFacts>)
    ensures
        detected_count(fs) <= fs.len(),
    decreases fs.len(),
{
    if fs.len() > 0 {
        lemma_detected_bound(fs.drop_last());
    }
}

/// What `robo vendor doctor` prints and whether it succeeds: each module's
/// check, then the status: `ok detected=0` (with a hint) when no checkout
/// is found, `ok detected=N` when nothing is missing, else a hint and
/// `error detected=N issues=M`, which fails.
pub open spec fn doctor_report(m: VendorManifest, fs: Seq<VendorFacts>) -> (Seq<LineView>, bool) {
    let body = doctor_body(m.vendors@, fs);
    let d = detected_count(fs);
    let n = issue_total(fs);
    if d == 0 {
        (
            body + seq![
                (VendorLevel::Pass, true, "ok detected=0"@),
                (VendorLevel::Hint, false, "no curated local vendors were detected under this project root"@),
            ],
            true,
        )
    } else if n == 0 {
        (body + seq![(VendorLevel::Pass, true, "ok detected="@ + decimal(d))], true)
    } else {
        (
            body + seq![
                (VendorLevel::Hint, false, "run from the project root that contains third_party/"@),
                (VendorLevel::Error, true, "error detected="@ + decimal(d) + " issues="@ + decimal(n)),
            ],
            false,
        )
    }
}

pub fn doctor_vendors(manifest: &VendorManifest, facts: &Vec<VendorFacts>) -> (r: (Vec<VendorLine>, bool))
    requires
        facts.len() == manifest.vendors.len(),
        forall|i: int| 0 <= i < facts.len() ==> facts_match(#[trigger] manifest.vendors@[i].1, facts@[i]),
        issue_total(facts@) <= u64::MAX,
    ensures
        (lines_view(r.0@), r.1) == doctor_report(*manifest, facts@),
{
    let mut out: Vec<VendorLine> = Vec::new();
    let mut detected: u64 = 0;
    let mut issues: u64 = 0;
    let ghost vs = manifest.vendors@;
    let ghost fs = facts@;
    let mut i: usize = 0;
    assert(lines_view(out@) =~= doctor_body(vs.take(0), fs));
    while i < manifest.vendors.len()
        invariant
            i <= manifest.vendors.len(),
            facts.len() == manifest.vendors.len(),
            vs == manifest.vendors@,
            fs == facts@,
            forall|k: int| 0 <= k < facts.len() ==> facts_match(#[trigger] manifest.vendors@[k].1, facts@[k]),
            issue_total(fs) <= u64::MAX,
            lines_view(out@) == doctor_body(vs.take(i as int), fs),
            detected == detected_count(fs.take(i as int)),
            detected <= i,
            issues == issue_total(fs.take(i as int)),
        decreases manifest.vendors.len() - i,
    {
        assert(vs.take(i + 1).drop_last() =~= vs.take(i as int));
        assert(fs.take(i + 1).drop_last() =~= fs.take(i as int));
        assert(facts_match(manifest.vendors@[i as int].1, facts@[i as int]));
        proof {
            lemma_issue_total_prefix(fs, i + 1);
            assert(fs.take(i + 1).last() == fs[i as int]);
        }
        let n = module_report(&mut out, manifest.vendors[i].0.as_str(), &manifest.vendors[i].1, &facts[i]);
        if facts[i].root.is_some() {
            detected = detected + 1;
        }
        proof {
            lemma_issue_total_prefix(fs, i + 1);
        }
        issues = issues + n;
        i = i + 1;
    }
    assert(vs.take(manifest.vendors.len() as int) =~= vs);
    assert(fs.take(manifest.vendors.len() as int) =~= fs);
    if detected == 0 {
        let s = VendorLine { level: VendorLevel::Pass, status: true, message: "ok detected=0".to_string() };
        push_vendor_line(&mut out, s);
        push_vendor_line(
            &mut out,
            line(VendorLevel::Hint, "no curated local vendors were detected under this project root".to_string()),
        );
        return (out, true);
    }
    if issues == 0 {
        let message = concat("ok detected=", crate::text::decimal_string(detected).as_str());
        push_vendor_line(&mut out, VendorLine { level: VendorLevel::Pass, status: true, message });
        return (out, true);
    }
    push_vendor_line(&mut out, line(VendorLevel::Hint, "run from the project root that contains third_party/".to_string()));
    let message = crate::text::concat4(
        "error detected=",
        crate::text::decimal_string(detected).as_str(),
        " issues=",
        crate::text::decimal_string(issues).as_str(),
    );
    push_vendor_line(&mut out, VendorLine { level: VendorLevel::Error, status: true, message });
    (out, false)
}

// ---------------------------------------------------------------------
// vendor list
// ---------------------------------------------------------------------

/// A module's line in the list: name, whether its checkout is present,
/// install path and description, in columns.
pub open spec fn list_line(name: Seq<char>, v: VendorModule, present: bool) -> Seq<char> {
    crate::text::left_aligned(name, 34) + " "@ + crate::text::left_aligned(
        if present {
            "present"@
        } else {
            "missing"@
        },
        8,
    ) + " "@ + crate::text::left_aligned(v.install_path@, 44) + " "@ + v.description@
}

/// The list, one line per module in manifest order; `presence[i]` flags
/// which of module `i`'s paths are directories.
pub fn list_vendor_lines(manifest: &VendorManifest, presence: &Vec<Vec<bool>>) -> (r: Vec<String>)
    requires
        presence.len() == manifest.vendors.len(),
        forall|i: int| 0 <= i < presence.len() ==> (#[trigger] presence@[i]).len() == candidates(manifest.vendors@[i].1).len(),
    ensures
        r.len() == manifest.vendors.len(),
        forall|i: int| 0 <= i < r.len() ==> (#[trigger] r@[i])@ == list_line(
            manifest.vendors@[i].0@,
            manifest.vendors@[i].1,
            first_present(candidates(manifest.vendors@[i].1), presence@[i]@) is Some,
        ),
{
    let mut out: Vec<String> = Vec::new();
    let mut i: usize = 0;
    while i < manifest.vendors.len()
        invariant
            i <= manifest.vendors.len(),
            presence.len() == manifest.vendors.len(),
            forall|k: int| 0 <= k < presence.len() ==> (#[trigger] presence@[k]).len() == candidates(manifest.vendors@[k].1).len(),
            out.len() == i,
            forall|k: int| 0 <= k < i ==> (#[trigger] out@[k])@ == list_line(
                manifest.vendors@[k].0@,
                manifest.vendors@[k].1,
                first_present(candidates(manifest.vendors@[k].1), presence@[k]@) is Some,
            ),
        decreases manifest.vendors.len() - i,
    {
        let (name, vendor) = (&manifest.vendors[i].0, &manifest.vendors[i].1);
        assert(presence@[i as int].len() == candidates(manifest.vendors@[i as int].1).len());
        let present = detected_root(vendor, &presence[i]).is_some();
        let status = if present {
            "present"
        } else {
            "missing"
        };
        let mut l: Vec<char> = Vec::new();
        crate::text::append_str(&mut l, crate::text::pad_right(name.as_str(), 34).as_str());
        crate::text::append_str(&mut l, " ");
        crate::text::append_str(&mut l, crate::text::pad_right(status, 8).as_str());
        crate::text::append_str(&mut l, " ");
        crate::text::append_str(&mut l, crate::text::pad_right(vendor.install_path.as_str(), 44).as_str());
        crate::text::append_str(&mut l, " ");
        crate::text::append_str(&mut l, vendor.description.as_str());
        out.push(string_of(&l));
        i = i + 1;
    }
    out
}

// ---------------------------------------------------------------------
// vendor export
// ---------------------------------------------------------------------

/// A list attribute of an exported module.
pub open spec fn nix_list(key: Seq<char>, values: Seq<Seq<char>>) -> Seq<Seq<char>> {
    seq!["  "@ + key + " = ["@] + values.map_values(|v: Seq<char>| "    \""@ + quote_escaped(v) + "\""@)
        + seq!["  ];"@]
}

/// A module written as a Nix attribute, for upstreaming.
pub open spec fn export_text(name: Seq<char>, v: VendorModule) -> Seq<Seq<char>> {
    seq![
        name + " = {"@,
        "  description = \""@ + quote_escaped(v.description@) + "\";"@,
        "  installPath = \""@ + quote_escaped(v.install_path@) + "\";"@,
    ] + nix_list("detectPaths"@, strs(v.detect_paths@)) + seq![
        match v.source_url {
            Some(u) => "  sourceUrl = \""@ + quote_escaped(u@) + "\";"@,
            None => "  sourceUrl = null;"@,
        },
    ] + nix_list("components"@, strs(v.components@)) + nix_list("requiredPaths"@, strs(v.required_paths@))
        + nix_list("bootstrapScripts"@, strs(v.bootstrap_scripts@)) + nix_list("patches"@, strs(v.patches@))
        + seq!["};"@]
}

fn push_string(out: &mut Vec<String>, l: String)
    ensures
        strs(final(out)@) == strs(old(out)@).push(l@),
{
    proof {
        crate::text::lemma_strs_push(out@, l);
    }
    out.push(l);
}

fn push_nix_list(out: &mut Vec<String>, key: &str, values: &Vec<String>)
    ensures
        strs(final(out)@) == strs(old(out)@) + nix_list(key@, strs(values@)),
{
    let ghost start = strs(out@);
    let ghost vv = strs(values@);
    push_string(out, concat3("  ", key, " = ["));
    let ghost mid = strs(out@);
    let mut i: usize = 0;
    while i < values.len()
        invariant
            i <= values.len(),
            vv == strs(values@),
            strs(out@) == mid + vv.take(i as int).map_values(|v: Seq<char>| "    \""@ + quote_escaped(v) + "\""@),
        decreases values.len() - i,
    {
        push_string(out, concat3("    \"", crate::scaffold::escape_nix(values[i].as_str()).as_str(), "\""));
        assert(vv.take(i + 1).map_values(|v: Seq<char>| "    \""@ + quote_escaped(v) + "\""@) =~= vv.take(
            i as int,
        ).map_values(|v: Seq<char>| "    \""@ + quote_escaped(v) + "\""@).push(
            "    \""@ + quote_escaped(vv[i as int]) + "\""@,
        ));
        i = i + 1;
    }
    assert(vv.take(values.len() as int) =~= vv);
    push_string(out, "  ];".to_string());
    assert(strs(out@) =~= start + nix_list(key@, vv));
}

/// The first module of that name.
pub open spec fn module_index(m: VendorManifest, name: Seq<char>) -> Option<int> {
    if exists|i: int| 0 <= i < m.vendors.len() && #[trigger] m.vendors@[i].0@ == name {
        Some(
            choose|i: int|
                0 <= i < m.vendors.len() && m.vendors@[i].0@ == name && forall|j: int|
                    0 <= j < i ==> #[trigger] m.vendors@[j].0@ != name,
        )
    } else {
        None
    }
}

/// The export of the module of that name, or the error line for an
/// unknown one.
pub fn export_vendor(manifest: &VendorManifest, name: &str) -> (r: Result<Vec<String>, VendorLine>)
    ensures
        match module_index(*manifest, name@) {
            Some(i) => r matches Ok(ls) && strs(ls@) == export_text(name@, manifest.vendors@[i].1),
            None => r matches Err(l) && line_view(l) == (VendorLevel::Error, false, "unknown vendor module "@ + name@),
        },
{
    let mut k: usize = 0;
    while k < manifest.vendors.len()
        invariant
            k <= manifest.vendors.len(),
            forall|j: int| 0 <= j < k ==> #[trigger] manifest.vendors@[j].0@ != name@,
        ensures
            k <= manifest.vendors.len(),
            forall|j: int| 0 <= j < k ==> #[trigger] manifest.vendors@[j].0@ != name@,
            k < manifest.vendors.len() ==> manifest.vendors@[k as int].0@ == name@,
        decreases manifest.vendors.len() - k,
    {
        if str_eq(manifest.vendors[k].0.as_str(), name) {
            break;
        }
        k = k + 1;
    }
    if k == manifest.vendors.len() {
        return Err(line(VendorLevel::Error, concat("unknown vendor module ", name)));
    }
    let vendor = &manifest.vendors[k].1;
    proof {
        let i = module_index(*manifest, name@)->0;
        assert(manifest.vendors@[k as int].0@ == name@);
        if i < k {
        } else if i > k {
        }
        assert(i == k);
    }
    let mut out: Vec<String> = Vec::new();
    assert(strs(out@) =~= Seq::<Seq<char>>::empty());
    push_string(&mut out, concat(name, " = {"));
    push_string(
        &mut out,
        concat3("  description = \"", crate::scaffold::escape_nix(vendor.description.as_str()).as_str(), "\";"),
    );
    push_string(
        &mut out,
        concat3("  installPath = \"", crate::scaffold::escape_nix(vendor.install_path.as_str()).as_str(), "\";"),
    );
    push_nix_list(&mut out, "detectPaths", &vendor.detect_paths);
    match &vendor.source_url {
        Some(u) => push_string(
            &mut out,
            concat3("  sourceUrl = \"", crate::scaffold::escape_nix(u.as_str()).as_str(), "\";"),
        ),
        None => push_string(&mut out, "  sourceUrl = null;".to_string()),
    }
    push_nix_list(&mut out, "components", &vendor.components);
    push_nix_list(&mut out, "requiredPaths", &vendor.required_paths);
    push_nix_list(&mut out, "bootstrapScripts", &vendor.bootstrap_scripts);
    push_nix_list(&mut out, "patches", &vendor.patches);
    push_string(&mut out, "};".to_string());
    assert(strs(out@) =~= export_text(name@, *vendor));
    Ok(out)
}

// ---------------------------------------------------------------------
// vendor bootstrap
// ---------------------------------------------------------------------

/// Where `robo vendor bootstrap` gets a module's checkout.
pub enum BootstrapSource {
    /// The checkout found at this path.
    Found(String),
    /// Cloned from this URL into the install path.
    Clone(String),
    /// Nowhere: the module has no checkout and no source.
    Missing,
}

/// The source of a module's checkout, given where one was found, and the
/// line announcing it: a found checkout says nothing, a clone says where
/// it goes, and a module with neither gets a hint naming the paths it is
/// looked for at.
pub fn bootstrap_source(name: &str, vendor: &VendorModule, detected: Option<String>) -> (r: (BootstrapSource, Option<VendorLine>))
    ensures
        match detected {
            Some(d) => r.0 == BootstrapSource::Found(d) && r.1 is None,
            None => match vendor.source_url {
                Some(u) => {
                    &&& r.0 == BootstrapSource::Clone(u)
                    &&& r.1 matches Some(l) && line_view(l) == (
                        VendorLevel::Info,
                        false,
                        "cloning "@ + name@ + " into "@ + vendor.install_path@,
                    )
                },
                None => {
                    &&& r.0 == BootstrapSource::Missing
                    &&& r.1 matches Some(l) && line_view(l) == (
                        VendorLevel::Hint,
                        false,
                        name@ + " has no sourceUrl; place it at "@ + vendor.install_path@ + " or one of: "@
                            + join(strs(vendor.detect_paths@), ","@),
                    )
                },
            },
        },
{
    match detected {
        Some(d) => (BootstrapSource::Found(d), None),
        None => match &vendor.source_url {
            Some(u) => (
                BootstrapSource::Clone(u.clone()),
                Some(line(VendorLevel::Info, concat3("cloning ", name, concat(" into ", vendor.install_path.as_str()).as_str()))),
            ),
            None => {
                let paths = join_strings(&vendor.detect_paths, ",");
                let m = crate::text::concat4(
                    name,
                    " has no sourceUrl; place it at ",
                    vendor.install_path.as_str(),
                    concat(" or one of: ", paths.as_str()).as_str(),
                );
                (BootstrapSource::Missing, Some(line(VendorLevel::Hint, m)))
            },
        },
    }
}

/// The status `robo vendor bootstrap` ends with, and whether it succeeds:
/// `ok scripts=N` with no issues, else `error scripts=N issues=M`.
pub fn bootstrap_status(ran: u64, issues: u64) -> (r: (VendorLine, bool))
    ensures
        r.1 == (issues == 0),
        line_view(r.0) == if issues == 0 {
            (VendorLevel::Pass, true, "ok scripts="@ + decimal(ran as nat))
        } else {
            (VendorLevel::Error, true, "error scripts="@ + decimal(ran as nat) + " issues="@ + decimal(issues as nat))
        },
{
    if issues == 0 {
        let message = concat("ok scripts=", crate::text::decimal_string(ran).as_str());
        (VendorLine { level: VendorLevel::Pass, status: true, message }, true)
    } else {
        let message = crate::text::concat4(
            "error scripts=",
            crate::text::decimal_string(ran).as_str(),
            " issues=",
            crate::text::decimal_string(issues).as_str(),
        );
        (VendorLine { level: VendorLevel::Error, status: true, message }, false)
    }
}

} // verus!
