//! `robo doctor`: the report lines, the provenance it explains from
//! `robo.nix`'s text, and how it summarizes a Nix dry run.
use vstd::prelude::*;
use crate::nix_text::{attr_value, list_scan, reasons_of, set_scan, source_scripts, TextRuntime};
use crate::text::{concat, concat3, concat4, contains, is_prefix, lines, opt_str, replace_all, string_of, strs, trim, Sep};
use crate::ui::{glue, glue_text, label, renders, renders_lines, text_glue, Config, LabelKind};
use crate::why::{reason_of, why_view, Why, WhyEntry};

verus! {

/// `doctor: TAG MESSAGE` in plain output.
pub open spec fn doctor_text(tag: Seq<char>, message: Seq<char>) -> Seq<char> {
    "doctor: "@ + tag + " "@ + message
}

pub fn doctor_line(config: Config, tag: &str, kind: LabelKind, message: &str) -> (r: String)
    ensures
        renders(config, r@, doctor_text(tag@, message@)),
{
    proof {
        reveal_strlit("doctor: ");
        reveal_strlit("doctor:");
        reveal_strlit(" ");
    }
    let head = glue_text(config, label(config, "doctor:", LabelKind::Status).as_str(), Ghost("doctor:"@), " ");
    let with_tag = glue(config, head.as_str(), Ghost("doctor:"@ + " "@), label(config, tag, kind).as_str(), Ghost(tag@));
    let rest = concat(" ", message);
    let r = glue_text(config, with_tag.as_str(), Ghost("doctor:"@ + " "@ + tag@), rest.as_str());
    assert("doctor:"@ + " "@ + tag@ + rest@ =~= doctor_text(tag@, message@));
    r
}

pub fn doctor_field(config: Config, message: &str) -> (r: String)
    ensures
        renders(config, r@, "doctor: "@ + message@),
{
    proof {
        reveal_strlit("doctor: ");
        reveal_strlit("doctor:");
        reveal_strlit(" ");
    }
    let rest = concat(" ", message);
    let r = glue_text(config, label(config, "doctor:", LabelKind::Status).as_str(), Ghost("doctor:"@), rest.as_str());
    assert("doctor:"@ + rest@ =~= "doctor: "@ + message@);
    r
}

pub fn doctor_ok(config: Config, message: &str) -> (r: String)
    ensures
        renders(config, r@, doctor_text("ok:"@, message@)),
{
    doctor_line(config, "ok:", LabelKind::Pass, message)
}

pub fn doctor_warn(config: Config, warnings: &mut usize, message: &str) -> (r: String)
    requires
        *old(warnings) < usize::MAX,
    ensures
        *final(warnings) == *old(warnings) + 1,
        renders(config, r@, doctor_text("warn:"@, message@)),
{
    *warnings = *warnings + 1;
    doctor_line(config, "warn:", LabelKind::Warn, message)
}

pub fn doctor_error(config: Config, issues: &mut usize, message: &str) -> (r: String)
    requires
        *old(issues) < usize::MAX,
    ensures
        *final(issues) == *old(issues) + 1,
        renders(config, r@, doctor_text("error:"@, message@)),
{
    *issues = *issues + 1;
    doctor_line(config, "error:", LabelKind::Error, message)
}

/// One `hint:` line per line of the message.
pub open spec fn doctor_hints(message: Seq<char>) -> Seq<Seq<char>> {
    lines(message).map_values(|l: Seq<char>| doctor_text("hint:"@, l))
}

pub fn doctor_hint(config: Config, message: &str) -> (r: Vec<String>)
    ensures
        renders_lines(config, strs(r@), doctor_hints(message@)),
{
    let parts = crate::text::lines_str(message);
    let ghost pv = crate::text::views(parts@);
    let mut out: Vec<String> = Vec::new();
    let mut i: usize = 0;
    assert(strs(out@) =~= Seq::<Seq<char>>::empty());
    assert(pv.take(0).map_values(|l: Seq<char>| doctor_text("hint:"@, l)) =~= Seq::<Seq<char>>::empty());
    while i < parts.len()
        invariant
            i <= parts.len(),
            pv == crate::text::views(parts@),
            pv == lines(message@),
            renders_lines(config, strs(out@), pv.take(i as int).map_values(|l: Seq<char>| doctor_text("hint:"@, l))),
        decreases parts.len() - i,
    {
        let line = doctor_line(config, "hint:", LabelKind::Hint, crate::text::string_of(&parts[i]).as_str());
        let ghost before = out@;
        out.push(line);
        proof {
            assert(strs(out@) =~= strs(before).push(line@));
            assert(pv.take(i + 1).map_values(|l: Seq<char>| doctor_text("hint:"@, l)) =~= pv.take(i as int).map_values(|l: Seq<char>| doctor_text("hint:"@, l)).push(doctor_text("hint:"@, pv[i as int])));
            assert(parts@[i as int]@ == pv[i as int]);
            crate::ui::lemma_renders_lines_push(
                config,
                strs(before),
                pv.take(i as int).map_values(|l: Seq<char>| doctor_text("hint:"@, l)),
                line@,
                doctor_text("hint:"@, pv[i as int]),
            );
        }
        i = i + 1;
    }
    assert(pv.take(parts.len() as int) == pv);
    out
}

pub fn doctor_why(config: Config, message: &str) -> (r: String)
    ensures
        renders(config, r@, doctor_text("why:"@, message@)),
{
    doctor_line(config, "why:", LabelKind::Why, message)
}

pub fn doctor_next(config: Config, message: &str) -> (r: String)
    ensures
        renders(config, r@, doctor_text("next:"@, message@)),
{
    doctor_line(config, "next:", LabelKind::Status, message)
}

/// `doctor: status=MESSAGE`.
pub fn doctor_status(config: Config, message: &str, kind: LabelKind) -> (r: String)
    ensures
        renders(config, r@, "doctor: "@ + "status="@ + message@),
{
    proof {
        reveal_strlit("doctor: ");
        reveal_strlit("doctor:");
        reveal_strlit(" ");
    }
    let head = glue_text(config, label(config, "doctor:", LabelKind::Status).as_str(), Ghost("doctor:"@), " ");
    let with_status = glue(config, head.as_str(), Ghost("doctor:"@ + " "@), label(config, "status=", kind).as_str(), Ghost("status="@));
    let r = glue_text(config, with_status.as_str(), Ghost("doctor:"@ + " "@ + "status="@), message);
    assert("doctor:"@ + " "@ + "status="@ + message@ =~= "doctor: "@ + "status="@ + message@);
    r
}

// ---------------------------------------------------------------------
// A Nix dry run
// ---------------------------------------------------------------------

/// A Nix summary line in robo's words: a trailing `:` dropped, then
/// derivations and paths called items.
pub open spec fn cleaned(line: Seq<char>) -> Seq<char> {
    replace_all(
        replace_all(
            replace_all(replace_all(crate::text::trim_end(line, Sep::Char(':')), "derivations"@, "items"@), "derivation"@, "item"@),
            "paths"@,
            "items"@,
        ),
        "path"@,
        "item"@,
    )
}

pub fn clean_nix_summary(line: &str) -> (r: String)
    ensures
        r@ == cleaned(line@),
{
    proof {
        reveal_strlit("derivations");
        reveal_strlit("derivation");
        reveal_strlit("paths");
        reveal_strlit("path");
    }
    let t = crate::text::string_of(&crate::text::trim_end_chars(&crate::text::chars_of(line), Sep::Char(':')));
    let a = crate::text::replace_str(t.as_str(), "derivations", "items");
    let b = crate::text::replace_str(a.as_str(), "derivation", "item");
    let c = crate::text::replace_str(b.as_str(), "paths", "items");
    crate::text::replace_str(c.as_str(), "path", "item")
}

/// What a dry run's line reports, if anything: local builds or
/// downloads.
pub open spec fn dry_run_line(line: Seq<char>) -> Option<Seq<char>> {
    if is_prefix("these "@, line) || is_prefix("this "@, line) {
        if contains(line, "will be built"@) {
            Some("local builds: "@ + cleaned(line))
        } else if contains(line, "will be fetched"@) || contains(line, "will be downloaded"@) {
            Some("downloads: "@ + cleaned(line))
        } else {
            None
        }
    } else {
        None
    }
}

pub fn summarize_nix_dry_run(text: &str) -> (r: Vec<String>)
    ensures
        strs(r@) == crate::host_bridge::collect_entries(
            lines(text@).map_values(|l: Seq<char>| trim(l, Sep::Whitespace)),
            |l: Seq<char>| dry_run_line(l),
        ),
{
    let ls = crate::text::lines_str(text);
    let ghost lv = crate::text::views(ls@).map_values(|l: Seq<char>| trim(l, Sep::Whitespace));
    let ghost f = |l: Seq<char>| dry_run_line(l);
    let mut out: Vec<String> = Vec::new();
    let mut i: usize = 0;
    while i < ls.len()
        invariant
            i <= ls.len(),
            lv == crate::text::views(ls@).map_values(|l: Seq<char>| trim(l, Sep::Whitespace)),
            crate::text::views(ls@) == lines(text@),
            f == (|l: Seq<char>| dry_run_line(l)),
            strs(out@) == crate::host_bridge::collect_entries(lv.take(i as int), f),
        decreases ls.len() - i,
    {
        assert(lv.take(i + 1).drop_last() == lv.take(i as int));
        let line = crate::text::trim_ws(&ls[i]);
        assert(lv.take(i + 1).last() == line@);
        let ls_line = crate::text::string_of(&line);
        if crate::text::starts_with_str(&line, "these ") || crate::text::starts_with_str(&line, "this ") {
            if crate::text::contains_str(&line, "will be built") {
                let ghost prev = out@;
                out.push(concat("local builds: ", clean_nix_summary(ls_line.as_str()).as_str()));
                proof {
                    crate::text::lemma_strs_push(prev, out@.last());
                }
            } else if crate::text::contains_str(&line, "will be fetched") || crate::text::contains_str(&line, "will be downloaded") {
                let ghost prev = out@;
                out.push(concat("downloads: ", clean_nix_summary(ls_line.as_str()).as_str()));
                proof {
                    crate::text::lemma_strs_push(prev, out@.last());
                }
            }
        }
        i = i + 1;
    }
    assert(lv.take(ls.len() as int) == lv);
    out
}

/// Whether the text names any of the packages as a quoted string start
/// (`"name` or `'name`).
pub open spec fn names_dependency(text: Seq<char>, names: Seq<Seq<char>>) -> bool {
    exists|i: int| 0 <= i < names.len() && (contains(text, "\""@ + #[trigger] names[i]) || contains(text, "'"@ + names[i]))
}

pub fn has_dependency(text: &str, names: &Vec<String>) -> (r: bool)
    ensures
        r == names_dependency(text@, strs(names@)),
{
    let t = crate::text::chars_of(text);
    let ghost ns = strs(names@);
    let mut i: usize = 0;
    while i < names.len()
        invariant
            i <= names.len(),
            t@ == text@,
            ns == strs(names@),
            forall|k: int| 0 <= k < i ==> !(contains(text@, "\""@ + #[trigger] ns[k]) || contains(text@, "'"@ + ns[k])),
        decreases names.len() - i,
    {
        let dq = concat("\"", names[i].as_str());
        let sq = concat("'", names[i].as_str());
        assert(ns[i as int] == names@[i as int]@);
        if crate::text::contains_str(&t, dq.as_str()) || crate::text::contains_str(&t, sq.as_str()) {
            return true;
        }
        i = i + 1;
    }
    false
}

// ---------------------------------------------------------------------
// Why entries, read from robo.nix's text
// ---------------------------------------------------------------------

/// The provenance `robo.nix` records, as its text reads.
pub struct TextProvenance {
    pub profile: Option<Seq<char>>,
    pub inferred: Seq<Seq<char>>,
    pub reasons: Seq<(Seq<char>, Seq<char>, Seq<char>)>,
    pub required_dirs: Seq<Seq<char>>,
    pub required_files: Seq<Seq<char>>,
    pub scripts: Seq<Seq<char>>,
}

pub open spec fn text_provenance(t: Seq<char>) -> TextProvenance {
    TextProvenance {
        profile: attr_value(t, "profile"@),
        inferred: list_scan(lines(t), "inferred"@, false),
        reasons: reasons_of(crate::nix_text::set_scan(lines(t), "componentReasons"@, false, false, Seq::empty())),
        required_dirs: list_scan(lines(t), "requiredDirectories"@, false),
        required_files: list_scan(lines(t), "requiredFiles"@, false),
        scripts: source_scripts(lines(t)),
    }
}

/// Why a component is there: its profile's (when the profile lists it),
/// else its recorded reason, else the first inference, else a manual
/// choice.
pub open spec fn text_component_why(c: Seq<char>, p: TextProvenance, profile_components: Seq<Seq<char>>) -> Why {
    let remove = "remove `"@ + c + "` from `components` in robo.nix if the inference is wrong"@;
    if p.profile is Some && profile_components.contains(c) {
        (
            c,
            "profile"@,
            "selected by the `"@ + p.profile->0 + "` profile"@,
            "choose a different profile with `robo init --profile ... --force`, or edit `components` in robo.nix"@,
            "keep profile components unless the project has a known smaller runtime contract"@,
        )
    } else if reason_of(p.reasons, c) is Some {
        let r = reason_of(p.reasons, c)->0;
        (
            c,
            r.0,
            r.1,
            remove,
            "run `robo doctor --why` after edits to confirm the runtime contract still matches the project"@,
        )
    } else if p.inferred.len() > 0 {
        (
            c,
            "inference"@,
            p.inferred[0],
            remove,
            "run `robo doctor --why` after edits to confirm the inferred runtime still matches the project"@,
        )
    } else {
        (
            c,
            "manual config"@,
            "listed directly in robo.nix"@,
            "remove `"@ + c + "` from `components` in robo.nix"@,
            "keep manual components that provide native libraries, simulators, GPU, graphics, ROS, or compiler tooling this project needs"@,
        )
    }
}

/// Where an entry comes from: inference when anything was inferred, else
/// a manual choice.
pub open spec fn entry_source(p: TextProvenance) -> Seq<char> {
    if p.inferred.len() == 0 {
        "manual config"@
    } else {
        "workspace inference"@
    }
}

/// Why a required path is there.
pub open spec fn text_path_why(kind: Seq<char>, path: Seq<char>, p: TextProvenance) -> Why {
    (
        path,
        entry_source(p),
        if p.inferred.len() > 0 {
            p.inferred[0]
        } else {
            "listed in required "@ + kind + "s in robo.nix"@
        },
        "remove `"@ + path + "` from required"@ + (if kind == "file"@ {
            "Files"@
        } else {
            "Directories"@
        }) + " in robo.nix"@,
        "create `"@ + path + "` or remove it if the project does not require this "@ + kind,
    )
}

/// Why a bootstrap script is sourced.
pub open spec fn text_script_why(path: Seq<char>, p: TextProvenance) -> Why {
    (
        path,
        entry_source(p),
        if p.inferred.len() > 0 {
            p.inferred[0]
        } else {
            "listed in the bootstrap block in robo.nix"@
        },
        "remove `"@ + path + "` from the bootstrap block in robo.nix"@,
        "create `"@ + path + "` or remove it if this project does not need that bootstrap step"@,
    )
}

/// A suggested path explained.
pub open spec fn text_suggestion_why(path: Seq<char>) -> Why {
    (
        path,
        "workspace inference"@,
        "optional low-confidence vendor/runtime inference"@,
        "delete this entry from provenance.suggestions in robo.nix"@,
        "promote `"@ + path + "` to requiredFiles or requiredDirectories only if bootstrap truly depends on it"@,
    )
}

/// The explanations `robo doctor --why` gives for a runtime read from
/// `robo.nix`'s text; `profile_components` are the components of the
/// recorded profile in the component manifest (none when it is unknown).
pub open spec fn text_runtime_why(
    r: TextRuntime,
    t: Seq<char>,
    profile_components: Seq<Seq<char>>,
) -> crate::why::WhyReport {
    let p = text_provenance(t);
    crate::why::WhyReport {
        env_name: r.env_name@,
        python_version: r.python_version@,
        profile: p.profile,
        requirements: Seq::empty(),
        components: strs(r.components@).map_values(|c: Seq<char>| text_component_why(c, p, profile_components)),
        required_directories: p.required_dirs.map_values(|d: Seq<char>| text_path_why("directory"@, d, p)),
        required_files: p.required_files.map_values(|f: Seq<char>| text_path_why("file"@, f, p)),
        bootstrap_scripts: p.scripts.map_values(|x: Seq<char>| text_script_why(x, p)),
        suggestions: strs(r.suggestions@).map_values(|x: Seq<char>| text_suggestion_why(x)),
    }
}

/// What `robo.nix`'s text records, read once.
struct ReadProvenance {
    profile: Option<String>,
    inferred: Vec<String>,
    reasons: Vec<crate::why::ComponentReason>,
}

fn why_entry(name: &str, source: &str, reason: &str, remove_hint: String, remediation_hint: &str) -> (r: WhyEntry)
    ensures
        r@ == (name@, source@, reason@, remove_hint@, remediation_hint@),
{
    crate::why::entry(
        name.to_string(),
        source.to_string(),
        reason.to_string(),
        remove_hint,
        remediation_hint.to_string(),
    )
}

fn text_component_entry(c: &str, p: &ReadProvenance, profile_components: &Vec<String>, t: Ghost<Seq<char>>) -> (r: WhyEntry)
    requires
        opt_str(p.profile) == text_provenance(t@).profile,
        strs(p.inferred@) == text_provenance(t@).inferred,
        crate::why::reason_views(p.reasons@) == text_provenance(t@).reasons,
    ensures
        r@ == text_component_why(c@, text_provenance(t@), strs(profile_components@)),
{
    match &p.profile {
        Some(profile) => {
            if crate::why::contains_string(profile_components, c) {
                return why_entry(
                    c,
                    "profile",
                    concat3("selected by the `", profile.as_str(), "` profile").as_str(),
                    "choose a different profile with `robo init --profile ... --force`, or edit `components` in robo.nix".to_string(),
                    "keep profile components unless the project has a known smaller runtime contract",
                );
            }
        },
        None => {},
    }
    let remove = concat3("remove `", c, "` from `components` in robo.nix if the inference is wrong");
    match crate::why::find_reason(&p.reasons, c) {
        Some((source, reason)) => {
            return why_entry(
                c,
                source.as_str(),
                reason.as_str(),
                remove,
                "run `robo doctor --why` after edits to confirm the runtime contract still matches the project",
            );
        },
        None => {},
    }
    if p.inferred.len() > 0 {
        return why_entry(
            c,
            "inference",
            p.inferred[0].as_str(),
            remove,
            "run `robo doctor --why` after edits to confirm the inferred runtime still matches the project",
        );
    }
    why_entry(
        c,
        "manual config",
        "listed directly in robo.nix",
        concat3("remove `", c, "` from `components` in robo.nix"),
        "keep manual components that provide native libraries, simulators, GPU, graphics, ROS, or compiler tooling this project needs",
    )
}

fn text_path_entry(kind: &str, path: &str, p: &ReadProvenance, t: Ghost<Seq<char>>) -> (r: WhyEntry)
    requires
        strs(p.inferred@) == text_provenance(t@).inferred,
    ensures
        r@ == text_path_why(kind@, path@, text_provenance(t@)),
{
    proof {
        reveal_strlit("file");
    }
    let source = if p.inferred.len() == 0 {
        "manual config"
    } else {
        "workspace inference"
    };
    let reason = if p.inferred.len() > 0 {
        p.inferred[0].clone()
    } else {
        concat3("listed in required ", kind, "s in robo.nix")
    };
    let plural = if crate::text::str_eq(kind, "file") {
        "Files"
    } else {
        "Directories"
    };
    crate::why::entry(
        path.to_string(),
        source.to_string(),
        reason,
        concat4(concat("remove `", path).as_str(), "` from required", plural, " in robo.nix"),
        concat3(concat("create `", path).as_str(), "` or remove it if the project does not require this ", kind),
    )
}

fn text_script_entry(path: &str, p: &ReadProvenance, t: Ghost<Seq<char>>) -> (r: WhyEntry)
    requires
        strs(p.inferred@) == text_provenance(t@).inferred,
    ensures
        r@ == text_script_why(path@, text_provenance(t@)),
{
    let source = if p.inferred.len() == 0 {
        "manual config"
    } else {
        "workspace inference"
    };
    let reason = if p.inferred.len() > 0 {
        p.inferred[0].clone()
    } else {
        "listed in the bootstrap block in robo.nix".to_string()
    };
    crate::why::entry(
        path.to_string(),
        source.to_string(),
        reason,
        concat3("remove `", path, "` from the bootstrap block in robo.nix"),
        concat3("create `", path, "` or remove it if this project does not need that bootstrap step"),
    )
}

fn push_why(out: &mut Vec<WhyEntry>, e: WhyEntry)
    ensures
        why_view(final(out)@) == why_view(old(out)@).push(e@),
{
    let ghost before = out@;
    out.push(e);
    assert(why_view(out@) =~= why_view(before).push(e@));
}

/// The explanations `robo doctor --why` gives (see `text_runtime_why`).
pub fn build_text_runtime_why(runtime: &TextRuntime, robo_nix: &str, profile_components: &Vec<String>) -> (r: crate::why::RuntimeWhy)
    ensures
        r@ == text_runtime_why(*runtime, robo_nix@, strs(profile_components@)),
{
    let t: Ghost<Seq<char>> = Ghost(robo_nix@);
    let ghost pv = text_provenance(robo_nix@);
    let p = ReadProvenance {
        profile: crate::nix_text::nix_attr_value(robo_nix, "profile"),
        inferred: crate::nix_text::nix_list_values(robo_nix, "inferred"),
        reasons: crate::nix_text::component_reasons(robo_nix),
    };
    let dirs = crate::nix_text::nix_list_values(robo_nix, "requiredDirectories");
    let files = crate::nix_text::nix_list_values(robo_nix, "requiredFiles");
    let scripts = crate::nix_text::nix_source_scripts(robo_nix);
    let ghost pc = strs(profile_components@);

    let mut components: Vec<WhyEntry> = Vec::new();
    let ghost cv = strs(runtime.components@);
    let mut i: usize = 0;
    while i < runtime.components.len()
        invariant
            i <= runtime.components.len(),
            cv == strs(runtime.components@),
            pc == strs(profile_components@),
            pv == text_provenance(t@),
            opt_str(p.profile) == pv.profile,
            strs(p.inferred@) == pv.inferred,
            crate::why::reason_views(p.reasons@) == pv.reasons,
            why_view(components@) == cv.take(i as int).map_values(|c: Seq<char>| text_component_why(c, pv, pc)),
        decreases runtime.components.len() - i,
    {
        let e = text_component_entry(runtime.components[i].as_str(), &p, profile_components, t);
        push_why(&mut components, e);
        assert(cv.take(i + 1).map_values(|c: Seq<char>| text_component_why(c, pv, pc)) =~= cv.take(i as int).map_values(
            |c: Seq<char>| text_component_why(c, pv, pc),
        ).push(text_component_why(cv[i as int], pv, pc)));
        i = i + 1;
    }
    assert(cv.take(runtime.components.len() as int) =~= cv);

    let mut required_directories: Vec<WhyEntry> = Vec::new();
    let ghost dv = strs(dirs@);
    let mut i: usize = 0;
    while i < dirs.len()
        invariant
            i <= dirs.len(),
            dv == strs(dirs@),
            pv == text_provenance(t@),
            strs(p.inferred@) == pv.inferred,
            why_view(required_directories@) == dv.take(i as int).map_values(|d: Seq<char>| text_path_why("directory"@, d, pv)),
        decreases dirs.len() - i,
    {
        let e = text_path_entry("directory", dirs[i].as_str(), &p, t);
        push_why(&mut required_directories, e);
        assert(dv.take(i + 1).map_values(|d: Seq<char>| text_path_why("directory"@, d, pv)) =~= dv.take(i as int).map_values(
            |d: Seq<char>| text_path_why("directory"@, d, pv),
        ).push(text_path_why("directory"@, dv[i as int], pv)));
        i = i + 1;
    }
    assert(dv.take(dirs.len() as int) =~= dv);

    let mut required_files: Vec<WhyEntry> = Vec::new();
    let ghost fv = strs(files@);
    let mut i: usize = 0;
    while i < files.len()
        invariant
            i <= files.len(),
            fv == strs(files@),
            pv == text_provenance(t@),
            strs(p.inferred@) == pv.inferred,
            why_view(required_files@) == fv.take(i as int).map_values(|f: Seq<char>| text_path_why("file"@, f, pv)),
        decreases files.len() - i,
    {
        let e = text_path_entry("file", files[i].as_str(), &p, t);
        push_why(&mut required_files, e);
        assert(fv.take(i + 1).map_values(|f: Seq<char>| text_path_why("file"@, f, pv)) =~= fv.take(i as int).map_values(
            |f: Seq<char>| text_path_why("file"@, f, pv),
        ).push(text_path_why("file"@, fv[i as int], pv)));
        i = i + 1;
    }
    assert(fv.take(files.len() as int) =~= fv);

    let mut bootstrap_scripts: Vec<WhyEntry> = Vec::new();
    let ghost sv = strs(scripts@);
    let mut i: usize = 0;
    while i < scripts.len()
        invariant
            i <= scripts.len(),
            sv == strs(scripts@),
            pv == text_provenance(t@),
            strs(p.inferred@) == pv.inferred,
            why_view(bootstrap_scripts@) == sv.take(i as int).map_values(|x: Seq<char>| text_script_why(x, pv)),
        decreases scripts.len() - i,
    {
        let e = text_script_entry(scripts[i].as_str(), &p, t);
        push_why(&mut bootstrap_scripts, e);
        assert(sv.take(i + 1).map_values(|x: Seq<char>| text_script_why(x, pv)) =~= sv.take(i as int).map_values(
            |x: Seq<char>| text_script_why(x, pv),
        ).push(text_script_why(sv[i as int], pv)));
        i = i + 1;
    }
    assert(sv.take(scripts.len() as int) =~= sv);

    let mut suggestions: Vec<WhyEntry> = Vec::new();
    let ghost gv = strs(runtime.suggestions@);
    let mut i: usize = 0;
    while i < runtime.suggestions.len()
        invariant
            i <= runtime.suggestions.len(),
            gv == strs(runtime.suggestions@),
            why_view(suggestions@) == gv.take(i as int).map_values(|x: Seq<char>| text_suggestion_why(x)),
        decreases runtime.suggestions.len() - i,
    {
        let path = runtime.suggestions[i].as_str();
        let e = crate::why::entry(
            path.to_string(),
            "workspace inference".to_string(),
            "optional low-confidence vendor/runtime inference".to_string(),
            "delete this entry from provenance.suggestions in robo.nix".to_string(),
            concat3("promote `", path, "` to requiredFiles or requiredDirectories only if bootstrap truly depends on it"),
        );
        push_why(&mut suggestions, e);
        assert(gv.take(i + 1).map_values(|x: Seq<char>| text_suggestion_why(x)) =~= gv.take(i as int).map_values(
            |x: Seq<char>| text_suggestion_why(x),
        ).push(text_suggestion_why(gv[i as int])));
        i = i + 1;
    }
    assert(gv.take(runtime.suggestions.len() as int) =~= gv);

    let r = crate::why::RuntimeWhy {
        env_name: runtime.env_name.clone(),
        python_version: runtime.python_version.clone(),
        profile: p.profile,
        requirements: Vec::new(),
        components,
        required_directories,
        required_files,
        bootstrap_scripts,
        suggestions,
    };
    assert(r@.requirements =~= Seq::<Why>::empty());
    r
}

/// The components a profile of the component manifest lists: the first
/// profile of that name; none when there is none.
pub fn profile_components(profiles: &Vec<(String, Vec<String>)>, profile: &str) -> (r: Vec<String>)
    ensures
        strs(r@) == match crate::why::profile_entry(profiles@, profile@) {
            Some(cs) => cs,
            None => Seq::empty(),
        },
{
    let ghost es = profiles@;
    let mut i: usize = 0;
    assert(es.skip(0) =~= es);
    while i < profiles.len()
        invariant
            i <= profiles.len(),
            es == profiles@,
            crate::why::provides_of(es, profile@) == crate::why::provides_of(es.skip(i as int), profile@),
        decreases profiles.len() - i,
    {
        assert(es.skip(i as int)[0] == es[i as int]);
        assert(es.skip(i as int).skip(1) =~= es.skip(i + 1));
        if crate::text::str_eq(profiles[i].0.as_str(), profile) {
            return crate::text::clone_strings(&profiles[i].1);
        }
        i = i + 1;
    }
    let r: Vec<String> = Vec::new();
    assert(strs(r@) =~= Seq::<Seq<char>>::empty());
    r
}

// ---------------------------------------------------------------------
// The report
// ---------------------------------------------------------------------

/// What `robo doctor` has printed so far, with the issues and warnings
/// counted.
pub struct DoctorOutput {
    pub lines: Vec<String>,
    pub issues: usize,
    pub warnings: usize,
    /// The plain lines the printed ones show.
    pub plain: Ghost<Seq<Seq<char>>>,
}

/// The printed lines render the plain ones under `config`.
pub open spec fn fits(o: DoctorOutput, config: Config) -> bool {
    renders_lines(config, strs(o.lines@), o.plain@)
}

/// `n` more issues and `n` more warnings still fit in a `usize`.
pub open spec fn room(o: DoctorOutput, n: nat) -> bool {
    o.issues + n <= usize::MAX && o.warnings + n <= usize::MAX
}

/// What a check adds: the plain lines and how many issues and warnings;
/// the printed lines still render the plain ones under `config`.
pub open spec fn adds(before: DoctorOutput, after: DoctorOutput, config: Config, ls: Seq<Seq<char>>, issues: nat, warnings: nat) -> bool {
    &&& after.plain@ == before.plain@ + ls
    &&& fits(before, config) ==> fits(after, config)
    &&& after.issues == before.issues + issues
    &&& after.warnings == before.warnings + warnings
}

pub fn new_doctor_output(config: Config) -> (r: DoctorOutput)
    ensures
        r.lines@.len() == 0 && r.issues == 0 && r.warnings == 0,
        r.plain@ == Seq::<Seq<char>>::empty(),
        fits(r, config),
{
    let r = DoctorOutput { lines: Vec::new(), issues: 0, warnings: 0, plain: Ghost(Seq::empty()) };
    assert(strs(r.lines@) =~= Seq::<Seq<char>>::empty());
    r
}

impl DoctorOutput {
    fn push(&mut self, config: Config, line: String, Ghost(t): Ghost<Seq<char>>)
        requires
            renders(config, line@, t),
        ensures
            adds(*old(self), *final(self), config, seq![t], 0, 0),
    {
        let ghost before = self.lines@;
        self.lines.push(line);
        self.plain = Ghost(self.plain@.push(t));
        proof {
            crate::text::lemma_strs_push(before, line);
            if fits(*old(self), config) {
                crate::ui::lemma_renders_lines_push(config, strs(before), old(self).plain@, line@, t);
            }
            assert(self.plain@ =~= old(self).plain@ + seq![t]);
        }
    }

    fn push_all(&mut self, config: Config, more: Vec<String>, Ghost(ts): Ghost<Seq<Seq<char>>>)
        requires
            renders_lines(config, strs(more@), ts),
        ensures
            adds(*old(self), *final(self), config, ts, 0, 0),
    {
        let ghost before = self.lines@;
        let ghost added = more@;
        let mut more = more;
        self.lines.append(&mut more);
        self.plain = Ghost(self.plain@ + ts);
        proof {
            assert(strs(self.lines@) =~= strs(before) + strs(added));
            if fits(*old(self), config) {
                crate::ui::lemma_renders_lines_add(config, strs(before), old(self).plain@, strs(added), ts);
            }
        }
    }

    pub fn ok(&mut self, config: Config, message: &str)
        ensures
            adds(*old(self), *final(self), config, seq![doctor_text("ok:"@, message@)], 0, 0),
    {
        self.push(config, doctor_ok(config, message), Ghost(doctor_text("ok:"@, message@)));
    }

    pub fn warn(&mut self, config: Config, message: &str)
        requires
            old(self).warnings < usize::MAX,
        ensures
            adds(*old(self), *final(self), config, seq![doctor_text("warn:"@, message@)], 0, 1),
    {
        let l = doctor_warn(config, &mut self.warnings, message);
        self.push(config, l, Ghost(doctor_text("warn:"@, message@)));
    }

    pub fn error(&mut self, config: Config, message: &str)
        requires
            old(self).issues < usize::MAX,
        ensures
            adds(*old(self), *final(self), config, seq![doctor_text("error:"@, message@)], 1, 0),
    {
        let l = doctor_error(config, &mut self.issues, message);
        self.push(config, l, Ghost(doctor_text("error:"@, message@)));
    }

    pub fn hint(&mut self, config: Config, message: &str)
        ensures
            adds(*old(self), *final(self), config, doctor_hints(message@), 0, 0),
    {
        let ls = doctor_hint(config, message);
        self.push_all(config, ls, Ghost(doctor_hints(message@)));
    }

    pub fn tagged(&mut self, config: Config, tag: &str, kind: LabelKind, message: &str)
        ensures
            adds(*old(self), *final(self), config, seq![doctor_text(tag@, message@)], 0, 0),
    {
        self.push(config, doctor_line(config, tag, kind, message), Ghost(doctor_text(tag@, message@)));
    }
}

/// The opening fields and the workspace check.
pub open spec fn head_lines(env_name: Seq<char>, python: Seq<char>, workspace: Seq<char>) -> Seq<Seq<char>> {
    seq![
        "doctor: "@ + ("env="@ + env_name),
        "doctor: "@ + ("python="@ + python),
        "doctor: "@ + ("workspace="@ + workspace),
        doctor_text("ok:"@, "workspace root exists"@),
    ]
}

pub fn doctor_head(out: &mut DoctorOutput, config: Config, env_name: &str, python: &str, workspace: &str)
    ensures
        adds(*old(out), *final(out), config, head_lines(env_name@, python@, workspace@), 0, 0),
{
    proof {
        reveal_strlit("doctor: ");
    }
    let ghost start = out.plain@;
    let f1 = concat("env=", env_name);
    out.push(config, doctor_field(config, f1.as_str()), Ghost("doctor: "@ + f1@));
    let f2 = concat("python=", python);
    out.push(config, doctor_field(config, f2.as_str()), Ghost("doctor: "@ + f2@));
    let f3 = concat("workspace=", workspace);
    out.push(config, doctor_field(config, f3.as_str()), Ghost("doctor: "@ + f3@));
    out.ok(config, "workspace root exists");
    proof {
        {
            assert(out.plain@ =~= start + head_lines(env_name@, python@, workspace@));
        }
    }
}

/// The schema version check.
pub open spec fn schema_lines(schema: Option<Seq<char>>) -> (Seq<Seq<char>>, nat) {
    match schema {
        Some(v) => if v == "1"@ {
            (seq![doctor_text("ok:"@, "robo.nix schema version is 1"@)], 0)
        } else {
            (
                seq![doctor_text("warn:"@, "robo.nix schema version "@ + v + " is newer than this robo supports"@)]
                    + doctor_hints(
                    "upgrade robo-nix or regenerate with `robo init . --force` after reviewing local edits"@,
                ),
                1,
            )
        },
        None => (
            seq![doctor_text("warn:"@, "robo.nix schema version is missing"@)] + doctor_hints(
                "rerun `robo init . --force` when you are ready to migrate this generated file"@,
            ),
            1,
        ),
    }
}

pub fn doctor_schema_version(out: &mut DoctorOutput, config: Config, schema: Option<&str>)
    requires
        room(*old(out), 1),
    ensures
        adds(*old(out), *final(out), config, schema_lines(opt_text(schema)).0, 0, schema_lines(opt_text(schema)).1),
{
    let ghost start = out.plain@;
    match schema {
        Some(v) => {
            if crate::text::str_eq(v, "1") {
                proof {
                    reveal_strlit("1");
                }
                out.ok(config, "robo.nix schema version is 1");
            } else {
                proof {
                    reveal_strlit("1");
                }
                out.warn(config, concat3("robo.nix schema version ", v, " is newer than this robo supports").as_str());
                out.hint(config, "upgrade robo-nix or regenerate with `robo init . --force` after reviewing local edits");
            }
        },
        None => {
            out.warn(config, "robo.nix schema version is missing");
            out.hint(config, "rerun `robo init . --force` when you are ready to migrate this generated file");
        },
    }
    proof {
        {
            assert(out.plain@ =~= start + schema_lines(opt_text(schema)).0);
        }
    }
}

pub open spec fn opt_text(o: Option<&str>) -> Option<Seq<char>> {
    match o {
        Some(s) => Some(s@),
        None => None,
    }
}

/// The `.python-version` and `pyproject.toml` checks against the runtime's
/// Python.
pub open spec fn python_file_lines(python: Seq<char>, version_file: Option<Seq<char>>, pyproject: Option<Seq<char>>) -> (Seq<Seq<char>>, nat, nat) {
    let (a, wa) = match version_file {
        Some(v) => if trim(v, Sep::Whitespace) == python {
            (seq![doctor_text("ok:"@, ".python-version matches "@ + python)], 0nat)
        } else {
            (
                seq![doctor_text("warn:"@, ".python-version is "@ + trim(v, Sep::Whitespace) + " but robo.nix declares "@ + python)]
                    + doctor_hints("update .python-version or pythonVersion in robo.nix"@),
                1nat,
            )
        },
        None => (
            seq![doctor_text("warn:"@, ".python-version is missing"@)] + doctor_hints(
                "create .python-version with "@ + python + " so uv uses the intended interpreter"@,
            ),
            1nat,
        ),
    };
    let (b, ib, wb) = match pyproject {
        Some(t) => match crate::python::pinned_python(lines(t)) {
            Some(req) => if req == python {
                (seq![doctor_text("ok:"@, "pyproject.toml requires Python "@ + req)], 0nat, 0nat)
            } else {
                (
                    seq![doctor_text("error:"@, "pyproject.toml requires Python "@ + req + " but robo.nix declares "@ + python)]
                        + doctor_hints(
                        "set `pythonVersion = \""@ + req + "\";` in robo.nix and write `"@ + req + "` to .python-version"@,
                    ),
                    1nat,
                    0nat,
                )
            },
            None => (Seq::empty(), 0nat, 0nat),
        },
        None => (
            seq![doctor_text("warn:"@, "pyproject.toml is missing"@)] + doctor_hints(
                "run `robo init .` or create pyproject.toml for uv"@,
            ),
            0nat,
            1nat,
        ),
    };
    (a + b, ib, wa + wb)
}

pub fn doctor_python_files(
    out: &mut DoctorOutput,
    config: Config,
    python: &str,
    version_file: Option<&str>,
    pyproject: Option<&str>,
)
    requires
        room(*old(out), 2),
    ensures
        adds(
            *old(out),
            *final(out),
            config,
            python_file_lines(python@, opt_text(version_file), opt_text(pyproject)).0,
            python_file_lines(python@, opt_text(version_file), opt_text(pyproject)).1,
            python_file_lines(python@, opt_text(version_file), opt_text(pyproject)).2,
        ),
{
    let ghost start = out.plain@;
    match version_file {
        Some(v) => {
            let version = string_of(&crate::text::trim_ws(&crate::text::chars_of(v)));
            if crate::text::str_eq(version.as_str(), python) {
                out.ok(config, concat(".python-version matches ", python).as_str());
            } else {
                out.warn(
                    config,
                    concat4(".python-version is ", version.as_str(), " but robo.nix declares ", python).as_str(),
                );
                out.hint(config, "update .python-version or pythonVersion in robo.nix");
            }
        },
        None => {
            out.warn(config, ".python-version is missing");
            out.hint(config, concat3("create .python-version with ", python, " so uv uses the intended interpreter").as_str());
        },
    }
    let ghost mid = out.plain@;
    match pyproject {
        Some(t) => match crate::python::exact_python_requirement(t) {
            Some(req) => {
                if crate::text::str_eq(req.as_str(), python) {
                    out.ok(config, concat("pyproject.toml requires Python ", req.as_str()).as_str());
                } else {
                    out.error(
                        config,
                        concat4("pyproject.toml requires Python ", req.as_str(), " but robo.nix declares ", python).as_str(),
                    );
                    let h = concat4(
                        concat("set `pythonVersion = \"", req.as_str()).as_str(),
                        "\";` in robo.nix and write `",
                        req.as_str(),
                        "` to .python-version",
                    );
                    out.hint(config, h.as_str());
                }
            },
            None => {},
        },
        None => {
            out.warn(config, "pyproject.toml is missing");
            out.hint(config, "run `robo init .` or create pyproject.toml for uv");
        },
    }
    proof {
        {
            assert(out.plain@ =~= start + python_file_lines(python@, opt_text(version_file), opt_text(pyproject)).0);
        }
    }
}

/// The uv lock and virtual environment checks.
pub open spec fn uv_file_lines(lock: bool, venv: bool) -> (Seq<Seq<char>>, nat) {
    let (a, wa) = if lock {
        (seq![doctor_text("ok:"@, "uv.lock is present"@)], 0nat)
    } else {
        (
            seq![doctor_text("warn:"@, "uv.lock is missing"@)] + doctor_hints(
                "run 'uv sync' after defining pyproject.toml dependencies"@,
            ),
            1nat,
        )
    };
    let (b, wb) = if venv {
        (seq![doctor_text("ok:"@, "uv virtual environment exists"@)], 0nat)
    } else {
        (
            seq![doctor_text("warn:"@, "uv virtual environment is missing"@)] + doctor_hints(
                "run 'uv sync' to create .venv"@,
            ),
            1nat,
        )
    };
    (a + b, wa + wb)
}

pub fn doctor_uv_files(out: &mut DoctorOutput, config: Config, lock_exists: bool, venv_exists: bool)
    requires
        room(*old(out), 2),
    ensures
        adds(*old(out), *final(out), config, uv_file_lines(lock_exists, venv_exists).0, 0, uv_file_lines(lock_exists, venv_exists).1),
{
    let ghost start = out.plain@;
    if lock_exists {
        out.ok(config, "uv.lock is present");
    } else {
        out.warn(config, "uv.lock is missing");
        out.hint(config, "run 'uv sync' after defining pyproject.toml dependencies");
    }
    if venv_exists {
        out.ok(config, "uv virtual environment exists");
    } else {
        out.warn(config, "uv virtual environment is missing");
        out.hint(config, "run 'uv sync' to create .venv");
    }
    proof {
        {
            assert(out.plain@ =~= start + uv_file_lines(lock_exists, venv_exists).0);
        }
    }
}

/// The Qt runtime components a Qt binding needs (`qt6` and `x11-gl`),
/// checked when `pyproject.toml` (lowercased) names a binding.
pub open spec fn qt_lines(components: Seq<Seq<char>>, pyproject_lower: Option<Seq<char>>) -> (Seq<Seq<char>>, nat) {
    match pyproject_lower {
        Some(t) => if names_dependency(t, seq!["pyqt6"@, "pyqt5"@, "pyside6"@]) {
            let (a, wa) = if components.contains("qt6"@) {
                (seq![doctor_text("ok:"@, "Qt binding dependency has qt6 runtime component"@)], 0nat)
            } else {
                (
                    seq![doctor_text("warn:"@, "Qt binding dependency detected but qt6 is not selected"@)]
                        + doctor_hints("rerun 'robo init . --with qt6,x11-gl' or add both components to robo.nix"@),
                    1nat,
                )
            };
            let (b, wb) = if components.contains("x11-gl"@) {
                (seq![doctor_text("ok:"@, "Qt binding dependency has x11-gl runtime component"@)], 0nat)
            } else {
                (
                    seq![doctor_text("warn:"@, "Qt binding dependency detected but x11-gl is not selected"@)]
                        + doctor_hints("add x11-gl to robo.nix for Linux desktop display/OpenGL libraries"@),
                    1nat,
                )
            };
            (a + b, wa + wb)
        } else {
            (Seq::empty(), 0)
        },
        None => (Seq::empty(), 0),
    }
}

fn names_of3(a: &str, b: &str, c: &str) -> (r: Vec<String>)
    ensures
        strs(r@) == seq![a@, b@, c@],
{
    let r = vec![a.to_string(), b.to_string(), c.to_string()];
    assert(strs(r@) =~= seq![a@, b@, c@]);
    r
}

pub fn doctor_inferred_components(out: &mut DoctorOutput, config: Config, components: &Vec<String>, pyproject_lower: Option<&str>)
    requires
        room(*old(out), 2),
    ensures
        adds(
            *old(out),
            *final(out),
            config,
            qt_lines(strs(components@), opt_text(pyproject_lower)).0,
            0,
            qt_lines(strs(components@), opt_text(pyproject_lower)).1,
        ),
{
    let ghost start = out.plain@;
    let text = match pyproject_lower {
        Some(t) => t,
        None => {
            return;
        },
    };
    if !has_dependency(text, &names_of3("pyqt6", "pyqt5", "pyside6")) {
        return;
    }
    if crate::why::contains_string(components, "qt6") {
        out.ok(config, "Qt binding dependency has qt6 runtime component");
    } else {
        out.warn(config, "Qt binding dependency detected but qt6 is not selected");
        out.hint(config, "rerun 'robo init . --with qt6,x11-gl' or add both components to robo.nix");
    }
    if crate::why::contains_string(components, "x11-gl") {
        out.ok(config, "Qt binding dependency has x11-gl runtime component");
    } else {
        out.warn(config, "Qt binding dependency detected but x11-gl is not selected");
        out.hint(config, "add x11-gl to robo.nix for Linux desktop display/OpenGL libraries");
    }
    proof {
        {
            assert(out.plain@ =~= start + qt_lines(strs(components@), opt_text(pyproject_lower)).0);
        }
    }
}

/// The lines for the paths `robo.nix` suggests: each one asked about, with
/// a hint on when to require it.
pub open spec fn suggestion_lines(paths: Seq<Seq<char>>) -> Seq<Seq<char>>
    decreases paths.len(),
{
    if paths.len() == 0 {
        Seq::empty()
    } else {
        let p = paths.last();
        suggestion_lines(paths.drop_last()) + seq![
            doctor_text("suggestion:"@, "check whether "@ + p + " should be required for this project"@),
        ] + doctor_hints(
            "add `"@ + p + "` to requiredFiles or requiredDirectories in robo.nix only if bootstrap really needs it"@,
        )
    }
}

pub fn doctor_suggestions(out: &mut DoctorOutput, config: Config, paths: &Vec<String>)
    ensures
        adds(*old(out), *final(out), config, suggestion_lines(strs(paths@)), 0, 0),
{
    let ghost start = out.plain@;
    let ghost pv = strs(paths@);
    let mut i: usize = 0;
    while i < paths.len()
        invariant
            i <= paths.len(),
            pv == strs(paths@),
            out.plain@ == start + suggestion_lines(pv.take(i as int)),
            fits(*old(out), config) ==> fits(*out, config),
            out.issues == old(out).issues,
            out.warnings == old(out).warnings,
        decreases paths.len() - i,
    {
        assert(pv.take(i + 1).drop_last() =~= pv.take(i as int));
        assert(pv.take(i + 1).last() == paths@[i as int]@);
        let p = paths[i].as_str();
        out.tagged(
            config,
            "suggestion:",
            LabelKind::Warn,
            concat3("check whether ", p, " should be required for this project").as_str(),
        );
        out.hint(
            config,
            concat3("add `", p, "` to requiredFiles or requiredDirectories in robo.nix only if bootstrap really needs it").as_str(),
        );
        assert(out.plain@ =~= start + suggestion_lines(pv.take(i + 1)));
        i = i + 1;
    }
    assert(pv.take(paths.len() as int) =~= pv);
}

/// What the host's `nvidia-smi` did.
pub enum DriverProbe {
    /// It ran and succeeded.
    Healthy,
    /// It ran and failed.
    Unhealthy,
    /// It could not be run.
    Missing,
}

/// The CUDA host checks of a runtime with the CUDA toolkit: a Linux host,
/// a healthy NVIDIA driver, and the CUDA root (the first of `CUDA_HOME`,
/// `CUDA_PATH`, `ROBO_NIX_CUDA_ROOT` set, else `/usr/local/cuda`).
pub open spec fn cuda_host_lines(toolkit: bool, linux: bool, driver: DriverProbe, cuda_root: Seq<char>, root_exists: bool) -> (Seq<Seq<char>>, nat) {
    if !toolkit {
        (Seq::empty(), 0)
    } else if !linux {
        (
            seq![doctor_text("error:"@, "CUDA environments require a Linux host"@)] + doctor_hints(
                "use a Linux NVIDIA machine for gpu-learning or isaac-learning environments"@,
            ),
            1,
        )
    } else {
        let (a, ia) = match driver {
            DriverProbe::Healthy => (seq![doctor_text("ok:"@, "NVIDIA driver stack is reachable through nvidia-smi"@)], 0nat),
            DriverProbe::Unhealthy => (
                seq![doctor_text("error:"@, "nvidia-smi is present but the NVIDIA driver stack is not healthy"@)]
                    + doctor_hints("repair the host NVIDIA driver installation before using CUDA environments"@),
                1nat,
            ),
            DriverProbe::Missing => (
                seq![doctor_text("error:"@, "nvidia-smi is not available on this host"@)] + doctor_hints(
                    "run this environment on a machine with NVIDIA drivers installed"@,
                ),
                1nat,
            ),
        };
        let (b, ib) = if root_exists {
            (seq![doctor_text("ok:"@, "CUDA root exists at "@ + cuda_root)], 0nat)
        } else {
            (
                seq![doctor_text("error:"@, "CUDA root not found at "@ + cuda_root)] + doctor_hints(
                    "set CUDA_HOME, CUDA_PATH, or ROBO_NIX_CUDA_ROOT if CUDA is installed in a non-default location"@,
                ),
                1nat,
            )
        };
        (seq![doctor_text("ok:"@, "Linux host detected for CUDA environment"@)] + a + b, ia + ib)
    }
}

pub fn doctor_cuda_host(
    out: &mut DoctorOutput,
    config: Config,
    components: &Vec<String>,
    linux: bool,
    driver: DriverProbe,
    cuda_root: &str,
    root_exists: bool,
)
    requires
        room(*old(out), 2),
    ensures
        adds(
            *old(out),
            *final(out),
            config,
            cuda_host_lines(strs(components@).contains("cuda-toolkit"@), linux, driver, cuda_root@, root_exists).0,
            cuda_host_lines(strs(components@).contains("cuda-toolkit"@), linux, driver, cuda_root@, root_exists).1,
            0,
        ),
{
    let ghost start = out.plain@;
    if !crate::why::contains_string(components, "cuda-toolkit") {
        return;
    }
    if !linux {
        out.error(config, "CUDA environments require a Linux host");
        out.hint(config, "use a Linux NVIDIA machine for gpu-learning or isaac-learning environments");
        proof {
            {
                assert(out.plain@ =~= start + cuda_host_lines(true, linux, driver, cuda_root@, root_exists).0);
            }
        }
        return;
    }
    out.ok(config, "Linux host detected for CUDA environment");
    match driver {
        DriverProbe::Healthy => out.ok(config, "NVIDIA driver stack is reachable through nvidia-smi"),
        DriverProbe::Unhealthy => {
            out.error(config, "nvidia-smi is present but the NVIDIA driver stack is not healthy");
            out.hint(config, "repair the host NVIDIA driver installation before using CUDA environments");
        },
        DriverProbe::Missing => {
            out.error(config, "nvidia-smi is not available on this host");
            out.hint(config, "run this environment on a machine with NVIDIA drivers installed");
        },
    }
    if root_exists {
        out.ok(config, concat("CUDA root exists at ", cuda_root).as_str());
    } else {
        out.error(config, concat("CUDA root not found at ", cuda_root).as_str());
        out.hint(config, "set CUDA_HOME, CUDA_PATH, or ROBO_NIX_CUDA_ROOT if CUDA is installed in a non-default location");
    }
    proof {
        {
            assert(out.plain@ =~= start + cuda_host_lines(true, linux, driver, cuda_root@, root_exists).0);
        }
    }
}

/// The CUDA root `robo doctor` looks at: the first of the variables set,
/// else `/usr/local/cuda`.
pub fn doctor_cuda_root(cuda_home: Option<String>, cuda_path: Option<String>, robo_root: Option<String>) -> (r: String)
    ensures
        r@ == match cuda_home {
            Some(v) => v@,
            None => match cuda_path {
                Some(v) => v@,
                None => match robo_root {
                    Some(v) => v@,
                    None => "/usr/local/cuda"@,
                },
            },
        },
{
    match cuda_home {
        Some(v) => v,
        None => match cuda_path {
            Some(v) => v,
            None => match robo_root {
                Some(v) => v,
                None => "/usr/local/cuda".to_string(),
            },
        },
    }
}

/// The lines of a dry run's summary, each as a preview.
pub open spec fn preview_items(items: Seq<Seq<char>>) -> Seq<Seq<char>> {
    items.map_values(|l: Seq<char>| doctor_text("preview:"@, l))
}

/// What the download preview reports: the dry run's summary (or that
/// nothing is to be fetched), with its full text as a hint when debugging;
/// a warning when the dry run failed or could not start.
pub open spec fn preview_lines(outcome: crate::check::deep::ProbeOutcome, text: Seq<char>, debug: bool) -> (Seq<Seq<char>>, nat) {
    match outcome {
        crate::check::deep::ProbeOutcome::Passed => {
            let items = crate::host_bridge::collect_entries(
                lines(text).map_values(|l: Seq<char>| trim(l, Sep::Whitespace)),
                |l: Seq<char>| dry_run_line(l),
            );
            (
                (if items.len() == 0 {
                    seq![doctor_text("preview:"@, "runtime is already available or Nix reported no downloads"@)]
                } else {
                    preview_items(items)
                }) + (if debug {
                    doctor_hints(text)
                } else {
                    Seq::empty()
                }),
                0,
            )
        },
        crate::check::deep::ProbeOutcome::Failed(output) => (
            seq![doctor_text("warn:"@, "could not preview runtime downloads"@)] + doctor_hints(output@),
            1,
        ),
        crate::check::deep::ProbeOutcome::NotStarted(err) => (
            seq![doctor_text("warn:"@, "failed to start Nix preview: "@ + err@)],
            1,
        ),
    }
}

/// Reports the download preview; `text` is the dry run's output when it
/// succeeded.
pub fn doctor_runtime_preview(out: &mut DoctorOutput, config: Config, outcome: crate::check::deep::ProbeOutcome, text: &str)
    requires
        room(*old(out), 1),
    ensures
        adds(
            *old(out),
            *final(out),
            config,
            preview_lines(outcome, text@, config.debug).0,
            0,
            preview_lines(outcome, text@, config.debug).1,
        ),
{
    let ghost start = out.plain@;
    match outcome {
        crate::check::deep::ProbeOutcome::Passed => {
            let summary = summarize_nix_dry_run(text);
            if summary.len() == 0 {
                out.tagged(config, "preview:", LabelKind::Status, "runtime is already available or Nix reported no downloads");
            } else {
                let ghost sv = strs(summary@);
                let ghost mid = out.plain@;
                let mut i: usize = 0;
                while i < summary.len()
                    invariant
                        i <= summary.len(),
                        sv == strs(summary@),
                        out.plain@ == mid + preview_items(sv.take(i as int)),
            fits(*old(out), config) ==> fits(*out, config),
                        out.issues == old(out).issues,
                        out.warnings == old(out).warnings,
                    decreases summary.len() - i,
                {
                    out.tagged(config, "preview:", LabelKind::Status, summary[i].as_str());
                    assert(preview_items(sv.take(i + 1)) =~= preview_items(sv.take(i as int)).push(
                        doctor_text("preview:"@, sv[i as int]),
                    ));
                    assert(out.plain@ =~= mid + preview_items(sv.take(i + 1)));
                    i = i + 1;
                }
                assert(sv.take(summary.len() as int) =~= sv);
            }
            if config.debug {
                out.hint(config, text);
            }
        },
        crate::check::deep::ProbeOutcome::Failed(output) => {
            out.warn(config, "could not preview runtime downloads");
            out.hint(config, output.as_str());
        },
        crate::check::deep::ProbeOutcome::NotStarted(err) => {
            out.warn(config, concat("failed to start Nix preview: ", err.as_str()).as_str());
        },
    }
    proof {
        {
            assert(out.plain@ =~= start + preview_lines(outcome, text@, config.debug).0);
        }
    }
}

/// Whether `uv` runs in the runtime shell.
pub open spec fn tool_lines(outcome: crate::check::deep::ProbeOutcome) -> Seq<Seq<char>> {
    match outcome {
        crate::check::deep::ProbeOutcome::Passed => seq![doctor_text("ok:"@, "uv is available"@)],
        crate::check::deep::ProbeOutcome::Failed(output) => seq![
            doctor_text("error:"@, "uv is not available in the runtime shell"@),
        ] + doctor_hints(output@),
        crate::check::deep::ProbeOutcome::NotStarted(err) => seq![
            doctor_text("error:"@, "failed to probe uv in runtime shell: "@ + err@),
        ],
    }
}

pub fn doctor_runtime_tools(out: &mut DoctorOutput, config: Config, outcome: crate::check::deep::ProbeOutcome)
    requires
        room(*old(out), 1),
    ensures
        adds(
            *old(out),
            *final(out),
            config,
            tool_lines(outcome),
            if outcome is Passed {
                0nat
            } else {
                1nat
            },
            0,
        ),
{
    let ghost start = out.plain@;
    match outcome {
        crate::check::deep::ProbeOutcome::Passed => out.ok(config, "uv is available"),
        crate::check::deep::ProbeOutcome::Failed(output) => {
            out.error(config, "uv is not available in the runtime shell");
            out.hint(config, output.as_str());
        },
        crate::check::deep::ProbeOutcome::NotStarted(err) => {
            out.error(config, concat("failed to probe uv in runtime shell: ", err.as_str()).as_str());
        },
    }
    proof {
        {
            assert(out.plain@ =~= start + tool_lines(outcome));
        }
    }
}

/// Which GUI probes `robo doctor --deep` runs: the Qt import probe for a
/// project naming a Qt binding, the matplotlib probe for one naming
/// matplotlib; neither without a `pyproject.toml`.
pub open spec fn gui_probes_wanted(pyproject_lower: Option<Seq<char>>) -> (bool, bool) {
    match pyproject_lower {
        Some(t) => (
            names_dependency(t, seq!["pyqt6"@, "pyqt5"@, "pyside6"@]),
            names_dependency(t, seq!["matplotlib"@]),
        ),
        None => (false, false),
    }
}

pub fn gui_probes(pyproject_lower: Option<&str>) -> (r: (bool, bool))
    ensures
        r == gui_probes_wanted(opt_text(pyproject_lower)),
{
    match pyproject_lower {
        Some(t) => {
            let mpl = vec!["matplotlib".to_string()];
            assert(strs(mpl@) =~= seq!["matplotlib"@]);
            (has_dependency(t, &names_of3("pyqt6", "pyqt5", "pyside6")), has_dependency(t, &mpl))
        },
        None => (false, false),
    }
}

/// What one GUI probe reports: skipped without a virtualenv, else its
/// outcome.
pub open spec fn gui_probe_lines(
    venv: bool,
    outcome: Option<crate::check::deep::ProbeOutcome>,
    skipped: Seq<char>,
    skipped_hint: Seq<char>,
    ok: Seq<char>,
    failed: Seq<char>,
    failed_hint: Seq<char>,
    not_started: Seq<char>,
) -> (Seq<Seq<char>>, nat) {
    if !venv {
        (seq![doctor_text("warn:"@, skipped)] + doctor_hints(skipped_hint), 1)
    } else {
        match outcome {
            Some(crate::check::deep::ProbeOutcome::Passed) => (seq![doctor_text("ok:"@, ok)], 0),
            Some(crate::check::deep::ProbeOutcome::Failed(output)) => (
                seq![doctor_text("warn:"@, failed)] + doctor_hints(output@) + doctor_hints(failed_hint),
                1,
            ),
            Some(crate::check::deep::ProbeOutcome::NotStarted(err)) => (seq![doctor_text("warn:"@, not_started + err@)], 1),
            None => (Seq::empty(), 0),
        }
    }
}

fn gui_probe(
    out: &mut DoctorOutput,
    config: Config,
    venv: bool,
    outcome: Option<crate::check::deep::ProbeOutcome>,
    texts: (&str, &str, &str, &str, &str, &str),
)
    requires
        old(out).warnings < usize::MAX,
    ensures
        adds(
            *old(out),
            *final(out),
            config,
            gui_probe_lines(venv, outcome, texts.0@, texts.1@, texts.2@, texts.3@, texts.4@, texts.5@).0,
            0,
            gui_probe_lines(venv, outcome, texts.0@, texts.1@, texts.2@, texts.3@, texts.4@, texts.5@).1,
        ),
{
    let ghost start = out.plain@;
    if !venv {
        out.warn(config, texts.0);
        out.hint(config, texts.1);
    } else {
        match outcome {
            Some(crate::check::deep::ProbeOutcome::Passed) => out.ok(config, texts.2),
            Some(crate::check::deep::ProbeOutcome::Failed(output)) => {
                out.warn(config, texts.3);
                out.hint(config, output.as_str());
                out.hint(config, texts.4);
            },
            Some(crate::check::deep::ProbeOutcome::NotStarted(err)) => {
                out.warn(config, concat(texts.5, err.as_str()).as_str());
            },
            None => {},
        }
    }
    proof {
        {
            assert(out.plain@ =~= start + gui_probe_lines(venv, outcome, texts.0@, texts.1@, texts.2@, texts.3@, texts.4@, texts.5@).0);
        }
    }
}

/// The GUI probes' report: the Qt probe's, then matplotlib's, each only when
/// wanted (see `gui_probes_wanted`); `qt` and `mpl` are the outcomes of the
/// probes that ran.
pub open spec fn gui_lines(
    pyproject_lower: Option<Seq<char>>,
    venv: bool,
    qt: Option<crate::check::deep::ProbeOutcome>,
    mpl: Option<crate::check::deep::ProbeOutcome>,
) -> (Seq<Seq<char>>, nat) {
    let (want_qt, want_mpl) = gui_probes_wanted(pyproject_lower);
    let (a, wa) = if want_qt {
        gui_probe_lines(
            venv,
            qt,
            "Python virtualenv is missing; skipped Qt binding import probe"@,
            "run 'robo sync' to create .venv before GUI runtime probing"@,
            "PyQt6 QtCore/QtGui/QtWidgets import works"@,
            "PyQt6 GUI import failed"@,
            "run 'robo sync' after changing Python dependencies or add missing native runtime components"@,
            "failed to run PyQt6 GUI probe: "@,
        )
    } else {
        (Seq::empty(), 0nat)
    };
    let (b, wb) = if want_mpl {
        gui_probe_lines(
            venv,
            mpl,
            "Python virtualenv is missing; skipped matplotlib backend probe"@,
            "run 'robo sync' to create .venv before matplotlib runtime probing"@,
            "matplotlib QtAgg smoke test works"@,
            "matplotlib QtAgg smoke test failed"@,
            "install a Qt binding such as pyqt6 and include qt6,x11-gl when using plt.show()"@,
            "failed to run matplotlib QtAgg probe: "@,
        )
    } else {
        (Seq::empty(), 0nat)
    };
    (a + b, wa + wb)
}

pub fn doctor_runtime_probes(
    out: &mut DoctorOutput,
    config: Config,
    pyproject_lower: Option<&str>,
    venv_python_exists: bool,
    qt: Option<crate::check::deep::ProbeOutcome>,
    mpl: Option<crate::check::deep::ProbeOutcome>,
)
    requires
        room(*old(out), 2),
    ensures
        adds(
            *old(out),
            *final(out),
            config,
            gui_lines(opt_text(pyproject_lower), venv_python_exists, qt, mpl).0,
            0,
            gui_lines(opt_text(pyproject_lower), venv_python_exists, qt, mpl).1,
        ),
{
    let ghost start = out.plain@;
    let (want_qt, want_mpl) = gui_probes(pyproject_lower);
    if want_qt {
        gui_probe(
            out,
            config,
            venv_python_exists,
            qt,
            (
                "Python virtualenv is missing; skipped Qt binding import probe",
                "run 'robo sync' to create .venv before GUI runtime probing",
                "PyQt6 QtCore/QtGui/QtWidgets import works",
                "PyQt6 GUI import failed",
                "run 'robo sync' after changing Python dependencies or add missing native runtime components",
                "failed to run PyQt6 GUI probe: ",
            ),
        );
    }
    let ghost mid = out.plain@;
    if want_mpl {
        gui_probe(
            out,
            config,
            venv_python_exists,
            mpl,
            (
                "Python virtualenv is missing; skipped matplotlib backend probe",
                "run 'robo sync' to create .venv before matplotlib runtime probing",
                "matplotlib QtAgg smoke test works",
                "matplotlib QtAgg smoke test failed",
                "install a Qt binding such as pyqt6 and include qt6,x11-gl when using plt.show()",
                "failed to run matplotlib QtAgg probe: ",
            ),
        );
    }
    proof {
        {
            assert(out.plain@ =~= start + gui_lines(opt_text(pyproject_lower), venv_python_exists, qt, mpl).0);
        }
    }
}

/// The local robo-nix checkout a flake takes robo-nix from: the path of a
/// `path:` source on its `inputs.robo-nix.url` line.
pub open spec fn flake_path_source(flake: Seq<char>) -> Option<Seq<char>> {
    match url_source(lines(flake)) {
        Some(u) => crate::text::strip_prefix(u, "path:"@),
        None => None,
    }
}

/// The first `inputs.robo-nix.url` line's quoted value.
pub open spec fn url_source(ls: Seq<Seq<char>>) -> Option<Seq<char>>
    decreases ls.len(),
{
    if ls.len() == 0 {
        None
    } else {
        match crate::text::strip_prefix(trim(ls[0], Sep::Whitespace), "inputs.robo-nix.url"@) {
            Some(rest) => match crate::python::quoted(rest) {
                Some(v) => Some(v),
                None => url_source(ls.skip(1)),
            },
            None => url_source(ls.skip(1)),
        }
    }
}

pub fn robo_nix_path_source(flake: &str) -> (r: Option<String>)
    ensures
        opt_str(r) == flake_path_source(flake@),
{
    let ls = crate::text::lines_str(flake);
    let ghost lv = crate::text::views(ls@);
    let mut i: usize = 0;
    assert(lv.skip(0) =~= lv);
    while i < ls.len()
        invariant
            i <= ls.len(),
            lv == crate::text::views(ls@),
            lv == lines(flake@),
            url_source(lv) == url_source(lv.skip(i as int)),
        decreases ls.len() - i,
    {
        assert(lv.skip(i as int)[0] == ls@[i as int]@);
        assert(lv.skip(i as int).skip(1) =~= lv.skip(i + 1));
        let line = crate::text::trim_ws(&ls[i]);
        match crate::text::strip_prefix_str(&line, "inputs.robo-nix.url") {
            Some(rest) => match crate::python::quoted_value(string_of(&rest).as_str()) {
                Some(v) => {
                    return match crate::text::strip_prefix_str(&crate::text::chars_of(v.as_str()), "path:") {
                        Some(p) => Some(string_of(&p)),
                        None => None,
                    };
                },
                None => {},
            },
            None => {},
        }
        i = i + 1;
    }
    None
}

/// The warning for a local robo-nix checkout with uncommitted changes.
pub open spec fn lock_lines(dirty: bool) -> Seq<Seq<char>> {
    if dirty {
        seq![
            doctor_text(
                "warn:"@,
                "robo-nix path input has local changes; flake.lock may point at an older source snapshot"@,
            ),
        ] + doctor_hints("run 'nix flake lock --update-input robo-nix' after local robo-nix edits"@)
    } else {
        Seq::empty()
    }
}

pub fn doctor_lock_freshness(out: &mut DoctorOutput, config: Config, dirty: bool)
    requires
        room(*old(out), 1),
    ensures
        adds(*old(out), *final(out), config, lock_lines(dirty), 0, if dirty {
            1nat
        } else {
            0nat
        }),
{
    let ghost start = out.plain@;
    if dirty {
        out.warn(config, "robo-nix path input has local changes; flake.lock may point at an older source snapshot");
        out.hint(config, "run 'nix flake lock --update-input robo-nix' after local robo-nix edits");
    }
    proof {
        {
            assert(out.plain@ =~= start + lock_lines(dirty));
        }
    }
}

/// The note that deep checks were skipped.
pub open spec fn skipped_deep_lines() -> Seq<Seq<char>> {
    seq![doctor_text("warn:"@, "deep runtime checks skipped"@)] + doctor_hints(
        "run 'robo doctor --deep' to probe uv, PyQt, matplotlib, and native runtime libraries"@,
    )
}

pub fn doctor_deep_skipped(out: &mut DoctorOutput, config: Config)
    requires
        room(*old(out), 1),
    ensures
        adds(*old(out), *final(out), config, skipped_deep_lines(), 0, 1),
{
    let ghost start = out.plain@;
    out.warn(config, "deep runtime checks skipped");
    out.hint(config, "run 'robo doctor --deep' to probe uv, PyQt, matplotlib, and native runtime libraries");
    proof {
        {
            assert(out.plain@ =~= start + skipped_deep_lines());
        }
    }
}

/// How `robo doctor` ends: with no issues, the next steps and `ok
/// warnings=N`, which succeeds; else what to do and `error issues=N
/// warnings=M`, which fails.
pub open spec fn closing_lines(issues: nat, warnings: nat, deep: bool) -> (Seq<Seq<char>>, bool) {
    if issues == 0 {
        (
            seq![
                doctor_text(
                    "next:"@,
                    if deep {
                        "run 'robo dry-run' if you want a bootstrap-only validation pass"@
                    } else {
                        "run 'robo doctor --deep' before debugging native runtime failures"@
                    },
                ),
                doctor_text("next:"@, "run 'robo develop' to enter the environment"@),
                "doctor: "@ + "status="@ + ("ok warnings="@ + crate::text::decimal(warnings)),
            ],
            true,
        )
    } else {
        (
            seq![
                doctor_text("next:"@, "fix the issues above and rerun 'robo doctor'"@),
                "doctor: "@ + "status="@ + ("error issues="@ + crate::text::decimal(issues) + " warnings="@
                    + crate::text::decimal(warnings)),
            ],
            false,
        )
    }
}

pub fn doctor_close(out: &mut DoctorOutput, config: Config, deep: bool) -> (ok: bool)
    ensures
        adds(*old(out), *final(out), config, closing_lines(old(out).issues as nat, old(out).warnings as nat, deep).0, 0, 0),
        ok == closing_lines(old(out).issues as nat, old(out).warnings as nat, deep).1,
{
    let ghost start = out.plain@;
    let warnings = crate::text::decimal_string(out.warnings as u64);
    if out.issues == 0 {
        if deep {
            out.push(config, doctor_next(config, "run 'robo dry-run' if you want a bootstrap-only validation pass"), Ghost(doctor_text("next:"@, "run 'robo dry-run' if you want a bootstrap-only validation pass"@)));
        } else {
            out.push(config, doctor_next(config, "run 'robo doctor --deep' before debugging native runtime failures"), Ghost(doctor_text("next:"@, "run 'robo doctor --deep' before debugging native runtime failures"@)));
        }
        out.push(config, doctor_next(config, "run 'robo develop' to enter the environment"), Ghost(doctor_text("next:"@, "run 'robo develop' to enter the environment"@)));
        let m = concat("ok warnings=", warnings.as_str());
        out.push(config, doctor_status(config, m.as_str(), LabelKind::Pass), Ghost("doctor: "@ + "status="@ + m@));
        proof {
            {
                assert(out.plain@ =~= start + closing_lines(old(out).issues as nat, old(out).warnings as nat, deep).0);
            }
        }
        true
    } else {
        out.push(config, doctor_next(config, "fix the issues above and rerun 'robo doctor'"), Ghost(doctor_text("next:"@, "fix the issues above and rerun 'robo doctor'"@)));
        let issues = crate::text::decimal_string(out.issues as u64);
        let m = concat4("error issues=", issues.as_str(), " warnings=", warnings.as_str());
        out.push(config, doctor_status(config, m.as_str(), LabelKind::Error), Ghost("doctor: "@ + "status="@ + m@));
        proof {
            {
                assert(out.plain@ =~= start + closing_lines(old(out).issues as nat, old(out).warnings as nat, deep).0);
            }
        }
        false
    }
}

/// One explained entry: its kind, name, source and reason, then its two
/// hints.
pub open spec fn why_entry_lines(kind: Seq<char>, e: Why) -> Seq<Seq<char>> {
    seq![doctor_text("why:"@, kind + "="@ + e.0 + " source="@ + e.1 + " reason="@ + e.2)] + doctor_hints(e.3)
        + doctor_hints(e.4)
}

pub open spec fn why_group_lines(kind: Seq<char>, es: Seq<Why>) -> Seq<Seq<char>>
    decreases es.len(),
{
    if es.len() == 0 {
        Seq::empty()
    } else {
        why_group_lines(kind, es.drop_last()) + why_entry_lines(kind, es.last())
    }
}

/// What `robo doctor --why` prints: the profile (or `manual/unknown`),
/// then each component, required directory, required file, bootstrap
/// script and suggestion explained.
pub open spec fn runtime_why_lines(w: crate::why::WhyReport) -> Seq<Seq<char>> {
    seq![
        doctor_text(
            "why:"@,
            "profile="@ + match w.profile {
                Some(p) => p,
                None => "manual/unknown"@,
            },
        ),
    ] + why_group_lines("component"@, w.components) + why_group_lines("required-directory"@, w.required_directories)
        + why_group_lines("required-file"@, w.required_files) + why_group_lines(
        "bootstrap-script"@,
        w.bootstrap_scripts,
    ) + why_group_lines("suggestion"@, w.suggestions)
}

fn print_why_group(out: &mut DoctorOutput, config: Config, kind: &str, entries: &Vec<WhyEntry>)
    ensures
        adds(*old(out), *final(out), config, why_group_lines(kind@, why_view(entries@)), 0, 0),
{
    let ghost start = out.plain@;
    let ghost ev = why_view(entries@);
    let mut i: usize = 0;
    while i < entries.len()
        invariant
            i <= entries.len(),
            ev == why_view(entries@),
            out.plain@ == start + why_group_lines(kind@, ev.take(i as int)),
            fits(*old(out), config) ==> fits(*out, config),
            out.issues == old(out).issues,
            out.warnings == old(out).warnings,
        decreases entries.len() - i,
    {
        assert(ev.take(i + 1).drop_last() =~= ev.take(i as int));
        assert(ev.take(i + 1).last() == entries@[i as int]@);
        let e = &entries[i];
        let ghost before = out.plain@;
        let message = concat4(
            concat3(kind, "=", e.name.as_str()).as_str(),
            " source=",
            e.source.as_str(),
            concat(" reason=", e.reason.as_str()).as_str(),
        );
        assert(message@ =~= kind@ + "="@ + e.name@ + " source="@ + e.source@ + " reason="@ + e.reason@);
        out.push(config, doctor_why(config, message.as_str()), Ghost(doctor_text("why:"@, message@)));
        let ghost after_why = out.plain@;
        out.hint(config, e.remove_hint.as_str());
        out.hint(config, e.remediation_hint.as_str());
        proof {
            {
                assert(out.plain@ =~= before + why_entry_lines(kind@, e@));
                assert(out.plain@ =~= start + why_group_lines(kind@, ev.take(i + 1)));
            }
        }
        i = i + 1;
    }
    assert(ev.take(entries.len() as int) =~= ev);
}

pub fn print_runtime_why(out: &mut DoctorOutput, config: Config, why: &crate::why::RuntimeWhy)
    ensures
        adds(*old(out), *final(out), config, runtime_why_lines(why@), 0, 0),
{
    let ghost start = out.plain@;
    let profile = match &why.profile {
        Some(p) => p.as_str(),
        None => "manual/unknown",
    };
    let pm = concat("profile=", profile);
    out.push(config, doctor_why(config, pm.as_str()), Ghost(doctor_text("why:"@, pm@)));
    print_why_group(out, config, "component", &why.components);
    print_why_group(out, config, "required-directory", &why.required_directories);
    print_why_group(out, config, "required-file", &why.required_files);
    print_why_group(out, config, "bootstrap-script", &why.bootstrap_scripts);
    print_why_group(out, config, "suggestion", &why.suggestions);
    proof {
        {
            assert(out.plain@ =~= start + runtime_why_lines(why@));
        }
    }
}

} // verus!
