//! Why a runtime holds what it holds: the provenance `robo check --why`
//! explains, built from what `robo.nix` records, the component manifest and
//! the project's dependencies.
//!
//! Both manifests are read by the caller (one through `nix eval`, one from
//! the file the environment names) and handed over as plain values.
use vstd::prelude::*;
use crate::pyproject::{dependency_names, dependency_set, has_any};
use crate::runtime::{ProjectRuntime, RuntimeSuggestion};
use crate::text::{clone_strings, concat, concat3, is_prefix, opt_str, str_eq, strs};

verus! {

/// One explained entry: what it is, where it came from, why, how to remove
/// it, and how to satisfy it.
pub struct WhyEntry {
    pub name: String,
    pub source: String,
    pub reason: String,
    pub remove_hint: String,
    pub remediation_hint: String,
}

pub type Why = (Seq<char>, Seq<char>, Seq<char>, Seq<char>, Seq<char>);

impl View for WhyEntry {
    type V = Why;

    open spec fn view(&self) -> Why {
        (self.name@, self.source@, self.reason@, self.remove_hint@, self.remediation_hint@)
    }
}

pub open spec fn why_view(v: Seq<WhyEntry>) -> Seq<Why> {
    v.map_values(|e: WhyEntry| e@)
}

/// The explanations `robo check --why` prints, group by group.
pub struct RuntimeWhy {
    pub env_name: String,
    pub python_version: String,
    pub profile: Option<String>,
    pub requirements: Vec<WhyEntry>,
    pub components: Vec<WhyEntry>,
    pub required_directories: Vec<WhyEntry>,
    pub required_files: Vec<WhyEntry>,
    pub bootstrap_scripts: Vec<WhyEntry>,
    pub suggestions: Vec<WhyEntry>,
}

/// A dependency rule of the component manifest.
pub struct ManifestRule {
    pub dependencies: Vec<String>,
    pub requires: Vec<String>,
    pub components: Vec<String>,
    pub note: String,
}

/// The component manifest as the provenance needs it: each component with
/// the requirements it provides, each profile with its components (both in
/// key order), and the dependency rules.
pub struct RuntimeManifest {
    pub components: Vec<(String, Vec<String>)>,
    pub profiles: Vec<(String, Vec<String>)>,
    pub dependency_rules: Vec<ManifestRule>,
}

/// A requirement `robo.nix` records, with the defaults of absent fields
/// filled in.
pub struct ManifestRequirement {
    pub id: String,
    pub source: String,
    pub reason: String,
    pub evidence: Option<String>,
    pub severity: String,
}

/// Why `robo.nix` says a component was chosen.
pub struct ComponentReason {
    pub name: String,
    pub source: String,
    pub reason: String,
}

pub struct ManifestProvenance {
    pub profile: Option<String>,
    pub inferred: Vec<String>,
    pub component_reasons: Vec<ComponentReason>,
    pub source_scripts: Vec<String>,
    pub suggestions: Vec<RuntimeSuggestion>,
}

/// What `robo.nix` records, as `nix eval` reports it.
pub struct ProjectManifest {
    pub schema_version: Option<String>,
    pub env_name: Option<String>,
    pub profile: Option<String>,
    pub python_version: Option<String>,
    pub cuda_wheel_version: Option<String>,
    pub components: Vec<String>,
    pub requirements: Vec<ManifestRequirement>,
    pub required_directories: Vec<String>,
    pub required_files: Vec<String>,
    pub provenance: ManifestProvenance,
}

fn clone_suggestions(v: &Vec<RuntimeSuggestion>) -> (r: Vec<RuntimeSuggestion>)
    ensures
        r@.len() == v@.len(),
        forall|i: int| 0 <= i < v@.len() ==> r@[i].kind@ == v@[i].kind@ && r@[i].path@ == v@[i].path@
            && r@[i].reason@ == v@[i].reason@,
{
    let mut out: Vec<RuntimeSuggestion> = Vec::new();
    let mut i: usize = 0;
    while i < v.len()
        invariant
            i <= v.len(),
            out@.len() == i,
            forall|k: int| 0 <= k < i ==> out@[k].kind@ == v@[k].kind@ && out@[k].path@ == v@[k].path@
                && out@[k].reason@ == v@[k].reason@,
        decreases v.len() - i,
    {
        out.push(RuntimeSuggestion { kind: v[i].kind.clone(), path: v[i].path.clone(), reason: v[i].reason.clone() });
        i = i + 1;
    }
    out
}

/// The runtime `robo.nix` declares: its name defaults to `project` and its
/// Python to `unknown`.
pub fn project_runtime(manifest: &ProjectManifest) -> (r: ProjectRuntime)
    ensures
        opt_str(r.schema_version) == opt_str(manifest.schema_version),
        r.env_name@ == (match manifest.env_name {
            Some(n) => n@,
            None => "project"@,
        }),
        r.python_version@ == (match manifest.python_version {
            Some(v) => v@,
            None => "unknown"@,
        }),
        opt_str(r.cuda_wheel_version) == opt_str(manifest.cuda_wheel_version),
        strs(r.components@) == strs(manifest.components@),
        r.suggestions@.len() == manifest.provenance.suggestions@.len(),
        forall|i: int| 0 <= i < r.suggestions@.len() ==> r.suggestions@[i].kind@ == manifest.provenance.suggestions@[i].kind@
            && r.suggestions@[i].path@ == manifest.provenance.suggestions@[i].path@
            && r.suggestions@[i].reason@ == manifest.provenance.suggestions@[i].reason@,
{
    ProjectRuntime {
        schema_version: manifest.schema_version.clone(),
        env_name: match &manifest.env_name {
            Some(n) => n.clone(),
            None => "project".to_string(),
        },
        python_version: match &manifest.python_version {
            Some(v) => v.clone(),
            None => "unknown".to_string(),
        },
        cuda_wheel_version: manifest.cuda_wheel_version.clone(),
        components: clone_strings(&manifest.components),
        suggestions: clone_suggestions(&manifest.provenance.suggestions),
    }
}

pub(crate) fn entry(name: String, source: String, reason: String, remove_hint: String, remediation_hint: String) -> (r: WhyEntry)
    ensures
        r@ == (name@, source@, reason@, remove_hint@, remediation_hint@),
{
    WhyEntry { name, source, reason, remove_hint, remediation_hint }
}

/// What to do about a requirement: host-owned ones (`host.`) are fixed on
/// the host; others need a component that provides them.
pub open spec fn requirement_remediation(id: Seq<char>) -> Seq<char> {
    if is_prefix("host."@, id) {
        "fix host/container visibility for `"@ + id + "`; Nix components cannot provide host-owned capabilities"@
    } else {
        "keep a component that provides `"@ + id + "` or rerun `robo init . --force` after dependency changes"@
    }
}

fn requirement_remediation_text(id: &str) -> (r: String)
    ensures
        r@ == requirement_remediation(id@),
{
    if crate::text::starts_with_str(&crate::text::chars_of(id), "host.") {
        concat3("fix host/container visibility for `", id, "`; Nix components cannot provide host-owned capabilities")
    } else {
        concat3("keep a component that provides `", id, "` or rerun `robo init . --force` after dependency changes")
    }
}

/// A recorded requirement explained: its reason with the evidence and any
/// severity other than `required` added.
pub open spec fn requirement_why(id: Seq<char>, source: Seq<char>, reason: Seq<char>, evidence: Option<Seq<char>>, severity: Seq<char>) -> Why {
    let r1 = match evidence {
        Some(e) => reason + "; evidence: "@ + e,
        None => reason,
    };
    let r2 = if severity != "required"@ {
        r1 + "; severity: "@ + severity
    } else {
        r1
    };
    (
        id,
        source,
        r2,
        "remove requirement `"@ + id + "` from requirements in robo.nix if the inference is wrong"@,
        requirement_remediation(id),
    )
}

pub fn explain_requirement(requirement: &ManifestRequirement) -> (r: WhyEntry)
    ensures
        r@ == requirement_why(
            requirement.id@,
            requirement.source@,
            requirement.reason@,
            opt_str(requirement.evidence),
            requirement.severity@,
        ),
{
    let mut reason = requirement.reason.clone();
    match &requirement.evidence {
        Some(e) => {
            reason = concat3(reason.as_str(), "; evidence: ", e.as_str());
        },
        None => {},
    }
    if !str_eq(requirement.severity.as_str(), "required") {
        reason = concat3(reason.as_str(), "; severity: ", requirement.severity.as_str());
    }
    entry(
        requirement.id.clone(),
        requirement.source.clone(),
        reason,
        concat3("remove requirement `", requirement.id.as_str(), "` from requirements in robo.nix if the inference is wrong"),
        requirement_remediation_text(requirement.id.as_str()),
    )
}

/// A requirement the project's dependencies imply, explained.
pub open spec fn expected_requirement_why(name: Seq<char>, source: Seq<char>, reason: Seq<char>) -> Why {
    (
        name,
        source,
        reason,
        "remove the dependency that inferred `"@ + name + "` or edit `components` in robo.nix if the provider is unnecessary"@,
        requirement_remediation(name),
    )
}

pub fn explain_expected_requirement(name: &str, source: &str, reason: &str) -> (r: WhyEntry)
    ensures
        r@ == expected_requirement_why(name@, source@, reason@),
{
    entry(
        name.to_string(),
        source.to_string(),
        reason.to_string(),
        concat3("remove the dependency that inferred `", name, "` or edit `components` in robo.nix if the provider is unnecessary"),
        requirement_remediation_text(name),
    )
}

/// A required path explained; `kind` is `file` or `directory`.
pub open spec fn required_path_why(kind: Seq<char>, path: Seq<char>) -> Why {
    (
        path,
        "manual config"@,
        "listed in "@ + (if kind == "file"@ {
            "requiredFiles"@
        } else {
            "requiredDirectories"@
        }) + " in robo.nix"@,
        "remove `"@ + path + "` from required"@ + (if kind == "file"@ {
            "Files"@
        } else {
            "Directories"@
        }) + " in robo.nix"@,
        "create `"@ + path + "` or remove it if the project does not require this "@ + kind,
    )
}

pub fn explain_required_path(kind: &str, path: &str) -> (r: WhyEntry)
    ensures
        r@ == required_path_why(kind@, path@),
{
    let file = str_eq(kind, "file");
    let config_name = if file {
        "requiredFiles"
    } else {
        "requiredDirectories"
    };
    let plural = if file {
        "Files"
    } else {
        "Directories"
    };
    entry(
        path.to_string(),
        "manual config".to_string(),
        concat3("listed in ", config_name, " in robo.nix"),
        crate::text::concat4(concat("remove `", path).as_str(), "` from required", plural, " in robo.nix"),
        concat3(concat("create `", path).as_str(), "` or remove it if the project does not require this ", kind),
    )
}

/// A bootstrap script explained.
pub open spec fn script_why(path: Seq<char>) -> Why {
    (
        path,
        "manual config"@,
        "listed in provenance.sourceScripts in robo.nix"@,
        "remove `"@ + path + "` from the bootstrap block in robo.nix"@,
        "create `"@ + path + "` or remove it if this project does not need that bootstrap step"@,
    )
}

pub fn explain_bootstrap_script(path: &str) -> (r: WhyEntry)
    ensures
        r@ == script_why(path@),
{
    entry(
        path.to_string(),
        "manual config".to_string(),
        "listed in provenance.sourceScripts in robo.nix".to_string(),
        concat3("remove `", path, "` from the bootstrap block in robo.nix"),
        concat3("create `", path, "` or remove it if this project does not need that bootstrap step"),
    )
}

/// What to do about a suggestion: stale bootstrap suggestions are deleted;
/// a path is promoted only when bootstrap truly needs it.
pub open spec fn suggestion_remediation(kind: Seq<char>, path: Seq<char>) -> Seq<char> {
    if kind == "bootstrap"@ {
        "delete this stale bootstrap suggestion; bootstrap blocks should come from explicit project policy"@
    } else {
        "promote `"@ + path + "` to requiredFiles or requiredDirectories only if bootstrap truly depends on it"@
    }
}

pub fn suggestion_remediation_hint(suggestion: &RuntimeSuggestion) -> (r: String)
    ensures
        r@ == suggestion_remediation(suggestion.kind@, suggestion.path@),
{
    if str_eq(suggestion.kind.as_str(), "bootstrap") {
        "delete this stale bootstrap suggestion; bootstrap blocks should come from explicit project policy".to_string()
    } else {
        concat3("promote `", suggestion.path.as_str(), "` to requiredFiles or requiredDirectories only if bootstrap truly depends on it")
    }
}

pub open spec fn suggestion_why(kind: Seq<char>, path: Seq<char>, reason: Seq<char>) -> Why {
    (
        path,
        "provenance.suggestions"@,
        reason,
        "delete this entry from provenance.suggestions in robo.nix"@,
        suggestion_remediation(kind, path),
    )
}

pub fn explain_suggestion(suggestion: &RuntimeSuggestion) -> (r: WhyEntry)
    ensures
        r@ == suggestion_why(suggestion.kind@, suggestion.path@, suggestion.reason@),
{
    entry(
        suggestion.path.clone(),
        "provenance.suggestions".to_string(),
        suggestion.reason.clone(),
        "delete this entry from provenance.suggestions in robo.nix".to_string(),
        suggestion_remediation_hint(suggestion),
    )
}

// ---------------------------------------------------------------------
// Components
// ---------------------------------------------------------------------

pub open spec fn reason_views(v: Seq<ComponentReason>) -> Seq<(Seq<char>, Seq<char>, Seq<char>)> {
    v.map_values(|r: ComponentReason| (r.name@, r.source@, r.reason@))
}

/// The last recorded source and reason for a component (a later record
/// replaces an earlier one).
pub open spec fn reason_of(reasons: Seq<(Seq<char>, Seq<char>, Seq<char>)>, name: Seq<char>) -> Option<(Seq<char>, Seq<char>)>
    decreases reasons.len(),
{
    if reasons.len() == 0 {
        None
    } else if reasons.last().0 == name {
        Some((reasons.last().1, reasons.last().2))
    } else {
        reason_of(reasons.drop_last(), name)
    }
}

/// The last reason given for a name in a list of `(name, reason)` pairs.
pub open spec fn pair_reason(pairs: Seq<(Seq<char>, Seq<char>)>, name: Seq<char>) -> Option<Seq<char>>
    decreases pairs.len(),
{
    if pairs.len() == 0 {
        None
    } else if pairs.last().0 == name {
        Some(pairs.last().1)
    } else {
        pair_reason(pairs.drop_last(), name)
    }
}

/// What the provenance says of the components, as the explanations use it.
pub struct Provenance {
    pub profile: Option<String>,
    pub profile_components: Vec<String>,
    pub reasons: Vec<ComponentReason>,
    pub pyproject_reasons: Vec<(String, String)>,
    pub inferred: Vec<String>,
}

#[verifier::ext_equal]
pub struct ProvenanceView {
    pub profile: Option<Seq<char>>,
    pub profile_components: Seq<Seq<char>>,
    pub reasons: Seq<(Seq<char>, Seq<char>, Seq<char>)>,
    pub pyproject_reasons: Seq<(Seq<char>, Seq<char>)>,
    pub inferred: Seq<Seq<char>>,
}

impl View for Provenance {
    type V = ProvenanceView;

    open spec fn view(&self) -> ProvenanceView {
        ProvenanceView {
            profile: opt_str(self.profile),
            profile_components: strs(self.profile_components@),
            reasons: reason_views(self.reasons@),
            pyproject_reasons: pairs_view(self.pyproject_reasons@),
            inferred: strs(self.inferred@),
        }
    }
}

pub open spec fn pairs_view(v: Seq<(String, String)>) -> Seq<(Seq<char>, Seq<char>)> {
    v.map_values(|p: (String, String)| (p.0@, p.1@))
}

/// A component explained: by the profile that selected it, else by its
/// recorded reason, else by the dependency that implies it, else by the
/// first inference recorded, else as listed by hand.
pub open spec fn component_why(component: Seq<char>, p: ProvenanceView) -> Why {
    let remove = "remove `"@ + component + "` from `components` in robo.nix if the inference is wrong"@;
    if p.profile is Some && p.profile_components.contains(component) {
        (
            component,
            "profile"@,
            "selected by the `"@ + p.profile->0 + "` profile"@,
            "choose a different profile with `robo init --profile ... --force`, or edit `components` in robo.nix"@,
            "keep profile components unless the project has a known smaller runtime contract"@,
        )
    } else if reason_of(p.reasons, component) is Some {
        let r = reason_of(p.reasons, component)->0;
        (component, r.0, r.1, remove, "run `robo check --why` after edits to confirm the runtime contract still matches the project"@)
    } else if pair_reason(p.pyproject_reasons, component) is Some {
        (
            component,
            "pyproject inference"@,
            pair_reason(p.pyproject_reasons, component)->0,
            remove,
            "run `robo check --why` after edits to confirm the runtime contract still matches the project"@,
        )
    } else if p.inferred.len() > 0 {
        (
            component,
            "inference"@,
            p.inferred[0],
            remove,
            "run `robo check --why` after edits to confirm the inferred runtime still matches the project"@,
        )
    } else {
        (
            component,
            "manual config"@,
            "listed directly in robo.nix"@,
            "remove `"@ + component + "` from `components` in robo.nix"@,
            "keep manual components that provide native libraries, simulators, GPU, graphics, ROS, or compiler tooling this project needs"@,
        )
    }
}

pub(crate) fn contains_string(items: &Vec<String>, x: &str) -> (r: bool)
    ensures
        r == strs(items@).contains(x@),
{
    let mut i: usize = 0;
    while i < items.len()
        invariant
            i <= items.len(),
            forall|k: int| 0 <= k < i ==> strs(items@)[k] != x@,
        decreases items.len() - i,
    {
        if str_eq(items[i].as_str(), x) {
            assert(strs(items@)[i as int] == x@);
            return true;
        }
        i = i + 1;
    }
    false
}

pub(crate) fn find_reason(reasons: &Vec<ComponentReason>, name: &str) -> (r: Option<(String, String)>)
    ensures
        match r {
            Some(x) => reason_of(reason_views(reasons@), name@) == Some((x.0@, x.1@)),
            None => reason_of(reason_views(reasons@), name@) is None,
        },
{
    let ghost rv = reason_views(reasons@);
    let mut i = reasons.len();
    assert(rv.take(i as int) == rv);
    while i > 0
        invariant
            i <= reasons.len(),
            rv == reason_views(reasons@),
            reason_of(rv, name@) == reason_of(rv.take(i as int), name@),
        decreases i,
    {
        let k = i - 1;
        assert(rv.take(i as int).drop_last() == rv.take(k as int));
        assert(rv.take(i as int).last() == (reasons@[k as int].name@, reasons@[k as int].source@, reasons@[k as int].reason@));
        if str_eq(reasons[k].name.as_str(), name) {
            return Some((reasons[k].source.clone(), reasons[k].reason.clone()));
        }
        i = k;
    }
    None
}

fn find_pair(pairs: &Vec<(String, String)>, name: &str) -> (r: Option<String>)
    ensures
        opt_str(r) == pair_reason(pairs_view(pairs@), name@),
{
    let ghost pv = pairs_view(pairs@);
    let mut i = pairs.len();
    assert(pv.take(i as int) == pv);
    while i > 0
        invariant
            i <= pairs.len(),
            pv == pairs_view(pairs@),
            pair_reason(pv, name@) == pair_reason(pv.take(i as int), name@),
        decreases i,
    {
        let k = i - 1;
        assert(pv.take(i as int).drop_last() == pv.take(k as int));
        assert(pv.take(i as int).last() == (pairs@[k as int].0@, pairs@[k as int].1@));
        if str_eq(pairs[k].0.as_str(), name) {
            return Some(pairs[k].1.clone());
        }
        i = k;
    }
    None
}

pub fn explain_component(component: &str, provenance: &Provenance) -> (r: WhyEntry)
    ensures
        r@ == component_why(component@, provenance@),
{
    match &provenance.profile {
        Some(profile) => {
            if contains_string(&provenance.profile_components, component) {
                return entry(
                    component.to_string(),
                    "profile".to_string(),
                    concat3("selected by the `", profile.as_str(), "` profile"),
                    "choose a different profile with `robo init --profile ... --force`, or edit `components` in robo.nix".to_string(),
                    "keep profile components unless the project has a known smaller runtime contract".to_string(),
                );
            }
        },
        None => {},
    }
    let remove = concat3("remove `", component, "` from `components` in robo.nix if the inference is wrong");
    match find_reason(&provenance.reasons, component) {
        Some((source, reason)) => {
            return entry(
                component.to_string(),
                source,
                reason,
                remove,
                "run `robo check --why` after edits to confirm the runtime contract still matches the project".to_string(),
            );
        },
        None => {},
    }
    match find_pair(&provenance.pyproject_reasons, component) {
        Some(reason) => {
            return entry(
                component.to_string(),
                "pyproject inference".to_string(),
                reason,
                remove,
                "run `robo check --why` after edits to confirm the runtime contract still matches the project".to_string(),
            );
        },
        None => {},
    }
    if provenance.inferred.len() > 0 {
        return entry(
            component.to_string(),
            "inference".to_string(),
            provenance.inferred[0].clone(),
            remove,
            "run `robo check --why` after edits to confirm the inferred runtime still matches the project".to_string(),
        );
    }
    entry(
        component.to_string(),
        "manual config".to_string(),
        "listed directly in robo.nix".to_string(),
        concat3("remove `", component, "` from `components` in robo.nix"),
        "keep manual components that provide native libraries, simulators, GPU, graphics, ROS, or compiler tooling this project needs".to_string(),
    )
}

// ---------------------------------------------------------------------
// What the project's dependencies imply
// ---------------------------------------------------------------------

/// The components that provide a requirement, in manifest order; none for
/// host-owned (`host.`) requirements.
pub open spec fn manifest_providers(entries: Seq<(String, Vec<String>)>, requirement: Seq<char>) -> Seq<Seq<char>>
    decreases entries.len(),
{
    if is_prefix("host."@, requirement) || entries.len() == 0 {
        Seq::empty()
    } else {
        let prev = manifest_providers(entries.drop_last(), requirement);
        if strs(entries.last().1@).contains(requirement) {
            prev.push(entries.last().0@)
        } else {
            prev
        }
    }
}

pub fn providers_for(manifest: &RuntimeManifest, requirement: &str) -> (r: Vec<String>)
    ensures
        strs(r@) == manifest_providers(manifest.components@, requirement@),
{
    let mut out: Vec<String> = Vec::new();
    if crate::text::starts_with_str(&crate::text::chars_of(requirement), "host.") {
        proof {
            let e = manifest.components@;
            if e.len() > 0 {
                assert(manifest_providers(e, requirement@) == Seq::<Seq<char>>::empty());
            }
        }
        assert(strs(out@) =~= Seq::<Seq<char>>::empty());
        return out;
    }
    let ghost es = manifest.components@;
    let mut i: usize = 0;
    while i < manifest.components.len()
        invariant
            i <= manifest.components.len(),
            es == manifest.components@,
            !is_prefix("host."@, requirement@),
            strs(out@) == manifest_providers(es.take(i as int), requirement@),
        decreases manifest.components.len() - i,
    {
        assert(es.take(i + 1).drop_last() == es.take(i as int));
        if contains_string(&manifest.components[i].1, requirement) {
            let ghost prev = out@;
            out.push(manifest.components[i].0.clone());
            assert(strs(out@) =~= strs(prev).push(es[i as int].0@));
        }
        i = i + 1;
    }
    assert(es.take(manifest.components.len() as int) == es);
    out
}

/// `cs` with the providers of each requirement added, each unless present.
pub open spec fn with_providers(cs: Seq<Seq<char>>, entries: Seq<(String, Vec<String>)>, reqs: Seq<Seq<char>>) -> Seq<Seq<char>>
    decreases reqs.len(),
{
    if reqs.len() == 0 {
        cs
    } else {
        crate::init::pipeline::push_all_new(
            with_providers(cs, entries, reqs.drop_last()),
            manifest_providers(entries, reqs.last()),
        )
    }
}

/// The components a rule brings: its own, then the providers of what it
/// requires.
pub open spec fn rule_targets(entries: Seq<(String, Vec<String>)>, rule: ManifestRule) -> Seq<Seq<char>> {
    with_providers(strs(rule.components@), entries, strs(rule.requires@))
}

pub open spec fn pair_names(pairs: Seq<(Seq<char>, Seq<char>)>) -> Seq<Seq<char>> {
    pairs.map_values(|p: (Seq<char>, Seq<char>)| p.0)
}

/// `acc` with each name not yet in it added with the note.
pub open spec fn add_expected(acc: Seq<(Seq<char>, Seq<char>)>, cs: Seq<Seq<char>>, note: Seq<char>) -> Seq<(Seq<char>, Seq<char>)>
    decreases cs.len(),
{
    if cs.len() == 0 {
        acc
    } else {
        let a = add_expected(acc, cs.drop_last(), note);
        if pair_names(a).contains(cs.last()) {
            a
        } else {
            a.push((cs.last(), note))
        }
    }
}

/// The components the dependencies imply with the note of the first rule
/// that implies each, rule by rule.
pub open spec fn expected_components(entries: Seq<(String, Vec<String>)>, rules: Seq<ManifestRule>, deps: Set<Seq<char>>) -> Seq<(Seq<char>, Seq<char>)>
    decreases rules.len(),
{
    if rules.len() == 0 {
        Seq::empty()
    } else {
        let prev = expected_components(entries, rules.drop_last(), deps);
        let r = rules.last();
        if has_any(deps, strs(r.dependencies@)) {
            add_expected(prev, rule_targets(entries, r), r.note@)
        } else {
            prev
        }
    }
}

fn push_all_strings(items: &mut Vec<String>, extra: &Vec<String>)
    ensures
        strs(final(items)@) == crate::init::pipeline::push_all_new(strs(old(items)@), strs(extra@)),
{
    let ghost start = strs(items@);
    let mut i: usize = 0;
    while i < extra.len()
        invariant
            i <= extra.len(),
            strs(items@) == crate::init::pipeline::push_all_new(start, strs(extra@).take(i as int)),
        decreases extra.len() - i,
    {
        crate::init::spec::push_unique(items, extra[i].as_str());
        assert(strs(extra@).take(i + 1).drop_last() == strs(extra@).take(i as int));
        i = i + 1;
    }
    assert(strs(extra@).take(extra.len() as int) == strs(extra@));
}

fn targets_of(manifest: &RuntimeManifest, rule: &ManifestRule) -> (r: Vec<String>)
    ensures
        strs(r@) == rule_targets(manifest.components@, *rule),
{
    let mut cs = clone_strings(&rule.components);
    let ghost rs = strs(rule.requires@);
    let mut i: usize = 0;
    while i < rule.requires.len()
        invariant
            i <= rule.requires.len(),
            rs == strs(rule.requires@),
            strs(cs@) == with_providers(strs(rule.components@), manifest.components@, rs.take(i as int)),
        decreases rule.requires.len() - i,
    {
        let providers = providers_for(manifest, rule.requires[i].as_str());
        push_all_strings(&mut cs, &providers);
        assert(rs.take(i + 1).drop_last() == rs.take(i as int));
        i = i + 1;
    }
    assert(rs.take(rule.requires.len() as int) == rs);
    cs
}

fn contains_pair_name(pairs: &Vec<(String, String)>, name: &str) -> (r: bool)
    ensures
        r == pair_names(pairs_view(pairs@)).contains(name@),
{
    let ghost ns = pair_names(pairs_view(pairs@));
    let mut i: usize = 0;
    while i < pairs.len()
        invariant
            i <= pairs.len(),
            ns == pair_names(pairs_view(pairs@)),
            forall|k: int| 0 <= k < i ==> ns[k] != name@,
        decreases pairs.len() - i,
    {
        assert(ns[i as int] == pairs@[i as int].0@);
        if str_eq(pairs[i].0.as_str(), name) {
            return true;
        }
        i = i + 1;
    }
    false
}

pub fn expected_components_from_pyproject_with_manifest(manifest: &RuntimeManifest, text: &str) -> (r: Vec<(String, String)>)
    ensures
        pairs_view(r@) == expected_components(manifest.components@, manifest.dependency_rules@, dependency_set(text@)),
{
    let deps = dependency_names(text);
    let ghost rules = manifest.dependency_rules@;
    let ghost ds = dependency_set(text@);
    let mut out: Vec<(String, String)> = Vec::new();
    let mut i: usize = 0;
    while i < manifest.dependency_rules.len()
        invariant
            i <= manifest.dependency_rules.len(),
            rules == manifest.dependency_rules@,
            strs(deps@).to_set() == ds,
            pairs_view(out@) == expected_components(manifest.components@, rules.take(i as int), ds),
        decreases manifest.dependency_rules.len() - i,
    {
        assert(rules.take(i + 1).drop_last() == rules.take(i as int));
        let rule = &manifest.dependency_rules[i];
        if crate::init::probe::has_dep(&deps, &rule.dependencies) {
            let targets = targets_of(manifest, rule);
            let ghost start = pairs_view(out@);
            let ghost tv = strs(targets@);
            let mut k: usize = 0;
            while k < targets.len()
                invariant
                    k <= targets.len(),
                    tv == strs(targets@),
                    pairs_view(out@) == add_expected(start, tv.take(k as int), rule.note@),
                decreases targets.len() - k,
            {
                assert(tv.take(k + 1).drop_last() == tv.take(k as int));
                assert(tv.take(k + 1).last() == targets@[k as int]@);
                if !contains_pair_name(&out, targets[k].as_str()) {
                    let ghost prev = out@;
                    out.push((targets[k].clone(), rule.note.clone()));
                    assert(pairs_view(out@) =~= pairs_view(prev).push((targets@[k as int]@, rule.note@)));
                }
                k = k + 1;
            }
            assert(tv.take(targets.len() as int) == tv);
        }
        i = i + 1;
    }
    assert(rules.take(manifest.dependency_rules.len() as int) == rules);
    out
}

/// `acc` with each requirement not yet in it added with the note.
pub open spec fn requirements_of_rules(rules: Seq<ManifestRule>, deps: Set<Seq<char>>) -> Seq<(Seq<char>, Seq<char>)>
    decreases rules.len(),
{
    if rules.len() == 0 {
        Seq::empty()
    } else {
        let prev = requirements_of_rules(rules.drop_last(), deps);
        let r = rules.last();
        if has_any(deps, strs(r.dependencies@)) {
            add_expected(prev, strs(r.requires@), r.note@)
        } else {
            prev
        }
    }
}

/// The requirements the dependencies imply with the note of the first rule
/// that implies each; their source is `pyproject inference`.
pub fn expected_requirements_from_pyproject_with_manifest(manifest: &RuntimeManifest, text: &str) -> (r: Vec<(String, String)>)
    ensures
        pairs_view(r@) == requirements_of_rules(manifest.dependency_rules@, dependency_set(text@)),
{
    let deps = dependency_names(text);
    let ghost rules = manifest.dependency_rules@;
    let ghost ds = dependency_set(text@);
    let mut out: Vec<(String, String)> = Vec::new();
    let mut i: usize = 0;
    while i < manifest.dependency_rules.len()
        invariant
            i <= manifest.dependency_rules.len(),
            rules == manifest.dependency_rules@,
            strs(deps@).to_set() == ds,
            pairs_view(out@) == requirements_of_rules(rules.take(i as int), ds),
        decreases manifest.dependency_rules.len() - i,
    {
        assert(rules.take(i + 1).drop_last() == rules.take(i as int));
        let rule = &manifest.dependency_rules[i];
        if crate::init::probe::has_dep(&deps, &rule.dependencies) {
            let ghost start = pairs_view(out@);
            let ghost tv = strs(rule.requires@);
            let mut k: usize = 0;
            while k < rule.requires.len()
                invariant
                    k <= rule.requires.len(),
                    tv == strs(rule.requires@),
                    pairs_view(out@) == add_expected(start, tv.take(k as int), rule.note@),
                decreases rule.requires.len() - k,
            {
                assert(tv.take(k + 1).drop_last() == tv.take(k as int));
                assert(tv.take(k + 1).last() == rule.requires@[k as int]@);
                if !contains_pair_name(&out, rule.requires[k].as_str()) {
                    let ghost prev = out@;
                    out.push((rule.requires[k].clone(), rule.note.clone()));
                    assert(pairs_view(out@) =~= pairs_view(prev).push((rule.requires@[k as int]@, rule.note@)));
                }
                k = k + 1;
            }
            assert(tv.take(rule.requires.len() as int) == tv);
        }
        i = i + 1;
    }
    assert(rules.take(manifest.dependency_rules.len() as int) == rules);
    out
}

// ---------------------------------------------------------------------
// The whole explanation
// ---------------------------------------------------------------------

/// The requirements a component provides, each explained by the
/// component's own explanation.
pub open spec fn provided_whys(component: Seq<char>, cw: Why, provides: Seq<Seq<char>>) -> Seq<Why> {
    provides.map_values(|req: Seq<char>| (
        req,
        cw.1,
        "provided by `"@ + component + "`: "@ + cw.2,
        "remove `"@ + component + "` from `components` in robo.nix if `"@ + req + "` is unnecessary"@,
        "keep `"@ + component + "` or another component that provides `"@ + req + "`"@,
    ))
}

/// The first manifest entry of a component, with what it provides.
pub open spec fn provides_of(entries: Seq<(String, Vec<String>)>, name: Seq<char>) -> Option<Seq<Seq<char>>>
    decreases entries.len(),
{
    if entries.len() == 0 {
        None
    } else if entries[0].0@ == name {
        Some(strs(entries[0].1@))
    } else {
        provides_of(entries.skip(1), name)
    }
}

/// The requirements the runtime's components provide, component by
/// component.
pub open spec fn component_requirement_whys(components: Seq<Seq<char>>, p: ProvenanceView, entries: Seq<(String, Vec<String>)>) -> Seq<Why>
    decreases components.len(),
{
    if components.len() == 0 {
        Seq::empty()
    } else {
        let prev = component_requirement_whys(components.drop_last(), p, entries);
        let c = components.last();
        match provides_of(entries, c) {
            Some(provides) => prev + provided_whys(c, component_why(c, p), provides),
            None => prev,
        }
    }
}

fn find_provides<'a>(manifest: &'a RuntimeManifest, name: &str) -> (r: Option<&'a Vec<String>>)
    ensures
        match r {
            Some(v) => provides_of(manifest.components@, name@) == Some(strs(v@)),
            None => provides_of(manifest.components@, name@) is None,
        },
{
    let ghost es = manifest.components@;
    let mut i: usize = 0;
    assert(es.skip(0) =~= es);
    while i < manifest.components.len()
        invariant
            i <= manifest.components.len(),
            es == manifest.components@,
            provides_of(es, name@) == provides_of(es.skip(i as int), name@),
        decreases manifest.components.len() - i,
    {
        assert(es.skip(i as int)[0] == es[i as int]);
        assert(es.skip(i as int).skip(1) =~= es.skip(i + 1));
        if str_eq(manifest.components[i].0.as_str(), name) {
            return Some(&manifest.components[i].1);
        }
        i = i + 1;
    }
    None
}

pub fn component_requirements(runtime: &ProjectRuntime, provenance: &Provenance, manifest: &RuntimeManifest) -> (r: Vec<WhyEntry>)
    ensures
        why_view(r@) == component_requirement_whys(strs(runtime.components@), provenance@, manifest.components@),
{
    let ghost cs = strs(runtime.components@);
    let mut out: Vec<WhyEntry> = Vec::new();
    let mut i: usize = 0;
    while i < runtime.components.len()
        invariant
            i <= runtime.components.len(),
            cs == strs(runtime.components@),
            why_view(out@) == component_requirement_whys(cs.take(i as int), provenance@, manifest.components@),
        decreases runtime.components.len() - i,
    {
        assert(cs.take(i + 1).drop_last() == cs.take(i as int));
        assert(cs.take(i + 1).last() == runtime.components@[i as int]@);
        let component = runtime.components[i].as_str();
        match find_provides(manifest, component) {
            Some(provides) => {
                let cw = explain_component(component, provenance);
                let ghost start = why_view(out@);
                let ghost pv = strs(provides@);
                let mut k: usize = 0;
                while k < provides.len()
                    invariant
                        k <= provides.len(),
                        pv == strs(provides@),
                        why_view(out@) == start + provided_whys(component@, cw@, pv.take(k as int)),
                    decreases provides.len() - k,
                {
                    let req = provides[k].as_str();
                    let e = entry(
                        req.to_string(),
                        cw.source.clone(),
                        crate::text::concat4("provided by `", component, "`: ", cw.reason.as_str()),
                        crate::text::concat4(concat("remove `", component).as_str(), "` from `components` in robo.nix if `", req, "` is unnecessary"),
                        crate::text::concat4("keep `", component, "` or another component that provides `", concat(req, "`").as_str()),
                    );
                    let ghost prev = out@;
                    out.push(e);
                    proof {
                        let c = component@;
                        let q = pv[k as int];
                        assert(req@ == q);
                        assert(e@.2 =~= "provided by `"@ + c + "`: "@ + cw@.2);
                        assert(e@.3 =~= "remove `"@ + c + "` from `components` in robo.nix if `"@ + q + "` is unnecessary"@);
                        assert(e@.4 =~= "keep `"@ + c + "` or another component that provides `"@ + q + "`"@);
                        assert(why_view(out@) =~= why_view(prev).push(e@));
                        assert(pv.take(k + 1) =~= pv.take(k as int).push(pv[k as int]));
                        assert(provided_whys(component@, cw@, pv.take(k + 1)) =~= provided_whys(component@, cw@, pv.take(k as int)).push(e@));
                    }
                    k = k + 1;
                }
                assert(pv.take(provides.len() as int) == pv);
            },
            None => {},
        }
        i = i + 1;
    }
    assert(cs.take(runtime.components.len() as int) == cs);
    out
}

/// The entries with each name kept once, at its first occurrence.
pub open spec fn dedupe_whys(entries: Seq<Why>) -> Seq<Why>
    decreases entries.len(),
{
    if entries.len() == 0 {
        Seq::empty()
    } else {
        let prev = dedupe_whys(entries.drop_last());
        if prev.map_values(|e: Why| e.0).contains(entries.last().0) {
            prev
        } else {
            prev.push(entries.last())
        }
    }
}

fn clone_entry(e: &WhyEntry) -> (r: WhyEntry)
    ensures
        r@ == e@,
{
    entry(e.name.clone(), e.source.clone(), e.reason.clone(), e.remove_hint.clone(), e.remediation_hint.clone())
}

pub fn dedupe_why_entries(entries: &Vec<WhyEntry>) -> (r: Vec<WhyEntry>)
    ensures
        why_view(r@) == dedupe_whys(why_view(entries@)),
{
    let ghost ev = why_view(entries@);
    let mut out: Vec<WhyEntry> = Vec::new();
    let mut names: Vec<String> = Vec::new();
    let mut i: usize = 0;
    assert(why_view(out@).map_values(|e: Why| e.0) =~= strs(names@));
    while i < entries.len()
        invariant
            i <= entries.len(),
            ev == why_view(entries@),
            why_view(out@) == dedupe_whys(ev.take(i as int)),
            strs(names@) == why_view(out@).map_values(|e: Why| e.0),
        decreases entries.len() - i,
    {
        assert(ev.take(i + 1).drop_last() == ev.take(i as int));
        assert(ev.take(i + 1).last() == entries@[i as int]@);
        if !contains_string(&names, entries[i].name.as_str()) {
            let e = clone_entry(&entries[i]);
            let ghost prev = out@;
            let ghost prev_names = names@;
            out.push(e);
            names.push(entries[i].name.clone());
            assert(why_view(out@) =~= why_view(prev).push(e@));
            assert(strs(names@) =~= strs(prev_names).push(e@.0));
            assert(why_view(out@).map_values(|e: Why| e.0) =~= why_view(prev).map_values(|e: Why| e.0).push(e@.0));
        }
        i = i + 1;
    }
    assert(ev.take(entries.len() as int) == ev);
    out
}

#[verifier::ext_equal]
pub struct WhyReport {
    pub env_name: Seq<char>,
    pub python_version: Seq<char>,
    pub profile: Option<Seq<char>>,
    pub requirements: Seq<Why>,
    pub components: Seq<Why>,
    pub required_directories: Seq<Why>,
    pub required_files: Seq<Why>,
    pub bootstrap_scripts: Seq<Why>,
    pub suggestions: Seq<Why>,
}

impl View for RuntimeWhy {
    type V = WhyReport;

    open spec fn view(&self) -> WhyReport {
        WhyReport {
            env_name: self.env_name@,
            python_version: self.python_version@,
            profile: opt_str(self.profile),
            requirements: why_view(self.requirements@),
            components: why_view(self.components@),
            required_directories: why_view(self.required_directories@),
            required_files: why_view(self.required_files@),
            bootstrap_scripts: why_view(self.bootstrap_scripts@),
            suggestions: why_view(self.suggestions@),
        }
    }
}

/// The components of the first profile of that name.
pub open spec fn profile_entry(entries: Seq<(String, Vec<String>)>, name: Seq<char>) -> Option<Seq<Seq<char>>> {
    provides_of(entries, name)
}

/// The profile `robo.nix` names, at the top or in its provenance.
pub open spec fn manifest_profile(m: ProjectManifest) -> Option<Seq<char>> {
    match m.profile {
        Some(p) => Some(p@),
        None => opt_str(m.provenance.profile),
    }
}

/// What the explanations know of the components.
pub open spec fn provenance_view(m: ProjectManifest, rm: Option<RuntimeManifest>, pyproject: Option<Seq<char>>) -> ProvenanceView {
    ProvenanceView {
        profile: manifest_profile(m),
        profile_components: match (manifest_profile(m), rm) {
            (Some(p), Some(r)) => match profile_entry(r.profiles@, p) {
                Some(cs) => cs,
                None => Seq::empty(),
            },
            _ => Seq::empty(),
        },
        reasons: reason_views(m.provenance.component_reasons@),
        pyproject_reasons: match (rm, pyproject) {
            (Some(r), Some(t)) => expected_components(r.components@, r.dependency_rules@, dependency_set(t)),
            _ => Seq::empty(),
        },
        inferred: strs(m.provenance.inferred@),
    }
}

pub open spec fn requirement_whys(rs: Seq<ManifestRequirement>) -> Seq<Why> {
    rs.map_values(|r: ManifestRequirement| requirement_why(r.id@, r.source@, r.reason@, opt_str(r.evidence), r.severity@))
}

pub open spec fn expected_requirement_whys(pairs: Seq<(Seq<char>, Seq<char>)>) -> Seq<Why> {
    pairs.map_values(|p: (Seq<char>, Seq<char>)| expected_requirement_why(p.0, "pyproject inference"@, p.1))
}

/// The explanation of a runtime: its recorded requirements, then (with the
/// component manifest) those the dependencies imply and those its
/// components provide, each name once; each component, required path,
/// bootstrap script and suggestion explained.
pub open spec fn runtime_why(runtime: ProjectRuntime, m: ProjectManifest, rm: Option<RuntimeManifest>, pyproject: Option<Seq<char>>) -> WhyReport {
    let p = provenance_view(m, rm, pyproject);
    let recorded = requirement_whys(m.requirements@);
    let all = match rm {
        Some(r) => {
            let implied = match pyproject {
                Some(t) => expected_requirement_whys(requirements_of_rules(r.dependency_rules@, dependency_set(t))),
                None => Seq::empty(),
            };
            recorded + implied + component_requirement_whys(strs(runtime.components@), p, r.components@)
        },
        None => recorded,
    };
    WhyReport {
        env_name: runtime.env_name@,
        python_version: runtime.python_version@,
        profile: manifest_profile(m),
        requirements: dedupe_whys(all),
        components: strs(runtime.components@).map_values(|c: Seq<char>| component_why(c, p)),
        required_directories: strs(m.required_directories@).map_values(|d: Seq<char>| required_path_why("directory"@, d)),
        required_files: strs(m.required_files@).map_values(|f: Seq<char>| required_path_why("file"@, f)),
        bootstrap_scripts: strs(m.provenance.source_scripts@).map_values(|f: Seq<char>| script_why(f)),
        suggestions: runtime.suggestions@.map_values(|s: RuntimeSuggestion| suggestion_why(s.kind@, s.path@, s.reason@)),
    }
}

fn clone_reasons(v: &Vec<ComponentReason>) -> (r: Vec<ComponentReason>)
    ensures
        reason_views(r@) == reason_views(v@),
{
    let mut out: Vec<ComponentReason> = Vec::new();
    let mut i: usize = 0;
    while i < v.len()
        invariant
            i <= v.len(),
            reason_views(out@) == reason_views(v@).take(i as int),
        decreases v.len() - i,
    {
        let ghost prev = out@;
        out.push(ComponentReason { name: v[i].name.clone(), source: v[i].source.clone(), reason: v[i].reason.clone() });
        assert(reason_views(out@) =~= reason_views(prev).push(reason_views(v@)[i as int]));
        assert(reason_views(v@).take(i + 1) =~= reason_views(v@).take(i as int).push(reason_views(v@)[i as int]));
        i = i + 1;
    }
    assert(reason_views(v@).take(v.len() as int) == reason_views(v@));
    out
}

pub fn provenance_from(manifest: &ProjectManifest, runtime_manifest: Option<&RuntimeManifest>, pyproject: Option<&str>) -> (r: Provenance)
    ensures
        r@ == provenance_view(
            *manifest,
            match runtime_manifest {
                Some(m) => Some(*m),
                None => None,
            },
            crate::host_bridge::opt_text(pyproject),
        ),
{
    let profile = match &manifest.profile {
        Some(p) => Some(p.clone()),
        None => manifest.provenance.profile.clone(),
    };
    let profile_components = match (&profile, runtime_manifest) {
        (Some(p), Some(rm)) => match find_profile_components(rm, p.as_str()) {
            Some(cs) => clone_strings(cs),
            None => {
                let v: Vec<String> = Vec::new();
                assert(strs(v@) =~= Seq::<Seq<char>>::empty());
                v
            },
        },
        _ => {
            let v: Vec<String> = Vec::new();
            assert(strs(v@) =~= Seq::<Seq<char>>::empty());
            v
        },
    };
    let pyproject_reasons = match (runtime_manifest, pyproject) {
        (Some(rm), Some(text)) => expected_components_from_pyproject_with_manifest(rm, text),
        _ => {
            let v: Vec<(String, String)> = Vec::new();
            assert(pairs_view(v@) =~= Seq::<(Seq<char>, Seq<char>)>::empty());
            v
        },
    };
    let r = Provenance {
        profile,
        profile_components,
        reasons: clone_reasons(&manifest.provenance.component_reasons),
        pyproject_reasons,
        inferred: clone_strings(&manifest.provenance.inferred),
    };
    proof {
        if r.profile_components@.len() == 0 {
            assert(strs(r.profile_components@) =~= Seq::<Seq<char>>::empty());
        }
        if r.pyproject_reasons@.len() == 0 {
            assert(pairs_view(r.pyproject_reasons@) =~= Seq::<(Seq<char>, Seq<char>)>::empty());
        }
    }
    r
}

fn find_profile_components<'a>(manifest: &'a RuntimeManifest, name: &str) -> (r: Option<&'a Vec<String>>)
    ensures
        match r {
            Some(v) => profile_entry(manifest.profiles@, name@) == Some(strs(v@)),
            None => profile_entry(manifest.profiles@, name@) is None,
        },
{
    let ghost es = manifest.profiles@;
    let mut i: usize = 0;
    assert(es.skip(0) =~= es);
    while i < manifest.profiles.len()
        invariant
            i <= manifest.profiles.len(),
            es == manifest.profiles@,
            provides_of(es, name@) == provides_of(es.skip(i as int), name@),
        decreases manifest.profiles.len() - i,
    {
        assert(es.skip(i as int)[0] == es[i as int]);
        assert(es.skip(i as int).skip(1) =~= es.skip(i + 1));
        if str_eq(manifest.profiles[i].0.as_str(), name) {
            return Some(&manifest.profiles[i].1);
        }
        i = i + 1;
    }
    None
}

fn append_entries(out: &mut Vec<WhyEntry>, more: Vec<WhyEntry>)
    ensures
        why_view(final(out)@) == why_view(old(out)@) + why_view(more@),
{
    let ghost start = why_view(out@);
    let mut i: usize = 0;
    while i < more.len()
        invariant
            i <= more.len(),
            why_view(out@) == start + why_view(more@).take(i as int),
        decreases more.len() - i,
    {
        let ghost prev = out@;
        out.push(clone_entry(&more[i]));
        assert(why_view(out@) =~= why_view(prev).push(more@[i as int]@));
        assert(why_view(more@).take(i + 1) =~= why_view(more@).take(i as int).push(more@[i as int]@));
        i = i + 1;
    }
    assert(why_view(more@).take(more.len() as int) == why_view(more@));
}

fn explain_all_paths(kind: &str, paths: &Vec<String>) -> (r: Vec<WhyEntry>)
    ensures
        why_view(r@) == strs(paths@).map_values(|d: Seq<char>| required_path_why(kind@, d)),
{
    let mut out: Vec<WhyEntry> = Vec::new();
    let mut i: usize = 0;
    while i < paths.len()
        invariant
            i <= paths.len(),
            why_view(out@) == strs(paths@).take(i as int).map_values(|d: Seq<char>| required_path_why(kind@, d)),
        decreases paths.len() - i,
    {
        let ghost prev = out@;
        let e = explain_required_path(kind, paths[i].as_str());
        out.push(e);
        assert(why_view(out@) =~= why_view(prev).push(e@));
        assert(strs(paths@).take(i + 1) =~= strs(paths@).take(i as int).push(paths@[i as int]@));
        assert(strs(paths@).take(i + 1).map_values(|d: Seq<char>| required_path_why(kind@, d)) =~= strs(paths@).take(i as int).map_values(|d: Seq<char>| required_path_why(kind@, d)).push(e@));
        i = i + 1;
    }
    assert(strs(paths@).take(paths.len() as int) == strs(paths@));
    out
}

/// Builds the provenance report of a runtime from what `robo.nix` records,
/// the component manifest (when available) and `pyproject.toml` (when read).
pub fn build_runtime_why(
    runtime: &ProjectRuntime,
    manifest: &ProjectManifest,
    runtime_manifest: Option<&RuntimeManifest>,
    pyproject: Option<&str>,
) -> (r: RuntimeWhy)
    ensures
        r@ == runtime_why(
            *runtime,
            *manifest,
            match runtime_manifest {
                Some(m) => Some(*m),
                None => None,
            },
            crate::host_bridge::opt_text(pyproject),
        ),
{
    let ghost rm = match runtime_manifest {
        Some(m) => Some(*m),
        None => None,
    };
    let provenance = provenance_from(manifest, runtime_manifest, pyproject);
    let mut requirements: Vec<WhyEntry> = Vec::new();
    let mut i: usize = 0;
    while i < manifest.requirements.len()
        invariant
            i <= manifest.requirements.len(),
            why_view(requirements@) == requirement_whys(manifest.requirements@).take(i as int),
        decreases manifest.requirements.len() - i,
    {
        let ghost prev = requirements@;
        let e = explain_requirement(&manifest.requirements[i]);
        requirements.push(e);
        assert(why_view(requirements@) =~= why_view(prev).push(e@));
        assert(requirement_whys(manifest.requirements@).take(i + 1) =~= requirement_whys(manifest.requirements@).take(i as int).push(e@));
        i = i + 1;
    }
    assert(requirement_whys(manifest.requirements@).take(manifest.requirements.len() as int) == requirement_whys(manifest.requirements@));
    match runtime_manifest {
        Some(rm_ref) => {
            match pyproject {
                Some(text) => {
                    let implied = expected_requirements_from_pyproject_with_manifest(rm_ref, text);
                    let ghost start = why_view(requirements@);
                    let mut k: usize = 0;
                    while k < implied.len()
                        invariant
                            k <= implied.len(),
                            why_view(requirements@) == start + expected_requirement_whys(pairs_view(implied@)).take(k as int),
                        decreases implied.len() - k,
                    {
                        let ghost prev = requirements@;
                        let e = explain_expected_requirement(implied[k].0.as_str(), "pyproject inference", implied[k].1.as_str());
                        requirements.push(e);
                        assert(why_view(requirements@) =~= why_view(prev).push(e@));
                        assert(expected_requirement_whys(pairs_view(implied@)).take(k + 1) =~= expected_requirement_whys(pairs_view(implied@)).take(k as int).push(e@));
                        k = k + 1;
                    }
                    assert(expected_requirement_whys(pairs_view(implied@)).take(implied.len() as int) == expected_requirement_whys(pairs_view(implied@)));
                },
                None => {},
            }
            let provided = component_requirements(runtime, &provenance, rm_ref);
            append_entries(&mut requirements, provided);
        },
        None => {},
    }
    let requirements = dedupe_why_entries(&requirements);
    let mut components: Vec<WhyEntry> = Vec::new();
    let mut c: usize = 0;
    while c < runtime.components.len()
        invariant
            c <= runtime.components.len(),
            why_view(components@) == strs(runtime.components@).take(c as int).map_values(|x: Seq<char>| component_why(x, provenance@)),
        decreases runtime.components.len() - c,
    {
        let ghost prev = components@;
        let e = explain_component(runtime.components[c].as_str(), &provenance);
        components.push(e);
        assert(why_view(components@) =~= why_view(prev).push(e@));
        assert(strs(runtime.components@).take(c + 1) =~= strs(runtime.components@).take(c as int).push(runtime.components@[c as int]@));
        assert(strs(runtime.components@).take(c + 1).map_values(|x: Seq<char>| component_why(x, provenance@)) =~= strs(runtime.components@).take(c as int).map_values(|x: Seq<char>| component_why(x, provenance@)).push(e@));
        c = c + 1;
    }
    assert(strs(runtime.components@).take(runtime.components.len() as int) == strs(runtime.components@));
    let mut scripts: Vec<WhyEntry> = Vec::new();
    let mut k: usize = 0;
    let sources = &manifest.provenance.source_scripts;
    while k < sources.len()
        invariant
            k <= sources.len(),
            why_view(scripts@) == strs(sources@).take(k as int).map_values(|f: Seq<char>| script_why(f)),
        decreases sources.len() - k,
    {
        let ghost prev = scripts@;
        let e = explain_bootstrap_script(sources[k].as_str());
        scripts.push(e);
        assert(why_view(scripts@) =~= why_view(prev).push(e@));
        assert(strs(sources@).take(k + 1) =~= strs(sources@).take(k as int).push(sources@[k as int]@));
        assert(strs(sources@).take(k + 1).map_values(|f: Seq<char>| script_why(f)) =~= strs(sources@).take(k as int).map_values(|f: Seq<char>| script_why(f)).push(e@));
        k = k + 1;
    }
    assert(strs(sources@).take(sources.len() as int) == strs(sources@));
    let mut suggestions: Vec<WhyEntry> = Vec::new();
    let mut j: usize = 0;
    while j < runtime.suggestions.len()
        invariant
            j <= runtime.suggestions.len(),
            why_view(suggestions@) == runtime.suggestions@.take(j as int).map_values(|s: RuntimeSuggestion| suggestion_why(s.kind@, s.path@, s.reason@)),
        decreases runtime.suggestions.len() - j,
    {
        let ghost prev = suggestions@;
        let e = explain_suggestion(&runtime.suggestions[j]);
        suggestions.push(e);
        assert(why_view(suggestions@) =~= why_view(prev).push(e@));
        assert(runtime.suggestions@.take(j + 1).map_values(|s: RuntimeSuggestion| suggestion_why(s.kind@, s.path@, s.reason@)) =~= runtime.suggestions@.take(j as int).map_values(|s: RuntimeSuggestion| suggestion_why(s.kind@, s.path@, s.reason@)).push(e@));
        j = j + 1;
    }
    assert(runtime.suggestions@.take(runtime.suggestions.len() as int) == runtime.suggestions@);
    let profile = match &manifest.profile {
        Some(p) => Some(p.clone()),
        None => manifest.provenance.profile.clone(),
    };
    RuntimeWhy {
        env_name: runtime.env_name.clone(),
        python_version: runtime.python_version.clone(),
        profile,
        requirements,
        components,
        required_directories: explain_all_paths("directory", &manifest.required_directories),
        required_files: explain_all_paths("file", &manifest.required_files),
        bootstrap_scripts: scripts,
        suggestions,
    }
}

} // verus!
