//! The runtime description `robo init` builds: the profile it starts from,
//! and what inference and the command line add to it.
use vstd::prelude::*;
use crate::init::manifest::{find_component, find_profile, Manifest};
use crate::search::{lemma_lex_irreflexive, lemma_lex_total, lemma_lex_transitive, lex_lt};
use crate::text::{
    chars_of, clone_strings, contains, is_prefix, lower, non_empty, split, str_eq, string_of, strs, trim, views, Sep,
};

verus! {

/// Why a component is in the runtime.
#[derive(Clone)]
pub struct ComponentProvenance {
    pub name: String,
    pub source: String,
    pub reason: String,
}

impl View for ComponentProvenance {
    type V = (Seq<char>, Seq<char>, Seq<char>);

    open spec fn view(&self) -> Self::V {
        (self.name@, self.source@, self.reason@)
    }
}

#[derive(Clone)]
pub struct RuntimeRequirement {
    pub id: String,
}

/// A path the runtime could be given.
#[derive(Clone)]
pub struct InferenceSuggestion {
    pub kind: String,
    pub path: String,
    pub reason: String,
}

impl View for InferenceSuggestion {
    type V = (Seq<char>, Seq<char>, Seq<char>);

    open spec fn view(&self) -> Self::V {
        (self.kind@, self.path@, self.reason@)
    }
}

/// A component the evidence points to but that is left for the user to add.
#[derive(Clone)]
pub struct ComponentSuggestion {
    pub name: String,
    pub evidence: String,
    pub reason: String,
}

impl View for ComponentSuggestion {
    type V = (Seq<char>, Seq<char>, Seq<char>);

    open spec fn view(&self) -> Self::V {
        (self.name@, self.evidence@, self.reason@)
    }
}

pub type Triple = (Seq<char>, Seq<char>, Seq<char>);

#[derive(Clone)]
pub struct ProjectSpec {
    pub profile_name: String,
    pub env_name: String,
    pub description: String,
    pub requirements: Vec<RuntimeRequirement>,
    pub components: Vec<String>,
    pub cuda_wheel_version: Option<String>,
    pub python_version: String,
    pub supported_systems: Vec<String>,
    pub workspace_root: String,
    pub required_dirs: Vec<String>,
    pub required_files: Vec<String>,
    pub source_scripts: Vec<String>,
    pub env: Vec<String>,
    pub probe_notes: Vec<String>,
    pub component_provenance: Vec<ComponentProvenance>,
    pub suggestions: Vec<InferenceSuggestion>,
    pub component_suggestions: Vec<ComponentSuggestion>,
}

pub open spec fn ids(r: Seq<RuntimeRequirement>) -> Seq<Seq<char>> {
    r.map_values(|x: RuntimeRequirement| x.id@)
}

pub open spec fn provenance_view(p: Seq<ComponentProvenance>) -> Seq<Triple> {
    p.map_values(|x: ComponentProvenance| x@)
}

pub open spec fn suggestion_view(p: Seq<InferenceSuggestion>) -> Seq<Triple> {
    p.map_values(|x: InferenceSuggestion| x@)
}

pub open spec fn component_suggestion_view(p: Seq<ComponentSuggestion>) -> Seq<Triple> {
    p.map_values(|x: ComponentSuggestion| x@)
}

/// `x` added at the end unless it is already there.
pub open spec fn push_new(s: Seq<Seq<char>>, x: Seq<char>) -> Seq<Seq<char>> {
    if s.contains(x) {
        s
    } else {
        s.push(x)
    }
}

pub fn push_unique(items: &mut Vec<String>, value: &str)
    ensures
        strs(final(items)@) == push_new(strs(old(items)@), value@),
{
    let ghost start = strs(items@);
    let mut i: usize = 0;
    let mut found = false;
    while i < items.len()
        invariant
            i <= items.len(),
            start == strs(items@),
            found ==> start.contains(value@),
            !found ==> forall|j: int| 0 <= j < i ==> start[j] != value@,
        decreases items.len() - i,
    {
        if str_eq(items[i].as_str(), value) {
            assert(start[i as int] == value@);
            found = true;
        }
        i = i + 1;
    }
    if !found {
        items.push(value.to_owned());
        assert(strs(items@) =~= start.push(value@));
    }
}

/// The comma-separated items of a list, trimmed, empty ones dropped.
pub open spec fn list_items(text: Seq<char>) -> Seq<Seq<char>> {
    non_empty(split(text, Sep::Char(',')).map_values(|p: Seq<char>| trim(p, Sep::Whitespace)))
}

pub fn parse_list(text: &str) -> (r: Vec<String>)
    ensures
        strs(r@) == list_items(text@),
{
    let pieces = crate::text::split_str(&chars_of(text), ',');
    let ghost pv = views(pieces@);
    let mut trimmed: Vec<Vec<char>> = Vec::new();
    let mut i: usize = 0;
    while i < pieces.len()
        invariant
            i <= pieces.len(),
            pv == views(pieces@),
            views(trimmed@) == pv.take(i as int).map_values(|p: Seq<char>| trim(p, Sep::Whitespace)),
        decreases pieces.len() - i,
    {
        let t = crate::text::trim_ws(&pieces[i]);
        proof {
            crate::text::lemma_views_push(trimmed@, t);
        }
        trimmed.push(t);
        assert(pv.take(i + 1).map_values(|p: Seq<char>| trim(p, Sep::Whitespace)) =~= pv.take(
            i as int,
        ).map_values(|p: Seq<char>| trim(p, Sep::Whitespace)).push(trim(pv[i as int], Sep::Whitespace)));
        i = i + 1;
    }
    assert(pv.take(pieces.len() as int) == pv);
    let kept = crate::text::keep_non_empty(trimmed);
    let mut out: Vec<String> = Vec::new();
    let mut k: usize = 0;
    while k < kept.len()
        invariant
            k <= kept.len(),
            strs(out@) == views(kept@).take(k as int),
        decreases kept.len() - k,
    {
        out.push(string_of(&kept[k]));
        assert(views(kept@).take(k + 1) == views(kept@).take(k as int).push(kept@[k as int]@));
        assert(strs(out@) =~= views(kept@).take(k + 1));
        k = k + 1;
    }
    assert(views(kept@).take(kept.len() as int) == views(kept@));
    out
}

/// Where an inference note says a choice came from.
pub open spec fn source_of(note: Seq<char>) -> Seq<char> {
    let l = lower(note);
    if contains(l, "pyproject.toml"@) || contains(l, "wheels"@) || contains(l, "packages"@)
        || contains(l, "workflows"@) {
        "pyproject inference"@
    } else if contains(l, "workspace"@) || contains(l, "bootstrap script"@) {
        "workspace inference"@
    } else {
        "inference"@
    }
}

pub fn inference_source(note: &str) -> (r: &'static str)
    ensures
        r@ == source_of(note@),
{
    let l = crate::text::lowercase(&chars_of(note));
    if crate::text::contains_str(&l, "pyproject.toml") || crate::text::contains_str(&l, "wheels")
        || crate::text::contains_str(&l, "packages") || crate::text::contains_str(&l, "workflows") {
        "pyproject inference"
    } else if crate::text::contains_str(&l, "workspace") || crate::text::contains_str(
        &l,
        "bootstrap script",
    ) {
        "workspace inference"
    } else {
        "inference"
    }
}

/// Whether some provenance entry is for the component.
pub open spec fn has_provenance(p: Seq<Triple>, name: Seq<char>) -> bool {
    exists|i: int| 0 <= i < p.len() && #[trigger] p[i].0 == name
}

pub open spec fn with_provenance(p: Seq<Triple>, entry: Triple) -> Seq<Triple> {
    if has_provenance(p, entry.0) {
        p
    } else {
        p.push(entry)
    }
}

fn has_provenance_exec(p: &Vec<ComponentProvenance>, name: &str) -> (r: bool)
    ensures
        r == has_provenance(provenance_view(p@), name@),
{
    let mut i: usize = 0;
    while i < p.len()
        invariant
            i <= p.len(),
            forall|j: int| 0 <= j < i ==> #[trigger] provenance_view(p@)[j].0 != name@,
        decreases p.len() - i,
    {
        if str_eq(p[i].name.as_str(), name) {
            assert(provenance_view(p@)[i as int].0 == name@);
            return true;
        }
        i = i + 1;
    }
    false
}

fn contains_string(items: &Vec<String>, value: &str) -> (r: bool)
    ensures
        r == strs(items@).contains(value@),
{
    let mut i: usize = 0;
    while i < items.len()
        invariant
            i <= items.len(),
            forall|j: int| 0 <= j < i ==> strs(items@)[j] != value@,
        decreases items.len() - i,
    {
        if str_eq(items[i].as_str(), value) {
            assert(strs(items@)[i as int] == value@);
            return true;
        }
        i = i + 1;
    }
    false
}

/// The components that provide a requirement, in manifest order; host
/// requirements are met by the host, not by a component.
pub open spec fn providers(entries: Seq<(String, crate::init::manifest::Component)>, requirement: Seq<char>) -> Seq<Seq<char>>
    decreases entries.len(),
{
    if entries.len() == 0 {
        Seq::empty()
    } else {
        let prev = providers(entries.drop_last(), requirement);
        if strs(entries.last().1.provides@).contains(requirement) {
            prev.push(entries.last().0@)
        } else {
            prev
        }
    }
}

pub open spec fn providers_of(m: Manifest, requirement: Seq<char>) -> Seq<Seq<char>> {
    if is_prefix("host."@, requirement) {
        Seq::empty()
    } else {
        providers(m.components@, requirement)
    }
}

pub fn providers_for(manifest: &Manifest, requirement: &str) -> (r: Vec<String>)
    ensures
        strs(r@) == providers_of(*manifest, requirement@),
{
    let mut out: Vec<String> = Vec::new();
    if crate::text::starts_with_str(&chars_of(requirement), "host.") {
        assert(strs(out@) =~= Seq::<Seq<char>>::empty());
        return out;
    }
    let mut i: usize = 0;
    while i < manifest.components.len()
        invariant
            i <= manifest.components.len(),
            strs(out@) == providers(manifest.components@.take(i as int), requirement@),
        decreases manifest.components.len() - i,
    {
        assert(manifest.components@.take(i + 1).drop_last() == manifest.components@.take(i as int));
        assert(manifest.components@.take(i + 1).last() == manifest.components@[i as int]);
        if contains_string(&manifest.components[i].1.provides, requirement) {
            let ghost before = strs(out@);
            out.push(manifest.components[i].0.clone());
            assert(strs(out@) =~= before.push(manifest.components@[i as int].0@));
        }
        i = i + 1;
    }
    assert(manifest.components@.take(manifest.components.len() as int) == manifest.components@);
    out
}

/// A runtime description as text.
#[verifier::ext_equal]
pub struct SpecView {
    pub profile_name: Seq<char>,
    pub env_name: Seq<char>,
    pub description: Seq<char>,
    pub requirements: Seq<Seq<char>>,
    pub components: Seq<Seq<char>>,
    pub cuda_wheel_version: Option<Seq<char>>,
    pub python_version: Seq<char>,
    pub supported_systems: Seq<Seq<char>>,
    pub workspace_root: Seq<char>,
    pub required_dirs: Seq<Seq<char>>,
    pub required_files: Seq<Seq<char>>,
    pub source_scripts: Seq<Seq<char>>,
    pub env: Seq<Seq<char>>,
    pub probe_notes: Seq<Seq<char>>,
    pub component_provenance: Seq<Triple>,
    pub suggestions: Seq<Triple>,
    pub component_suggestions: Seq<Triple>,
}

impl View for ProjectSpec {
    type V = SpecView;

    open spec fn view(&self) -> SpecView {
        SpecView {
            profile_name: self.profile_name@,
            env_name: self.env_name@,
            description: self.description@,
            requirements: ids(self.requirements@),
            components: strs(self.components@),
            cuda_wheel_version: crate::text::opt_str(self.cuda_wheel_version),
            python_version: self.python_version@,
            supported_systems: strs(self.supported_systems@),
            workspace_root: self.workspace_root@,
            required_dirs: strs(self.required_dirs@),
            required_files: strs(self.required_files@),
            source_scripts: strs(self.source_scripts@),
            env: strs(self.env@),
            probe_notes: strs(self.probe_notes@),
            component_provenance: provenance_view(self.component_provenance@),
            suggestions: suggestion_view(self.suggestions@),
            component_suggestions: component_suggestion_view(self.component_suggestions@),
        }
    }
}

/// A component added for a reason: listed once, its reason noted when it
/// is new, and its provenance recorded unless it has one.
pub open spec fn with_component(s: SpecView, component: Seq<char>, source: Seq<char>, reason: Seq<char>) -> SpecView {
    SpecView {
        components: push_new(s.components, component),
        probe_notes: if s.components.contains(component) {
            s.probe_notes
        } else {
            s.probe_notes.push(reason)
        },
        component_provenance: with_provenance(s.component_provenance, (component, source, reason)),
        ..s
    }
}

/// The providers of a requirement added as components, each with its
/// provenance (when it has none yet).
pub open spec fn with_providers(s: SpecView, ps: Seq<Seq<char>>, id: Seq<char>, source: Seq<char>, reason: Seq<char>) -> SpecView
    decreases ps.len(),
{
    if ps.len() == 0 {
        s
    } else {
        let prev = with_providers(s, ps.drop_last(), id, source, reason);
        let p = ps.last();
        SpecView {
            components: push_new(prev.components, p),
            component_provenance: with_provenance(
                prev.component_provenance,
                (p, source, "provides `"@ + id + "`: "@ + reason),
            ),
            ..prev
        }
    }
}

/// A requirement added: listed once, its providers added, its reason noted
/// once.
pub open spec fn with_requirement(s: SpecView, m: Manifest, id: Seq<char>, source: Seq<char>, reason: Seq<char>) -> SpecView {
    let r = with_providers(
        SpecView { requirements: push_new(s.requirements, id), ..s },
        providers_of(m, id),
        id,
        source,
        reason,
    );
    SpecView { probe_notes: push_new(r.probe_notes, reason), ..r }
}

pub open spec fn has_suggestion(p: Seq<Triple>, kind: Seq<char>, path: Seq<char>) -> bool {
    exists|i: int| 0 <= i < p.len() && #[trigger] p[i].0 == kind && p[i].1 == path
}

pub open spec fn has_component_suggestion(p: Seq<Triple>, name: Seq<char>, evidence: Seq<char>) -> bool {
    exists|i: int| 0 <= i < p.len() && #[trigger] p[i].0 == name && p[i].1 == evidence
}

impl ProjectSpec {
    pub fn add_component_with_source(&mut self, component: &str, source: &str, reason: String)
        ensures
            final(self)@ == with_component(old(self)@, component@, source@, reason@),
    {
        let ghost start = self@;
        if !contains_string(&self.components, component) {
            self.components.push(component.to_owned());
            self.probe_notes.push(reason.clone());
            assert(strs(self.components@) =~= start.components.push(component@));
            assert(strs(self.probe_notes@) =~= start.probe_notes.push(reason@));
        }
        if !has_provenance_exec(&self.component_provenance, component) {
            let ghost before = provenance_view(self.component_provenance@);
            self.component_provenance.push(
                ComponentProvenance { name: component.to_owned(), source: source.to_owned(), reason },
            );
            assert(provenance_view(self.component_provenance@) =~= before.push(
                (component@, source@, reason@),
            ));
        }
        assert(self@ =~= with_component(start, component@, source@, reason@));
    }

    pub fn add_component(&mut self, component: &str, note: String)
        ensures
            final(self)@ == with_component(old(self)@, component@, source_of(note@), note@),
    {
        let source = inference_source(note.as_str());
        self.add_component_with_source(component, source, note);
    }

    pub fn add_requirement(&mut self, manifest: &Manifest, id: &str, source: &str, reason: String)
        ensures
            final(self)@ == with_requirement(old(self)@, *manifest, id@, source@, reason@),
    {
        let ghost start = self@;
        let mut found = false;
        let mut i: usize = 0;
        while i < self.requirements.len()
            invariant
                i <= self.requirements.len(),
                found ==> ids(self.requirements@).contains(id@),
                !found ==> forall|j: int| 0 <= j < i ==> ids(self.requirements@)[j] != id@,
            decreases self.requirements.len() - i,
        {
            if str_eq(self.requirements[i].id.as_str(), id) {
                assert(ids(self.requirements@)[i as int] == id@);
                found = true;
            }
            i = i + 1;
        }
        if !found {
            let ghost before = ids(self.requirements@);
            self.requirements.push(RuntimeRequirement { id: id.to_owned() });
            assert(ids(self.requirements@) =~= before.push(id@));
        }
        let ghost base = SpecView { requirements: push_new(start.requirements, id@), ..start };
        assert(self@ =~= base);
        let ps = providers_for(manifest, id);
        let mut k: usize = 0;
        while k < ps.len()
            invariant
                k <= ps.len(),
                strs(ps@) == providers_of(*manifest, id@),
                self@ == with_providers(base, strs(ps@).take(k as int), id@, source@, reason@),
            decreases ps.len() - k,
        {
            let p = ps[k].as_str();
            let ghost before = self@;
            assert(strs(ps@).take(k + 1).drop_last() == strs(ps@).take(k as int));
            assert(strs(ps@).take(k + 1).last() == p@);
            if !contains_string(&self.components, p) {
                self.components.push(p.to_owned());
                assert(strs(self.components@) =~= before.components.push(p@));
            }
            if !has_provenance_exec(&self.component_provenance, p) {
                let text = crate::text::concat4("provides `", id, "`: ", reason.as_str());
                let ghost pv = provenance_view(self.component_provenance@);
                self.component_provenance.push(
                    ComponentProvenance { name: p.to_owned(), source: source.to_owned(), reason: text },
                );
                assert(provenance_view(self.component_provenance@) =~= pv.push(
                    (p@, source@, "provides `"@ + id@ + "`: "@ + reason@),
                ));
            }
            assert(self@ =~= with_providers(base, strs(ps@).take(k + 1), id@, source@, reason@));
            k = k + 1;
        }
        assert(strs(ps@).take(ps.len() as int) == strs(ps@));
        let ghost with_ps = self@;
        push_unique(&mut self.probe_notes, reason.as_str());
        assert(self@ =~= SpecView { probe_notes: push_new(with_ps.probe_notes, reason@), ..with_ps });
    }

    pub fn add_required_dir(&mut self, path: &str)
        ensures
            final(self)@ == (SpecView {
                required_dirs: push_new(old(self)@.required_dirs, path@),
                ..old(self)@
            }),
    {
        let ghost start = self@;
        push_unique(&mut self.required_dirs, path);
        assert(self@ =~= SpecView { required_dirs: push_new(start.required_dirs, path@), ..start });
    }

    pub fn add_required_file(&mut self, path: &str)
        ensures
            final(self)@ == (SpecView {
                required_files: push_new(old(self)@.required_files, path@),
                ..old(self)@
            }),
    {
        let ghost start = self@;
        push_unique(&mut self.required_files, path);
        assert(self@ =~= SpecView { required_files: push_new(start.required_files, path@), ..start });
    }

    pub fn add_source_script(&mut self, path: &str)
        ensures
            final(self)@ == (SpecView {
                source_scripts: push_new(old(self)@.source_scripts, path@),
                ..old(self)@
            }),
    {
        let ghost start = self@;
        push_unique(&mut self.source_scripts, path);
        assert(self@ =~= SpecView { source_scripts: push_new(start.source_scripts, path@), ..start });
    }

    /// A suggested path, unless one of that kind and path is there.
    pub fn add_suggestion(&mut self, kind: &str, path: &str, reason: String)
        ensures
            final(self)@ == (SpecView {
                suggestions: if has_suggestion(old(self)@.suggestions, kind@, path@) {
                    old(self)@.suggestions
                } else {
                    old(self)@.suggestions.push((kind@, path@, reason@))
                },
                ..old(self)@
            }),
    {
        let ghost start = self@;
        let mut i: usize = 0;
        while i < self.suggestions.len()
            invariant
                i <= self.suggestions.len(),
                start == self@,
                forall|j: int|
                    0 <= j < i ==> !(#[trigger] start.suggestions[j].0 == kind@
                        && start.suggestions[j].1 == path@),
            decreases self.suggestions.len() - i,
        {
            if str_eq(self.suggestions[i].kind.as_str(), kind) && str_eq(
                self.suggestions[i].path.as_str(),
                path,
            ) {
                assert(start.suggestions[i as int].0 == kind@ && start.suggestions[i as int].1
                    == path@);
                return;
            }
            i = i + 1;
        }
        self.suggestions.push(
            InferenceSuggestion { kind: kind.to_owned(), path: path.to_owned(), reason },
        );
        assert(suggestion_view(self.suggestions@) =~= start.suggestions.push(
            (kind@, path@, reason@),
        ));
        assert(self@ =~= SpecView {
            suggestions: start.suggestions.push((kind@, path@, reason@)),
            ..start
        });
    }

    /// A component suggested by evidence, unless the component is in the
    /// runtime or was suggested by the same evidence.
    pub fn add_component_suggestion(&mut self, component: &str, evidence: &str, reason: String)
        ensures
            final(self)@ == (SpecView {
                component_suggestions: if old(self)@.components.contains(component@)
                    || has_component_suggestion(
                    old(self)@.component_suggestions,
                    component@,
                    evidence@,
                ) {
                    old(self)@.component_suggestions
                } else {
                    old(self)@.component_suggestions.push((component@, evidence@, reason@))
                },
                ..old(self)@
            }),
    {
        let ghost start = self@;
        if contains_string(&self.components, component) {
            return;
        }
        let mut i: usize = 0;
        while i < self.component_suggestions.len()
            invariant
                i <= self.component_suggestions.len(),
                start == self@,
                forall|j: int|
                    0 <= j < i ==> !(#[trigger] start.component_suggestions[j].0 == component@
                        && start.component_suggestions[j].1 == evidence@),
            decreases self.component_suggestions.len() - i,
        {
            if str_eq(self.component_suggestions[i].name.as_str(), component) && str_eq(
                self.component_suggestions[i].evidence.as_str(),
                evidence,
            ) {
                assert(start.component_suggestions[i as int].0 == component@
                    && start.component_suggestions[i as int].1 == evidence@);
                return;
            }
            i = i + 1;
        }
        self.component_suggestions.push(
            ComponentSuggestion {
                name: component.to_owned(),
                evidence: evidence.to_owned(),
                reason,
            },
        );
        assert(component_suggestion_view(self.component_suggestions@)
            =~= start.component_suggestions.push((component@, evidence@, reason@)));
        assert(self@ =~= SpecView {
            component_suggestions: start.component_suggestions.push(
                (component@, evidence@, reason@),
            ),
            ..start
        });
    }
}

// ---------------------------------------------------------------------
// Starting from a profile
// ---------------------------------------------------------------------

/// The first component entry of that name.
pub open spec fn component_of(entries: Seq<(String, crate::init::manifest::Component)>, name: Seq<char>) -> Option<crate::init::manifest::Component>
    decreases entries.len(),
{
    if entries.len() == 0 {
        None
    } else if entries[0].0@ == name {
        Some(entries[0].1)
    } else {
        component_of(entries.skip(1), name)
    }
}

fn lookup_component<'a>(m: &'a Manifest, name: &str) -> (r: Option<&'a crate::init::manifest::Component>)
    ensures
        match r {
            Some(c) => component_of(m.components@, name@) == Some(*c),
            None => component_of(m.components@, name@) is None,
        },
{
    let mut i: usize = 0;
    assert(m.components@.skip(0) == m.components@);
    while i < m.components.len()
        invariant
            i <= m.components.len(),
            component_of(m.components@, name@) == component_of(m.components@.skip(i as int), name@),
        decreases m.components.len() - i,
    {
        assert(m.components@.skip(i as int)[0] == m.components@[i as int]);
        assert(m.components@.skip(i as int).skip(1) == m.components@.skip(i + 1));
        if str_eq(m.components[i].0.as_str(), name) {
            return Some(&m.components[i].1);
        }
        i = i + 1;
    }
    None
}

/// The requirements the profile's components provide, in order.
pub open spec fn profile_requirements(m: Manifest, components: Seq<Seq<char>>) -> Seq<Seq<char>>
    decreases components.len(),
{
    if components.len() == 0 {
        Seq::empty()
    } else {
        profile_requirements(m, components.drop_last()) + match component_of(
            m.components@,
            components.last(),
        ) {
            Some(c) => strs(c.provides@),
            None => Seq::empty(),
        }
    }
}

/// The reason recorded for a component the profile selected.
pub open spec fn profile_reason(name: Seq<char>) -> Seq<char> {
    "selected by the `"@ + name + "` profile"@
}

/// The runtime a profile describes before anything is inferred.
pub open spec fn profile_spec(m: Manifest, name: Seq<char>, p: crate::init::manifest::Profile) -> SpecView {
    SpecView {
        profile_name: name,
        env_name: "project"@,
        description: p.description@,
        requirements: profile_requirements(m, strs(p.components@)),
        components: strs(p.components@),
        cuda_wheel_version: None,
        python_version: p.python_version@,
        supported_systems: strs(p.supported_systems@),
        workspace_root: p.workspace_root@,
        required_dirs: Seq::empty(),
        required_files: Seq::empty(),
        source_scripts: Seq::empty(),
        env: Seq::empty(),
        probe_notes: Seq::empty(),
        component_provenance: strs(p.components@).map_values(
            |c: Seq<char>| (c, "profile"@, profile_reason(name)),
        ),
        suggestions: Seq::empty(),
        component_suggestions: Seq::empty(),
    }
}

impl ProjectSpec {
    pub fn from_profile(name: &str, manifest: &Manifest) -> (r: Result<Self, String>)
        ensures
            match r {
                Ok(s) => exists|i: int|
                    0 <= i < manifest.profiles.len() && manifest.profiles@[i].0@ == name@ && (
                    forall|j: int| 0 <= j < i ==> #[trigger] manifest.profiles@[j].0@ != name@)
                        && s@ == profile_spec(*manifest, name@, manifest.profiles@[i].1),
                Err(e) => (forall|i: int|
                    0 <= i < manifest.profiles.len() ==> #[trigger] manifest.profiles@[i].0@
                        != name@) && e@ == "unknown profile: "@ + name@,
            },
    {
        let profile = match find_profile(manifest, name) {
            Some(p) => p,
            None => {
                return Err(crate::text::concat("unknown profile: ", name));
            },
        };
        let ghost comps = strs(profile.components@);
        let mut requirements: Vec<RuntimeRequirement> = Vec::new();
        let mut i: usize = 0;
        while i < profile.components.len()
            invariant
                i <= profile.components.len(),
                comps == strs(profile.components@),
                ids(requirements@) == profile_requirements(*manifest, comps.take(i as int)),
            decreases profile.components.len() - i,
        {
            assert(comps.take(i + 1).drop_last() == comps.take(i as int));
            assert(comps.take(i + 1).last() == profile.components@[i as int]@);
            match lookup_component(manifest, profile.components[i].as_str()) {
                Some(c) => {
                    let ghost before = ids(requirements@);
                    let mut k: usize = 0;
                    while k < c.provides.len()
                        invariant
                            k <= c.provides.len(),
                            ids(requirements@) == before + strs(c.provides@).take(k as int),
                        decreases c.provides.len() - k,
                    {
                        let ghost prev = requirements@;
                        let item = RuntimeRequirement { id: c.provides[k].clone() };
                        assert(item.id@ == strs(c.provides@)[k as int]);
                        requirements.push(item);
                        assert(ids(requirements@) =~= ids(prev).push(item.id@));
                        assert(strs(c.provides@).take(k + 1) =~= strs(c.provides@).take(k as int).push(
                            strs(c.provides@)[k as int],
                        ));
                        assert(ids(requirements@) =~= before + strs(c.provides@).take(k + 1));
                        k = k + 1;
                    }
                    assert(strs(c.provides@).take(c.provides.len() as int) == strs(c.provides@));
                },
                None => {
                    assert(ids(requirements@) =~= ids(requirements@) + Seq::<Seq<char>>::empty());
                },
            }
            i = i + 1;
        }
        assert(comps.take(profile.components.len() as int) == comps);
        let reason = crate::text::concat3("selected by the `", name, "` profile");
        let mut provenance: Vec<ComponentProvenance> = Vec::new();
        let mut k: usize = 0;
        while k < profile.components.len()
            invariant
                k <= profile.components.len(),
                comps == strs(profile.components@),
                reason@ == profile_reason(name@),
                provenance_view(provenance@) == comps.take(k as int).map_values(
                    |c: Seq<char>| (c, "profile"@, profile_reason(name@)),
                ),
            decreases profile.components.len() - k,
        {
            let ghost prev = provenance@;
            let item = ComponentProvenance {
                name: profile.components[k].clone(),
                source: "profile".to_owned(),
                reason: reason.clone(),
            };
            assert(item@ == (comps[k as int], "profile"@, profile_reason(name@)));
            provenance.push(item);
            assert(provenance_view(provenance@) =~= provenance_view(prev).push(item@));
            assert(comps.take(k + 1) =~= comps.take(k as int).push(comps[k as int]));
            assert(comps.take(k + 1).map_values(|c: Seq<char>| (c, "profile"@, profile_reason(name@)))
                =~= comps.take(k as int).map_values(
                |c: Seq<char>| (c, "profile"@, profile_reason(name@)),
            ).push((comps[k as int], "profile"@, profile_reason(name@))));
            k = k + 1;
        }
        assert(comps.take(profile.components.len() as int) == comps);
        let s = ProjectSpec {
            profile_name: name.to_owned(),
            env_name: "project".to_owned(),
            description: profile.description.clone(),
            requirements,
            components: clone_strings(&profile.components),
            cuda_wheel_version: None,
            python_version: profile.python_version.clone(),
            supported_systems: clone_strings(&profile.supported_systems),
            workspace_root: profile.workspace_root.clone(),
            required_dirs: Vec::new(),
            required_files: Vec::new(),
            source_scripts: Vec::new(),
            env: Vec::new(),
            probe_notes: Vec::new(),
            component_provenance: provenance,
            suggestions: Vec::new(),
            component_suggestions: Vec::new(),
        };
        proof {
            let i = choose|i: int|
                0 <= i < manifest.profiles.len() && manifest.profiles@[i].0@ == name@ && *profile
                    == manifest.profiles@[i].1 && forall|j: int|
                    0 <= j < i ==> #[trigger] manifest.profiles@[j].0@ != name@;
            assert(s@ =~= profile_spec(*manifest, name@, manifest.profiles@[i].1));
        }
        Ok(s)
    }
}

// ---------------------------------------------------------------------
// Applying what probing found
// ---------------------------------------------------------------------

pub open spec fn with_probe_components(s: SpecView, cs: Seq<(Seq<char>, Seq<char>)>) -> SpecView
    decreases cs.len(),
{
    if cs.len() == 0 {
        s
    } else {
        let (name, note) = cs.last();
        with_component(with_probe_components(s, cs.drop_last()), name, source_of(note), note)
    }
}

pub open spec fn with_probe_requirements(s: SpecView, m: Manifest, rs: Seq<(Seq<char>, Seq<char>)>) -> SpecView
    decreases rs.len(),
{
    if rs.len() == 0 {
        s
    } else {
        let (id, note) = rs.last();
        with_requirement(with_probe_requirements(s, m, rs.drop_last()), m, id, source_of(note), note)
    }
}

pub open spec fn with_dirs(s: SpecView, dirs: Seq<Seq<char>>) -> SpecView
    decreases dirs.len(),
{
    if dirs.len() == 0 {
        s
    } else {
        let prev = with_dirs(s, dirs.drop_last());
        SpecView { required_dirs: push_new(prev.required_dirs, dirs.last()), ..prev }
    }
}

pub open spec fn with_suggestions(s: SpecView, ss: Seq<Triple>) -> SpecView
    decreases ss.len(),
{
    if ss.len() == 0 {
        s
    } else {
        let prev = with_suggestions(s, ss.drop_last());
        let (kind, path, reason) = ss.last();
        SpecView {
            suggestions: if has_suggestion(prev.suggestions, kind, path) {
                prev.suggestions
            } else {
                prev.suggestions.push((kind, path, reason))
            },
            ..prev
        }
    }
}

pub open spec fn with_component_suggestions(s: SpecView, ss: Seq<Triple>) -> SpecView
    decreases ss.len(),
{
    if ss.len() == 0 {
        s
    } else {
        let prev = with_component_suggestions(s, ss.drop_last());
        let (name, evidence, reason) = ss.last();
        SpecView {
            component_suggestions: if prev.components.contains(name) || has_component_suggestion(
                prev.component_suggestions,
                name,
                evidence,
            ) {
                prev.component_suggestions
            } else {
                prev.component_suggestions.push((name, evidence, reason))
            },
            ..prev
        }
    }
}

/// What probing found, applied: the project name only replaces the
/// placeholder name, a probed Python or CUDA version replaces the
/// profile's (with its note), then components, requirements, directories,
/// notes and suggestions are added in that order.
pub open spec fn with_probe(s: SpecView, m: Manifest, p: crate::init::probe::ProbeView) -> SpecView {
    let s1 = SpecView {
        env_name: if s.env_name == "project"@ && p.env_name is Some {
            p.env_name->0
        } else {
            s.env_name
        },
        ..s
    };
    let s2 = match p.python_version {
        Some((value, note)) => SpecView {
            python_version: value,
            probe_notes: s1.probe_notes.push(note),
            ..s1
        },
        None => s1,
    };
    let s3 = match p.cuda_wheel_version {
        Some((value, note)) => SpecView {
            cuda_wheel_version: Some(value),
            probe_notes: s2.probe_notes.push(note),
            ..s2
        },
        None => s2,
    };
    let s4 = with_dirs(
        with_probe_requirements(with_probe_components(s3, p.components), m, p.requirements),
        p.required_dirs,
    );
    let s5 = SpecView { probe_notes: s4.probe_notes + p.notes, ..s4 };
    with_component_suggestions(with_suggestions(s5, p.suggestions), p.component_suggestions)
}

impl ProjectSpec {
    pub fn apply_probe(&mut self, manifest: &Manifest, probe: crate::init::probe::ProbeResult)
        ensures
            final(self)@ == with_probe(old(self)@, *manifest, probe@),
    {
        let ghost start = self@;
        let ghost pv = probe@;
        if crate::text::eq_str(&chars_of(self.env_name.as_str()), "project") {
            match &probe.env_name {
                Some(name) => {
                    self.env_name = name.clone();
                },
                None => {},
            }
        }
        match &probe.python_version {
            Some(python) => {
                self.python_version = python.value.clone();
                self.probe_notes.push(python.note.clone());
            },
            None => {},
        }
        match &probe.cuda_wheel_version {
            Some(cuda) => {
                self.cuda_wheel_version = Some(cuda.value.clone());
                self.probe_notes.push(cuda.note.clone());
            },
            None => {},
        }
        let ghost s3 = self@;
        proof {
            let s1 = SpecView {
                env_name: if start.env_name == "project"@ && pv.env_name is Some {
                    pv.env_name->0
                } else {
                    start.env_name
                },
                ..start
            };
            let s2 = match pv.python_version {
                Some((value, note)) => SpecView {
                    python_version: value,
                    probe_notes: s1.probe_notes.push(note),
                    ..s1
                },
                None => s1,
            };
            let s3e = match pv.cuda_wheel_version {
                Some((value, note)) => SpecView {
                    cuda_wheel_version: Some(value),
                    probe_notes: s2.probe_notes.push(note),
                    ..s2
                },
                None => s2,
            };
            assert(s3 =~= s3e);
        }
        let mut i: usize = 0;
        while i < probe.components.len()
            invariant
                i <= probe.components.len(),
                pv == probe@,
                self@ == with_probe_components(s3, pv.components.take(i as int)),
            decreases probe.components.len() - i,
        {
            assert(pv.components.take(i + 1).drop_last() == pv.components.take(i as int));
            assert(pv.components.take(i + 1).last() == pv.components[i as int]);
            let c = &probe.components[i];
            self.add_component(c.name.as_str(), c.note.clone());
            i = i + 1;
        }
        assert(pv.components.take(probe.components.len() as int) == pv.components);
        let ghost s_comp = self@;
        let mut k: usize = 0;
        while k < probe.requirements.len()
            invariant
                k <= probe.requirements.len(),
                pv == probe@,
                self@ == with_probe_requirements(s_comp, *manifest, pv.requirements.take(k as int)),
            decreases probe.requirements.len() - k,
        {
            assert(pv.requirements.take(k + 1).drop_last() == pv.requirements.take(k as int));
            assert(pv.requirements.take(k + 1).last() == pv.requirements[k as int]);
            let r = &probe.requirements[k];
            let source = inference_source(r.note.as_str());
            self.add_requirement(manifest, r.id.as_str(), source, r.note.clone());
            k = k + 1;
        }
        assert(pv.requirements.take(probe.requirements.len() as int) == pv.requirements);
        let ghost s_req = self@;
        let mut d: usize = 0;
        while d < probe.required_dirs.len()
            invariant
                d <= probe.required_dirs.len(),
                pv == probe@,
                self@ == with_dirs(s_req, pv.required_dirs.take(d as int)),
            decreases probe.required_dirs.len() - d,
        {
            assert(pv.required_dirs.take(d + 1).drop_last() == pv.required_dirs.take(d as int));
            assert(pv.required_dirs.take(d + 1).last() == probe.required_dirs@[d as int]@);
            self.add_required_dir(probe.required_dirs[d].as_str());
            d = d + 1;
        }
        assert(pv.required_dirs.take(probe.required_dirs.len() as int) == pv.required_dirs);
        let ghost s4 = self@;
        let mut n: usize = 0;
        while n < probe.notes.len()
            invariant
                n <= probe.notes.len(),
                pv == probe@,
                self@ == (SpecView { probe_notes: s4.probe_notes + pv.notes.take(n as int), ..s4 }),
            decreases probe.notes.len() - n,
        {
            let ghost before = self.probe_notes@;
            let x = probe.notes[n].clone();
            self.probe_notes.push(x);
            proof {
                crate::text::lemma_strs_push(before, x);
                assert(pv.notes.take(n + 1) =~= pv.notes.take(n as int).push(x@));
            }
            assert(self@ =~= SpecView { probe_notes: s4.probe_notes + pv.notes.take(n + 1), ..s4 });
            n = n + 1;
        }
        assert(pv.notes.take(probe.notes.len() as int) == pv.notes);
        let ghost s5 = self@;
        let mut g: usize = 0;
        while g < probe.suggestions.len()
            invariant
                g <= probe.suggestions.len(),
                pv == probe@,
                self@ == with_suggestions(s5, pv.suggestions.take(g as int)),
            decreases probe.suggestions.len() - g,
        {
            assert(pv.suggestions.take(g + 1).drop_last() == pv.suggestions.take(g as int));
            assert(pv.suggestions.take(g + 1).last() == probe.suggestions@[g as int]@);
            let x = &probe.suggestions[g];
            self.add_suggestion(x.kind.as_str(), x.path.as_str(), x.reason.clone());
            g = g + 1;
        }
        assert(pv.suggestions.take(probe.suggestions.len() as int) == pv.suggestions);
        let ghost s6 = self@;
        let mut c: usize = 0;
        while c < probe.component_suggestions.len()
            invariant
                c <= probe.component_suggestions.len(),
                pv == probe@,
                self@ == with_component_suggestions(s6, pv.component_suggestions.take(c as int)),
            decreases probe.component_suggestions.len() - c,
        {
            assert(pv.component_suggestions.take(c + 1).drop_last()
                == pv.component_suggestions.take(c as int));
            assert(pv.component_suggestions.take(c + 1).last()
                == probe.component_suggestions@[c as int]@);
            let x = &probe.component_suggestions[c];
            self.add_component_suggestion(x.name.as_str(), x.evidence.as_str(), x.reason.clone());
            c = c + 1;
        }
        assert(pv.component_suggestions.take(probe.component_suggestions.len() as int)
            == pv.component_suggestions);
    }
}

// ---------------------------------------------------------------------
// Normalizing the description
// ---------------------------------------------------------------------

/// The items in order of first occurrence, each once.
pub open spec fn deduped(s: Seq<Seq<char>>) -> Seq<Seq<char>>
    decreases s.len(),
{
    if s.len() == 0 {
        Seq::empty()
    } else {
        push_new(deduped(s.drop_last()), s.last())
    }
}

pub fn dedupe(items: Vec<String>) -> (r: Vec<String>)
    ensures
        strs(r@) == deduped(strs(items@)),
{
    let ghost iv = strs(items@);
    let mut out: Vec<String> = Vec::new();
    let mut i: usize = 0;
    while i < items.len()
        invariant
            i <= items.len(),
            iv == strs(items@),
            strs(out@) == deduped(iv.take(i as int)),
        decreases items.len() - i,
    {
        assert(iv.take(i + 1).drop_last() == iv.take(i as int));
        assert(iv.take(i + 1).last() == items@[i as int]@);
        push_unique(&mut out, items[i].as_str());
        i = i + 1;
    }
    assert(iv.take(items.len() as int) == iv);
    out
}

/// The order of `(a, b, c)` triples: by `a`, then `b`, then `c`.
pub open spec fn triple_lt(x: Triple, y: Triple) -> bool {
    lex_lt(x.0, y.0) || (x.0 == y.0 && (lex_lt(x.1, y.1) || (x.1 == y.1 && lex_lt(x.2, y.2))))
}

pub proof fn lemma_triple_transitive(x: Triple, y: Triple, z: Triple)
    requires
        triple_lt(x, y),
        triple_lt(y, z),
    ensures
        triple_lt(x, z),
{
    if lex_lt(x.0, y.0) && lex_lt(y.0, z.0) {
        lemma_lex_transitive(x.0, y.0, z.0);
    }
    if x.0 == y.0 && y.0 == z.0 {
        if lex_lt(x.1, y.1) && lex_lt(y.1, z.1) {
            lemma_lex_transitive(x.1, y.1, z.1);
        }
        if x.1 == y.1 && y.1 == z.1 && lex_lt(x.2, y.2) && lex_lt(y.2, z.2) {
            lemma_lex_transitive(x.2, y.2, z.2);
        }
    }
}

pub proof fn lemma_triple_total(x: Triple, y: Triple)
    ensures
        x == y || triple_lt(x, y) || triple_lt(y, x),
{
    lemma_lex_total(x.0, y.0);
    lemma_lex_total(x.1, y.1);
    lemma_lex_total(x.2, y.2);
}

pub proof fn lemma_triple_irreflexive(x: Triple)
    ensures
        !triple_lt(x, x),
{
    lemma_lex_irreflexive(x.0);
    lemma_lex_irreflexive(x.1);
    lemma_lex_irreflexive(x.2);
}

pub proof fn lemma_triple_asymmetric(x: Triple, y: Triple)
    requires
        triple_lt(x, y),
    ensures
        !triple_lt(y, x),
{
    if triple_lt(y, x) {
        lemma_triple_transitive(x, y, x);
        lemma_triple_irreflexive(x);
    }
}

/// Ordered by the triple order, equal triples side by side.
pub open spec fn sorted_triples(v: Seq<Triple>) -> bool {
    forall|i: int, j: int| 0 <= i < j < v.len() ==> !triple_lt(#[trigger] v[j], #[trigger] v[i])
}

/// Strictly ordered: sorted, each triple once.
pub open spec fn sorted_unique_triples(v: Seq<Triple>) -> bool {
    forall|i: int, j: int| 0 <= i < j < v.len() ==> triple_lt(#[trigger] v[i], #[trigger] v[j])
}

pub type Strings3 = (String, String, String);

pub open spec fn tview(v: Seq<Strings3>) -> Seq<Triple> {
    v.map_values(|t: Strings3| (t.0@, t.1@, t.2@))
}

fn clone_triple(t: &Strings3) -> (r: Strings3)
    ensures
        r == *t,
{
    (t.0.clone(), t.1.clone(), t.2.clone())
}

fn str_triple_lt(x: &Strings3, y: &Strings3) -> (r: bool)
    ensures
        r == triple_lt((x.0@, x.1@, x.2@), (y.0@, y.1@, y.2@)),
{
    crate::search::str_lt(x.0.as_str(), y.0.as_str()) || (str_eq(x.0.as_str(), y.0.as_str()) && (
    crate::search::str_lt(x.1.as_str(), y.1.as_str()) || (str_eq(x.1.as_str(), y.1.as_str())
        && crate::search::str_lt(x.2.as_str(), y.2.as_str()))))
}

/// Sorted by the triple order, equal triples in their original order, as
/// `sort_by` with the triple comparison leaves them.
pub fn sort_triples(v: Vec<Strings3>) -> (r: Vec<Strings3>)
    ensures
        sorted_triples(tview(r@)),
        tview(r@).to_multiset() == tview(v@).to_multiset(),
{
    let mut out: Vec<Strings3> = Vec::new();
    let mut i: usize = 0;
    assert(tview(out@) =~= Seq::<Triple>::empty());
    assert(tview(v@).take(0) =~= Seq::<Triple>::empty());
    while i < v.len()
        invariant
            i <= v.len(),
            sorted_triples(tview(out@)),
            tview(out@).to_multiset() == tview(v@).take(i as int).to_multiset(),
        decreases v.len() - i,
    {
        let x = clone_triple(&v[i]);
        let ghost xv = (x.0@, x.1@, x.2@);
        let ghost before = tview(out@);
        let mut p: usize = 0;
        while p < out.len() && !str_triple_lt(&x, &out[p])
            invariant
                p <= out.len(),
                before == tview(out@),
                xv == (x.0@, x.1@, x.2@),
                forall|k: int| 0 <= k < p ==> !triple_lt(xv, #[trigger] before[k]),
            decreases out.len() - p,
        {
            assert(before[p as int] == (out@[p as int].0@, out@[p as int].1@, out@[p as int].2@));
            p = p + 1;
        }
        if p < out.len() {
            assert(before[p as int] == (out@[p as int].0@, out@[p as int].1@, out@[p as int].2@));
        }
        out.insert(p, x);
        proof {
            assert(tview(out@) =~= before.insert(p as int, xv));
            let after = tview(out@);
            assert forall|a: int, b: int| 0 <= a < b < after.len() implies !triple_lt(
                #[trigger] after[b],
                #[trigger] after[a],
            ) by {
                if b < p {
                    assert(after[a] == before[a]);
                    assert(after[b] == before[b]);
                } else if a > p {
                    assert(after[a] == before[a - 1]);
                    assert(after[b] == before[b - 1]);
                } else if a == p {
                    assert(after[a] == xv);
                    assert(after[b] == before[b - 1]);
                    assert(triple_lt(xv, before[p as int]));
                    if b - 1 > p {
                        assert(!triple_lt(before[b - 1], before[p as int]));
                    }
                    if triple_lt(before[b - 1], xv) {
                        lemma_triple_transitive(before[b - 1], xv, before[p as int]);
                        lemma_triple_irreflexive(before[p as int]);
                    }
                } else if b == p {
                    assert(after[a] == before[a]);
                    assert(after[b] == xv);
                } else {
                    assert(after[a] == before[a]);
                    assert(after[b] == before[b - 1]);
                }
            }
            vstd::seq_lib::to_multiset_insert(before, p as int, xv);
            assert(tview(v@).take(i + 1) =~= tview(v@).take(i as int).push(xv));
            vstd::seq_lib::to_multiset_build(tview(v@).take(i as int), xv);
        }
        i = i + 1;
    }
    assert(tview(v@).take(v.len() as int) == tview(v@));
    out
}

/// Sorted by the triple order with each triple once, as `sort_by` and then
/// `dedup_by` on equal triples leave them.
pub fn sort_unique_triples(v: Vec<Strings3>) -> (r: Vec<Strings3>)
    ensures
        sorted_unique_triples(tview(r@)),
        tview(r@).to_set() == tview(v@).to_set(),
{
    let mut out: Vec<Strings3> = Vec::new();
    let mut i: usize = 0;
    assert(tview(out@).to_set() =~= Set::<Triple>::empty());
    while i < v.len()
        invariant
            i <= v.len(),
            sorted_unique_triples(tview(out@)),
            tview(out@).to_set() == tview(v@).take(i as int).to_set(),
        decreases v.len() - i,
    {
        let x = clone_triple(&v[i]);
        let ghost xv = (x.0@, x.1@, x.2@);
        let ghost before = tview(out@);
        proof {
            assert(tview(v@).take(i + 1) =~= tview(v@).take(i as int).push(xv));
            tview(v@).take(i as int).lemma_push_to_set_commute(xv);
        }
        let mut p: usize = 0;
        while p < out.len() && str_triple_lt(&out[p], &x)
            invariant
                p <= out.len(),
                before == tview(out@),
                xv == (x.0@, x.1@, x.2@),
                forall|k: int| 0 <= k < p ==> triple_lt(#[trigger] before[k], xv),
            decreases out.len() - p,
        {
            assert(before[p as int] == (out@[p as int].0@, out@[p as int].1@, out@[p as int].2@));
            p = p + 1;
        }
        let mut duplicate = false;
        if p < out.len() {
            assert(before[p as int] == (out@[p as int].0@, out@[p as int].1@, out@[p as int].2@));
            proof {
                lemma_triple_total(before[p as int], xv);
            }
            if !str_triple_lt(&x, &out[p]) {
                duplicate = true;
                proof {
                    assert(before[p as int] == xv);
                    assert(before.to_set().contains(xv));
                    assert(before.to_set().insert(xv) =~= before.to_set());
                }
            }
        }
        if !duplicate {
            out.insert(p, x);
            proof {
                assert(tview(out@) =~= before.insert(p as int, xv));
                let after = tview(out@);
                assert forall|a: int, b: int| 0 <= a < b < after.len() implies triple_lt(
                    #[trigger] after[a],
                    #[trigger] after[b],
                ) by {
                    if b < p {
                        assert(after[a] == before[a]);
                        assert(after[b] == before[b]);
                    } else if a > p {
                        assert(after[a] == before[a - 1]);
                        assert(after[b] == before[b - 1]);
                    } else if a == p {
                        assert(after[a] == xv);
                        assert(after[b] == before[b - 1]);
                        assert(triple_lt(xv, before[p as int]));
                        if b - 1 > p {
                            lemma_triple_transitive(xv, before[p as int], before[b - 1]);
                        }
                    } else if b == p {
                        assert(after[a] == before[a]);
                        assert(after[b] == xv);
                    } else {
                        assert(after[a] == before[a]);
                        assert(after[b] == before[b - 1]);
                        assert(triple_lt(xv, before[p as int]));
                        lemma_triple_transitive(before[a], xv, before[p as int]);
                        if b - 1 > p {
                            lemma_triple_transitive(before[a], before[p as int], before[b - 1]);
                        }
                    }
                }
                assert(after.to_set() =~= before.to_set().insert(xv)) by {
                    assert forall|y: Triple| after.to_set().contains(y) implies before.to_set().insert(
                        xv,
                    ).contains(y) by {
                        let k = choose|k: int| 0 <= k < after.len() && after[k] == y;
                        if k < p {
                            assert(after[k] == before[k]);
                        } else if k > p {
                            assert(after[k] == before[k - 1]);
                        }
                    }
                    assert forall|y: Triple| before.to_set().insert(xv).contains(y) implies after.to_set().contains(
                        y,
                    ) by {
                        if y == xv {
                            assert(after[p as int] == xv);
                        } else {
                            let k = choose|k: int| 0 <= k < before.len() && before[k] == y;
                            if k < p {
                                assert(after[k] == y);
                            } else {
                                assert(after[k + 1] == y);
                            }
                        }
                    }
                }
            }
        }
        i = i + 1;
    }
    assert(tview(v@).take(v.len() as int) == tview(v@));
    out
}

/// Each item is in the de-duplicated list exactly when it is in the list.
pub proof fn lemma_deduped_contains(s: Seq<Seq<char>>, x: Seq<char>)
    ensures
        deduped(s).contains(x) <==> s.contains(x),
    decreases s.len(),
{
    if s.len() > 0 {
        lemma_deduped_contains(s.drop_last(), x);
        assert(s == s.drop_last().push(s.last()));
        if s.drop_last().contains(x) {
            let k = choose|k: int| 0 <= k < s.drop_last().len() && s.drop_last()[k] == x;
            assert(s[k] == x);
        }
        if s.contains(x) && x != s.last() {
            let k = choose|k: int| 0 <= k < s.len() && s[k] == x;
            assert(s.drop_last()[k] == x);
        }
        let d = deduped(s.drop_last());
        if !d.contains(s.last()) {
            assert(d.push(s.last())[d.len() as int] == s.last());
            if d.contains(x) {
                let k = choose|k: int| 0 <= k < d.len() && d[k] == x;
                assert(d.push(s.last())[k] == x);
            }
            if d.push(s.last()).contains(x) && x != s.last() {
                let k = choose|k: int| 0 <= k < d.len() + 1 && d.push(s.last())[k] == x;
                assert(d[k] == x);
            }
        }
    }
}

fn requirement_ids_sorted(reqs: &Vec<RuntimeRequirement>) -> (r: Vec<RuntimeRequirement>)
    ensures
        crate::search::sorted_unique(ids(r@)),
        ids(r@).to_set() == ids(reqs@).to_set(),
{
    let mut keys: Vec<Vec<char>> = Vec::new();
    let mut i: usize = 0;
    assert(views(keys@).to_set() =~= ids(reqs@).take(0).to_set());
    while i < reqs.len()
        invariant
            i <= reqs.len(),
            crate::search::sorted_unique(views(keys@)),
            views(keys@).to_set() == ids(reqs@).take(i as int).to_set(),
        decreases reqs.len() - i,
    {
        let key = chars_of(reqs[i].id.as_str());
        crate::search::insert_sorted(&mut keys, key);
        proof {
            assert(ids(reqs@).take(i + 1) =~= ids(reqs@).take(i as int).push(reqs@[i as int].id@));
            ids(reqs@).take(i as int).lemma_push_to_set_commute(reqs@[i as int].id@);
        }
        i = i + 1;
    }
    assert(ids(reqs@).take(reqs.len() as int) == ids(reqs@));
    let mut out: Vec<RuntimeRequirement> = Vec::new();
    let mut j: usize = 0;
    while j < keys.len()
        invariant
            j <= keys.len(),
            ids(out@) == views(keys@).take(j as int),
        decreases keys.len() - j,
    {
        let ghost prev = out@;
        let id = string_of(&keys[j]);
        out.push(RuntimeRequirement { id });
        assert(views(keys@).take(j + 1) =~= views(keys@).take(j as int).push(keys@[j as int]@));
        assert(ids(out@) =~= ids(prev).push(keys@[j as int]@));
        j = j + 1;
    }
    assert(views(keys@).take(keys.len() as int) == views(keys@));
    out
}

fn provenance_triples(v: &Vec<ComponentProvenance>) -> (r: Vec<Strings3>)
    ensures
        tview(r@) == provenance_view(v@),
{
    let mut out: Vec<Strings3> = Vec::new();
    let mut i: usize = 0;
    while i < v.len()
        invariant
            i <= v.len(),
            tview(out@) == provenance_view(v@).take(i as int),
        decreases v.len() - i,
    {
        let ghost prev = out@;
        out.push((v[i].name.clone(), v[i].source.clone(), v[i].reason.clone()));
        assert(provenance_view(v@).take(i + 1) =~= provenance_view(v@).take(i as int).push(provenance_view(v@)[i as int]));
        assert(tview(out@) =~= tview(prev).push(provenance_view(v@)[i as int]));
        i = i + 1;
    }
    assert(provenance_view(v@).take(v.len() as int) == provenance_view(v@));
    out
}

fn provenance_of(v: &Vec<Strings3>) -> (r: Vec<ComponentProvenance>)
    ensures
        provenance_view(r@) == tview(v@),
{
    let mut out: Vec<ComponentProvenance> = Vec::new();
    let mut i: usize = 0;
    while i < v.len()
        invariant
            i <= v.len(),
            provenance_view(out@) == tview(v@).take(i as int),
        decreases v.len() - i,
    {
        let ghost prev = out@;
        out.push(ComponentProvenance { name: v[i].0.clone(), source: v[i].1.clone(), reason: v[i].2.clone() });
        assert(tview(v@).take(i + 1) =~= tview(v@).take(i as int).push(tview(v@)[i as int]));
        assert(provenance_view(out@) =~= provenance_view(prev).push(tview(v@)[i as int]));
        i = i + 1;
    }
    assert(tview(v@).take(v.len() as int) == tview(v@));
    out
}

fn suggestion_triples(v: &Vec<InferenceSuggestion>) -> (r: Vec<Strings3>)
    ensures
        tview(r@) == suggestion_view(v@),
{
    let mut out: Vec<Strings3> = Vec::new();
    let mut i: usize = 0;
    while i < v.len()
        invariant
            i <= v.len(),
            tview(out@) == suggestion_view(v@).take(i as int),
        decreases v.len() - i,
    {
        let ghost prev = out@;
        out.push((v[i].kind.clone(), v[i].path.clone(), v[i].reason.clone()));
        assert(suggestion_view(v@).take(i + 1) =~= suggestion_view(v@).take(i as int).push(suggestion_view(v@)[i as int]));
        assert(tview(out@) =~= tview(prev).push(suggestion_view(v@)[i as int]));
        i = i + 1;
    }
    assert(suggestion_view(v@).take(v.len() as int) == suggestion_view(v@));
    out
}

fn suggestions_of(v: &Vec<Strings3>) -> (r: Vec<InferenceSuggestion>)
    ensures
        suggestion_view(r@) == tview(v@),
{
    let mut out: Vec<InferenceSuggestion> = Vec::new();
    let mut i: usize = 0;
    while i < v.len()
        invariant
            i <= v.len(),
            suggestion_view(out@) == tview(v@).take(i as int),
        decreases v.len() - i,
    {
        let ghost prev = out@;
        out.push(InferenceSuggestion { kind: v[i].0.clone(), path: v[i].1.clone(), reason: v[i].2.clone() });
        assert(tview(v@).take(i + 1) =~= tview(v@).take(i as int).push(tview(v@)[i as int]));
        assert(suggestion_view(out@) =~= suggestion_view(prev).push(tview(v@)[i as int]));
        i = i + 1;
    }
    assert(tview(v@).take(v.len() as int) == tview(v@));
    out
}

/// The component suggestions whose component is not in `components`.
pub open spec fn open_suggestions(cs: Seq<Triple>, components: Seq<Seq<char>>) -> Seq<Triple> {
    cs.filter(|t: Triple| !components.contains(t.0))
}

fn open_suggestion_triples(v: &Vec<ComponentSuggestion>, components: &Vec<String>) -> (r: Vec<Strings3>)
    ensures
        tview(r@) == open_suggestions(component_suggestion_view(v@), strs(components@)),
{
    let ghost cv = component_suggestion_view(v@);
    let ghost names = strs(components@);
    let mut out: Vec<Strings3> = Vec::new();
    let mut i: usize = 0;
    while i < v.len()
        invariant
            i <= v.len(),
            cv == component_suggestion_view(v@),
            names == strs(components@),
            tview(out@) == open_suggestions(cv.take(i as int), names),
        decreases v.len() - i,
    {
        let ghost nm = v@[i as int].name@;
        let mut listed = false;
        let mut k: usize = 0;
        while k < components.len()
            invariant
                k <= components.len(),
                i < v.len(),
                names == strs(components@),
                nm == v@[i as int].name@,
                listed <==> names.take(k as int).contains(nm),
            decreases components.len() - k,
        {
            let ghost before = names.take(k as int);
            let ghost after = names.take(k + 1);
            proof {
                assert(after =~= before.push(names[k as int]));
                assert(names[k as int] == components@[k as int]@);
                assert(after[k as int] == names[k as int]);
            }
            if str_eq(components[k].as_str(), v[i].name.as_str()) {
                listed = true;
            }
            proof {
                if before.contains(nm) {
                    let j = choose|j: int| 0 <= j < before.len() && before[j] == nm;
                    assert(after[j] == nm);
                }
                if after.contains(nm) && names[k as int] != nm {
                    let j = choose|j: int| 0 <= j < after.len() && after[j] == nm;
                    assert(before[j] == nm);
                }
            }
            k = k + 1;
        }
        assert(names.take(components.len() as int) == names);
        proof {
            assert(cv.take(i + 1) =~= cv.take(i as int).push(cv[i as int]));
            cv.take(i as int).lemma_filter_push(cv[i as int], |t: Triple| !names.contains(t.0));
        }
        if !listed {
            out.push((v[i].name.clone(), v[i].evidence.clone(), v[i].reason.clone()));
            assert(tview(out@) =~= open_suggestions(cv.take(i + 1), names));
        } else {
            assert(tview(out@) =~= open_suggestions(cv.take(i + 1), names));
        }
        i = i + 1;
    }
    assert(cv.take(v.len() as int) == cv);
    out
}

fn component_suggestions_of(v: &Vec<Strings3>) -> (r: Vec<ComponentSuggestion>)
    ensures
        component_suggestion_view(r@) == tview(v@),
{
    let mut out: Vec<ComponentSuggestion> = Vec::new();
    let mut i: usize = 0;
    while i < v.len()
        invariant
            i <= v.len(),
            component_suggestion_view(out@) == tview(v@).take(i as int),
        decreases v.len() - i,
    {
        let ghost prev = out@;
        out.push(ComponentSuggestion { name: v[i].0.clone(), evidence: v[i].1.clone(), reason: v[i].2.clone() });
        assert(tview(v@).take(i + 1) =~= tview(v@).take(i as int).push(tview(v@)[i as int]));
        assert(component_suggestion_view(out@) =~= component_suggestion_view(prev).push(tview(v@)[i as int]));
        i = i + 1;
    }
    assert(tview(v@).take(v.len() as int) == tview(v@));
    out
}

/// `after` is `before` in normal form: requirements ordered by id with each
/// id once; the component, system, path, script, variable and note lists
/// each item once in order of first occurrence; provenance and suggestions
/// ordered; the component suggestions ordered, each once, without those whose
/// component is selected; the rest unchanged.
pub open spec fn normal_form(before: SpecView, after: SpecView) -> bool {
    &&& crate::search::sorted_unique(after.requirements)
    &&& after.requirements.to_set() == before.requirements.to_set()
    &&& after.components == deduped(before.components)
    &&& after.supported_systems == deduped(before.supported_systems)
    &&& after.required_dirs == deduped(before.required_dirs)
    &&& after.required_files == deduped(before.required_files)
    &&& after.source_scripts == deduped(before.source_scripts)
    &&& after.env == deduped(before.env)
    &&& after.probe_notes == deduped(before.probe_notes)
    &&& sorted_triples(after.component_provenance)
    &&& after.component_provenance.to_multiset() == before.component_provenance.to_multiset()
    &&& sorted_triples(after.suggestions)
    &&& after.suggestions.to_multiset() == before.suggestions.to_multiset()
    &&& sorted_unique_triples(after.component_suggestions)
    &&& after.component_suggestions.to_set() == open_suggestions(
        before.component_suggestions,
        before.components,
    ).to_set()
    &&& after.profile_name == before.profile_name
    &&& after.env_name == before.env_name
    &&& after.description == before.description
    &&& after.cuda_wheel_version == before.cuda_wheel_version
    &&& after.python_version == before.python_version
    &&& after.workspace_root == before.workspace_root
}

/// Puts the description in its normal form: requirements ordered by id with
/// each id once; the component, system, path, script, variable and note lists
/// each item once in order of first occurrence; provenance and suggestions
/// ordered; and the component suggestions ordered, each once, without those
/// whose component was selected after all.
pub fn dedupe_all(spec: &mut ProjectSpec)
    ensures
        normal_form(old(spec)@, final(spec)@),
{
    let requirements = requirement_ids_sorted(&spec.requirements);
    spec.requirements = requirements;
    let mut items: Vec<String> = Vec::new();
    std::mem::swap(&mut items, &mut spec.components);
    spec.components = dedupe(items);
    let mut items: Vec<String> = Vec::new();
    std::mem::swap(&mut items, &mut spec.supported_systems);
    spec.supported_systems = dedupe(items);
    let mut items: Vec<String> = Vec::new();
    std::mem::swap(&mut items, &mut spec.required_dirs);
    spec.required_dirs = dedupe(items);
    let mut items: Vec<String> = Vec::new();
    std::mem::swap(&mut items, &mut spec.required_files);
    spec.required_files = dedupe(items);
    let mut items: Vec<String> = Vec::new();
    std::mem::swap(&mut items, &mut spec.source_scripts);
    spec.source_scripts = dedupe(items);
    let mut items: Vec<String> = Vec::new();
    std::mem::swap(&mut items, &mut spec.env);
    spec.env = dedupe(items);
    let mut items: Vec<String> = Vec::new();
    std::mem::swap(&mut items, &mut spec.probe_notes);
    spec.probe_notes = dedupe(items);
    let provenance = provenance_of(&sort_triples(provenance_triples(&spec.component_provenance)));
    spec.component_provenance = provenance;
    let suggestions = suggestions_of(&sort_triples(suggestion_triples(&spec.suggestions)));
    spec.suggestions = suggestions;
    let open = open_suggestion_triples(&spec.component_suggestions, &spec.components);
    proof {
        let before = component_suggestion_view(old(spec).component_suggestions@);
        let names = strs(old(spec).components@);
        let now = strs(spec.components@);
        assert forall|x: Seq<char>| now.contains(x) == names.contains(x) by {
            lemma_deduped_contains(names, x);
        }
        assert(open_suggestions(before, now) =~= open_suggestions(before, names)) by {
            assert((|t: Triple| !now.contains(t.0)) =~= (|t: Triple| !names.contains(t.0)));
        }
    }
    let suggestions = component_suggestions_of(&sort_unique_triples(open));
    spec.component_suggestions = suggestions;
}

/// The order "not after" on text, by which `sorted_unique` lists ascend.
pub open spec fn lex_leq() -> spec_fn(Seq<char>, Seq<char>) -> bool {
    |a: Seq<char>, b: Seq<char>| !lex_lt(b, a)
}

/// The order "not after" on triples, by which `sorted_triples` lists ascend.
pub open spec fn triple_leq() -> spec_fn(Triple, Triple) -> bool {
    |a: Triple, b: Triple| !triple_lt(b, a)
}

pub(crate) proof fn lemma_lex_leq_total()
    ensures
        vstd::relations::total_ordering(lex_leq()),
{
    let r = lex_leq();
    assert forall|x: Seq<char>| #[trigger] r(x, x) by {
        lemma_lex_irreflexive(x);
    }
    assert forall|x: Seq<char>, y: Seq<char>| #[trigger] r(x, y) && #[trigger] r(y, x) implies x == y by {
        lemma_lex_total(x, y);
    }
    assert forall|x: Seq<char>, y: Seq<char>, z: Seq<char>| #[trigger] r(x, y) && #[trigger] r(y, z) implies r(x, z) by {
        lemma_lex_total(x, y);
        if lex_lt(z, x) {
            if lex_lt(x, y) {
                lemma_lex_transitive(z, x, y);
            }
        }
    }
    assert forall|x: Seq<char>, y: Seq<char>| #[trigger] r(x, y) || #[trigger] r(y, x) by {
        if lex_lt(x, y) && lex_lt(y, x) {
            lemma_lex_transitive(x, y, x);
            lemma_lex_irreflexive(x);
        }
    }
}

proof fn lemma_triple_leq_total()
    ensures
        vstd::relations::total_ordering(triple_leq()),
{
    let r = triple_leq();
    assert forall|x: Triple| #[trigger] r(x, x) by {
        lemma_triple_irreflexive(x);
    }
    assert forall|x: Triple, y: Triple| #[trigger] r(x, y) && #[trigger] r(y, x) implies x == y by {
        lemma_triple_total(x, y);
    }
    assert forall|x: Triple, y: Triple, z: Triple| #[trigger] r(x, y) && #[trigger] r(y, z) implies r(x, z) by {
        lemma_triple_total(x, y);
        if triple_lt(z, x) {
            if triple_lt(x, y) {
                lemma_triple_transitive(z, x, y);
            }
        }
    }
    assert forall|x: Triple, y: Triple| #[trigger] r(x, y) || #[trigger] r(y, x) by {
        if triple_lt(x, y) {
            lemma_triple_asymmetric(x, y);
        }
    }
}

/// Two lists ascending by a total order, each without repeats, that hold the
/// same items are the same list.
pub(crate) proof fn lemma_same_items_same_list<A>(x: Seq<A>, y: Seq<A>, leq: spec_fn(A, A) -> bool)
    requires
        vstd::relations::sorted_by(x, leq),
        vstd::relations::sorted_by(y, leq),
        vstd::relations::total_ordering(leq),
        x.no_duplicates(),
        y.no_duplicates(),
        x.to_set() == y.to_set(),
    ensures
        x == y,
{
    broadcast use vstd::seq_lib::group_to_multiset_ensures;

    x.lemma_multiset_has_no_duplicates();
    y.lemma_multiset_has_no_duplicates();
    assert forall|a: A| #[trigger] x.to_multiset().count(a) == y.to_multiset().count(a) by {
        assert(x.to_set().contains(a) == x.contains(a));
        assert(y.to_set().contains(a) == y.contains(a));
        if x.contains(a) {
            assert(x.to_multiset().contains(a));
            assert(y.to_multiset().contains(a));
        }
    }
    assert(x.to_multiset() =~= y.to_multiset());
    vstd::seq_lib::lemma_sorted_unique(x, y, leq);
}

pub(crate) proof fn lemma_sorted_unique_texts(x: Seq<Seq<char>>)
    requires
        crate::search::sorted_unique(x),
    ensures
        vstd::relations::sorted_by(x, lex_leq()),
        x.no_duplicates(),
{
    assert forall|i: int, j: int| 0 <= i < j < x.len() implies #[trigger] lex_leq()(x[i], x[j]) by {
        if lex_lt(x[j], x[i]) {
            lemma_lex_transitive(x[i], x[j], x[i]);
            lemma_lex_irreflexive(x[i]);
        }
    }
    assert forall|i: int, j: int| 0 <= i < x.len() && 0 <= j < x.len() && i != j implies x[i] != x[j] by {
        if i < j {
            assert(lex_lt(x[i], x[j]));
            lemma_lex_irreflexive(x[i]);
        } else {
            assert(lex_lt(x[j], x[i]));
            lemma_lex_irreflexive(x[j]);
        }
    }
}

proof fn lemma_sorted_unique_triples_ordered(x: Seq<Triple>)
    requires
        sorted_unique_triples(x),
    ensures
        vstd::relations::sorted_by(x, triple_leq()),
        x.no_duplicates(),
{
    assert forall|i: int, j: int| 0 <= i < j < x.len() implies #[trigger] triple_leq()(x[i], x[j]) by {
        lemma_triple_asymmetric(x[i], x[j]);
    }
    assert forall|i: int, j: int| 0 <= i < x.len() && 0 <= j < x.len() && i != j implies x[i] != x[j] by {
        if i < j {
            assert(triple_lt(x[i], x[j]));
            lemma_triple_irreflexive(x[i]);
        } else {
            assert(triple_lt(x[j], x[i]));
            lemma_triple_irreflexive(x[j]);
        }
    }
}

proof fn lemma_deduped_no_duplicates(s: Seq<Seq<char>>)
    ensures
        deduped(s).no_duplicates(),
    decreases s.len(),
{
    if s.len() > 0 {
        lemma_deduped_no_duplicates(s.drop_last());
        let d = deduped(s.drop_last());
        if !d.contains(s.last()) {
            let e = d.push(s.last());
            assert forall|i: int, j: int| 0 <= i < e.len() && 0 <= j < e.len() && i != j implies e[i] != e[j] by {
                if i == d.len() as int {
                    assert(d[j] == e[j]);
                } else if j == d.len() as int {
                    assert(d[i] == e[i]);
                }
            }
        }
    }
}

proof fn lemma_deduped_keeps_unrepeated(s: Seq<Seq<char>>)
    requires
        s.no_duplicates(),
    ensures
        deduped(s) == s,
    decreases s.len(),
{
    if s.len() > 0 {
        let t = s.drop_last();
        assert(t.no_duplicates());
        lemma_deduped_keeps_unrepeated(t);
        if t.contains(s.last()) {
            let k = choose|k: int| 0 <= k < t.len() && t[k] == s.last();
            assert(s[k] == s[s.len() - 1]);
        }
        assert(t.push(s.last()) =~= s);
    }
}

/// Putting a description in normal form a second time changes nothing: the
/// normal form of a description already in normal form is itself.
pub proof fn law_normal_form_idempotent(a: SpecView, b: SpecView, c: SpecView)
    requires
        normal_form(a, b),
        normal_form(b, c),
    ensures
        c == b,
{
    lemma_lex_leq_total();
    lemma_triple_leq_total();
    lemma_sorted_unique_texts(b.requirements);
    lemma_sorted_unique_texts(c.requirements);
    lemma_same_items_same_list(c.requirements, b.requirements, lex_leq());
    lemma_deduped_no_duplicates(a.components);
    lemma_deduped_keeps_unrepeated(b.components);
    lemma_deduped_no_duplicates(a.supported_systems);
    lemma_deduped_keeps_unrepeated(b.supported_systems);
    lemma_deduped_no_duplicates(a.required_dirs);
    lemma_deduped_keeps_unrepeated(b.required_dirs);
    lemma_deduped_no_duplicates(a.required_files);
    lemma_deduped_keeps_unrepeated(b.required_files);
    lemma_deduped_no_duplicates(a.source_scripts);
    lemma_deduped_keeps_unrepeated(b.source_scripts);
    lemma_deduped_no_duplicates(a.env);
    lemma_deduped_keeps_unrepeated(b.env);
    lemma_deduped_no_duplicates(a.probe_notes);
    lemma_deduped_keeps_unrepeated(b.probe_notes);
    assert(vstd::relations::sorted_by(b.component_provenance, triple_leq()));
    assert(vstd::relations::sorted_by(c.component_provenance, triple_leq()));
    vstd::seq_lib::lemma_sorted_unique(c.component_provenance, b.component_provenance, triple_leq());
    assert(vstd::relations::sorted_by(b.suggestions, triple_leq()));
    assert(vstd::relations::sorted_by(c.suggestions, triple_leq()));
    vstd::seq_lib::lemma_sorted_unique(c.suggestions, b.suggestions, triple_leq());
    lemma_sorted_unique_triples_ordered(b.component_suggestions);
    lemma_sorted_unique_triples_ordered(c.component_suggestions);
    let pred = |t: Triple| !b.components.contains(t.0);
    assert forall|t: Triple| #[trigger] b.component_suggestions.to_set().contains(t) implies pred(t) by {
        assert(open_suggestions(a.component_suggestions, a.components).to_set().contains(t));
        let f = open_suggestions(a.component_suggestions, a.components);
        let k = choose|k: int| 0 <= k < f.len() && f[k] == t;
        broadcast use vstd::seq_lib::group_filter_ensures;
        assert(!a.components.contains(t.0));
        lemma_deduped_contains(a.components, t.0);
    }
    assert(open_suggestions(b.component_suggestions, b.components).to_set() =~= b.component_suggestions.to_set()) by {
        broadcast use vstd::seq_lib::group_filter_ensures;
        let bs = b.component_suggestions;
        assert forall|t: Triple| #[trigger] bs.to_set().contains(t) implies bs.filter(pred).contains(t) by {
            let k = choose|k: int| 0 <= k < bs.len() && bs[k] == t;
            bs.lemma_filter_contains(pred, k);
        }
        assert forall|t: Triple| #[trigger] bs.filter(pred).contains(t) implies bs.to_set().contains(t) by {
            bs.lemma_filter_contains_rev(pred, t);
        }
    }
    lemma_same_items_same_list(c.component_suggestions, b.component_suggestions, triple_leq());
    assert(c =~= b);
}

} // verus!
