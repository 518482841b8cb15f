//! The component manifest: the runtime components robo-nix offers, the
//! starter profiles built from them, and the rules that infer components
//! from a project's dependencies.
//!
//! Maps are kept as entry lists in key order, as the manifest's JSON maps
//! are read.
use vstd::prelude::*;
use crate::text::{chars_of, parse_u32_chars, str_eq, string_of, strs};
use crate::init::spec::ProjectSpec;

verus! {

pub struct Component {
    pub category: String,
    pub description: String,
    pub scaffold_directories: Vec<String>,
    pub supported_systems: Vec<String>,
    /// The requirements this component satisfies.
    pub provides: Vec<String>,
}

pub struct Profile {
    pub description: String,
    pub components: Vec<String>,
    pub python_version: String,
    pub supported_systems: Vec<String>,
    pub workspace_root: String,
}

/// Dependencies that, when any is present, bring in components and
/// requirements.
pub struct DependencyRule {
    pub dependencies: Vec<String>,
    pub requires: Vec<String>,
    pub components: Vec<String>,
    pub note: String,
}

/// Groups of dependencies that, when each group has one present, bring in
/// components and requirements.
pub struct CompoundDependencyRule {
    pub dependencies_all: Vec<Vec<String>>,
    pub requires: Vec<String>,
    pub components: Vec<String>,
    pub note: String,
}

/// Subdirectories of a workspace root that the runtime requires, with
/// components for those whose names contain one of the words.
pub struct WorkspaceDirectoryRule {
    pub root: String,
    pub name_contains: Vec<String>,
    pub components: Vec<String>,
    pub note: String,
}

/// Where bootstrap scripts are looked for, how they are recognised, and how
/// the vendor checkouts they name are found in them.
pub struct ScriptDiscovery {
    pub roots: Vec<String>,
    pub names: Vec<String>,
    pub prefixes: Vec<String>,
    pub daemon_text_contains: Vec<String>,
    pub checkout_function: String,
    pub path_root: String,
}

/// Components that a bootstrap script mentioning any of the words needs.
pub struct ScriptRule {
    pub text_contains: Vec<String>,
    pub components: Vec<String>,
    pub note: String,
}

pub struct RuntimeInference {
    pub default_profile: String,
    pub dependency_rules: Vec<DependencyRule>,
    pub compound_dependency_rules: Vec<CompoundDependencyRule>,
    pub workspace_directory_rules: Vec<WorkspaceDirectoryRule>,
    pub script_discovery: ScriptDiscovery,
    pub script_rules: Vec<ScriptRule>,
}

pub struct Manifest {
    pub components: Vec<(String, Component)>,
    pub profiles: Vec<(String, Profile)>,
    pub runtime_inference: RuntimeInference,
}

/// The names of the entries, in order.
pub open spec fn component_keys(m: Manifest) -> Seq<Seq<char>> {
    m.components@.map_values(|e: (String, Component)| e.0@)
}

pub open spec fn profile_keys(m: Manifest) -> Seq<Seq<char>> {
    m.profiles@.map_values(|e: (String, Profile)| e.0@)
}

/// Whether the manifest has a component of that name.
pub open spec fn has_component(m: Manifest, name: Seq<char>) -> bool {
    component_keys(m).contains(name)
}

/// The first profile of that name.
pub open spec fn profile_index(m: Manifest, name: Seq<char>) -> Option<int> {
    if exists|i: int| 0 <= i < m.profiles.len() && #[trigger] m.profiles@[i].0@ == name {
        Some(
            choose|i: int|
                0 <= i < m.profiles.len() && m.profiles@[i].0@ == name && forall|j: int|
                    0 <= j < i ==> #[trigger] m.profiles@[j].0@ != name,
        )
    } else {
        None
    }
}

pub fn find_profile<'a>(m: &'a Manifest, name: &str) -> (r: Option<&'a Profile>)
    ensures
        match r {
            Some(p) => exists|i: int|
                0 <= i < m.profiles.len() && m.profiles@[i].0@ == name@ && *p == m.profiles@[i].1
                    && forall|j: int| 0 <= j < i ==> #[trigger] m.profiles@[j].0@ != name@,
            None => forall|i: int| 0 <= i < m.profiles.len() ==> #[trigger] m.profiles@[i].0@ != name@,
        },
{
    let mut i: usize = 0;
    while i < m.profiles.len()
        invariant
            i <= m.profiles.len(),
            forall|j: int| 0 <= j < i ==> #[trigger] m.profiles@[j].0@ != name@,
        decreases m.profiles.len() - i,
    {
        if str_eq(m.profiles[i].0.as_str(), name) {
            return Some(&m.profiles[i].1);
        }
        i = i + 1;
    }
    None
}

pub fn find_component<'a>(m: &'a Manifest, name: &str) -> (r: Option<&'a Component>)
    ensures
        match r {
            Some(c) => exists|i: int|
                0 <= i < m.components.len() && m.components@[i].0@ == name@ && *c
                    == m.components@[i].1 && forall|j: int|
                    0 <= j < i ==> #[trigger] m.components@[j].0@ != name@,
            None => !has_component(*m, name@),
        },
{
    let mut i: usize = 0;
    while i < m.components.len()
        invariant
            i <= m.components.len(),
            forall|j: int| 0 <= j < i ==> #[trigger] m.components@[j].0@ != name@,
        decreases m.components.len() - i,
    {
        if str_eq(m.components[i].0.as_str(), name) {
            return Some(&m.components[i].1);
        }
        i = i + 1;
    }
    proof {
        if has_component(*m, name@) {
            let k = choose|k: int| 0 <= k < component_keys(*m).len() && component_keys(*m)[k] == name@;
            assert(m.components@[k].0@ == name@);
        }
    }
    None
}

/// The index of the first occurrence of `x`.
pub open spec fn first_index(keys: Seq<Seq<char>>, x: Seq<char>) -> int {
    choose|i: int| 0 <= i < keys.len() && keys[i] == x && forall|j: int| 0 <= j < i ==> keys[j] != x
}

/// The profiles in manifest order, with the default profile moved first.
pub open spec fn ordered_profiles(keys: Seq<Seq<char>>, default: Seq<char>) -> Seq<Seq<char>> {
    if keys.contains(default) {
        seq![default] + keys.remove(first_index(keys, default))
    } else {
        keys
    }
}

/// The profile names, each once, in ascending order: the order of the
/// manifest's map of profiles.
pub open spec fn sorted_profile_keys(m: Manifest) -> Seq<Seq<char>> {
    choose|s: Seq<Seq<char>>| crate::search::sorted_unique(s) && s.to_set() == profile_keys(m).to_set()
}

/// The profile names in order, with the default profile moved first.
pub fn profile_names(manifest: &Manifest) -> (r: Vec<String>)
    ensures
        strs(r@) == ordered_profiles(sorted_profile_keys(*manifest), manifest.runtime_inference.default_profile@),
{
    let ghost keys = profile_keys(*manifest);
    let mut sorted: Vec<Vec<char>> = Vec::new();
    let mut i: usize = 0;
    assert(keys.take(0).to_set() =~= Set::<Seq<char>>::empty());
    assert(crate::text::views(sorted@).to_set() =~= Set::<Seq<char>>::empty());
    while i < manifest.profiles.len()
        invariant
            i <= manifest.profiles.len(),
            keys == profile_keys(*manifest),
            crate::search::sorted_unique(crate::text::views(sorted@)),
            crate::text::views(sorted@).to_set() == keys.take(i as int).to_set(),
        decreases manifest.profiles.len() - i,
    {
        assert(keys[i as int] == manifest.profiles@[i as int].0@);
        crate::search::insert_sorted(&mut sorted, chars_of(manifest.profiles[i].0.as_str()));
        assert(keys.take(i + 1) =~= keys.take(i as int).push(keys[i as int]));
        proof {
            keys.take(i as int).lemma_push_to_set_commute(keys[i as int]);
        }
        i = i + 1;
    }
    assert(keys.take(manifest.profiles.len() as int) =~= keys);
    let mut names: Vec<String> = Vec::new();
    let mut k: usize = 0;
    while k < sorted.len()
        invariant
            k <= sorted.len(),
            strs(names@) == crate::text::views(sorted@).take(k as int),
        decreases sorted.len() - k,
    {
        let ghost before = names@;
        let name = string_of(&sorted[k]);
        names.push(name);
        proof {
            crate::text::lemma_strs_push(before, name);
            assert(crate::text::views(sorted@).take(k + 1) =~= crate::text::views(sorted@).take(k as int).push(
                sorted@[k as int]@,
            ));
        }
        k = k + 1;
    }
    assert(crate::text::views(sorted@).take(sorted.len() as int) =~= crate::text::views(sorted@));
    proof {
        let sv = crate::text::views(sorted@);
        let c = sorted_profile_keys(*manifest);
        assert(crate::search::sorted_unique(sv) && sv.to_set() == keys.to_set());
        crate::init::spec::lemma_lex_leq_total();
        crate::init::spec::lemma_sorted_unique_texts(sv);
        crate::init::spec::lemma_sorted_unique_texts(c);
        crate::init::spec::lemma_same_items_same_list(c, sv, crate::init::spec::lex_leq());
    }
    default_first(&names, &manifest.runtime_inference.default_profile)
}

fn default_first(all: &Vec<String>, default: &String) -> (r: Vec<String>)
    ensures
        strs(r@) == ordered_profiles(strs(all@), default@),
{
    let ghost keys = strs(all@);
    let mut names: Vec<String> = Vec::new();
    let mut i: usize = 0;
    let mut found: Option<usize> = None;
    while i < all.len()
        invariant
            i <= all.len(),
            keys == strs(all@),
            strs(names@) == keys.take(i as int),
            match found {
                Some(k) => k < i && keys[k as int] == default@ && forall|j: int|
                    0 <= j < k ==> keys[j] != default@,
                None => forall|j: int| 0 <= j < i ==> keys[j] != default@,
            },
        decreases all.len() - i,
    {
        assert(keys[i as int] == all@[i as int]@);
        if found.is_none() && str_eq(all[i].as_str(), default.as_str()) {
            found = Some(i);
        }
        let ghost before = names@;
        let name = all[i].clone();
        assert(name@ == keys[i as int]);
        names.push(name);
        assert(names@ == before.push(name));
        assert(strs(names@) =~= strs(before).push(name@));
        assert(keys.take(i + 1) =~= keys.take(i as int).push(keys[i as int]));
        i = i + 1;
    }
    assert(keys.take(all.len() as int) == keys);
    match found {
        Some(k) => {
            let first = names.remove(k);
            names.insert(0, first);
            proof {
                assert(keys.contains(default@));
                assert(keys[k as int] == default@);
                assert(first_index(keys, default@) == k as int) by {
                    let f = first_index(keys, default@);
                    assert(0 <= f < keys.len() && keys[f] == default@ && forall|j: int|
                        0 <= j < f ==> keys[j] != default@);
                    if f < k {
                    } else if f > k {
                    }
                }
                assert(strs(names@) =~= seq![default@] + keys.remove(k as int));
            }
        },
        None => {
            assert(!keys.contains(default@));
        },
    }
    names
}

/// A selection by 1-based number, or by name.
pub open spec fn selected_profile(profiles: Seq<Seq<char>>, selection: Seq<char>) -> Option<Seq<char>> {
    match crate::text::parse_usize(selection) {
        Some(n) => if 1 <= n <= profiles.len() {
            Some(profiles[n - 1])
        } else {
            None
        },
        None => if profiles.contains(selection) {
            Some(selection)
        } else {
            None
        },
    }
}

pub fn resolve_profile_selection(profiles: &Vec<String>, selection: &str) -> (r: Option<String>)
    ensures
        match r {
            Some(p) => selected_profile(strs(profiles@), selection@) == Some(p@),
            None => selected_profile(strs(profiles@), selection@) is None,
        },
{
    match crate::text::parse_usize_str(selection) {
        Some(n) => {
            if n >= 1 && n <= profiles.len() {
                Some(profiles[n - 1].clone())
            } else {
                None
            }
        },
        None => {
            let mut i: usize = 0;
            while i < profiles.len()
                invariant
                    i <= profiles.len(),
                    crate::text::parse_usize(selection@) is None,
                    forall|j: int| 0 <= j < i ==> strs(profiles@)[j] != selection@,
                decreases profiles.len() - i,
            {
                if str_eq(profiles[i].as_str(), selection) {
                    assert(strs(profiles@)[i as int] == selection@);
                    return Some(profiles[i].clone());
                }
                i = i + 1;
            }
            None
        },
    }
}

/// The first name that is not a component of the manifest.
pub open spec fn first_unknown(m: Manifest, names: Seq<Seq<char>>) -> Option<Seq<char>>
    decreases names.len(),
{
    if names.len() == 0 {
        None
    } else {
        match first_unknown(m, names.drop_last()) {
            Some(name) => Some(name),
            None => if has_component(m, names.last()) {
                None
            } else {
                Some(names.last())
            },
        }
    }
}

proof fn lemma_first_unknown_prefix(m: Manifest, names: Seq<Seq<char>>, n: int)
    requires
        0 <= n <= names.len(),
        first_unknown(m, names.take(n)) is Some,
    ensures
        first_unknown(m, names) == first_unknown(m, names.take(n)),
    decreases names.len(),
{
    if n < names.len() {
        assert(names.drop_last().take(n) == names.take(n));
        lemma_first_unknown_prefix(m, names.drop_last(), n);
    } else {
        assert(names.take(n) == names);
    }
}

fn first_unknown_in(m: &Manifest, names: &Vec<String>) -> (r: Option<String>)
    ensures
        crate::text::opt_str(r) == first_unknown(*m, strs(names@)),
{
    let ghost all = strs(names@);
    let mut i: usize = 0;
    while i < names.len()
        invariant
            i <= names.len(),
            all == strs(names@),
            first_unknown(*m, all.take(i as int)) is None,
        decreases names.len() - i,
    {
        assert(all.take(i + 1).drop_last() == all.take(i as int));
        assert(all.take(i + 1).last() == names@[i as int]@);
        let found = find_component(m, names[i].as_str());
        if found.is_none() {
            proof {
                lemma_first_unknown_prefix(*m, all, i + 1);
            }
            return Some(names[i].clone());
        }
        proof {
            let k = choose|k: int| 0 <= k < m.components.len() && m.components@[k].0@ == names@[i as int]@;
            assert(component_keys(*m)[k] == names@[i as int]@);
        }
        i = i + 1;
    }
    assert(all.take(names.len() as int) == all);
    None
}

/// The components named by the dependency rules, rule by rule.
pub open spec fn rule_components(rules: Seq<DependencyRule>) -> Seq<Seq<char>>
    decreases rules.len(),
{
    if rules.len() == 0 {
        Seq::empty()
    } else {
        rule_components(rules.drop_last()) + strs(rules.last().components@)
    }
}

fn rule_component_names(rules: &Vec<DependencyRule>) -> (r: Vec<String>)
    ensures
        strs(r@) == rule_components(rules@),
{
    let mut out: Vec<String> = Vec::new();
    let mut i: usize = 0;
    while i < rules.len()
        invariant
            i <= rules.len(),
            strs(out@) == rule_components(rules@.take(i as int)),
        decreases rules.len() - i,
    {
        let ghost start = strs(out@);
        let comps = &rules[i].components;
        let mut k: usize = 0;
        while k < comps.len()
            invariant
                k <= comps.len(),
                strs(out@) == start + strs(comps@).take(k as int),
            decreases comps.len() - k,
        {
            let ghost prev = out@;
            out.push(comps[k].clone());
            assert(strs(out@) =~= strs(prev).push(comps@[k as int]@));
            assert(strs(comps@).take(k + 1) =~= strs(comps@).take(k as int).push(comps@[k as int]@));
            k = k + 1;
        }
        assert(strs(comps@).take(comps.len() as int) == strs(comps@));
        assert(rules@.take(i + 1).drop_last() == rules@.take(i as int));
        i = i + 1;
    }
    assert(rules@.take(rules.len() as int) == rules@);
    out
}

/// What is wrong with a runtime description against the manifest, the first
/// problem found: no systems, a component the manifest lacks, or a rule that
/// names a component the manifest lacks.
pub open spec fn validation(m: Manifest, systems: Seq<Seq<char>>, components: Seq<Seq<char>>) -> Option<Seq<char>> {
    if systems.len() == 0 {
        Some("expected at least one value for systems"@)
    } else {
        match first_unknown(m, components) {
            Some(c) => Some("unknown component: "@ + c),
            None => match first_unknown(m, rule_components(m.runtime_inference.dependency_rules@)) {
                Some(c) => Some("runtime inference rule references unknown component: "@ + c),
                None => None,
            },
        }
    }
}

pub fn validate(manifest: &Manifest, spec: &ProjectSpec) -> (r: Result<(), String>)
    ensures
        match r {
            Ok(_) => validation(*manifest, strs(spec.supported_systems@), strs(spec.components@)) is None,
            Err(e) => validation(*manifest, strs(spec.supported_systems@), strs(spec.components@)) == Some(e@),
        },
{
    if spec.supported_systems.len() == 0 {
        return Err("expected at least one value for systems".to_string());
    }
    if let Some(component) = first_unknown_in(manifest, &spec.components) {
        return Err(crate::text::concat("unknown component: ", component.as_str()));
    }
    let rule_names = rule_component_names(&manifest.runtime_inference.dependency_rules);
    if let Some(component) = first_unknown_in(manifest, &rule_names) {
        return Err(crate::text::concat("runtime inference rule references unknown component: ", component.as_str()));
    }
    Ok(())
}

/// A profile's line in the profile list: name, systems and description in
/// columns.
pub open spec fn profile_line(name: Seq<char>, p: Profile) -> Seq<char> {
    crate::text::left_aligned(name, 18) + " "@ + crate::text::left_aligned(
        crate::text::join(strs(p.supported_systems@), ","@),
        30,
    ) + " "@ + p.description@
}

/// A component's line in the component list: name, category, systems and
/// description in columns.
pub open spec fn component_line(name: Seq<char>, c: Component) -> Seq<char> {
    crate::text::left_aligned(name, 18) + " "@ + crate::text::left_aligned(c.category@, 12) + " "@
        + crate::text::left_aligned(crate::text::join(strs(c.supported_systems@), ","@), 30) + " "@
        + c.description@
}

/// The profile list, one line per profile in manifest order.
/// Each component and each profile named once, names ascending: what the
/// manifest file's maps give (they are read into maps ordered by name).
pub open spec fn keys_ordered(m: Manifest) -> bool {
    crate::search::sorted_unique(component_keys(m)) && crate::search::sorted_unique(profile_keys(m))
}

fn ascending(keys: &Vec<Vec<char>>) -> (r: bool)
    ensures
        r == crate::search::sorted_unique(crate::text::views(keys@)),
{
    let ghost v = crate::text::views(keys@);
    if keys.len() == 0 {
        return true;
    }
    let mut i: usize = 1;
    while i < keys.len()
        invariant
            1 <= i <= keys.len(),
            v == crate::text::views(keys@),
            crate::search::sorted_unique(v.take(i as int)),
        decreases keys.len() - i,
    {
        assert(v[i - 1] == keys@[i - 1]@);
        assert(v[i as int] == keys@[i as int]@);
        if !crate::search::less_than(&keys[i - 1], &keys[i]) {
            proof {
                assert(!crate::search::lex_lt(v[i - 1], v[i as int]));
            }
            return false;
        }
        proof {
            let t = v.take(i + 1);
            assert forall|a: int, b: int| 0 <= a < b < t.len() implies crate::search::lex_lt(#[trigger] t[a], #[trigger] t[b]) by {
                if b < i {
                    assert(t[a] == v.take(i as int)[a]);
                    assert(t[b] == v.take(i as int)[b]);
                } else if a < i - 1 {
                    assert(t[a] == v.take(i as int)[a]);
                    assert(v.take(i as int)[i - 1] == v[i - 1]);
                    assert(crate::search::lex_lt(v.take(i as int)[a], v.take(i as int)[i - 1]));
                    crate::search::lemma_lex_transitive(v[a], v[i - 1], v[i as int]);
                }
            }
        }
        i = i + 1;
    }
    assert(v.take(keys.len() as int) =~= v);
    true
}

/// Whether the manifest's names are each once and ascending.
pub fn manifest_keys_ordered(manifest: &Manifest) -> (r: bool)
    ensures
        r == keys_ordered(*manifest),
{
    let mut ck: Vec<Vec<char>> = Vec::new();
    let mut i: usize = 0;
    while i < manifest.components.len()
        invariant
            i <= manifest.components.len(),
            crate::text::views(ck@) == component_keys(*manifest).take(i as int),
        decreases manifest.components.len() - i,
    {
        let k = chars_of(manifest.components[i].0.as_str());
        proof {
            crate::text::lemma_views_push(ck@, k);
        }
        ck.push(k);
        assert(component_keys(*manifest).take(i + 1) =~= component_keys(*manifest).take(i as int).push(
            manifest.components@[i as int].0@,
        ));
        i = i + 1;
    }
    assert(component_keys(*manifest).take(manifest.components.len() as int) =~= component_keys(*manifest));
    let mut pk: Vec<Vec<char>> = Vec::new();
    let mut j: usize = 0;
    while j < manifest.profiles.len()
        invariant
            j <= manifest.profiles.len(),
            crate::text::views(pk@) == profile_keys(*manifest).take(j as int),
        decreases manifest.profiles.len() - j,
    {
        let k = chars_of(manifest.profiles[j].0.as_str());
        proof {
            crate::text::lemma_views_push(pk@, k);
        }
        pk.push(k);
        assert(profile_keys(*manifest).take(j + 1) =~= profile_keys(*manifest).take(j as int).push(
            manifest.profiles@[j as int].0@,
        ));
        j = j + 1;
    }
    assert(profile_keys(*manifest).take(manifest.profiles.len() as int) =~= profile_keys(*manifest));
    ascending(&ck) && ascending(&pk)
}

pub fn profile_lines(manifest: &Manifest) -> (r: Vec<String>)
    requires
        keys_ordered(*manifest),
    ensures
        strs(r@) == manifest.profiles@.map_values(|e: (String, Profile)| profile_line(e.0@, e.1)),
{
    let ghost want = manifest.profiles@.map_values(|e: (String, Profile)| profile_line(e.0@, e.1));
    let mut out: Vec<String> = Vec::new();
    let mut i: usize = 0;
    while i < manifest.profiles.len()
        invariant
            i <= manifest.profiles.len(),
            want == manifest.profiles@.map_values(|e: (String, Profile)| profile_line(e.0@, e.1)),
            strs(out@) == want.take(i as int),
        decreases manifest.profiles.len() - i,
    {
        let (name, p) = (&manifest.profiles[i].0, &manifest.profiles[i].1);
        let systems = crate::text::join_strings(&p.supported_systems, ",");
        let mut line: Vec<char> = Vec::new();
        crate::text::append_str(&mut line, crate::text::pad_right(name.as_str(), 18).as_str());
        crate::text::append_str(&mut line, " ");
        crate::text::append_str(&mut line, crate::text::pad_right(systems.as_str(), 30).as_str());
        crate::text::append_str(&mut line, " ");
        crate::text::append_str(&mut line, p.description.as_str());
        let l = string_of(&line);
        proof {
            crate::text::lemma_strs_push(out@, l);
        }
        out.push(l);
        assert(want.take(i + 1) =~= want.take(i as int).push(want[i as int]));
        i = i + 1;
    }
    assert(want.take(manifest.profiles.len() as int) =~= want);
    out
}

/// The component list, one line per component in manifest order.
pub fn component_lines(manifest: &Manifest) -> (r: Vec<String>)
    requires
        keys_ordered(*manifest),
    ensures
        strs(r@) == manifest.components@.map_values(|e: (String, Component)| component_line(e.0@, e.1)),
{
    let ghost want = manifest.components@.map_values(|e: (String, Component)| component_line(e.0@, e.1));
    let mut out: Vec<String> = Vec::new();
    let mut i: usize = 0;
    while i < manifest.components.len()
        invariant
            i <= manifest.components.len(),
            want == manifest.components@.map_values(|e: (String, Component)| component_line(e.0@, e.1)),
            strs(out@) == want.take(i as int),
        decreases manifest.components.len() - i,
    {
        let (name, c) = (&manifest.components[i].0, &manifest.components[i].1);
        let systems = crate::text::join_strings(&c.supported_systems, ",");
        let mut line: Vec<char> = Vec::new();
        crate::text::append_str(&mut line, crate::text::pad_right(name.as_str(), 18).as_str());
        crate::text::append_str(&mut line, " ");
        crate::text::append_str(&mut line, crate::text::pad_right(c.category.as_str(), 12).as_str());
        crate::text::append_str(&mut line, " ");
        crate::text::append_str(&mut line, crate::text::pad_right(systems.as_str(), 30).as_str());
        crate::text::append_str(&mut line, " ");
        crate::text::append_str(&mut line, c.description.as_str());
        let l = string_of(&line);
        proof {
            crate::text::lemma_strs_push(out@, l);
        }
        out.push(l);
        assert(want.take(i + 1) =~= want.take(i as int).push(want[i as int]));
        i = i + 1;
    }
    assert(want.take(manifest.components.len() as int) =~= want);
    out
}

} // verus!
