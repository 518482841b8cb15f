//! Facts read from a project's files for `robo init`: its name, its Python
//! version, the CUDA version of its wheels, and the runtime its
//! dependencies call for. Policy stays in the spec and the pipeline.
use vstd::prelude::*;
use crate::init::manifest::Manifest;
use crate::init::spec::{ComponentSuggestion, InferenceSuggestion};
use crate::pyproject::{dependency_set, exact_python, has_any, name_of, requires_python};
use crate::text::{
    append_str, chars_of, is_digit, is_suffix, split, string_of, strip_suffix, strs, trim_end, Sep,
};

verus! {

#[derive(Clone, Debug, PartialEq, Eq)]
pub struct ProbeValue {
    pub value: String,
    pub note: String,
}

#[derive(Clone, Debug, PartialEq, Eq)]
pub struct ProbeComponent {
    pub name: String,
    pub note: String,
}

#[derive(Clone, Debug, PartialEq, Eq)]
pub struct ProbeRequirement {
    pub id: String,
    pub note: String,
}

pub struct ProbeResult {
    pub env_name: Option<String>,
    pub python_version: Option<ProbeValue>,
    pub cuda_wheel_version: Option<ProbeValue>,
    pub requirements: Vec<ProbeRequirement>,
    pub components: Vec<ProbeComponent>,
    pub required_dirs: Vec<String>,
    pub notes: Vec<String>,
    pub suggestions: Vec<InferenceSuggestion>,
    pub component_suggestions: Vec<ComponentSuggestion>,
}

pub type Pair = (Seq<char>, Seq<char>);

/// A probe result as text.
#[verifier::ext_equal]
pub struct ProbeView {
    pub env_name: Option<Seq<char>>,
    pub python_version: Option<Pair>,
    pub cuda_wheel_version: Option<Pair>,
    pub requirements: Seq<Pair>,
    pub components: Seq<Pair>,
    pub required_dirs: Seq<Seq<char>>,
    pub notes: Seq<Seq<char>>,
    pub suggestions: Seq<crate::init::spec::Triple>,
    pub component_suggestions: Seq<crate::init::spec::Triple>,
}

pub open spec fn value_view(v: Option<ProbeValue>) -> Option<Pair> {
    match v {
        Some(x) => Some((x.value@, x.note@)),
        None => None,
    }
}

impl View for ProbeResult {
    type V = ProbeView;

    open spec fn view(&self) -> ProbeView {
        ProbeView {
            env_name: crate::text::opt_str(self.env_name),
            python_version: value_view(self.python_version),
            cuda_wheel_version: value_view(self.cuda_wheel_version),
            requirements: self.requirements@.map_values(|r: ProbeRequirement| (r.id@, r.note@)),
            components: self.components@.map_values(|c: ProbeComponent| (c.name@, c.note@)),
            required_dirs: strs(self.required_dirs@),
            notes: strs(self.notes@),
            suggestions: crate::init::spec::suggestion_view(self.suggestions@),
            component_suggestions: crate::init::spec::component_suggestion_view(
                self.component_suggestions@,
            ),
        }
    }
}

/// A probe that found nothing.
pub open spec fn empty_probe() -> ProbeView {
    ProbeView {
        env_name: None,
        python_version: None,
        cuda_wheel_version: None,
        requirements: Seq::empty(),
        components: Seq::empty(),
        required_dirs: Seq::empty(),
        notes: Seq::empty(),
        suggestions: Seq::empty(),
        component_suggestions: Seq::empty(),
    }
}

/// The requirements added with a note.
pub open spec fn requirement_pairs(ids: Seq<Seq<char>>, note: Seq<char>) -> Seq<Pair> {
    ids.map_values(|id: Seq<char>| (id, note))
}

impl ProbeResult {
    pub fn new() -> (r: Self)
        ensures
            r@ == empty_probe(),
    {
        let r = ProbeResult {
            env_name: None,
            python_version: None,
            cuda_wheel_version: None,
            requirements: Vec::new(),
            components: Vec::new(),
            required_dirs: Vec::new(),
            notes: Vec::new(),
            suggestions: Vec::new(),
            component_suggestions: Vec::new(),
        };
        assert(r@ =~= empty_probe());
        r
    }

    pub fn add_component(&mut self, name: &str, note: &str)
        ensures
            final(self)@ == (ProbeView {
                components: old(self)@.components.push((name@, note@)),
                ..old(self)@
            }),
    {
        let ghost start = self@;
        self.components.push(ProbeComponent { name: name.to_owned(), note: note.to_owned() });
        assert(self@ =~= ProbeView { components: start.components.push((name@, note@)), ..start });
    }

    pub fn add_requirements(&mut self, requirements: &Vec<String>, note: &str)
        ensures
            final(self)@ == (ProbeView {
                requirements: old(self)@.requirements + requirement_pairs(strs(requirements@), note@),
                ..old(self)@
            }),
    {
        let ghost start = self@;
        let mut i: usize = 0;
        while i < requirements.len()
            invariant
                i <= requirements.len(),
                self@ == (ProbeView {
                    requirements: start.requirements + requirement_pairs(
                        strs(requirements@).take(i as int),
                        note@,
                    ),
                    ..start
                }),
            decreases requirements.len() - i,
        {
            let ghost before = self@;
            let ghost rv = self.requirements@;
            let item = ProbeRequirement { id: requirements[i].clone(), note: note.to_owned() };
            assert(item.id@ == requirements@[i as int]@);
            self.requirements.push(item);
            assert(self.requirements@.map_values(|r: ProbeRequirement| (r.id@, r.note@))
                =~= rv.map_values(|r: ProbeRequirement| (r.id@, r.note@)).push(
                (requirements@[i as int]@, note@),
            ));
            assert(requirement_pairs(strs(requirements@).take(i + 1), note@) =~= requirement_pairs(
                strs(requirements@).take(i as int),
                note@,
            ).push((requirements@[i as int]@, note@)));
            assert(self@ =~= ProbeView {
                requirements: start.requirements + requirement_pairs(
                    strs(requirements@).take(i + 1),
                    note@,
                ),
                ..start
            });
            i = i + 1;
        }
        assert(strs(requirements@).take(requirements.len() as int) == strs(requirements@));
    }
}

pub fn probe_pyproject_name(text: &str, probe: &mut ProbeResult)
    ensures
        final(probe)@ == (ProbeView {
            env_name: if name_of(text@) is Some {
                name_of(text@)
            } else {
                old(probe)@.env_name
            },
            ..old(probe)@
        }),
{
    let ghost start = probe@;
    match crate::pyproject::project_name(text) {
        Some(name) => {
            probe.env_name = Some(name);
        },
        None => {},
    }
    assert(probe@ =~= ProbeView {
        env_name: if name_of(text@) is Some {
            name_of(text@)
        } else {
            start.env_name
        },
        ..start
    });
}

/// The numeric run at the start of a text: digits, `.` and `*`.
pub open spec fn token_end(s: Seq<char>, i: int, star: bool) -> int
    decreases s.len() - i,
{
    if 0 <= i < s.len() && (is_digit(s[i]) || s[i] == '.' || (star && s[i] == '*')) {
        token_end(s, i + 1, star)
    } else {
        i
    }
}

/// The first digit at or after `i`.
pub open spec fn next_digit(s: Seq<char>, i: int) -> Option<int>
    decreases s.len() - i,
{
    if i < 0 || i >= s.len() {
        None
    } else if is_digit(s[i]) {
        Some(i)
    } else {
        next_digit(s, i + 1)
    }
}

pub open spec fn opt_chars(o: Option<Vec<char>>) -> Option<Seq<char>> {
    match o {
        Some(v) => Some(v@),
        None => None,
    }
}

/// A version of two or three numeric parts, once a `.*` suffix is dropped.
pub open spec fn version_of_token(token: Seq<char>) -> Option<Seq<char>> {
    let version = match strip_suffix(token, ".*"@) {
        Some(v) => v,
        None => token,
    };
    if crate::pyproject::numeric_version(version) {
        Some(version)
    } else {
        None
    }
}

/// Whether the text before a version pins it exactly.
pub open spec fn exact_prefix(before: Seq<char>) -> bool {
    let p = trim_end(before, Sep::Whitespace);
    is_suffix("==="@, p) || (is_suffix("=="@, p) && !is_suffix("!="@, p))
}

/// Scans a requirement from index `i` for versions: the first exactly
/// pinned version wins, else the first version seen (`first`).
pub open spec fn scan_versions(raw: Seq<char>, i: int, first: Option<Seq<char>>, star: bool) -> Option<Seq<char>>
    decreases raw.len() - i,
{
    if i < 0 || i >= raw.len() {
        first
    } else {
        match next_digit(raw, i) {
            None => first,
            Some(start) => {
                let end = token_end(raw, start, star);
                let found = version_of_token(raw.subrange(start, end));
                let first2 = if first is Some {
                    first
                } else {
                    found
                };
                if found is Some && exact_prefix(raw.take(start)) {
                    found
                } else if i < end + 1 && end + 1 <= raw.len() {
                    scan_versions(raw, end + 1, first2, star)
                } else {
                    first2
                }
            },
        }
    }
}

/// Where the scan would cut a string inside a multi-byte character: after
/// a version token that is followed by a non-ASCII character.
pub open spec fn scan_cuts_char(raw: Seq<char>, i: int, star: bool) -> bool
    decreases raw.len() - i,
{
    if i < 0 || i >= raw.len() {
        false
    } else {
        match next_digit(raw, i) {
            None => false,
            Some(start) => {
                let end = token_end(raw, start, star);
                let found = version_of_token(raw.subrange(start, end));
                if found is Some && exact_prefix(raw.take(start)) {
                    false
                } else if 0 <= end < raw.len() && raw[end] > '\u{7f}' {
                    true
                } else if i < end + 1 && end + 1 <= raw.len() {
                    scan_cuts_char(raw, end + 1, star)
                } else {
                    false
                }
            },
        }
    }
}

pub proof fn lemma_next_digit(s: Seq<char>, i: int)
    requires
        0 <= i,
    ensures
        next_digit(s, i) matches Some(k) ==> i <= k < s.len() && is_digit(s[k]) && forall|j: int|
            i <= j < k ==> !is_digit(s[j]),
        next_digit(s, i) is None ==> forall|j: int| i <= j < s.len() ==> !is_digit(s[j]),
    decreases s.len() - i,
{
    if i < s.len() && !is_digit(s[i]) {
        lemma_next_digit(s, i + 1);
    }
}

fn version_of_token_chars(token: &Vec<char>) -> (r: Option<Vec<char>>)
    ensures
        match r {
            Some(v) => version_of_token(token@) == Some(v@),
            None => version_of_token(token@) is None,
        },
{
    let version = match crate::text::strip_suffix_str(token, ".*") {
        Some(v) => v,
        None => crate::text::clone_chars(token),
    };
    let parts = crate::text::split_str(&version, '.');
    assert(version_of_token(token@) == (if crate::pyproject::numeric_version(version@) {
        Some(version@)
    } else {
        None
    }));
    if parts.len() != 2 && parts.len() != 3 {
        return None;
    }
    let mut i: usize = 0;
    while i < parts.len()
        invariant
            i <= parts.len(),
            crate::text::views(parts@) == split(version@, Sep::Char('.')),
            version_of_token(token@) == (if crate::pyproject::numeric_version(version@) {
                Some(version@)
            } else {
                None
            }),
            forall|k: int|
                0 <= k < i ==> #[trigger] crate::text::views(parts@)[k].len() > 0
                    && crate::text::all_digits(crate::text::views(parts@)[k]),
        decreases parts.len() - i,
    {
        assert(crate::text::views(parts@)[i as int] == parts@[i as int]@);
        if parts[i].len() == 0 || !crate::text::all_ascii_digits(&parts[i]) {
            proof {
                let ps = split(version@, Sep::Char('.'));
                assert(!(ps[i as int].len() > 0 && crate::text::all_digits(ps[i as int])));
                assert(!crate::pyproject::numeric_version(version@));
            }
            return None;
        }
        i = i + 1;
    }
    Some(version)
}

/// The Python version a non-exact requirement points to: an exactly pinned
/// version in it, else the first version it names.
pub fn infer_python_version(raw: &str) -> (r: Option<String>)
    requires
        !scan_cuts_char(raw@, 0, true),
    ensures
        match r {
            Some(v) => scan_versions(raw@, 0, None, true) == Some(v@),
            None => scan_versions(raw@, 0, None, true) is None,
        },
{
    scan_python_version(raw, true)
}

/// The scan behind `infer_python_version`; with `star` a version token may
/// hold `*` (as in `==3.11.*`), without it a `*` ends the token.
pub fn scan_python_version(raw: &str, star: bool) -> (r: Option<String>)
    requires
        !scan_cuts_char(raw@, 0, star),
    ensures
        match r {
            Some(v) => scan_versions(raw@, 0, None, star) == Some(v@),
            None => scan_versions(raw@, 0, None, star) is None,
        },
{
    let s = chars_of(raw);
    let mut first: Option<Vec<char>> = None;
    let mut offset: usize = 0;
    let mut done = false;
    while offset < s.len() && !done
        invariant
            s@ == raw@,
            offset <= s.len() + 1,
            !scan_cuts_char(raw@, offset as int, star),
            done ==> offset < s.len() && next_digit(s@, offset as int) is None,
            scan_versions(raw@, 0, None, star) == scan_versions(raw@, offset as int, opt_chars(first), star),
        decreases s.len() + 1 - offset, if done {
            0int
        } else {
            1int
        },
    {
        let mut start = offset;
        while start < s.len() && !crate::text::is_ascii_digit(s[start])
            invariant
                offset <= start <= s.len(),
                forall|j: int| offset <= j < start ==> !is_digit(s@[j]),
            decreases s.len() - start,
        {
            start = start + 1;
        }
        proof {
            lemma_next_digit(s@, offset as int);
        }
        if start == s.len() {
            proof {
                if next_digit(s@, offset as int) is Some {
                    let k = next_digit(s@, offset as int)->0;
                    assert(!is_digit(s@[k]));
                }
            }
            done = true;
        } else {
            assert(next_digit(s@, offset as int) == Some(start as int));
            let mut end = start;
            while end < s.len() && (crate::text::is_ascii_digit(s[end]) || s[end] == '.' || (star
                && s[end] == '*'))
                invariant
                    start <= end <= s.len(),
                    token_end(s@, start as int, star) == token_end(s@, end as int, star),
                decreases s.len() - end,
            {
                end = end + 1;
            }
            assert(token_end(s@, end as int, star) == end as int);
            let token = crate::text::slice(&s, start, end);
            let found = version_of_token_chars(&token);
            let head = crate::text::slice(&s, 0, start);
            assert(head@ == s@.take(start as int)) by {
                assert(s@.subrange(0, start as int) == s@.take(start as int));
            }
            let before = crate::text::trim_end_chars(&head, Sep::Whitespace);
            let exact = crate::text::ends_with_str(&before, "===") || (crate::text::ends_with_str(
                &before,
                "==",
            ) && !crate::text::ends_with_str(&before, "!="));
            match found {
                Some(v) => {
                    if exact {
                        return Some(string_of(&v));
                    }
                    if first.is_none() {
                        first = Some(v);
                    }
                },
                None => {},
            }
            proof {
                if end < s.len() {
                    assert(!(s@[end as int] > '\u{7f}'));
                }
            }
            if end < s.len() {
                offset = end + 1;
            } else {
                offset = end;
            }
        }
    }
    match first {
        Some(f) => Some(string_of(&f)),
        None => None,
    }
}

/// Whether scanning the requirement for a version would cut a multi-byte
/// character (where `infer_python_version` and its scan do not apply).
pub fn scan_would_cut(raw: &str, star: bool) -> (r: bool)
    ensures
        r == scan_cuts_char(raw@, 0, star),
{
    let s = chars_of(raw);
    let mut offset: usize = 0;
    while offset < s.len()
        invariant
            s@ == raw@,
            offset <= s.len(),
            scan_cuts_char(raw@, 0, star) == scan_cuts_char(raw@, offset as int, star),
        decreases s.len() - offset,
    {
        let mut start = offset;
        while start < s.len() && !crate::text::is_ascii_digit(s[start])
            invariant
                offset <= start <= s.len(),
                forall|j: int| offset <= j < start ==> !is_digit(s@[j]),
            decreases s.len() - start,
        {
            start = start + 1;
        }
        proof {
            lemma_next_digit(s@, offset as int);
        }
        if start == s.len() {
            proof {
                if next_digit(s@, offset as int) is Some {
                    let k = next_digit(s@, offset as int)->0;
                    assert(!is_digit(s@[k]));
                }
            }
            return false;
        }
        assert(next_digit(s@, offset as int) == Some(start as int));
        let mut end = start;
        while end < s.len() && (crate::text::is_ascii_digit(s[end]) || s[end] == '.' || (star && s[end]
            == '*'))
            invariant
                start <= end <= s.len(),
                token_end(s@, start as int, star) == token_end(s@, end as int, star),
            decreases s.len() - end,
        {
            end = end + 1;
        }
        assert(token_end(s@, end as int, star) == end as int);
        let token = crate::text::slice(&s, start, end);
        let found = version_of_token_chars(&token);
        let head = crate::text::slice(&s, 0, start);
        assert(head@ == s@.take(start as int)) by {
            assert(s@.subrange(0, start as int) == s@.take(start as int));
        }
        let before = crate::text::trim_end_chars(&head, Sep::Whitespace);
        let exact = crate::text::ends_with_str(&before, "===") || (crate::text::ends_with_str(
            &before,
            "==",
        ) && !crate::text::ends_with_str(&before, "!="));
        if found.is_some() && exact {
            return false;
        }
        if end < s.len() && s[end] > '\u{7f}' {
            return true;
        }
        if end < s.len() {
            offset = end + 1;
        } else {
            return false;
        }
    }
    false
}

/// The note for a Python version read from `requires-python`.
pub open spec fn python_note(v: Seq<char>) -> Seq<char> {
    "python "@ + v + ": pyproject.toml requires-python"@
}

/// The Python version `pyproject.toml` asks for: its exact pin, else the
/// version its requirement points to.
pub open spec fn probed_python(text: Seq<char>) -> Option<Seq<char>> {
    match exact_python(text) {
        Some(v) => Some(v),
        None => match requires_python(text) {
            Some(raw) => scan_versions(raw, 0, None, true),
            None => None,
        },
    }
}

/// The requirement can be scanned (see `infer_python_version`).
pub open spec fn python_probe_ok(text: Seq<char>) -> bool {
    exact_python(text) is None && requires_python(text) is Some ==> !scan_cuts_char(
        requires_python(text)->0,
        0,
        true,
    )
}

pub fn probe_python_version(text: &str, probe: &mut ProbeResult)
    requires
        python_probe_ok(text@),
    ensures
        final(probe)@ == (ProbeView {
            python_version: match probed_python(text@) {
                Some(v) => Some((v, python_note(v))),
                None => old(probe)@.python_version,
            },
            ..old(probe)@
        }),
{
    let ghost start = probe@;
    let version = match crate::pyproject::exact_python_requirement(text) {
        Some(v) => Some(v),
        None => match crate::pyproject::python_requirement(text) {
            Some(raw) => infer_python_version(raw.as_str()),
            None => None,
        },
    };
    match version {
        Some(v) => {
            let note = crate::text::concat3("python ", v.as_str(), ": pyproject.toml requires-python");
            probe.python_version = Some(ProbeValue { value: v, note });
        },
        None => {},
    }
    assert(probe@ =~= ProbeView {
        python_version: match probed_python(text@) {
            Some(v) => Some((v, python_note(v))),
            None => start.python_version,
        },
        ..start
    });
}

/// The note for a CUDA version read from `uv.lock`.
pub open spec fn cuda_note(v: Seq<char>) -> Seq<char> {
    "cudaWheelVersion="@ + v + ": inferred from uv.lock"@
}

pub fn probe_cuda_lock_version(lock: &str, probe: &mut ProbeResult)
    ensures
        final(probe)@ == (ProbeView {
            cuda_wheel_version: match crate::runtime::lock_version_spec(lock@) {
                Some(v) => Some((v, cuda_note(v))),
                None => old(probe)@.cuda_wheel_version,
            },
            ..old(probe)@
        }),
{
    let ghost start = probe@;
    match crate::runtime::infer_cuda_wheel_version_from_uv_lock_text(lock) {
        Some(version) => {
            let note = crate::text::concat3(
                "cudaWheelVersion=",
                version.as_str(),
                ": inferred from uv.lock",
            );
            probe.cuda_wheel_version = Some(ProbeValue { value: version, note });
        },
        None => {},
    }
    assert(probe@ =~= ProbeView {
        cuda_wheel_version: match crate::runtime::lock_version_spec(lock@) {
            Some(v) => Some((v, cuda_note(v))),
            None => start.cuda_wheel_version,
        },
        ..start
    });
}

pub fn has_dep(dependencies: &Vec<String>, names: &Vec<String>) -> (r: bool)
    ensures
        r == has_any(strs(dependencies@).to_set(), strs(names@)),
{
    let mut refs: Vec<&str> = Vec::new();
    let mut i: usize = 0;
    while i < names.len()
        invariant
            i <= names.len(),
            refs@.map_values(|s: &str| s@) == strs(names@).take(i as int),
        decreases names.len() - i,
    {
        let ghost before = refs@;
        refs.push(names[i].as_str());
        assert(refs@.map_values(|s: &str| s@) =~= before.map_values(|s: &str| s@).push(
            names@[i as int]@,
        ));
        assert(strs(names@).take(i + 1) =~= strs(names@).take(i as int).push(names@[i as int]@));
        i = i + 1;
    }
    assert(strs(names@).take(names.len() as int) == strs(names@));
    crate::pyproject::has_dependency_name(dependencies, refs.as_slice())
}

/// A rule's components and requirements added with its note.
pub open spec fn with_rule(p: ProbeView, components: Seq<Seq<char>>, needs: Seq<Seq<char>>, note: Seq<char>) -> ProbeView {
    ProbeView {
        components: p.components + requirement_pairs(components, note),
        requirements: p.requirements + requirement_pairs(needs, note),
        ..p
    }
}

/// The simple rules that fire, in order.
pub open spec fn after_rules(
    p: ProbeView,
    rules: Seq<crate::init::manifest::DependencyRule>,
    deps: Set<Seq<char>>,
) -> ProbeView
    decreases rules.len(),
{
    if rules.len() == 0 {
        p
    } else {
        let prev = after_rules(p, rules.drop_last(), deps);
        let rule = rules.last();
        if has_any(deps, strs(rule.dependencies@)) {
            with_rule(prev, strs(rule.components@), strs(rule.requires@), rule.note@)
        } else {
            prev
        }
    }
}

/// Whether every group of a compound rule has a dependency present.
pub open spec fn all_groups(groups: Seq<Vec<String>>, deps: Set<Seq<char>>) -> bool {
    forall|g: int| 0 <= g < groups.len() ==> has_any(deps, strs(#[trigger] groups[g]@))
}

/// The compound rules that fire, in order.
pub open spec fn after_compound_rules(
    p: ProbeView,
    rules: Seq<crate::init::manifest::CompoundDependencyRule>,
    deps: Set<Seq<char>>,
) -> ProbeView
    decreases rules.len(),
{
    if rules.len() == 0 {
        p
    } else {
        let prev = after_compound_rules(p, rules.drop_last(), deps);
        let rule = rules.last();
        if all_groups(rule.dependencies_all@, deps) {
            with_rule(prev, strs(rule.components@), strs(rule.requires@), rule.note@)
        } else {
            prev
        }
    }
}

fn apply_rule(probe: &mut ProbeResult, components: &Vec<String>, needs: &Vec<String>, note: &str)
    ensures
        final(probe)@ == with_rule(old(probe)@, strs(components@), strs(needs@), note@),
{
    let ghost start = probe@;
    let mut i: usize = 0;
    while i < components.len()
        invariant
            i <= components.len(),
            probe@ == (ProbeView {
                components: start.components + requirement_pairs(
                    strs(components@).take(i as int),
                    note@,
                ),
                ..start
            }),
        decreases components.len() - i,
    {
        let ghost before = probe@;
        probe.add_component(components[i].as_str(), note);
        assert(requirement_pairs(strs(components@).take(i + 1), note@) =~= requirement_pairs(
            strs(components@).take(i as int),
            note@,
        ).push((components@[i as int]@, note@)));
        assert(probe@ =~= ProbeView {
            components: start.components + requirement_pairs(
                strs(components@).take(i + 1),
                note@,
            ),
            ..start
        });
        i = i + 1;
    }
    assert(strs(components@).take(components.len() as int) == strs(components@));
    if needs.len() > 0 {
        probe.add_requirements(needs, note);
    } else {
        assert(requirement_pairs(strs(needs@), note@) =~= Seq::<Pair>::empty());
        assert(start.requirements + Seq::<Pair>::empty() =~= start.requirements);
    }
    assert(probe@ =~= with_rule(start, strs(components@), strs(needs@), note@));
}

pub fn probe_dependencies(text: &str, manifest: &Manifest, probe: &mut ProbeResult)
    ensures
        final(probe)@ == after_compound_rules(
            after_rules(old(probe)@, manifest.runtime_inference.dependency_rules@, dependency_set(text@)),
            manifest.runtime_inference.compound_dependency_rules@,
            dependency_set(text@),
        ),
{
    let deps = crate::pyproject::dependency_names(text);
    let ghost ds = dependency_set(text@);
    let ghost start = probe@;
    let rules = &manifest.runtime_inference.dependency_rules;
    let mut i: usize = 0;
    while i < rules.len()
        invariant
            i <= rules.len(),
            strs(deps@).to_set() == ds,
            probe@ == after_rules(start, rules@.take(i as int), ds),
        decreases rules.len() - i,
    {
        assert(rules@.take(i + 1).drop_last() == rules@.take(i as int));
        assert(rules@.take(i + 1).last() == rules@[i as int]);
        if has_dep(&deps, &rules[i].dependencies) {
            apply_rule(probe, &rules[i].components, &rules[i].requires, rules[i].note.as_str());
        }
        i = i + 1;
    }
    assert(rules@.take(rules.len() as int) == rules@);
    let ghost middle = probe@;
    let compound = &manifest.runtime_inference.compound_dependency_rules;
    let mut k: usize = 0;
    while k < compound.len()
        invariant
            k <= compound.len(),
            strs(deps@).to_set() == ds,
            probe@ == after_compound_rules(middle, compound@.take(k as int), ds),
        decreases compound.len() - k,
    {
        assert(compound@.take(k + 1).drop_last() == compound@.take(k as int));
        assert(compound@.take(k + 1).last() == compound@[k as int]);
        let groups = &compound[k].dependencies_all;
        let mut all = true;
        let mut g: usize = 0;
        while g < groups.len()
            invariant
                g <= groups.len(),
                strs(deps@).to_set() == ds,
                all == forall|j: int| 0 <= j < g ==> has_any(ds, strs(#[trigger] groups@[j]@)),
            decreases groups.len() - g,
        {
            if !has_dep(&deps, &groups[g]) {
                all = false;
            }
            g = g + 1;
        }
        if all {
            apply_rule(
                probe,
                &compound[k].components,
                &compound[k].requires,
                compound[k].note.as_str(),
            );
        }
        k = k + 1;
    }
    assert(compound@.take(compound.len() as int) == compound@);
}

pub fn probe_pyproject(text: &str, manifest: &Manifest, probe: &mut ProbeResult)
    requires
        python_probe_ok(text@),
    ensures
        final(probe)@ == after_compound_rules(
            after_rules(
                ProbeView {
                    env_name: if name_of(text@) is Some {
                        name_of(text@)
                    } else {
                        old(probe)@.env_name
                    },
                    python_version: match probed_python(text@) {
                        Some(v) => Some((v, python_note(v))),
                        None => old(probe)@.python_version,
                    },
                    ..old(probe)@
                },
                manifest.runtime_inference.dependency_rules@,
                dependency_set(text@),
            ),
            manifest.runtime_inference.compound_dependency_rules@,
            dependency_set(text@),
        ),
{
    probe_pyproject_name(text, probe);
    probe_python_version(text, probe);
    probe_dependencies(text, manifest, probe);
}

/// What probing a project finds, from the texts of its `pyproject.toml`
/// and `uv.lock` when they could be read.
pub open spec fn probed(pyproject: Option<Seq<char>>, uv_lock: Option<Seq<char>>, m: Manifest) -> ProbeView {
    let p = match pyproject {
        Some(text) => after_compound_rules(
            after_rules(
                ProbeView {
                    env_name: name_of(text),
                    python_version: match probed_python(text) {
                        Some(v) => Some((v, python_note(v))),
                        None => None,
                    },
                    ..empty_probe()
                },
                m.runtime_inference.dependency_rules@,
                dependency_set(text),
            ),
            m.runtime_inference.compound_dependency_rules@,
            dependency_set(text),
        ),
        None => empty_probe(),
    };
    match uv_lock {
        Some(lock) => ProbeView {
            cuda_wheel_version: match crate::runtime::lock_version_spec(lock) {
                Some(v) => Some((v, cuda_note(v))),
                None => p.cuda_wheel_version,
            },
            ..p
        },
        None => p,
    }
}

pub open spec fn opt_text(o: Option<&str>) -> Option<Seq<char>> {
    match o {
        Some(s) => Some(s@),
        None => None,
    }
}

pub fn probe_project(pyproject: Option<&str>, uv_lock: Option<&str>, manifest: &Manifest) -> (r:
    ProbeResult)
    requires
        pyproject matches Some(text) ==> python_probe_ok(text@),
    ensures
        r@ == probed(opt_text(pyproject), opt_text(uv_lock), *manifest),
{
    let mut probe = ProbeResult::new();
    match pyproject {
        Some(text) => {
            probe_pyproject(text, manifest, &mut probe);
            proof {
                let e = empty_probe();
                assert((ProbeView {
                    env_name: if name_of(text@) is Some {
                        name_of(text@)
                    } else {
                        e.env_name
                    },
                    python_version: match probed_python(text@) {
                        Some(v) => Some((v, python_note(v))),
                        None => e.python_version,
                    },
                    ..e
                }) =~= (ProbeView {
                    env_name: name_of(text@),
                    python_version: match probed_python(text@) {
                        Some(v) => Some((v, python_note(v))),
                        None => None,
                    },
                    ..empty_probe()
                }));
            }
        },
        None => {},
    }
    match uv_lock {
        Some(lock) => {
            probe_cuda_lock_version(lock, &mut probe);
        },
        None => {},
    }
    probe
}

/// A compound rule fires only when each of its dependency groups names a
/// dependency that is present: when some group names none, adding the rule
/// after any others leaves the probe as those others left it.
pub proof fn law_compound_rule_needs_every_group(
    p: ProbeView,
    rules: Seq<crate::init::manifest::CompoundDependencyRule>,
    rule: crate::init::manifest::CompoundDependencyRule,
    deps: Set<Seq<char>>,
    g: int,
)
    requires
        0 <= g < rule.dependencies_all@.len(),
        forall|k: int|
            0 <= k < rule.dependencies_all@[g]@.len() ==> !deps.contains(
                crate::pyproject::normalized(#[trigger] rule.dependencies_all@[g]@[k]@),
            ),
    ensures
        after_compound_rules(p, rules.push(rule), deps) == after_compound_rules(p, rules, deps),
{
    assert(rules.push(rule).drop_last() =~= rules);
    assert(rules.push(rule).last() == rule);
    let group = strs(rule.dependencies_all@[g]@);
    assert(!has_any(deps, group)) by {
        if has_any(deps, group) {
            let k = choose|k: int| 0 <= k < group.len() && deps.contains(crate::pyproject::normalized(#[trigger] group[k]));
            assert(group[k] == rule.dependencies_all@[g]@[k]@);
        }
    }
    assert(!all_groups(rule.dependencies_all@, deps));
}

/// When each dependency group of a compound rule names a present
/// dependency, the rule adds each of its components, with its note, after
/// those already found, and each of its requirements likewise.
pub proof fn law_compound_rule_fires_on_every_group(
    p: ProbeView,
    rules: Seq<crate::init::manifest::CompoundDependencyRule>,
    rule: crate::init::manifest::CompoundDependencyRule,
    deps: Set<Seq<char>>,
)
    requires
        forall|g: int|
            0 <= g < rule.dependencies_all@.len() ==> exists|k: int|
                0 <= k < (#[trigger] rule.dependencies_all@[g])@.len() && deps.contains(
                    crate::pyproject::normalized(rule.dependencies_all@[g]@[k]@),
                ),
    ensures
        ({
            let before = after_compound_rules(p, rules, deps);
            let after = after_compound_rules(p, rules.push(rule), deps);
            &&& after.components.len() == before.components.len() + rule.components@.len()
            &&& after.components.take(before.components.len() as int) == before.components
            &&& forall|i: int|
                0 <= i < rule.components@.len() ==> after.components[before.components.len() + i] == (
                    (#[trigger] rule.components@[i])@,
                    rule.note@,
                )
            &&& after.requirements.len() == before.requirements.len() + rule.requires@.len()
            &&& after.requirements.take(before.requirements.len() as int) == before.requirements
            &&& forall|i: int|
                0 <= i < rule.requires@.len() ==> after.requirements[before.requirements.len() + i] == (
                    (#[trigger] rule.requires@[i])@,
                    rule.note@,
                )
        }),
{
    assert(rules.push(rule).drop_last() =~= rules);
    assert(rules.push(rule).last() == rule);
    assert forall|g: int| 0 <= g < rule.dependencies_all@.len() implies has_any(
        deps,
        strs(#[trigger] rule.dependencies_all@[g]@),
    ) by {
        let k = choose|k: int|
            0 <= k < rule.dependencies_all@[g]@.len() && deps.contains(
                crate::pyproject::normalized(rule.dependencies_all@[g]@[k]@),
            );
        assert(strs(rule.dependencies_all@[g]@)[k] == rule.dependencies_all@[g]@[k]@);
    }
    assert(all_groups(rule.dependencies_all@, deps));
    let before = after_compound_rules(p, rules, deps);
    let after = after_compound_rules(p, rules.push(rule), deps);
    assert(after == with_rule(before, strs(rule.components@), strs(rule.requires@), rule.note@));
    assert(after.components.take(before.components.len() as int) =~= before.components);
    assert(after.requirements.take(before.requirements.len() as int) =~= before.requirements);
}

/// A simple rule none of whose dependencies is present leaves the probe as
/// the rules before it left it.
pub proof fn law_rule_needs_a_dependency(
    p: ProbeView,
    rules: Seq<crate::init::manifest::DependencyRule>,
    rule: crate::init::manifest::DependencyRule,
    deps: Set<Seq<char>>,
)
    requires
        forall|k: int|
            0 <= k < rule.dependencies@.len() ==> !deps.contains(
                crate::pyproject::normalized(#[trigger] rule.dependencies@[k]@),
            ),
    ensures
        after_rules(p, rules.push(rule), deps) == after_rules(p, rules, deps),
{
    assert(rules.push(rule).drop_last() =~= rules);
    assert(rules.push(rule).last() == rule);
    let names = strs(rule.dependencies@);
    assert(!has_any(deps, names)) by {
        if has_any(deps, names) {
            let k = choose|k: int| 0 <= k < names.len() && deps.contains(crate::pyproject::normalized(#[trigger] names[k]));
            assert(names[k] == rule.dependencies@[k]@);
        }
    }
}

/// A simple rule one of whose dependencies is present adds each of its
/// components and requirements, with its note, after those already found.
pub proof fn law_rule_fires_on_a_dependency(
    p: ProbeView,
    rules: Seq<crate::init::manifest::DependencyRule>,
    rule: crate::init::manifest::DependencyRule,
    deps: Set<Seq<char>>,
    k: int,
)
    requires
        0 <= k < rule.dependencies@.len(),
        deps.contains(crate::pyproject::normalized(rule.dependencies@[k]@)),
    ensures
        ({
            let before = after_rules(p, rules, deps);
            let after = after_rules(p, rules.push(rule), deps);
            &&& after.components.len() == before.components.len() + rule.components@.len()
            &&& after.components.take(before.components.len() as int) == before.components
            &&& forall|i: int|
                0 <= i < rule.components@.len() ==> after.components[before.components.len() + i] == (
                    (#[trigger] rule.components@[i])@,
                    rule.note@,
                )
            &&& after.requirements.len() == before.requirements.len() + rule.requires@.len()
            &&& after.requirements.take(before.requirements.len() as int) == before.requirements
            &&& forall|i: int|
                0 <= i < rule.requires@.len() ==> after.requirements[before.requirements.len() + i] == (
                    (#[trigger] rule.requires@[i])@,
                    rule.note@,
                )
        }),
{
    assert(rules.push(rule).drop_last() =~= rules);
    assert(rules.push(rule).last() == rule);
    assert(strs(rule.dependencies@)[k] == rule.dependencies@[k]@);
    assert(has_any(deps, strs(rule.dependencies@)));
    let before = after_rules(p, rules, deps);
    let after = after_rules(p, rules.push(rule), deps);
    assert(after == with_rule(before, strs(rule.components@), strs(rule.requires@), rule.note@));
    assert(after.components.take(before.components.len() as int) =~= before.components);
    assert(after.requirements.take(before.requirements.len() as int) =~= before.requirements);
}

} // verus!

