//! The init pipeline: profile, target directory, probing, command line,
//! normal form.
use vstd::prelude::*;
use crate::init::InitArgs;
use crate::init::manifest::{find_profile, Manifest};
use crate::init::probe::{opt_text, probe_project, probed, python_probe_ok};
use crate::init::spec::{
    deduped, lemma_deduped_contains, list_items, normal_form, parse_list, profile_spec, push_new, push_unique, with_component,
    with_probe, ComponentProvenance, ProjectSpec, SpecView, Triple, dedupe_all, provenance_view,
};
use crate::text::{file_name, file_name_str, strs};

verus! {

/// A runtime description and the directory it is for.
pub struct ProjectDraft {
    pub target_dir: String,
    pub spec: ProjectSpec,
}

/// The name a target directory gives an environment still called `project`:
/// the directory's own name, unless it has none or it is `.`.
pub open spec fn target_defaults(target_dir: Seq<char>, s: SpecView) -> SpecView {
    if s.env_name == "project"@ {
        match file_name(target_dir) {
            Some(name) => if name.len() > 0 && name != seq!['.'] {
                SpecView { env_name: name, ..s }
            } else {
                s
            },
            None => s,
        }
    } else {
        s
    }
}

pub fn apply_target_defaults(target_dir: &str, spec: &mut ProjectSpec)
    ensures
        final(spec)@ == target_defaults(target_dir@, old(spec)@),
{
    proof {
        reveal_strlit("project");
    }
    if !crate::text::str_eq(spec.env_name.as_str(), "project") {
        return;
    }
    match file_name_str(target_dir) {
        Some(name) => {
            let dot = name.len() == 1 && name[0] == '.';
            proof {
                if dot {
                    assert(name@ =~= seq!['.']);
                } else if name@ == seq!['.'] {
                    assert(name@[0] == '.');
                }
            }
            if name.len() > 0 && !dot {
                spec.env_name = crate::text::string_of(&name);
            }
        },
        None => {},
    }
}

/// Each item added at the end unless it is already there.
pub open spec fn push_all_new(s: Seq<Seq<char>>, items: Seq<Seq<char>>) -> Seq<Seq<char>>
    decreases items.len(),
{
    if items.len() == 0 {
        s
    } else {
        push_new(push_all_new(s, items.drop_last()), items.last())
    }
}

/// The components added one after another, each for the same reason.
pub open spec fn with_components(s: SpecView, cs: Seq<Seq<char>>, source: Seq<char>, reason: Seq<char>) -> SpecView
    decreases cs.len(),
{
    if cs.len() == 0 {
        s
    } else {
        with_component(with_components(s, cs.drop_last(), source, reason), cs.last(), source, reason)
    }
}

/// The provenance of components chosen with `--components`.
pub open spec fn manual_provenance(cs: Seq<Seq<char>>) -> Seq<Triple> {
    cs.map_values(|c: Seq<char>| (c, "manual config"@, "selected with --components"@))
}

/// The component list `--components` replaces, with its provenance.
pub open spec fn cli_components(a: InitArgs, s: SpecView) -> SpecView {
    match a.components {
        Some(c) => SpecView {
            components: list_items(c@),
            component_provenance: manual_provenance(list_items(c@)),
            ..s
        },
        None => s,
    }
}

/// What the command line sets: the component list (replacing the one so far),
/// name, description, Python version, systems and workspace root; the paths,
/// scripts and variables it adds; and the components of `--with`, added last.
pub open spec fn cli_overrides(a: InitArgs, s: SpecView) -> SpecView {
    let s1 = cli_components(a, s);
    let s2 = SpecView {
        env_name: match a.name {
            Some(n) => n@,
            None => s1.env_name,
        },
        description: match a.description {
            Some(d) => d@,
            None => s1.description,
        },
        python_version: match a.python_version {
            Some(v) => v@,
            None => s1.python_version,
        },
        supported_systems: match a.systems {
            Some(x) => list_items(x@),
            None => s1.supported_systems,
        },
        workspace_root: a.workspace_root@,
        required_dirs: push_all_new(s1.required_dirs, strs(a.required_dir@)),
        required_files: push_all_new(s1.required_files, strs(a.required_file@)),
        source_scripts: push_all_new(s1.source_scripts, strs(a.source_script@)),
        env: push_all_new(s1.env, strs(a.env@)),
        ..s1
    };
    match a.with_components {
        Some(w) => with_components(s2, list_items(w@), "manual config"@, "selected with --with"@),
        None => s2,
    }
}

fn push_all_unique(items: &mut Vec<String>, extra: &Vec<String>)
    ensures
        strs(final(items)@) == push_all_new(strs(old(items)@), strs(extra@)),
{
    let ghost start = strs(items@);
    let mut i: usize = 0;
    while i < extra.len()
        invariant
            i <= extra.len(),
            strs(items@) == push_all_new(start, strs(extra@).take(i as int)),
        decreases extra.len() - i,
    {
        push_unique(items, extra[i].as_str());
        assert(strs(extra@).take(i + 1).drop_last() == strs(extra@).take(i as int));
        i = i + 1;
    }
    assert(strs(extra@).take(extra.len() as int) == strs(extra@));
}

fn manual_components(components: &Vec<String>) -> (r: Vec<ComponentProvenance>)
    ensures
        provenance_view(r@) == manual_provenance(strs(components@)),
{
    let mut out: Vec<ComponentProvenance> = Vec::new();
    let mut i: usize = 0;
    while i < components.len()
        invariant
            i <= components.len(),
            provenance_view(out@) == manual_provenance(strs(components@).take(i as int)),
        decreases components.len() - i,
    {
        let ghost prev = out@;
        let entry = ComponentProvenance {
            name: components[i].clone(),
            source: "manual config".to_string(),
            reason: "selected with --components".to_string(),
        };
        assert(entry@ == (components@[i as int]@, "manual config"@, "selected with --components"@));
        out.push(entry);
        assert(provenance_view(out@) =~= provenance_view(prev).push(entry@));
        assert(strs(components@).take(i + 1) =~= strs(components@).take(i as int).push(components@[i as int]@));
        assert(provenance_view(out@) =~= manual_provenance(strs(components@).take(i + 1)));
        i = i + 1;
    }
    assert(strs(components@).take(components.len() as int) == strs(components@));
    out
}

pub fn apply_cli_overrides(args: &InitArgs, spec: &mut ProjectSpec)
    ensures
        final(spec)@ == cli_overrides(*args, old(spec)@),
{
    let ghost s0 = spec@;
    match &args.components {
        Some(components) => {
            spec.components = parse_list(components.as_str());
            spec.component_provenance = manual_components(&spec.components);
        },
        None => {},
    }
    let ghost s1 = spec@;
    match &args.name {
        Some(name) => {
            spec.env_name = name.clone();
        },
        None => {},
    }
    match &args.description {
        Some(description) => {
            spec.description = description.clone();
        },
        None => {},
    }
    match &args.python_version {
        Some(version) => {
            spec.python_version = version.clone();
        },
        None => {},
    }
    match &args.systems {
        Some(systems) => {
            spec.supported_systems = parse_list(systems.as_str());
        },
        None => {},
    }
    spec.workspace_root = args.workspace_root.clone();
    push_all_unique(&mut spec.required_dirs, &args.required_dir);
    push_all_unique(&mut spec.required_files, &args.required_file);
    push_all_unique(&mut spec.source_scripts, &args.source_script);
    push_all_unique(&mut spec.env, &args.env);
    let ghost s2 = spec@;
    proof {
        let t1 = cli_components(*args, s0);
        assert(s1 =~= t1);
    }
    match &args.with_components {
        Some(extra) => {
            let items = parse_list(extra.as_str());
            let ghost cs = strs(items@);
            let mut i: usize = 0;
            while i < items.len()
                invariant
                    i <= items.len(),
                    cs == strs(items@),
                    spec@ == with_components(s2, cs.take(i as int), "manual config"@, "selected with --with"@),
                decreases items.len() - i,
            {
                assert(cs.take(i + 1).drop_last() == cs.take(i as int));
                spec.add_component_with_source(
                    items[i].as_str(),
                    "manual config",
                    "selected with --with".to_string(),
                );
                i = i + 1;
            }
            assert(cs.take(items.len() as int) == cs);
        },
        None => {},
    }
}

/// The description `robo init` builds before normalizing it: the profile's
/// description, named after the target directory, with what probing found
/// (unless switched off) and then the command line applied.
pub open spec fn draft_before_normal_form(
    a: InitArgs,
    m: Manifest,
    profile: Seq<char>,
    p: crate::init::manifest::Profile,
    target_dir: Seq<char>,
    pyproject: Option<Seq<char>>,
    uv_lock: Option<Seq<char>>,
) -> SpecView {
    let s = target_defaults(target_dir, profile_spec(m, profile, p));
    let s = if a.no_probe {
        s
    } else {
        with_probe(s, m, probed(pyproject, uv_lock, m))
    };
    cli_overrides(a, s)
}

/// The profile `robo init` starts from: the one asked for, else the default.
pub open spec fn chosen_profile(a: InitArgs, m: Manifest) -> Seq<char> {
    match a.profile {
        Some(p) => p@,
        None => m.runtime_inference.default_profile@,
    }
}

/// The target directory: the one given, else `.`.
pub open spec fn chosen_target(a: InitArgs) -> Seq<char> {
    match a.target {
        Some(t) => t@,
        None => seq!['.'],
    }
}

/// The draft for a target directory whose `pyproject.toml` and `uv.lock`
/// hold the given texts (where they exist): the chosen profile's
/// description with the target's name, probing and the command line
/// applied, in normal form. Fails exactly when the profile is unknown.
pub fn build_draft(
    args: &InitArgs,
    manifest: &Manifest,
    pyproject: Option<&str>,
    uv_lock: Option<&str>,
) -> (r: Result<ProjectDraft, String>)
    requires
        !args.no_probe ==> (pyproject matches Some(text) ==> python_probe_ok(text@)),
    ensures
        match r {
            Ok(d) => d.target_dir@ == chosen_target(*args) && exists|i: int|
                0 <= i < manifest.profiles.len() && manifest.profiles@[i].0@ == chosen_profile(
                    *args,
                    *manifest,
                ) && (forall|j: int|
                    0 <= j < i ==> #[trigger] manifest.profiles@[j].0@ != chosen_profile(
                        *args,
                        *manifest,
                    )) && normal_form(
                    draft_before_normal_form(
                        *args,
                        *manifest,
                        chosen_profile(*args, *manifest),
                        manifest.profiles@[i].1,
                        chosen_target(*args),
                        opt_text(pyproject),
                        opt_text(uv_lock),
                    ),
                    d.spec@,
                ),
            Err(e) => (forall|i: int|
                0 <= i < manifest.profiles.len() ==> #[trigger] manifest.profiles@[i].0@
                    != chosen_profile(*args, *manifest)) && e@ == "unknown profile: "@
                + chosen_profile(*args, *manifest),
        },
{
    let profile: &str = match &args.profile {
        Some(p) => p.as_str(),
        None => manifest.runtime_inference.default_profile.as_str(),
    };
    let target_dir: String = match &args.target {
        Some(t) => t.clone(),
        None => crate::text::string_of(&vec!['.']),
    };
    let mut spec = match ProjectSpec::from_profile(profile, manifest) {
        Ok(s) => s,
        Err(e) => {
            return Err(e);
        },
    };
    let ghost name = chosen_profile(*args, *manifest);
    assert(profile@ == name);
    let ghost k = choose|k: int|
        0 <= k < manifest.profiles.len() && manifest.profiles@[k].0@ == name && (forall|j: int|
            0 <= j < k ==> #[trigger] manifest.profiles@[j].0@ != name) && spec@ == profile_spec(
            *manifest,
            name,
            manifest.profiles@[k].1,
        );
    assert(target_dir@ == chosen_target(*args));
    apply_target_defaults(target_dir.as_str(), &mut spec);
    if !args.no_probe {
        let probe = probe_project(pyproject, uv_lock, manifest);
        spec.apply_probe(manifest, probe);
    }
    apply_cli_overrides(args, &mut spec);
    let ghost before = spec@;
    assert(before == draft_before_normal_form(
        *args,
        *manifest,
        name,
        manifest.profiles@[k].1,
        chosen_target(*args),
        opt_text(pyproject),
        opt_text(uv_lock),
    ));
    dedupe_all(&mut spec);
    Ok(ProjectDraft { target_dir, spec })
}

/// Adding components touches only the components, the notes and the
/// provenance.
pub proof fn lemma_with_components_frame(s: SpecView, cs: Seq<Seq<char>>, source: Seq<char>, reason: Seq<char>)
    ensures
        with_components(s, cs, source, reason) == (SpecView {
            components: with_components(s, cs, source, reason).components,
            probe_notes: with_components(s, cs, source, reason).probe_notes,
            component_provenance: with_components(s, cs, source, reason).component_provenance,
            ..s
        }),
    decreases cs.len(),
{
    if cs.len() > 0 {
        lemma_with_components_frame(s, cs.drop_last(), source, reason);
    }
}

/// Each component added is in the list afterwards, and so is each one
/// there before.
pub proof fn lemma_with_components_contains(s: SpecView, cs: Seq<Seq<char>>, source: Seq<char>, reason: Seq<char>, c: Seq<char>)
    requires
        cs.contains(c) || s.components.contains(c),
    ensures
        with_components(s, cs, source, reason).components.contains(c),
    decreases cs.len(),
{
    if cs.len() > 0 {
        let prev = with_components(s, cs.drop_last(), source, reason);
        if c == cs.last() {
            let pc = prev.components;
            if !pc.contains(c) {
                assert(pc.push(c)[pc.len() as int] == c);
            }
        } else {
            let k = choose|k: int| 0 <= k < cs.len() && cs[k] == c;
            if cs.contains(c) {
                assert(cs.drop_last()[k] == c);
            }
            lemma_with_components_contains(s, cs.drop_last(), source, reason, c);
            let pc = prev.components;
            let j = choose|j: int| 0 <= j < pc.len() && pc[j] == c;
            if !pc.contains(cs.last()) {
                assert(pc.push(cs.last())[j] == c);
            }
        }
    }
}

/// Values given on the command line win over what probing a project
/// finds: the draft has the name, description, Python version and
/// workspace root given, the systems given (each once), and each component
/// asked for with `--with`.
pub proof fn law_explicit_cli_values_win(
    a: InitArgs,
    m: Manifest,
    profile: Seq<char>,
    p: crate::init::manifest::Profile,
    target_dir: Seq<char>,
    pyproject: Option<Seq<char>>,
    uv_lock: Option<Seq<char>>,
    after: SpecView,
)
    requires
        normal_form(draft_before_normal_form(a, m, profile, p, target_dir, pyproject, uv_lock), after),
    ensures
        a.name matches Some(n) ==> after.env_name == n@,
        a.description matches Some(d) ==> after.description == d@,
        a.python_version matches Some(v) ==> after.python_version == v@,
        after.workspace_root == a.workspace_root@,
        a.systems matches Some(x) ==> after.supported_systems == deduped(list_items(x@)),
        a.with_components matches Some(w) ==> forall|c: Seq<char>|
            #[trigger] list_items(w@).contains(c) ==> after.components.contains(c),
{
    let before = draft_before_normal_form(a, m, profile, p, target_dir, pyproject, uv_lock);
    match a.with_components {
        Some(w) => {
            assert forall|c: Seq<char>| #[trigger] list_items(w@).contains(c) implies after.components.contains(c) by {
                let s = target_defaults(target_dir, profile_spec(m, profile, p));
                let s = if a.no_probe {
                    s
                } else {
                    with_probe(s, m, probed(pyproject, uv_lock, m))
                };
                let s1 = cli_components(a, s);
                let s2 = SpecView {
                    env_name: match a.name {
                        Some(n) => n@,
                        None => s1.env_name,
                    },
                    description: match a.description {
                        Some(d) => d@,
                        None => s1.description,
                    },
                    python_version: match a.python_version {
                        Some(v) => v@,
                        None => s1.python_version,
                    },
                    supported_systems: match a.systems {
                        Some(x) => list_items(x@),
                        None => s1.supported_systems,
                    },
                    workspace_root: a.workspace_root@,
                    required_dirs: push_all_new(s1.required_dirs, strs(a.required_dir@)),
                    required_files: push_all_new(s1.required_files, strs(a.required_file@)),
                    source_scripts: push_all_new(s1.source_scripts, strs(a.source_script@)),
                    env: push_all_new(s1.env, strs(a.env@)),
                    ..s1
                };
                lemma_with_components_contains(s2, list_items(w@), "manual config"@, "selected with --with"@, c);
                lemma_deduped_contains(before.components, c);
            }
            let s = target_defaults(target_dir, profile_spec(m, profile, p));
            let s = if a.no_probe {
                s
            } else {
                with_probe(s, m, probed(pyproject, uv_lock, m))
            };
            let s1 = cli_components(a, s);
            let s2 = SpecView {
                env_name: match a.name {
                    Some(n) => n@,
                    None => s1.env_name,
                },
                description: match a.description {
                    Some(d) => d@,
                    None => s1.description,
                },
                python_version: match a.python_version {
                    Some(v) => v@,
                    None => s1.python_version,
                },
                supported_systems: match a.systems {
                    Some(x) => list_items(x@),
                    None => s1.supported_systems,
                },
                workspace_root: a.workspace_root@,
                required_dirs: push_all_new(s1.required_dirs, strs(a.required_dir@)),
                required_files: push_all_new(s1.required_files, strs(a.required_file@)),
                source_scripts: push_all_new(s1.source_scripts, strs(a.source_script@)),
                env: push_all_new(s1.env, strs(a.env@)),
                ..s1
            };
            lemma_with_components_frame(s2, list_items(w@), "manual config"@, "selected with --with"@);
        },
        None => {},
    }
}

/// What `robo init` writes: the target, robo-nix's source, and the texts of
/// `flake.nix` and `robo.nix` for the description.
pub struct ProjectPlan {
    pub target_dir: String,
    pub source_url: String,
    pub flake: String,
    pub project: String,
    pub spec: ProjectSpec,
}

/// The source robo-nix is taken from: the one asked for, else the default
/// the environment names, else the published repository.
pub open spec fn plan_source(requested: Option<String>, default_url: Option<String>) -> Seq<char> {
    match requested {
        Some(u) => u@,
        None => match default_url {
            Some(u) => u@,
            None => "github:ausbxuse/robo-nix"@,
        },
    }
}

/// Finishes a draft: puts it in normal form, checks it against the
/// manifest, and renders the files for the chosen source. Fails with the
/// manifest check's message.
pub fn finish_plan(args: &InitArgs, manifest: &Manifest, draft: ProjectDraft, default_url: Option<String>) -> (r: Result<ProjectPlan, String>)
    ensures
        match r {
            Ok(p) => p.target_dir@ == draft.target_dir@ && normal_form(draft.spec@, p.spec@)
                && crate::init::manifest::validation(*manifest, p.spec@.supported_systems, p.spec@.components) is None
                && p.source_url@ == plan_source(args.robo_nix_url, default_url)
                && p.flake@ == crate::scaffold::flake_text(p.source_url@)
                && p.project@ == crate::scaffold::project_text(p.spec@),
            Err(e) => exists|after: SpecView|
                normal_form(draft.spec@, after) && crate::init::manifest::validation(
                    *manifest,
                    after.supported_systems,
                    after.components,
                ) == Some(e@),
        },
{
    let ProjectDraft { target_dir, mut spec } = draft;
    dedupe_all(&mut spec);
    match crate::init::manifest::validate(manifest, &spec) {
        Ok(_) => {},
        Err(e) => {
            return Err(e);
        },
    }
    let source_url = match &args.robo_nix_url {
        Some(u) => u.clone(),
        None => match default_url {
            Some(u) => u,
            None => "github:ausbxuse/robo-nix".to_string(),
        },
    };
    let flake = crate::scaffold::render_flake(source_url.as_str());
    let project = crate::scaffold::render_project(&spec);
    Ok(ProjectPlan { target_dir, source_url, flake, project, spec })
}

} // verus!
