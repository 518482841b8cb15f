//! The files `robo init` writes into a new project: `flake.nix`, which
//! only points at robo-nix, `robo.nix`, which describes the runtime, and a
//! starter `pyproject.toml`.
use vstd::prelude::*;
use crate::init::spec::{
    provenance_view, suggestion_view, ComponentProvenance, InferenceSuggestion, ProjectSpec, Triple,
};
use crate::init::manifest::{DependencyRule, Manifest, ScriptDiscovery, ScriptRule, WorkspaceDirectoryRule};
use crate::init::pipeline::with_components;
use crate::init::probe::scan_versions;
use crate::init::spec::{has_suggestion, push_new, source_of, SpecView};
use crate::text::{
    append_chars, append_str, chars_of, contains, find, is_prefix, join, lines, lower, opt_str,
    replace_char, replace_char_chars, split, split_once, split_once_str, split_whitespace, string_of,
    strip_prefix, strs, trim, views, Sep,
};

verus! {

// ---------------------------------------------------------------------
// Escaping
// ---------------------------------------------------------------------

/// A string made safe inside double quotes, in Nix and in TOML alike:
/// each `\` doubled, then each `"` escaped.
pub open spec fn quote_escaped(s: Seq<char>) -> Seq<char> {
    replace_char(replace_char(s, '\\', seq!['\\', '\\']), '"', seq!['\\', '"'])
}

fn escaped_chars(text: &str) -> (r: Vec<char>)
    ensures
        r@ == quote_escaped(text@),
{
    let slashes = vec!['\\', '\\'];
    let quote = vec!['\\', '"'];
    assert(slashes@ =~= seq!['\\', '\\']);
    assert(quote@ =~= seq!['\\', '"']);
    let a = replace_char_chars(&chars_of(text), '\\', &slashes);
    replace_char_chars(&a, '"', &quote)
}

/// Escapes a string for a Nix double-quoted string.
pub fn escape_nix(text: &str) -> (r: String)
    ensures
        r@ == quote_escaped(text@),
{
    string_of(&escaped_chars(text))
}

/// Escapes a string for a TOML basic string.
pub fn escape_toml(text: &str) -> (r: String)
    ensures
        r@ == quote_escaped(text@),
{
    string_of(&escaped_chars(text))
}

// ---------------------------------------------------------------------
// Text pieces
// ---------------------------------------------------------------------

/// The pieces one after another.
pub open spec fn concat_all(pieces: Seq<Seq<char>>) -> Seq<char>
    decreases pieces.len(),
{
    if pieces.len() == 0 {
        Seq::empty()
    } else {
        concat_all(pieces.drop_last()) + pieces.last()
    }
}

/// One entry of a Nix list, indented four spaces.
pub open spec fn list_entry(s: Seq<char>) -> Seq<char> {
    "    \""@ + quote_escaped(s) + "\""@
}

/// The entries of a Nix list, one per line.
pub open spec fn list_text(items: Seq<Seq<char>>) -> Seq<char> {
    join(items.map_values(|s: Seq<char>| list_entry(s)), "\n"@)
}

/// Renders the entries of a Nix list, one per line.
pub fn render_list(items: &Vec<String>) -> (r: String)
    ensures
        r@ == list_text(strs(items@)),
{
    let ghost iv = strs(items@);
    let mut entries: Vec<String> = Vec::new();
    let mut i: usize = 0;
    while i < items.len()
        invariant
            i <= items.len(),
            iv == strs(items@),
            strs(entries@) == iv.take(i as int).map_values(|s: Seq<char>| list_entry(s)),
        decreases items.len() - i,
    {
        let e = crate::text::concat3("    \"", escape_nix(items[i].as_str()).as_str(), "\"");
        proof {
            crate::text::lemma_strs_push(entries@, e);
        }
        entries.push(e);
        assert(iv.take(i + 1).map_values(|s: Seq<char>| list_entry(s)) =~= iv.take(i as int).map_values(
            |s: Seq<char>| list_entry(s),
        ).push(list_entry(iv[i as int])));
        i = i + 1;
    }
    assert(iv.take(items.len() as int) =~= iv);
    crate::text::join_strings(&entries, "\n")
}

// ---------------------------------------------------------------------
// flake.nix
// ---------------------------------------------------------------------

/// The generated `flake.nix`: robo-nix taken from `source_url`, and the
/// project's outputs built from `robo.nix`.
pub open spec fn flake_text(source_url: Seq<char>) -> Seq<char> {
    "{\n  inputs.robo-nix.url = \""@ + quote_escaped(source_url)
        + "\";\n\n  # NOTE: generated plumbing. Most users should edit robo.nix,\n  # pyproject.toml, and .python-version instead of this file.\n  outputs = {robo-nix, ...}:\n    robo-nix.lib.mkProjectFlakeFromManifest ./robo.nix;\n}"@
}

pub fn render_flake(source_url: &str) -> (r: String)
    ensures
        r@ == flake_text(source_url@),
{
    crate::text::concat3(
        "{\n  inputs.robo-nix.url = \"",
        escape_nix(source_url).as_str(),
        "\";\n\n  # NOTE: generated plumbing. Most users should edit robo.nix,\n  # pyproject.toml, and .python-version instead of this file.\n  outputs = {robo-nix, ...}:\n    robo-nix.lib.mkProjectFlakeFromManifest ./robo.nix;\n}",
    )
}

/// The source robo-nix is taken from: the one asked for, else the default
/// that robo-nix's environment names, else the current directory.
pub fn flake_source_url(requested: Option<String>, default_url: Option<String>) -> (r: String)
    ensures
        r@ == match requested {
            Some(u) => u@,
            None => match default_url {
                Some(u) => u@,
                None => "path:."@,
            },
        },
{
    match requested {
        Some(u) => u,
        None => match default_url {
            Some(u) => u,
            None => "path:.".to_string(),
        },
    }
}

// ---------------------------------------------------------------------
// pyproject.toml
// ---------------------------------------------------------------------

/// The starter `pyproject.toml`: the environment's name and its Python as
/// the lowest one allowed.
pub open spec fn pyproject_text(env_name: Seq<char>, python_version: Seq<char>) -> Seq<char> {
    "[project]\nname = \""@ + quote_escaped(env_name) + "\"\nversion = \"0.1.0\"\nrequires-python = \">="@
        + quote_escaped(python_version) + "\"\ndependencies = []\n"@
}

pub fn render_pyproject(spec: &ProjectSpec) -> (r: String)
    ensures
        r@ == pyproject_text(spec.env_name@, spec.python_version@),
{
    let mut out: Vec<char> = Vec::new();
    append_str(&mut out, "[project]\nname = \"");
    append_str(&mut out, escape_toml(spec.env_name.as_str()).as_str());
    append_str(&mut out, "\"\nversion = \"0.1.0\"\nrequires-python = \">=");
    append_str(&mut out, escape_toml(spec.python_version.as_str()).as_str());
    append_str(&mut out, "\"\ndependencies = []\n");
    string_of(&out)
}

// ---------------------------------------------------------------------
// robo.nix
// ---------------------------------------------------------------------

/// The fixed part of `robo.nix`: schema, names, components, Python,
/// systems and workspace root.
pub open spec fn project_header(s: crate::init::spec::SpecView) -> Seq<char> {
    "{\n  schemaVersion = 1;\n  envName = \""@ + quote_escaped(s.env_name) + "\";\n  description = \""@
        + quote_escaped(s.description) + "\";\n  components = [\n"@ + list_text(s.components)
        + "\n  ];\n  pythonVersion = \""@ + quote_escaped(s.python_version)
        + "\";\n  supportedSystems = [\n"@ + list_text(s.supported_systems)
        + "\n  ];\n  workspaceRoot = \""@ + quote_escaped(s.workspace_root) + "\";"@
}

/// A named list of paths, when there are any.
pub open spec fn path_block(key: Seq<char>, items: Seq<Seq<char>>) -> Seq<char> {
    if items.len() > 0 {
        "\n\n  "@ + key + " = [\n"@ + list_text(items) + "\n  ];"@
    } else {
        Seq::empty()
    }
}

/// One `NAME=VALUE` item as an `export` line; nothing for an item without `=`.
pub open spec fn export_line(item: Seq<char>) -> Seq<char> {
    match split_once(item, "="@) {
        Some(parts) => "    export "@ + parts.0 + "=\""@ + parts.1 + "\"\n"@,
        None => Seq::empty(),
    }
}

pub open spec fn source_line(script: Seq<char>) -> Seq<char> {
    "    . \"$WORKSPACE_ROOT/"@ + script + "\"\n"@
}

/// A Nix indented string of lines, when there are any lines.
pub open spec fn script_block(key: Seq<char>, body: Seq<Seq<char>>) -> Seq<char> {
    if body.len() > 0 {
        "\n\n  "@ + key + " = ''\n"@ + concat_all(body) + "  '';"@
    } else {
        Seq::empty()
    }
}

pub open spec fn field_line(key: Seq<char>, value: Seq<char>) -> Seq<char> {
    "        "@ + key + " = \""@ + quote_escaped(value) + "\";\n"@
}

/// One attribute set of three named strings.
pub open spec fn triple_entry(keys: Triple, t: Triple) -> Seq<char> {
    "      {\n"@ + field_line(keys.0, t.0) + field_line(keys.1, t.1) + field_line(keys.2, t.2)
        + "      }\n"@
}

pub open spec fn triple_list(key: Seq<char>, keys: Triple, items: Seq<Triple>) -> Seq<char> {
    if items.len() > 0 {
        "    "@ + key + " = [\n"@ + concat_all(items.map_values(|t: Triple| triple_entry(keys, t)))
            + "    ];\n"@
    } else {
        Seq::empty()
    }
}

pub open spec fn note_entry(note: Seq<char>) -> Seq<char> {
    "      \""@ + quote_escaped(note) + "\"\n"@
}

/// Where the description came from: the generator, the profile, why each
/// component is there, what was inferred and what was suggested.
pub open spec fn provenance_text(s: crate::init::spec::SpecView) -> Seq<char> {
    "\n\n  provenance = {\n    generatedBy = \"robo init\";\n    profile = \""@ + quote_escaped(
        s.profile_name,
    ) + "\";\n"@ + triple_list("componentReasons"@, ("name"@, "source"@, "reason"@), s.component_provenance)
        + (if s.probe_notes.len() > 0 {
        "    inferred = [\n"@ + concat_all(s.probe_notes.map_values(|n: Seq<char>| note_entry(n)))
            + "    ];\n"@
    } else {
        Seq::empty()
    }) + triple_list("suggestions"@, ("kind"@, "path"@, "reason"@), s.suggestions) + "  };"@
}

/// The generated `robo.nix`.
pub open spec fn project_text(s: crate::init::spec::SpecView) -> Seq<char> {
    project_header(s) + path_block("requiredDirectories"@, s.required_dirs) + path_block(
        "requiredFiles"@,
        s.required_files,
    ) + script_block("shellInit"@, s.env.map_values(|e: Seq<char>| export_line(e))) + script_block(
        "bootstrap"@,
        s.source_scripts.map_values(|x: Seq<char>| source_line(x)),
    ) + provenance_text(s) + "\n}"@
}

fn append_header(out: &mut Vec<char>, spec: &ProjectSpec)
    ensures
        final(out)@ == old(out)@ + project_header(spec@),
{
    append_str(out, "{\n  schemaVersion = 1;\n  envName = \"");
    append_str(out, escape_nix(spec.env_name.as_str()).as_str());
    append_str(out, "\";\n  description = \"");
    append_str(out, escape_nix(spec.description.as_str()).as_str());
    append_str(out, "\";\n  components = [\n");
    append_str(out, render_list(&spec.components).as_str());
    append_str(out, "\n  ];\n  pythonVersion = \"");
    append_str(out, escape_nix(spec.python_version.as_str()).as_str());
    append_str(out, "\";\n  supportedSystems = [\n");
    append_str(out, render_list(&spec.supported_systems).as_str());
    append_str(out, "\n  ];\n  workspaceRoot = \"");
    append_str(out, escape_nix(spec.workspace_root.as_str()).as_str());
    append_str(out, "\";");
}

fn append_path_block(out: &mut Vec<char>, key: &str, items: &Vec<String>)
    ensures
        final(out)@ == old(out)@ + path_block(key@, strs(items@)),
{
    if items.len() > 0 {
        append_str(out, "\n\n  ");
        append_str(out, key);
        append_str(out, " = [\n");
        append_str(out, render_list(items).as_str());
        append_str(out, "\n  ];");
    }
}

fn append_script_block(out: &mut Vec<char>, key: &str, body: &Vec<Vec<char>>)
    ensures
        final(out)@ == old(out)@ + script_block(key@, crate::text::views(body@)),
{
    let ghost bv = crate::text::views(body@);
    if body.len() > 0 {
        append_str(out, "\n\n  ");
        append_str(out, key);
        append_str(out, " = ''\n");
        let ghost start = out@;
        let mut i: usize = 0;
        while i < body.len()
            invariant
                i <= body.len(),
                bv == crate::text::views(body@),
                out@ == start + concat_all(bv.take(i as int)),
            decreases body.len() - i,
        {
            assert(bv.take(i + 1).drop_last() =~= bv.take(i as int));
            append_chars(out, &body[i]);
            i = i + 1;
        }
        assert(bv.take(body.len() as int) =~= bv);
        append_str(out, "  '';");
    }
}

fn export_lines(env: &Vec<String>) -> (r: Vec<Vec<char>>)
    ensures
        crate::text::views(r@) == strs(env@).map_values(|e: Seq<char>| export_line(e)),
{
    let ghost ev = strs(env@);
    let mut out: Vec<Vec<char>> = Vec::new();
    let mut i: usize = 0;
    while i < env.len()
        invariant
            i <= env.len(),
            ev == strs(env@),
            crate::text::views(out@) == ev.take(i as int).map_values(|e: Seq<char>| export_line(e)),
        decreases env.len() - i,
    {
        let mut line: Vec<char> = Vec::new();
        match split_once_str(&chars_of(env[i].as_str()), "=") {
            Some((name, value)) => {
                append_str(&mut line, "    export ");
                append_chars(&mut line, &name);
                append_str(&mut line, "=\"");
                append_chars(&mut line, &value);
                append_str(&mut line, "\"\n");
            },
            None => {},
        }
        assert(line@ == export_line(ev[i as int]));
        proof {
            crate::text::lemma_views_push(out@, line);
        }
        out.push(line);
        assert(ev.take(i + 1).map_values(|e: Seq<char>| export_line(e)) =~= ev.take(i as int).map_values(
            |e: Seq<char>| export_line(e),
        ).push(export_line(ev[i as int])));
        i = i + 1;
    }
    assert(ev.take(env.len() as int) =~= ev);
    out
}

fn source_lines(scripts: &Vec<String>) -> (r: Vec<Vec<char>>)
    ensures
        crate::text::views(r@) == strs(scripts@).map_values(|x: Seq<char>| source_line(x)),
{
    let ghost sv = strs(scripts@);
    let mut out: Vec<Vec<char>> = Vec::new();
    let mut i: usize = 0;
    while i < scripts.len()
        invariant
            i <= scripts.len(),
            sv == strs(scripts@),
            crate::text::views(out@) == sv.take(i as int).map_values(|x: Seq<char>| source_line(x)),
        decreases scripts.len() - i,
    {
        let mut line: Vec<char> = Vec::new();
        append_str(&mut line, "    . \"$WORKSPACE_ROOT/");
        append_str(&mut line, scripts[i].as_str());
        append_str(&mut line, "\"\n");
        proof {
            crate::text::lemma_views_push(out@, line);
        }
        out.push(line);
        assert(sv.take(i + 1).map_values(|x: Seq<char>| source_line(x)) =~= sv.take(i as int).map_values(
            |x: Seq<char>| source_line(x),
        ).push(source_line(sv[i as int])));
        i = i + 1;
    }
    assert(sv.take(scripts.len() as int) =~= sv);
    out
}

fn append_field_line(out: &mut Vec<char>, key: &str, value: &str)
    ensures
        final(out)@ == old(out)@ + field_line(key@, value@),
{
    append_str(out, "        ");
    append_str(out, key);
    append_str(out, " = \"");
    append_str(out, escape_nix(value).as_str());
    append_str(out, "\";\n");
}

fn append_triple_entry(out: &mut Vec<char>, keys: (&str, &str, &str), t: (&str, &str, &str))
    ensures
        final(out)@ == old(out)@ + triple_entry((keys.0@, keys.1@, keys.2@), (t.0@, t.1@, t.2@)),
{
    append_str(out, "      {\n");
    append_field_line(out, keys.0, t.0);
    append_field_line(out, keys.1, t.1);
    append_field_line(out, keys.2, t.2);
    append_str(out, "      }\n");
}

fn append_provenance_list(out: &mut Vec<char>, items: &Vec<ComponentProvenance>)
    ensures
        final(out)@ == old(out)@ + triple_list(
            "componentReasons"@,
            ("name"@, "source"@, "reason"@),
            provenance_view(items@),
        ),
{
    let ghost keys: Triple = ("name"@, "source"@, "reason"@);
    let ghost pv = provenance_view(items@);
    if items.len() > 0 {
        append_str(out, "    ");
        append_str(out, "componentReasons");
        append_str(out, " = [\n");
        let ghost start = out@;
        let mut i: usize = 0;
        while i < items.len()
            invariant
                i <= items.len(),
                pv == provenance_view(items@),
                keys == ("name"@, "source"@, "reason"@),
                out@ == start + concat_all(pv.take(i as int).map_values(|t: Triple| triple_entry(keys, t))),
            decreases items.len() - i,
        {
            let item = &items[i];
            assert(pv.take(i + 1).map_values(|t: Triple| triple_entry(keys, t)).drop_last() =~= pv.take(
                i as int,
            ).map_values(|t: Triple| triple_entry(keys, t)));
            assert(pv[i as int] == (item.name@, item.source@, item.reason@));
            append_triple_entry(
                out,
                ("name", "source", "reason"),
                (item.name.as_str(), item.source.as_str(), item.reason.as_str()),
            );
            i = i + 1;
        }
        assert(pv.take(items.len() as int) =~= pv);
        append_str(out, "    ];\n");
    }
}

fn append_suggestion_list(out: &mut Vec<char>, items: &Vec<InferenceSuggestion>)
    ensures
        final(out)@ == old(out)@ + triple_list(
            "suggestions"@,
            ("kind"@, "path"@, "reason"@),
            suggestion_view(items@),
        ),
{
    let ghost keys: Triple = ("kind"@, "path"@, "reason"@);
    let ghost pv = suggestion_view(items@);
    if items.len() > 0 {
        append_str(out, "    ");
        append_str(out, "suggestions");
        append_str(out, " = [\n");
        let ghost start = out@;
        let mut i: usize = 0;
        while i < items.len()
            invariant
                i <= items.len(),
                pv == suggestion_view(items@),
                keys == ("kind"@, "path"@, "reason"@),
                out@ == start + concat_all(pv.take(i as int).map_values(|t: Triple| triple_entry(keys, t))),
            decreases items.len() - i,
        {
            let item = &items[i];
            assert(pv.take(i + 1).map_values(|t: Triple| triple_entry(keys, t)).drop_last() =~= pv.take(
                i as int,
            ).map_values(|t: Triple| triple_entry(keys, t)));
            assert(pv[i as int] == (item.kind@, item.path@, item.reason@));
            append_triple_entry(
                out,
                ("kind", "path", "reason"),
                (item.kind.as_str(), item.path.as_str(), item.reason.as_str()),
            );
            i = i + 1;
        }
        assert(pv.take(items.len() as int) =~= pv);
        append_str(out, "    ];\n");
    }
}

fn append_notes(out: &mut Vec<char>, notes: &Vec<String>)
    ensures
        final(out)@ == old(out)@ + (if notes.len() > 0 {
            "    inferred = [\n"@ + concat_all(strs(notes@).map_values(|n: Seq<char>| note_entry(n)))
                + "    ];\n"@
        } else {
            Seq::empty()
        }),
{
    let ghost nv = strs(notes@);
    if notes.len() > 0 {
        append_str(out, "    inferred = [\n");
        let ghost start = out@;
        let mut i: usize = 0;
        while i < notes.len()
            invariant
                i <= notes.len(),
                nv == strs(notes@),
                out@ == start + concat_all(nv.take(i as int).map_values(|n: Seq<char>| note_entry(n))),
            decreases notes.len() - i,
        {
            assert(nv.take(i + 1).map_values(|n: Seq<char>| note_entry(n)).drop_last() =~= nv.take(
                i as int,
            ).map_values(|n: Seq<char>| note_entry(n)));
            append_str(out, "      \"");
            append_str(out, escape_nix(notes[i].as_str()).as_str());
            append_str(out, "\"\n");
            i = i + 1;
        }
        assert(nv.take(notes.len() as int) =~= nv);
        append_str(out, "    ];\n");
    }
}

fn append_provenance(out: &mut Vec<char>, spec: &ProjectSpec)
    ensures
        final(out)@ == old(out)@ + provenance_text(spec@),
{
    append_str(out, "\n\n  provenance = {\n    generatedBy = \"robo init\";\n    profile = \"");
    append_str(out, escape_nix(spec.profile_name.as_str()).as_str());
    append_str(out, "\";\n");
    append_provenance_list(out, &spec.component_provenance);
    append_notes(out, &spec.probe_notes);
    append_suggestion_list(out, &spec.suggestions);
    append_str(out, "  };");
}

/// Renders `robo.nix` for a project description.
pub fn render_project(spec: &ProjectSpec) -> (r: String)
    ensures
        r@ == project_text(spec@),
{
    let mut out: Vec<char> = Vec::new();
    append_header(&mut out, spec);
    append_path_block(&mut out, "requiredDirectories", &spec.required_dirs);
    append_path_block(&mut out, "requiredFiles", &spec.required_files);
    let exports = export_lines(&spec.env);
    append_script_block(&mut out, "shellInit", &exports);
    let sources = source_lines(&spec.source_scripts);
    append_script_block(&mut out, "bootstrap", &sources);
    append_provenance(&mut out, spec);
    append_str(&mut out, "\n}");
    string_of(&out)
}

// ---------------------------------------------------------------------
// Reading pyproject.toml
// ---------------------------------------------------------------------

/// The text between the first two double quotes.
pub open spec fn first_quoted(t: Seq<char>) -> Option<Seq<char>> {
    match find(t, "\""@) {
        Some(st) => match find(t.skip(st + 1), "\""@) {
            Some(e) => Some(t.subrange(st + 1, st + 1 + e)),
            None => None,
        },
        None => None,
    }
}

pub fn quoted_value(text: &str) -> (r: Option<String>)
    ensures
        opt_str(r) == first_quoted(text@),
{
    let v = chars_of(text);
    let st = match crate::text::find_str(&v, "\"") {
        Some(k) => k,
        None => {
            return None;
        },
    };
    proof {
        reveal_strlit("\"");
        crate::text::lemma_find_from(v@, "\""@, 0);
        assert(find(v@, "\""@) == Some(st as int));
        assert(crate::text::occurs_at(v@, "\""@, st as int));
        assert("\""@.len() == 1);
        assert(st + 1 <= v@.len());
    }
    assert(st < v.len());
    let rest = slice_from(&v, st + 1);
    let e = match crate::text::find_str(&rest, "\"") {
        Some(k) => k,
        None => {
            return None;
        },
    };
    proof {
        crate::text::lemma_find_from(rest@, "\""@, 0);
    }
    let inner = crate::text::slice(&rest, 0, e);
    assert(inner@ =~= text@.subrange(st + 1, st + 1 + e));
    Some(string_of(&inner))
}

fn slice_from(v: &Vec<char>, start: usize) -> (r: Vec<char>)
    requires
        start <= v.len(),
    ensures
        r@ == v@.skip(start as int),
{
    let r = crate::text::slice(v, start, v.len());
    assert(r@ =~= v@.skip(start as int));
    r
}

/// The value of the first line that starts with `key` (after trimming) and
/// has a double-quoted value.
pub open spec fn keyed_value(ls: Seq<Seq<char>>, key: Seq<char>) -> Option<Seq<char>>
    decreases ls.len(),
{
    if ls.len() == 0 {
        None
    } else {
        match strip_prefix(trim(ls[0], Sep::Whitespace), key) {
            Some(rest) => match first_quoted(rest) {
                Some(v) => Some(v),
                None => keyed_value(ls.skip(1), key),
            },
            None => keyed_value(ls.skip(1), key),
        }
    }
}

/// The project name `pyproject.toml` gives: the quoted value of the first
/// line that starts with `name`.
pub fn pyproject_name(text: &str) -> (r: Option<String>)
    ensures
        opt_str(r) == keyed_value(lines(text@), "name"@),
{
    let ls = crate::text::lines_str(text);
    let ghost lv = crate::text::views(ls@);
    let mut i: usize = 0;
    assert(lv.skip(0) =~= lv);
    while i < ls.len()
        invariant
            i <= ls.len(),
            lv == crate::text::views(ls@),
            lv == lines(text@),
            keyed_value(lv, "name"@) == keyed_value(lv.skip(i as int), "name"@),
        decreases ls.len() - i,
    {
        assert(lv.skip(i as int)[0] == ls@[i as int]@);
        assert(lv.skip(i as int).skip(1) =~= lv.skip(i + 1));
        let line = crate::text::trim_ws(&ls[i]);
        match crate::text::strip_prefix_str(&line, "name") {
            Some(rest) => {
                match quoted_value(string_of(&rest).as_str()) {
                    Some(v) => {
                        return Some(v);
                    },
                    None => {},
                }
            },
            None => {},
        }
        i = i + 1;
    }
    None
}

/// Names the environment after `pyproject.toml`, when it is still called
/// `project` and the file names the project.
pub fn probe_pyproject_name(text: &str, spec: &mut ProjectSpec)
    ensures
        final(spec)@ == (if old(spec)@.env_name == "project"@ && keyed_value(lines(text@), "name"@) is Some {
            SpecView { env_name: keyed_value(lines(text@), "name"@)->0, ..old(spec)@ }
        } else {
            old(spec)@
        }),
{
    proof {
        reveal_strlit("project");
    }
    if !crate::text::str_eq(spec.env_name.as_str(), "project") {
        return;
    }
    match pyproject_name(text) {
        Some(name) => {
            spec.env_name = name;
        },
        None => {},
    }
}

/// The Python version the first usable `requires-python` line points to:
/// its exactly pinned version, else the first version it names.
pub open spec fn python_in_lines(ls: Seq<Seq<char>>) -> Option<Seq<char>>
    decreases ls.len(),
{
    if ls.len() == 0 {
        None
    } else {
        match requires_python_raw(ls[0]) {
            Some(raw) => match scan_versions(raw, 0, None, false) {
                Some(v) => Some(v),
                None => python_in_lines(ls.skip(1)),
            },
            None => python_in_lines(ls.skip(1)),
        }
    }
}

/// The quoted requirement of a `requires-python` line.
pub open spec fn requires_python_raw(line: Seq<char>) -> Option<Seq<char>> {
    match strip_prefix(trim(line, Sep::Whitespace), "requires-python"@) {
        Some(rest) => first_quoted(rest),
        None => None,
    }
}

/// Every requirement read before a version is found can be scanned.
pub open spec fn python_lines_ok(ls: Seq<Seq<char>>) -> bool
    decreases ls.len(),
{
    if ls.len() == 0 {
        true
    } else {
        match requires_python_raw(ls[0]) {
            Some(raw) => !crate::init::probe::scan_cuts_char(raw, 0, false) && (scan_versions(
                raw,
                0,
                None,
                false,
            ) is Some || python_lines_ok(ls.skip(1))),
            None => python_lines_ok(ls.skip(1)),
        }
    }
}

pub open spec fn python_note(v: Seq<char>) -> Seq<char> {
    "python "@ + v + ": pyproject.toml requires-python"@
}

/// Whether every `requires-python` line read before a version is found can
/// be scanned: the condition `probe_python_version` asks of the text.
pub fn python_lines_fit(text: &str) -> (r: bool)
    ensures
        r == python_lines_ok(lines(text@)),
{
    let ls = crate::text::lines_str(text);
    let ghost lv = crate::text::views(ls@);
    let mut i: usize = 0;
    assert(lv.skip(0) =~= lv);
    while i < ls.len()
        invariant
            i <= ls.len(),
            lv == crate::text::views(ls@),
            lv == lines(text@),
            python_lines_ok(lv) == python_lines_ok(lv.skip(i as int)),
        decreases ls.len() - i,
    {
        assert(lv.skip(i as int)[0] == ls@[i as int]@);
        assert(lv.skip(i as int).skip(1) =~= lv.skip(i + 1));
        let line = crate::text::trim_ws(&ls[i]);
        match crate::text::strip_prefix_str(&line, "requires-python") {
            Some(rest) => {
                match quoted_value(string_of(&rest).as_str()) {
                    Some(raw) => {
                        if crate::init::probe::scan_would_cut(raw.as_str(), false) {
                            return false;
                        }
                        if crate::init::probe::scan_python_version(raw.as_str(), false).is_some() {
                            return true;
                        }
                    },
                    None => {},
                }
            },
            None => {},
        }
        i = i + 1;
    }
    assert(lv.skip(i as int).len() == 0);
    true
}

/// Takes the Python version from `requires-python`, noting where it came
/// from.
pub fn probe_python_version(text: &str, spec: &mut ProjectSpec)
    requires
        python_lines_ok(lines(text@)),
    ensures
        final(spec)@ == match python_in_lines(lines(text@)) {
            Some(v) => SpecView {
                python_version: v,
                probe_notes: old(spec)@.probe_notes.push(python_note(v)),
                ..old(spec)@
            },
            None => old(spec)@,
        },
{
    let ls = crate::text::lines_str(text);
    let ghost lv = crate::text::views(ls@);
    let mut i: usize = 0;
    assert(lv.skip(0) =~= lv);
    while i < ls.len()
        invariant
            i <= ls.len(),
            lv == crate::text::views(ls@),
            lv == lines(text@),
            python_in_lines(lv) == python_in_lines(lv.skip(i as int)),
            python_lines_ok(lv.skip(i as int)),
            spec@ == old(spec)@,
        decreases ls.len() - i,
    {
        assert(lv.skip(i as int)[0] == ls@[i as int]@);
        assert(lv.skip(i as int).skip(1) =~= lv.skip(i + 1));
        let line = crate::text::trim_ws(&ls[i]);
        match crate::text::strip_prefix_str(&line, "requires-python") {
            Some(rest) => {
                match quoted_value(string_of(&rest).as_str()) {
                    Some(raw) => {
                        match crate::init::probe::scan_python_version(raw.as_str(), false) {
                            Some(version) => {
                                let ghost before = strs(spec.probe_notes@);
                                let note = crate::text::concat3(
                                    "python ",
                                    version.as_str(),
                                    ": pyproject.toml requires-python",
                                );
                                spec.probe_notes.push(note);
                                proof {
                                    crate::text::lemma_strs_push(old(spec).probe_notes@, note);
                                }
                                spec.python_version = version;
                                return;
                            },
                            None => {},
                        }
                    },
                    None => {},
                }
            },
            None => {},
        }
        i = i + 1;
    }
}

/// The components of each dependency rule whose dependencies the
/// (lowercased) text quotes, added in rule order, each for its note.
pub open spec fn with_dependency_rules(s: SpecView, rules: Seq<DependencyRule>, deps: Seq<char>) -> SpecView
    decreases rules.len(),
{
    if rules.len() == 0 {
        s
    } else {
        let prev = with_dependency_rules(s, rules.drop_last(), deps);
        let r = rules.last();
        if crate::doctor::names_dependency(deps, strs(r.dependencies@)) {
            with_components(prev, strs(r.components@), source_of(r.note@), r.note@)
        } else {
            prev
        }
    }
}

/// Adds the components each component's note names, as `add_component` does.
fn add_components(spec: &mut ProjectSpec, components: &Vec<String>, note: &String)
    ensures
        final(spec)@ == with_components(old(spec)@, strs(components@), source_of(note@), note@),
{
    let ghost cs = strs(components@);
    let mut k: usize = 0;
    while k < components.len()
        invariant
            k <= components.len(),
            cs == strs(components@),
            spec@ == with_components(old(spec)@, cs.take(k as int), source_of(note@), note@),
        decreases components.len() - k,
    {
        assert(cs.take(k + 1).drop_last() =~= cs.take(k as int));
        assert(cs.take(k + 1).last() == components@[k as int]@);
        spec.add_component(components[k].as_str(), note.clone());
        k = k + 1;
    }
    assert(cs.take(components.len() as int) =~= cs);
}

/// Adds the components of the dependency rules that the text of
/// `pyproject.toml` matches, compared without ASCII case.
pub fn probe_dependencies(text: &str, manifest: &Manifest, spec: &mut ProjectSpec)
    ensures
        final(spec)@ == with_dependency_rules(
            old(spec)@,
            manifest.runtime_inference.dependency_rules@,
            lower(text@),
        ),
{
    let deps = string_of(&crate::text::lowercase(&chars_of(text)));
    let rules = &manifest.runtime_inference.dependency_rules;
    let mut i: usize = 0;
    while i < rules.len()
        invariant
            i <= rules.len(),
            deps@ == lower(text@),
            rules == &manifest.runtime_inference.dependency_rules,
            spec@ == with_dependency_rules(old(spec)@, rules@.take(i as int), lower(text@)),
        decreases rules.len() - i,
    {
        assert(rules@.take(i + 1).drop_last() =~= rules@.take(i as int));
        assert(rules@.take(i + 1).last() == rules@[i as int]);
        if crate::doctor::has_dependency(deps.as_str(), &rules[i].dependencies) {
            add_components(spec, &rules[i].components, &rules[i].note);
        }
        i = i + 1;
    }
    assert(rules@.take(rules.len() as int) =~= rules@);
}

// ---------------------------------------------------------------------
// Reading the workspace
// ---------------------------------------------------------------------

/// Whether the text contains one of the patterns, each lowercased.
pub open spec fn mentions_any(text: Seq<char>, patterns: Seq<Seq<char>>) -> bool {
    exists|k: int| 0 <= k < patterns.len() && contains(text, lower(#[trigger] patterns[k]))
}

pub fn contains_any(text: &str, patterns: &Vec<String>) -> (r: bool)
    ensures
        r == mentions_any(text@, strs(patterns@)),
{
    let t = chars_of(text);
    let ghost ps = strs(patterns@);
    let mut i: usize = 0;
    while i < patterns.len()
        invariant
            i <= patterns.len(),
            t@ == text@,
            ps == strs(patterns@),
            forall|k: int| 0 <= k < i ==> !contains(text@, lower(#[trigger] ps[k])),
        decreases patterns.len() - i,
    {
        let p = crate::text::lowercase(&chars_of(patterns[i].as_str()));
        assert(ps[i as int] == patterns@[i as int]@);
        if crate::text::contains_chars(&t, &p) {
            return true;
        }
        i = i + 1;
    }
    false
}

/// A subdirectory found under a rule's root: required, and, when its name
/// mentions one of the rule's words, the rule's components added.
pub open spec fn with_directory(s: SpecView, rule: WorkspaceDirectoryRule, name: Seq<char>) -> SpecView {
    let s1 = SpecView { required_dirs: push_new(s.required_dirs, rule.root@ + "/"@ + name), ..s };
    if mentions_any(lower(name), strs(rule.name_contains@)) {
        with_components(s1, strs(rule.components@), source_of(rule.note@), rule.note@)
    } else {
        s1
    }
}

pub open spec fn with_directories(s: SpecView, rule: WorkspaceDirectoryRule, names: Seq<Seq<char>>) -> SpecView
    decreases names.len(),
{
    if names.len() == 0 {
        s
    } else {
        with_directory(with_directories(s, rule, names.drop_last()), rule, names.last())
    }
}

/// The subdirectories listed under each rule's root (`listings[i]` for
/// rule `i`), applied rule by rule.
pub open spec fn with_directory_rules(
    s: SpecView,
    rules: Seq<WorkspaceDirectoryRule>,
    listings: Seq<Seq<Seq<char>>>,
) -> SpecView
    decreases rules.len(),
{
    if rules.len() == 0 {
        s
    } else {
        with_directories(
            with_directory_rules(s, rules.drop_last(), listings),
            rules.last(),
            listings[rules.len() - 1],
        )
    }
}

pub open spec fn listing_views(l: Seq<Vec<String>>) -> Seq<Seq<Seq<char>>> {
    l.map_values(|names: Vec<String>| strs(names@))
}

fn add_directories(spec: &mut ProjectSpec, rule: &WorkspaceDirectoryRule, names: &Vec<String>)
    ensures
        final(spec)@ == with_directories(old(spec)@, *rule, strs(names@)),
{
    let ghost ns = strs(names@);
    let mut j: usize = 0;
    while j < names.len()
        invariant
            j <= names.len(),
            ns == strs(names@),
            spec@ == with_directories(old(spec)@, *rule, ns.take(j as int)),
        decreases names.len() - j,
    {
        assert(ns.take(j + 1).drop_last() =~= ns.take(j as int));
        assert(ns.take(j + 1).last() == names@[j as int]@);
        let path = crate::text::concat3(rule.root.as_str(), "/", names[j].as_str());
        spec.add_required_dir(path.as_str());
        let lowered = string_of(&crate::text::lowercase(&chars_of(names[j].as_str())));
        if contains_any(lowered.as_str(), &rule.name_contains) {
            add_components(spec, &rule.components, &rule.note);
        }
        j = j + 1;
    }
    assert(ns.take(names.len() as int) =~= ns);
}

/// Requires each subdirectory found under a workspace rule's root and adds
/// the components its name calls for; `listings[i]` holds the names of the
/// subdirectories under the root of rule `i`, as the file system lists them.
pub fn probe_workspace_directories(manifest: &Manifest, listings: &Vec<Vec<String>>, spec: &mut ProjectSpec)
    requires
        listings.len() == manifest.runtime_inference.workspace_directory_rules.len(),
    ensures
        final(spec)@ == with_directory_rules(
            old(spec)@,
            manifest.runtime_inference.workspace_directory_rules@,
            listing_views(listings@),
        ),
{
    let rules = &manifest.runtime_inference.workspace_directory_rules;
    let ghost lv = listing_views(listings@);
    let mut i: usize = 0;
    while i < rules.len()
        invariant
            i <= rules.len(),
            rules.len() == listings.len(),
            rules == &manifest.runtime_inference.workspace_directory_rules,
            lv == listing_views(listings@),
            spec@ == with_directory_rules(old(spec)@, rules@.take(i as int), lv),
        decreases rules.len() - i,
    {
        assert(rules@.take(i + 1).drop_last() =~= rules@.take(i as int));
        assert(rules@.take(i + 1).last() == rules@[i as int]);
        assert(lv[i as int] == strs(listings@[i as int]@));
        add_directories(spec, &rules[i], &listings[i]);
        i = i + 1;
    }
    assert(rules@.take(rules.len() as int) =~= rules@);
}

// ---------------------------------------------------------------------
// Reading bootstrap scripts
// ---------------------------------------------------------------------

/// A file found under a script root: its name, and its text where it could
/// be read.
pub struct ScriptFile {
    pub name: String,
    pub text: Option<String>,
}

pub open spec fn file_view(f: ScriptFile) -> (Seq<char>, Option<Seq<char>>) {
    (f.name@, opt_str(f.text))
}

pub open spec fn files_view(fs: Seq<ScriptFile>) -> Seq<(Seq<char>, Option<Seq<char>>)> {
    fs.map_values(|f: ScriptFile| file_view(f))
}

/// A bootstrap script by its name: one of the names, or starting with one
/// of the prefixes.
pub open spec fn discovered(d: ScriptDiscovery, name: Seq<char>) -> bool {
    strs(d.names@).contains(name) || exists|k: int|
        0 <= k < d.prefixes.len() && is_prefix(#[trigger] strs(d.prefixes@)[k], name)
}

pub fn is_discovered_script(name: &str, discovery: &ScriptDiscovery) -> (r: bool)
    ensures
        r == discovered(*discovery, name@),
{
    let ghost ns = strs(discovery.names@);
    let ghost ps = strs(discovery.prefixes@);
    let mut i: usize = 0;
    while i < discovery.names.len()
        invariant
            i <= discovery.names.len(),
            ns == strs(discovery.names@),
            forall|k: int| 0 <= k < i ==> ns[k] != name@,
        decreases discovery.names.len() - i,
    {
        if crate::text::str_eq(discovery.names[i].as_str(), name) {
            assert(ns[i as int] == name@);
            return true;
        }
        i = i + 1;
    }
    let n = chars_of(name);
    let mut j: usize = 0;
    while j < discovery.prefixes.len()
        invariant
            j <= discovery.prefixes.len(),
            ps == strs(discovery.prefixes@),
            n@ == name@,
            forall|k: int| 0 <= k < j ==> !is_prefix(#[trigger] ps[k], name@),
        decreases discovery.prefixes.len() - j,
    {
        assert(ps[j as int] == discovery.prefixes@[j as int]@);
        if crate::text::starts_with_str(&n, discovery.prefixes[j].as_str()) {
            return true;
        }
        j = j + 1;
    }
    false
}

/// A script that looks like it starts a long-running process: its text
/// contains one of the daemon patterns, case and all.
pub open spec fn daemon_like(d: ScriptDiscovery, text: Seq<char>) -> bool {
    exists|k: int| 0 <= k < d.daemon_text_contains.len() && contains(text, #[trigger] strs(d.daemon_text_contains@)[k])
}

pub fn looks_like_daemon(text: &str, discovery: &ScriptDiscovery) -> (r: bool)
    ensures
        r == daemon_like(*discovery, text@),
{
    let t = chars_of(text);
    let ghost ps = strs(discovery.daemon_text_contains@);
    let mut i: usize = 0;
    while i < discovery.daemon_text_contains.len()
        invariant
            i <= discovery.daemon_text_contains.len(),
            t@ == text@,
            ps == strs(discovery.daemon_text_contains@),
            forall|k: int| 0 <= k < i ==> !contains(text@, #[trigger] ps[k]),
        decreases discovery.daemon_text_contains.len() - i,
    {
        assert(ps[i as int] == discovery.daemon_text_contains@[i as int]@);
        if crate::text::contains_str(&t, discovery.daemon_text_contains[i].as_str()) {
            return true;
        }
        i = i + 1;
    }
    false
}

/// The components of each script rule whose words the (lowercased) script
/// mentions.
pub open spec fn with_script_rules(s: SpecView, rules: Seq<ScriptRule>, lowered: Seq<char>) -> SpecView
    decreases rules.len(),
{
    if rules.len() == 0 {
        s
    } else {
        let prev = with_script_rules(s, rules.drop_last(), lowered);
        let r = rules.last();
        if mentions_any(lowered, strs(r.text_contains@)) {
            with_components(prev, strs(r.components@), source_of(r.note@), r.note@)
        } else {
            prev
        }
    }
}

pub fn probe_script_rules(text: &str, manifest: &Manifest, spec: &mut ProjectSpec)
    ensures
        final(spec)@ == with_script_rules(old(spec)@, manifest.runtime_inference.script_rules@, lower(text@)),
{
    let lowered = string_of(&crate::text::lowercase(&chars_of(text)));
    let rules = &manifest.runtime_inference.script_rules;
    let mut i: usize = 0;
    while i < rules.len()
        invariant
            i <= rules.len(),
            lowered@ == lower(text@),
            rules == &manifest.runtime_inference.script_rules,
            spec@ == with_script_rules(old(spec)@, rules@.take(i as int), lower(text@)),
        decreases rules.len() - i,
    {
        assert(rules@.take(i + 1).drop_last() =~= rules@.take(i as int));
        assert(rules@.take(i + 1).last() == rules@[i as int]);
        if contains_any(lowered.as_str(), &rules[i].text_contains) {
            add_components(spec, &rules[i].components, &rules[i].note);
        }
        i = i + 1;
    }
    assert(rules@.take(rules.len() as int) =~= rules@);
}

/// The variable a line sets to a path under the checkout root: its name
/// (trimmed) and the path, from the root on, with quotes, `$` and braces
/// trimmed and cut at the first quote or whitespace.
pub open spec fn root_assignment(line: Seq<char>, path_root: Seq<char>) -> Option<(Seq<char>, Seq<char>)> {
    match split_once(line, "="@) {
        Some(parts) => match find(parts.1, path_root) {
            Some(idx) => {
                let path = split(trim(parts.1.skip(idx), Sep::QuoteDollarBrace), Sep::QuoteOrWhitespace)[0];
                if path.len() > 0 {
                    Some((trim(parts.0, Sep::Whitespace), path))
                } else {
                    None
                }
            },
            None => None,
        },
        None => None,
    }
}

/// The assignments of paths under the checkout root, in line order.
pub open spec fn root_assignments(ls: Seq<Seq<char>>, path_root: Seq<char>) -> Seq<(Seq<char>, Seq<char>)>
    decreases ls.len(),
{
    if ls.len() == 0 {
        Seq::empty()
    } else {
        let prev = root_assignments(ls.drop_last(), path_root);
        match root_assignment(ls.last(), path_root) {
            Some(a) => prev.push(a),
            None => prev,
        }
    }
}

/// The path a variable was last set to.
pub open spec fn root_of(assigns: Seq<(Seq<char>, Seq<char>)>, var: Seq<char>) -> Option<Seq<char>>
    decreases assigns.len(),
{
    if assigns.len() == 0 {
        None
    } else if assigns.last().0 == var {
        Some(assigns.last().1)
    } else {
        root_of(assigns.drop_last(), var)
    }
}

/// What a checkout argument suggests: a file when it has a `.` or `/`,
/// else a directory, under the checkout's path.
pub open spec fn token_suggestion(base: Seq<char>, tok: Seq<char>) -> Triple {
    if contains(tok, "."@) || contains(tok, "/"@) {
        ("file"@, base + "/"@ + tok, "bootstrap script referenced a vendor checkout file"@)
    } else {
        ("directory"@, base + "/"@ + tok, "bootstrap script referenced a vendor checkout directory"@)
    }
}

/// A suggestion added unless one of its kind and path is there.
pub open spec fn with_suggestion(s: SpecView, t: Triple) -> SpecView {
    if has_suggestion(s.suggestions, t.0, t.1) {
        s
    } else {
        SpecView { suggestions: s.suggestions.push(t), ..s }
    }
}

pub open spec fn with_tokens(s: SpecView, base: Seq<char>, toks: Seq<Seq<char>>) -> SpecView
    decreases toks.len(),
{
    if toks.len() == 0 {
        s
    } else {
        let prev = with_tokens(s, base, toks.drop_last());
        let tok = trim(toks.last(), Sep::QuoteSemi);
        if tok.len() == 0 {
            prev
        } else {
            with_suggestion(prev, token_suggestion(base, tok))
        }
    }
}

/// A checkout call: its first argument names a variable set to a path under
/// the checkout root, and each further argument is suggested under it.
pub open spec fn with_checkout_line(s: SpecView, line: Seq<char>, assigns: Seq<(Seq<char>, Seq<char>)>) -> SpecView {
    let toks = split_whitespace(line);
    if toks.len() < 2 {
        s
    } else {
        match root_of(assigns, trim(toks[1], Sep::QuoteDollar)) {
            Some(base) => with_tokens(s, base, toks.skip(2)),
            None => s,
        }
    }
}

pub open spec fn with_checkout_lines(
    s: SpecView,
    ls: Seq<Seq<char>>,
    checkout: Seq<char>,
    assigns: Seq<(Seq<char>, Seq<char>)>,
) -> SpecView
    decreases ls.len(),
{
    if ls.len() == 0 {
        s
    } else {
        let prev = with_checkout_lines(s, ls.drop_last(), checkout, assigns);
        if contains(ls.last(), checkout) {
            with_checkout_line(prev, ls.last(), assigns)
        } else {
            prev
        }
    }
}

/// The vendor checkout paths a bootstrap script names, as suggestions.
pub open spec fn with_script_paths(s: SpecView, d: ScriptDiscovery, text: Seq<char>) -> SpecView {
    with_checkout_lines(
        s,
        lines(text),
        d.checkout_function@,
        root_assignments(lines(text), d.path_root@),
    )
}

pub open spec fn pair_views(v: Seq<(Vec<char>, Vec<char>)>) -> Seq<(Seq<char>, Seq<char>)> {
    v.map_values(|p: (Vec<char>, Vec<char>)| (p.0@, p.1@))
}

fn assignment_of(line: &Vec<char>, path_root: &str) -> (r: Option<(Vec<char>, Vec<char>)>)
    ensures
        match r {
            Some(p) => root_assignment(line@, path_root@) == Some((p.0@, p.1@)),
            None => root_assignment(line@, path_root@) is None,
        },
{
    let (name, rest) = match split_once_str(line, "=") {
        Some(parts) => parts,
        None => {
            return None;
        },
    };
    let idx = match crate::text::find_str(&rest, path_root) {
        Some(k) => k,
        None => {
            return None;
        },
    };
    proof {
        crate::text::lemma_find_from(rest@, path_root@, 0);
    }
    let tail = slice_from(&rest, idx);
    let trimmed = crate::text::trim_chars(&tail, Sep::QuoteDollarBrace);
    let pieces = crate::text::split_chars(&trimmed, Sep::QuoteOrWhitespace);
    proof {
        crate::text::lemma_split_len(trimmed@, Sep::QuoteOrWhitespace);
    }
    assert(views(pieces@)[0] == pieces@[0]@);
    if pieces[0].len() == 0 {
        return None;
    }
    Some((crate::text::trim_ws(&name), crate::text::clone_chars(&pieces[0])))
}

fn assignments_of(ls: &Vec<Vec<char>>, path_root: &str) -> (r: Vec<(Vec<char>, Vec<char>)>)
    ensures
        pair_views(r@) == root_assignments(views(ls@), path_root@),
{
    let ghost lv = views(ls@);
    let mut out: Vec<(Vec<char>, Vec<char>)> = Vec::new();
    let mut i: usize = 0;
    while i < ls.len()
        invariant
            i <= ls.len(),
            lv == views(ls@),
            pair_views(out@) == root_assignments(lv.take(i as int), path_root@),
        decreases ls.len() - i,
    {
        assert(lv.take(i + 1).drop_last() =~= lv.take(i as int));
        assert(lv.take(i + 1).last() == ls@[i as int]@);
        match assignment_of(&ls[i], path_root) {
            Some(p) => {
                let ghost before = out@;
                let ghost pv = (p.0@, p.1@);
                out.push(p);
                assert(pair_views(out@) =~= pair_views(before).push(pv));
            },
            None => {},
        }
        i = i + 1;
    }
    assert(lv.take(ls.len() as int) =~= lv);
    out
}

fn root_lookup(assigns: &Vec<(Vec<char>, Vec<char>)>, var: &Vec<char>) -> (r: Option<Vec<char>>)
    ensures
        match r {
            Some(b) => root_of(pair_views(assigns@), var@) == Some(b@),
            None => root_of(pair_views(assigns@), var@) is None,
        },
{
    let ghost av = pair_views(assigns@);
    let mut i: usize = assigns.len();
    assert(av.take(assigns.len() as int) =~= av);
    while i > 0
        invariant
            i <= assigns.len(),
            av == pair_views(assigns@),
            root_of(av, var@) == root_of(av.take(i as int), var@),
        decreases i,
    {
        assert(av.take(i as int).drop_last() =~= av.take(i - 1));
        assert(av.take(i as int).last() == (assigns@[i - 1].0@, assigns@[i - 1].1@));
        if crate::text::eq_chars(&assigns[i - 1].0, var) {
            return Some(crate::text::clone_chars(&assigns[i - 1].1));
        }
        i = i - 1;
    }
    assert(av.take(0).len() == 0);
    None
}

fn add_token_suggestions(spec: &mut ProjectSpec, base: &Vec<char>, toks: &Vec<Vec<char>>, from: usize)
    requires
        from <= toks.len(),
    ensures
        final(spec)@ == with_tokens(old(spec)@, base@, views(toks@).skip(from as int)),
{
    let ghost tv = views(toks@).skip(from as int);
    let mut k: usize = from;
    assert(tv.take(0).len() == 0);
    while k < toks.len()
        invariant
            from <= k <= toks.len(),
            tv == views(toks@).skip(from as int),
            spec@ == with_tokens(old(spec)@, base@, tv.take(k - from)),
        decreases toks.len() - k,
    {
        assert(tv.take(k - from + 1).drop_last() =~= tv.take(k - from));
        assert(tv.take(k - from + 1).last() == toks@[k as int]@);
        let tok = crate::text::trim_chars(&toks[k], Sep::QuoteSemi);
        if tok.len() > 0 {
            let mut path = crate::text::clone_chars(base);
            append_str(&mut path, "/");
            append_chars(&mut path, &tok);
            if crate::text::contains_str(&tok, ".") || crate::text::contains_str(&tok, "/") {
                spec.add_suggestion(
                    "file",
                    string_of(&path).as_str(),
                    "bootstrap script referenced a vendor checkout file".to_string(),
                );
            } else {
                spec.add_suggestion(
                    "directory",
                    string_of(&path).as_str(),
                    "bootstrap script referenced a vendor checkout directory".to_string(),
                );
            }
        }
        k = k + 1;
    }
    assert(tv.take(toks.len() - from) =~= tv);
}

/// Suggests the vendor checkout files and directories a bootstrap script
/// names through its checkout function.
pub fn probe_script_paths(text: &str, discovery: &ScriptDiscovery, spec: &mut ProjectSpec)
    ensures
        final(spec)@ == with_script_paths(old(spec)@, *discovery, text@),
{
    let ls = crate::text::lines_str(text);
    let ghost lv = views(ls@);
    let assigns = assignments_of(&ls, discovery.path_root.as_str());
    let ghost av = pair_views(assigns@);
    let mut i: usize = 0;
    while i < ls.len()
        invariant
            i <= ls.len(),
            lv == views(ls@),
            lv == lines(text@),
            av == pair_views(assigns@),
            av == root_assignments(lv, discovery.path_root@),
            spec@ == with_checkout_lines(old(spec)@, lv.take(i as int), discovery.checkout_function@, av),
        decreases ls.len() - i,
    {
        assert(lv.take(i + 1).drop_last() =~= lv.take(i as int));
        assert(lv.take(i + 1).last() == ls@[i as int]@);
        if crate::text::contains_str(&ls[i], discovery.checkout_function.as_str()) {
            let toks = crate::text::words(&ls[i]);
            if toks.len() >= 2 {
                assert(views(toks@)[1] == toks@[1]@);
                let var = crate::text::trim_chars(&toks[1], Sep::QuoteDollar);
                match root_lookup(&assigns, &var) {
                    Some(base) => {
                        add_token_suggestions(spec, &base, &toks, 2);
                    },
                    None => {},
                }
            }
        }
        i = i + 1;
    }
    assert(lv.take(ls.len() as int) =~= lv);
}

/// What reading one file under a script root adds: nothing unless it is a
/// readable bootstrap script; else the script is sourced (or, when it looks
/// like it starts a long-running process, skipped with a note), and its
/// rules and checkout paths are read.
pub open spec fn with_script(s: SpecView, m: Manifest, root: Seq<char>, f: (Seq<char>, Option<Seq<char>>)) -> SpecView {
    let d = m.runtime_inference.script_discovery;
    if !discovered(d, f.0) {
        s
    } else {
        match f.1 {
            None => s,
            Some(t) => {
                let rel = root + "/"@ + f.0;
                let s1 = if daemon_like(d, t) {
                    SpecView { probe_notes: s.probe_notes.push(skipped_note(rel)), ..s }
                } else {
                    SpecView { source_scripts: push_new(s.source_scripts, rel), ..s }
                };
                with_script_paths(with_script_rules(s1, m.runtime_inference.script_rules@, lower(t)), d, t)
            },
        }
    }
}

pub open spec fn skipped_note(relative: Seq<char>) -> Seq<char> {
    "skipped bootstrap "@ + relative + ": appears to start a long-running process"@
}

pub open spec fn with_scripts(s: SpecView, m: Manifest, root: Seq<char>, files: Seq<(Seq<char>, Option<Seq<char>>)>) -> SpecView
    decreases files.len(),
{
    if files.len() == 0 {
        s
    } else {
        with_script(with_scripts(s, m, root, files.drop_last()), m, root, files.last())
    }
}

/// The files under each script root (`listings[i]` for root `i`), applied
/// root by root.
pub open spec fn with_script_roots(
    s: SpecView,
    m: Manifest,
    roots: Seq<Seq<char>>,
    listings: Seq<Seq<(Seq<char>, Option<Seq<char>>)>>,
) -> SpecView
    decreases roots.len(),
{
    if roots.len() == 0 {
        s
    } else {
        with_scripts(
            with_script_roots(s, m, roots.drop_last(), listings),
            m,
            roots.last(),
            listings[roots.len() - 1],
        )
    }
}

pub open spec fn script_listing_views(l: Seq<Vec<ScriptFile>>) -> Seq<Seq<(Seq<char>, Option<Seq<char>>)>> {
    l.map_values(|fs: Vec<ScriptFile>| files_view(fs@))
}

fn add_script(spec: &mut ProjectSpec, manifest: &Manifest, root: &str, file: &ScriptFile)
    ensures
        final(spec)@ == with_script(old(spec)@, *manifest, root@, file_view(*file)),
{
    let d = &manifest.runtime_inference.script_discovery;
    if !is_discovered_script(file.name.as_str(), d) {
        return;
    }
    match &file.text {
        None => {},
        Some(text) => {
            let relative = crate::text::concat3(root, "/", file.name.as_str());
            if looks_like_daemon(text.as_str(), d) {
                let note = crate::text::concat3(
                    "skipped bootstrap ",
                    relative.as_str(),
                    ": appears to start a long-running process",
                );
                let ghost before = spec@;
                let ghost notes = spec.probe_notes@;
                spec.probe_notes.push(note);
                proof {
                    crate::text::lemma_strs_push(notes, note);
                }
                assert(spec@ =~= SpecView { probe_notes: before.probe_notes.push(skipped_note(relative@)), ..before });
            } else {
                spec.add_source_script(relative.as_str());
            }
            probe_script_rules(text.as_str(), manifest, spec);
            probe_script_paths(text.as_str(), d, spec);
        },
    }
}

/// Sources the bootstrap scripts found under the script roots (unless they
/// look like they start a long-running process) and reads from each the
/// components and vendor checkouts it calls for; `listings[i]` holds the
/// regular files under root `i`, as the file system lists them, each with
/// its text where it could be read.
pub fn probe_workspace_scripts(manifest: &Manifest, listings: &Vec<Vec<ScriptFile>>, spec: &mut ProjectSpec)
    requires
        listings.len() == manifest.runtime_inference.script_discovery.roots.len(),
    ensures
        final(spec)@ == with_script_roots(
            old(spec)@,
            *manifest,
            strs(manifest.runtime_inference.script_discovery.roots@),
            script_listing_views(listings@),
        ),
{
    let roots = &manifest.runtime_inference.script_discovery.roots;
    let ghost rv = strs(roots@);
    let ghost lv = script_listing_views(listings@);
    let mut i: usize = 0;
    while i < roots.len()
        invariant
            i <= roots.len(),
            roots.len() == listings.len(),
            roots == &manifest.runtime_inference.script_discovery.roots,
            rv == strs(roots@),
            lv == script_listing_views(listings@),
            spec@ == with_script_roots(old(spec)@, *manifest, rv.take(i as int), lv),
        decreases roots.len() - i,
    {
        assert(rv.take(i + 1).drop_last() =~= rv.take(i as int));
        assert(rv.take(i + 1).last() == roots@[i as int]@);
        let files = &listings[i];
        let ghost fv = files_view(files@);
        assert(lv[i as int] == fv);
        let ghost start = spec@;
        let mut j: usize = 0;
        while j < files.len()
            invariant
                j <= files.len(),
                i < roots.len(),
                fv == files_view(files@),
                spec@ == with_scripts(start, *manifest, roots@[i as int]@, fv.take(j as int)),
            decreases files.len() - j,
        {
            assert(fv.take(j + 1).drop_last() =~= fv.take(j as int));
            assert(fv.take(j + 1).last() == file_view(files@[j as int]));
            add_script(spec, manifest, roots[i].as_str(), &files[j]);
            j = j + 1;
        }
        assert(fv.take(files.len() as int) =~= fv);
        i = i + 1;
    }
    assert(rv.take(roots.len() as int) =~= rv);
}

// ---------------------------------------------------------------------
// Probing a project
// ---------------------------------------------------------------------

/// What `robo init` reads in a project: the text of its `pyproject.toml`
/// (where it has one), the subdirectories under each workspace rule's
/// root, and the files under each script root.
pub struct WorkspaceFacts {
    pub pyproject: Option<String>,
    pub directories: Vec<Vec<String>>,
    pub scripts: Vec<Vec<ScriptFile>>,
}

/// The facts fit the manifest: one listing per workspace rule and per
/// script root, and a `pyproject.toml` whose Python requirement can be read.
pub open spec fn facts_fit(m: Manifest, f: WorkspaceFacts) -> bool {
    &&& f.directories.len() == m.runtime_inference.workspace_directory_rules.len()
    &&& f.scripts.len() == m.runtime_inference.script_discovery.roots.len()
    &&& (f.pyproject matches Some(t) ==> python_lines_ok(lines(t@)))
}

/// What `pyproject.toml` adds: the project's name (for an environment
/// still called `project`), its Python version, and the components its
/// dependencies call for.
pub open spec fn with_pyproject(s: SpecView, m: Manifest, text: Seq<char>) -> SpecView {
    let s1 = if s.env_name == "project"@ && keyed_value(lines(text), "name"@) is Some {
        SpecView { env_name: keyed_value(lines(text), "name"@)->0, ..s }
    } else {
        s
    };
    let s2 = match python_in_lines(lines(text)) {
        Some(v) => SpecView { python_version: v, probe_notes: s1.probe_notes.push(python_note(v)), ..s1 },
        None => s1,
    };
    with_dependency_rules(s2, m.runtime_inference.dependency_rules@, lower(text))
}

/// Everything probing a project adds, in the order it is read.
pub open spec fn probed_project(s: SpecView, m: Manifest, f: WorkspaceFacts) -> SpecView {
    let s1 = match f.pyproject {
        Some(t) => with_pyproject(s, m, t@),
        None => s,
    };
    let s2 = with_directory_rules(
        s1,
        m.runtime_inference.workspace_directory_rules@,
        listing_views(f.directories@),
    );
    with_script_roots(
        s2,
        m,
        strs(m.runtime_inference.script_discovery.roots@),
        script_listing_views(f.scripts@),
    )
}

pub fn probe_project(manifest: &Manifest, facts: &WorkspaceFacts, spec: &mut ProjectSpec)
    requires
        facts_fit(*manifest, *facts),
    ensures
        final(spec)@ == probed_project(old(spec)@, *manifest, *facts),
{
    match &facts.pyproject {
        Some(text) => {
            probe_pyproject_name(text.as_str(), spec);
            probe_python_version(text.as_str(), spec);
            probe_dependencies(text.as_str(), manifest, spec);
        },
        None => {},
    }
    probe_workspace_directories(manifest, &facts.directories, spec);
    probe_workspace_scripts(manifest, &facts.scripts, spec);
}

// ---------------------------------------------------------------------
// The options and the whole description
// ---------------------------------------------------------------------

/// The options of `robo init` in the standalone `robo` tool: those of the
/// full CLI without `--build`.
pub struct InitArgs {
    /// Project directory to initialize.
    pub target: Option<String>,
    /// Run the guided initializer.
    pub interactive: bool,
    /// List recommended starter profiles.
    pub list_profiles: bool,
    /// List reusable runtime components.
    pub list_components: bool,
    /// Print the generated `flake.nix` instead of writing files.
    pub stdout: bool,
    /// Overwrite the generated `flake.nix`.
    pub force: bool,
    /// Environment name.
    pub name: Option<String>,
    /// Apply a recommended profile.
    pub profile: Option<String>,
    /// Add comma-separated components.
    pub with_components: Option<String>,
    /// Disable pyproject/workspace runtime probing.
    pub no_probe: bool,
    /// Environment description.
    pub description: Option<String>,
    /// Workspace root inside the project.
    pub workspace_root: String,
    /// Comma-separated component names.
    pub components: Option<String>,
    /// Python version for uv.
    pub python_version: Option<String>,
    /// Comma-separated Nix systems.
    pub systems: Option<String>,
    /// Project-owned directories to require.
    pub required_dir: Vec<String>,
    /// Project-owned files to require.
    pub required_file: Vec<String>,
    /// Project-owned bootstrap scripts to source.
    pub source_script: Vec<String>,
    /// `NAME=VALUE` project runtime variables.
    pub env: Vec<String>,
    /// robo-nix input URL to embed in `flake.nix`.
    pub robo_nix_url: Option<String>,
}

/// The same options as the full CLI reads them, without a build.
pub open spec fn as_cli(a: InitArgs) -> crate::init::InitArgs {
    crate::init::InitArgs {
        target: a.target,
        interactive: a.interactive,
        list_profiles: a.list_profiles,
        list_components: a.list_components,
        stdout: a.stdout,
        force: a.force,
        build: false,
        name: a.name,
        profile: a.profile,
        with_components: a.with_components,
        no_probe: a.no_probe,
        description: a.description,
        workspace_root: a.workspace_root,
        components: a.components,
        python_version: a.python_version,
        systems: a.systems,
        required_dir: a.required_dir,
        required_file: a.required_file,
        source_script: a.source_script,
        env: a.env,
        robo_nix_url: a.robo_nix_url,
    }
}

impl InitArgs {
    pub fn to_cli(&self) -> (r: crate::init::InitArgs)
        ensures
            r.target == self.target && r.name == self.name && r.profile == self.profile,
            r.with_components == self.with_components && r.description == self.description,
            r.components == self.components && r.python_version == self.python_version,
            r.systems == self.systems && r.robo_nix_url == self.robo_nix_url,
            r.workspace_root@ == self.workspace_root@,
            r.interactive == self.interactive && r.list_profiles == self.list_profiles,
            r.list_components == self.list_components && r.stdout == self.stdout,
            r.force == self.force && r.no_probe == self.no_probe && !r.build,
            strs(r.required_dir@) == strs(self.required_dir@),
            strs(r.required_file@) == strs(self.required_file@),
            strs(r.source_script@) == strs(self.source_script@),
            strs(r.env@) == strs(self.env@),
    {
        crate::init::InitArgs {
            target: self.target.clone(),
            interactive: self.interactive,
            list_profiles: self.list_profiles,
            list_components: self.list_components,
            stdout: self.stdout,
            force: self.force,
            build: false,
            name: self.name.clone(),
            profile: self.profile.clone(),
            with_components: self.with_components.clone(),
            no_probe: self.no_probe,
            description: self.description.clone(),
            workspace_root: self.workspace_root.clone(),
            components: self.components.clone(),
            python_version: self.python_version.clone(),
            systems: self.systems.clone(),
            required_dir: crate::text::clone_strings(&self.required_dir),
            required_file: crate::text::clone_strings(&self.required_file),
            source_script: crate::text::clone_strings(&self.source_script),
            env: crate::text::clone_strings(&self.env),
            robo_nix_url: self.robo_nix_url.clone(),
        }
    }
}

/// The description before it is put in order: the chosen profile's, with
/// the command line applied, named after the target directory, and with
/// what probing found (unless switched off).
pub open spec fn scaffold_before_normal_form(
    a: crate::init::InitArgs,
    m: Manifest,
    profile: Seq<char>,
    p: crate::init::manifest::Profile,
    target_dir: Seq<char>,
    f: WorkspaceFacts,
) -> SpecView {
    let s = crate::init::pipeline::target_defaults(
        target_dir,
        crate::init::pipeline::cli_overrides(a, crate::init::spec::profile_spec(m, profile, p)),
    );
    if a.no_probe {
        s
    } else {
        probed_project(s, m, f)
    }
}

/// The standalone tool's order: as the full CLI's normal form, except that
/// the notes of what was inferred keep every entry.
pub open spec fn scaffold_normal_form(before: SpecView, after: SpecView) -> bool {
    &&& crate::init::spec::normal_form(
        before,
        SpecView { probe_notes: crate::init::spec::deduped(before.probe_notes), ..after },
    )
    &&& after.probe_notes == before.probe_notes
}

/// Puts a description in the standalone tool's order.
pub fn scaffold_dedupe(spec: &mut ProjectSpec)
    ensures
        scaffold_normal_form(old(spec)@, final(spec)@),
{
    let notes = crate::text::clone_strings(&spec.probe_notes);
    crate::init::spec::dedupe_all(spec);
    let ghost deduped = spec@;
    spec.probe_notes = notes;
    assert(SpecView { probe_notes: crate::init::spec::deduped(old(spec)@.probe_notes), ..spec@ } =~= deduped);
}

/// The description `robo init` writes for a project whose files show the
/// given facts: the chosen profile's, with the command line, the target's
/// name and probing applied, put in order and checked against the
/// manifest. Fails when the profile is unknown or the description names a
/// component the manifest lacks (or has no system).
pub fn scaffold_spec(args: &InitArgs, manifest: &Manifest, facts: &WorkspaceFacts) -> (r: Result<
    crate::init::pipeline::ProjectDraft,
    String,
>)
    requires
        !args.no_probe ==> facts_fit(*manifest, *facts),
    ensures
        match r {
            Ok(d) => d.target_dir@ == crate::init::pipeline::chosen_target(as_cli(*args)) && exists|i: int|
                0 <= i < manifest.profiles.len() && manifest.profiles@[i].0@
                    == crate::init::pipeline::chosen_profile(as_cli(*args), *manifest) && (forall|j: int|
                    0 <= j < i ==> #[trigger] manifest.profiles@[j].0@
                        != crate::init::pipeline::chosen_profile(as_cli(*args), *manifest))
                    && scaffold_normal_form(
                    scaffold_before_normal_form(
                        as_cli(*args),
                        *manifest,
                        crate::init::pipeline::chosen_profile(as_cli(*args), *manifest),
                        manifest.profiles@[i].1,
                        crate::init::pipeline::chosen_target(as_cli(*args)),
                        *facts,
                    ),
                    d.spec@,
                ) && crate::init::manifest::validation(
                    *manifest,
                    d.spec@.supported_systems,
                    d.spec@.components,
                ) is None,
            Err(e) => (forall|i: int|
                0 <= i < manifest.profiles.len() ==> #[trigger] manifest.profiles@[i].0@
                    != crate::init::pipeline::chosen_profile(as_cli(*args), *manifest))
                && e@ == "unknown profile: "@ + crate::init::pipeline::chosen_profile(
                as_cli(*args),
                *manifest,
            ) || exists|i: int|
                0 <= i < manifest.profiles.len() && manifest.profiles@[i].0@
                    == crate::init::pipeline::chosen_profile(as_cli(*args), *manifest) && (forall|j: int|
                    0 <= j < i ==> #[trigger] manifest.profiles@[j].0@
                        != crate::init::pipeline::chosen_profile(as_cli(*args), *manifest))
                    && exists|after: SpecView|
                    scaffold_normal_form(
                        scaffold_before_normal_form(
                            as_cli(*args),
                            *manifest,
                            crate::init::pipeline::chosen_profile(as_cli(*args), *manifest),
                            manifest.profiles@[i].1,
                            crate::init::pipeline::chosen_target(as_cli(*args)),
                            *facts,
                        ),
                        after,
                    ) && crate::init::manifest::validation(
                        *manifest,
                        after.supported_systems,
                        after.components,
                    ) == Some(e@),
        },
{
    let cli = args.to_cli();
    let ghost a = as_cli(*args);
    let profile: &str = match &args.profile {
        Some(p) => p.as_str(),
        None => manifest.runtime_inference.default_profile.as_str(),
    };
    let target_dir: String = match &args.target {
        Some(t) => t.clone(),
        None => string_of(&vec!['.']),
    };
    let mut spec = match ProjectSpec::from_profile(profile, manifest) {
        Ok(s) => s,
        Err(e) => {
            return Err(e);
        },
    };
    let ghost name = crate::init::pipeline::chosen_profile(a, *manifest);
    assert(profile@ == name);
    assert(target_dir@ == crate::init::pipeline::chosen_target(a));
    let ghost k = choose|k: int|
        0 <= k < manifest.profiles.len() && manifest.profiles@[k].0@ == name && (forall|j: int|
            0 <= j < k ==> #[trigger] manifest.profiles@[j].0@ != name) && spec@
            == crate::init::spec::profile_spec(*manifest, name, manifest.profiles@[k].1);
    let ghost s0 = spec@;
    crate::init::pipeline::apply_cli_overrides(&cli, &mut spec);
    assert(crate::init::pipeline::cli_overrides(cli, s0) == crate::init::pipeline::cli_overrides(a, s0));
    crate::init::pipeline::apply_target_defaults(target_dir.as_str(), &mut spec);
    if !args.no_probe {
        probe_project(manifest, facts, &mut spec);
    }
    let ghost before = spec@;
    assert(before == scaffold_before_normal_form(
        a,
        *manifest,
        name,
        manifest.profiles@[k].1,
        crate::init::pipeline::chosen_target(a),
        *facts,
    ));
    scaffold_dedupe(&mut spec);
    match crate::init::manifest::validate(manifest, &spec) {
        Ok(_) => Ok(crate::init::pipeline::ProjectDraft { target_dir, spec }),
        Err(e) => Err(e),
    }
}

// ---------------------------------------------------------------------
// Writing the files
// ---------------------------------------------------------------------

/// Whether `robo init` may write `flake.nix`: there is none yet, it was
/// asked to overwrite, or the one there (read as `existing`) was generated
/// by robo-nix.
pub fn flake_writable(present: bool, existing: Option<&str>, force: bool) -> (r: bool)
    ensures
        r == (!present || force || (existing matches Some(t) && contains(
            t@,
            "mkProjectFlakeFromManifest"@,
        ))),
{
    if !present || force {
        return true;
    }
    match existing {
        Some(t) => crate::text::contains_str(&chars_of(t), "mkProjectFlakeFromManifest"),
        None => false,
    }
}

/// What a generated file holds: the text without trailing whitespace and
/// with one newline.
pub fn file_contents(text: &str) -> (r: String)
    ensures
        r@ == crate::text::trim_end(text@, Sep::Whitespace) + "\n"@,
{
    let mut out = crate::text::trim_end_chars(&chars_of(text), Sep::Whitespace);
    append_str(&mut out, "\n");
    string_of(&out)
}

/// `Path::join` of a relative name onto a directory, as displayed.
pub open spec fn joined_path(base: Seq<char>, name: Seq<char>) -> Seq<char> {
    if base.len() == 0 {
        name
    } else if base.last() == '/' {
        base + name
    } else {
        base + "/"@ + name
    }
}

pub fn join_path(base: &str, name: &str) -> (r: String)
    ensures
        r@ == joined_path(base@, name@),
{
    let b = chars_of(base);
    if b.len() == 0 {
        name.to_string()
    } else if b[b.len() - 1] == '/' {
        crate::text::concat(base, name)
    } else {
        crate::text::concat3(base, "/", name)
    }
}

/// The first lines of the report, after a `robo` label.
pub open spec fn summary_head(robo: Seq<char>, target: Seq<char>, env_name: Seq<char>, source_url: Seq<char>) -> Seq<Seq<char>> {
    seq![robo + " init"@, "  target: "@ + target, "  env:    "@ + env_name, "  source: "@ + source_url]
}

pub open spec fn notes_section(notes: Seq<Seq<char>>) -> Seq<Seq<char>> {
    if notes.len() > 0 {
        seq![Seq::<char>::empty(), "Detected:"@] + notes.map_values(|n: Seq<char>| "  + "@ + n)
    } else {
        Seq::empty()
    }
}

pub open spec fn suggestion_line(t: Triple) -> Seq<char> {
    "  ? "@ + t.0 + " "@ + t.1 + ": "@ + t.2
}

pub open spec fn suggestions_section(items: Seq<Triple>) -> Seq<Seq<char>> {
    if items.len() > 0 {
        seq![Seq::<char>::empty(), "Suggestions:"@] + items.map_values(|t: Triple| suggestion_line(t))
    } else {
        Seq::empty()
    }
}

/// The files written, after an `ok:` label.
pub open spec fn generated_section(ok: Seq<char>, target: Seq<char>, pyproject_status: Seq<char>) -> Seq<Seq<char>> {
    seq![
        Seq::<char>::empty(),
        ok + " Generated:"@,
        "  wrote "@ + joined_path(target, "flake.nix"@),
        "  wrote "@ + joined_path(target, "robo.nix"@),
        "  wrote "@ + joined_path(target, ".python-version"@),
        "  "@ + pyproject_status + " "@ + joined_path(target, "pyproject.toml"@),
    ]
}

/// The next steps, after a `robo` label; a `path:` source adds a lock
/// refresh.
pub open spec fn next_steps(robo: Seq<char>, target: Seq<char>, source_url: Seq<char>) -> Seq<Seq<char>> {
    seq![Seq::<char>::empty(), robo + " Next steps:"@, "  cd "@ + target] + (if is_prefix(
        "path:"@,
        source_url,
    ) {
        seq!["  nix flake lock --update-input robo-nix  # after local robo-nix source edits"@]
    } else {
        Seq::empty()
    }) + seq!["  robo doctor"@, "  robo sync --group dev"@, "  robo run pytest tests"@]
}

/// What `robo init` reports once the files are written: where, the
/// environment and source, what it detected and suggests, the files
/// written, and the next steps.
pub open spec fn init_summary(target: Seq<char>, s: SpecView, pyproject_status: Seq<char>, source_url: Seq<char>) -> Seq<Seq<char>> {
    summary_head("robo"@, target, s.env_name, source_url) + notes_section(s.probe_notes)
        + suggestions_section(s.suggestions) + generated_section("ok:"@, target, pyproject_status)
        + next_steps("robo"@, target, source_url)
}

fn push_line(out: &mut Vec<String>, line: String)
    ensures
        strs(final(out)@) == strs(old(out)@).push(line@),
{
    proof {
        crate::text::lemma_strs_push(out@, line);
    }
    out.push(line);
}

fn push_head(out: &mut Vec<String>, robo: &str, target: &str, env_name: &str, source_url: &str)
    ensures
        strs(final(out)@) == strs(old(out)@) + summary_head(robo@, target@, env_name@, source_url@),
{
    let ghost start = strs(out@);
    push_line(out, crate::text::concat(robo, " init"));
    push_line(out, crate::text::concat("  target: ", target));
    push_line(out, crate::text::concat("  env:    ", env_name));
    push_line(out, crate::text::concat("  source: ", source_url));
    assert(strs(out@) =~= start + summary_head(robo@, target@, env_name@, source_url@));
}

fn push_notes(out: &mut Vec<String>, notes: &Vec<String>)
    ensures
        strs(final(out)@) == strs(old(out)@) + notes_section(strs(notes@)),
{
    let ghost start0 = strs(out@);
    let ghost nv = strs(notes@);
    if notes.len() > 0 {
        push_line(out, String::new());
        push_line(out, "Detected:".to_string());
        let ghost start = strs(out@);
        let mut i: usize = 0;
        while i < notes.len()
            invariant
                i <= notes.len(),
                nv == strs(notes@),
                strs(out@) == start + nv.take(i as int).map_values(|n: Seq<char>| "  + "@ + n),
            decreases notes.len() - i,
        {
            push_line(out, crate::text::concat("  + ", notes[i].as_str()));
            assert(nv.take(i + 1).map_values(|n: Seq<char>| "  + "@ + n) =~= nv.take(i as int).map_values(
                |n: Seq<char>| "  + "@ + n,
            ).push("  + "@ + nv[i as int]));
            i = i + 1;
        }
        assert(nv.take(notes.len() as int) =~= nv);
        assert(strs(out@) =~= start0 + notes_section(nv));
    } else {
        assert(strs(out@) =~= start0 + notes_section(nv));
    }
}

fn push_suggestions(out: &mut Vec<String>, items: &Vec<InferenceSuggestion>)
    ensures
        strs(final(out)@) == strs(old(out)@) + suggestions_section(suggestion_view(items@)),
{
    let ghost start0 = strs(out@);
    let ghost sv = suggestion_view(items@);
    if items.len() > 0 {
        push_line(out, String::new());
        push_line(out, "Suggestions:".to_string());
        let ghost start = strs(out@);
        let mut i: usize = 0;
        while i < items.len()
            invariant
                i <= items.len(),
                sv == suggestion_view(items@),
                strs(out@) == start + sv.take(i as int).map_values(|t: Triple| suggestion_line(t)),
            decreases items.len() - i,
        {
            let item = &items[i];
            let mut line: Vec<char> = Vec::new();
            append_str(&mut line, "  ? ");
            append_str(&mut line, item.kind.as_str());
            append_str(&mut line, " ");
            append_str(&mut line, item.path.as_str());
            append_str(&mut line, ": ");
            append_str(&mut line, item.reason.as_str());
            push_line(out, string_of(&line));
            assert(sv[i as int] == (item.kind@, item.path@, item.reason@));
            assert(sv.take(i + 1).map_values(|t: Triple| suggestion_line(t)) =~= sv.take(i as int).map_values(
                |t: Triple| suggestion_line(t),
            ).push(suggestion_line(sv[i as int])));
            i = i + 1;
        }
        assert(sv.take(items.len() as int) =~= sv);
        assert(strs(out@) =~= start0 + suggestions_section(sv));
    } else {
        assert(strs(out@) =~= start0 + suggestions_section(sv));
    }
}

fn push_generated(out: &mut Vec<String>, ok: &str, target: &str, pyproject_status: &str)
    ensures
        strs(final(out)@) == strs(old(out)@) + generated_section(ok@, target@, pyproject_status@),
{
    let ghost start = strs(out@);
    push_line(out, String::new());
    push_line(out, crate::text::concat(ok, " Generated:"));
    push_line(out, crate::text::concat("  wrote ", join_path(target, "flake.nix").as_str()));
    push_line(out, crate::text::concat("  wrote ", join_path(target, "robo.nix").as_str()));
    push_line(out, crate::text::concat("  wrote ", join_path(target, ".python-version").as_str()));
    push_line(
        out,
        crate::text::concat4("  ", pyproject_status, " ", join_path(target, "pyproject.toml").as_str()),
    );
    assert(strs(out@) =~= start + generated_section(ok@, target@, pyproject_status@));
}

fn push_next_steps(out: &mut Vec<String>, robo: &str, target: &str, source_url: &str)
    ensures
        strs(final(out)@) == strs(old(out)@) + next_steps(robo@, target@, source_url@),
{
    let ghost start = strs(out@);
    push_line(out, String::new());
    push_line(out, crate::text::concat(robo, " Next steps:"));
    push_line(out, crate::text::concat("  cd ", target));
    let lock = crate::text::starts_with_str(&chars_of(source_url), "path:");
    if lock {
        push_line(
            out,
            "  nix flake lock --update-input robo-nix  # after local robo-nix source edits".to_string(),
        );
    }
    push_line(out, "  robo doctor".to_string());
    push_line(out, "  robo sync --group dev".to_string());
    push_line(out, "  robo run pytest tests".to_string());
    assert(strs(out@) =~= start + next_steps(robo@, target@, source_url@));
}

/// The report's lines; without colour they are `init_summary`, with it the
/// `robo` and `ok:` labels are styled.
pub fn init_summary_lines(
    config: crate::ui::Config,
    target: &str,
    spec: &ProjectSpec,
    pyproject_status: &str,
    source_url: &str,
) -> (r: Vec<String>)
    ensures
        crate::ui::renders_lines(config, strs(r@), init_summary(target@, spec@, pyproject_status@, source_url@)),
{
    let robo = crate::ui::label(config, "robo", crate::ui::LabelKind::Status);
    let ok = crate::ui::label(config, "ok:", crate::ui::LabelKind::Pass);
    let mut out: Vec<String> = Vec::new();
    assert(strs(out@) =~= Seq::<Seq<char>>::empty());
    push_head(&mut out, robo.as_str(), target, spec.env_name.as_str(), source_url);
    push_notes(&mut out, &spec.probe_notes);
    push_suggestions(&mut out, &spec.suggestions);
    push_generated(&mut out, ok.as_str(), target, pyproject_status);
    push_next_steps(&mut out, robo.as_str(), target, source_url);
    assert(strs(out@) =~= summary_head(robo@, target@, spec@.env_name, source_url@) + notes_section(
        spec@.probe_notes,
    ) + suggestions_section(spec@.suggestions) + generated_section(ok@, target@, pyproject_status@)
        + next_steps(robo@, target@, source_url@));
    proof {
        lemma_summary_shows(robo@, ok@, target@, spec@, pyproject_status@, source_url@);
    }
    out
}

/// With the labels styled, the report still shows its plain lines.
proof fn lemma_summary_shows(
    robo: Seq<char>,
    ok: Seq<char>,
    target: Seq<char>,
    s: SpecView,
    pyproject_status: Seq<char>,
    source_url: Seq<char>,
)
    requires
        crate::ui::shows(robo, "robo"@),
        crate::ui::shows(ok, "ok:"@),
    ensures
        crate::ui::shows_lines(
            summary_head(robo, target, s.env_name, source_url) + notes_section(s.probe_notes) + suggestions_section(
                s.suggestions,
            ) + generated_section(ok, target, pyproject_status) + next_steps(robo, target, source_url),
            init_summary(target, s, pyproject_status, source_url),
        ),
{
    crate::ui::lemma_shows_itself(" init"@);
    crate::ui::lemma_shows_concat(robo, "robo"@, " init"@, " init"@);
    let head_rest = seq!["  target: "@ + target, "  env:    "@ + s.env_name, "  source: "@ + source_url];
    crate::ui::lemma_shows_lines_first(robo + " init"@, "robo"@ + " init"@, head_rest);
    assert(summary_head(robo, target, s.env_name, source_url) =~= seq![robo + " init"@] + head_rest);
    assert(summary_head("robo"@, target, s.env_name, source_url) =~= seq!["robo"@ + " init"@] + head_rest);
    let middle = notes_section(s.probe_notes) + suggestions_section(s.suggestions);
    crate::ui::lemma_shows_lines_itself(middle);
    crate::ui::lemma_shows_itself(" Generated:"@);
    crate::ui::lemma_shows_concat(ok, "ok:"@, " Generated:"@, " Generated:"@);
    let gen_rest = seq![
        "  wrote "@ + joined_path(target, "flake.nix"@),
        "  wrote "@ + joined_path(target, "robo.nix"@),
        "  wrote "@ + joined_path(target, ".python-version"@),
        "  "@ + pyproject_status + " "@ + joined_path(target, "pyproject.toml"@),
    ];
    crate::ui::lemma_shows_lines_first(ok + " Generated:"@, "ok:"@ + " Generated:"@, gen_rest);
    crate::ui::lemma_shows_lines_itself(seq![Seq::<char>::empty()]);
    crate::ui::lemma_shows_lines_add(seq![Seq::<char>::empty()], seq![Seq::<char>::empty()], seq![ok + " Generated:"@] + gen_rest, seq!["ok:"@ + " Generated:"@] + gen_rest);
    assert(generated_section(ok, target, pyproject_status) =~= seq![Seq::<char>::empty()] + (seq![ok + " Generated:"@] + gen_rest));
    assert(generated_section("ok:"@, target, pyproject_status) =~= seq![Seq::<char>::empty()] + (seq!["ok:"@ + " Generated:"@] + gen_rest));
    crate::ui::lemma_shows_itself(" Next steps:"@);
    crate::ui::lemma_shows_concat(robo, "robo"@, " Next steps:"@, " Next steps:"@);
    let next_rest = seq!["  cd "@ + target] + (if is_prefix("path:"@, source_url) {
        seq!["  nix flake lock --update-input robo-nix  # after local robo-nix source edits"@]
    } else {
        Seq::empty()
    }) + seq!["  robo doctor"@, "  robo sync --group dev"@, "  robo run pytest tests"@];
    crate::ui::lemma_shows_lines_first(robo + " Next steps:"@, "robo"@ + " Next steps:"@, next_rest);
    crate::ui::lemma_shows_lines_add(seq![Seq::<char>::empty()], seq![Seq::<char>::empty()], seq![robo + " Next steps:"@] + next_rest, seq!["robo"@ + " Next steps:"@] + next_rest);
    assert(next_steps(robo, target, source_url) =~= seq![Seq::<char>::empty()] + (seq![robo + " Next steps:"@] + next_rest));
    assert(next_steps("robo"@, target, source_url) =~= seq![Seq::<char>::empty()] + (seq!["robo"@ + " Next steps:"@] + next_rest));
    crate::ui::lemma_shows_lines_add(
        summary_head(robo, target, s.env_name, source_url),
        summary_head("robo"@, target, s.env_name, source_url),
        middle,
        middle,
    );
    crate::ui::lemma_shows_lines_add(
        summary_head(robo, target, s.env_name, source_url) + middle,
        summary_head("robo"@, target, s.env_name, source_url) + middle,
        generated_section(ok, target, pyproject_status),
        generated_section("ok:"@, target, pyproject_status),
    );
    crate::ui::lemma_shows_lines_add(
        summary_head(robo, target, s.env_name, source_url) + middle + generated_section(ok, target, pyproject_status),
        summary_head("robo"@, target, s.env_name, source_url) + middle + generated_section("ok:"@, target, pyproject_status),
        next_steps(robo, target, source_url),
        next_steps("robo"@, target, source_url),
    );
    assert(summary_head(robo, target, s.env_name, source_url) + notes_section(s.probe_notes) + suggestions_section(
        s.suggestions,
    ) + generated_section(ok, target, pyproject_status) + next_steps(robo, target, source_url)
        =~= summary_head(robo, target, s.env_name, source_url) + middle + generated_section(ok, target, pyproject_status) + next_steps(robo, target, source_url));
    assert(init_summary(target, s, pyproject_status, source_url)
        =~= summary_head("robo"@, target, s.env_name, source_url) + middle + generated_section("ok:"@, target, pyproject_status) + next_steps("robo"@, target, source_url));
}

/// Whether an answer to a yes/no prompt of `robo init` is yes: exactly
/// `yes` or `y`.
pub fn confirmed(answer: &str) -> (r: bool)
    ensures
        r == (answer@ == "yes"@ || answer@ == "y"@),
{
    crate::text::str_eq(answer, "yes") || crate::text::str_eq(answer, "y")
}

/// What is wrong with a project's `flake.nix` before running in it: the
/// error and its hint.
pub struct FlakeProblem {
    pub error: String,
    pub hint: String,
}

/// A `flake.nix` is usable when robo generated it; one that still points
/// at the published robo-nix is repointed at the packaged source (the new
/// text is returned), which needs a packaged source.
pub open spec fn flake_repair(flake: Seq<char>, packaged: Option<Seq<char>>) -> Result<Option<Seq<char>>, (Seq<char>, Seq<char>)> {
    if !contains(flake, "mkProjectFlakeFromManifest"@) {
        Err(
            (
                "flake.nix does not look generated by robo."@,
                "run `robo init . --force` only if you want robo to replace this flake."@,
            ),
        )
    } else if !contains(flake, "github:ausbxuse/robo-nix"@) {
        Ok(None)
    } else {
        match packaged {
            Some(url) => Ok(Some(crate::text::replace_all(flake, "github:ausbxuse/robo-nix"@, url))),
            None => Err(
                (
                    "flake.nix points at github:ausbxuse/robo-nix, but this robo install has no packaged source URL."@,
                    "run `robo init . --robo-nix-url path:/path/to/robo-nix` to repair this project."@,
                ),
            ),
        }
    }
}

pub fn managed_flake_repair(flake: &str, packaged: Option<&str>) -> (r: Result<Option<String>, FlakeProblem>)
    ensures
        match flake_repair(flake@, match packaged {
            Some(u) => Some(u@),
            None => None,
        }) {
            Ok(None) => r matches Ok(None),
            Ok(Some(t)) => r matches Ok(Some(x)) && x@ == t,
            Err((e, h)) => r matches Err(p) && p.error@ == e && p.hint@ == h,
        },
{
    let v = chars_of(flake);
    if !crate::text::contains_str(&v, "mkProjectFlakeFromManifest") {
        return Err(FlakeProblem {
            error: "flake.nix does not look generated by robo.".to_string(),
            hint: "run `robo init . --force` only if you want robo to replace this flake.".to_string(),
        });
    }
    if !crate::text::contains_str(&v, "github:ausbxuse/robo-nix") {
        return Ok(None);
    }
    match packaged {
        Some(url) => {
            proof {
                reveal_strlit("github:ausbxuse/robo-nix");
            }
            Ok(Some(crate::text::replace_str(flake, "github:ausbxuse/robo-nix", url)))
        },
        None => Err(FlakeProblem {
            error: "flake.nix points at github:ausbxuse/robo-nix, but this robo install has no packaged source URL.".to_string(),
            hint: "run `robo init . --robo-nix-url path:/path/to/robo-nix` to repair this project.".to_string(),
        }),
    }
}

} // verus!
