//! What `pyproject.toml` says about the project: its name, its Python
//! requirement and the names of its dependencies.
//!
//! The TOML itself is parsed by the `toml` crate; the library reads the
//! parsed document.
use vstd::prelude::*;
use crate::text::{
    append_chars, chars_of, find, is_alnum, lower_char, string_of, strip_prefix, strip_suffix,
    trim, trim_start, Sep, split, strs, views,
};

verus! {

/// A TOML value as far as the library reads it: strings, arrays, tables
/// (with their entries in the order the parser gives them) and anything
/// else.
pub enum TomlValue {
    Str(String),
    Array(Vec<TomlValue>),
    Table(Vec<(String, TomlValue)>),
    Other,
}

/// The document the `toml` crate parses from a text, when it is valid
/// TOML.
pub uninterp spec fn toml_document(text: Seq<char>) -> Option<TomlValue>;

#[verifier::external_type_specification]
#[verifier::external_body]
pub struct ExTomlValue(toml::Value);

/// The library's copy of a parsed TOML value, one variant for one variant.
#[verifier::external_body]
fn toml_tree(v: &toml::Value) -> TomlValue {
    match v {
        toml::Value::String(s) => TomlValue::Str(s.clone()),
        toml::Value::Array(items) => TomlValue::Array(items.iter().map(toml_tree).collect()),
        toml::Value::Table(t) => TomlValue::Table(
            t.iter().map(|(k, v)| (k.clone(), toml_tree(v))).collect(),
        ),
        _ => TomlValue::Other,
    }
}

/// `str::parse::<toml::Table>`: the document as a table, when the text is
/// valid TOML. A function of the text alone.
#[verifier::external_body]
fn parse_toml(text: &str) -> (r: Option<TomlValue>)
    ensures
        r == toml_document(text@),
{
    match text.parse::<toml::Table>() {
        Ok(t) => Some(toml_tree(&toml::Value::Table(t))),
        Err(_) => None,
    }
}

/// The value under `key` in a table: the first entry with that key.
pub open spec fn entry_of(entries: Seq<(String, TomlValue)>, key: Seq<char>) -> Option<TomlValue>
    decreases entries.len(),
{
    if entries.len() == 0 {
        None
    } else if entries[0].0@ == key {
        Some(entries[0].1)
    } else {
        entry_of(entries.skip(1), key)
    }
}

/// `Value::get` with a key: the value under it when `v` is a table.
pub open spec fn get(v: Option<TomlValue>, key: Seq<char>) -> Option<TomlValue> {
    match v {
        Some(TomlValue::Table(entries)) => entry_of(entries@, key),
        _ => None,
    }
}

/// `Value::as_str`.
pub open spec fn as_str(v: Option<TomlValue>) -> Option<Seq<char>> {
    match v {
        Some(TomlValue::Str(s)) => Some(s@),
        _ => None,
    }
}

fn entry<'a>(v: &'a TomlValue, key: &str) -> (r: Option<&'a TomlValue>)
    ensures
        match r {
            Some(x) => get(Some(*v), key@) == Some(*x),
            None => get(Some(*v), key@) is None,
        },
{
    match v {
        TomlValue::Table(entries) => {
            let mut i: usize = 0;
            assert(entries@.skip(0) == entries@);
            while i < entries.len()
                invariant
                    i <= entries.len(),
                    get(Some(*v), key@) == entry_of(entries@, key@),
                    entry_of(entries@, key@) == entry_of(entries@.skip(i as int), key@),
                decreases entries.len() - i,
            {
                assert(entries@.skip(i as int)[0] == entries@[i as int]);
                assert(entries@.skip(i as int).skip(1) == entries@.skip(i + 1));
                if crate::text::str_eq(entries[i].0.as_str(), key) {
                    assert(entry_of(entries@.skip(i as int), key@) == Some(entries@[i as int].1));
                    return Some(&entries[i].1);
                }
                i = i + 1;
            }
            None
        },
        _ => None,
    }
}

fn get_in<'a>(v: Option<&'a TomlValue>, key: &str) -> (r: Option<&'a TomlValue>)
    ensures
        match r {
            Some(x) => get(
                match v {
                    Some(y) => Some(*y),
                    None => None,
                },
                key@,
            ) == Some(*x),
            None => get(
                match v {
                    Some(y) => Some(*y),
                    None => None,
                },
                key@,
            ) is None,
        },
{
    match v {
        Some(x) => entry(x, key),
        None => None,
    }
}

fn string_in(v: Option<&TomlValue>) -> (r: Option<String>)
    ensures
        match r {
            Some(s) => as_str(
                match v {
                    Some(y) => Some(*y),
                    None => None,
                },
            ) == Some(s@),
            None => as_str(
                match v {
                    Some(y) => Some(*y),
                    None => None,
                },
            ) is None,
        },
{
    match v {
        Some(TomlValue::Str(s)) => Some(s.clone()),
        _ => None,
    }
}

/// A parsed document, by value.
pub open spec fn doc_of(doc: Option<&TomlValue>) -> Option<TomlValue> {
    match doc {
        Some(d) => Some(*d),
        None => None,
    }
}

/// `project.name` of a parsed document.
pub open spec fn doc_name(doc: Option<TomlValue>) -> Option<Seq<char>> {
    as_str(get(get(doc, "project"@), "name"@))
}

/// `project.requires-python` of a parsed document.
pub open spec fn doc_requires_python(doc: Option<TomlValue>) -> Option<Seq<char>> {
    as_str(get(get(doc, "project"@), "requires-python"@))
}

/// `project.name`.
pub open spec fn name_of(text: Seq<char>) -> Option<Seq<char>> {
    doc_name(toml_document(text))
}

/// `project.requires-python`.
pub open spec fn requires_python(text: Seq<char>) -> Option<Seq<char>> {
    doc_requires_python(toml_document(text))
}

/// `project.name` of a parsed `pyproject.toml`.
pub fn document_name(doc: Option<&TomlValue>) -> (r: Option<String>)
    ensures
        match r {
            Some(s) => doc_name(doc_of(doc)) == Some(s@),
            None => doc_name(doc_of(doc)) is None,
        },
{
    let project = get_in(doc, "project");
    string_in(get_in(project, "name"))
}

/// `project.requires-python` of a parsed `pyproject.toml`.
pub fn document_python_requirement(doc: Option<&TomlValue>) -> (r: Option<String>)
    ensures
        match r {
            Some(s) => doc_requires_python(doc_of(doc)) == Some(s@),
            None => doc_requires_python(doc_of(doc)) is None,
        },
{
    let project = get_in(doc, "project");
    string_in(get_in(project, "requires-python"))
}

pub fn project_name(text: &str) -> (r: Option<String>)
    ensures
        match r {
            Some(s) => name_of(text@) == Some(s@),
            None => name_of(text@) is None,
        },
{
    let doc = parse_toml(text);
    document_name(doc.as_ref())
}

pub fn python_requirement(text: &str) -> (r: Option<String>)
    ensures
        match r {
            Some(s) => requires_python(text@) == Some(s@),
            None => requires_python(text@) is None,
        },
{
    let doc = parse_toml(text);
    document_python_requirement(doc.as_ref())
}

/// A version of two or three numeric parts, such as `3.11` or `3.11.4`.
pub open spec fn numeric_version(v: Seq<char>) -> bool {
    let parts = split(v, Sep::Char('.'));
    (parts.len() == 2 || parts.len() == 3) && forall|i: int|
        0 <= i < parts.len() ==> #[trigger] parts[i].len() > 0 && crate::text::all_digits(parts[i])
}

pub fn is_numeric_version(v: &Vec<char>) -> (r: bool)
    ensures
        r == numeric_version(v@),
{
    let parts = crate::text::split_str(v, '.');
    if parts.len() != 2 && parts.len() != 3 {
        return false;
    }
    let mut i: usize = 0;
    while i < parts.len()
        invariant
            i <= parts.len(),
            views(parts@) == split(v@, Sep::Char('.')),
            forall|k: int|
                0 <= k < i ==> #[trigger] views(parts@)[k].len() > 0 && crate::text::all_digits(views(parts@)[k]),
        decreases parts.len() - i,
    {
        assert(views(parts@)[i as int] == parts@[i as int]@);
        if parts[i].len() == 0 || !crate::text::all_ascii_digits(&parts[i]) {
            return false;
        }
        i = i + 1;
    }
    true
}

/// The longest prefix made of digits, `.` and `*`.
pub open spec fn version_token(s: Seq<char>) -> Seq<char>
    decreases s.len(),
{
    if s.len() > 0 && (crate::text::is_digit(s[0]) || s[0] == '.' || s[0] == '*') {
        seq![s[0]] + version_token(s.skip(1))
    } else {
        Seq::empty()
    }
}

/// The version an exact requirement (`==3.11.*`, `===3.11`) pins.
pub open spec fn exact_requirement(raw: Seq<char>) -> Option<Seq<char>> {
    let rest = match strip_prefix(raw, "==="@) {
        Some(r) => Some(r),
        None => strip_prefix(raw, "=="@),
    };
    match rest {
        None => None,
        Some(r) => {
            let token = version_token(trim_start(r, Sep::Whitespace));
            let version = match strip_suffix(token, ".*"@) {
                Some(v) => v,
                None => token,
            };
            if numeric_version(version) {
                Some(version)
            } else {
                None
            }
        },
    }
}

fn version_token_chars(s: &Vec<char>) -> (r: Vec<char>)
    ensures
        r@ == version_token(s@),
{
    let mut i: usize = 0;
    assert(s@.skip(0) == s@);
    assert(s@.take(0) == Seq::<char>::empty());
    while i < s.len() && (crate::text::is_ascii_digit(s[i]) || s[i] == '.' || s[i] == '*')
        invariant
            i <= s.len(),
            version_token(s@) == s@.take(i as int) + version_token(s@.skip(i as int)),
        decreases s.len() - i,
    {
        assert(s@.skip(i as int).skip(1) == s@.skip(i + 1));
        assert(s@.take(i + 1) == s@.take(i as int) + seq![s@[i as int]]);
        i = i + 1;
    }
    crate::text::slice(s, 0, i)
}

pub fn parse_exact_python_requirement(raw: &str) -> (r: Option<String>)
    ensures
        match r {
            Some(s) => exact_requirement(raw@) == Some(s@),
            None => exact_requirement(raw@) is None,
        },
{
    let v = chars_of(raw);
    let rest = match crate::text::strip_prefix_str(&v, "===") {
        Some(r) => r,
        None => match crate::text::strip_prefix_str(&v, "==") {
            Some(r) => r,
            None => {
                return None;
            },
        },
    };
    let token = version_token_chars(&crate::text::trim_start_chars(&rest, Sep::Whitespace));
    let version = match crate::text::strip_suffix_str(&token, ".*") {
        Some(v) => v,
        None => token,
    };
    let parts = crate::text::split_str(&version, '.');
    assert(exact_requirement(raw@) == (if numeric_version(version@) {
        Some(version@)
    } else {
        None
    }));
    if parts.len() != 2 && parts.len() != 3 {
        return None;
    }
    let mut i: usize = 0;
    while i < parts.len()
        invariant
            i <= parts.len(),
            views(parts@) == split(version@, Sep::Char('.')),
            exact_requirement(raw@) == (if numeric_version(version@) {
                Some(version@)
            } else {
                None
            }),
            forall|k: int|
                0 <= k < i ==> #[trigger] views(parts@)[k].len() > 0 && crate::text::all_digits(
                    views(parts@)[k],
                ),
        decreases parts.len() - i,
    {
        assert(views(parts@)[i as int] == parts@[i as int]@);
        if parts[i].len() == 0 || !crate::text::all_ascii_digits(&parts[i]) {
            proof {
                let ps = split(version@, Sep::Char('.'));
                assert(ps[i as int] == parts@[i as int]@);
                assert(!(ps[i as int].len() > 0 && crate::text::all_digits(ps[i as int])));
                assert(!numeric_version(version@));
            }
            return None;
        }
        i = i + 1;
    }
    Some(string_of(&version))
}

/// The exact Python version `pyproject.toml` pins, when it pins one.
pub open spec fn exact_python(text: Seq<char>) -> Option<Seq<char>> {
    match requires_python(text) {
        Some(raw) => exact_requirement(trim(raw, Sep::Whitespace)),
        None => None,
    }
}

pub fn exact_python_requirement(text: &str) -> (r: Option<String>)
    ensures
        match r {
            Some(s) => exact_python(text@) == Some(s@),
            None => exact_python(text@) is None,
        },
{
    let raw = python_requirement(text)?;
    let trimmed = crate::text::trim_ws(&chars_of(raw.as_str()));
    parse_exact_python_requirement(string_of(&trimmed).as_str())
}

// ---------------------------------------------------------------------
// Dependency names
// ---------------------------------------------------------------------

/// The lower-case form `char::to_lowercase` gives of a character.
pub uninterp spec fn unicode_lower(c: char) -> Seq<char>;

/// `char::to_lowercase`, collected. A function of the character; ASCII
/// characters map to their ASCII lower case.
#[verifier::external_body]
fn char_lowercase(c: char) -> (r: Vec<char>)
    ensures
        r@ == unicode_lower(c),
        c <= '\u{7f}' ==> r@ == seq![lower_char(c)],
{
    c.to_lowercase().collect()
}

/// The lower case of a character: its ASCII lower case for an ASCII
/// character, else what `char::to_lowercase` gives.
pub open spec fn char_lower(c: char) -> Seq<char> {
    if c <= '\u{7f}' {
        seq![lower_char(c)]
    } else {
        unicode_lower(c)
    }
}

/// The text with every character replaced by its lower case.
pub open spec fn lowercased(s: Seq<char>) -> Seq<char>
    decreases s.len(),
{
    if s.len() == 0 {
        Seq::empty()
    } else {
        lowercased(s.drop_last()) + char_lower(s.last())
    }
}

pub open spec fn is_separator(c: char) -> bool {
    c == '_' || c == '-' || c == '.'
}

/// Runs of `_`, `-` and `.` become one `-`; the flag says whether the text
/// so far ends in such a run.
pub open spec fn collapse_runs(s: Seq<char>) -> (Seq<char>, bool)
    decreases s.len(),
{
    if s.len() == 0 {
        (Seq::empty(), false)
    } else {
        let (prev, dash) = collapse_runs(s.drop_last());
        if is_separator(s.last()) {
            if dash {
                (prev, true)
            } else {
                (prev.push('-'), true)
            }
        } else {
            (prev.push(s.last()), false)
        }
    }
}

/// A package name in the form PEP 503 compares: lower case, separator
/// runs as one `-`, no leading or trailing `-`.
pub open spec fn normalized(name: Seq<char>) -> Seq<char> {
    trim(collapse_runs(lowercased(name)).0, Sep::Char('-'))
}

pub fn normalize_name(name: &str) -> (r: String)
    ensures
        r@ == normalized(name@),
{
    let v = chars_of(name);
    let mut lowered: Vec<char> = Vec::new();
    let mut i: usize = 0;
    while i < v.len()
        invariant
            i <= v.len(),
            v@ == name@,
            lowered@ == lowercased(v@.take(i as int)),
        decreases v.len() - i,
    {
        assert(v@.take(i + 1).drop_last() == v@.take(i as int));
        let low = char_lowercase(v[i]);
        append_chars(&mut lowered, &low);
        i = i + 1;
    }
    assert(v@.take(v.len() as int) == v@);
    let mut out: Vec<char> = Vec::new();
    let mut last_was_dash = false;
    let mut k: usize = 0;
    while k < lowered.len()
        invariant
            k <= lowered.len(),
            collapse_runs(lowered@.take(k as int)) == (out@, last_was_dash),
        decreases lowered.len() - k,
    {
        assert(lowered@.take(k + 1).drop_last() == lowered@.take(k as int));
        let c = lowered[k];
        if c == '_' || c == '-' || c == '.' {
            if !last_was_dash {
                out.push('-');
                last_was_dash = true;
            }
        } else {
            out.push(c);
            last_was_dash = false;
        }
        k = k + 1;
    }
    assert(lowered@.take(lowered.len() as int) == lowered@);
    string_of(&crate::text::trim_chars(&out, Sep::Char('-')))
}

/// The leading run of ASCII letters, digits, `_`, `-` and `.`.
pub open spec fn name_prefix(s: Seq<char>) -> Seq<char>
    decreases s.len(),
{
    if s.len() > 0 && (is_alnum(s[0]) || is_separator(s[0])) {
        seq![s[0]] + name_prefix(s.skip(1))
    } else {
        Seq::empty()
    }
}

/// The normalized package name a requirement string starts with.
pub open spec fn requirement_name(raw: Seq<char>) -> Option<Seq<char>> {
    let name = name_prefix(trim(raw, Sep::Whitespace));
    if name.len() == 0 {
        None
    } else {
        Some(normalized(name))
    }
}

pub fn dependency_name(raw: &str) -> (r: Option<String>)
    ensures
        match r {
            Some(s) => requirement_name(raw@) == Some(s@),
            None => requirement_name(raw@) is None,
        },
{
    let t = crate::text::trim_ws(&chars_of(raw));
    let mut i: usize = 0;
    assert(t@.skip(0) == t@);
    assert(t@.take(0) == Seq::<char>::empty());
    while i < t.len() && (crate::text::is_ascii_alnum(t[i]) || t[i] == '_' || t[i] == '-' || t[i]
        == '.')
        invariant
            i <= t.len(),
            name_prefix(t@) == t@.take(i as int) + name_prefix(t@.skip(i as int)),
        decreases t.len() - i,
    {
        assert(t@.skip(i as int).skip(1) == t@.skip(i + 1));
        assert(t@.take(i + 1) == t@.take(i as int) + seq![t@[i as int]]);
        i = i + 1;
    }
    if i == 0 {
        return None;
    }
    let name = crate::text::slice(&t, 0, i);
    assert(name@ == t@.take(i as int));
    Some(normalize_name(string_of(&name).as_str()))
}

/// The names of the requirement strings in an array.
pub open spec fn array_names(items: Seq<TomlValue>) -> Set<Seq<char>>
    decreases items.len(),
{
    if items.len() == 0 {
        Set::empty()
    } else {
        let prev = array_names(items.drop_last());
        match items.last() {
            TomlValue::Str(s) => match requirement_name(s@) {
                Some(n) => prev.insert(n),
                None => prev,
            },
            _ => prev,
        }
    }
}

/// The names of an array value, or none when it is not an array.
pub open spec fn names_of_array(v: Option<TomlValue>) -> Set<Seq<char>> {
    match v {
        Some(TomlValue::Array(items)) => array_names(items@),
        _ => Set::empty(),
    }
}

/// The names of every array among a table's values.
pub open spec fn table_array_names(entries: Seq<(String, TomlValue)>) -> Set<Seq<char>>
    decreases entries.len(),
{
    if entries.len() == 0 {
        Set::empty()
    } else {
        table_array_names(entries.drop_last()) + names_of_array(Some(entries.last().1))
    }
}

pub open spec fn names_of_table_arrays(v: Option<TomlValue>) -> Set<Seq<char>> {
    match v {
        Some(TomlValue::Table(entries)) => table_array_names(entries@),
        _ => Set::empty(),
    }
}

/// Poetry's dependency tables are keyed by name; `python` is the
/// interpreter, not a package.
pub open spec fn key_names(entries: Seq<(String, TomlValue)>) -> Set<Seq<char>>
    decreases entries.len(),
{
    if entries.len() == 0 {
        Set::empty()
    } else {
        let prev = key_names(entries.drop_last());
        if entries.last().0@ == "python"@ {
            prev
        } else {
            prev.insert(normalized(entries.last().0@))
        }
    }
}

pub open spec fn names_of_keys(v: Option<TomlValue>) -> Set<Seq<char>> {
    match v {
        Some(TomlValue::Table(entries)) => key_names(entries@),
        _ => Set::empty(),
    }
}

/// The dependency keys of every Poetry group.
pub open spec fn group_key_names(groups: Seq<(String, TomlValue)>) -> Set<Seq<char>>
    decreases groups.len(),
{
    if groups.len() == 0 {
        Set::empty()
    } else {
        group_key_names(groups.drop_last()) + names_of_keys(
            get(Some(groups.last().1), "dependencies"@),
        )
    }
}

pub open spec fn names_of_groups(v: Option<TomlValue>) -> Set<Seq<char>> {
    match v {
        Some(TomlValue::Table(groups)) => group_key_names(groups@),
        _ => Set::empty(),
    }
}

/// Every dependency `pyproject.toml` names: PEP 621 dependencies and
/// optional dependencies, PEP 735 dependency groups, and Poetry's
/// dependencies, dev-dependencies and groups.
pub open spec fn doc_dependency_set(doc: Option<TomlValue>) -> Set<Seq<char>> {
    let project = get(doc, "project"@);
    let poetry = get(get(doc, "tool"@), "poetry"@);
    names_of_array(get(project, "dependencies"@)) + names_of_table_arrays(
        get(project, "optional-dependencies"@),
    ) + names_of_table_arrays(get(doc, "dependency-groups"@)) + names_of_keys(
        get(poetry, "dependencies"@),
    ) + names_of_keys(get(poetry, "dev-dependencies"@)) + names_of_groups(get(poetry, "group"@))
}

/// The dependencies of `pyproject.toml`'s text.
pub open spec fn dependency_set(text: Seq<char>) -> Set<Seq<char>> {
    doc_dependency_set(toml_document(text))
}

/// Adds a name unless it is already there.
fn insert_name(names: &mut Vec<String>, name: String)
    requires
        strs(old(names)@).no_duplicates(),
    ensures
        strs(final(names)@).no_duplicates(),
        strs(final(names)@).to_set() == strs(old(names)@).to_set().insert(name@),
{
    let ghost before = strs(names@);
    let mut found = false;
    let mut k: usize = 0;
    while k < names.len()
        invariant
            k <= names.len(),
            before == strs(names@),
            found ==> before.contains(name@),
            !found ==> forall|j: int| 0 <= j < k ==> before[j] != name@,
        decreases names.len() - k,
    {
        if crate::text::str_eq(names[k].as_str(), name.as_str()) {
            assert(before[k as int] == name@);
            found = true;
        }
        k = k + 1;
    }
    if found {
        assert(before.to_set().contains(name@));
        assert(before.to_set().insert(name@) =~= before.to_set());
    } else {
        let ghost n = name@;
        names.push(name);
        proof {
            assert(strs(names@) =~= before.push(n));
            before.lemma_push_to_set_commute(n);
        }
    }
}

fn add_array_names(names: &mut Vec<String>, v: Option<&TomlValue>)
    requires
        strs(old(names)@).no_duplicates(),
    ensures
        strs(final(names)@).no_duplicates(),
        strs(final(names)@).to_set() == strs(old(names)@).to_set() + names_of_array(
            match v {
                Some(x) => Some(*x),
                None => None,
            },
        ),
{
    match v {
        Some(TomlValue::Array(items)) => {
            let ghost start = strs(names@).to_set();
            let mut i: usize = 0;
            while i < items.len()
                invariant
                    i <= items.len(),
                    strs(names@).no_duplicates(),
                    strs(names@).to_set() == start + array_names(items@.take(i as int)),
                decreases items.len() - i,
            {
                assert(items@.take(i + 1).drop_last() == items@.take(i as int));
                match &items[i] {
                    TomlValue::Str(raw) => match dependency_name(raw.as_str()) {
                        Some(n) => {
                            let ghost nv = n@;
                            insert_name(names, n);
                            assert(start + array_names(items@.take(i as int)).insert(nv) =~= (start
                                + array_names(items@.take(i as int))).insert(nv));
                        },
                        None => {},
                    },
                    _ => {},
                }
                i = i + 1;
            }
            assert(items@.take(items.len() as int) == items@);
        },
        _ => {
            assert(strs(names@).to_set() + Set::empty() =~= strs(names@).to_set());
        },
    }
}

fn add_table_array_names(names: &mut Vec<String>, v: Option<&TomlValue>)
    requires
        strs(old(names)@).no_duplicates(),
    ensures
        strs(final(names)@).no_duplicates(),
        strs(final(names)@).to_set() == strs(old(names)@).to_set() + names_of_table_arrays(
            match v {
                Some(x) => Some(*x),
                None => None,
            },
        ),
{
    match v {
        Some(TomlValue::Table(entries)) => {
            let ghost start = strs(names@).to_set();
            let mut i: usize = 0;
            assert(start + Set::empty() =~= start);
            while i < entries.len()
                invariant
                    i <= entries.len(),
                    strs(names@).no_duplicates(),
                    strs(names@).to_set() == start + table_array_names(entries@.take(i as int)),
                decreases entries.len() - i,
            {
                assert(entries@.take(i + 1).drop_last() == entries@.take(i as int));
                assert(entries@.take(i + 1).last() == entries@[i as int]);
                add_array_names(names, Some(&entries[i].1));
                assert(start + table_array_names(entries@.take(i as int)) + names_of_array(
                    Some(entries@[i as int].1),
                ) =~= start + table_array_names(entries@.take(i + 1)));
                i = i + 1;
            }
            assert(entries@.take(entries.len() as int) == entries@);
        },
        _ => {
            assert(strs(names@).to_set() + Set::empty() =~= strs(names@).to_set());
        },
    }
}

fn add_key_names(names: &mut Vec<String>, v: Option<&TomlValue>)
    requires
        strs(old(names)@).no_duplicates(),
    ensures
        strs(final(names)@).no_duplicates(),
        strs(final(names)@).to_set() == strs(old(names)@).to_set() + names_of_keys(
            match v {
                Some(x) => Some(*x),
                None => None,
            },
        ),
{
    match v {
        Some(TomlValue::Table(entries)) => {
            let ghost start = strs(names@).to_set();
            let mut i: usize = 0;
            assert(start + Set::empty() =~= start);
            while i < entries.len()
                invariant
                    i <= entries.len(),
                    strs(names@).no_duplicates(),
                    strs(names@).to_set() == start + key_names(entries@.take(i as int)),
                decreases entries.len() - i,
            {
                assert(entries@.take(i + 1).drop_last() == entries@.take(i as int));
                assert(entries@.take(i + 1).last() == entries@[i as int]);
                if !crate::text::str_eq(entries[i].0.as_str(), "python") {
                    let n = normalize_name(entries[i].0.as_str());
                    let ghost nv = n@;
                    insert_name(names, n);
                    assert(start + key_names(entries@.take(i as int)).insert(nv) =~= (start
                        + key_names(entries@.take(i as int))).insert(nv));
                }
                i = i + 1;
            }
            assert(entries@.take(entries.len() as int) == entries@);
        },
        _ => {
            assert(strs(names@).to_set() + Set::empty() =~= strs(names@).to_set());
        },
    }
}

fn add_group_names(names: &mut Vec<String>, v: Option<&TomlValue>)
    requires
        strs(old(names)@).no_duplicates(),
    ensures
        strs(final(names)@).no_duplicates(),
        strs(final(names)@).to_set() == strs(old(names)@).to_set() + names_of_groups(
            match v {
                Some(x) => Some(*x),
                None => None,
            },
        ),
{
    match v {
        Some(TomlValue::Table(groups)) => {
            let ghost start = strs(names@).to_set();
            let mut i: usize = 0;
            assert(start + Set::empty() =~= start);
            while i < groups.len()
                invariant
                    i <= groups.len(),
                    strs(names@).no_duplicates(),
                    strs(names@).to_set() == start + group_key_names(groups@.take(i as int)),
                decreases groups.len() - i,
            {
                assert(groups@.take(i + 1).drop_last() == groups@.take(i as int));
                assert(groups@.take(i + 1).last() == groups@[i as int]);
                add_key_names(names, entry(&groups[i].1, "dependencies"));
                assert(start + group_key_names(groups@.take(i as int)) + names_of_keys(
                    get(Some(groups@[i as int].1), "dependencies"@),
                ) =~= start + group_key_names(groups@.take(i + 1)));
                i = i + 1;
            }
            assert(groups@.take(groups.len() as int) == groups@);
        },
        _ => {
            assert(strs(names@).to_set() + Set::empty() =~= strs(names@).to_set());
        },
    }
}

/// The dependency names of a parsed `pyproject.toml`, each once.
pub fn document_dependency_names(doc: Option<&TomlValue>) -> (r: Vec<String>)
    ensures
        strs(r@).no_duplicates(),
        strs(r@).to_set() == doc_dependency_set(doc_of(doc)),
{
    let mut names: Vec<String> = Vec::new();
    assert(strs(names@).to_set() =~= Set::<Seq<char>>::empty());
    let project = get_in(doc, "project");
    add_array_names(&mut names, get_in(project, "dependencies"));
    add_table_array_names(&mut names, get_in(project, "optional-dependencies"));
    add_table_array_names(&mut names, get_in(doc, "dependency-groups"));
    let poetry = get_in(get_in(doc, "tool"), "poetry");
    add_key_names(&mut names, get_in(poetry, "dependencies"));
    add_key_names(&mut names, get_in(poetry, "dev-dependencies"));
    add_group_names(&mut names, get_in(poetry, "group"));
    proof {
        assert(strs(names@).to_set() =~= doc_dependency_set(doc_of(doc)));
    }
    names
}

/// The dependency names of `pyproject.toml`, each once.
pub fn dependency_names(text: &str) -> (r: Vec<String>)
    ensures
        strs(r@).no_duplicates(),
        strs(r@).to_set() == dependency_set(text@),
{
    let doc = parse_toml(text);
    document_dependency_names(doc.as_ref())
}

/// Whether any of the names, normalized, is among the dependencies.
pub open spec fn has_any(dependencies: Set<Seq<char>>, names: Seq<Seq<char>>) -> bool {
    exists|i: int| 0 <= i < names.len() && dependencies.contains(normalized(#[trigger] names[i]))
}

pub fn has_dependency_name(dependencies: &Vec<String>, names: &[&str]) -> (r: bool)
    ensures
        r == has_any(strs(dependencies@).to_set(), names@.map_values(|s: &str| s@)),
{
    let ghost deps = strs(dependencies@);
    let ghost ns = names@.map_values(|s: &str| s@);
    let mut i: usize = 0;
    while i < names.len()
        invariant
            i <= names.len(),
            deps == strs(dependencies@),
            ns == names@.map_values(|s: &str| s@),
            forall|j: int| 0 <= j < i ==> !deps.to_set().contains(normalized(#[trigger] ns[j])),
        decreases names.len() - i,
    {
        let n = normalize_name(names[i]);
        let mut k: usize = 0;
        while k < dependencies.len()
            invariant
                k <= dependencies.len(),
                deps == strs(dependencies@),
                n@ == normalized(ns[i as int]),
                ns == names@.map_values(|s: &str| s@),
                i < names.len(),
                forall|j: int| 0 <= j < k ==> deps[j] != n@,
            decreases dependencies.len() - k,
        {
            if crate::text::str_eq(dependencies[k].as_str(), n.as_str()) {
                assert(deps[k as int] == n@);
                assert(deps.to_set().contains(n@));
                return true;
            }
            k = k + 1;
        }
        assert(!deps.contains(n@));
        i = i + 1;
    }
    false
}

proof fn lemma_key_names_has(entries: Seq<(String, TomlValue)>, k: int)
    requires
        0 <= k < entries.len(),
        entries[k].0@ != "python"@,
    ensures
        key_names(entries).contains(normalized(entries[k].0@)),
    decreases entries.len(),
{
    let prev = key_names(entries.drop_last());
    if k < entries.len() - 1 {
        assert(entries.drop_last()[k] == entries[k]);
        lemma_key_names_has(entries.drop_last(), k);
        assert(key_names(entries) == prev || key_names(entries) == prev.insert(normalized(entries.last().0@)));
    }
}

proof fn lemma_group_key_names_has(groups: Seq<(String, TomlValue)>, g: int)
    requires
        0 <= g < groups.len(),
    ensures
        names_of_keys(get(Some(groups[g].1), "dependencies"@)).subset_of(group_key_names(groups)),
    decreases groups.len(),
{
    if g < groups.len() - 1 {
        assert(groups.drop_last()[g] == groups[g]);
        lemma_group_key_names_has(groups.drop_last(), g);
    }
}

/// Every dependency of every Poetry group (`[tool.poetry.group.<g>.dependencies]`)
/// other than `python` is among the dependencies of the `pyproject.toml`
/// text, normalized.
pub proof fn law_poetry_group_dependencies_counted(
    text: Seq<char>,
    groups: Vec<(String, TomlValue)>,
    g: int,
    deps: Vec<(String, TomlValue)>,
    k: int,
)
    requires
        get(get(get(toml_document(text), "tool"@), "poetry"@), "group"@) == Some(TomlValue::Table(groups)),
        0 <= g < groups@.len(),
        get(Some(groups@[g].1), "dependencies"@) == Some(TomlValue::Table(deps)),
        0 <= k < deps@.len(),
        deps@[k].0@ != "python"@,
    ensures
        dependency_set(text).contains(normalized(deps@[k].0@)),
{
    lemma_key_names_has(deps@, k);
    lemma_group_key_names_has(groups@, g);
    assert(names_of_groups(get(get(get(toml_document(text), "tool"@), "poetry"@), "group"@)).contains(
        normalized(deps@[k].0@),
    ));
}

proof fn lemma_array_names_has(items: Seq<TomlValue>, k: int, s: String)
    requires
        0 <= k < items.len(),
        items[k] == TomlValue::Str(s),
        requirement_name(s@) is Some,
    ensures
        array_names(items).contains(requirement_name(s@).unwrap()),
    decreases items.len(),
{
    if k < items.len() - 1 {
        assert(items.drop_last()[k] == items[k]);
        lemma_array_names_has(items.drop_last(), k, s);
    }
}

/// Every key of `[tool.poetry.dependencies]` and of
/// `[tool.poetry.dev-dependencies]` other than `python` is among the
/// dependencies of the `pyproject.toml` text, normalized.
pub proof fn law_poetry_dependencies_counted(text: Seq<char>, table: Seq<char>, deps: Vec<(String, TomlValue)>, k: int)
    requires
        table == "dependencies"@ || table == "dev-dependencies"@,
        get(get(get(toml_document(text), "tool"@), "poetry"@), table) == Some(TomlValue::Table(deps)),
        0 <= k < deps@.len(),
        deps@[k].0@ != "python"@,
    ensures
        dependency_set(text).contains(normalized(deps@[k].0@)),
{
    lemma_key_names_has(deps@, k);
}

/// The package named by every requirement string of `project.dependencies`
/// is among the dependencies of the `pyproject.toml` text.
pub proof fn law_project_dependencies_counted(text: Seq<char>, items: Vec<TomlValue>, k: int, s: String)
    requires
        get(get(toml_document(text), "project"@), "dependencies"@) == Some(TomlValue::Array(items)),
        0 <= k < items@.len(),
        items@[k] == TomlValue::Str(s),
        requirement_name(s@) is Some,
    ensures
        dependency_set(text).contains(requirement_name(s@).unwrap()),
{
    lemma_array_names_has(items@, k, s);
}

} // verus!

