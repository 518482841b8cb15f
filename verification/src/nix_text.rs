//! Reading `robo.nix` as text, line by line: the quoted value of an
//! attribute, a list of strings, a list of attribute sets, and the scripts
//! a bootstrap block sources. This is how `robo doctor` and `robo contract`
//! read the runtime when they do not evaluate it with Nix.
use vstd::prelude::*;
use crate::python::{index_of, quoted};
use crate::text::{
    chars_of, contains, find, is_prefix, lines, opt_str, split_once, string_of, strip_prefix, strs, trim,
    trim_end, views, Sep,
};

verus! {

/// A quoted list item: the line trimmed, trailing `;` then `,` dropped,
/// starting with a quote, up to the next such quote.
pub open spec fn quoted_item_spec(text: Seq<char>) -> Option<Seq<char>> {
    let value = trim_end(trim_end(trim(text, Sep::Whitespace), Sep::Char(';')), Sep::Char(','));
    if value.len() == 0 {
        None
    } else {
        let quote = value[0];
        if quote != '"' && quote != '\'' {
            None
        } else {
            let body = value.skip(1);
            match index_of(body, quote) {
                Some(end) => Some(body.take(end)),
                None => None,
            }
        }
    }
}

pub fn quoted_item(text: &str) -> (r: Option<String>)
    ensures
        opt_str(r) == quoted_item_spec(text@),
{
    let t = crate::text::trim_ws(&chars_of(text));
    let t = crate::text::trim_end_chars(&t, Sep::Char(';'));
    let value = crate::text::trim_end_chars(&t, Sep::Char(','));
    if value.len() == 0 {
        return None;
    }
    let quote = value[0];
    if quote != '"' && quote != '\'' {
        return None;
    }
    let body = crate::text::slice(&value, 1, value.len());
    assert(body@ == value@.skip(1));
    let q = vec![quote];
    assert(q@ == seq![quote]);
    match crate::text::find_chars(&body, &q) {
        Some(end) => {
            proof {
                crate::text::lemma_find_from(body@, q@, 0);
            }
            Some(string_of(&crate::text::slice(&body, 0, end)))
        },
        None => None,
    }
}

/// The first line (trimmed) that starts with `name`, and what follows it.
pub open spec fn first_prefixed(ls: Seq<Seq<char>>, name: Seq<char>) -> Option<Seq<char>>
    decreases ls.len(),
{
    if ls.len() == 0 {
        None
    } else {
        match strip_prefix(trim(ls[0], Sep::Whitespace), name) {
            Some(rest) => Some(rest),
            None => first_prefixed(ls.skip(1), name),
        }
    }
}

fn first_prefixed_of(text: &str, name: &str) -> (r: Option<Vec<char>>)
    ensures
        crate::init::probe::opt_chars(r) == first_prefixed(lines(text@), name@),
{
    let ls = crate::text::lines_str(text);
    let ghost lv = views(ls@);
    let mut i: usize = 0;
    assert(lv.skip(0) =~= lv);
    while i < ls.len()
        invariant
            i <= ls.len(),
            lv == views(ls@),
            lv == lines(text@),
            first_prefixed(lv, name@) == first_prefixed(lv.skip(i as int), name@),
        decreases ls.len() - i,
    {
        assert(lv.skip(i as int)[0] == ls@[i as int]@);
        assert(lv.skip(i as int).skip(1) =~= lv.skip(i + 1));
        let t = crate::text::trim_ws(&ls[i]);
        match crate::text::strip_prefix_str(&t, name) {
            Some(rest) => {
                return Some(rest);
            },
            None => {},
        }
        i = i + 1;
    }
    None
}

/// The quoted value of the first line that starts with `name`.
pub open spec fn attr_value(text: Seq<char>, name: Seq<char>) -> Option<Seq<char>> {
    match first_prefixed(lines(text), name) {
        Some(rest) => quoted(rest),
        None => None,
    }
}

pub fn nix_attr_value(text: &str, name: &str) -> (r: Option<String>)
    ensures
        opt_str(r) == attr_value(text@, name@),
{
    match first_prefixed_of(text, name) {
        Some(rest) => crate::python::quoted_value(string_of(&rest).as_str()),
        None => None,
    }
}

/// The unquoted value of the first line that starts with `name`: after its
/// first `=`, trimmed, trailing `;` dropped, trimmed again.
pub open spec fn unquoted_attr_value(text: Seq<char>, name: Seq<char>) -> Option<Seq<char>> {
    match first_prefixed(lines(text), name) {
        Some(rest) => match split_once(rest, "="@) {
            Some(parts) => Some(trim(trim_end(trim(parts.1, Sep::Whitespace), Sep::Char(';')), Sep::Whitespace)),
            None => None,
        },
        None => None,
    }
}

pub fn nix_unquoted_attr_value(text: &str, name: &str) -> (r: Option<String>)
    ensures
        opt_str(r) == unquoted_attr_value(text@, name@),
{
    match first_prefixed_of(text, name) {
        Some(rest) => match crate::text::split_once_str(&rest, "=") {
            Some((_, value)) => {
                let v = crate::text::trim_ws(&value);
                let v = crate::text::trim_end_chars(&v, Sep::Char(';'));
                Some(string_of(&crate::text::trim_ws(&v)))
            },
            None => None,
        },
        None => None,
    }
}

/// The line opens the list `name`: it starts with the name and holds `[`.
pub open spec fn opens_list(line: Seq<char>, name: Seq<char>) -> bool {
    is_prefix(name, line) && contains(line, "["@)
}

/// The quoted items of the list `name`: the lines after the first line
/// that opens it, up to a line starting with `]`.
pub open spec fn list_scan(ls: Seq<Seq<char>>, name: Seq<char>, in_list: bool) -> Seq<Seq<char>>
    decreases ls.len(),
{
    if ls.len() == 0 {
        Seq::empty()
    } else {
        let l = trim(ls[0], Sep::Whitespace);
        if !in_list {
            list_scan(ls.skip(1), name, opens_list(l, name))
        } else if is_prefix("]"@, l) {
            Seq::empty()
        } else {
            match quoted_item_spec(l) {
                Some(v) => seq![v] + list_scan(ls.skip(1), name, true),
                None => list_scan(ls.skip(1), name, true),
            }
        }
    }
}

pub fn nix_list_values(text: &str, name: &str) -> (r: Vec<String>)
    ensures
        strs(r@) == list_scan(lines(text@), name@, false),
{
    let ls = crate::text::lines_str(text);
    let ghost lv = views(ls@);
    let mut out: Vec<String> = Vec::new();
    let mut in_list = false;
    let mut i: usize = 0;
    assert(lv.skip(0) =~= lv);
    assert(strs(out@) + list_scan(lv.skip(0), name@, false) =~= list_scan(lv, name@, false));
    while i < ls.len()
        invariant_except_break
            strs(out@) + list_scan(lv.skip(i as int), name@, in_list) == list_scan(lv, name@, false),
        invariant
            i <= ls.len(),
            lv == views(ls@),
            lv == lines(text@),
        ensures
            strs(out@) == list_scan(lv, name@, false),
        decreases ls.len() - i,
    {
        assert(lv.skip(i as int)[0] == ls@[i as int]@);
        assert(lv.skip(i as int).skip(1) =~= lv.skip(i + 1));
        let line = crate::text::trim_ws(&ls[i]);
        if !in_list {
            in_list = crate::text::starts_with_str(&line, name) && crate::text::contains_str(&line, "[");
            i = i + 1;
            continue;
        }
        if crate::text::starts_with_str(&line, "]") {
            assert(strs(out@) + Seq::<Seq<char>>::empty() =~= strs(out@));
            break;
        }
        let ghost before = strs(out@);
        match quoted_item(string_of(&line).as_str()) {
            Some(v) => {
                let ghost prev = out@;
                out.push(v);
                proof {
                    crate::text::lemma_strs_push(prev, out@.last());
                    assert(before.push(out@.last()@) + list_scan(lv.skip(i + 1), name@, true) =~= before + (seq![out@.last()@] + list_scan(lv.skip(i + 1), name@, true)));
                }
            },
            None => {},
        }
        i = i + 1;
    }
    proof {
        if i == ls.len() {
            assert(lv.skip(ls.len() as int).len() == 0);
        }
    }
    out
}

/// The quoted values of every line that starts with `name`.
pub open spec fn attr_values(ls: Seq<Seq<char>>, name: Seq<char>) -> Seq<Seq<char>>
    decreases ls.len(),
{
    if ls.len() == 0 {
        Seq::empty()
    } else {
        let prev = attr_values(ls.drop_last(), name);
        match strip_prefix(trim(ls.last(), Sep::Whitespace), name) {
            Some(rest) => match quoted(rest) {
                Some(v) => prev.push(v),
                None => prev,
            },
            None => prev,
        }
    }
}

pub fn nix_attr_values(text: &str, name: &str) -> (r: Vec<String>)
    ensures
        strs(r@) == attr_values(lines(text@), name@),
{
    let ls = crate::text::lines_str(text);
    let ghost lv = views(ls@);
    let mut out: Vec<String> = Vec::new();
    let mut i: usize = 0;
    while i < ls.len()
        invariant
            i <= ls.len(),
            lv == views(ls@),
            lv == lines(text@),
            strs(out@) == attr_values(lv.take(i as int), name@),
        decreases ls.len() - i,
    {
        assert(lv.take(i + 1).drop_last() == lv.take(i as int));
        assert(lv.take(i + 1).last() == ls@[i as int]@);
        let t = crate::text::trim_ws(&ls[i]);
        match crate::text::strip_prefix_str(&t, name) {
            Some(rest) => match crate::python::quoted_value(string_of(&rest).as_str()) {
                Some(v) => {
                    let ghost prev = out@;
                    out.push(v);
                    proof {
                        crate::text::lemma_strs_push(prev, out@.last());
                    }
                },
                None => {},
            },
            None => {},
        }
        i = i + 1;
    }
    assert(lv.take(ls.len() as int) == lv);
    out
}

/// The script a bootstrap line sources: what follows `$WORKSPACE_ROOT/`
/// up to a double quote.
pub open spec fn sourced_script(line: Seq<char>) -> Option<Seq<char>> {
    match find(line, "$WORKSPACE_ROOT/"@) {
        Some(start) => {
            let value = line.skip(start + 16);
            match index_of(value, '"') {
                Some(end) => Some(value.take(end)),
                None => Some(value),
            }
        },
        None => None,
    }
}

/// The scripts the bootstrap block sources, each once, in order.
pub open spec fn source_scripts(ls: Seq<Seq<char>>) -> Seq<Seq<char>>
    decreases ls.len(),
{
    if ls.len() == 0 {
        Seq::empty()
    } else {
        let prev = source_scripts(ls.drop_last());
        match sourced_script(trim(ls.last(), Sep::Whitespace)) {
            Some(s) => if s.len() > 0 {
                crate::init::spec::push_new(prev, s)
            } else {
                prev
            },
            None => prev,
        }
    }
}

pub fn nix_source_scripts(text: &str) -> (r: Vec<String>)
    ensures
        strs(r@) == source_scripts(lines(text@)),
{
    proof {
        reveal_strlit("$WORKSPACE_ROOT/");
    }
    let ls = crate::text::lines_str(text);
    let ghost lv = views(ls@);
    let mut out: Vec<String> = Vec::new();
    let mut i: usize = 0;
    while i < ls.len()
        invariant
            i <= ls.len(),
            lv == views(ls@),
            lv == lines(text@),
            "$WORKSPACE_ROOT/"@.len() == 16,
            strs(out@) == source_scripts(lv.take(i as int)),
        decreases ls.len() - i,
    {
        assert(lv.take(i + 1).drop_last() == lv.take(i as int));
        assert(lv.take(i + 1).last() == ls@[i as int]@);
        let line = crate::text::trim_ws(&ls[i]);
        match crate::text::find_str(&line, "$WORKSPACE_ROOT/") {
            Some(start) => {
                proof {
                    reveal_strlit("$WORKSPACE_ROOT/");
                    crate::text::lemma_find_from(line@, "$WORKSPACE_ROOT/"@, 0);
                    assert(crate::text::occurs_at(line@, "$WORKSPACE_ROOT/"@, start as int));
                }
                assert(start + 16 <= line.len());
                let value = crate::text::slice(&line, start + 16, line.len());
                assert(value@ == line@.skip(start + 16));
                let q = vec!['"'];
                assert(q@ == seq!['"']);
                let script = match crate::text::find_chars(&value, &q) {
                    Some(end) => {
                        proof {
                            crate::text::lemma_find_from(value@, q@, 0);
                        }
                        crate::text::slice(&value, 0, end)
                    },
                    None => {
                        assert(value@.take(value@.len() as int) == value@);
                        crate::text::clone_chars(&value)
                    },
                };
                if script.len() > 0 {
                    crate::init::spec::push_unique(&mut out, string_of(&script).as_str());
                }
            },
            None => {},
        }
        i = i + 1;
    }
    assert(lv.take(ls.len() as int) == lv);
    out
}

pub type Pairs = Seq<(Seq<char>, Seq<char>)>;

/// The key of a `key = value` line, trimmed.
pub open spec fn key_of(l: Seq<char>) -> Seq<char> {
    match split_once(l, "="@) {
        Some(parts) => trim(parts.0, Sep::Whitespace),
        None => Seq::empty(),
    }
}

/// The attribute sets of the list `name`, each as its `key = "value"`
/// lines in order: after the line that opens the list, a line starting
/// with `{` starts a set, one starting with `}` ends it, one starting with
/// `]` ends the list.
pub open spec fn set_scan(ls: Seq<Seq<char>>, name: Seq<char>, in_list: bool, in_item: bool, current: Pairs) -> Seq<Pairs>
    decreases ls.len(),
{
    if ls.len() == 0 {
        Seq::empty()
    } else {
        let l = trim(ls[0], Sep::Whitespace);
        let rest = ls.skip(1);
        if !in_list {
            set_scan(rest, name, opens_list(l, name), in_item, current)
        } else if is_prefix("]"@, l) {
            Seq::empty()
        } else if is_prefix("{"@, l) {
            set_scan(rest, name, true, true, Seq::empty())
        } else if is_prefix("}"@, l) {
            seq![current] + set_scan(rest, name, true, false, current)
        } else if in_item && split_once(l, "="@) is Some && quoted(l) is Some {
            set_scan(rest, name, true, true, current.push((key_of(l), quoted(l)->0)))
        } else {
            set_scan(rest, name, true, in_item, current)
        }
    }
}

pub open spec fn pair_views(v: Seq<(String, String)>) -> Pairs {
    v.map_values(|p: (String, String)| (p.0@, p.1@))
}

pub open spec fn set_views(v: Seq<Vec<(String, String)>>) -> Seq<Pairs> {
    v.map_values(|x: Vec<(String, String)>| pair_views(x@))
}

fn clone_pairs(v: &Vec<(String, String)>) -> (r: Vec<(String, String)>)
    ensures
        pair_views(r@) == pair_views(v@),
{
    let mut out: Vec<(String, String)> = Vec::new();
    let mut i: usize = 0;
    while i < v.len()
        invariant
            i <= v.len(),
            pair_views(out@) == pair_views(v@).take(i as int),
        decreases v.len() - i,
    {
        let ghost prev = out@;
        out.push((v[i].0.clone(), v[i].1.clone()));
        assert(pair_views(out@) =~= pair_views(prev).push(pair_views(v@)[i as int]));
        assert(pair_views(v@).take(i + 1) =~= pair_views(v@).take(i as int).push(pair_views(v@)[i as int]));
        i = i + 1;
    }
    assert(pair_views(v@).take(v.len() as int) == pair_views(v@));
    out
}

pub fn nix_attr_set_values(text: &str, name: &str) -> (r: Vec<Vec<(String, String)>>)
    ensures
        set_views(r@) == set_scan(lines(text@), name@, false, false, Seq::empty()),
{
    let ls = crate::text::lines_str(text);
    let ghost lv = views(ls@);
    let mut values: Vec<Vec<(String, String)>> = Vec::new();
    let mut current: Vec<(String, String)> = Vec::new();
    let mut in_list = false;
    let mut in_item = false;
    let mut i: usize = 0;
    assert(lv.skip(0) =~= lv);
    assert(set_views(values@) + set_scan(lv, name@, false, false, Seq::empty()) =~= set_scan(lv, name@, false, false, Seq::empty()));
    assert(pair_views(current@) =~= Seq::<(Seq<char>, Seq<char>)>::empty());
    while i < ls.len()
        invariant_except_break
            set_views(values@) + set_scan(lv.skip(i as int), name@, in_list, in_item, pair_views(current@))
                == set_scan(lv, name@, false, false, Seq::empty()),
        invariant
            i <= ls.len(),
            lv == views(ls@),
            lv == lines(text@),
        ensures
            set_views(values@) == set_scan(lv, name@, false, false, Seq::empty()),
        decreases ls.len() - i,
    {
        assert(lv.skip(i as int)[0] == ls@[i as int]@);
        assert(lv.skip(i as int).skip(1) =~= lv.skip(i + 1));
        let line = crate::text::trim_ws(&ls[i]);
        if !in_list {
            in_list = crate::text::starts_with_str(&line, name) && crate::text::contains_str(&line, "[");
            i = i + 1;
            continue;
        }
        if crate::text::starts_with_str(&line, "]") {
            assert(set_views(values@) + Seq::<Pairs>::empty() =~= set_views(values@));
            break;
        }
        if crate::text::starts_with_str(&line, "{") {
            in_item = true;
            current = Vec::new();
            assert(pair_views(current@) =~= Seq::<(Seq<char>, Seq<char>)>::empty());
            i = i + 1;
            continue;
        }
        if crate::text::starts_with_str(&line, "}") {
            in_item = false;
            let item = clone_pairs(&current);
            let ghost before = set_views(values@);
            values.push(item);
            assert(set_views(values@) =~= before.push(pair_views(current@)));
            assert(before.push(pair_views(current@)) + set_scan(lv.skip(i + 1), name@, true, false, pair_views(current@))
                =~= before + (seq![pair_views(current@)] + set_scan(lv.skip(i + 1), name@, true, false, pair_views(current@))));
            i = i + 1;
            continue;
        }
        if in_item {
            match crate::text::split_once_str(&line, "=") {
                Some((key, _)) => {
                    match crate::python::quoted_value(string_of(&line).as_str()) {
                        Some(value) => {
                            let ghost prev = current@;
                            current.push((string_of(&crate::text::trim_ws(&key)), value));
                            assert(pair_views(current@) =~= pair_views(prev).push((key_of(line@), quoted(line@)->0)));
                        },
                        None => {},
                    }
                },
                None => {},
            }
        }
        i = i + 1;
    }
    proof {
        if i == ls.len() {
            assert(lv.skip(ls.len() as int).len() == 0);
        }
    }
    values
}

/// The value the last `key` line of a set gave.
pub open spec fn set_get(item: Pairs, key: Seq<char>) -> Option<Seq<char>>
    decreases item.len(),
{
    if item.len() == 0 {
        None
    } else if item.last().0 == key {
        Some(item.last().1)
    } else {
        set_get(item.drop_last(), key)
    }
}

fn get_value(item: &Vec<(String, String)>, key: &str) -> (r: Option<String>)
    ensures
        opt_str(r) == set_get(pair_views(item@), key@),
{
    let ghost iv = pair_views(item@);
    let mut i = item.len();
    assert(iv.take(i as int) == iv);
    while i > 0
        invariant
            i <= item.len(),
            iv == pair_views(item@),
            set_get(iv, key@) == set_get(iv.take(i as int), key@),
        decreases i,
    {
        let k = i - 1;
        assert(iv.take(i as int).drop_last() == iv.take(k as int));
        assert(iv.take(i as int).last() == (item@[k as int].0@, item@[k as int].1@));
        if crate::text::str_eq(item[k].0.as_str(), key) {
            return Some(item[k].1.clone());
        }
        i = k;
    }
    None
}

/// The component reasons `robo.nix` records: each set with a `name`, its
/// source defaulting to `inference` and its reason to a note on where it
/// is listed.
pub open spec fn reasons_of(sets: Seq<Pairs>) -> Seq<(Seq<char>, Seq<char>, Seq<char>)>
    decreases sets.len(),
{
    if sets.len() == 0 {
        Seq::empty()
    } else {
        let prev = reasons_of(sets.drop_last());
        let item = sets.last();
        match set_get(item, "name"@) {
            Some(n) => prev.push((
                n,
                match set_get(item, "source"@) {
                    Some(s) => s,
                    None => "inference"@,
                },
                match set_get(item, "reason"@) {
                    Some(r) => r,
                    None => "listed in provenance.componentReasons"@,
                },
            )),
            None => prev,
        }
    }
}

pub fn component_reasons(text: &str) -> (r: Vec<crate::why::ComponentReason>)
    ensures
        crate::why::reason_views(r@) == reasons_of(set_scan(lines(text@), "componentReasons"@, false, false, Seq::empty())),
{
    let sets = nix_attr_set_values(text, "componentReasons");
    let ghost sv = set_views(sets@);
    let mut out: Vec<crate::why::ComponentReason> = Vec::new();
    let mut i: usize = 0;
    while i < sets.len()
        invariant
            i <= sets.len(),
            sv == set_views(sets@),
            crate::why::reason_views(out@) == reasons_of(sv.take(i as int)),
        decreases sets.len() - i,
    {
        assert(sv.take(i + 1).drop_last() == sv.take(i as int));
        assert(sv.take(i + 1).last() == pair_views(sets@[i as int]@));
        match get_value(&sets[i], "name") {
            Some(n) => {
                let source = match get_value(&sets[i], "source") {
                    Some(s) => s,
                    None => "inference".to_string(),
                };
                let reason = match get_value(&sets[i], "reason") {
                    Some(r) => r,
                    None => "listed in provenance.componentReasons".to_string(),
                };
                let ghost prev = out@;
                out.push(crate::why::ComponentReason { name: n, source, reason });
                assert(crate::why::reason_views(out@) =~= crate::why::reason_views(prev).push(crate::why::reason_views(out@).last()));
            },
            None => {},
        }
        i = i + 1;
    }
    assert(sv.take(sets.len() as int) == sv);
    out
}

/// What the runtime declares, read from `robo.nix`'s text.
pub struct TextRuntime {
    pub schema_version: Option<String>,
    pub env_name: String,
    pub python_version: String,
    pub components: Vec<String>,
    /// The suggested paths.
    pub suggestions: Vec<String>,
}

pub fn read_project_runtime(robo_nix: &str) -> (r: TextRuntime)
    ensures
        opt_str(r.schema_version) == unquoted_attr_value(robo_nix@, "schemaVersion"@),
        r.env_name@ == match attr_value(robo_nix@, "envName"@) {
            Some(n) => n,
            None => "project"@,
        },
        r.python_version@ == match attr_value(robo_nix@, "pythonVersion"@) {
            Some(v) => v,
            None => "unknown"@,
        },
        strs(r.components@) == list_scan(lines(robo_nix@), "components"@, false),
        strs(r.suggestions@) == attr_values(lines(robo_nix@), "path"@),
{
    TextRuntime {
        schema_version: nix_unquoted_attr_value(robo_nix, "schemaVersion"),
        env_name: match nix_attr_value(robo_nix, "envName") {
            Some(n) => n,
            None => "project".to_string(),
        },
        python_version: match nix_attr_value(robo_nix, "pythonVersion") {
            Some(v) => v,
            None => "unknown".to_string(),
        },
        components: nix_list_values(robo_nix, "components"),
        suggestions: nix_attr_values(robo_nix, "path"),
    }
}

} // verus!
