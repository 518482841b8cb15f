//! Native build tools that a Python virtualenv should not carry: Nix
//! provides them.
use vstd::prelude::*;
use crate::check::output::{check_hint, check_warn, plain_hints, plain_line};
use crate::python::quoted;
use crate::text::{
    chars_of, is_prefix, join, lines, lines_str, starts_with_str, string_of, strs, trim, trim_ws,
    views, Sep,
};
use crate::ui::{renders_lines, Config, Rendered};

verus! {

/// `_` and `.` become `-`, letters lower case: how uv compares names.
pub open spec fn normalized_char(c: char) -> char {
    if c == '_' || c == '.' {
        '-'
    } else {
        crate::text::lower_char(c)
    }
}

pub open spec fn normalized_name(name: Seq<char>) -> Seq<char> {
    name.map_values(|c: char| normalized_char(c))
}

pub fn normalize_package_name(name: &str) -> (r: String)
    ensures
        r@ == normalized_name(name@),
{
    let v = chars_of(name);
    let mut out: Vec<char> = Vec::new();
    let mut i: usize = 0;
    while i < v.len()
        invariant
            i <= v.len(),
            v@ == name@,
            out@ == v@.take(i as int).map_values(|c: char| normalized_char(c)),
        decreases v.len() - i,
    {
        let c = v[i];
        let n = if c == '_' || c == '.' {
            '-'
        } else {
            crate::text::to_lower_char(c)
        };
        out.push(n);
        assert(v@.take(i + 1).map_values(|c: char| normalized_char(c)) =~= v@.take(
            i as int,
        ).map_values(|c: char| normalized_char(c)).push(normalized_char(v@[i as int])));
        i = i + 1;
    }
    assert(v@.take(v.len() as int) == v@);
    string_of(&out)
}

/// Reading `uv.lock` line by line: inside a `[[package]]` table, the first
/// `name` line names the package.
pub struct LockNames {
    pub in_package: bool,
    pub name_seen: bool,
    pub names: Set<Seq<char>>,
}

pub open spec fn lock_names_step(st: LockNames, raw: Seq<char>) -> LockNames {
    let line = trim(raw, Sep::Whitespace);
    if line == "[[package]]"@ {
        LockNames { in_package: true, name_seen: false, names: st.names }
    } else if is_prefix("["@, line) {
        LockNames { in_package: false, ..st }
    } else if st.in_package && !st.name_seen && is_prefix("name"@, line) && quoted(line) is Some {
        LockNames {
            name_seen: true,
            names: st.names.insert(normalized_name(quoted(line)->0)),
            ..st
        }
    } else {
        st
    }
}

pub open spec fn lock_names_scan(ls: Seq<Seq<char>>) -> LockNames
    decreases ls.len(),
{
    if ls.len() == 0 {
        LockNames { in_package: false, name_seen: false, names: Set::empty() }
    } else {
        lock_names_step(lock_names_scan(ls.drop_last()), ls.last())
    }
}

/// The names of the packages `uv.lock` pins, normalized.
pub open spec fn lock_package_names(text: Seq<char>) -> Set<Seq<char>> {
    lock_names_scan(lines(text)).names
}

/// The names of the packages in `uv.lock`, normalized, each once, in the
/// order they first appear.
pub fn uv_lock_package_names(text: &str) -> (r: Vec<String>)
    ensures
        strs(r@).to_set() == lock_package_names(text@),
        strs(r@).no_duplicates(),
{
    let ls = lines_str(text);
    let ghost lv = views(ls@);
    let mut names: Vec<String> = Vec::new();
    let mut in_package = false;
    let mut name_seen = false;
    let mut i: usize = 0;
    assert(strs(names@).to_set() =~= Set::<Seq<char>>::empty());
    assert(lv.take(0).len() == 0);
    while i < ls.len()
        invariant
            i <= ls.len(),
            lv == views(ls@),
            lv == lines(text@),
            lock_names_scan(lv.take(i as int)) == (LockNames {
                in_package,
                name_seen,
                names: strs(names@).to_set(),
            }),
            strs(names@).no_duplicates(),
        decreases ls.len() - i,
    {
        assert(lv.take(i + 1).drop_last() == lv.take(i as int));
        let line = trim_ws(&ls[i]);
        if crate::text::eq_str(&line, "[[package]]") {
            in_package = true;
            name_seen = false;
        } else if starts_with_str(&line, "[") {
            in_package = false;
        } else if in_package && !name_seen && starts_with_str(&line, "name") {
            match crate::python::quoted_value(string_of(&line).as_str()) {
                Some(name) => {
                    let normalized = normalize_package_name(name.as_str());
                    let ghost before = strs(names@);
                    let mut found = false;
                    let mut k: usize = 0;
                    while k < names.len()
                        invariant
                            k <= names.len(),
                            before == strs(names@),
                            !found ==> forall|j: int| 0 <= j < k ==> before[j] != normalized@,
                            found ==> before.contains(normalized@),
                        decreases names.len() - k,
                    {
                        if crate::text::str_eq(names[k].as_str(), normalized.as_str()) {
                            assert(before[k as int] == names@[k as int]@);
                            found = true;
                        }
                        k = k + 1;
                    }
                    if !found {
                        names.push(normalized);
                        proof {
                            assert(strs(names@) =~= before.push(normalized@));
                            assert(!before.contains(normalized@));
                            before.lemma_push_to_set_commute(normalized@);
                            assert(strs(names@).to_set() =~= before.to_set().insert(normalized@));
                        }
                    } else {
                        proof {
                            assert(before.to_set().contains(normalized@));
                            assert(before.to_set().insert(normalized@) =~= before.to_set());
                        }
                    }
                    name_seen = true;
                },
                None => {},
            }
        }
        i = i + 1;
    }
    assert(lv.take(ls.len() as int) == lv);
    names
}

/// The tool wheels that put native build tools into `.venv/bin`.
pub open spec fn native_tool_packages() -> Seq<Seq<char>> {
    seq!["cmake"@, "ninja"@, "patchelf"@]
}

/// The native tools whose wheel `uv.lock` pins and whose shim is in
/// `.venv/bin`, in the order cmake, ninja, patchelf.
pub open spec fn shims(names: Set<Seq<char>>, installed: (bool, bool, bool)) -> Seq<Seq<char>> {
    (if names.contains("cmake"@) && installed.0 {
        seq!["cmake"@]
    } else {
        Seq::empty()
    }) + (if names.contains("ninja"@) && installed.1 {
        seq!["ninja"@]
    } else {
        Seq::empty()
    }) + (if names.contains("patchelf"@) && installed.2 {
        seq!["patchelf"@]
    } else {
        Seq::empty()
    })
}

fn contains_name(names: &Vec<String>, name: &str) -> (r: bool)
    ensures
        r == strs(names@).contains(name@),
{
    let mut i: usize = 0;
    while i < names.len()
        invariant
            i <= names.len(),
            forall|j: int| 0 <= j < i ==> strs(names@)[j] != name@,
        decreases names.len() - i,
    {
        if crate::text::str_eq(names[i].as_str(), name) {
            assert(strs(names@)[i as int] == name@);
            return true;
        }
        i = i + 1;
    }
    false
}

/// Which native tool shims a virtualenv carries, from the package names
/// of `uv.lock` and whether `.venv/bin/cmake`, `ninja` and `patchelf`
/// exist.
pub fn native_tool_wheel_shims(lock_names: &Vec<String>, installed: (bool, bool, bool)) -> (r: Vec<
    String,
>)
    ensures
        strs(r@) == shims(strs(lock_names@).to_set(), installed),
{
    let mut out: Vec<String> = Vec::new();
    let cmake = contains_name(lock_names, "cmake");
    let ninja = contains_name(lock_names, "ninja");
    let patchelf = contains_name(lock_names, "patchelf");
    proof {
        let s = strs(lock_names@);
        assert(s.to_set().contains("cmake"@) == s.contains("cmake"@));
        assert(s.to_set().contains("ninja"@) == s.contains("ninja"@));
        assert(s.to_set().contains("patchelf"@) == s.contains("patchelf"@));
    }
    if cmake && installed.0 {
        out.push("cmake".to_owned());
    }
    let ghost a = strs(out@);
    if ninja && installed.1 {
        out.push("ninja".to_owned());
    }
    let ghost b = strs(out@);
    if patchelf && installed.2 {
        out.push("patchelf".to_owned());
    }
    proof {
        assert(strs(out@) =~= shims(strs(lock_names@).to_set(), installed));
    }
    out
}

/// The warning and hints about native tool shims, when there are any.
pub open spec fn shim_report(tools: Seq<Seq<char>>) -> Seq<Seq<char>> {
    if tools.len() == 0 {
        Seq::empty()
    } else {
        seq![
            plain_line(
                "warn:"@,
                "Python virtualenv contains native build tool shims: "@ + join(tools, ", "@),
            ),
        ] + plain_hints(
            "uv owns Python packages; Nix owns CMake, Ninja, compilers, and native build tools"@,
        ) + plain_hints(
            "project bootstrap scripts should call native build tools from the runtime, not .venv/bin shims"@,
        )
    }
}

pub fn check_native_tool_wheel_shims(config: Config, warnings: &mut usize, tools: &Vec<String>) -> (r:
    Vec<String>)
    requires
        *old(warnings) < usize::MAX,
    ensures
        *final(warnings) == *old(warnings) + if tools.len() == 0 {
            0nat
        } else {
            1nat
        },
        renders_lines(config, strs(r@), shim_report(strs(tools@))),
{
    let mut out = Rendered::new(config);
    if tools.len() == 0 {
        return out.lines;
    }
    let mut pieces: Vec<Vec<char>> = Vec::new();
    let mut i: usize = 0;
    while i < tools.len()
        invariant
            i <= tools.len(),
            views(pieces@) == strs(tools@).take(i as int),
        decreases tools.len() - i,
    {
        let piece = chars_of(tools[i].as_str());
        proof {
            crate::text::lemma_views_push(pieces@, piece);
        }
        pieces.push(piece);
        assert(strs(tools@).take(i + 1) == strs(tools@).take(i as int).push(tools@[i as int]@));
        i = i + 1;
    }
    assert(strs(tools@).take(tools.len() as int) == strs(tools@));
    let joined = crate::text::join_chars(&pieces, &chars_of(", "));
    let m = crate::text::concat("Python virtualenv contains native build tool shims: ", string_of(&joined).as_str());
    out.push(config, check_warn(config, warnings, m.as_str()), Ghost(plain_line("warn:"@, m@)));
    let h1 = "uv owns Python packages; Nix owns CMake, Ninja, compilers, and native build tools";
    out.append(config, check_hint(config, h1), Ghost(plain_hints(h1@)));
    let h2 = "project bootstrap scripts should call native build tools from the runtime, not .venv/bin shims";
    out.append(config, check_hint(config, h2), Ghost(plain_hints(h2@)));
    proof {
        reveal_strlit(", ");
        assert(out.plain@ =~= shim_report(strs(tools@)));
    }
    out.lines
}

} // verus!
