//! CUDA version strings: reading them out of tool output, lock files and
//! paths, and comparing them.
use vstd::prelude::*;

use crate::text::{
    all_ascii_digits, all_digits, chars_of, clone_chars, contains, contains_str, decimal,
    decimal_chars, file_name, file_name_str, find, find_str, is_prefix, keep_non_empty, lines,
    lines_of, non_empty, parse_u32, parse_u32_chars, rsplit_once, rsplit_once_str, split,
    split_chars, split_once, split_once_str, split_str, starts_with_str, occurs_at, string_of,
    strip_prefix, strip_prefix_str, trim, trim_chars, trim_ws, views, Sep, slice, lemma_find_from,
};

verus! {

pub type Text = Seq<char>;

/// The pieces of a version string: split at `.`, space, `_` and `-`, empty
/// pieces dropped, and each piece trimmed of anything but digits and dots.
pub open spec fn version_parts(text: Text) -> Seq<Text> {
    non_empty(split(text, Sep::VersionSep)).map_values(|p: Text| trim(p, Sep::NotDigitOrDot))
}

/// The first two parts of a version string, each read as a `u32`.
pub open spec fn major_minor(text: Text) -> Option<(u32, u32)> {
    let parts = version_parts(text);
    if parts.len() < 1 {
        None
    } else {
        match parse_u32(parts[0]) {
            None => None,
            Some(major) => if parts.len() < 2 {
                None
            } else {
                match parse_u32(parts[1]) {
                    None => None,
                    Some(minor) => Some((major, minor)),
                }
            },
        }
    }
}

/// `major.minor`.
pub open spec fn version_text(v: (u32, u32)) -> Text {
    decimal(v.0 as nat) + "."@ + decimal(v.1 as nat)
}

pub open spec fn major_minor_text(text: Text) -> Option<Text> {
    match major_minor(text) {
        Some(v) => Some(version_text(v)),
        None => None,
    }
}

pub fn parse_major_minor(text: &Vec<char>) -> (r: Option<(u32, u32)>)
    ensures
        r == major_minor(text@),
{
    let pieces = keep_non_empty(split_chars(text, Sep::VersionSep));
    let ghost pv = views(pieces@);
    if pieces.len() < 1 {
        return None;
    }
    let first = trim_chars(&pieces[0], Sep::NotDigitOrDot);
    let major = match parse_u32_chars(&first) {
        Some(v) => v,
        None => return None,
    };
    if pieces.len() < 2 {
        return None;
    }
    let second = trim_chars(&pieces[1], Sep::NotDigitOrDot);
    match parse_u32_chars(&second) {
        Some(minor) => Some((major, minor)),
        None => None,
    }
}

pub fn version_string(v: (u32, u32)) -> (r: String)
    ensures
        r@ == version_text(v),
{
    let mut out = decimal_chars(v.0 as u64);
    out.push('.');
    let minor = decimal_chars(v.1 as u64);
    crate::text::append_chars(&mut out, &minor);
    assert(out@ =~= decimal(v.0 as nat) + seq!['.'] + decimal(v.1 as nat));
    proof {
        reveal_strlit(".");
    }
    assert(seq!['.'] =~= "."@);
    string_of(&out)
}

pub fn cuda_major_minor_version(text: &Vec<char>) -> (r: Option<String>)
    ensures
        r matches Some(s) ==> major_minor_text(text@) == Some(s@),
        r is None ==> major_minor_text(text@) is None,
{
    match parse_major_minor(text) {
        Some(v) => Some(version_string(v)),
        None => None,
    }
}

/// Whether `actual` is an older CUDA version than `expected`; `None` when
/// either does not read as `major.minor`.
pub open spec fn less_than_spec(actual: Text, expected: Text) -> Option<bool> {
    match (major_minor(actual), major_minor(expected)) {
        (Some(a), Some(e)) => Some(a.0 < e.0 || (a.0 == e.0 && a.1 < e.1)),
        _ => None,
    }
}

pub fn cuda_version_less_than(actual: &str, expected: &str) -> (r: Option<bool>)
    ensures
        r == less_than_spec(actual@, expected@),
{
    let a = match parse_major_minor(&chars_of(actual)) {
        Some(v) => v,
        None => return None,
    };
    let e = match parse_major_minor(&chars_of(expected)) {
        Some(v) => v,
        None => return None,
    };
    Some(a.0 < e.0 || (a.0 == e.0 && a.1 < e.1))
}

/// The CUDA driver API encodes `major * 1000 + minor * 10`.
pub open spec fn driver_api_spec(version: i32) -> Option<Text> {
    if version > 0 {
        Some(decimal((version / 1000) as nat) + "."@ + decimal(((version % 1000) / 10) as nat))
    } else {
        None
    }
}

pub fn cuda_driver_api_version(version: i32) -> (r: Option<String>)
    ensures
        r matches Some(s) ==> driver_api_spec(version) == Some(s@),
        r is None ==> driver_api_spec(version) is None,
{
    if version <= 0 {
        return None;
    }
    let major = (version / 1000) as u64;
    let minor = ((version % 1000) / 10) as u64;
    let mut out = decimal_chars(major);
    out.push('.');
    let m = decimal_chars(minor);
    crate::text::append_chars(&mut out, &m);
    proof {
        reveal_strlit(".");
    }
    assert(out@ =~= decimal((version / 1000) as nat) + "."@ + decimal(
        ((version % 1000) / 10) as nat,
    ));
    Some(string_of(&out))
}

/// The first of the pieces, from index `i` on, that reads as a version.
pub open spec fn first_version_from(pieces: Seq<Text>, i: int) -> Option<Text>
    decreases pieces.len() - i,
{
    if i < 0 || i >= pieces.len() {
        None
    } else {
        match major_minor_text(pieces[i]) {
            Some(v) => Some(v),
            None => first_version_from(pieces, i + 1),
        }
    }
}

/// The version in a CUDA toolkit path: the first `-`-separated piece of its
/// file name that reads as `major.minor`.
pub open spec fn version_from_path_spec(root: Text) -> Option<Text> {
    match file_name(root) {
        Some(name) => first_version_from(split(name, Sep::Char('-')), 0),
        None => None,
    }
}

pub fn parse_cuda_version_from_path(root: &str) -> (r: Option<String>)
    ensures
        r matches Some(s) ==> version_from_path_spec(root@) == Some(s@),
        r is None ==> version_from_path_spec(root@) is None,
{
    let name = match file_name_str(root) {
        Some(n) => n,
        None => return None,
    };
    let pieces = split_str(&name, '-');
    let ghost pv = views(pieces@);
    let mut i: usize = 0;
    while i < pieces.len()
        invariant
            i <= pieces.len(),
            pv == views(pieces@),
            pv == split(name@, Sep::Char('-')),
            file_name(root@) == Some(name@),
            first_version_from(pv, 0) == first_version_from(pv, i as int),
        decreases pieces.len() - i,
    {
        match cuda_major_minor_version(&pieces[i]) {
            Some(v) => return Some(v),
            None => {},
        }
        i = i + 1;
    }
    None
}

/// The version after the first `release ` on the first line that has one
/// that reads as a version.
pub open spec fn release_from(ls: Seq<Text>, i: int) -> Option<Text>
    decreases ls.len() - i,
{
    if i < 0 || i >= ls.len() {
        None
    } else {
        match find(ls[i], "release "@) {
            Some(k) => match major_minor_text(ls[i].skip(k + 8)) {
                Some(v) => Some(v),
                None => release_from(ls, i + 1),
            },
            None => release_from(ls, i + 1),
        }
    }
}

pub open spec fn release_version_spec(text: Text) -> Option<Text> {
    release_from(lines(text), 0)
}

pub fn find_cuda_release_version(text: &str) -> (r: Option<String>)
    ensures
        r matches Some(s) ==> release_version_spec(text@) == Some(s@),
        r is None ==> release_version_spec(text@) is None,
{
    let ls = lines_of(&chars_of(text));
    let ghost lv = views(ls@);
    let mut i: usize = 0;
    proof {
        reveal_strlit("release ");
    }
    while i < ls.len()
        invariant
            i <= ls.len(),
            lv == views(ls@),
            lv == lines(text@),
            "release "@.len() == 8,
            release_from(lv, 0) == release_from(lv, i as int),
        decreases ls.len() - i,
    {
        let line = &ls[i];
        match find_str(line, "release ") {
            Some(k) => {
                proof {
                    lemma_find_from(line@, "release "@, 0);
                    assert(occurs_at(line@, "release "@, k as int));
                }
                assert(k + 8 <= line.len());
                let rest = slice(line, k + 8, line.len());
                assert(rest@ == line@.skip(k + 8));
                match cuda_major_minor_version(&rest) {
                    Some(v) => return Some(v),
                    None => {},
                }
            },
            None => {},
        }
        i = i + 1;
    }
    None
}

/// Reads the version out of `nvcc --version` output.
pub fn cuda_release_version_from_text(text: &str) -> (r: Option<String>)
    ensures
        r matches Some(s) ==> release_version_spec(text@) == Some(s@),
        r is None ==> release_version_spec(text@) is None,
{
    find_cuda_release_version(text)
}

/// The version after `CUDA Version:` on the first line that has that label.
pub open spec fn smi_from(ls: Seq<Text>, i: int) -> Option<Text>
    decreases ls.len() - i,
{
    if i < 0 || i >= ls.len() {
        None
    } else {
        match split_once(ls[i], "CUDA Version:"@) {
            Some((_, rest)) => major_minor_text(rest),
            None => smi_from(ls, i + 1),
        }
    }
}

pub open spec fn smi_version_spec(text: Text) -> Option<Text> {
    smi_from(lines(text), 0)
}

pub fn find_nvidia_smi_cuda_version(text: &str) -> (r: Option<String>)
    ensures
        r matches Some(s) ==> smi_version_spec(text@) == Some(s@),
        r is None ==> smi_version_spec(text@) is None,
{
    let ls = lines_of(&chars_of(text));
    let ghost lv = views(ls@);
    let mut i: usize = 0;
    while i < ls.len()
        invariant
            i <= ls.len(),
            lv == views(ls@),
            lv == lines(text@),
            smi_from(lv, 0) == smi_from(lv, i as int),
        decreases ls.len() - i,
    {
        match split_once_str(&ls[i], "CUDA Version:") {
            Some((_, rest)) => return cuda_major_minor_version(&rest),
            None => {},
        }
        i = i + 1;
    }
    None
}

// ---------------------------------------------------------------------
// uv.lock
// ---------------------------------------------------------------------

/// The text between the first two `"`.
pub open spec fn quoted_spec(text: Text) -> Option<Text> {
    match find(text, seq!['"']) {
        Some(start) => {
            let rest = text.skip(start + 1);
            match find(rest, seq!['"']) {
                Some(end) => Some(rest.take(end)),
                None => None,
            }
        },
        None => None,
    }
}

pub fn extract_quoted(text: &Vec<char>) -> (r: Option<Vec<char>>)
    ensures
        r matches Some(v) ==> quoted_spec(text@) == Some(v@),
        r is None ==> quoted_spec(text@) is None,
{
    let mut q: Vec<char> = Vec::new();
    q.push('"');
    assert(q@ =~= seq!['"']);
    let start = match crate::text::find_chars(text, &q) {
        Some(s) => s,
        None => return None,
    };
    proof {
        lemma_find_from(text@, seq!['"'], 0);
        assert(occurs_at(text@, seq!['"'], start as int));
    }
    assert(start + 1 <= text.len());
    let rest = slice(text, start + 1, text.len());
    assert(rest@ == text@.skip(start + 1));
    let end = match crate::text::find_chars(&rest, &q) {
        Some(e) => e,
        None => return None,
    };
    proof {
        lemma_find_from(rest@, seq!['"'], 0);
    }
    let r = slice(&rest, 0, end);
    assert(r@ == rest@.take(end as int));
    Some(r)
}

/// A CUDA wheel name: `-cu` followed, after its last occurrence, by digits only.
pub open spec fn cuda_package_spec(name: Text) -> bool {
    contains(name, "-cu"@) && match rsplit_once(name, "-cu"@) {
        Some((_, suffix)) => suffix.len() > 0 && all_digits(suffix),
        None => false,
    }
}

pub fn is_cuda_package_name(name: &Vec<char>) -> (r: bool)
    ensures
        r == cuda_package_spec(name@),
{
    if !contains_str(name, "-cu") {
        return false;
    }
    match rsplit_once_str(name, "-cu") {
        Some((_, suffix)) => suffix.len() > 0 && all_ascii_digits(&suffix),
        None => false,
    }
}

pub struct LockScan {
    pub package: Option<Text>,
    pub best: Option<(u32, u32)>,
}

pub open spec fn newer(v: (u32, u32), best: Option<(u32, u32)>) -> bool {
    match best {
        None => true,
        Some(b) => v.0 > b.0 || (v.0 == b.0 && v.1 > b.1),
    }
}

/// One line of `uv.lock`: a package header forgets the current name, a
/// `name = ` line remembers a CUDA wheel name, and a `version = ` line of a
/// CUDA wheel raises the best version seen.
pub open spec fn scan_line(st: LockScan, raw: Text) -> LockScan {
    let line = trim(raw, Sep::Whitespace);
    if is_prefix("[[package]]"@, line) {
        LockScan { package: None, best: st.best }
    } else if let Some(value) = strip_prefix(line, "name = "@) {
        let q = quoted_spec(value);
        let name = match q {
            Some(x) => x,
            None => Seq::empty(),
        };
        if cuda_package_spec(name) {
            LockScan { package: q, best: st.best }
        } else {
            LockScan { package: None, best: st.best }
        }
    } else if is_prefix("version = "@, line) {
        match st.package {
            Some(name) => if cuda_package_spec(name) {
                match quoted_spec(line) {
                    Some(raw_version) => match major_minor(raw_version) {
                        Some(v) => if newer(v, st.best) {
                            LockScan { package: st.package, best: Some(v) }
                        } else {
                            st
                        },
                        None => st,
                    },
                    None => st,
                }
            } else {
                st
            },
            None => st,
        }
    } else {
        st
    }
}

pub open spec fn scan_lines(ls: Seq<Text>) -> LockScan
    decreases ls.len(),
{
    if ls.len() == 0 {
        LockScan { package: None, best: None }
    } else {
        scan_line(scan_lines(ls.drop_last()), ls.last())
    }
}

/// The newest `major.minor` among the CUDA wheels that `uv.lock` pins.
pub open spec fn lock_version_spec(text: Text) -> Option<Text> {
    match scan_lines(lines(text)).best {
        Some(v) => Some(version_text(v)),
        None => None,
    }
}

pub fn infer_cuda_wheel_version_from_uv_lock_text(text: &str) -> (r: Option<String>)
    ensures
        r matches Some(s) ==> lock_version_spec(text@) == Some(s@),
        r is None ==> lock_version_spec(text@) is None,
{
    let ls = lines_of(&chars_of(text));
    let ghost lv = views(ls@);
    let mut package: Option<Vec<char>> = None;
    let mut best: Option<(u32, u32)> = None;
    let mut i: usize = 0;
    while i < ls.len()
        invariant
            i <= ls.len(),
            lv == views(ls@),
            lv == lines(text@),
            scan_lines(lv.take(i as int)) == (LockScan {
                package: match package {
                    Some(p) => Some(p@),
                    None => None,
                },
                best,
            }),
        decreases ls.len() - i,
    {
        assert(lv.take(i + 1).drop_last() == lv.take(i as int));
        let line = trim_ws(&ls[i]);
        if starts_with_str(&line, "[[package]]") {
            package = None;
        } else if let Some(value) = strip_prefix_str(&line, "name = ") {
            let q = extract_quoted(&value);
            let is_cuda = match &q {
                Some(x) => is_cuda_package_name(x),
                None => {
                    let empty: Vec<char> = Vec::new();
                    assert(empty@ =~= Seq::<char>::empty());
                    is_cuda_package_name(&empty)
                },
            };
            if is_cuda {
                package = q;
            } else {
                package = None;
            }
        } else if starts_with_str(&line, "version = ") {
            let is_cuda = match &package {
                Some(name) => is_cuda_package_name(name),
                None => false,
            };
            if is_cuda {
                match extract_quoted(&line) {
                    Some(raw) => match parse_major_minor(&raw) {
                        Some(v) => {
                            let newer_version = match best {
                                None => true,
                                Some(b) => v.0 > b.0 || (v.0 == b.0 && v.1 > b.1),
                            };
                            if newer_version {
                                best = Some(v);
                            }
                        },
                        None => {},
                    },
                    None => {},
                }
            }
        }
        i = i + 1;
    }
    assert(lv.take(ls.len() as int) == lv);
    match best {
        Some(v) => Some(version_string(v)),
        None => None,
    }
}

/// What `robo.nix` declares about the project runtime.
pub struct ProjectRuntime {
    pub schema_version: Option<String>,
    pub env_name: String,
    pub python_version: String,
    pub cuda_wheel_version: Option<String>,
    pub components: Vec<String>,
    pub suggestions: Vec<RuntimeSuggestion>,
}

/// A path the runtime suggests adding.
#[derive(Clone)]
pub struct RuntimeSuggestion {
    pub kind: String,
    pub path: String,
    pub reason: String,
}

/// Whether a runtime declares the component.
pub open spec fn has_component(runtime: ProjectRuntime, component: Seq<char>) -> bool {
    exists|i: int| 0 <= i < runtime.components.len() && #[trigger] runtime.components@[i]@ == component
}

pub fn runtime_has_component(runtime: &ProjectRuntime, component: &str) -> (r: bool)
    ensures
        r == has_component(*runtime, component@),
{
    let mut i: usize = 0;
    while i < runtime.components.len()
        invariant
            i <= runtime.components.len(),
            forall|k: int| 0 <= k < i ==> #[trigger] runtime.components@[k]@ != component@,
        decreases runtime.components.len() - i,
    {
        if crate::text::str_eq(runtime.components[i].as_str(), component) {
            return true;
        }
        i = i + 1;
    }
    false
}

} // verus!
