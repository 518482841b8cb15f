//! The project's Python version as its files declare it, and whether they
//! agree.
use vstd::prelude::*;
use crate::text::{
    append_str, chars_of, clone_chars, find, lines, lines_str, slice, split, split_once,
    split_once_str, string_of, strip_prefix, strip_prefix_str, trim, trim_ws, views, Sep,
};

verus! {

/// The first index of `c` in `s`.
pub open spec fn index_of(s: Seq<char>, c: char) -> Option<int> {
    find(s, seq![c])
}

/// The quoted value of a `key = "value"` line: the text after the first
/// `=`, trimmed, when it starts with a double or single quote, up to the
/// next such quote.
pub open spec fn quoted(text: Seq<char>) -> Option<Seq<char>> {
    match split_once(text, "="@) {
        None => None,
        Some((_, raw)) => {
            let value = trim(raw, Sep::Whitespace);
            if value.len() == 0 {
                None
            } else {
                let quote = value[0];
                if quote != '"' && quote != '\'' {
                    None
                } else {
                    let body = value.skip(1);
                    match index_of(body, quote) {
                        Some(end) => Some(body.take(end)),
                        None => None,
                    }
                }
            }
        },
    }
}

pub fn quoted_value(text: &str) -> (r: Option<String>)
    ensures
        match r {
            Some(v) => quoted(text@) == Some(v@),
            None => quoted(text@) is None,
        },
{
    let v = chars_of(text);
    let (_, raw) = split_once_str(&v, "=")?;
    let value = trim_ws(&raw);
    if value.len() == 0 {
        return None;
    }
    let quote = value[0];
    if quote != '"' && quote != '\'' {
        return None;
    }
    let body = slice(&value, 1, value.len());
    assert(body@ == value@.skip(1));
    let q = vec![quote];
    assert(q@ == seq![quote]);
    match crate::text::find_chars(&body, &q) {
        Some(end) => {
            proof {
                crate::text::lemma_find_from(body@, q@, 0);
            }
            let inner = slice(&body, 0, end);
            assert(inner@ == body@.take(end as int));
            Some(string_of(&inner))
        },
        None => None,
    }
}

/// The quoted value of the first line of `robo.nix` that starts with
/// `pythonVersion` (after trimming).
pub open spec fn robo_python(ls: Seq<Seq<char>>) -> Option<Seq<char>>
    decreases ls.len(),
{
    if ls.len() == 0 {
        None
    } else {
        match strip_prefix(trim(ls[0], Sep::Whitespace), "pythonVersion"@) {
            Some(rest) => quoted(rest),
            None => robo_python(ls.skip(1)),
        }
    }
}

pub fn robo_python_version(text: &str) -> (r: Option<String>)
    ensures
        match r {
            Some(v) => robo_python(lines(text@)) == Some(v@),
            None => robo_python(lines(text@)) is None,
        },
{
    let ls = lines_str(text);
    let ghost lv = views(ls@);
    let mut i: usize = 0;
    assert(lv.skip(0) == lv);
    while i < ls.len()
        invariant
            i <= ls.len(),
            lv == views(ls@),
            lv == lines(text@),
            robo_python(lv) == robo_python(lv.skip(i as int)),
        decreases ls.len() - i,
    {
        let line = trim_ws(&ls[i]);
        assert(lv.skip(i as int)[0] == ls@[i as int]@);
        assert(lv.skip(i as int).skip(1) == lv.skip(i + 1));
        match strip_prefix_str(&line, "pythonVersion") {
            Some(rest) => {
                return quoted_value(string_of(&rest).as_str());
            },
            None => {},
        }
        i = i + 1;
    }
    None
}

/// What is wrong with the Python version files, as the error and the
/// hints that explain it.
pub struct VersionFilesProblem {
    pub error: String,
    pub hints: Vec<String>,
}

/// The project's Python files agree when `.python-version` holds the
/// version that `pyproject.toml` pins exactly, and `robo.nix`, when it
/// declares one, declares the same. Each argument is the file's content
/// when it could be read; `required` is the exact version `pyproject.toml`
/// pins, when it pins one.
pub open spec fn version_files_agree(
    required: Option<Seq<char>>,
    python_version_file: Option<Seq<char>>,
    robo_nix: Option<Seq<char>>,
) -> bool {
    match required {
        None => true,
        Some(req) => match python_version_file {
            None => false,
            Some(file) => trim(file, Sep::Whitespace) == req && match robo_nix {
                Some(nix) => match robo_python(lines(nix)) {
                    Some(declared) => declared == req,
                    None => true,
                },
                None => true,
            },
        },
    }
}

pub open spec fn opt_text(o: Option<&str>) -> Option<Seq<char>> {
    match o {
        Some(s) => Some(s@),
        None => None,
    }
}

/// Checks the Python version files against the exact requirement of
/// `pyproject.toml`; on a disagreement, the error to report and its hints.
pub fn check_python_version_files(
    required: Option<&str>,
    python_version_file: Option<&str>,
    robo_nix: Option<&str>,
) -> (r: Result<(), VersionFilesProblem>)
    ensures
        r is Ok <==> version_files_agree(
            opt_text(required),
            opt_text(python_version_file),
            opt_text(robo_nix),
        ),
        r matches Err(p) ==> match python_version_file {
            None => p.error@ == "pyproject.toml requires Python "@ + required->0@
                + ", but .python-version is missing."@,
            Some(file) => if trim(file@, Sep::Whitespace) == required->0@ {
                p.error@ == "robo.nix declares Python "@ + robo_python(lines(robo_nix->0@))->0
                    + ", but pyproject.toml requires Python "@ + required->0@ + "."@
            } else {
                p.error@ == ".python-version is "@ + trim(file@, Sep::Whitespace)
                    + ", but pyproject.toml requires Python "@ + required->0@ + "."@
            },
        },
{
    let required = match required {
        Some(r) => r,
        None => {
            return Ok(());
        },
    };
    let file = match python_version_file {
        Some(f) => f,
        None => {
            let mut error = chars_of("pyproject.toml requires Python ");
            append_str(&mut error, required);
            append_str(&mut error, ", but .python-version is missing.");
            let mut hint = chars_of("write `");
            append_str(&mut hint, required);
            append_str(&mut hint, "` to .python-version, then rerun this command.");
            return Err(VersionFilesProblem { error: string_of(&error), hints: vec![string_of(&hint)] });
        },
    };
    let project_python = trim_ws(&chars_of(file));
    let req = chars_of(required);
    if crate::text::eq_chars(&project_python, &req) {
        match robo_nix {
            Some(nix) => match robo_python_version(nix) {
                Some(declared) => {
                    if !crate::text::str_eq(declared.as_str(), required) {
                        let mut error = chars_of("robo.nix declares Python ");
                        append_str(&mut error, declared.as_str());
                        append_str(&mut error, ", but pyproject.toml requires Python ");
                        append_str(&mut error, required);
                        append_str(&mut error, ".");
                        let mut hint = chars_of("set `pythonVersion = \"");
                        append_str(&mut hint, required);
                        append_str(&mut hint, "\";` in robo.nix.");
                        return Err(
                            VersionFilesProblem { error: string_of(&error), hints: vec![string_of(&hint)] },
                        );
                    }
                },
                None => {},
            },
            None => {},
        }
        return Ok(());
    }
    let mut error = chars_of(".python-version is ");
    crate::text::append_chars(&mut error, &project_python);
    append_str(&mut error, ", but pyproject.toml requires Python ");
    append_str(&mut error, required);
    append_str(&mut error, ".");
    let mut hint = chars_of("write `");
    append_str(&mut hint, required);
    append_str(&mut hint, "` to .python-version, then rerun this command.");
    Err(
        VersionFilesProblem {
            error: string_of(&error),
            hints: vec![
                string_of(&hint),
                "if robo.nix has a different pythonVersion, update that to match too.".to_owned(),
            ],
        },
    )
}

/// The version a pinned requirement names: after `===` or `==`, the first
/// run of digits and dots that is a version of two or three numbers.
pub open spec fn pinned_version(raw: Seq<char>) -> Option<Option<Seq<char>>> {
    let rest = match strip_prefix(raw, "==="@) {
        Some(r) => Some(r),
        None => strip_prefix(raw, "=="@),
    };
    match rest {
        None => None,
        Some(r) => Some(first_version(split(crate::text::trim_start(r, Sep::Whitespace), Sep::NotDigitOrDot))),
    }
}

/// The first piece that is a version of two or three numbers.
pub open spec fn first_version(pieces: Seq<Seq<char>>) -> Option<Seq<char>>
    decreases pieces.len(),
{
    if pieces.len() == 0 {
        None
    } else if crate::pyproject::numeric_version(pieces[0]) {
        Some(pieces[0])
    } else {
        first_version(pieces.skip(1))
    }
}

/// The exact Python version `pyproject.toml` pins, read line by line: the
/// first `requires-python` line whose quoted value is an `==`/`===` pin
/// decides.
pub open spec fn pinned_python(ls: Seq<Seq<char>>) -> Option<Seq<char>>
    decreases ls.len(),
{
    if ls.len() == 0 {
        None
    } else {
        match strip_prefix(trim(ls[0], Sep::Whitespace), "requires-python"@) {
            Some(rest) => match quoted(rest) {
                Some(raw) => match pinned_version(trim(raw, Sep::Whitespace)) {
                    Some(v) => v,
                    None => pinned_python(ls.skip(1)),
                },
                None => pinned_python(ls.skip(1)),
            },
            None => pinned_python(ls.skip(1)),
        }
    }
}

fn first_version_of(pieces: &Vec<Vec<char>>) -> (r: Option<String>)
    ensures
        crate::text::opt_str(r) == first_version(views(pieces@)),
{
    let ghost pv = views(pieces@);
    let mut i: usize = 0;
    assert(pv.skip(0) =~= pv);
    while i < pieces.len()
        invariant
            i <= pieces.len(),
            pv == views(pieces@),
            first_version(pv) == first_version(pv.skip(i as int)),
        decreases pieces.len() - i,
    {
        assert(pv.skip(i as int)[0] == pieces@[i as int]@);
        assert(pv.skip(i as int).skip(1) =~= pv.skip(i + 1));
        if crate::pyproject::is_numeric_version(&pieces[i]) {
            return Some(string_of(&pieces[i]));
        }
        i = i + 1;
    }
    None
}

fn pinned_version_of(raw: &Vec<char>) -> (r: Option<Option<String>>)
    ensures
        match r {
            Some(v) => pinned_version(raw@) == Some(crate::text::opt_str(v)),
            None => pinned_version(raw@) is None,
        },
{
    let rest = match strip_prefix_str(raw, "===") {
        Some(r) => r,
        None => match strip_prefix_str(raw, "==") {
            Some(r) => r,
            None => {
                return None;
            },
        },
    };
    let start = crate::text::trim_start_chars(&rest, Sep::Whitespace);
    let pieces = crate::text::split_chars(&start, Sep::NotDigitOrDot);
    Some(first_version_of(&pieces))
}

/// The exact Python version `pyproject.toml` pins (see `pinned_python`).
pub fn exact_python_requirement(text: &str) -> (r: Option<String>)
    ensures
        crate::text::opt_str(r) == pinned_python(lines(text@)),
{
    let ls = lines_str(text);
    let ghost lv = views(ls@);
    let mut i: usize = 0;
    assert(lv.skip(0) =~= lv);
    while i < ls.len()
        invariant
            i <= ls.len(),
            lv == views(ls@),
            lv == lines(text@),
            pinned_python(lv) == pinned_python(lv.skip(i as int)),
        decreases ls.len() - i,
    {
        assert(lv.skip(i as int)[0] == ls@[i as int]@);
        assert(lv.skip(i as int).skip(1) =~= lv.skip(i + 1));
        let line = trim_ws(&ls[i]);
        match strip_prefix_str(&line, "requires-python") {
            Some(rest) => match quoted_value(string_of(&rest).as_str()) {
                Some(raw) => match pinned_version_of(&trim_ws(&chars_of(raw.as_str()))) {
                    Some(v) => {
                        return v;
                    },
                    None => {},
                },
                None => {},
            },
            None => {},
        }
        i = i + 1;
    }
    None
}

} // verus!
