//! Reading a failed project bootstrap's output for what went wrong.
use vstd::prelude::*;
use crate::text::{
    chars_of, is_digit, is_upper, lines, lines_str, string_of, strip_suffix, strip_suffix_str,
    trim, trim_ws, views, Sep,
};

verus! {

/// An environment variable name as bootstrap scripts report them: upper
/// case letters, digits and `_`, not starting with a digit.
pub open spec fn env_var_name(name: Seq<char>) -> bool {
    name.len() > 0 && (forall|i: int|
        0 <= i < name.len() ==> #[trigger] name[i] == '_' || is_upper(name[i]) || is_digit(name[i]))
        && (name[0] == '_' || is_upper(name[0]))
}

pub fn is_env_var_name(name: &str) -> (r: bool)
    ensures
        r == env_var_name(name@),
{
    let v = chars_of(name);
    if v.len() == 0 {
        return false;
    }
    let mut i: usize = 0;
    while i < v.len()
        invariant
            i <= v.len(),
            v@ == name@,
            forall|k: int|
                0 <= k < i ==> #[trigger] v@[k] == '_' || is_upper(v@[k]) || is_digit(v@[k]),
        decreases v.len() - i,
    {
        let c = v[i];
        if !(c == '_' || crate::text::is_ascii_upper(c) || crate::text::is_ascii_digit(c)) {
            return false;
        }
        i = i + 1;
    }
    v[0] == '_' || crate::text::is_ascii_upper(v[0])
}

/// The variable a `NAME is not set` line reports, when it names one.
pub open spec fn unset_var(line: Seq<char>) -> Option<Seq<char>> {
    match strip_suffix(trim(line, Sep::Whitespace), " is not set"@) {
        Some(name) => if env_var_name(name) {
            Some(name)
        } else {
            None
        },
        None => None,
    }
}

/// The first variable that a line of the output reports as unset.
pub open spec fn first_unset(ls: Seq<Seq<char>>) -> Option<Seq<char>>
    decreases ls.len(),
{
    if ls.len() == 0 {
        None
    } else if unset_var(ls[0]) is Some {
        unset_var(ls[0])
    } else {
        first_unset(ls.skip(1))
    }
}

pub fn missing_env_var(text: &str) -> (r: Option<String>)
    ensures
        match r {
            Some(name) => first_unset(lines(text@)) == Some(name@),
            None => first_unset(lines(text@)) is None,
        },
{
    let ls = lines_str(text);
    let ghost lv = views(ls@);
    let mut i: usize = 0;
    assert(lv.skip(0) == lv);
    while i < ls.len()
        invariant
            i <= ls.len(),
            lv == views(ls@),
            lv == lines(text@),
            first_unset(lv) == first_unset(lv.skip(i as int)),
        decreases ls.len() - i,
    {
        assert(lv.skip(i as int)[0] == ls@[i as int]@);
        assert(lv.skip(i as int).skip(1) == lv.skip(i + 1));
        let line = trim_ws(&ls[i]);
        match strip_suffix_str(&line, " is not set") {
            Some(name) => {
                let s = string_of(&name);
                if is_env_var_name(s.as_str()) {
                    return Some(s);
                }
            },
            None => {},
        }
        i = i + 1;
    }
    None
}

/// What a failed bootstrap's output is explained with.
pub open spec fn bootstrap_hint_texts(text: Seq<char>) -> Seq<Seq<char>> {
    seq![
        "bootstrap is project-owned code from the bootstrap block or source scripts in robo.nix."@,
    ] + match first_unset(lines(text)) {
        Some(name) => seq![
            "set `"@ + name + "` in your shell or map it from a robo-nix runtime variable in robo.nix."@,
        ],
        None => Seq::empty(),
    } + seq!["run `robo check --why` to see which bootstrap scripts are part of this runtime."@]
}

pub fn project_bootstrap_failure_hints(text: &str) -> (r: Vec<String>)
    ensures
        crate::text::strs(r@) == bootstrap_hint_texts(text@),
{
    let mut out: Vec<String> = Vec::new();
    out.push(
        "bootstrap is project-owned code from the bootstrap block or source scripts in robo.nix.".to_owned(),
    );
    match missing_env_var(text) {
        Some(name) => {
            out.push(
                crate::text::concat3(
                    "set `",
                    name.as_str(),
                    "` in your shell or map it from a robo-nix runtime variable in robo.nix.",
                ),
            );
        },
        None => {},
    }
    out.push(
        "run `robo check --why` to see which bootstrap scripts are part of this runtime.".to_owned(),
    );
    assert(crate::text::strs(out@) =~= bootstrap_hint_texts(text@));
    out
}

} // verus!
