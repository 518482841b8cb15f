//! `robo search`: which Nix packages provide a shared library, from the
//! output of `nix-locate`.
use vstd::prelude::*;
use crate::text::{
    append_str, chars_of, contains, contains_str, is_alnum, lines, lines_str, lower, lowercase,
    non_empty, rsplit_once, rsplit_once_str, split, split_once, split_once_str, string_of, strs,
    trim, views, Sep,
};

verus! {

/// `nix-locate` reports that it has no database.
pub open spec fn index_missing(stderr: Seq<char>) -> bool {
    contains(stderr, "No such file or directory"@) && contains(stderr, "nix-index"@)
}

pub fn nix_index_database_missing_stderr(stderr: &str) -> (r: bool)
    ensures
        r == index_missing(stderr@),
{
    let v = chars_of(stderr);
    contains_str(&v, "No such file or directory") && contains_str(&v, "nix-index")
}

/// The arguments `nix-locate` is run with for a library.
pub fn nix_locate_args(query: &str) -> (r: Vec<String>)
    ensures
        strs(r@) == seq![
            "--minimal"@,
            "--whole-name"@,
            "--type"@,
            "r"@,
            "--type"@,
            "s"@,
            query@,
        ],
{
    let r = vec![
        "--minimal".to_owned(),
        "--whole-name".to_owned(),
        "--type".to_owned(),
        "r".to_owned(),
        "--type".to_owned(),
        "s".to_owned(),
        query.to_owned(),
    ];
    assert(strs(r@) =~= seq![
        "--minimal"@,
        "--whole-name"@,
        "--type"@,
        "r"@,
        "--type"@,
        "s"@,
        query@,
    ]);
    r
}

/// A Nix attribute path: ASCII letters, digits, `_`, `-` and `.`.
pub open spec fn nix_attr(attr: Seq<char>) -> bool {
    attr.len() > 0 && forall|i: int|
        0 <= i < attr.len() ==> #[trigger] is_alnum(attr[i]) || attr[i] == '_' || attr[i] == '-'
            || attr[i] == '.'
}

pub fn valid_nix_attr(attr: &str) -> (r: bool)
    ensures
        r == nix_attr(attr@),
{
    let v = chars_of(attr);
    if v.len() == 0 {
        return false;
    }
    let mut i: usize = 0;
    while i < v.len()
        invariant
            i <= v.len(),
            v@ == attr@,
            forall|k: int|
                0 <= k < i ==> #[trigger] is_alnum(v@[k]) || v@[k] == '_' || v@[k] == '-' || v@[k]
                    == '.',
        decreases v.len() - i,
    {
        let c = v[i];
        if !(crate::text::is_ascii_alnum(c) || c == '_' || c == '-' || c == '.') {
            return false;
        }
        i = i + 1;
    }
    true
}

/// The package attribute of a `nix-locate --minimal` line: the first word,
/// without parentheses and without an `out`, `lib`, `dev` or `bin` output;
/// `debug` outputs are not packages to depend on.
pub open spec fn locate_attr(line: Seq<char>) -> Option<Seq<char>> {
    let words = non_empty(split(line, Sep::Whitespace));
    if words.len() == 0 {
        None
    } else {
        let attr = trim(words[0], Sep::Paren);
        let picked = match rsplit_once(attr, "."@) {
            Some((name, output)) => if output == "debug"@ {
                None
            } else if output == "out"@ || output == "lib"@ || output == "dev"@ || output == "bin"@ {
                Some(name)
            } else {
                Some(attr)
            },
            None => Some(attr),
        };
        match picked {
            Some(a) => if nix_attr(a) {
                Some(a)
            } else {
                None
            },
            None => None,
        }
    }
}

pub fn nix_locate_attr(line: &str) -> (r: Option<String>)
    ensures
        match r {
            Some(a) => locate_attr(line@) == Some(a@),
            None => locate_attr(line@) is None,
        },
{
    let words = crate::text::words(&chars_of(line));
    if words.len() == 0 {
        return None;
    }
    assert(views(words@)[0] == words@[0]@);
    let attr = crate::text::trim_chars(&words[0], Sep::Paren);
    let picked = match rsplit_once_str(&attr, ".") {
        Some((name, output)) => {
            if crate::text::eq_str(&output, "debug") {
                return None;
            } else if crate::text::eq_str(&output, "out") || crate::text::eq_str(&output, "lib")
                || crate::text::eq_str(&output, "dev") || crate::text::eq_str(&output, "bin") {
                name
            } else {
                attr
            }
        },
        None => attr,
    };
    let s = string_of(&picked);
    if valid_nix_attr(s.as_str()) {
        Some(s)
    } else {
        None
    }
}

/// Lexicographic order of texts by character, as `String`'s `Ord` orders
/// them.
pub open spec fn lex_lt(a: Seq<char>, b: Seq<char>) -> bool
    decreases a.len(),
{
    if a.len() == 0 {
        b.len() > 0
    } else if b.len() == 0 {
        false
    } else if a[0] < b[0] {
        true
    } else if a[0] == b[0] {
        lex_lt(a.skip(1), b.skip(1))
    } else {
        false
    }
}

pub proof fn lemma_lex_irreflexive(a: Seq<char>)
    ensures
        !lex_lt(a, a),
    decreases a.len(),
{
    if a.len() > 0 {
        lemma_lex_irreflexive(a.skip(1));
    }
}

pub proof fn lemma_lex_transitive(a: Seq<char>, b: Seq<char>, c: Seq<char>)
    requires
        lex_lt(a, b),
        lex_lt(b, c),
    ensures
        lex_lt(a, c),
    decreases a.len(),
{
    if a.len() > 0 && b.len() > 0 && c.len() > 0 && a[0] == b[0] && b[0] == c[0] {
        lemma_lex_transitive(a.skip(1), b.skip(1), c.skip(1));
    }
}

pub proof fn lemma_lex_total(a: Seq<char>, b: Seq<char>)
    ensures
        a == b || lex_lt(a, b) || lex_lt(b, a),
    decreases a.len(),
{
    if a.len() > 0 && b.len() > 0 && a[0] == b[0] {
        lemma_lex_total(a.skip(1), b.skip(1));
        if a.skip(1) == b.skip(1) {
            assert(a =~= seq![a[0]] + a.skip(1));
            assert(b =~= seq![b[0]] + b.skip(1));
        }
    } else if a.len() == 0 && b.len() == 0 {
        assert(a =~= b);
    }
}

pub(crate) fn less_than(a: &Vec<char>, b: &Vec<char>) -> (r: bool)
    ensures
        r == lex_lt(a@, b@),
{
    let mut i: usize = 0;
    assert(a@.skip(0) == a@);
    assert(b@.skip(0) == b@);
    while i < a.len() && i < b.len() && a[i] == b[i]
        invariant
            i <= a.len(),
            i <= b.len(),
            lex_lt(a@, b@) == lex_lt(a@.skip(i as int), b@.skip(i as int)),
        decreases a.len() - i,
    {
        assert(a@.skip(i as int).skip(1) == a@.skip(i + 1));
        assert(b@.skip(i as int).skip(1) == b@.skip(i + 1));
        i = i + 1;
    }
    if i == a.len() {
        i < b.len()
    } else if i == b.len() {
        false
    } else {
        a[i] < b[i]
    }
}

/// Whether `a` comes before `b`.
pub fn str_lt(a: &str, b: &str) -> (r: bool)
    ensures
        r == lex_lt(a@, b@),
{
    less_than(&chars_of(a), &chars_of(b))
}

/// Strictly increasing: sorted, each text once.
pub open spec fn sorted_unique(v: Seq<Seq<char>>) -> bool {
    forall|i: int, j: int| 0 <= i < j < v.len() ==> lex_lt(#[trigger] v[i], #[trigger] v[j])
}

pub(crate) fn insert_sorted(v: &mut Vec<Vec<char>>, x: Vec<char>)
    requires
        sorted_unique(views(old(v)@)),
    ensures
        sorted_unique(views(final(v)@)),
        views(final(v)@).to_set() == views(old(v)@).to_set().insert(x@),
{
    let ghost before = views(v@);
    let mut p: usize = 0;
    while p < v.len() && less_than(&v[p], &x)
        invariant
            p <= v.len(),
            before == views(v@),
            sorted_unique(before),
            forall|k: int| 0 <= k < p ==> lex_lt(#[trigger] before[k], x@),
        decreases v.len() - p,
    {
        assert(before[p as int] == v@[p as int]@);
        p = p + 1;
    }
    if p < v.len() {
        assert(before[p as int] == v@[p as int]@);
        proof {
            lemma_lex_total(before[p as int], x@);
        }
        if crate::text::eq_chars(&v[p], &x) {
            assert(before.to_set().contains(x@));
            assert(before.to_set().insert(x@) =~= before.to_set());
            return;
        }
    }
    let ghost xv = x@;
    v.insert(p, x);
    proof {
        assert(views(v@) =~= before.insert(p as int, xv));
        let after = views(v@);
        assert forall|i: int, j: int| 0 <= i < j < after.len() implies lex_lt(
            #[trigger] after[i],
            #[trigger] after[j],
        ) by {
            if j < p {
            } else if i > p {
                assert(after[i] == before[i - 1]);
                assert(after[j] == before[j - 1]);
            } else if i == p {
                assert(after[j] == before[j - 1]);
                assert(lex_lt(xv, before[p as int]));
                if j - 1 > p {
                    lemma_lex_transitive(xv, before[p as int], before[j - 1]);
                }
            } else if j == p {
                assert(after[i] == before[i]);
            } else {
                assert(after[i] == before[i]);
                assert(after[j] == before[j - 1]);
                assert(lex_lt(before[i], xv));
                assert(lex_lt(xv, before[p as int]));
                lemma_lex_transitive(before[i], xv, before[p as int]);
                if j - 1 > p {
                    lemma_lex_transitive(before[i], before[p as int], before[j - 1]);
                }
            }
        }
        assert(after.to_set() =~= before.to_set().insert(xv)) by {
            assert forall|y: Seq<char>| after.to_set().contains(y) implies before.to_set().insert(
                xv,
            ).contains(y) by {
                let k = choose|k: int| 0 <= k < after.len() && after[k] == y;
                if k < p {
                    assert(after[k] == before[k]);
                } else if k > p {
                    assert(after[k] == before[k - 1]);
                }
            }
            assert forall|y: Seq<char>| before.to_set().insert(xv).contains(y) implies after.to_set().contains(
                y,
            ) by {
                if y == xv {
                    assert(after[p as int] == xv);
                } else {
                    let k = choose|k: int| 0 <= k < before.len() && before[k] == y;
                    if k < p {
                        assert(after[k] == y);
                    } else {
                        assert(after[k + 1] == y);
                    }
                }
            }
        }
    }
}

/// The attributes of every line of `nix-locate` output.
pub open spec fn locate_attr_set(ls: Seq<Seq<char>>) -> Set<Seq<char>>
    decreases ls.len(),
{
    if ls.len() == 0 {
        Set::empty()
    } else {
        match locate_attr(ls.last()) {
            Some(a) => locate_attr_set(ls.drop_last()).insert(a),
            None => locate_attr_set(ls.drop_last()),
        }
    }
}

/// The packages `nix-locate` found, sorted, each once.
pub fn nix_locate_attrs(output: &str) -> (r: Vec<String>)
    ensures
        sorted_unique(strs(r@)),
        strs(r@).to_set() == locate_attr_set(lines(output@)),
{
    let ls = lines_str(output);
    let ghost lv = views(ls@);
    let mut found: Vec<Vec<char>> = Vec::new();
    let mut i: usize = 0;
    assert(views(found@).to_set() =~= Set::<Seq<char>>::empty());
    while i < ls.len()
        invariant
            i <= ls.len(),
            lv == views(ls@),
            lv == lines(output@),
            sorted_unique(views(found@)),
            views(found@).to_set() == locate_attr_set(lv.take(i as int)),
        decreases ls.len() - i,
    {
        assert(lv.take(i + 1).drop_last() == lv.take(i as int));
        assert(lv.take(i + 1).last() == ls@[i as int]@);
        match nix_locate_attr(string_of(&ls[i]).as_str()) {
            Some(a) => {
                insert_sorted(&mut found, chars_of(a.as_str()));
            },
            None => {},
        }
        i = i + 1;
    }
    assert(lv.take(ls.len() as int) == lv);
    let mut out: Vec<String> = Vec::new();
    let mut k: usize = 0;
    while k < found.len()
        invariant
            k <= found.len(),
            strs(out@) == views(found@).take(k as int),
        decreases found.len() - k,
    {
        out.push(string_of(&found[k]));
        assert(views(found@).take(k + 1) == views(found@).take(k as int).push(found@[k as int]@));
        assert(strs(out@) =~= views(found@).take(k + 1));
        k = k + 1;
    }
    assert(views(found@).take(found.len() as int) == views(found@));
    out
}

/// The library name searched for: trimmed of punctuation, its directory
/// dropped, a version after `.so.` dropped, in ASCII lower case.
pub open spec fn library_query(query: Seq<char>) -> Seq<char> {
    let q = trim(query, Sep::Punct);
    let name = match rsplit_once(q, "/"@) {
        Some((_, n)) => n,
        None => q,
    };
    match split_once(name, ".so."@) {
        Some((base, _)) => lower(base + ".so"@),
        None => lower(name),
    }
}

pub fn normalize_library_query(query: &str) -> (r: String)
    ensures
        r@ == library_query(query@),
{
    let q = crate::text::trim_chars(&chars_of(query), Sep::Punct);
    let name = match rsplit_once_str(&q, "/") {
        Some((_, n)) => n,
        None => q,
    };
    match split_once_str(&name, ".so.") {
        Some((base, _)) => {
            let mut v = base;
            append_str(&mut v, ".so");
            string_of(&lowercase(&v))
        },
        None => string_of(&lowercase(&name)),
    }
}

/// The characters a package attribute with an output suffix is made of.
spec fn attr_char(c: char) -> bool {
    is_alnum(c) || c == '_' || c == '-' || c == '.'
}

proof fn lemma_split_unbroken(s: Seq<char>)
    requires
        forall|i: int| 0 <= i < s.len() ==> attr_char(#[trigger] s[i]),
    ensures
        split(s, Sep::Whitespace) == seq![s],
    decreases s.len(),
{
    if s.len() > 0 {
        let t = s.drop_last();
        assert forall|i: int| 0 <= i < t.len() implies attr_char(#[trigger] t[i]) by {
            assert(t[i] == s[i]);
        }
        lemma_split_unbroken(t);
        assert(attr_char(s[s.len() - 1]));
        assert(!crate::text::in_sep(Sep::Whitespace, s.last()));
        assert(t.push(s.last()) =~= s);
        assert(seq![t].update(0, s) =~= seq![s]);
    } else {
        assert(s =~= Seq::<char>::empty());
    }
}

proof fn lemma_rfind_last_dot(w: Seq<char>, n: int, i: int)
    requires
        0 <= n <= i < w.len(),
        w[n] == '.',
        forall|j: int| n < j <= i ==> #[trigger] w[j] != '.',
    ensures
        crate::text::rfind_upto(w, "."@, i) == Some(n),
    decreases i,
{
    reveal_strlit(".");
    if i == n {
        assert(w.subrange(n, n + 1) =~= "."@);
    } else {
        assert(w.subrange(i, i + 1)[0] == w[i]);
        assert(!crate::text::occurs_at(w, "."@, i));
        lemma_rfind_last_dot(w, n, i - 1);
    }
}

/// How a `nix-locate` line that is one word, `NAME.OUTPUT`, is read: the
/// word is the line's first word, no parentheses are trimmed from it, and
/// it splits at the dot before `OUTPUT`.
proof fn lemma_locate_word(name: Seq<char>, output: Seq<char>)
    requires
        nix_attr(name),
        output.len() > 0,
        forall|k: int| 0 <= k < output.len() ==> is_alnum(#[trigger] output[k]),
    ensures
        crate::text::split_whitespace(name + "."@ + output) == seq![name + "."@ + output],
        trim(name + "."@ + output, Sep::Paren) == name + "."@ + output,
        rsplit_once(name + "."@ + output, "."@) == Some((name, output)),
{
    reveal_strlit(".");
    let w = name + "."@ + output;
    let n = name.len() as int;
    assert forall|i: int| 0 <= i < w.len() implies attr_char(#[trigger] w[i]) by {
        if i < n {
            assert(w[i] == name[i]);
        } else if i == n {
            assert(w[i] == '.');
        } else {
            assert(w[i] == output[i - n - 1]);
        }
    }
    lemma_split_unbroken(w);
    let pieces = split(w, Sep::Whitespace);
    assert(pieces.drop_last() =~= Seq::<Seq<char>>::empty());
    assert(non_empty(pieces) == seq![w]) by {
        assert(non_empty(pieces.drop_last()) == Seq::<Seq<char>>::empty());
        assert(Seq::<Seq<char>>::empty().push(w) =~= seq![w]);
    }
    assert(!crate::text::in_sep(Sep::Paren, w[0]));
    assert(crate::text::trim_start(w, Sep::Paren) == w);
    assert(w.last() == w[w.len() - 1]);
    assert(!crate::text::in_sep(Sep::Paren, w.last()));
    assert(crate::text::trim_end(w, Sep::Paren) == w);
    assert(w[n] == '.');
    assert forall|j: int| n < j <= w.len() - 1 implies #[trigger] w[j] != '.' by {
        assert(w[j] == output[j - n - 1]);
    }
    lemma_rfind_last_dot(w, n, w.len() - 1);
    assert(w.take(n) =~= name);
    assert(w.skip(n + 1) =~= output);
}

proof fn lemma_output_letters(output: Seq<char>)
    requires
        output == "out"@ || output == "lib"@ || output == "dev"@ || output == "bin"@ || output == "debug"@,
    ensures
        output.len() > 0,
        forall|k: int| 0 <= k < output.len() ==> is_alnum(#[trigger] output[k]),
{
    reveal_strlit("out");
    reveal_strlit("lib");
    reveal_strlit("dev");
    reveal_strlit("bin");
    reveal_strlit("debug");
}

/// A `nix-locate` line naming a package's `out`, `lib`, `dev` or `bin`
/// output reports the package itself: the output suffix is dropped.
pub proof fn law_locate_drops_package_outputs(name: Seq<char>, output: Seq<char>)
    requires
        nix_attr(name),
        output == "out"@ || output == "lib"@ || output == "dev"@ || output == "bin"@,
    ensures
        locate_attr(name + "."@ + output) == Some(name),
{
    lemma_output_letters(output);
    lemma_locate_word(name, output);
    reveal_strlit("debug");
    reveal_strlit("out");
    reveal_strlit("lib");
    reveal_strlit("dev");
    reveal_strlit("bin");
    assert(output.len() == 3);
    assert(output != "debug"@);
}

/// A line naming a package's `debug` output reports nothing.
pub proof fn law_locate_skips_debug_outputs(name: Seq<char>)
    requires
        nix_attr(name),
    ensures
        locate_attr(name + "."@ + "debug"@) is None,
{
    lemma_output_letters("debug"@);
    lemma_locate_word(name, "debug"@);
}

/// Any other last component is part of the attribute: the line's word is
/// reported whole.
pub proof fn law_locate_keeps_other_suffixes(name: Seq<char>, suffix: Seq<char>)
    requires
        nix_attr(name),
        suffix.len() > 0,
        forall|k: int| 0 <= k < suffix.len() ==> is_alnum(#[trigger] suffix[k]),
        suffix != "out"@ && suffix != "lib"@ && suffix != "dev"@ && suffix != "bin"@ && suffix != "debug"@,
    ensures
        locate_attr(name + "."@ + suffix) == Some(name + "."@ + suffix),
{
    reveal_strlit(".");
    lemma_locate_word(name, suffix);
    let w = name + "."@ + suffix;
    let n = name.len() as int;
    assert forall|i: int| 0 <= i < w.len() implies #[trigger] is_alnum(w[i]) || w[i] == '_' || w[i] == '-' || w[i] == '.' by {
        if i < n {
            assert(w[i] == name[i]);
        } else if i == n {
            assert(w[i] == '.');
        } else {
            assert(w[i] == suffix[i - n - 1]);
        }
    }
    assert(nix_attr(w));
}

} // verus!

