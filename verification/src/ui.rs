//! Presentation choices that the library decides and the terminal layer renders.
//!
//! Colour is applied by the `console` crate, which also decides whether the
//! terminal gets escape codes at all; nothing is promised of styled text.
//! Plain output (`color: false`) is the text itself, and that is stated.
use vstd::prelude::*;
use crate::text::{append_chars, append_str, chars_of, lemma_find_from, split_once, string_of};

verus! {

/// How output is rendered.
#[derive(Clone, Copy, Debug, PartialEq, Eq)]
pub struct Config {
    pub color: bool,
    pub debug: bool,
}

/// The style a label is printed in.
#[derive(Clone, Copy, Debug, PartialEq, Eq)]
pub enum LabelKind {
    Status,
    Pass,
    SecondaryOk,
    Warn,
    Error,
    Hint,
    Why,
    Debug,
    Command,
}

#[verifier::external_type_specification]
#[verifier::external_body]
pub struct ExStyle(console::Style);

/// `console::Style::new`: no colour and no attribute yet.
#[verifier::external_body]
fn new_style() -> console::Style {
    console::Style::new()
}

/// `Style::cyan`.
#[verifier::external_body]
fn cyan(s: console::Style) -> console::Style {
    s.cyan()
}

/// `Style::green`.
#[verifier::external_body]
fn green(s: console::Style) -> console::Style {
    s.green()
}

/// `Style::yellow`.
#[verifier::external_body]
fn yellow(s: console::Style) -> console::Style {
    s.yellow()
}

/// `Style::red`.
#[verifier::external_body]
fn red(s: console::Style) -> console::Style {
    s.red()
}

/// `Style::magenta`.
#[verifier::external_body]
fn magenta(s: console::Style) -> console::Style {
    s.magenta()
}

/// `Style::bold`.
#[verifier::external_body]
fn bold(s: console::Style) -> console::Style {
    s.bold()
}

/// `Style::dim`.
#[verifier::external_body]
fn dim(s: console::Style) -> console::Style {
    s.dim()
}

/// The text in a style, as `console` renders it (`Style::apply_to`, shown
/// with `ToString`): its `Display` writes the style's escape codes (only when
/// `console` finds colours enabled), then the text itself, then the reset
/// code `ESC[0m` when it wrote any. Each code it writes is `ESC[`, digits and
/// semicolons, then `m`. Which codes those are is left unsaid.
#[verifier::external_body]
fn render_styled(style: &console::Style, text: String) -> (r: String)
    ensures
        wrapped_in_codes(r@, text@),
{
    style.apply_to(text).to_string()
}

/// `r` is `t` with a run of escape codes before it and another after it.
pub open spec fn wrapped_in_codes(r: Seq<char>, t: Seq<char>) -> bool {
    exists|p: Seq<char>, q: Seq<char>| r == p + t + q && code_run(p) && code_run(q)
}

/// An escape code as a terminal reads it: `ESC[`, digits and semicolons,
/// then `m`.
pub open spec fn escape_code(s: Seq<char>) -> bool {
    &&& s.len() >= 3
    &&& s[0] == '\x1b'
    &&& s[1] == '['
    &&& s[s.len() - 1] == 'm'
    &&& forall|i: int| 2 <= i < s.len() - 1 ==> ('0' <= #[trigger] s[i] <= '9' || s[i] == ';')
}

/// Spaces that pad a styled piece to its column.
pub open spec fn padding(s: Seq<char>) -> bool {
    forall|i: int| 0 <= i < s.len() ==> #[trigger] s[i] == ' '
}

/// What rendering may put around the text: escape codes and padding.
pub open spec fn styling(s: Seq<char>) -> bool {
    escape_code(s) || padding(s)
}

/// A rendered string cut into pieces, each marked as styling (`true`) or
/// as text (`false`): all of it, in order.
pub open spec fn whole(ps: Seq<(bool, Seq<char>)>) -> Seq<char>
    decreases ps.len(),
{
    if ps.len() == 0 {
        Seq::empty()
    } else {
        whole(ps.drop_last()) + ps.last().1
    }
}

/// The text pieces alone, in order.
pub open spec fn text_part(ps: Seq<(bool, Seq<char>)>) -> Seq<char>
    decreases ps.len(),
{
    if ps.len() == 0 {
        Seq::empty()
    } else {
        text_part(ps.drop_last()) + (if ps.last().0 {
            Seq::empty()
        } else {
            ps.last().1
        })
    }
}

/// Every piece marked as styling is styling.
pub open spec fn styled_pieces(ps: Seq<(bool, Seq<char>)>) -> bool {
    forall|i: int| 0 <= i < ps.len() && (#[trigger] ps[i]).0 ==> styling(ps[i].1)
}

/// `s` is escape codes and nothing else.
pub closed spec fn code_run(s: Seq<char>) -> bool {
    exists|ps: Seq<(bool, Seq<char>)>|
        #[trigger] whole(ps) == s && forall|i: int| 0 <= i < ps.len() ==> (#[trigger] ps[i]).0 && escape_code(ps[i].1)
}

/// `r` shows the text `t`: taking the escape codes and the padding out of
/// `r` leaves `t`.
pub closed spec fn shows(r: Seq<char>, t: Seq<char>) -> bool {
    exists|ps: Seq<(bool, Seq<char>)>| #[trigger] whole(ps) == r && text_part(ps) == t && styled_pieces(ps)
}

/// Line by line, `rs` shows `ts`.
pub open spec fn shows_lines(rs: Seq<Seq<char>>, ts: Seq<Seq<char>>) -> bool {
    rs.len() == ts.len() && forall|i: int| 0 <= i < rs.len() ==> shows(#[trigger] rs[i], ts[i])
}

/// Output rendered under `config` for the plain text `t`: it shows `t`,
/// and without colour it is `t`.
pub open spec fn renders(config: Config, r: Seq<char>, t: Seq<char>) -> bool {
    shows(r, t) && (!config.color ==> r == t)
}

/// Lines rendered under `config` for the plain lines `ts`: as many, each
/// showing its plain line, and without colour they are `ts`.
pub open spec fn renders_lines(config: Config, rs: Seq<Seq<char>>, ts: Seq<Seq<char>>) -> bool {
    shows_lines(rs, ts) && (!config.color ==> rs == ts)
}

/// Two rendered pieces one after the other render their texts one after
/// the other.
pub fn glue(config: Config, a: &str, Ghost(ta): Ghost<Seq<char>>, b: &str, Ghost(tb): Ghost<Seq<char>>) -> (r: String)
    requires
        renders(config, a@, ta),
        renders(config, b@, tb),
    ensures
        r@ == a@ + b@,
        renders(config, r@, ta + tb),
{
    proof {
        lemma_shows_concat(a@, ta, b@, tb);
    }
    crate::text::concat(a, b)
}

/// A rendered piece followed by plain text.
pub fn glue_text(config: Config, a: &str, Ghost(ta): Ghost<Seq<char>>, b: &str) -> (r: String)
    requires
        renders(config, a@, ta),
    ensures
        r@ == a@ + b@,
        renders(config, r@, ta + b@),
{
    proof {
        lemma_shows_itself(b@);
    }
    glue(config, a, Ghost(ta), b, Ghost(b@))
}

/// Plain text followed by a rendered piece.
pub fn text_glue(config: Config, a: &str, b: &str, Ghost(tb): Ghost<Seq<char>>) -> (r: String)
    requires
        renders(config, b@, tb),
    ensures
        r@ == a@ + b@,
        renders(config, r@, a@ + tb),
{
    proof {
        lemma_shows_itself(a@);
    }
    glue(config, a, Ghost(a@), b, Ghost(tb))
}

/// Lines being rendered, with the plain lines they show.
pub struct Rendered {
    pub lines: Vec<String>,
    pub plain: Ghost<Seq<Seq<char>>>,
}

impl Rendered {
    pub open spec fn fits(&self, config: Config) -> bool {
        renders_lines(config, crate::text::strs(self.lines@), self.plain@)
    }

    pub fn new(config: Config) -> (r: Rendered)
        ensures
            r.fits(config),
            r.plain@ == Seq::<Seq<char>>::empty(),
    {
        let r = Rendered { lines: Vec::new(), plain: Ghost(Seq::empty()) };
        assert(crate::text::strs(r.lines@) =~= Seq::<Seq<char>>::empty());
        r
    }

    /// Adds a line that renders the plain line `t`.
    pub fn push(&mut self, config: Config, line: String, Ghost(t): Ghost<Seq<char>>)
        requires
            old(self).fits(config),
            renders(config, line@, t),
        ensures
            final(self).fits(config),
            final(self).plain@ == old(self).plain@.push(t),
    {
        let ghost before = self.lines@;
        self.lines.push(line);
        self.plain = Ghost(self.plain@.push(t));
        proof {
            crate::text::lemma_strs_push(before, line);
            lemma_renders_lines_push(config, crate::text::strs(before), old(self).plain@, line@, t);
        }
    }

    /// Adds a line of plain text, the same under any configuration.
    pub fn push_text(&mut self, config: Config, line: String)
        requires
            old(self).fits(config),
        ensures
            final(self).fits(config),
            final(self).plain@ == old(self).plain@.push(line@),
    {
        proof {
            lemma_renders_plain(config, line@);
        }
        self.push(config, line, Ghost(line@));
    }

    /// Adds lines that render the plain lines `ts`.
    pub fn append(&mut self, config: Config, lines: Vec<String>, Ghost(ts): Ghost<Seq<Seq<char>>>)
        requires
            old(self).fits(config),
            renders_lines(config, crate::text::strs(lines@), ts),
        ensures
            final(self).fits(config),
            final(self).plain@ == old(self).plain@ + ts,
    {
        let ghost before = self.lines@;
        let ghost added = lines@;
        let mut lines = lines;
        self.lines.append(&mut lines);
        self.plain = Ghost(self.plain@ + ts);
        proof {
            assert(crate::text::strs(self.lines@) =~= crate::text::strs(before) + crate::text::strs(added));
            lemma_renders_lines_add(config, crate::text::strs(before), old(self).plain@, crate::text::strs(added), ts);
        }
    }
}

pub proof fn lemma_whole_add(a: Seq<(bool, Seq<char>)>, b: Seq<(bool, Seq<char>)>)
    ensures
        whole(a + b) == whole(a) + whole(b),
        text_part(a + b) == text_part(a) + text_part(b),
    decreases b.len(),
{
    if b.len() == 0 {
        assert(a + b =~= a);
    } else {
        lemma_whole_add(a, b.drop_last());
        assert((a + b).drop_last() =~= a + b.drop_last());
        assert((a + b).last() == b.last());
    }
}

proof fn lemma_single(p: (bool, Seq<char>))
    ensures
        whole(seq![p]) == p.1,
        text_part(seq![p]) == (if p.0 {
            Seq::empty()
        } else {
            p.1
        }),
{
    let e = Seq::<(bool, Seq<char>)>::empty();
    assert(whole(e) == Seq::<char>::empty());
    assert(text_part(e) == Seq::<char>::empty());
    assert(seq![p].drop_last() =~= e);
    assert(seq![p].last() == p);
    assert(whole(seq![p]) == whole(e) + p.1);
    assert(Seq::<char>::empty() + p.1 =~= p.1);
    assert(Seq::<char>::empty() + Seq::<char>::empty() =~= Seq::<char>::empty());
}

/// Pieces that are all styling hold no text.
proof fn lemma_no_text(ps: Seq<(bool, Seq<char>)>)
    requires
        forall|i: int| 0 <= i < ps.len() ==> (#[trigger] ps[i]).0,
    ensures
        text_part(ps) == Seq::<char>::empty(),
    decreases ps.len(),
{
    if ps.len() > 0 {
        assert forall|i: int| 0 <= i < ps.drop_last().len() implies (#[trigger] ps.drop_last()[i]).0 by {
            assert(ps.drop_last()[i] == ps[i]);
        }
        lemma_no_text(ps.drop_last());
        assert(ps[ps.len() - 1].0);
        assert(Seq::<char>::empty() + Seq::<char>::empty() =~= Seq::<char>::empty());
    }
}

pub proof fn lemma_shows_itself(t: Seq<char>)
    ensures
        shows(t, t),
{
    let ps = seq![(false, t)];
    lemma_single((false, t));
    assert(styled_pieces(ps));
}

/// Padding shows no text.
pub proof fn lemma_shows_nothing(r: Seq<char>)
    requires
        padding(r),
    ensures
        shows(r, Seq::empty()),
{
    let ps = seq![(true, r)];
    lemma_single((true, r));
    assert(styled_pieces(ps));
}

/// Padding appended after a shown piece leaves it shown.
pub proof fn lemma_shows_extended(x: Seq<char>, t: Seq<char>, more: Seq<char>)
    requires
        shows(x, t),
        padding(more),
    ensures
        shows(x + more, t),
{
    lemma_shows_nothing(more);
    lemma_shows_concat(x, t, more, Seq::empty());
    assert(t + Seq::<char>::empty() =~= t);
}

/// Lines joined by a separator show their texts joined by it.
pub proof fn lemma_shows_join(rs: Seq<Seq<char>>, ts: Seq<Seq<char>>, sep: Seq<char>)
    requires
        shows_lines(rs, ts),
    ensures
        shows(crate::text::join(rs, sep), crate::text::join(ts, sep)),
    decreases rs.len(),
{
    if rs.len() == 0 {
        lemma_shows_itself(Seq::empty());
    } else if rs.len() == 1 {
        assert(shows(rs[0], ts[0]));
    } else {
        assert(shows_lines(rs.drop_last(), ts.drop_last())) by {
            assert forall|i: int| 0 <= i < rs.drop_last().len() implies shows(#[trigger] rs.drop_last()[i], ts.drop_last()[i]) by {
                assert(rs.drop_last()[i] == rs[i]);
                assert(ts.drop_last()[i] == ts[i]);
            }
        }
        lemma_shows_join(rs.drop_last(), ts.drop_last(), sep);
        lemma_shows_itself(sep);
        assert(shows(rs.last(), ts.last())) by {
            assert(rs.last() == rs[rs.len() - 1]);
        }
        lemma_shows_concat3(crate::text::join(rs.drop_last(), sep), crate::text::join(ts.drop_last(), sep), sep, sep, rs.last(), ts.last());
    }
}

/// Text between two runs of escape codes shows the text.
pub proof fn lemma_shows_wrapped(p: Seq<char>, t: Seq<char>, q: Seq<char>)
    requires
        code_run(p),
        code_run(q),
    ensures
        shows(p + t + q, t),
{
    let pp = choose|ps: Seq<(bool, Seq<char>)>|
        #[trigger] whole(ps) == p && forall|i: int| 0 <= i < ps.len() ==> (#[trigger] ps[i]).0 && escape_code(ps[i].1);
    let qq = choose|ps: Seq<(bool, Seq<char>)>|
        #[trigger] whole(ps) == q && forall|i: int| 0 <= i < ps.len() ==> (#[trigger] ps[i]).0 && escape_code(ps[i].1);
    lemma_no_text(pp);
    lemma_no_text(qq);
    let mid = seq![(false, t)];
    lemma_single((false, t));
    lemma_whole_add(pp, mid);
    lemma_whole_add(pp + mid, qq);
    let ps = pp + mid + qq;
    assert(Seq::<char>::empty() + t + Seq::<char>::empty() =~= t);
    assert forall|i: int| 0 <= i < ps.len() && (#[trigger] ps[i]).0 implies styling(ps[i].1) by {
        if i < pp.len() {
            assert(ps[i] == pp[i]);
        } else if i == pp.len() {
            assert(ps[i] == mid[0]);
        } else {
            assert(ps[i] == qq[i - pp.len() - 1]);
        }
    }
}

pub proof fn lemma_shows_concat(a: Seq<char>, x: Seq<char>, b: Seq<char>, y: Seq<char>)
    requires
        shows(a, x),
        shows(b, y),
    ensures
        shows(a + b, x + y),
{
    let pa = choose|ps: Seq<(bool, Seq<char>)>| #[trigger] whole(ps) == a && text_part(ps) == x && styled_pieces(ps);
    let pb = choose|ps: Seq<(bool, Seq<char>)>| #[trigger] whole(ps) == b && text_part(ps) == y && styled_pieces(ps);
    lemma_whole_add(pa, pb);
    let ps = pa + pb;
    assert forall|i: int| 0 <= i < ps.len() && (#[trigger] ps[i]).0 implies styling(ps[i].1) by {
        if i < pa.len() {
            assert(ps[i] == pa[i]);
        } else {
            assert(ps[i] == pb[i - pa.len()]);
        }
    }
}

/// Three pieces shown one after another.
pub proof fn lemma_shows_concat3(a: Seq<char>, x: Seq<char>, b: Seq<char>, y: Seq<char>, c: Seq<char>, z: Seq<char>)
    requires
        shows(a, x),
        shows(b, y),
        shows(c, z),
    ensures
        shows(a + b + c, x + y + z),
{
    lemma_shows_concat(a, x, b, y);
    lemma_shows_concat(a + b, x + y, c, z);
}

pub proof fn lemma_shows_lines_itself(ts: Seq<Seq<char>>)
    ensures
        shows_lines(ts, ts),
{
    assert forall|i: int| 0 <= i < ts.len() implies shows(#[trigger] ts[i], ts[i]) by {
        lemma_shows_itself(ts[i]);
    }
}

/// Two lists that differ only in their first line, which shows the other's.
pub proof fn lemma_shows_lines_first(r: Seq<char>, t: Seq<char>, rest: Seq<Seq<char>>)
    requires
        shows(r, t),
    ensures
        shows_lines(seq![r] + rest, seq![t] + rest),
{
    lemma_shows_lines_itself(rest);
    assert(shows_lines(seq![r], seq![t]));
    lemma_shows_lines_add(seq![r], seq![t], rest, rest);
}

pub proof fn lemma_shows_lines_push(rs: Seq<Seq<char>>, ts: Seq<Seq<char>>, r: Seq<char>, t: Seq<char>)
    requires
        shows_lines(rs, ts),
        shows(r, t),
    ensures
        shows_lines(rs.push(r), ts.push(t)),
{
    assert forall|i: int| 0 <= i < rs.push(r).len() implies shows(#[trigger] rs.push(r)[i], ts.push(t)[i]) by {
        if i < rs.len() {
            assert(rs.push(r)[i] == rs[i]);
            assert(ts.push(t)[i] == ts[i]);
        }
    }
}

pub proof fn lemma_shows_lines_add(rs: Seq<Seq<char>>, ts: Seq<Seq<char>>, rs2: Seq<Seq<char>>, ts2: Seq<Seq<char>>)
    requires
        shows_lines(rs, ts),
        shows_lines(rs2, ts2),
    ensures
        shows_lines(rs + rs2, ts + ts2),
{
    assert forall|i: int| 0 <= i < (rs + rs2).len() implies shows(#[trigger] (rs + rs2)[i], (ts + ts2)[i]) by {
        if i < rs.len() {
            assert((rs + rs2)[i] == rs[i]);
            assert((ts + ts2)[i] == ts[i]);
        } else {
            assert((rs + rs2)[i] == rs2[i - rs.len()]);
            assert((ts + ts2)[i] == ts2[i - rs.len()]);
        }
    }
}

pub proof fn lemma_renders_lines_push(config: Config, rs: Seq<Seq<char>>, ts: Seq<Seq<char>>, r: Seq<char>, t: Seq<char>)
    requires
        renders_lines(config, rs, ts),
        renders(config, r, t),
    ensures
        renders_lines(config, rs.push(r), ts.push(t)),
{
    lemma_shows_lines_push(rs, ts, r, t);
}

pub proof fn lemma_renders_lines_add(config: Config, rs: Seq<Seq<char>>, ts: Seq<Seq<char>>, rs2: Seq<Seq<char>>, ts2: Seq<Seq<char>>)
    requires
        renders_lines(config, rs, ts),
        renders_lines(config, rs2, ts2),
    ensures
        renders_lines(config, rs + rs2, ts + ts2),
{
    lemma_shows_lines_add(rs, ts, rs2, ts2);
}

pub proof fn lemma_renders_lines_empty(config: Config)
    ensures
        renders_lines(config, Seq::empty(), Seq::empty()),
{
}

/// A line that is its own text renders it under any configuration.
pub proof fn lemma_renders_plain(config: Config, t: Seq<char>)
    ensures
        renders(config, t, t),
{
    lemma_shows_itself(t);
}

/// `text` in the style of `kind`; plain output is `text` itself.
pub fn label(config: Config, text: &str, kind: LabelKind) -> (r: String)
    ensures
        renders(config, r@, text@),
{
    if !config.color {
        proof {
            lemma_shows_itself(text@);
        }
        return text.to_owned();
    }
    let s = new_style();
    let styled = match kind {
        LabelKind::Status => bold(cyan(s)),
        LabelKind::Pass => bold(green(s)),
        LabelKind::SecondaryOk => dim(green(s)),
        LabelKind::Warn => bold(yellow(s)),
        LabelKind::Error => bold(red(s)),
        LabelKind::Hint => dim(s),
        LabelKind::Why => bold(magenta(s)),
        LabelKind::Debug => bold(magenta(s)),
        LabelKind::Command => green(s),
    };
    let r = render_styled(&styled, text.to_owned());
    proof {
        let (p, q) = choose|p: Seq<char>, q: Seq<char>| r@ == p + text@ + q && code_run(p) && code_run(q);
        lemma_shows_wrapped(p, text@, q);
    }
    r
}

/// The index and character of the first quote or backtick in `text[from..]`.
pub fn next_inline_delimiter(text: &Vec<char>, from: usize) -> (r: Option<(usize, char)>)
    requires
        from <= text.len(),
    ensures
        r matches Some((i, d)) ==> from <= i < text.len() && d == text@[i as int] && (d == '\''
            || d == '`') && forall|j: int| from <= j < i ==> text@[j] != '\'' && text@[j] != '`',
        r is None ==> forall|j: int| from <= j < text.len() ==> text@[j] != '\'' && text@[j] != '`',
{
    let mut i = from;
    while i < text.len()
        invariant
            from <= i <= text.len(),
            forall|j: int| from <= j < i ==> text@[j] != '\'' && text@[j] != '`',
        decreases text.len() - i,
    {
        if text[i] == '\'' || text[i] == '`' {
            return Some((i, text[i]));
        }
        i = i + 1;
    }
    None
}

/// Inline code in a message (between quotes or backticks) is shown in the
/// command style; plain output is the message itself.
pub fn inline(config: Config, text: &str) -> (r: String)
    ensures
        renders(config, r@, text@),
{
    if !config.color {
        proof {
            lemma_shows_itself(text@);
        }
        return text.to_owned();
    }
    let v = chars_of(text);
    let mut out: Vec<char> = Vec::new();
    let mut rest: usize = 0;
    proof {
        lemma_shows_itself(Seq::<char>::empty());
        assert(v@.take(0) =~= Seq::<char>::empty());
    }
    while rest < v.len()
        invariant
            rest <= v.len(),
            config.color,
            v@ == text@,
            shows(out@, v@.take(rest as int)),
        decreases v.len() - rest,
    {
        match next_inline_delimiter(&v, rest) {
            Some((index, delimiter)) => {
                let before = crate::text::slice(&v, rest, index);
                let ghost o1 = out@;
                append_chars(&mut out, &before);
                proof {
                    lemma_shows_itself(before@);
                    lemma_shows_concat(o1, v@.take(rest as int), before@, before@);
                    assert(v@.take(rest as int) + before@ =~= v@.take(index as int));
                }
                match next_inline_delimiter_of(&v, index + 1, delimiter) {
                    Some(end) => {
                        let mut code = vec![delimiter];
                        append_chars(&mut code, &crate::text::slice(&v, index + 1, end));
                        code.push(delimiter);
                        assert(code@ =~= v@.subrange(index as int, end + 1));
                        let styled = label(config, string_of(&code).as_str(), LabelKind::Command);
                        let ghost o2 = out@;
                        append_str(&mut out, styled.as_str());
                        proof {
                            lemma_shows_concat(o2, v@.take(index as int), styled@, code@);
                            assert(v@.take(index as int) + code@ =~= v@.take(end + 1));
                        }
                        rest = end + 1;
                    },
                    None => {
                        let tail = crate::text::slice(&v, index, v.len());
                        let ghost o2 = out@;
                        append_chars(&mut out, &tail);
                        proof {
                            lemma_shows_itself(tail@);
                            lemma_shows_concat(o2, v@.take(index as int), tail@, tail@);
                            assert(v@.take(index as int) + tail@ =~= text@);
                        }
                        return string_of(&out);
                    },
                }
            },
            None => {
                let tail = crate::text::slice(&v, rest, v.len());
                let ghost o1 = out@;
                append_chars(&mut out, &tail);
                proof {
                    lemma_shows_itself(tail@);
                    lemma_shows_concat(o1, v@.take(rest as int), tail@, tail@);
                    assert(v@.take(rest as int) + tail@ =~= text@);
                }
                return string_of(&out);
            },
        }
    }
    assert(v@.take(v.len() as int) =~= text@);
    string_of(&out)
}

/// The first index at or after `from` that holds `delimiter`.
fn next_inline_delimiter_of(text: &Vec<char>, from: usize, delimiter: char) -> (r: Option<usize>)
    requires
        from <= text.len(),
    ensures
        r matches Some(i) ==> from <= i < text.len() && text@[i as int] == delimiter,
{
    let mut i = from;
    while i < text.len()
        invariant
            from <= i <= text.len(),
        decreases text.len() - i,
    {
        if text[i] == delimiter {
            return Some(i);
        }
        i = i + 1;
    }
    None
}

/// A status line: the phase before `: ` in the status style, the rest
/// inline. Plain output is the message itself.
pub fn status_message(config: Config, message: &str) -> (r: String)
    ensures
        renders(config, r@, message@),
{
    let v = chars_of(message);
    match crate::text::split_once_str(&v, ": ") {
        Some((phase, rest)) => {
            proof {
                reveal_strlit(": ");
                lemma_find_from(message@, ": "@, 0);
                let m = message@;
                let i = crate::text::find(m, ": "@)->0;
                assert(m.subrange(i, i + 2) == seq![':', ' ']);
                assert(m.subrange(i, i + 2)[0] == m[i]);
                assert(m.subrange(i, i + 2)[1] == m[i + 1]);
                assert(m =~= m.take(i) + seq![':'] + seq![' '] + m.skip(i + 2));
            }
            let mut head = phase;
            head.push(':');
            let shown_head = label(config, string_of(&head).as_str(), LabelKind::Status);
            let mut out = chars_of(shown_head.as_str());
            out.push(' ');
            let shown_rest = inline(config, string_of(&rest).as_str());
            append_str(&mut out, shown_rest.as_str());
            proof {
                lemma_shows_itself(seq![' ']);
                lemma_shows_concat3(shown_head@, head@, seq![' '], seq![' '], shown_rest@, rest@);
                assert(shown_head@ + seq![' '] + shown_rest@ =~= out@);
                assert(head@ + seq![' '] + rest@ =~= message@);
            }
            string_of(&out)
        },
        None => inline(config, message),
    }
}

/// The number of terminal columns a text takes, as
/// `console::measure_text_width` counts them.
pub uninterp spec fn text_width(s: Seq<char>) -> nat;

/// Printable ASCII only (space to `~`).
pub open spec fn printable_ascii(s: Seq<char>) -> bool {
    forall|i: int| 0 <= i < s.len() ==> ' ' <= #[trigger] s[i] <= '~'
}

/// `console::measure_text_width`: a function of the text alone, which for
/// printable ASCII is its length (the crate returns the byte length then).
#[verifier::external_body]
fn measure_text_width(s: &str) -> (r: usize)
    ensures
        r == text_width(s@),
        printable_ascii(s@) ==> r == s@.len(),
{
    console::measure_text_width(s)
}

/// `n` spaces.
pub open spec fn spaces(n: nat) -> Seq<char> {
    Seq::new(n, |i: int| ' ')
}

/// The text followed by spaces up to `width` columns.
pub fn pad_display(value: String, width: usize) -> (r: String)
    ensures
        r@ == value@ + spaces(
            (if width >= text_width(value@) {
                width - text_width(value@)
            } else {
                0
            }) as nat,
        ),
{
    let used = measure_text_width(value.as_str());
    let padding = width.saturating_sub(used);
    let mut out = chars_of(value.as_str());
    let ghost start = out@;
    let mut i: usize = 0;
    while i < padding
        invariant
            i <= padding,
            out@ == start + spaces(i as nat),
        decreases padding - i,
    {
        out.push(' ');
        assert(spaces((i + 1) as nat) =~= spaces(i as nat).push(' '));
        i = i + 1;
    }
    string_of(&out)
}

/// An elapsed time as robo shows it, where whole numbers decide the text:
/// under a second, the milliseconds (`42ms`); a minute or more, the minutes
/// and seconds (`2m 5s`). From one second to a minute it is shown with one
/// decimal of seconds, which floating-point formatting decides: `None`.
pub open spec fn duration_text(secs: nat, nanos: nat) -> Option<Seq<char>> {
    if secs == 0 {
        Some(crate::text::decimal(nanos / 1_000_000) + "ms"@)
    } else if secs < 60 {
        None
    } else {
        Some(crate::text::decimal(secs / 60) + "m "@ + crate::text::decimal(secs % 60) + "s"@)
    }
}

/// The text of an elapsed time of `secs` seconds and `nanos` nanoseconds,
/// where it does not depend on floating-point formatting.
pub fn human_duration_text(secs: u64, nanos: u32) -> (r: Option<String>)
    requires
        nanos < 1_000_000_000,
    ensures
        match r {
            Some(t) => duration_text(secs as nat, nanos as nat) == Some(t@),
            None => duration_text(secs as nat, nanos as nat) is None,
        },
{
    if secs == 0 {
        let mut out = crate::text::decimal_chars((nanos / 1_000_000) as u64);
        append_str(&mut out, "ms");
        Some(string_of(&out))
    } else if secs < 60 {
        None
    } else {
        let mut out = crate::text::decimal_chars(secs / 60);
        append_str(&mut out, "m ");
        let rest = crate::text::decimal_chars(secs % 60);
        append_chars(&mut out, &rest);
        append_str(&mut out, "s");
        Some(string_of(&out))
    }
}

} // verus!
