//! The lines `robo check` prints: a tag, then the message. Each function
//! returns its lines; counting warnings and issues is part of reporting one.
use vstd::prelude::*;
use crate::text::{append_str, chars_of, lines, lines_str, string_of, strs, views};
use crate::ui::{
    label, lemma_renders_lines_push, lemma_renders_plain, lemma_shows_concat, lemma_shows_concat3,
    lemma_shows_itself, renders, renders_lines, Config, LabelKind,
};

verus! {

/// `TAG MESSAGE` in plain output.
pub open spec fn plain_line(tag: Seq<char>, message: Seq<char>) -> Seq<char> {
    tag + " "@ + message
}

pub fn check_line(config: Config, tag: &str, kind: LabelKind, message: &str) -> (r: String)
    ensures
        renders(config, r@, plain_line(tag@, message@)),
{
    let shown_tag = label(config, tag, kind);
    let mut out = chars_of(shown_tag.as_str());
    out.push(' ');
    let shown = crate::ui::inline(config, message);
    append_str(&mut out, shown.as_str());
    proof {
        reveal_strlit(" ");
        lemma_shows_itself(" "@);
        assert(out@ =~= shown_tag@ + " "@ + shown@);
        lemma_shows_concat3(shown_tag@, tag@, " "@, " "@, shown@, message@);
    }
    string_of(&out)
}

pub fn check_ok(config: Config, message: &str) -> (r: String)
    ensures
        renders(config, r@, plain_line("ok:"@, message@)),
{
    check_line(config, "ok:", LabelKind::Pass, message)
}

/// A warning line; the count of warnings goes up by one.
pub fn check_warn(config: Config, warnings: &mut usize, message: &str) -> (r: String)
    requires
        *old(warnings) < usize::MAX,
    ensures
        *final(warnings) == *old(warnings) + 1,
        renders(config, r@, plain_line("warn:"@, message@)),
{
    *warnings = *warnings + 1;
    check_line(config, "warn:", LabelKind::Warn, message)
}

/// The tag of a line that names its diagnosis: `warn[ID]:` or
/// `error[ID]:`, the form `robo diagnose` reads back.
pub open spec fn diag_tag(severity: Seq<char>, id: Seq<char>) -> Seq<char> {
    severity + "["@ + id + "]:"@
}

/// A warning line naming its diagnosis; the count of warnings goes up by
/// one.
pub fn check_warn_diag(config: Config, warnings: &mut usize, id: &str, message: &str) -> (r: String)
    requires
        *old(warnings) < usize::MAX,
    ensures
        *final(warnings) == *old(warnings) + 1,
        renders(config, r@, plain_line(diag_tag("warn"@, id@), message@)),
{
    *warnings = *warnings + 1;
    let tag = crate::text::concat4("warn", "[", id, "]:");
    check_line(config, tag.as_str(), LabelKind::Warn, message)
}

/// An error line naming its diagnosis; the count of issues goes up by one.
pub fn check_error_diag(config: Config, issues: &mut usize, id: &str, message: &str) -> (r: String)
    requires
        *old(issues) < usize::MAX,
    ensures
        *final(issues) == *old(issues) + 1,
        renders(config, r@, plain_line(diag_tag("error"@, id@), message@)),
{
    *issues = *issues + 1;
    let tag = crate::text::concat4("error", "[", id, "]:");
    check_line(config, tag.as_str(), LabelKind::Error, message)
}

/// An error line; the count of issues goes up by one.
pub fn check_error(config: Config, issues: &mut usize, message: &str) -> (r: String)
    requires
        *old(issues) < usize::MAX,
    ensures
        *final(issues) == *old(issues) + 1,
        renders(config, r@, plain_line("error:"@, message@)),
{
    *issues = *issues + 1;
    check_line(config, "error:", LabelKind::Error, message)
}

/// The hint lines of a message: one `hint:` line per line of it.
pub open spec fn plain_hints(message: Seq<char>) -> Seq<Seq<char>> {
    lines(message).map_values(|line: Seq<char>| plain_line("hint:"@, line))
}

pub fn check_hint(config: Config, message: &str) -> (r: Vec<String>)
    ensures
        renders_lines(config, strs(r@), plain_hints(message@)),
{
    let parts = lines_str(message);
    let ghost pv = views(parts@);
    let mut out: Vec<String> = Vec::new();
    let mut i: usize = 0;
    assert(strs(out@) =~= Seq::<Seq<char>>::empty());
    assert(pv.take(0).map_values(|line: Seq<char>| plain_line("hint:"@, line)) =~= Seq::<Seq<char>>::empty());
    while i < parts.len()
        invariant
            i <= parts.len(),
            pv == views(parts@),
            pv == lines(message@),
            renders_lines(config, strs(out@), pv.take(i as int).map_values(
                |line: Seq<char>| plain_line("hint:"@, line),
            )),
        decreases parts.len() - i,
    {
        let line = check_line(config, "hint:", LabelKind::Hint, string_of(&parts[i]).as_str());
        let ghost before = out@;
        out.push(line);
        proof {
            assert(strs(out@) =~= strs(before).push(line@));
            assert(pv.take(i + 1).map_values(|line: Seq<char>| plain_line("hint:"@, line))
                =~= pv.take(i as int).map_values(
                |line: Seq<char>| plain_line("hint:"@, line),
            ).push(plain_line("hint:"@, pv[i as int])));
            assert(parts@[i as int]@ == pv[i as int]);
            lemma_renders_lines_push(
                config,
                strs(before),
                pv.take(i as int).map_values(|line: Seq<char>| plain_line("hint:"@, line)),
                line@,
                plain_line("hint:"@, pv[i as int]),
            );
        }
        i = i + 1;
    }
    assert(pv.take(parts.len() as int) == pv);
    out
}

pub fn check_why(config: Config, message: &str) -> (r: String)
    ensures
        renders(config, r@, plain_line("why:"@, message@)),
{
    check_line(config, "why:", LabelKind::Why, message)
}

/// An item under a `why:` line, indented.
pub fn check_why_item(config: Config, message: &str) -> (r: String)
    ensures
        renders(config, r@, "  "@ + message@),
{
    let mut out = chars_of("  ");
    let shown = crate::ui::inline(config, message);
    append_str(&mut out, shown.as_str());
    proof {
        lemma_shows_itself("  "@);
        lemma_shows_concat("  "@, "  "@, shown@, message@);
    }
    string_of(&out)
}

pub fn check_next(config: Config, message: &str) -> (r: String)
    ensures
        renders(config, r@, plain_line("next:"@, message@)),
{
    check_line(config, "next:", LabelKind::Status, message)
}

/// A `name=value` field, or a heading when the message holds no `=`.
pub fn check_field(config: Config, message: &str) -> (r: String)
    ensures
        renders(config, r@, message@),
{
    let v = chars_of(message);
    match crate::text::split_once_str(&v, "=") {
        Some((name, value)) => {
            proof {
                reveal_strlit("=");
                crate::text::lemma_find_from(message@, "="@, 0);
                let i = crate::text::find(message@, "="@)->0;
                assert(message@.subrange(i, i + 1) == seq!['=']);
                assert(message@.subrange(i, i + 1)[0] == message@[i]);
                assert(message@ =~= message@.take(i) + seq!['='] + message@.skip(i + 1));
            }
            let shown = label(config, string_of(&name).as_str(), LabelKind::Hint);
            let mut out = chars_of(shown.as_str());
            out.push('=');
            crate::text::append_chars(&mut out, &value);
            proof {
                lemma_shows_itself(seq!['=']);
                lemma_shows_itself(value@);
                lemma_shows_concat3(shown@, name@, seq!['='], seq!['='], value@, value@);
                assert(out@ =~= shown@ + seq!['='] + value@);
                assert(name@ + seq!['='] + value@ =~= message@);
            }
            string_of(&out)
        },
        None => label(config, message, LabelKind::Status),
    }
}

/// The closing status line: `status=STATUS`, the issues when there are
/// any, and the warnings.
pub open spec fn plain_status(status: Seq<char>, issues: nat, warnings: nat) -> Seq<char> {
    "status="@ + status + (if issues > 0 {
        " issues="@ + crate::text::decimal(issues)
    } else {
        Seq::empty()
    }) + " warnings="@ + crate::text::decimal(warnings)
}

pub fn check_status(
    config: Config,
    status: &str,
    status_kind: LabelKind,
    issues: usize,
    warnings: usize,
) -> (r: String)
    ensures
        renders(config, r@, plain_status(status@, issues as nat, warnings as nat)),
{
    proof {
        reveal_strlit(" issues=");
        reveal_strlit("issues=");
        reveal_strlit(" warnings=");
        reveal_strlit("warnings=");
        reveal_strlit(" ");
        lemma_shows_itself(" "@);
    }
    let a = label(config, "status=", LabelKind::Hint);
    let b = label(config, status, status_kind);
    let mut out = chars_of(a.as_str());
    append_str(&mut out, b.as_str());
    let ghost head = out@;
    proof {
        lemma_shows_concat(a@, "status="@, b@, status@);
    }
    let ghost mut plain: Seq<char> = "status="@ + status@;
    if issues > 0 {
        let ghost before = out@;
        out.push(' ');
        let c = label(config, "issues=", LabelKind::Hint);
        append_str(&mut out, c.as_str());
        let n = crate::text::decimal_string(issues as u64);
        let d = label(config, n.as_str(), LabelKind::Error);
        append_str(&mut out, d.as_str());
        proof {
            lemma_shows_concat3(" "@, " "@, c@, "issues="@, d@, n@);
            lemma_shows_concat(before, plain, " "@ + c@ + d@, " "@ + "issues="@ + n@);
            assert(out@ =~= before + (" "@ + c@ + d@));
            plain = plain + (" "@ + "issues="@ + n@);
        }
    }
    let ghost with_issues = out@;
    let ghost before = out@;
    out.push(' ');
    let e = label(config, "warnings=", LabelKind::Hint);
    append_str(&mut out, e.as_str());
    let w = crate::text::decimal_string(warnings as u64);
    let f = label(config, w.as_str(), LabelKind::Warn);
    append_str(&mut out, f.as_str());
    proof {
        lemma_shows_concat3(" "@, " "@, e@, "warnings="@, f@, w@);
        lemma_shows_concat(before, plain, " "@ + e@ + f@, " "@ + "warnings="@ + w@);
        assert(out@ =~= before + (" "@ + e@ + f@));
        assert(plain + (" "@ + "warnings="@ + w@) =~= plain_status(status@, issues as nat, warnings as nat));
        if !config.color {
            assert(with_issues =~= head + (if issues > 0 {
                " issues="@ + crate::text::decimal(issues as nat)
            } else {
                Seq::empty()
            }));
            assert(out@ =~= plain_status(status@, issues as nat, warnings as nat));
        }
    }
    string_of(&out)
}

} // verus!
