//! The project shell's environment: the progress tree shown while Nix
//! builds it, the variables it exports, and the cache it is kept in.
use vstd::prelude::*;
use crate::text::{
    append_chars, append_str, chars_of, eq_str, is_ws, lossy_decoded, lossy_utf8, rsplit_once,
    rsplit_once_str, starts_with_str, string_of, strip_prefix, strip_prefix_str, strip_suffix,
    strip_suffix_str, trim, trim_ws, Sep, is_prefix, is_suffix, ends_with_str,
};
use crate::ui::{glue, glue_text, label, pad_display, spaces, text_glue, text_width, Config, LabelKind};

verus! {

// ---------------------------------------------------------------------
// Progress details from Nix's stderr
// ---------------------------------------------------------------------

/// The part of a progress line after its last carriage return: what a
/// terminal would show of it.
pub open spec fn after_last_cr(s: Seq<char>) -> Seq<char> {
    match rsplit_once(s, "\r"@) {
        Some((_, rest)) => rest,
        None => s,
    }
}

/// `char::is_control`: the C0 and C1 control codes and DEL.
pub open spec fn is_control(c: char) -> bool {
    ('\u{0}' <= c && c <= '\u{1f}') || ('\u{7f}' <= c && c <= '\u{9f}')
}

/// The text without its control characters.
pub open spec fn drop_control(s: Seq<char>) -> Seq<char>
    decreases s.len(),
{
    if s.len() == 0 {
        Seq::empty()
    } else if is_control(s.last()) {
        drop_control(s.drop_last())
    } else {
        drop_control(s.drop_last()).push(s.last())
    }
}

/// The most characters a progress detail line shows.
pub const MAX_DETAIL_CHARS: usize = 110;

/// A detail longer than the limit keeps its first 109 characters and ends
/// in an ellipsis.
pub open spec fn truncated(detail: Seq<char>) -> Seq<char> {
    if detail.len() <= MAX_DETAIL_CHARS {
        detail
    } else {
        detail.take(MAX_DETAIL_CHARS - 1).push('…')
    }
}

pub fn truncate_progress_detail(detail: &str) -> (r: String)
    ensures
        r@ == truncated(detail@),
{
    let v = chars_of(detail);
    if v.len() <= MAX_DETAIL_CHARS {
        return detail.to_owned();
    }
    let mut out = crate::text::slice(&v, 0, MAX_DETAIL_CHARS - 1);
    out.push('…');
    assert(v@.subrange(0, MAX_DETAIL_CHARS - 1) == v@.take(MAX_DETAIL_CHARS - 1));
    string_of(&out)
}

/// The detail a line of Nix output contributes to the progress tree: the
/// visible part, trimmed and without control characters, unless it is empty
/// or one of the frequent `linking` and `evaluating file` lines.
pub open spec fn progress_detail(text: Seq<char>) -> Option<Seq<char>> {
    let detail = drop_control(trim(after_last_cr(text), Sep::Whitespace));
    if detail.len() == 0 || is_prefix("linking "@, detail) || is_prefix(
        "evaluating file '"@,
        detail,
    ) {
        None
    } else {
        Some(truncated(detail))
    }
}

fn visible_part(text: &Vec<char>) -> (r: Vec<char>)
    ensures
        r@ == trim(after_last_cr(text@), Sep::Whitespace),
{
    let after = match rsplit_once_str(text, "\r") {
        Some((_, rest)) => rest,
        None => crate::text::clone_chars(text),
    };
    trim_ws(&after)
}

fn without_control(s: &Vec<char>) -> (r: Vec<char>)
    ensures
        r@ == drop_control(s@),
{
    let mut out: Vec<char> = Vec::new();
    let mut i: usize = 0;
    while i < s.len()
        invariant
            i <= s.len(),
            out@ == drop_control(s@.take(i as int)),
        decreases s.len() - i,
    {
        assert(s@.take(i + 1).drop_last() == s@.take(i as int));
        let c = s[i];
        if !(('\u{0}' <= c && c <= '\u{1f}') || ('\u{7f}' <= c && c <= '\u{9f}')) {
            out.push(c);
        }
        i = i + 1;
    }
    assert(s@.take(s.len() as int) == s@);
    out
}

pub fn shell_env_progress_detail(bytes: &[u8]) -> (r: Option<String>)
    ensures
        match r {
            Some(d) => progress_detail(lossy_decoded(bytes@)) == Some(d@),
            None => progress_detail(lossy_decoded(bytes@)) is None,
        },
{
    let text = chars_of(lossy_utf8(bytes).as_str());
    let detail = without_control(&visible_part(&text));
    if detail.len() == 0 {
        return None;
    }
    if starts_with_str(&detail, "linking ") || starts_with_str(&detail, "evaluating file '") {
        return None;
    }
    Some(truncate_progress_detail(string_of(&detail).as_str()))
}

/// The `package.nix` file a line of `nix` output says it is evaluating.
pub open spec fn evaluated_package(text: Seq<char>) -> Option<Seq<char>> {
    match strip_prefix(trim(after_last_cr(text), Sep::Whitespace), "evaluating file '"@) {
        Some(rest) => match strip_suffix(rest, "'"@) {
            Some(path) => if is_suffix("/package.nix"@, path) {
                Some(path)
            } else {
                None
            },
            None => None,
        },
        None => None,
    }
}

pub fn nix_evaluated_package_path(bytes: &[u8]) -> (r: Option<String>)
    ensures
        match r {
            Some(p) => evaluated_package(lossy_decoded(bytes@)) == Some(p@),
            None => evaluated_package(lossy_decoded(bytes@)) is None,
        },
{
    let text = chars_of(lossy_utf8(bytes).as_str());
    let visible = visible_part(&text);
    let rest = strip_prefix_str(&visible, "evaluating file '")?;
    let path = strip_suffix_str(&rest, "'")?;
    if ends_with_str(&path, "/package.nix") {
        Some(string_of(&path))
    } else {
        None
    }
}

// ---------------------------------------------------------------------
// The progress tree
// ---------------------------------------------------------------------

/// The braille spinner frames, one per 80 ms.
pub open spec fn spinner_frames() -> Seq<Seq<char>> {
    seq!["⠋"@, "⠙"@, "⠹"@, "⠸"@, "⠼"@, "⠴"@, "⠦"@, "⠧"@, "⠇"@, "⠏"@]
}

/// The frame shown after `elapsed_millis` milliseconds.
pub fn active_spinner_for_elapsed(elapsed_millis: u64) -> (r: &'static str)
    ensures
        r@ == spinner_frames()[((elapsed_millis / 80) % 10) as int],
{
    let frame = (elapsed_millis / 80) % 10;
    if frame == 0 {
        "⠋"
    } else if frame == 1 {
        "⠙"
    } else if frame == 2 {
        "⠹"
    } else if frame == 3 {
        "⠸"
    } else if frame == 4 {
        "⠼"
    } else if frame == 5 {
        "⠴"
    } else if frame == 6 {
        "⠦"
    } else if frame == 7 {
        "⠧"
    } else if frame == 8 {
        "⠇"
    } else {
        "⠏"
    }
}

/// Columns given to the step name, the metadata, the duration and the
/// ready line.
pub const SHELL_STEP_WIDTH: usize = 34;
pub const SHELL_META_WIDTH: usize = 12;
pub const SHELL_DURATION_WIDTH: usize = 6;
pub const SHELL_READY_WIDTH: usize = 51;

/// The step a progress message names: without its `shell: ` phase.
pub open spec fn shell_step(message: Seq<char>) -> Seq<char> {
    match strip_prefix(message, "shell: "@) {
        Some(rest) => rest,
        None => message,
    }
}

pub fn display_shell_step(message: &str) -> (r: String)
    ensures
        r@ == shell_step(message@),
{
    let v = chars_of(message);
    match strip_prefix_str(&v, "shell: ") {
        Some(rest) => string_of(&rest),
        None => message.to_owned(),
    }
}

/// The note shown beside a step.
pub struct TreeMetadata {
    pub text: String,
    pub kind: LabelKind,
}

/// The step that evaluates and realizes the dev shell.
pub open spec fn evaluating_step() -> Seq<char> {
    "shell: evaluating and realizing dev shell"@
}

/// The kind a suffix is shown in.
pub open spec fn suffix_kind(suffix: Seq<char>) -> LabelKind {
    if suffix == "skipped"@ {
        LabelKind::Warn
    } else if suffix == "cached"@ {
        LabelKind::SecondaryOk
    } else {
        LabelKind::Hint
    }
}

/// The count of packages Nix evaluated during the evaluation step, else
/// the suffix a finished step was given.
pub fn tree_metadata(message: &str, suffix: Option<&str>, evaluated_packages: usize) -> (r: Option<
    TreeMetadata,
>)
    ensures
        evaluated_packages > 0 && message@ == evaluating_step() ==> r is Some && r->0.text@
            == crate::text::decimal(evaluated_packages as nat) + " packages"@ && r->0.kind
            == LabelKind::Status,
        !(evaluated_packages > 0 && message@ == evaluating_step()) ==> match suffix {
            Some(s) => r is Some && r->0.text@ == s@ && r->0.kind == suffix_kind(s@),
            None => r is None,
        },
{
    let v = chars_of(message);
    if evaluated_packages > 0 && eq_str(&v, "shell: evaluating and realizing dev shell") {
        let mut text = crate::text::decimal_chars(evaluated_packages as u64);
        append_str(&mut text, " packages");
        return Some(TreeMetadata { text: string_of(&text), kind: LabelKind::Status });
    }
    match suffix {
        Some(s) => {
            let sv = chars_of(s);
            let kind = if eq_str(&sv, "skipped") {
                LabelKind::Warn
            } else if eq_str(&sv, "cached") {
                LabelKind::SecondaryOk
            } else {
                LabelKind::Hint
            };
            Some(TreeMetadata { text: s.to_owned(), kind })
        },
        None => None,
    }
}

/// `format!("{:>width$}", text)`: right-aligned in `width` characters.
pub open spec fn right_aligned(text: Seq<char>, width: nat) -> Seq<char> {
    if text.len() >= width {
        text
    } else {
        spaces((width - text.len()) as nat) + text
    }
}

fn right_align(text: &str, width: usize) -> (r: String)
    ensures
        r@ == right_aligned(text@, width as nat),
{
    let v = chars_of(text);
    if v.len() >= width {
        return text.to_owned();
    }
    let mut out: Vec<char> = Vec::new();
    let mut i: usize = 0;
    while i < width - v.len()
        invariant
            v.len() < width,
            i <= width - v.len(),
            out@ == spaces(i as nat),
        decreases width - v.len() - i,
    {
        out.push(' ');
        assert(spaces((i + 1) as nat) =~= spaces(i as nat).push(' '));
        i = i + 1;
    }
    append_chars(&mut out, &v);
    string_of(&out)
}

/// Padding up to a width, as `pad_display` adds it.
pub open spec fn padded(value: Seq<char>, width: nat) -> Seq<char> {
    value + spaces(
        (if width >= text_width(value) {
            width - text_width(value)
        } else {
            0
        }) as nat,
    )
}

/// The columns of a step in plain output: the step name, its note and the
/// duration (as `human_duration` writes it), each padded to its column.
pub open spec fn plain_tree_fields(
    message: Seq<char>,
    metadata: Option<Seq<char>>,
    duration: Seq<char>,
) -> Seq<char> {
    tree_fields_text(message, metadata, duration, true)
}

/// `value`, padded to its column when `pad`. Styled, the padding goes by
/// the terminal width `console` measures, which is left unsaid; the text
/// itself stands.
pub open spec fn column(value: Seq<char>, width: nat, pad: bool) -> Seq<char> {
    if pad {
        padded(value, width)
    } else {
        value
    }
}

/// A step's columns: the step, its metadata and its duration; the step and
/// metadata padded to their columns when `pad` (plain output).
pub open spec fn tree_fields_text(
    message: Seq<char>,
    metadata: Option<Seq<char>>,
    duration: Seq<char>,
    pad: bool,
) -> Seq<char> {
    column(shell_step(message), SHELL_STEP_WIDTH as nat, pad) + " "@ + column(
        match metadata {
            Some(m) => m,
            None => Seq::empty(),
        },
        SHELL_META_WIDTH as nat,
        pad,
    ) + " "@ + right_aligned(duration, SHELL_DURATION_WIDTH as nat)
}

/// A rendered piece padded to a column shows its text padded when plain.
fn padded_piece(config: Config, value: String, Ghost(t): Ghost<Seq<char>>, width: usize) -> (r: String)
    requires
        crate::ui::renders(config, value@, t),
    ensures
        crate::ui::renders(config, r@, column(t, width as nat, !config.color)),
{
    let ghost v = value@;
    let r = pad_display(value, width);
    proof {
        let more = r@.skip(v.len() as int);
        assert(r@ =~= v + more);
        assert(crate::ui::padding(more));
        crate::ui::lemma_shows_extended(v, t, more);
        if !config.color {
            crate::ui::lemma_shows_itself(r@);
        }
    }
    r
}

pub open spec fn metadata_text(m: Option<TreeMetadata>) -> Option<Seq<char>> {
    match m {
        Some(t) => Some(t.text@),
        None => None,
    }
}

pub fn tree_fields(config: Config, message: &str, metadata: Option<TreeMetadata>, duration: &str) -> (r:
    String)
    ensures
        crate::ui::renders(config, r@, tree_fields_text(message@, metadata_text(metadata), duration@, !config.color)),
{
    let ghost meta = metadata_text(metadata);
    let ghost meta_text = match meta {
        Some(m) => m,
        None => Seq::<char>::empty(),
    };
    let note = match metadata {
        Some(m) => label(config, m.text.as_str(), m.kind),
        None => {
            proof {
                crate::ui::lemma_shows_itself(Seq::<char>::empty());
            }
            String::new()
        },
    };
    let step = display_shell_step(message);
    let name = padded_piece(config, crate::ui::inline(config, step.as_str()), Ghost(step@), SHELL_STEP_WIDTH);
    let note = padded_piece(config, note, Ghost(meta_text), SHELL_META_WIDTH);
    let aligned = right_align(duration, SHELL_DURATION_WIDTH);
    let time = label(config, aligned.as_str(), LabelKind::Hint);
    proof {
        reveal_strlit(" ");
    }
    let x1 = glue_text(config, name.as_str(), Ghost(column(step@, SHELL_STEP_WIDTH as nat, !config.color)), " ");
    let x2 = glue(
        config,
        x1.as_str(),
        Ghost(column(step@, SHELL_STEP_WIDTH as nat, !config.color) + " "@),
        note.as_str(),
        Ghost(column(meta_text, SHELL_META_WIDTH as nat, !config.color)),
    );
    let x3 = glue_text(
        config,
        x2.as_str(),
        Ghost(column(step@, SHELL_STEP_WIDTH as nat, !config.color) + " "@ + column(meta_text, SHELL_META_WIDTH as nat, !config.color)),
        " ",
    );
    glue(
        config,
        x3.as_str(),
        Ghost(column(step@, SHELL_STEP_WIDTH as nat, !config.color) + " "@ + column(meta_text, SHELL_META_WIDTH as nat, !config.color) + " "@),
        time.as_str(),
        Ghost(aligned@),
    )
}

/// The metadata text of a step as `tree_metadata` gives it.
pub open spec fn metadata_for(
    message: Seq<char>,
    suffix: Option<Seq<char>>,
    evaluated_packages: nat,
) -> Option<Seq<char>> {
    if evaluated_packages > 0 && message == evaluating_step() {
        Some(crate::text::decimal(evaluated_packages) + " packages"@)
    } else {
        suffix
    }
}

pub open spec fn opt_text(o: Option<&str>) -> Option<Seq<char>> {
    match o {
        Some(s) => Some(s@),
        None => None,
    }
}

pub fn completed_tree_fields(
    config: Config,
    message: &str,
    suffix: Option<&str>,
    evaluated_packages: usize,
    duration: &str,
) -> (r: String)
    ensures
        crate::ui::renders(config, r@, tree_fields_text(
            message@,
            metadata_for(message@, opt_text(suffix), evaluated_packages as nat),
            duration@,
            !config.color,
        )),
{
    tree_fields(config, message, tree_metadata(message, suffix, evaluated_packages), duration)
}

pub fn progress_tree_fields(
    config: Config,
    message: &str,
    evaluated_packages: usize,
    duration: &str,
) -> (r: String)
    ensures
        crate::ui::renders(config, r@, tree_fields_text(
            message@,
            metadata_for(message@, None, evaluated_packages as nat),
            duration@,
            !config.color,
        )),
{
    tree_fields(config, message, tree_metadata(message, None, evaluated_packages), duration)
}

/// The step after which the tree is not kept: the shell takes the terminal.
pub open spec fn launching_step() -> Seq<char> {
    "shell: launching shell"@
}

/// A finished step, `  └ ✓ ` and its columns; the launching step leaves no
/// line.
pub fn completed_tree_line(
    config: Config,
    message: &str,
    suffix: Option<&str>,
    evaluated_packages: usize,
    duration: &str,
) -> (r: String)
    ensures
        message@ == launching_step() ==> r@.len() == 0,
        message@ != launching_step() ==> crate::ui::renders(config, r@, "  └ ✓ "@ + tree_fields_text(
            message@,
            metadata_for(message@, opt_text(suffix), evaluated_packages as nat),
            duration@,
            !config.color,
        )),
{
    let v = chars_of(message);
    if eq_str(&v, "shell: launching shell") {
        return String::new();
    }
    proof {
        reveal_strlit("  ");
        reveal_strlit("└");
        reveal_strlit("✓");
        reveal_strlit(" ");
        reveal_strlit("  └ ✓ ");
    }
    let x1 = text_glue(config, "  ", label(config, "└", LabelKind::Hint).as_str(), Ghost("└"@));
    let x2 = glue_text(config, x1.as_str(), Ghost("  "@ + "└"@), " ");
    let x3 = glue(config, x2.as_str(), Ghost("  "@ + "└"@ + " "@), label(config, "✓", LabelKind::SecondaryOk).as_str(), Ghost("✓"@));
    let x4 = glue_text(config, x3.as_str(), Ghost("  "@ + "└"@ + " "@ + "✓"@), " ");
    let ghost fields = tree_fields_text(
        message@,
        metadata_for(message@, opt_text(suffix), evaluated_packages as nat),
        duration@,
        !config.color,
    );
    let r = glue(
        config,
        x4.as_str(),
        Ghost("  "@ + "└"@ + " "@ + "✓"@ + " "@),
        completed_tree_fields(config, message, suffix, evaluated_packages, duration).as_str(),
        Ghost(fields),
    );
    assert("  "@ + "└"@ + " "@ + "✓"@ + " "@ =~= "  └ ✓ "@);
    r
}

pub fn shell_tree_heading(config: Config) -> (r: String)
    ensures
        crate::ui::renders(config, r@, "robo shell"@),
{
    label(config, "robo shell", LabelKind::Status)
}

/// The lines joined by newlines.
pub open spec fn joined_lines(lines: Seq<Seq<char>>) -> Seq<char> {
    crate::text::join(lines, "\n"@)
}

fn join_lines(lines: &Vec<Vec<char>>) -> (r: String)
    ensures
        r@ == joined_lines(crate::text::views(lines@)),
{
    let sep = chars_of("\n");
    string_of(&crate::text::join_chars(lines, &sep))
}

/// What the live tree shows: the completed lines, the active step with its
/// spinner, and the latest details.
pub struct LiveTree {
    pub completed: Vec<String>,
    pub active_message: String,
    pub active_elapsed_millis: u64,
    /// The active step's elapsed time as `human_duration` writes it.
    pub active_duration: String,
    pub evaluated_packages: usize,
    pub details: Vec<String>,
}

/// The live tree in plain output.
pub open spec fn plain_live_tree(
    completed: Seq<Seq<char>>,
    active_message: Seq<char>,
    active_elapsed_millis: u64,
    active_duration: Seq<char>,
    evaluated_packages: nat,
    details: Seq<Seq<char>>,
) -> Seq<char> {
    joined_lines(live_tree_lines(completed, active_message, active_elapsed_millis, active_duration, evaluated_packages, details, true))
}

/// The live tree's lines; the step columns padded when `pad`.
pub open spec fn live_tree_lines(
    completed: Seq<Seq<char>>,
    active_message: Seq<char>,
    active_elapsed_millis: u64,
    active_duration: Seq<char>,
    evaluated_packages: nat,
    details: Seq<Seq<char>>,
    pad: bool,
) -> Seq<Seq<char>> {
    let active = if active_message.len() == 0 {
        Seq::<Seq<char>>::empty()
    } else {
        seq![
            "  └ "@ + spinner_frames()[((active_elapsed_millis / 80) % 10) as int] + " "@
                + tree_fields_text(
                active_message,
                metadata_for(active_message, None, evaluated_packages),
                active_duration,
                pad,
            ),
        ]
    };
    seq!["robo shell"@] + completed + active + details.map_values(|d: Seq<char>| "    "@ + d)
}

pub fn render_live_tree(config: Config, state: &LiveTree) -> (r: String)
    ensures
        crate::ui::renders(config, r@, joined_lines(live_tree_lines(
            crate::text::strs(state.completed@),
            state.active_message@,
            state.active_elapsed_millis,
            state.active_duration@,
            state.evaluated_packages as nat,
            crate::text::strs(state.details@),
            !config.color,
        ))),
{
    let ghost target = live_tree_lines(
        crate::text::strs(state.completed@),
        state.active_message@,
        state.active_elapsed_millis,
        state.active_duration@,
        state.evaluated_packages as nat,
        crate::text::strs(state.details@),
        !config.color,
    );
    let heading = chars_of(shell_tree_heading(config).as_str());
    let mut lines: Vec<Vec<char>> = Vec::new();
    lines.push(heading);
    let ghost mut shown: Seq<Seq<char>> = seq!["robo shell"@];
    proof {
        assert(crate::text::views(lines@) =~= seq![heading@]);
    }
    let ghost completed = crate::text::strs(state.completed@);
    let mut i: usize = 0;
    while i < state.completed.len()
        invariant
            i <= state.completed.len(),
            completed == crate::text::strs(state.completed@),
            shown == seq!["robo shell"@] + completed.take(i as int),
            crate::ui::renders_lines(config, crate::text::views(lines@), shown),
        decreases state.completed.len() - i,
    {
        let ghost before = lines@;
        let line = chars_of(state.completed[i].as_str());
        lines.push(line);
        proof {
            crate::text::lemma_views_push(before, line);
            crate::ui::lemma_renders_plain(config, line@);
            crate::ui::lemma_renders_lines_push(config, crate::text::views(before), shown, line@, line@);
            assert(completed.take(i + 1) =~= completed.take(i as int).push(completed[i as int]));
            shown = shown.push(line@);
        }
        i = i + 1;
    }
    assert(completed.take(state.completed.len() as int) == completed);
    let active_message = chars_of(state.active_message.as_str());
    if active_message.len() > 0 {
        proof {
            reveal_strlit("  ");
            reveal_strlit("└");
            reveal_strlit(" ");
            reveal_strlit("  └ ");
        }
        let frame = active_spinner_for_elapsed(state.active_elapsed_millis);
        let x1 = text_glue(config, "  ", label(config, "└", LabelKind::Hint).as_str(), Ghost("└"@));
        let x2 = glue_text(config, x1.as_str(), Ghost("  "@ + "└"@), " ");
        let x3 = glue(config, x2.as_str(), Ghost("  "@ + "└"@ + " "@), label(config, frame, LabelKind::Hint).as_str(), Ghost(frame@));
        let x4 = glue_text(config, x3.as_str(), Ghost("  "@ + "└"@ + " "@ + frame@), " ");
        let ghost fields = tree_fields_text(
            state.active_message@,
            metadata_for(state.active_message@, None, state.evaluated_packages as nat),
            state.active_duration@,
            !config.color,
        );
        let full = glue(
            config,
            x4.as_str(),
            Ghost("  "@ + "└"@ + " "@ + frame@ + " "@),
            progress_tree_fields(
                config,
                state.active_message.as_str(),
                state.evaluated_packages,
                state.active_duration.as_str(),
            ).as_str(),
            Ghost(fields),
        );
        let line = chars_of(full.as_str());
        let ghost before = lines@;
        lines.push(line);
        proof {
            crate::text::lemma_views_push(before, line);
            let t = "  └ "@ + spinner_frames()[((state.active_elapsed_millis / 80) % 10) as int] + " "@ + fields;
            assert("  "@ + "└"@ + " "@ + frame@ + " "@ + fields =~= t);
            crate::ui::lemma_renders_lines_push(config, crate::text::views(before), shown, line@, t);
            shown = shown.push(t);
        }
    }
    let ghost upto_active = shown;
    let ghost details = crate::text::strs(state.details@);
    let mut j: usize = 0;
    while j < state.details.len()
        invariant
            j <= state.details.len(),
            details == crate::text::strs(state.details@),
            shown == upto_active + details.take(j as int).map_values(|d: Seq<char>| "    "@ + d),
            crate::ui::renders_lines(config, crate::text::views(lines@), shown),
        decreases state.details.len() - j,
    {
        let ghost before = lines@;
        let full = text_glue(config, "    ", label(config, state.details[j].as_str(), LabelKind::Hint).as_str(), Ghost(details[j as int]));
        let line = chars_of(full.as_str());
        lines.push(line);
        proof {
            crate::text::lemma_views_push(before, line);
            crate::ui::lemma_renders_lines_push(config, crate::text::views(before), shown, line@, "    "@ + details[j as int]);
            assert(details.take(j + 1).map_values(|d: Seq<char>| "    "@ + d)
                =~= details.take(j as int).map_values(|d: Seq<char>| "    "@ + d).push("    "@ + details[j as int]));
            shown = shown.push("    "@ + details[j as int]);
        }
        j = j + 1;
    }
    proof {
        assert(details.take(state.details.len() as int) == details);
        assert(shown =~= target);
        crate::ui::lemma_shows_join(crate::text::views(lines@), shown, "\n"@);
    }
    join_lines(&lines)
}

/// `✓ robo ready` padded to its column, then the total duration.
pub open spec fn plain_ready_line(duration: Seq<char>) -> Seq<char> {
    ready_line_text(duration, true)
}

/// The ready line; `robo ready` padded to its column when `pad`.
pub open spec fn ready_line_text(duration: Seq<char>, pad: bool) -> Seq<char> {
    "✓ "@ + column("robo ready"@, SHELL_READY_WIDTH as nat, pad) + " "@ + right_aligned(
        duration,
        SHELL_DURATION_WIDTH as nat,
    )
}

pub fn format_ready_line(config: Config, duration: &str) -> (r: String)
    ensures
        crate::ui::renders(config, r@, ready_line_text(duration@, !config.color)),
{
    proof {
        reveal_strlit("✓");
        reveal_strlit(" ");
        reveal_strlit("✓ ");
    }
    let x1 = glue_text(config, label(config, "✓", LabelKind::Pass).as_str(), Ghost("✓"@), " ");
    let ready = padded_piece(config, label(config, "robo ready", LabelKind::Pass), Ghost("robo ready"@), SHELL_READY_WIDTH);
    let x2 = glue(config, x1.as_str(), Ghost("✓"@ + " "@), ready.as_str(), Ghost(column("robo ready"@, SHELL_READY_WIDTH as nat, !config.color)));
    let x3 = glue_text(config, x2.as_str(), Ghost("✓"@ + " "@ + column("robo ready"@, SHELL_READY_WIDTH as nat, !config.color)), " ");
    let aligned = right_align(duration, SHELL_DURATION_WIDTH);
    let r = glue(
        config,
        x3.as_str(),
        Ghost("✓"@ + " "@ + column("robo ready"@, SHELL_READY_WIDTH as nat, !config.color) + " "@),
        label(config, aligned.as_str(), LabelKind::Pass).as_str(),
        Ghost(aligned@),
    );
    assert("✓"@ + " "@ =~= "✓ "@);
    r
}

/// The texts that are not empty, in order.
pub open spec fn non_empty_lines(lines: Seq<Seq<char>>) -> Seq<Seq<char>>
    decreases lines.len(),
{
    if lines.len() == 0 {
        Seq::empty()
    } else if lines.last().len() == 0 {
        non_empty_lines(lines.drop_last())
    } else {
        non_empty_lines(lines.drop_last()).push(lines.last())
    }
}

/// The finished tree: the ready line over the steps that left a line.
pub fn render_finished_tree(config: Config, completed: &Vec<String>, duration: &str) -> (r: String)
    ensures
        crate::ui::renders(config, r@, joined_lines(
            seq![ready_line_text(duration@, !config.color)] + non_empty_lines(crate::text::strs(completed@)),
        )),
{
    let ready = format_ready_line(config, duration);
    let mut lines: Vec<Vec<char>> = vec![chars_of(ready.as_str())];
    let ghost done = crate::text::strs(completed@);
    let ghost first = ready_line_text(duration@, !config.color);
    assert(crate::text::views(lines@) =~= seq![ready@]);
    let mut i: usize = 0;
    while i < completed.len()
        invariant
            i <= completed.len(),
            done == crate::text::strs(completed@),
            crate::ui::renders_lines(config, crate::text::views(lines@), seq![first] + non_empty_lines(done.take(i as int))),
        decreases completed.len() - i,
    {
        assert(done.take(i + 1).drop_last() == done.take(i as int));
        let line = chars_of(completed[i].as_str());
        if line.len() > 0 {
            let ghost before = lines@;
            proof {
                crate::text::lemma_views_push(lines@, line);
            }
            lines.push(line);
            proof {
                crate::ui::lemma_renders_plain(config, line@);
                crate::ui::lemma_renders_lines_push(config, crate::text::views(before), seq![first] + non_empty_lines(done.take(i as int)), line@, line@);
                assert(seq![first] + non_empty_lines(done.take(i + 1)) =~= (seq![first] + non_empty_lines(done.take(i as int))).push(line@));
            }
        }
        i = i + 1;
    }
    assert(done.take(completed.len() as int) == done);
    proof {
        crate::ui::lemma_shows_join(crate::text::views(lines@), seq![first] + non_empty_lines(done), "\n"@);
    }
    join_lines(&lines)
}

// ---------------------------------------------------------------------
// Exported variables
// ---------------------------------------------------------------------

pub open spec fn env_pairs(env: Seq<(String, String)>) -> Seq<(Seq<char>, Seq<char>)> {
    crate::shell_launch::env_view(env)
}

/// The value of the last entry named `name`: what a shell that applies the
/// entries in order ends up with.
pub open spec fn env_lookup(env: Seq<(Seq<char>, Seq<char>)>, name: Seq<char>) -> Option<Seq<char>>
    decreases env.len(),
{
    if env.len() == 0 {
        None
    } else if env.last().0 == name {
        Some(env.last().1)
    } else {
        env_lookup(env.drop_last(), name)
    }
}

pub fn shell_env_value<'a>(envs: &'a Vec<(String, String)>, name: &str) -> (r: Option<&'a String>)
    ensures
        match r {
            Some(v) => env_lookup(env_pairs(envs@), name@) == Some(v@),
            None => env_lookup(env_pairs(envs@), name@) is None,
        },
{
    let ghost pairs = env_pairs(envs@);
    let mut i = envs.len();
    assert(pairs.take(i as int) == pairs);
    while i > 0
        invariant
            i <= envs.len(),
            pairs == env_pairs(envs@),
            env_lookup(pairs, name@) == env_lookup(pairs.take(i as int), name@),
        decreases i,
    {
        assert(pairs.take(i as int).drop_last() == pairs.take(i - 1));
        assert(pairs.take(i as int).last() == pairs[i - 1]);
        if crate::text::str_eq(envs[i - 1].0.as_str(), name) {
            assert(pairs[i - 1] == (envs@[i - 1].0@, envs@[i - 1].1@));
            return Some(&envs[i - 1].1);
        }
        i = i - 1;
    }
    None
}

/// The entries with the first one named `name` given `value`, or with
/// `(name, value)` added at the end when there is none.
pub open spec fn env_set(env: Seq<(Seq<char>, Seq<char>)>, name: Seq<char>, value: Seq<char>) -> Seq<
    (Seq<char>, Seq<char>),
>
    decreases env.len(),
{
    if env.len() == 0 {
        seq![(name, value)]
    } else if env[0].0 == name {
        seq![(name, value)] + env.skip(1)
    } else {
        seq![env[0]] + env_set(env.skip(1), name, value)
    }
}

pub fn set_shell_env(envs: &mut Vec<(String, String)>, name: &str, value: String)
    ensures
        env_pairs(final(envs)@) == env_set(env_pairs(old(envs)@), name@, value@),
{
    let ghost start = env_pairs(envs@);
    let mut found: Option<usize> = None;
    let mut i: usize = 0;
    while i < envs.len()
        invariant_except_break
            found is None,
        invariant
            i <= envs.len(),
            start == env_pairs(envs@),
            forall|k: int| 0 <= k < i ==> start[k].0 != name@,
        ensures
            start == env_pairs(envs@),
            match found {
                Some(k) => k < envs.len() && start[k as int].0 == name@ && forall|j: int|
                    0 <= j < k ==> start[j].0 != name@,
                None => forall|k: int| 0 <= k < envs.len() ==> start[k].0 != name@,
            },
        decreases envs.len() - i,
    {
        assert(start[i as int] == (envs@[i as int].0@, envs@[i as int].1@));
        if crate::text::str_eq(envs[i].0.as_str(), name) {
            found = Some(i);
            break;
        }
        i = i + 1;
    }
    match found {
        Some(k) => {
            let key = envs[k].0.clone();
            envs.set(k, (key, value));
            proof {
                lemma_env_set_at(start, name@, value@, k as int);
                assert(env_pairs(envs@) =~= start.update(k as int, (name@, value@)));
            }
        },
        None => {
            envs.push((name.to_owned(), value));
            proof {
                lemma_env_set_absent(start, name@, value@);
                assert(env_pairs(envs@) =~= start.push((name@, value@)));
            }
        },
    }
}

proof fn lemma_env_set_at(env: Seq<(Seq<char>, Seq<char>)>, name: Seq<char>, value: Seq<char>, i: int)
    requires
        0 <= i < env.len(),
        env[i].0 == name,
        forall|k: int| 0 <= k < i ==> env[k].0 != name,
    ensures
        env_set(env, name, value) == env.update(i, (name, value)),
    decreases i,
{
    if i == 0 {
        assert(seq![(name, value)] + env.skip(1) =~= env.update(0, (name, value)));
    } else {
        assert(env[0].0 != name);
        lemma_env_set_at(env.skip(1), name, value, i - 1);
        assert(seq![env[0]] + env.skip(1).update(i - 1, (name, value)) =~= env.update(
            i,
            (name, value),
        ));
    }
}

proof fn lemma_env_set_absent(env: Seq<(Seq<char>, Seq<char>)>, name: Seq<char>, value: Seq<char>)
    requires
        forall|k: int| 0 <= k < env.len() ==> env[k].0 != name,
    ensures
        env_set(env, name, value) == env.push((name, value)),
    decreases env.len(),
{
    if env.len() > 0 {
        assert(env[0].0 != name);
        lemma_env_set_absent(env.skip(1), name, value);
        assert(seq![env[0]] + env.skip(1).push((name, value)) =~= env.push((name, value)));
    }
}

/// How many entries are named `name`.
pub open spec fn entries_named(env: Seq<(Seq<char>, Seq<char>)>, name: Seq<char>) -> nat
    decreases env.len(),
{
    if env.len() == 0 {
        0
    } else {
        entries_named(env.drop_last(), name) + if env.last().0 == name {
            1nat
        } else {
            0nat
        }
    }
}

proof fn lemma_lookup_skip_first(env: Seq<(Seq<char>, Seq<char>)>, name: Seq<char>)
    requires
        env.len() > 0,
        env[0].0 != name,
    ensures
        env_lookup(env, name) == env_lookup(env.skip(1), name),
    decreases env.len(),
{
    reveal_with_fuel(env_lookup, 2);
    if env.len() > 1 {
        assert(env.skip(1).drop_last() =~= env.drop_last().skip(1));
        assert(env.skip(1).last() == env.last());
        assert(env.drop_last()[0] == env[0]);
        lemma_lookup_skip_first(env.drop_last(), name);
    } else {
        assert(env.skip(1).len() == 0);
        assert(env.last() == env[0]);
        assert(env.drop_last().len() == 0);
    }
}

proof fn lemma_lookup_front(env: Seq<(Seq<char>, Seq<char>)>, name: Seq<char>, value: Seq<char>)
    requires
        forall|k: int| 0 <= k < env.len() ==> env[k].0 != name,
    ensures
        env_lookup(seq![(name, value)] + env, name) == Some(value),
        env_lookup(env, name) is None,
    decreases env.len(),
{
    reveal_with_fuel(env_lookup, 2);
    if env.len() > 0 {
        lemma_lookup_front(env.drop_last(), name, value);
        assert((seq![(name, value)] + env).drop_last() =~= seq![(name, value)] + env.drop_last());
        assert((seq![(name, value)] + env).last() == env.last());
        assert(env.last() == env[env.len() - 1]);
    } else {
        assert((seq![(name, value)] + env).drop_last().len() == 0);
        assert((seq![(name, value)] + env).last() == (name, value));
    }
}

proof fn lemma_lookup_other(
    env: Seq<(Seq<char>, Seq<char>)>,
    front: (Seq<char>, Seq<char>),
    other: Seq<char>,
)
    requires
        front.0 != other,
    ensures
        env_lookup(seq![front] + env, other) == env_lookup(env, other),
    decreases env.len(),
{
    reveal_with_fuel(env_lookup, 2);
    if env.len() > 0 {
        lemma_lookup_other(env.drop_last(), front, other);
        assert((seq![front] + env).drop_last() =~= seq![front] + env.drop_last());
        assert((seq![front] + env).last() == env.last());
    } else {
        assert((seq![front] + env).drop_last().len() == 0);
        assert((seq![front] + env).last() == front);
    }
}

proof fn lemma_lookup_cons(
    env: Seq<(Seq<char>, Seq<char>)>,
    front: (Seq<char>, Seq<char>),
    name: Seq<char>,
)
    requires
        env_lookup(env, name) is Some,
    ensures
        env_lookup(seq![front] + env, name) == env_lookup(env, name),
    decreases env.len(),
{
    reveal_with_fuel(env_lookup, 2);
    if env.last().0 != name {
        lemma_lookup_cons(env.drop_last(), front, name);
    }
    assert((seq![front] + env).drop_last() =~= seq![front] + env.drop_last());
    assert((seq![front] + env).last() == env.last());
}

proof fn lemma_named_skip_first(env: Seq<(Seq<char>, Seq<char>)>, name: Seq<char>)
    requires
        env.len() > 0,
    ensures
        entries_named(env, name) == entries_named(env.skip(1), name) + if env[0].0 == name {
            1nat
        } else {
            0nat
        },
    decreases env.len(),
{
    reveal_with_fuel(entries_named, 2);
    if env.len() > 1 {
        assert(env.skip(1).drop_last() =~= env.drop_last().skip(1));
        assert(env.skip(1).last() == env.last());
        assert(env.drop_last()[0] == env[0]);
        lemma_named_skip_first(env.drop_last(), name);
    } else {
        assert(env.skip(1).len() == 0);
        assert(env.last() == env[0]);
        assert(env.drop_last().len() == 0);
    }
}

proof fn lemma_none_named(env: Seq<(Seq<char>, Seq<char>)>, name: Seq<char>)
    requires
        entries_named(env, name) == 0,
    ensures
        forall|k: int| 0 <= k < env.len() ==> env[k].0 != name,
    decreases env.len(),
{
    if env.len() > 0 {
        lemma_none_named(env.drop_last(), name);
        assert forall|k: int| 0 <= k < env.len() implies env[k].0 != name by {
            if k < env.len() - 1 {
                assert(env.drop_last()[k] == env[k]);
            }
        }
    }
}

/// Setting a variable and reading it back gives the value set, and leaves
/// every other variable as it was, whenever at most one entry already
/// carries that name.
pub proof fn lemma_set_then_lookup(
    env: Seq<(Seq<char>, Seq<char>)>,
    name: Seq<char>,
    value: Seq<char>,
    other: Seq<char>,
)
    requires
        entries_named(env, name) <= 1,
    ensures
        env_lookup(env_set(env, name, value), name) == Some(value),
        other != name ==> env_lookup(env_set(env, name, value), other) == env_lookup(env, other),
    decreases env.len(),
{
    reveal_with_fuel(env_lookup, 2);
    if env.len() == 0 {
        assert(env_set(env, name, value).drop_last().len() == 0);
    } else {
        lemma_named_skip_first(env, name);
        if env[0].0 == name {
            lemma_none_named(env.skip(1), name);
            lemma_lookup_front(env.skip(1), name, value);
            if other != name {
                lemma_lookup_other(env.skip(1), (name, value), other);
                lemma_lookup_other(env.skip(1), env[0], other);
                assert(seq![env[0]] + env.skip(1) =~= env);
            }
        } else {
            lemma_set_then_lookup(env.skip(1), name, value, other);
            let rest = env_set(env.skip(1), name, value);
            lemma_lookup_cons(rest, env[0], name);
            if other != name {
                assert(seq![env[0]] + env.skip(1) =~= env);
                if env[0].0 == other {
                    if env_lookup(rest, other) is Some {
                        lemma_lookup_cons(rest, env[0], other);
                        lemma_lookup_cons(env.skip(1), env[0], other);
                    } else {
                        lemma_lookup_none_cons(rest, env[0], other);
                        lemma_lookup_none_cons(env.skip(1), env[0], other);
                    }
                } else {
                    lemma_lookup_other(rest, env[0], other);
                    lemma_lookup_other(env.skip(1), env[0], other);
                }
            }
        }
    }
}

/// Setting a variable changes only the first entry of that name, or adds one
/// entry at the end when there is none.
proof fn lemma_set_shape(env: Seq<(Seq<char>, Seq<char>)>, name: Seq<char>, value: Seq<char>)
    ensures
        env_set(env, name, value).len() == env.len() + (if entries_named(env, name) == 0 {
            1int
        } else {
            0int
        }),
        forall|k: int|
            0 <= k < env.len() && env[k].0 != name ==> #[trigger] env_set(env, name, value)[k] == env[k],
    decreases env.len(),
{
    if env.len() > 0 {
        lemma_named_skip_first(env, name);
        lemma_set_shape(env.skip(1), name, value);
        assert forall|k: int| 0 <= k < env.len() && env[k].0 != name implies #[trigger] env_set(
            env,
            name,
            value,
        )[k] == env[k] by {
            if k > 0 {
                assert(env.skip(1)[k - 1] == env[k]);
            }
        }
    }
}

/// `set_shell_env` on a list with at most one entry of the name: reading the
/// name back gives the value set; the list grows by one entry exactly when
/// the name was not there; every entry of another name keeps its place and
/// its value, and every other name reads as before.
pub proof fn law_set_shell_env(
    env: Seq<(Seq<char>, Seq<char>)>,
    name: Seq<char>,
    value: Seq<char>,
    other: Seq<char>,
)
    requires
        entries_named(env, name) <= 1,
    ensures
        env_lookup(env_set(env, name, value), name) == Some(value),
        env_set(env, name, value).len() == env.len() + (if entries_named(env, name) == 0 {
            1int
        } else {
            0int
        }),
        forall|k: int|
            0 <= k < env.len() && env[k].0 != name ==> #[trigger] env_set(env, name, value)[k] == env[k],
        other != name ==> env_lookup(env_set(env, name, value), other) == env_lookup(env, other),
{
    lemma_set_then_lookup(env, name, value, other);
    lemma_set_shape(env, name, value);
}

proof fn lemma_lookup_none_cons(
    env: Seq<(Seq<char>, Seq<char>)>,
    front: (Seq<char>, Seq<char>),
    name: Seq<char>,
)
    requires
        env_lookup(env, name) is None,
    ensures
        env_lookup(seq![front] + env, name) == if front.0 == name {
            Some(front.1)
        } else {
            None
        },
    decreases env.len(),
{
    reveal_with_fuel(env_lookup, 2);
    if env.len() > 0 {
        lemma_lookup_none_cons(env.drop_last(), front, name);
        assert((seq![front] + env).drop_last() =~= seq![front] + env.drop_last());
        assert((seq![front] + env).last() == env.last());
    } else {
        assert((seq![front] + env).drop_last().len() == 0);
        assert((seq![front] + env).last() == front);
    }
}

// ---------------------------------------------------------------------
// The shell environment cache
// ---------------------------------------------------------------------

/// The directory robo keeps per-project state in.
pub fn shell_env_cache_dir() -> (r: String)
    ensures
        r@ == ".robo-nix"@,
{
    ".robo-nix".to_owned()
}

/// The cached environment: NUL-separated names and values.
pub fn shell_env_cache_path() -> (r: String)
    ensures
        r@ == ".robo-nix/shell-env"@,
{
    ".robo-nix/shell-env".to_owned()
}

/// The key the cached environment was made under.
pub fn shell_env_cache_key_path() -> (r: String)
    ensures
        r@ == ".robo-nix/shell-env.key"@,
{
    ".robo-nix/shell-env.key".to_owned()
}

/// The UTF-8 bytes of a text.
pub open spec fn utf8(s: Seq<char>) -> Seq<u8> {
    vstd::utf8::encode_utf8(s)
}

/// The cache file for some entries: each name and each value followed by
/// a NUL byte.
pub open spec fn serialized(env: Seq<(Seq<char>, Seq<char>)>) -> Seq<u8>
    decreases env.len(),
{
    if env.len() == 0 {
        Seq::empty()
    } else {
        serialized(env.drop_last()) + utf8(env.last().0) + seq![0u8] + utf8(env.last().1) + seq![
            0u8,
        ]
    }
}

fn append_bytes(out: &mut Vec<u8>, bytes: &[u8])
    ensures
        final(out)@ == old(out)@ + bytes@,
{
    let ghost start = out@;
    let mut i: usize = 0;
    while i < bytes.len()
        invariant
            i <= bytes.len(),
            out@ == start + bytes@.take(i as int),
        decreases bytes.len() - i,
    {
        out.push(bytes[i]);
        assert(bytes@.take(i + 1) == bytes@.take(i as int).push(bytes@[i as int]));
        i = i + 1;
    }
    assert(bytes@.take(bytes.len() as int) == bytes@);
}

pub fn serialize_shell_env(env: &Vec<(String, String)>) -> (r: Vec<u8>)
    ensures
        r@ == serialized(env_pairs(env@)),
{
    let ghost pairs = env_pairs(env@);
    let mut bytes: Vec<u8> = Vec::new();
    let mut i: usize = 0;
    while i < env.len()
        invariant
            i <= env.len(),
            pairs == env_pairs(env@),
            bytes@ == serialized(pairs.take(i as int)),
        decreases env.len() - i,
    {
        assert(pairs.take(i + 1).drop_last() == pairs.take(i as int));
        assert(pairs.take(i + 1).last() == (env@[i as int].0@, env@[i as int].1@));
        append_bytes(&mut bytes, env[i].0.as_str().as_bytes());
        bytes.push(0);
        append_bytes(&mut bytes, env[i].1.as_str().as_bytes());
        bytes.push(0);
        i = i + 1;
    }
    assert(pairs.take(env.len() as int) == pairs);
    bytes
}

/// `[u8]::split` on NUL: the pieces between NUL bytes, empty ones included.
pub open spec fn nul_split(bytes: Seq<u8>) -> Seq<Seq<u8>>
    decreases bytes.len(),
{
    if bytes.len() == 0 {
        seq![Seq::empty()]
    } else {
        let prev = nul_split(bytes.drop_last());
        if bytes.last() == 0 {
            prev.push(Seq::empty())
        } else {
            prev.update(prev.len() - 1, prev.last().push(bytes.last()))
        }
    }
}

pub proof fn lemma_nul_split_len(bytes: Seq<u8>)
    ensures
        nul_split(bytes).len() >= 1,
    decreases bytes.len(),
{
    if bytes.len() > 0 {
        lemma_nul_split_len(bytes.drop_last());
    }
}

/// The entries of a cache file: its pieces without the empty one after the
/// final NUL.
pub open spec fn cache_entries(bytes: Seq<u8>) -> Seq<Seq<u8>> {
    let pieces = nul_split(bytes);
    if pieces.last().len() == 0 {
        pieces.drop_last()
    } else {
        pieces
    }
}

pub open spec fn truncated_cache_message() -> Seq<char> {
    "shell env cache is truncated"@
}

pub open spec fn invalid_name_message() -> Seq<char> {
    "shell env cache contains an invalid variable name"@
}

pub open spec fn invalid_value_message() -> Seq<char> {
    "shell env cache contains an invalid variable value"@
}

/// The entries read pairwise as name and value, which must be UTF-8; the
/// first pair that is not gives the error.
pub open spec fn decoded_pairs(entries: Seq<Seq<u8>>) -> Result<
    Seq<(Seq<char>, Seq<char>)>,
    Seq<char>,
>
    decreases entries.len(),
{
    if entries.len() < 2 {
        Ok(Seq::empty())
    } else {
        match decoded_pairs(entries.take(entries.len() - 2)) {
            Err(e) => Err(e),
            Ok(prev) => {
                let name = entries[entries.len() - 2];
                let value = entries[entries.len() - 1];
                if !vstd::utf8::valid_utf8(name) {
                    Err(invalid_name_message())
                } else if !vstd::utf8::valid_utf8(value) {
                    Err(invalid_value_message())
                } else {
                    Ok(
                        prev.push(
                            (vstd::utf8::decode_utf8(name), vstd::utf8::decode_utf8(value)),
                        ),
                    )
                }
            },
        }
    }
}

/// What a cache file holds: an even number of entries, read pairwise.
pub open spec fn parsed_cache(bytes: Seq<u8>) -> Result<Seq<(Seq<char>, Seq<char>)>, Seq<char>> {
    let entries = cache_entries(bytes);
    if entries.len() % 2 != 0 {
        Err(truncated_cache_message())
    } else {
        decoded_pairs(entries)
    }
}

fn nul_pieces(bytes: &[u8]) -> (r: Vec<Vec<u8>>)
    ensures
        r@.map_values(|p: Vec<u8>| p@) == nul_split(bytes@),
{
    let mut pieces: Vec<Vec<u8>> = Vec::new();
    pieces.push(Vec::new());
    assert(pieces@.map_values(|p: Vec<u8>| p@) =~= nul_split(bytes@.take(0)));
    let mut i: usize = 0;
    while i < bytes.len()
        invariant
            i <= bytes.len(),
            pieces.len() >= 1,
            pieces@.map_values(|p: Vec<u8>| p@) == nul_split(bytes@.take(i as int)),
        decreases bytes.len() - i,
    {
        assert(bytes@.take(i + 1).drop_last() == bytes@.take(i as int));
        let ghost before = pieces@.map_values(|p: Vec<u8>| p@);
        if bytes[i] == 0 {
            pieces.push(Vec::new());
            assert(pieces@.map_values(|p: Vec<u8>| p@) =~= before.push(Seq::empty()));
        } else {
            let last = pieces.len() - 1;
            let mut piece = pieces[last].clone();
            piece.push(bytes[i]);
            pieces.set(last, piece);
            assert(pieces@.map_values(|p: Vec<u8>| p@) =~= before.update(
                before.len() - 1,
                before.last().push(bytes@[i as int]),
            ));
        }
        i = i + 1;
    }
    assert(bytes@.take(bytes.len() as int) == bytes@);
    pieces
}

pub fn parse_cached_shell_env(bytes: &[u8]) -> (r: Result<Vec<(String, String)>, String>)
    ensures
        match r {
            Ok(env) => parsed_cache(bytes@) == Ok::<_, Seq<char>>(env_pairs(env@)),
            Err(e) => parsed_cache(bytes@) == Err::<Seq<(Seq<char>, Seq<char>)>, _>(e@),
        },
{
    let mut pieces = nul_pieces(bytes);
    let ghost all = pieces@.map_values(|p: Vec<u8>| p@);
    proof {
        lemma_nul_split_len(bytes@);
    }
    if pieces[pieces.len() - 1].len() == 0 {
        pieces.pop();
        assert(pieces@.map_values(|p: Vec<u8>| p@) =~= all.drop_last());
    }
    let ghost entries = pieces@.map_values(|p: Vec<u8>| p@);
    assert(entries == cache_entries(bytes@));
    if pieces.len() % 2 != 0 {
        return Err("shell env cache is truncated".to_owned());
    }
    let mut env: Vec<(String, String)> = Vec::new();
    let mut k: usize = 0;
    assert(env_pairs(env@) =~= Seq::<(Seq<char>, Seq<char>)>::empty());
    assert(entries.take(0).len() == 0);
    while k < pieces.len()
        invariant
            k <= pieces.len(),
            k % 2 == 0,
            pieces.len() % 2 == 0,
            entries == pieces@.map_values(|p: Vec<u8>| p@),
            entries == cache_entries(bytes@),
            decoded_pairs(entries.take(k as int)) == Ok::<_, Seq<char>>(env_pairs(env@)),
        decreases pieces.len() - k,
    {
        let ghost prev = env_pairs(env@);
        assert(entries.take(k + 2).take(k as int) == entries.take(k as int));
        assert(entries.take(k + 2)[k as int] == pieces@[k as int]@);
        assert(entries.take(k + 2)[k + 1] == pieces@[k + 1]@);
        let name_bytes = pieces[k].clone();
        let value_bytes = pieces[k + 1].clone();
        assert(name_bytes@ =~= entries[k as int]);
        assert(value_bytes@ =~= entries[k + 1]);
        assert(entries.len() == pieces.len());
        assert(parsed_cache(bytes@) == decoded_pairs(entries));
        let name = match crate::text::utf8_string(name_bytes) {
            Some(name) => name,
            None => {
                proof {
                    reveal_strlit("shell env cache contains an invalid variable name");
                    lemma_decoded_err_extends(entries, (k + 2) as int, pieces.len() as int);
                    assert(entries.take(pieces.len() as int) == entries);
                }
                return Err("shell env cache contains an invalid variable name".to_owned());
            },
        };
        let value = match crate::text::utf8_string(value_bytes) {
            Some(value) => value,
            None => {
                proof {
                    lemma_decoded_err_extends(entries, (k + 2) as int, pieces.len() as int);
                    assert(entries.take(pieces.len() as int) == entries);
                }
                return Err("shell env cache contains an invalid variable value".to_owned());
            },
        };
        env.push((name, value));
        assert(env_pairs(env@) =~= prev.push(
            (vstd::utf8::decode_utf8(entries[k as int]), vstd::utf8::decode_utf8(entries[k + 1])),
        ));
        k = k + 2;
    }
    assert(entries.take(pieces.len() as int) == entries);
    Ok(env)
}


proof fn lemma_decoded_err_extends(entries: Seq<Seq<u8>>, k: int, m: int)
    requires
        2 <= k <= m <= entries.len(),
        k % 2 == 0,
        m % 2 == 0,
        decoded_pairs(entries.take(k - 2)) is Ok,
        !vstd::utf8::valid_utf8(entries[k - 2]) || !vstd::utf8::valid_utf8(entries[k - 1]),
    ensures
        decoded_pairs(entries.take(m)) == Err::<Seq<(Seq<char>, Seq<char>)>, _>(
            if !vstd::utf8::valid_utf8(entries[k - 2]) {
                invalid_name_message()
            } else {
                invalid_value_message()
            },
        ),
    decreases m - k,
{
    if m > k {
        lemma_decoded_err_extends(entries, k, m - 2);
        assert(entries.take(m).take(m - 2) =~= entries.take(m - 2));
    } else {
        assert(entries.take(k).take(k - 2) =~= entries.take(k - 2));
        assert(entries.take(k)[k - 2] == entries[k - 2]);
        assert(entries.take(k)[k - 1] == entries[k - 1]);
    }
}

proof fn lemma_scalar_without_nul(c: u32)
    requires
        c != 0,
        vstd::utf8::is_scalar(c),
    ensures
        forall|i: int|
            0 <= i < vstd::utf8::encode_scalar(c).len() ==> #[trigger] vstd::utf8::encode_scalar(
                c,
            )[i] != 0,
{
    if vstd::utf8::has_width_1_encoding(c) {
        assert((c & 0x7F) as u8 != 0) by (bit_vector)
            requires
                c != 0,
                c <= 0x7F,
        ;
    } else {
        assert((0xC0u8 | ((c >> 6) & 0x1F) as u8) != 0) by (bit_vector);
        assert((0xE0u8 | ((c >> 12) & 0x0F) as u8) != 0) by (bit_vector);
        assert((0xF0u8 | ((c >> 18) & 0x7) as u8) != 0) by (bit_vector);
        assert((0x80u8 | (c & 0x3F) as u8) != 0) by (bit_vector);
        assert((0x80u8 | ((c >> 6) & 0x3F) as u8) != 0) by (bit_vector);
        assert((0x80u8 | ((c >> 12) & 0x3F) as u8) != 0) by (bit_vector);
    }
}

/// No byte of the UTF-8 form of a NUL-free text is NUL.
pub proof fn lemma_utf8_without_nul(s: Seq<char>)
    requires
        crate::text::avoids(s, '\0'),
    ensures
        forall|i: int| 0 <= i < utf8(s).len() ==> #[trigger] utf8(s)[i] != 0,
    decreases s.len(),
{
    if s.len() > 0 {
        let c = s[0] as u32;
        vstd::utf8::char_is_scalar(s[0]);
        assert(s[0] != '\0');
        if c == 0 {
            vstd::utf8::char_u32_cast(s[0], c);
            assert((0u32 as char) == '\0');
        }
        lemma_scalar_without_nul(c);
        lemma_utf8_without_nul(s.drop_first());
        let head = vstd::utf8::encode_scalar(c);
        let tail = utf8(s.drop_first());
        assert(utf8(s) == head + tail);
        assert forall|i: int| 0 <= i < utf8(s).len() implies #[trigger] utf8(s)[i] != 0 by {
            if i < head.len() {
                assert(utf8(s)[i] == head[i]);
            } else {
                assert(utf8(s)[i] == tail[i - head.len()]);
            }
        }
    }
}

proof fn lemma_nul_split_append(x: Seq<u8>, y: Seq<u8>)
    requires
        forall|i: int| 0 <= i < y.len() ==> #[trigger] y[i] != 0,
    ensures
        nul_split(x).len() >= 1,
        nul_split(x + y) == nul_split(x).update(
            nul_split(x).len() - 1,
            nul_split(x).last() + y,
        ),
    decreases y.len(),
{
    lemma_nul_split_len(x);
    if y.len() == 0 {
        assert(x + y =~= x);
        assert(nul_split(x).last() + y =~= nul_split(x).last());
        assert(nul_split(x).update(nul_split(x).len() - 1, nul_split(x).last()) =~= nul_split(x));
    } else {
        lemma_nul_split_append(x, y.drop_last());
        assert((x + y).drop_last() =~= x + y.drop_last());
        assert((x + y).last() == y.last());
        assert(y.last() == y[y.len() - 1]);
        assert(y.last() != 0);
        let p = nul_split(x + y.drop_last());
        assert(nul_split(x + y) == p.update(p.len() - 1, p.last().push(y.last())));
        assert(p.len() == nul_split(x).len());
        assert(p.last() == nul_split(x).last() + y.drop_last());
        assert((nul_split(x).last() + y.drop_last()).push(y.last()) =~= nul_split(x).last() + y);
        assert(nul_split(x).last() + y.drop_last() + seq![y.last()] =~= nul_split(x).last() + y);
        lemma_nul_split_len(x + y.drop_last());
        assert(nul_split(x + y) =~= nul_split(x).update(
            nul_split(x).len() - 1,
            nul_split(x).last() + y,
        ));
    }
}

/// The pieces a cache file for these entries splits into: each name, then
/// each value.
pub open spec fn entry_pieces(env: Seq<(Seq<char>, Seq<char>)>) -> Seq<Seq<u8>>
    decreases env.len(),
{
    if env.len() == 0 {
        Seq::empty()
    } else {
        entry_pieces(env.drop_last()).push(utf8(env.last().0)).push(utf8(env.last().1))
    }
}

proof fn lemma_entry_pieces_len(env: Seq<(Seq<char>, Seq<char>)>)
    ensures
        entry_pieces(env).len() == 2 * env.len(),
    decreases env.len(),
{
    if env.len() > 0 {
        lemma_entry_pieces_len(env.drop_last());
    }
}

/// Names and values without NUL characters.
pub open spec fn nul_free(env: Seq<(Seq<char>, Seq<char>)>) -> bool {
    forall|k: int|
        0 <= k < env.len() ==> crate::text::avoids(#[trigger] env[k].0, '\0')
            && crate::text::avoids(env[k].1, '\0')
}

proof fn lemma_split_serialized(env: Seq<(Seq<char>, Seq<char>)>)
    requires
        nul_free(env),
    ensures
        nul_split(serialized(env)) == entry_pieces(env).push(Seq::empty()),
    decreases env.len(),
{
    if env.len() > 0 {
        let prev = env.drop_last();
        assert(nul_free(prev)) by {
            assert forall|k: int| 0 <= k < prev.len() implies crate::text::avoids(
                #[trigger] prev[k].0,
                '\0',
            ) && crate::text::avoids(prev[k].1, '\0') by {
                assert(prev[k] == env[k]);
            }
        }
        lemma_split_serialized(prev);
        let (n, v) = env.last();
        assert(env.last() == env[env.len() - 1]);
        lemma_utf8_without_nul(n);
        lemma_utf8_without_nul(v);
        let a = serialized(prev);
        let pieces = entry_pieces(prev);
        lemma_nul_split_append(a, utf8(n));
        assert(pieces.push(Seq::empty()).update(pieces.len() as int, Seq::<u8>::empty() + utf8(n))
            =~= pieces.push(utf8(n)));
        let b = a + utf8(n);
        assert((b + seq![0u8]).drop_last() =~= b);
        let c = b + seq![0u8];
        lemma_nul_split_append(c, utf8(v));
        assert(pieces.push(utf8(n)).push(Seq::empty()).update(
            pieces.len() + 1int,
            Seq::<u8>::empty() + utf8(v),
        ) =~= pieces.push(utf8(n)).push(utf8(v)));
        let d = c + utf8(v);
        assert((d + seq![0u8]).drop_last() =~= d);
        assert(serialized(env) == d + seq![0u8]);
    }
}

proof fn lemma_decode_pieces(env: Seq<(Seq<char>, Seq<char>)>)
    ensures
        decoded_pairs(entry_pieces(env)) == Ok::<_, Seq<char>>(env),
    decreases env.len(),
{
    if env.len() > 0 {
        let prev = env.drop_last();
        lemma_decode_pieces(prev);
        lemma_entry_pieces_len(prev);
        lemma_entry_pieces_len(env);
        let pieces = entry_pieces(env);
        assert(pieces.take(pieces.len() - 2) =~= entry_pieces(prev));
        let n = env.last().0;
        let v = env.last().1;
        vstd::utf8::encode_utf8_valid_utf8(n);
        vstd::utf8::encode_utf8_valid_utf8(v);
        vstd::utf8::encode_utf8_decode_utf8(n);
        vstd::utf8::encode_utf8_decode_utf8(v);
        assert(pieces[pieces.len() - 2] == utf8(n));
        assert(pieces[pieces.len() - 1] == utf8(v));
        assert(decoded_pairs(pieces.take(pieces.len() - 2)) == Ok::<_, Seq<char>>(prev));
        assert(prev.push((n, v)) =~= env);
        assert(decoded_pairs(pieces) == Ok::<_, Seq<char>>(prev.push((n, v))));
    } else {
        assert(env =~= Seq::<(Seq<char>, Seq<char>)>::empty());
    }
}

/// Reading back a written cache gives the entries that were written,
/// whenever no name or value holds a NUL character (which an environment
/// cannot hold).
pub proof fn lemma_cache_round_trip(env: Seq<(Seq<char>, Seq<char>)>)
    requires
        nul_free(env),
    ensures
        parsed_cache(serialized(env)) == Ok::<_, Seq<char>>(env),
{
    lemma_split_serialized(env);
    lemma_entry_pieces_len(env);
    lemma_decode_pieces(env);
    assert(entry_pieces(env).push(Seq::empty()).drop_last() =~= entry_pieces(env));
    assert((2 * env.len()) % 2 == 0) by (nonlinear_arith);
}

// ---------------------------------------------------------------------
// Which variables of the dev shell are exported
// ---------------------------------------------------------------------

/// Variables that describe the capturing shell, not the project: never
/// exported.
pub open spec fn export_blocked(name: Seq<char>) -> bool {
    name.len() == 0 || name == "_"@ || name == "PWD"@ || name == "OLDPWD"@ || name == "SHLVL"@
        || name == "SHELL"@ || name == "shellHook"@ || name == "ROBO_NIX_QUIET"@ || is_prefix(
        "BASH"@,
        name,
    )
}

pub fn is_shell_export_blocked(name: &str) -> (r: bool)
    ensures
        r == export_blocked(name@),
{
    let v = chars_of(name);
    v.len() == 0 || eq_str(&v, "_") || eq_str(&v, "PWD") || eq_str(&v, "OLDPWD") || eq_str(
        &v,
        "SHLVL",
    ) || eq_str(&v, "SHELL") || eq_str(&v, "shellHook") || eq_str(&v, "ROBO_NIX_QUIET")
        || starts_with_str(&v, "BASH")
}

/// A shell variable name: ASCII letters, digits and `_`, not starting
/// with a digit.
pub open spec fn shell_identifier(name: Seq<char>) -> bool {
    forall|i: int|
        0 <= i < name.len() ==> #[trigger] name[i] == '_' || (crate::text::is_alnum(name[i]) && (
        i > 0 || !crate::text::is_digit(name[i])))
}

pub fn is_shell_identifier(name: &str) -> (r: bool)
    ensures
        r == shell_identifier(name@),
{
    let v = chars_of(name);
    let mut i: usize = 0;
    while i < v.len()
        invariant
            i <= v.len(),
            v@ == name@,
            forall|k: int|
                0 <= k < i ==> #[trigger] v@[k] == '_' || (crate::text::is_alnum(v@[k]) && (k > 0
                    || !crate::text::is_digit(v@[k]))),
        decreases v.len() - i,
    {
        let c = v[i];
        let ok = c == '_' || (crate::text::is_ascii_alnum(c) && (i > 0
            || !crate::text::is_ascii_digit(c)));
        if !ok {
            return false;
        }
        i = i + 1;
    }
    true
}

/// A variable of the dev shell is exported when its name is a plain shell
/// identifier that is not blocked and its value differs from the one the
/// parent process already has.
pub open spec fn exported_var(name: Seq<char>, value: Seq<char>, baseline: Option<Seq<char>>) -> bool {
    !export_blocked(name) && shell_identifier(name) && match baseline {
        Some(b) => b != value,
        None => true,
    }
}

pub fn should_export_shell_var(name: &str, value: &str, baseline: Option<&str>) -> (r: bool)
    ensures
        r == exported_var(name@, value@, opt_text(baseline)),
{
    !is_shell_export_blocked(name) && is_shell_identifier(name) && match baseline {
        Some(b) => !crate::text::str_eq(b, value),
        None => true,
    }
}

/// The exports of `env -0` output: each `NAME=VALUE` entry (split at its
/// first `=`) whose variable is exported against the parent's environment.
pub open spec fn exports_of(entries: Seq<Seq<char>>, baseline: Seq<(Seq<char>, Seq<char>)>) -> Seq<
    (Seq<char>, Seq<char>),
>
    decreases entries.len(),
{
    if entries.len() == 0 {
        Seq::empty()
    } else {
        let prev = exports_of(entries.drop_last(), baseline);
        match crate::text::split_once(entries.last(), "="@) {
            Some((name, value)) => if exported_var(name, value, env_lookup(baseline, name)) {
                prev.push((name, value))
            } else {
                prev
            },
            None => prev,
        }
    }
}

/// The variables a dev shell exports, from its NUL-separated environment
/// and the parent process's environment.
pub fn shell_env_exports_from(output: &str, baseline: &Vec<(String, String)>) -> (r: Vec<
    (String, String),
>)
    ensures
        env_pairs(r@) == exports_of(
            crate::text::split(output@, Sep::Char('\0')),
            env_pairs(baseline@),
        ),
{
    let text = chars_of(output);
    let entries = crate::text::split_str(&text, '\0');
    let ghost ev = crate::text::views(entries@);
    let mut out: Vec<(String, String)> = Vec::new();
    let mut i: usize = 0;
    while i < entries.len()
        invariant
            i <= entries.len(),
            ev == crate::text::views(entries@),
            env_pairs(out@) == exports_of(ev.take(i as int), env_pairs(baseline@)),
        decreases entries.len() - i,
    {
        assert(ev.take(i + 1).drop_last() == ev.take(i as int));
        assert(ev.take(i + 1).last() == entries@[i as int]@);
        match crate::text::split_once_str(&entries[i], "=") {
            Some((name, value)) => {
                let name_s = string_of(&name);
                let value_s = string_of(&value);
                let keep = match shell_env_value(baseline, name_s.as_str()) {
                    Some(b) => should_export_shell_var(name_s.as_str(), value_s.as_str(), Some(b.as_str())),
                    None => should_export_shell_var(name_s.as_str(), value_s.as_str(), None),
                };
                if keep {
                    let ghost before = env_pairs(out@);
                    out.push((name_s, value_s));
                    assert(env_pairs(out@) =~= before.push((name@, value@)));
                }
            },
            None => {},
        }
        i = i + 1;
    }
    assert(ev.take(entries.len() as int) == ev);
    out
}

// ---------------------------------------------------------------------
// Fingerprints
// ---------------------------------------------------------------------

/// The hasher builder of `DefaultHasher`: a stateless value, each one the
/// same as any other.
#[verifier::external_type_specification]
#[verifier::external_body]
#[verifier::reject_recursive_types(H)]
pub struct ExBuildHasherDefault<H>(std::hash::BuildHasherDefault<H>);

/// `Default::default` of `BuildHasherDefault<DefaultHasher>`. The value
/// carries no state, so there is nothing to state of it.
#[verifier::external_body]
fn default_hash_builder() -> std::hash::BuildHasherDefault<std::hash::DefaultHasher> {
    std::hash::BuildHasherDefault::default()
}

/// What an unseeded `DefaultHasher` gives for a byte string hashed as `[u8]`.
pub uninterp spec fn bytes_hash(bytes: Seq<u8>) -> u64;

/// `BuildHasher::hash_one` of the `[u8]` with the `DefaultHasher` builder:
/// per std's documentation, `Hash` of the value into a fresh
/// `DefaultHasher::new()`, finished. `DefaultHasher::new` is unseeded, so the
/// value depends on the bytes alone (for one build of the program).
#[verifier::external_body]
fn hash_one_bytes(builder: &std::hash::BuildHasherDefault<std::hash::DefaultHasher>, bytes: &[u8]) -> (r: u64)
    ensures
        r == bytes_hash(bytes@),
{
    std::hash::BuildHasher::hash_one(builder, bytes)
}

/// What an unseeded `DefaultHasher` gives for a tag followed by the
/// fingerprint pairs, hashed as `(&str, &[(String, String)])`.
pub uninterp spec fn runtime_inputs_hash(tag: Seq<char>, fingerprints: Seq<(Seq<char>, Seq<char>)>) -> u64;

/// `BuildHasher::hash_one` of `(tag, fingerprints)` with the `DefaultHasher`
/// builder: `Hash` of the tag and then of the fingerprints into a fresh,
/// unseeded `DefaultHasher`, finished.
#[verifier::external_body]
fn hash_one_runtime_inputs(
    builder: &std::hash::BuildHasherDefault<std::hash::DefaultHasher>,
    tag: &str,
    fingerprints: &[(String, String)],
) -> (r: u64)
    ensures
        r == runtime_inputs_hash(tag@, fingerprints@.map_values(|p: (String, String)| (p.0@, p.1@))),
{
    std::hash::BuildHasher::hash_one(builder, (tag, fingerprints))
}

/// The fingerprint pairs a JSON array of two-string arrays holds, when
/// every item is one.
pub open spec fn json_string_pairs(items: Seq<crate::json::JsonValue>) -> Option<Seq<(Seq<char>, Seq<char>)>>
    decreases items.len(),
{
    if items.len() == 0 {
        Some(Seq::empty())
    } else {
        match (json_string_pairs(items.drop_last()), json_pair(items.last())) {
            (Some(ps), Some(p)) => Some(ps.push(p)),
            _ => None,
        }
    }
}

/// A JSON array of exactly two strings, as a pair.
pub open spec fn json_pair(v: crate::json::JsonValue) -> Option<(Seq<char>, Seq<char>)> {
    match v {
        crate::json::JsonValue::Array(xs) => if xs@.len() == 2 {
            match (xs@[0], xs@[1]) {
                (crate::json::JsonValue::Str(a), crate::json::JsonValue::Str(b)) => Some((a@, b@)),
                _ => None,
            }
        } else {
            None
        },
        _ => None,
    }
}

/// The fingerprints a JSON document holds: an array of `[path, hash]`
/// string pairs.
pub open spec fn json_pairs(doc: Option<crate::json::JsonValue>) -> Option<Seq<(Seq<char>, Seq<char>)>> {
    match doc {
        Some(crate::json::JsonValue::Array(items)) => json_string_pairs(items@),
        _ => None,
    }
}

/// The older `path=hash;path=hash` form: the entries between `;` that hold
/// a `=`, split at the first one.
pub open spec fn legacy_entries(pieces: Seq<Seq<char>>) -> Seq<(Seq<char>, Seq<char>)>
    decreases pieces.len(),
{
    if pieces.len() == 0 {
        Seq::empty()
    } else {
        let prev = legacy_entries(pieces.drop_last());
        match crate::text::split_once(pieces.last(), "="@) {
            Some(pair) => prev.push(pair),
            None => prev,
        }
    }
}

pub open spec fn legacy_pairs(text: Seq<char>) -> Seq<(Seq<char>, Seq<char>)> {
    legacy_entries(crate::text::split(text, Sep::Char(';')))
}

fn json_pair_of(v: &crate::json::JsonValue) -> (r: Option<(String, String)>)
    ensures
        match r {
            Some(p) => json_pair(*v) == Some((p.0@, p.1@)),
            None => json_pair(*v) is None,
        },
{
    match v {
        crate::json::JsonValue::Array(xs) => {
            if xs.len() == 2 {
                match (&xs[0], &xs[1]) {
                    (crate::json::JsonValue::Str(a), crate::json::JsonValue::Str(b)) => Some((a.clone(), b.clone())),
                    _ => None,
                }
            } else {
                None
            }
        },
        _ => None,
    }
}

/// The runtime inputs' fingerprints recorded in the shell: the JSON array
/// of `[path, hash]` pairs, or else the older `path=hash;…` form.
pub fn parse_runtime_input_fingerprints(text: &str) -> (r: Vec<(String, String)>)
    ensures
        crate::why::pairs_view(r@) == match json_pairs(crate::json::json_document(text@)) {
            Some(p) => p,
            None => legacy_pairs(text@),
        },
{
    let doc = crate::json::parse_json(text);
    match &doc {
        Some(crate::json::JsonValue::Array(items)) => {
            let mut out: Vec<(String, String)> = Vec::new();
            let mut ok = true;
            let mut i: usize = 0;
            while i < items.len()
                invariant
                    i <= items.len(),
                    ok ==> json_string_pairs(items@.take(i as int)) == Some(crate::why::pairs_view(out@)),
                    !ok ==> json_string_pairs(items@.take(i as int)) is None,
                decreases items.len() - i,
            {
                assert(items@.take(i + 1).drop_last() =~= items@.take(i as int));
                assert(items@.take(i + 1).last() == items@[i as int]);
                match json_pair_of(&items[i]) {
                    Some(p) => {
                        if ok {
                            let ghost prev = out@;
                            out.push(p);
                            assert(crate::why::pairs_view(out@) =~= crate::why::pairs_view(prev).push(
                                (out@.last().0@, out@.last().1@),
                            ));
                        }
                    },
                    None => {
                        ok = false;
                    },
                }
                i = i + 1;
            }
            assert(items@.take(items.len() as int) =~= items@);
            if ok {
                return out;
            }
        },
        _ => {},
    }
    let pieces = crate::text::split_str(&chars_of(text), ';');
    let mut out: Vec<(String, String)> = Vec::new();
    let ghost pv = crate::text::views(pieces@);
    let mut i: usize = 0;
    while i < pieces.len()
        invariant
            i <= pieces.len(),
            pv == crate::text::views(pieces@),
            crate::why::pairs_view(out@) == legacy_entries(pv.take(i as int)),
        decreases pieces.len() - i,
    {
        assert(pv.take(i + 1).drop_last() =~= pv.take(i as int));
        assert(pv.take(i + 1).last() == pieces@[i as int]@);
        match crate::text::split_once_str(&pieces[i], "=") {
            Some((a, b)) => {
                let ghost prev = out@;
                out.push((string_of(&a), string_of(&b)));
                assert(crate::why::pairs_view(out@) =~= crate::why::pairs_view(prev).push((a@, b@)));
            },
            None => {},
        }
        i = i + 1;
    }
    assert(pv.take(pieces.len() as int) =~= pv);
    out
}

/// The JSON text `serde_json::to_string` makes of fingerprint pairs: an
/// array of `[path, hash]` string arrays. A function of the pairs.
pub uninterp spec fn fingerprints_json(pairs: Seq<(Seq<char>, Seq<char>)>) -> Seq<char>;

/// `serde_json::to_string` of the `[(String, String)]` pairs, which cannot
/// fail for strings (the `Err` arm is never taken).
#[verifier::external_body]
fn fingerprints_to_json(fingerprints: &[(String, String)]) -> (r: String)
    ensures
        r@ == fingerprints_json(fingerprints@.map_values(|p: (String, String)| (p.0@, p.1@))),
{
    match serde_json::to_string(fingerprints) {
        Ok(text) => text,
        Err(_) => String::new(),
    }
}

/// The fingerprints as the JSON text recorded in the shell.
pub fn serialize_runtime_input_fingerprints(fingerprints: &[(String, String)]) -> (r: String)
    ensures
        r@ == fingerprints_json(crate::why::pairs_view(fingerprints@)),
{
    fingerprints_to_json(fingerprints)
}

/// The lower-case hex digit for `d`.
pub open spec fn hex_digit(d: nat) -> char {
    if d < 10 {
        (('0' as nat) + d) as char
    } else {
        (('a' as nat) + d - 10) as char
    }
}

/// `n` in `width` lower-case hex digits, most significant first.
pub open spec fn hex(n: nat, width: nat) -> Seq<char>
    decreases width,
{
    if width == 0 {
        Seq::empty()
    } else {
        hex(n / 16, (width - 1) as nat).push(hex_digit(n % 16))
    }
}

fn hex_char(d: u64) -> (r: char)
    requires
        d < 16,
    ensures
        r == hex_digit(d as nat),
{
    if d < 10 {
        let x: u8 = 48 + d as u8;
        x as char
    } else {
        let x: u8 = 87 + d as u8;
        x as char
    }
}

/// `format!("{:016x}", n)`.
pub fn hex16(n: u64) -> (r: String)
    ensures
        r@ == hex(n as nat, 16),
{
    let mut digits: Vec<char> = Vec::new();
    let mut rest = n;
    let mut k: usize = 0;
    proof {
        vstd::arithmetic::power::lemma_pow0(16);
        assert((n as nat) / 1 == n as nat);
    }
    while k < 16
        invariant
            k <= 16,
            digits.len() == k,
            forall|j: int|
                0 <= j < k ==> #[trigger] digits@[j] == hex_digit(
                    ((n as nat) / vstd::arithmetic::power::pow(16, j as nat) as nat) % 16,
                ),
            rest as nat == (n as nat) / vstd::arithmetic::power::pow(16, k as nat) as nat,
        decreases 16 - k,
    {
        proof {
            vstd::arithmetic::power::lemma_pow_positive(16, k as nat);
            vstd::arithmetic::power::lemma_pow_adds(16, k as nat, 1);
            vstd::arithmetic::power::lemma_pow1(16);
            vstd::arithmetic::div_mod::lemma_div_denominator(
                n as int,
                vstd::arithmetic::power::pow(16, k as nat) as int,
                16,
            );
        }
        digits.push(hex_char(rest % 16));
        rest = rest / 16;
        k = k + 1;
    }
    let mut out: Vec<char> = Vec::new();
    let mut i: usize = 16;
    while i > 0
        invariant
            i <= 16,
            digits.len() == 16,
            forall|j: int|
                0 <= j < 16 ==> #[trigger] digits@[j] == hex_digit(
                    ((n as nat) / vstd::arithmetic::power::pow(16, j as nat) as nat) % 16,
                ),
            out@ == hex((n as nat) / vstd::arithmetic::power::pow(16, i as nat) as nat, (16 - i) as nat),
        decreases i,
    {
        proof {
            vstd::arithmetic::power::lemma_pow_positive(16, (i - 1) as nat);
            vstd::arithmetic::power::lemma_pow_adds(16, (i - 1) as nat, 1);
            vstd::arithmetic::power::lemma_pow1(16);
            vstd::arithmetic::div_mod::lemma_div_denominator(
                n as int,
                vstd::arithmetic::power::pow(16, (i - 1) as nat) as int,
                16,
            );
            let q = (n as nat) / vstd::arithmetic::power::pow(16, (i - 1) as nat) as nat;
            assert(hex(q, (16 - i + 1) as nat) == hex(q / 16, (16 - i) as nat).push(hex_digit(q % 16)));
        }
        out.push(digits[i - 1]);
        i = i - 1;
    }
    proof {
        vstd::arithmetic::power::lemma_pow0(16);
        assert((n as nat) / 1 == n as nat);
    }
    string_of(&out)
}

/// A file's fingerprint: the hash of its bytes in 16 hex digits.
pub fn fingerprint_bytes(bytes: &[u8]) -> (r: String)
    ensures
        r@ == hex(bytes_hash(bytes@) as nat, 16),
{
    let builder = default_hash_builder();
    hex16(hash_one_bytes(&builder, bytes))
}

/// The key of the runtime inputs, from their fingerprints: the hash of the
/// key format's tag `runtime-input-v1` and the fingerprints.
pub fn runtime_input_key_from_fingerprints(fingerprints: &[(String, String)]) -> (r: String)
    ensures
        r@ == hex(
            runtime_inputs_hash("runtime-input-v1"@, fingerprints@.map_values(|p: (String, String)| (p.0@, p.1@))) as nat,
            16,
        ),
{
    let builder = default_hash_builder();
    let key = hash_one_runtime_inputs(&builder, "runtime-input-v1", fingerprints);
    hex16(key)
}

pub fn current_runtime_input_key_from_fingerprints(fingerprints: &[(String, String)]) -> (r: String)
    ensures
        r@ == hex(
            runtime_inputs_hash("runtime-input-v1"@, fingerprints@.map_values(|p: (String, String)| (p.0@, p.1@))) as nat,
            16,
        ),
{
    runtime_input_key_from_fingerprints(fingerprints)
}

// ---------------------------------------------------------------------
// The state robo adds to the shell
// ---------------------------------------------------------------------

/// What robo records about the project shell it enters.
pub struct ShellState {
    pub env_name: String,
    pub python_version: String,
    pub workspace: String,
    /// The key of the runtime inputs and their fingerprints (as JSON).
    pub input_key: String,
    pub input_files: String,
    /// The directory of the running `robo`, when it is known.
    pub exe_dir: Option<String>,
    /// `PATH` of the parent process, when it is set.
    pub inherited_path: Option<String>,
}

/// The entries after the state variables are set, before `PATH`.
pub open spec fn with_state_vars(
    env: Seq<(Seq<char>, Seq<char>)>,
    state: ShellState,
) -> Seq<(Seq<char>, Seq<char>)> {
    let e1 = env_set(env, "ROBO_NIX_ACTIVE"@, "1"@);
    let e2 = env_set(e1, "ROBO_NIX_ENV_NAME"@, state.env_name@);
    let e3 = env_set(e2, "ROBO_NIX_PYTHON_VERSION"@, state.python_version@);
    let e4 = env_set(e3, "WORKSPACE_ROOT"@, state.workspace@);
    let e5 = env_set(e4, "ROBO_NIX_PROMPT_PREFIX"@, "[robo]"@);
    let e6 = env_set(e5, "ROBO_NIX_RUNTIME_INPUT_KEY"@, state.input_key@);
    env_set(e6, "ROBO_NIX_RUNTIME_INPUT_FILES"@, state.input_files@)
}

/// The entries with robo's state added: the state variables, and `robo`'s
/// own directory put first on `PATH` when it is known.
pub open spec fn with_shell_state(
    env: Seq<(Seq<char>, Seq<char>)>,
    state: ShellState,
) -> Seq<(Seq<char>, Seq<char>)> {
    let e = with_state_vars(env, state);
    match state.exe_dir {
        Some(dir) => {
            let base = match env_lookup(e, "PATH"@) {
                Some(p) => p,
                None => match state.inherited_path {
                    Some(p) => p@,
                    None => Seq::empty(),
                },
            };
            env_set(e, "PATH"@, dir@ + ":"@ + base)
        },
        None => e,
    }
}

pub fn append_shell_state(envs: &mut Vec<(String, String)>, state: &ShellState)
    ensures
        env_pairs(final(envs)@) == with_shell_state(env_pairs(old(envs)@), *state),
{
    set_shell_env(envs, "ROBO_NIX_ACTIVE", "1".to_owned());
    set_shell_env(envs, "ROBO_NIX_ENV_NAME", state.env_name.clone());
    set_shell_env(envs, "ROBO_NIX_PYTHON_VERSION", state.python_version.clone());
    set_shell_env(envs, "WORKSPACE_ROOT", state.workspace.clone());
    set_shell_env(envs, "ROBO_NIX_PROMPT_PREFIX", "[robo]".to_owned());
    set_shell_env(envs, "ROBO_NIX_RUNTIME_INPUT_KEY", state.input_key.clone());
    set_shell_env(envs, "ROBO_NIX_RUNTIME_INPUT_FILES", state.input_files.clone());
    assert(env_pairs(envs@) == with_state_vars(env_pairs(old(envs)@), *state));
    match &state.exe_dir {
        Some(dir) => {
            let base = match shell_env_value(envs, "PATH") {
                Some(p) => p.clone(),
                None => match &state.inherited_path {
                    Some(p) => p.clone(),
                    None => String::new(),
                },
            };
            let mut path = chars_of(dir.as_str());
            path.push(':');
            append_str(&mut path, base.as_str());
            proof {
                reveal_strlit(":");
                assert(path@ =~= dir@ + ":"@ + base@);
            }
            set_shell_env(envs, "PATH", string_of(&path));
        },
        None => {},
    }
}

/// A file's fingerprint: the hex hash of its bytes, or `missing`.
pub open spec fn file_fingerprint(contents: Option<Seq<u8>>) -> Seq<char> {
    match contents {
        Some(b) => hex(bytes_hash(b) as nat, 16),
        None => "missing"@,
    }
}

pub open spec fn opt_bytes(o: Option<Vec<u8>>) -> Option<Seq<u8>> {
    match o {
        Some(v) => Some(v@),
        None => None,
    }
}

pub fn fingerprint_file(contents: &Option<Vec<u8>>) -> (r: String)
    ensures
        r@ == file_fingerprint(opt_bytes(*contents)),
{
    match contents {
        Some(b) => fingerprint_bytes(b.as_slice()),
        None => "missing".to_string(),
    }
}

/// The contents of the runtime's input files, where they could be read.
pub struct RuntimeInputFiles {
    pub flake: Option<Vec<u8>>,
    pub flake_lock: Option<Vec<u8>>,
    pub python_version: Option<Vec<u8>>,
    pub pyproject: Option<Vec<u8>>,
    pub uv_lock: Option<Vec<u8>>,
    /// `robo.nix` as Nix normalizes it, as Nix parses it, and as stored.
    pub robo_normalized: Option<Vec<u8>>,
    pub robo_parsed: Option<Vec<u8>>,
    pub robo_raw: Option<Vec<u8>>,
}

/// `robo.nix` is fingerprinted by its normalized form, else its parsed
/// form, else its bytes.
pub open spec fn robo_fingerprint(f: RuntimeInputFiles) -> Seq<char> {
    match f.robo_normalized {
        Some(b) => hex(bytes_hash(b@) as nat, 16),
        None => match f.robo_parsed {
            Some(b) => hex(bytes_hash(b@) as nat, 16),
            None => file_fingerprint(opt_bytes(f.robo_raw)),
        },
    }
}

/// The fingerprints of the runtime's inputs, in a fixed order.
pub open spec fn input_fingerprints(f: RuntimeInputFiles) -> Seq<(Seq<char>, Seq<char>)> {
    seq![
        ("flake.nix"@, file_fingerprint(opt_bytes(f.flake))),
        ("flake.lock"@, file_fingerprint(opt_bytes(f.flake_lock))),
        (".python-version"@, file_fingerprint(opt_bytes(f.python_version))),
        ("pyproject.toml"@, file_fingerprint(opt_bytes(f.pyproject))),
        ("uv.lock"@, file_fingerprint(opt_bytes(f.uv_lock))),
        ("robo.nix"@, robo_fingerprint(f)),
    ]
}

pub fn runtime_input_fingerprints_for(files: &RuntimeInputFiles) -> (r: Vec<(String, String)>)
    ensures
        r@.map_values(|p: (String, String)| (p.0@, p.1@)) == input_fingerprints(*files),
{
    let mut out: Vec<(String, String)> = Vec::new();
    out.push(("flake.nix".to_string(), fingerprint_file(&files.flake)));
    out.push(("flake.lock".to_string(), fingerprint_file(&files.flake_lock)));
    out.push((".python-version".to_string(), fingerprint_file(&files.python_version)));
    out.push(("pyproject.toml".to_string(), fingerprint_file(&files.pyproject)));
    out.push(("uv.lock".to_string(), fingerprint_file(&files.uv_lock)));
    let robo = match &files.robo_normalized {
        Some(b) => fingerprint_bytes(b.as_slice()),
        None => match &files.robo_parsed {
            Some(b) => fingerprint_bytes(b.as_slice()),
            None => fingerprint_file(&files.robo_raw),
        },
    };
    out.push(("robo.nix".to_string(), robo));
    assert(out@.map_values(|p: (String, String)| (p.0@, p.1@)) =~= input_fingerprints(*files));
    out
}

pub fn current_runtime_input_fingerprints_for(files: &RuntimeInputFiles) -> (r: Vec<(String, String)>)
    ensures
        r@.map_values(|p: (String, String)| (p.0@, p.1@)) == input_fingerprints(*files),
{
    runtime_input_fingerprints_for(files)
}

proof fn lemma_exports_not_blocked(entries: Seq<Seq<char>>, baseline: Seq<(Seq<char>, Seq<char>)>)
    ensures
        forall|i: int|
            0 <= i < exports_of(entries, baseline).len() ==> {
                let e = #[trigger] exports_of(entries, baseline)[i];
                &&& exported_var(e.0, e.1, env_lookup(baseline, e.0))
                &&& exists|j: int| 0 <= j < entries.len() && crate::text::split_once(#[trigger] entries[j], "="@) == Some(e)
            },
    decreases entries.len(),
{
    if entries.len() > 0 {
        let rest = entries.drop_last();
        lemma_exports_not_blocked(rest, baseline);
        let prev = exports_of(rest, baseline);
        let all = exports_of(entries, baseline);
        assert forall|i: int| 0 <= i < prev.len() implies exists|j: int|
            0 <= j < entries.len() && crate::text::split_once(#[trigger] entries[j], "="@) == Some(#[trigger] prev[i]) by {
            let j = choose|j: int| 0 <= j < rest.len() && crate::text::split_once(#[trigger] rest[j], "="@) == Some(prev[i]);
            assert(rest[j] == entries[j]);
        }
        match crate::text::split_once(entries.last(), "="@) {
            Some((name, value)) => {
                if exported_var(name, value, env_lookup(baseline, name)) {
                    assert(all == prev.push((name, value)));
                    assert forall|i: int| 0 <= i < all.len() implies {
                        let e = #[trigger] all[i];
                        &&& exported_var(e.0, e.1, env_lookup(baseline, e.0))
                        &&& exists|j: int| 0 <= j < entries.len() && crate::text::split_once(#[trigger] entries[j], "="@) == Some(e)
                    } by {
                        if i < prev.len() {
                            assert(all[i] == prev[i]);
                        } else {
                            assert(entries[entries.len() - 1] == entries.last());
                        }
                    }
                } else {
                    assert(all == prev);
                }
            },
            None => {
                assert(all == prev);
            },
        }
    }
}

/// Each exported variable comes from a `NAME=VALUE` entry of the shell's
/// `env -0` output (split at its first `=`), its name is made of ASCII
/// letters, digits and `_` and does not start with a digit, and the parent
/// process does not already have that value for it.
pub proof fn law_exports_are_changed_entries(output: Seq<char>, baseline: Seq<(Seq<char>, Seq<char>)>)
    ensures
        forall|i: int|
            0 <= i < exports_of(crate::text::split(output, Sep::Char('\0')), baseline).len() ==> {
                let e = #[trigger] exports_of(crate::text::split(output, Sep::Char('\0')), baseline)[i];
                &&& exists|j: int|
                    0 <= j < crate::text::split(output, Sep::Char('\0')).len() && crate::text::split_once(
                        #[trigger] crate::text::split(output, Sep::Char('\0'))[j],
                        "="@,
                    ) == Some(e)
                &&& forall|k: int|
                    0 <= k < e.0.len() ==> (#[trigger] e.0[k] == '_' || crate::text::is_alnum(e.0[k]))
                        && !(k == 0 && crate::text::is_digit(e.0[k]))
                &&& env_lookup(baseline, e.0) != Some(e.1)
            },
{
    lemma_exports_not_blocked(crate::text::split(output, Sep::Char('\0')), baseline);
}

proof fn lemma_exports_complete(entries: Seq<Seq<char>>, baseline: Seq<(Seq<char>, Seq<char>)>, j: int)
    requires
        0 <= j < entries.len(),
        crate::text::split_once(entries[j], "="@) matches Some((name, value)) && exported_var(
            name,
            value,
            env_lookup(baseline, name),
        ),
    ensures
        exports_of(entries, baseline).contains(crate::text::split_once(entries[j], "="@).unwrap()),
    decreases entries.len(),
{
    let rest = entries.drop_last();
    let prev = exports_of(rest, baseline);
    let all = exports_of(entries, baseline);
    if j < entries.len() - 1 {
        assert(rest[j] == entries[j]);
        lemma_exports_complete(rest, baseline, j);
        let e = crate::text::split_once(entries[j], "="@).unwrap();
        let k = choose|k: int| 0 <= k < prev.len() && prev[k] == e;
        match crate::text::split_once(entries.last(), "="@) {
            Some((name, value)) => {
                if exported_var(name, value, env_lookup(baseline, name)) {
                    assert(all == prev.push((name, value)));
                    assert(all[k] == e);
                } else {
                    assert(all == prev);
                }
            },
            None => {
                assert(all == prev);
            },
        }
    } else {
        assert(entries[j] == entries.last());
        let e = crate::text::split_once(entries[j], "="@).unwrap();
        assert(all == prev.push(e));
        assert(all[prev.len() as int] == e);
    }
}

/// Every `NAME=VALUE` entry of the shell's environment whose name is an
/// exportable shell identifier and whose value the parent process does not
/// already have is exported.
pub proof fn law_changed_entries_are_exported(output: Seq<char>, baseline: Seq<(Seq<char>, Seq<char>)>, j: int)
    requires
        0 <= j < crate::text::split(output, Sep::Char('\0')).len(),
        crate::text::split_once(crate::text::split(output, Sep::Char('\0'))[j], "="@) matches Some((name, value))
            && exported_var(name, value, env_lookup(baseline, name)),
    ensures
        exports_of(crate::text::split(output, Sep::Char('\0')), baseline).contains(
            crate::text::split_once(crate::text::split(output, Sep::Char('\0'))[j], "="@).unwrap(),
        ),
{
    lemma_exports_complete(crate::text::split(output, Sep::Char('\0')), baseline, j);
}

/// The variables that describe the capturing shell are never exported,
/// whatever their values and the parent's environment: `_`, `PWD`,
/// `OLDPWD`, `SHLVL`, `SHELL`, `shellHook`, `ROBO_NIX_QUIET` (which the
/// capture itself sets), and every name starting with `BASH`; nor is an
/// empty name.
pub proof fn law_shell_variables_never_exported(output: Seq<char>, baseline: Seq<(Seq<char>, Seq<char>)>)
    ensures
        forall|i: int|
            0 <= i < exports_of(crate::text::split(output, Sep::Char('\0')), baseline).len() ==> {
                let name = (#[trigger] exports_of(crate::text::split(output, Sep::Char('\0')), baseline)[i]).0;
                &&& name.len() > 0
                &&& name != "_"@
                &&& name != "PWD"@
                &&& name != "OLDPWD"@
                &&& name != "SHLVL"@
                &&& name != "SHELL"@
                &&& name != "shellHook"@
                &&& name != "ROBO_NIX_QUIET"@
                &&& !(name.len() >= 4 && name.take(4) == "BASH"@)
            },
{
    lemma_exports_not_blocked(crate::text::split(output, Sep::Char('\0')), baseline);
    reveal_strlit("BASH");
}

} // verus!

