//! Classifying failure logs into known diagnoses.
//!
//! A log is normalized (whitespace runs collapsed to one space, ASCII
//! lowercased). A diagnosis id written in the log wins; otherwise each
//! table entry's markers are searched for.
use vstd::prelude::*;

use crate::text::{
    append_str, chars_of, clone_chars, contains, contains_chars, eq_chars, is_prefix, join,
    join_chars, lemma_views_push, lower, lowercase, split, split_chars, split_whitespace,
    starts_with_str, views, words, Sep,
};
use crate::ui::LabelKind;
use vstd::string::StringSliceAdditionalSpecFns;

verus! {

#[derive(Clone, Copy, Debug, PartialEq, Eq)]
pub enum Severity {
    Error,
    Warning,
}

impl Severity {
    pub fn label(self) -> (r: &'static str)
        ensures
            r@ == (match self {
                Severity::Error => "error"@,
                Severity::Warning => "warning"@,
            }),
    {
        match self {
            Severity::Error => "error",
            Severity::Warning => "warning",
        }
    }

    pub fn label_kind(self) -> (r: LabelKind)
        ensures
            r == (match self {
                Severity::Error => LabelKind::Error,
                Severity::Warning => LabelKind::Warn,
            }),
    {
        match self {
            Severity::Error => LabelKind::Error,
            Severity::Warning => LabelKind::Warn,
        }
    }
}

/// What an entry reports when it matches.
pub struct DiagnosisTemplate {
    pub id: &'static str,
    pub title: &'static str,
    pub severity: Severity,
    pub owner: &'static str,
    pub summary: &'static str,
    pub next: Vec<&'static str>,
    pub docs: &'static str,
}

pub struct TemplateView {
    pub id: &'static str,
    pub title: &'static str,
    pub severity: Severity,
    pub owner: &'static str,
    pub summary: &'static str,
    pub next: Seq<&'static str>,
    pub docs: &'static str,
}

impl View for DiagnosisTemplate {
    type V = TemplateView;

    open spec fn view(&self) -> TemplateView {
        TemplateView {
            id: self.id,
            title: self.title,
            severity: self.severity,
            owner: self.owner,
            summary: self.summary,
            next: self.next@,
            docs: self.docs,
        }
    }
}

/// How an entry's markers decide a match.
pub enum Matcher {
    /// Every marker occurs.
    All(Vec<&'static str>),
    /// At least one marker occurs.
    Any(Vec<&'static str>),
    /// One of `any` occurs, or else `required` and one of `one_of` do.
    AnyOrPair { any: Vec<&'static str>, required: &'static str, one_of: Vec<&'static str> },
    /// `required` and one of `one_of` occur.
    AnyPair { required: &'static str, one_of: Vec<&'static str> },
}

pub enum MatcherView {
    All(Seq<&'static str>),
    Any(Seq<&'static str>),
    AnyOrPair { any: Seq<&'static str>, required: &'static str, one_of: Seq<&'static str> },
    AnyPair { required: &'static str, one_of: Seq<&'static str> },
}

impl View for Matcher {
    type V = MatcherView;

    open spec fn view(&self) -> MatcherView {
        match self {
            Matcher::All(m) => MatcherView::All(m@),
            Matcher::Any(m) => MatcherView::Any(m@),
            Matcher::AnyOrPair { any, required, one_of } => MatcherView::AnyOrPair {
                any: any@,
                required: *required,
                one_of: one_of@,
            },
            Matcher::AnyPair { required, one_of } => MatcherView::AnyPair {
                required: *required,
                one_of: one_of@,
            },
        }
    }
}

/// One known failure: its report, how to recognise it, and the words a
/// short query may use to find it.
pub struct FailureEntry {
    pub template: DiagnosisTemplate,
    pub matcher: Matcher,
    pub search_terms: Vec<&'static str>,
}

pub struct EntryView {
    pub template: TemplateView,
    pub matcher: MatcherView,
    pub search_terms: Seq<&'static str>,
}

impl View for FailureEntry {
    type V = EntryView;

    open spec fn view(&self) -> EntryView {
        EntryView {
            template: self.template@,
            matcher: self.matcher@,
            search_terms: self.search_terms@,
        }
    }
}

pub open spec fn entry_views(v: Seq<FailureEntry>) -> Seq<EntryView> {
    v.map_values(|e: FailureEntry| e@)
}

#[derive(Debug)]
pub struct Diagnosis {
    pub id: &'static str,
    pub title: &'static str,
    pub severity: Severity,
    pub owner: &'static str,
    pub summary: &'static str,
    pub next: Vec<&'static str>,
    pub docs: &'static str,
    pub matched: Vec<&'static str>,
}

pub struct DiagnosisView {
    pub id: &'static str,
    pub title: &'static str,
    pub severity: Severity,
    pub owner: &'static str,
    pub summary: &'static str,
    pub next: Seq<&'static str>,
    pub docs: &'static str,
    pub matched: Seq<&'static str>,
}

impl View for Diagnosis {
    type V = DiagnosisView;

    open spec fn view(&self) -> DiagnosisView {
        DiagnosisView {
            id: self.id,
            title: self.title,
            severity: self.severity,
            owner: self.owner,
            summary: self.summary,
            next: self.next@,
            docs: self.docs,
            matched: self.matched@,
        }
    }
}

pub open spec fn diagnosis_views(v: Seq<Diagnosis>) -> Seq<DiagnosisView> {
    v.map_values(|d: Diagnosis| d@)
}

#[derive(Clone, Copy, Debug, PartialEq, Eq)]
pub struct Suggestion {
    pub id: &'static str,
    pub title: &'static str,
    pub docs: &'static str,
}

/// Diagnoses of a log, or, when none matched, entries that a short query
/// may refer to.
pub struct DiagnosisResult {
    pub matches: Vec<Diagnosis>,
    pub suggestions: Vec<Suggestion>,
}

// ---------------------------------------------------------------------
// Specification
// ---------------------------------------------------------------------

/// Whitespace runs collapsed to single spaces, trimmed, ASCII lowercased.
pub open spec fn normalized_log(s: Seq<char>) -> Seq<char> {
    lower(join(split_whitespace(s), seq![' ']))
}

/// `marker`, normalized, occurs in the normalized `text`.
pub open spec fn marker_hit(text: Seq<char>, marker: &'static str) -> bool {
    contains(text, normalized_log(marker@))
}

/// The markers that occur in `text`, in table order.
pub open spec fn matched_spec(text: Seq<char>, markers: Seq<&'static str>) -> Seq<&'static str>
    decreases markers.len(),
{
    if markers.len() == 0 {
        Seq::empty()
    } else {
        let prev = matched_spec(text, markers.drop_last());
        if marker_hit(text, markers.last()) {
            prev.push(markers.last())
        } else {
            prev
        }
    }
}

pub open spec fn pair_spec(text: Seq<char>, required: &'static str, one_of: Seq<&'static str>) -> Option<
    Seq<&'static str>,
> {
    if !marker_hit(text, required) {
        None
    } else {
        let matched = matched_spec(text, one_of);
        if matched.len() == 0 {
            None
        } else {
            Some(seq![required] + matched)
        }
    }
}

/// The markers a matcher reports for `text`, or `None` when it does not match.
pub open spec fn matcher_spec(m: MatcherView, text: Seq<char>) -> Option<Seq<&'static str>> {
    match m {
        MatcherView::All(markers) => {
            let matched = matched_spec(text, markers);
            if matched.len() == markers.len() {
                Some(matched)
            } else {
                None
            }
        },
        MatcherView::Any(markers) => {
            let matched = matched_spec(text, markers);
            if matched.len() > 0 {
                Some(matched)
            } else {
                None
            }
        },
        MatcherView::AnyOrPair { any, required, one_of } => {
            let matched = matched_spec(text, any);
            if matched.len() > 0 {
                Some(matched)
            } else {
                pair_spec(text, required, one_of)
            }
        },
        MatcherView::AnyPair { required, one_of } => pair_spec(text, required, one_of),
    }
}

pub open spec fn to_diagnosis_spec(
    t: TemplateView,
    matched: Seq<&'static str>,
    severity: Severity,
) -> DiagnosisView {
    DiagnosisView {
        id: t.id,
        title: t.title,
        severity,
        owner: t.owner,
        summary: t.summary,
        next: t.next,
        docs: t.docs,
        matched,
    }
}

/// A status prefix at the very start of the text fixes the severity.
pub open spec fn leading_severity(text: Seq<char>) -> Option<Severity> {
    if is_prefix("error:"@, text) {
        Some(Severity::Error)
    } else if is_prefix("warn:"@, text) || is_prefix("warning:"@, text) {
        Some(Severity::Warning)
    } else {
        None
    }
}

/// `error[id]`, `warn[id]` or `warning[id]` anywhere fixes the severity.
pub open spec fn explicit_severity(text: Seq<char>, id: Seq<char>) -> Option<Severity> {
    if contains(text, "error["@ + id + "]"@) {
        Some(Severity::Error)
    } else if contains(text, "warn["@ + id + "]"@) || contains(text, "warning["@ + id + "]"@) {
        Some(Severity::Warning)
    } else {
        None
    }
}

pub open spec fn severity_or(s: Option<Severity>, default: Severity) -> Severity {
    match s {
        Some(v) => v,
        None => default,
    }
}

/// `id` is one of the tokens of `text`, tokens being runs of ASCII letters,
/// digits, `.`, `-` and `_`.
pub open spec fn has_id_token(text: Seq<char>, id: Seq<char>) -> bool {
    split(text, Sep::NotIdent).contains(id)
}

pub open spec fn diagnose_ids_spec(text: Seq<char>, entries: Seq<EntryView>) -> Seq<DiagnosisView>
    decreases entries.len(),
{
    if entries.len() == 0 {
        Seq::empty()
    } else {
        let prev = diagnose_ids_spec(text, entries.drop_last());
        let t = entries.last().template;
        if has_id_token(text, t.id@) {
            prev.push(
                to_diagnosis_spec(
                    t,
                    seq![t.id],
                    severity_or(explicit_severity(text, t.id@), t.severity),
                ),
            )
        } else {
            prev
        }
    }
}

pub open spec fn diagnose_markers_spec(text: Seq<char>, entries: Seq<EntryView>) -> Seq<
    DiagnosisView,
>
    decreases entries.len(),
{
    if entries.len() == 0 {
        Seq::empty()
    } else {
        let prev = diagnose_markers_spec(text, entries.drop_last());
        let e = entries.last();
        match matcher_spec(e.matcher, text) {
            Some(matched) => prev.push(
                to_diagnosis_spec(
                    e.template,
                    matched,
                    severity_or(leading_severity(text), e.template.severity),
                ),
            ),
            None => prev,
        }
    }
}

/// The diagnoses of a log against a table: those whose id the log names,
/// or, when it names none, those whose markers match.
pub open spec fn diagnose_spec(raw: Seq<char>, entries: Seq<EntryView>) -> Seq<DiagnosisView> {
    let text = normalized_log(raw);
    let by_id = diagnose_ids_spec(text, entries);
    if by_id.len() > 0 {
        by_id
    } else {
        diagnose_markers_spec(text, entries)
    }
}

pub open spec fn long_terms(pieces: Seq<Seq<char>>) -> Seq<Seq<char>>
    decreases pieces.len(),
{
    if pieces.len() == 0 {
        Seq::empty()
    } else if pieces.last().len() >= 3 {
        long_terms(pieces.drop_last()).push(pieces.last())
    } else {
        long_terms(pieces.drop_last())
    }
}

/// The runs of ASCII letters and digits at least three long.
pub open spec fn search_terms_spec(text: Seq<char>) -> Seq<Seq<char>> {
    long_terms(split(text, Sep::NotAlnum))
}

pub open spec fn has_term(candidates: Seq<&'static str>, term: Seq<char>) -> bool {
    exists|j: int| 0 <= j < candidates.len() && (#[trigger] candidates[j])@ == term
}

pub open spec fn covers_terms(candidates: Seq<&'static str>, terms: Seq<Seq<char>>) -> bool {
    forall|i: int| 0 <= i < terms.len() ==> has_term(candidates, #[trigger] terms[i])
}

pub open spec fn suggest_entries(terms: Seq<Seq<char>>, entries: Seq<EntryView>) -> Seq<Suggestion>
    decreases entries.len(),
{
    if entries.len() == 0 {
        Seq::empty()
    } else {
        let prev = suggest_entries(terms, entries.drop_last());
        let e = entries.last();
        if covers_terms(e.search_terms, terms) {
            prev.push(
                Suggestion { id: e.template.id, title: e.template.title, docs: e.template.docs },
            )
        } else {
            prev
        }
    }
}

/// Entries that every search term of a short query names; nothing for a
/// query of fewer than two terms.
pub open spec fn suggest_spec(raw: Seq<char>, entries: Seq<EntryView>) -> Seq<Suggestion> {
    let terms = search_terms_spec(normalized_log(raw));
    if terms.len() < 2 {
        Seq::empty()
    } else {
        suggest_entries(terms, entries)
    }
}

/// Some other marker, longer in bytes, already shows `m`.
pub open spec fn shadowed(m: &'static str, markers: Seq<&'static str>) -> bool {
    exists|j: int|
        0 <= j < markers.len() && (#[trigger] markers[j]).spec_bytes().len() as usize > m.spec_bytes().len() as usize
            && contains(normalized_log(markers[j]@), normalized_log(m@))
}

pub open spec fn display_spec_upto(markers: Seq<&'static str>, n: int) -> Seq<&'static str>
    decreases n,
{
    if n <= 0 {
        Seq::empty()
    } else {
        let prev = display_spec_upto(markers, n - 1);
        if shadowed(markers[n - 1], markers) {
            prev
        } else {
            prev.push(markers[n - 1])
        }
    }
}

/// The markers worth printing: those no longer marker already shows.
pub open spec fn display_spec(markers: Seq<&'static str>) -> Seq<&'static str> {
    display_spec_upto(markers, markers.len() as int)
}

// ---------------------------------------------------------------------
// Implementation
// ---------------------------------------------------------------------

pub fn normalize_chars(s: &Vec<char>) -> (r: Vec<char>)
    ensures
        r@ == normalized_log(s@),
{
    let ws = words(s);
    let mut sep: Vec<char> = Vec::new();
    sep.push(' ');
    assert(sep@ =~= seq![' ']);
    let joined = join_chars(&ws, &sep);
    lowercase(&joined)
}

/// A log's text as matching sees it: whitespace runs collapsed to one
/// space, ASCII letters lowercased.
pub fn normalize(text: &str) -> (r: String)
    ensures
        r@ == normalized_log(text@),
{
    crate::text::string_of(&normalize_str(text))
}

/// The normalized form of a string slice.
pub fn normalize_str(s: &str) -> (r: Vec<char>)
    ensures
        r@ == normalized_log(s@),
{
    let v = chars_of(s);
    normalize_chars(&v)
}

/// Whether the normalized `marker` occurs in the normalized `text`.
pub fn contains_normalized(text: &Vec<char>, marker: &str) -> (r: bool)
    ensures
        r == contains(text@, normalized_log(marker@)),
{
    let m = normalize_str(marker);
    contains_chars(text, &m)
}

pub fn matched_markers(text: &Vec<char>, markers: &Vec<&'static str>) -> (r: Vec<&'static str>)
    ensures
        r@ == matched_spec(text@, markers@),
{
    let mut out: Vec<&'static str> = Vec::new();
    let mut i: usize = 0;
    while i < markers.len()
        invariant
            i <= markers.len(),
            out@ == matched_spec(text@, markers@.take(i as int)),
        decreases markers.len() - i,
    {
        assert(markers@.take(i + 1).drop_last() == markers@.take(i as int));
        if contains_normalized(text, markers[i]) {
            out.push(markers[i]);
        }
        i = i + 1;
    }
    assert(markers@.take(markers.len() as int) == markers@);
    out
}

fn pair_matches(text: &Vec<char>, required: &'static str, one_of: &Vec<&'static str>) -> (r: Option<
    Vec<&'static str>,
>)
    ensures
        r matches Some(v) ==> pair_spec(text@, required, one_of@) == Some(v@),
        r is None ==> pair_spec(text@, required, one_of@) is None,
{
    if !contains_normalized(text, required) {
        return None;
    }
    let matched = matched_markers(text, one_of);
    if matched.len() == 0 {
        return None;
    }
    let mut out: Vec<&'static str> = Vec::new();
    out.push(required);
    let mut i: usize = 0;
    while i < matched.len()
        invariant
            i <= matched.len(),
            out@ == seq![required] + matched@.take(i as int),
        decreases matched.len() - i,
    {
        out.push(matched[i]);
        assert(matched@.take(i + 1) == matched@.take(i as int).push(matched@[i as int]));
        i = i + 1;
    }
    assert(matched@.take(matched.len() as int) == matched@);
    Some(out)
}

impl Matcher {
    pub fn matches(&self, text: &Vec<char>) -> (r: Option<Vec<&'static str>>)
        ensures
            r matches Some(v) ==> matcher_spec(self@, text@) == Some(v@),
            r is None ==> matcher_spec(self@, text@) is None,
    {
        match self {
            Matcher::All(markers) => {
                let matched = matched_markers(text, markers);
                if matched.len() == markers.len() {
                    Some(matched)
                } else {
                    None
                }
            },
            Matcher::Any(markers) => {
                let matched = matched_markers(text, markers);
                if matched.len() > 0 {
                    Some(matched)
                } else {
                    None
                }
            },
            Matcher::AnyOrPair { any, required, one_of } => {
                let matched = matched_markers(text, any);
                if matched.len() > 0 {
                    return Some(matched);
                }
                pair_matches(text, *required, one_of)
            },
            Matcher::AnyPair { required, one_of } => pair_matches(text, *required, one_of),
        }
    }
}

fn clone_strs(v: &Vec<&'static str>) -> (r: Vec<&'static str>)
    ensures
        r@ == v@,
{
    let mut out: Vec<&'static str> = Vec::new();
    let mut i: usize = 0;
    while i < v.len()
        invariant
            i <= v.len(),
            out@ == v@.take(i as int),
        decreases v.len() - i,
    {
        out.push(v[i]);
        assert(v@.take(i + 1) == v@.take(i as int).push(v@[i as int]));
        i = i + 1;
    }
    assert(v@.take(v.len() as int) == v@);
    out
}

impl DiagnosisTemplate {
    pub fn to_diagnosis_with_severity(&self, matched: Vec<&'static str>, severity: Severity) -> (r:
        Diagnosis)
        ensures
            r@ == to_diagnosis_spec(self@, matched@, severity),
    {
        Diagnosis {
            id: self.id,
            title: self.title,
            severity,
            owner: self.owner,
            summary: self.summary,
            next: clone_strs(&self.next),
            docs: self.docs,
            matched,
        }
    }

    pub fn to_suggestion(&self) -> (r: Suggestion)
        ensures
            r == (Suggestion { id: self.id, title: self.title, docs: self.docs }),
    {
        Suggestion { id: self.id, title: self.title, docs: self.docs }
    }
}

pub fn leading_diagnostic_severity(text: &Vec<char>) -> (r: Option<Severity>)
    ensures
        r == leading_severity(text@),
{
    if starts_with_str(text, "error:") {
        Some(Severity::Error)
    } else if starts_with_str(text, "warn:") || starts_with_str(text, "warning:") {
        Some(Severity::Warning)
    } else {
        None
    }
}

fn bracketed(prefix: &str, id: &str) -> (r: Vec<char>)
    ensures
        r@ == prefix@ + id@ + "]"@,
{
    let mut v = chars_of(prefix);
    append_str(&mut v, id);
    append_str(&mut v, "]");
    v
}

pub fn explicit_diagnostic_severity(text: &Vec<char>, id: &str) -> (r: Option<Severity>)
    ensures
        r == explicit_severity(text@, id@),
{
    let e = bracketed("error[", id);
    if contains_chars(text, &e) {
        return Some(Severity::Error);
    }
    let w = bracketed("warn[", id);
    let w2 = bracketed("warning[", id);
    if contains_chars(text, &w) || contains_chars(text, &w2) {
        Some(Severity::Warning)
    } else {
        None
    }
}

pub fn contains_diagnostic_id(text: &Vec<char>, id: &str) -> (r: bool)
    ensures
        r == has_id_token(text@, id@),
{
    let tokens = split_chars(text, Sep::NotIdent);
    let idv = chars_of(id);
    let ghost tv = views(tokens@);
    let mut i: usize = 0;
    while i < tokens.len()
        invariant
            i <= tokens.len(),
            tv == views(tokens@),
            tv == split(text@, Sep::NotIdent),
            idv@ == id@,
            forall|k: int| 0 <= k < i ==> tv[k] != id@,
        decreases tokens.len() - i,
    {
        if eq_chars(&tokens[i], &idv) {
            assert(tv[i as int] == id@);
            return true;
        }
        i = i + 1;
    }
    assert(!tv.contains(id@));
    false
}

pub fn diagnose_ids(text: &Vec<char>, entries: &Vec<FailureEntry>) -> (r: Vec<Diagnosis>)
    ensures
        diagnosis_views(r@) == diagnose_ids_spec(text@, entry_views(entries@)),
{
    let ghost ev = entry_views(entries@);
    let mut out: Vec<Diagnosis> = Vec::new();
    let mut i: usize = 0;
    while i < entries.len()
        invariant
            i <= entries.len(),
            ev == entry_views(entries@),
            diagnosis_views(out@) == diagnose_ids_spec(text@, ev.take(i as int)),
        decreases entries.len() - i,
    {
        assert(ev.take(i + 1).drop_last() == ev.take(i as int));
        let t = &entries[i].template;
        if contains_diagnostic_id(text, t.id) {
            let severity = match explicit_diagnostic_severity(text, t.id) {
                Some(s) => s,
                None => t.severity,
            };
            let mut ids: Vec<&'static str> = Vec::new();
            ids.push(t.id);
            assert(ids@ =~= seq![t.id]);
            let d = t.to_diagnosis_with_severity(ids, severity);
            let ghost before = diagnosis_views(out@);
            out.push(d);
            assert(diagnosis_views(out@) =~= before.push(d@));
        }
        i = i + 1;
    }
    assert(ev.take(entries.len() as int) == ev);
    out
}

pub fn diagnose_markers(text: &Vec<char>, entries: &Vec<FailureEntry>) -> (r: Vec<Diagnosis>)
    ensures
        diagnosis_views(r@) == diagnose_markers_spec(text@, entry_views(entries@)),
{
    let ghost ev = entry_views(entries@);
    let mut out: Vec<Diagnosis> = Vec::new();
    let mut i: usize = 0;
    while i < entries.len()
        invariant
            i <= entries.len(),
            ev == entry_views(entries@),
            diagnosis_views(out@) == diagnose_markers_spec(text@, ev.take(i as int)),
        decreases entries.len() - i,
    {
        assert(ev.take(i + 1).drop_last() == ev.take(i as int));
        let e = &entries[i];
        match e.matcher.matches(text) {
            Some(matched) => {
                let severity = match leading_diagnostic_severity(text) {
                    Some(s) => s,
                    None => e.template.severity,
                };
                let d = e.template.to_diagnosis_with_severity(matched, severity);
                let ghost before = diagnosis_views(out@);
                out.push(d);
                assert(diagnosis_views(out@) =~= before.push(d@));
            },
            None => {},
        }
        i = i + 1;
    }
    assert(ev.take(entries.len() as int) == ev);
    out
}

/// The diagnoses of a log against the given table.
pub fn diagnose_text_with(text: &str, entries: &Vec<FailureEntry>) -> (r: Vec<Diagnosis>)
    ensures
        diagnosis_views(r@) == diagnose_spec(text@, entry_views(entries@)),
{
    let normalized = normalize_str(text);
    let id_matches = diagnose_ids(&normalized, entries);
    if id_matches.len() > 0 {
        return id_matches;
    }
    diagnose_markers(&normalized, entries)
}

/// The diagnoses of a log against the built-in table.
pub fn diagnose_text(text: &str) -> (r: Vec<Diagnosis>)
    ensures
        diagnosis_views(r@) == diagnose_spec(text@, entry_table()),
{
    let entries = entries();
    diagnose_text_with(text, &entries)
}

pub fn search_terms(text: &Vec<char>) -> (r: Vec<Vec<char>>)
    ensures
        views(r@) == search_terms_spec(text@),
{
    let pieces = split_chars(text, Sep::NotAlnum);
    let ghost pv = views(pieces@);
    let mut out: Vec<Vec<char>> = Vec::new();
    let mut i: usize = 0;
    while i < pieces.len()
        invariant
            i <= pieces.len(),
            pv == views(pieces@),
            views(out@) == long_terms(pv.take(i as int)),
        decreases pieces.len() - i,
    {
        assert(pv.take(i + 1).drop_last() == pv.take(i as int));
        if pieces[i].len() >= 3 {
            let x = clone_chars(&pieces[i]);
            proof {
                lemma_views_push(out@, x);
            }
            out.push(x);
        }
        i = i + 1;
    }
    assert(pv.take(pieces.len() as int) == pv);
    out
}

fn term_listed(candidates: &Vec<&'static str>, term: &Vec<char>) -> (r: bool)
    ensures
        r == has_term(candidates@, term@),
{
    let mut j: usize = 0;
    while j < candidates.len()
        invariant
            j <= candidates.len(),
            forall|k: int| 0 <= k < j ==> (#[trigger] candidates@[k])@ != term@,
        decreases candidates.len() - j,
    {
        let c = chars_of(candidates[j]);
        if eq_chars(&c, term) {
            assert((candidates@[j as int])@ == term@);
            return true;
        }
        j = j + 1;
    }
    false
}

fn all_terms_listed(candidates: &Vec<&'static str>, terms: &Vec<Vec<char>>) -> (r: bool)
    ensures
        r == covers_terms(candidates@, views(terms@)),
{
    let ghost tv = views(terms@);
    let mut i: usize = 0;
    while i < terms.len()
        invariant
            i <= terms.len(),
            tv == views(terms@),
            forall|k: int| 0 <= k < i ==> has_term(candidates@, #[trigger] tv[k]),
        decreases terms.len() - i,
    {
        if !term_listed(candidates, &terms[i]) {
            assert(!has_term(candidates@, tv[i as int]));
            return false;
        }
        i = i + 1;
    }
    true
}

pub fn suggest_text_with(text: &str, entries: &Vec<FailureEntry>) -> (r: Vec<Suggestion>)
    ensures
        r@ == suggest_spec(text@, entry_views(entries@)),
{
    let normalized = normalize_str(text);
    let terms = search_terms(&normalized);
    if terms.len() < 2 {
        return Vec::new();
    }
    let ghost ev = entry_views(entries@);
    let mut out: Vec<Suggestion> = Vec::new();
    let mut i: usize = 0;
    while i < entries.len()
        invariant
            i <= entries.len(),
            ev == entry_views(entries@),
            views(terms@) == search_terms_spec(normalized_log(text@)),
            out@ == suggest_entries(views(terms@), ev.take(i as int)),
        decreases entries.len() - i,
    {
        assert(ev.take(i + 1).drop_last() == ev.take(i as int));
        if all_terms_listed(&entries[i].search_terms, &terms) {
            out.push(entries[i].template.to_suggestion());
        }
        i = i + 1;
    }
    assert(ev.take(entries.len() as int) == ev);
    out
}

/// Suggestions for a short query against the built-in table.
pub fn suggest_text(text: &str) -> (r: Vec<Suggestion>)
    ensures
        r@ == suggest_spec(text@, entry_table()),
{
    let entries = entries();
    suggest_text_with(text, &entries)
}

impl DiagnosisResult {
    /// Diagnoses of `text`; suggestions only when nothing matched.
    pub fn from_text(text: &str) -> (r: DiagnosisResult)
        ensures
            diagnosis_views(r.matches@) == diagnose_spec(text@, entry_table()),
            r.suggestions@ == (if r.matches@.len() == 0 {
                suggest_spec(text@, entry_table())
            } else {
                Seq::empty()
            }),
    {
        let matches = diagnose_text(text);
        let suggestions = if matches.len() == 0 {
            suggest_text(text)
        } else {
            Vec::new()
        };
        DiagnosisResult { matches, suggestions }
    }
}

fn is_shadowed(m: &'static str, markers: &Vec<&'static str>) -> (r: bool)
    ensures
        r == shadowed(m, markers@),
{
    let nm = normalize_str(m);
    let mut j: usize = 0;
    while j < markers.len()
        invariant
            j <= markers.len(),
            nm@ == normalized_log(m@),
            forall|k: int|
                0 <= k < j ==> !((#[trigger] markers@[k]).spec_bytes().len() as usize > m.spec_bytes().len() as usize
                    && contains(normalized_log(markers@[k]@), normalized_log(m@))),
        decreases markers.len() - j,
    {
        let other = markers[j];
        if other.len() > m.len() {
            let no = normalize_str(other);
            if contains_chars(&no, &nm) {
                assert(markers@[j as int].spec_bytes().len() as usize > m.spec_bytes().len() as usize && contains(
                    normalized_log(markers@[j as int]@),
                    normalized_log(m@),
                ));
                return true;
            }
        }
        j = j + 1;
    }
    false
}

/// The matched markers worth showing: a marker is dropped when a longer one
/// already shows it.
pub fn display_markers(markers: &Vec<&'static str>) -> (r: Vec<&'static str>)
    ensures
        r@ == display_spec(markers@),
{
    let mut out: Vec<&'static str> = Vec::new();
    let mut i: usize = 0;
    while i < markers.len()
        invariant
            i <= markers.len(),
            out@ == display_spec_upto(markers@, i as int),
        decreases markers.len() - i,
    {
        if !is_shadowed(markers[i], markers) {
            out.push(markers[i]);
        }
        i = i + 1;
    }
    out
}

// ---------------------------------------------------------------------
// The table of known failures
// ---------------------------------------------------------------------

pub open spec fn python_glibc_abi_mix_entry() -> EntryView {
    EntryView {
        template: TemplateView {
            id: "python.glibc-abi-mix",
            title: "Host Python/glibc is mixing with Nix native libraries",
            severity: Severity::Error,
            owner: "Python environment state plus native runtime ABI alignment",
            summary: "A binary loaded from the Nix store requires a newer glibc symbol than the active host process provides.",
            next: seq!["robo shell", "uv venv --python \"$ROBO_NIX_PYTHON\" --clear", "uv sync"],
            docs: "https://ausbxuse.github.io/robo-nix/users/troubleshooting#glibc-symbol-error",
        },
        matcher: MatcherView::All(seq!["GLIBC_", "not found", "required by /nix/store/"]),
        search_terms: seq!["glibc", "version", "found", "nix", "store", "libstdc"],
    }
}

pub open spec fn python_local_editable_missing_entry() -> EntryView {
    EntryView {
        template: TemplateView {
            id: "python.local-editable-missing",
            title: "A local editable Python source is missing",
            severity: Severity::Error,
            owner: "Project checkout, submodules, vendored sources, or dependency declarations",
            summary: "The Python dependency metadata points at a local file URL that does not exist in this checkout.",
            next: seq!["git submodule update --init --recursive"],
            docs: "https://ausbxuse.github.io/robo-nix/users/troubleshooting#missing-local-editable-source",
        },
        matcher: MatcherView::All(seq!["Distribution not found at:", "file://"]),
        search_terms: seq!["distribution", "found", "file", "third", "party", "editable"],
    }
}

pub open spec fn python_env_missing_entry() -> EntryView {
    EntryView {
        template: TemplateView {
            id: "python.env-missing",
            title: "Python virtualenv is missing",
            severity: Severity::Error,
            owner: "Project uv environment state",
            summary: "The runtime exists, but uv has not created or synced the project virtualenv yet.",
            next: seq!["robo shell", "uv sync"],
            docs: "https://ausbxuse.github.io/robo-nix/users/troubleshooting#python-environment-missing-or-host-owned",
        },
        matcher: MatcherView::Any(seq!["Python virtualenv is missing", "Python environment missing"]),
        search_terms: seq!["python", "virtualenv", "missing", "uv", "sync"],
    }
}

pub open spec fn python_env_host_owned_entry() -> EntryView {
    EntryView {
        template: TemplateView {
            id: "python.env-host-owned",
            title: "Python virtualenv was created outside robo-nix",
            severity: Severity::Error,
            owner: "Project uv environment state plus Python/native ABI alignment",
            summary: "The active .venv is backed by a host Python instead of the Nix-provided robo runtime interpreter.",
            next: seq!["robo shell", "uv venv --python \"$ROBO_NIX_PYTHON\" --clear", "uv sync"],
            docs: "https://ausbxuse.github.io/robo-nix/users/troubleshooting#python-environment-missing-or-host-owned",
        },
        matcher: MatcherView::Any(seq!["Python virtualenv was created outside robo-nix", "Python environment was created outside robo-nix"]),
        search_terms: seq!["python", "virtualenv", "host", "robo", "nix", "outside"],
    }
}

pub open spec fn python_version_mismatch_entry() -> EntryView {
    EntryView {
        template: TemplateView {
            id: "python.version-mismatch",
            title: "Python version contract is inconsistent",
            severity: Severity::Error,
            owner: "Project Python version contract",
            summary: "pyproject.toml, .python-version, and robo.nix do not agree on the Python version.",
            next: seq!["edit pythonVersion in robo.nix", "update .python-version", "robo check"],
            docs: "https://ausbxuse.github.io/robo-nix/users/troubleshooting#python-project-files-missing",
        },
        matcher: MatcherView::Any(seq!["Python version mismatch", "but robo.nix declares"]),
        search_terms: seq!["python", "version", "mismatch", "pyproject", "robo"],
    }
}

pub open spec fn python_project_files_missing_entry() -> EntryView {
    EntryView {
        template: TemplateView {
            id: "python.project-files-missing",
            title: "Python project contract files are missing",
            severity: Severity::Error,
            owner: "Project Python/uv contract",
            summary: "robo expected the project-owned Python files that uv uses for version selection, dependency locking, or package metadata.",
            next: seq!["robo init .", "uv sync"],
            docs: "https://ausbxuse.github.io/robo-nix/users/troubleshooting#python-project-files-missing",
        },
        matcher: MatcherView::Any(seq![".python-version is missing", "pyproject.toml is missing", "pyproject.toml missing", "uv.lock missing"]),
        search_terms: seq!["python", "pyproject", "lock", "missing"],
    }
}

pub open spec fn runtime_files_missing_or_stale_entry() -> EntryView {
    EntryView {
        template: TemplateView {
            id: "runtime.files-missing-or-stale",
            title: "Runtime files are missing or stale",
            severity: Severity::Warning,
            owner: "Generated robo runtime files",
            summary: "The generated runtime files are missing, stale, or use a schema this CLI cannot trust.",
            next: seq!["robo init . --force", "robo check"],
            docs: "https://ausbxuse.github.io/robo-nix/users/troubleshooting#runtime-files-or-components-need-review",
        },
        matcher: MatcherView::Any(seq!["runtime files need review", "generated robo.nix schema is missing", "No robo runtime files were found in this project"]),
        search_terms: seq!["runtime", "files", "missing", "stale", "schema"],
    }
}

pub open spec fn runtime_components_incomplete_entry() -> EntryView {
    EntryView {
        template: TemplateView {
            id: "runtime.components-incomplete",
            title: "Runtime components may be incomplete",
            severity: Severity::Warning,
            owner: "robo.nix runtime component selection",
            summary: "The project metadata suggests runtime components that are not selected in robo.nix.",
            next: seq!["robo init . --force", "review robo.nix", "robo check"],
            docs: "https://ausbxuse.github.io/robo-nix/users/troubleshooting#runtime-files-or-components-need-review",
        },
        matcher: MatcherView::Any(seq!["runtime components may be incomplete", "robo may be missing runtime components"]),
        search_terms: seq!["runtime", "components", "incomplete", "missing"],
    }
}

pub open spec fn project_required_directories_missing_entry() -> EntryView {
    EntryView {
        template: TemplateView {
            id: "project.required-directories-missing",
            title: "Required project directories are missing",
            severity: Severity::Warning,
            owner: "Project checkout layout",
            summary: "robo.nix declares workspace directories that are not present in this checkout.",
            next: seq!["create the missing directories or edit requiredDirectories in robo.nix", "robo check"],
            docs: "https://ausbxuse.github.io/robo-nix/users/troubleshooting#runtime-files-or-components-need-review",
        },
        matcher: MatcherView::Any(seq!["required directories missing", "missing required directory"]),
        search_terms: seq!["required", "directories", "missing", "workspace"],
    }
}

pub open spec fn native_qt6_cmake_missing_entry() -> EntryView {
    EntryView {
        template: TemplateView {
            id: "native.qt6-cmake-missing",
            title: "Qt 6 CMake package files are missing from the runtime",
            severity: Severity::Error,
            owner: "Nix runtime dependencies",
            summary: "CMake looked for Qt6Config.cmake while building native code.",
            next: seq!["add qt6 to robo.nix components", "robo build"],
            docs: "https://ausbxuse.github.io/robo-nix/users/troubleshooting#qt-cmake-files-missing",
        },
        matcher: MatcherView::Any(seq!["Qt6Config.cmake"]),
        search_terms: seq!["qt6", "cmake", "config", "package", "native"],
    }
}

pub open spec fn python_cmake_helper_missing_entry() -> EntryView {
    EntryView {
        template: TemplateView {
            id: "python.cmake-helper-missing",
            title: "A Python-owned CMake helper package is missing",
            severity: Severity::Error,
            owner: "Project Python dependency policy",
            summary: "The native build expected CMake files from a Python package such as pybind11 or nanobind, but the project did not make that helper visible to the package build.",
            next: seq!["declare the helper package in pyproject.toml, for example pybind11 or nanobind", "if the failing local package uses setup.py/CMake without build-system requirements, add it to tool.uv.no-build-isolation-package", "rerun the uv sync command documented by the project"],
            docs: "https://ausbxuse.github.io/robo-nix/users/troubleshooting#python-cmake-helper-missing",
        },
        matcher: MatcherView::Any(seq!["pybind11Config.cmake", "nanobindConfig.cmake", "Could not find pybind11", "Could not find nanobind"]),
        search_terms: seq!["pybind11", "nanobind", "cmake", "config", "python"],
    }
}

pub open spec fn cuda_driver_not_visible_entry() -> EntryView {
    EntryView {
        template: TemplateView {
            id: "cuda.driver-not-visible",
            title: "CUDA driver library is not visible",
            severity: Severity::Error,
            owner: "Host GPU driver integration",
            summary: "The runtime could not see the host NVIDIA driver library or device.",
            next: seq!["robo check cuda --verbose"],
            docs: "https://ausbxuse.github.io/robo-nix/users/troubleshooting#cuda-driver-library-not-found",
        },
        matcher: MatcherView::Any(seq!["libcuda.so.1: cannot open shared object file", "CUDA driver library not found", "CUDA driver library not visible", "libcuda.so.1 was not visible", "CUDA_ERROR_NO_DEVICE"]),
        search_terms: seq!["cuda", "driver", "libcuda", "device", "visible"],
    }
}

pub open spec fn cuda_host_not_ready_entry() -> EntryView {
    EntryView {
        template: TemplateView {
            id: "cuda.host-not-ready",
            title: "CUDA host driver support is not ready",
            severity: Severity::Error,
            owner: "Host GPU driver integration",
            summary: "The selected runtime needs a Linux NVIDIA host driver, but robo could not confirm the host CUDA driver surface.",
            next: seq!["robo check cuda --verbose"],
            docs: "https://ausbxuse.github.io/robo-nix/users/troubleshooting#cuda-driver-library-not-found",
        },
        matcher: MatcherView::Any(seq!["CUDA requires a Linux host", "CUDA environments require a Linux host", "could not detect host NVIDIA driver CUDA support", "NVIDIA driver stack not found"]),
        search_terms: seq!["cuda", "host", "driver", "nvidia", "linux"],
    }
}

pub open spec fn cuda_driver_wheel_mismatch_entry() -> EntryView {
    EntryView {
        template: TemplateView {
            id: "cuda.driver-wheel-mismatch",
            title: "CUDA wheels require a newer or different driver ABI",
            severity: Severity::Error,
            owner: "Host driver version or project Python dependency lock",
            summary: "The selected Python CUDA wheels do not align with the CUDA driver API visible on this host.",
            next: seq!["robo check cuda --verbose"],
            docs: "https://ausbxuse.github.io/robo-nix/users/troubleshooting#cuda-wheel-and-driver-mismatch",
        },
        matcher: MatcherView::Any(seq!["CUDA driver version is insufficient", "uv.lock expects CUDA", "runtime CUDA mismatch", "host supports CUDA", "CUDA host driver is too old", "CUDA host driver mismatch", "CUDA mismatch: uv.lock expects", "CUDA toolkit version does not match uv.lock"]),
        search_terms: seq!["cuda", "driver", "version", "insufficient", "expects", "mismatch"],
    }
}

pub open spec fn cuda_toolkit_not_visible_entry() -> EntryView {
    EntryView {
        template: TemplateView {
            id: "cuda.toolkit-not-visible",
            title: "CUDA toolkit is not visible in the runtime",
            severity: Severity::Error,
            owner: "Nix CUDA toolkit runtime",
            summary: "Native CUDA extension builds need the Nix-owned toolkit surface: nvcc, headers, and libcudart link support.",
            next: seq!["add cuda-toolkit to robo.nix components", "robo check --deep"],
            docs: "https://ausbxuse.github.io/robo-nix/users/troubleshooting#cuda-toolkit-not-visible",
        },
        matcher: MatcherView::Any(seq!["CUDA root is not visible in the current shell", "CUDA toolkit not visible in this shell", "CUDA toolkit version is unknown", "CUDA native build surface is incomplete", "CUDA_HOME/CUDA_PATH did not point at a toolkit", "failed to probe CUDA native build surface"]),
        search_terms: seq!["cuda", "toolkit", "native", "build", "surface"],
    }
}

pub open spec fn runtime_tool_missing_entry() -> EntryView {
    EntryView {
        template: TemplateView {
            id: "runtime.tool-missing",
            title: "Runtime shell tool is missing",
            severity: Severity::Error,
            owner: "Nix runtime shell",
            summary: "A tool that robo expects inside the realized runtime shell was not available or could not be probed.",
            next: seq!["robo check --deep", "robo build"],
            docs: "https://ausbxuse.github.io/robo-nix/users/troubleshooting#runtime-shell-tool-missing",
        },
        matcher: MatcherView::Any(seq!["uv is not available in the runtime shell", "failed to probe uv in runtime shell"]),
        search_terms: seq!["runtime", "tool", "missing", "uv"],
    }
}

pub open spec fn graphics_egl_context_entry() -> EntryView {
    EntryView {
        template: TemplateView {
            id: "graphics.egl-context",
            title: "EGL/OpenGL context creation failed",
            severity: Severity::Error,
            owner: "Host graphics/display integration plus selected runtime graphics libraries",
            summary: "The graphics stack could not create an OpenGL context through EGL, GLVND, Wayland, or X11.",
            next: seq!["robo check graphics --verbose"],
            docs: "https://ausbxuse.github.io/robo-nix/users/troubleshooting#egl-or-opengl-context-failure",
        },
        matcher: MatcherView::Any(seq!["EGL: Failed to get EGL display", "Failed to get EGL display", "Failed EGL display", "gladLoadGL error", "OpenGL platform library has not been loaded", "an OpenGL platform library has not been loaded", "Wayland: Failed to load libwayland-client", "Failed to load libwayland-client", "libEGL.so.1 is not visible in the runtime library path", "EGL vendor file is missing", "Nix libEGL is paired with a non-Nix EGL vendor file", "no Wayland or X11 display variable is visible in the runtime shell", "graphics session is"]),
        search_terms: seq!["egl", "display", "failed", "opengl", "context", "gladloadgl", "wayland", "libwayland"],
    }
}

pub open spec fn graphics_mujoco_gl_forced_entry() -> EntryView {
    EntryView {
        template: TemplateView {
            id: "graphics.mujoco-gl-forced",
            title: "MuJoCo GL backend is forced",
            severity: Severity::Warning,
            owner: "User shell environment",
            summary: "MUJOCO_GL is forcing a graphics backend that can block desktop GLFW viewers inside the robo runtime.",
            next: seq!["unset MUJOCO_GL", "robo check graphics --verbose"],
            docs: "https://ausbxuse.github.io/robo-nix/users/troubleshooting#egl-or-opengl-context-failure",
        },
        matcher: MatcherView::Any(seq!["MuJoCo GL backend is forced", "Graphics runtime is blocked by MUJOCO_GL"]),
        search_terms: seq!["mujoco", "gl", "graphics", "forced"],
    }
}

pub open spec fn graphics_software_renderer_entry() -> EntryView {
    EntryView {
        template: TemplateView {
            id: "graphics.software-renderer",
            title: "Graphics runtime is using software rendering",
            severity: Severity::Warning,
            owner: "Host graphics/device visibility",
            summary: "OpenGL is being forced or detected as software rendering, which usually breaks simulator viewers or makes them unusably slow.",
            next: seq!["unset LIBGL_ALWAYS_SOFTWARE", "robo check graphics --verbose"],
            docs: "https://ausbxuse.github.io/robo-nix/users/troubleshooting#egl-or-opengl-context-failure",
        },
        matcher: MatcherView::Any(seq!["LIBGL_ALWAYS_SOFTWARE=1 forces software rendering", "OpenGL renderer appears to be software"]),
        search_terms: seq!["opengl", "software", "renderer", "graphics"],
    }
}

pub open spec fn graphics_python_gui_import_entry() -> EntryView {
    EntryView {
        template: TemplateView {
            id: "graphics.python-gui-import",
            title: "Python GUI import failed in the runtime",
            severity: Severity::Error,
            owner: "Project Python dependencies plus Nix graphics/runtime libraries",
            summary: "A Python GUI/backend probe failed after entering the runtime, usually because Qt bindings or native display/OpenGL libraries are incomplete.",
            next: seq!["uv sync", "review qt6 and desktop-gl components in robo.nix", "robo check --deep"],
            docs: "https://ausbxuse.github.io/robo-nix/users/troubleshooting#python-gui-import-failed",
        },
        matcher: MatcherView::Any(seq!["PyQt6 GUI import failed", "failed to run PyQt6 GUI probe", "matplotlib QtAgg backend probe failed", "failed to run matplotlib QtAgg probe"]),
        search_terms: seq!["pyqt", "matplotlib", "qtagg", "gui", "graphics"],
    }
}

pub open spec fn media_ffmpeg_runtime_missing_entry() -> EntryView {
    EntryView {
        template: TemplateView {
            id: "media.ffmpeg-runtime-missing",
            title: "FFmpeg media runtime is missing or incomplete",
            severity: Severity::Error,
            owner: "Nix media runtime libraries",
            summary: "A video/media Python package failed because its FFmpeg shared-library runtime is not available or not aligned.",
            next: seq!["add media to robo.nix components", "robo check --deep"],
            docs: "https://ausbxuse.github.io/robo-nix/users/troubleshooting#ffmpeg-media-runtime-missing",
        },
        matcher: MatcherView::Any(seq!["TorchCodec import failed", "failed to run TorchCodec import probe", "TorchCodec needs FFmpeg shared libraries"]),
        search_terms: seq!["torchcodec", "ffmpeg", "media", "runtime"],
    }
}

pub open spec fn native_linux_headers_missing_entry() -> EntryView {
    EntryView {
        template: TemplateView {
            id: "native.linux-headers-missing",
            title: "Linux userspace headers are missing",
            severity: Severity::Error,
            owner: "Nix runtime dependencies",
            summary: "A native extension included Linux kernel userspace headers that are not in the runtime.",
            next: seq!["add linux-headers to robo.nix components", "robo build"],
            docs: "https://ausbxuse.github.io/robo-nix/users/troubleshooting#missing-linux-headers",
        },
        matcher: MatcherView::Any(seq!["linux/input.h: No such file or directory", "linux/joystick.h: No such file or directory"]),
        search_terms: seq!["linux", "input", "joystick", "headers", "directory"],
    }
}

pub open spec fn native_python_build_tool_shim_entry() -> EntryView {
    EntryView {
        template: TemplateView {
            id: "native.python-build-tool-shim",
            title: "Python-owned native build tool shim is crossing the ABI boundary",
            severity: Severity::Warning,
            owner: "Project build invocation plus Python/native boundary",
            summary: "A Python-owned build-tool executable is present where the runtime expects Nix-owned native build tools.",
            next: seq!["robo shell", "which cmake", "which ninja"],
            docs: "https://ausbxuse.github.io/robo-nix/users/troubleshooting#native-build-tool-shims-in-venv",
        },
        matcher: MatcherView::AnyOrPair { any: seq!["Python virtualenv contains native build tool shims", "Python environment contains native build tool shims"], required: "GLIBC_", one_of: seq![".venv/bin/cmake", ".venv/bin/ninja"] },
        search_terms: seq!["venv", "cmake", "ninja", "glibc", "shim"],
    }
}

/// The built-in table of known failures, in match order.
pub open spec fn entry_table() -> Seq<EntryView> {
    seq![
        python_glibc_abi_mix_entry(),
        python_local_editable_missing_entry(),
        python_env_missing_entry(),
        python_env_host_owned_entry(),
        python_version_mismatch_entry(),
        python_project_files_missing_entry(),
        runtime_files_missing_or_stale_entry(),
        runtime_components_incomplete_entry(),
        project_required_directories_missing_entry(),
        native_qt6_cmake_missing_entry(),
        python_cmake_helper_missing_entry(),
        cuda_driver_not_visible_entry(),
        cuda_host_not_ready_entry(),
        cuda_driver_wheel_mismatch_entry(),
        cuda_toolkit_not_visible_entry(),
        runtime_tool_missing_entry(),
        graphics_egl_context_entry(),
        graphics_mujoco_gl_forced_entry(),
        graphics_software_renderer_entry(),
        graphics_python_gui_import_entry(),
        media_ffmpeg_runtime_missing_entry(),
        native_linux_headers_missing_entry(),
        native_python_build_tool_shim_entry(),
    ]
}

fn build_python_glibc_abi_mix_entry() -> (r: FailureEntry)
    ensures
        r@ == python_glibc_abi_mix_entry(),
{
    let next = vec!["robo shell", "uv venv --python \"$ROBO_NIX_PYTHON\" --clear", "uv sync"];
    assert(next@ =~= seq!["robo shell", "uv venv --python \"$ROBO_NIX_PYTHON\" --clear", "uv sync"]);
    let markers = vec!["GLIBC_", "not found", "required by /nix/store/"];
    assert(markers@ =~= seq!["GLIBC_", "not found", "required by /nix/store/"]);
    let terms = vec!["glibc", "version", "found", "nix", "store", "libstdc"];
    assert(terms@ =~= seq!["glibc", "version", "found", "nix", "store", "libstdc"]);
    FailureEntry {
        template: DiagnosisTemplate {
            id: "python.glibc-abi-mix",
            title: "Host Python/glibc is mixing with Nix native libraries",
            severity: Severity::Error,
            owner: "Python environment state plus native runtime ABI alignment",
            summary: "A binary loaded from the Nix store requires a newer glibc symbol than the active host process provides.",
            next,
            docs: "https://ausbxuse.github.io/robo-nix/users/troubleshooting#glibc-symbol-error",
        },
        matcher: Matcher::All(markers),
        search_terms: terms,
    }
}

fn build_python_local_editable_missing_entry() -> (r: FailureEntry)
    ensures
        r@ == python_local_editable_missing_entry(),
{
    let next = vec!["git submodule update --init --recursive"];
    assert(next@ =~= seq!["git submodule update --init --recursive"]);
    let markers = vec!["Distribution not found at:", "file://"];
    assert(markers@ =~= seq!["Distribution not found at:", "file://"]);
    let terms = vec!["distribution", "found", "file", "third", "party", "editable"];
    assert(terms@ =~= seq!["distribution", "found", "file", "third", "party", "editable"]);
    FailureEntry {
        template: DiagnosisTemplate {
            id: "python.local-editable-missing",
            title: "A local editable Python source is missing",
            severity: Severity::Error,
            owner: "Project checkout, submodules, vendored sources, or dependency declarations",
            summary: "The Python dependency metadata points at a local file URL that does not exist in this checkout.",
            next,
            docs: "https://ausbxuse.github.io/robo-nix/users/troubleshooting#missing-local-editable-source",
        },
        matcher: Matcher::All(markers),
        search_terms: terms,
    }
}

fn build_python_env_missing_entry() -> (r: FailureEntry)
    ensures
        r@ == python_env_missing_entry(),
{
    let next = vec!["robo shell", "uv sync"];
    assert(next@ =~= seq!["robo shell", "uv sync"]);
    let markers = vec!["Python virtualenv is missing", "Python environment missing"];
    assert(markers@ =~= seq!["Python virtualenv is missing", "Python environment missing"]);
    let terms = vec!["python", "virtualenv", "missing", "uv", "sync"];
    assert(terms@ =~= seq!["python", "virtualenv", "missing", "uv", "sync"]);
    FailureEntry {
        template: DiagnosisTemplate {
            id: "python.env-missing",
            title: "Python virtualenv is missing",
            severity: Severity::Error,
            owner: "Project uv environment state",
            summary: "The runtime exists, but uv has not created or synced the project virtualenv yet.",
            next,
            docs: "https://ausbxuse.github.io/robo-nix/users/troubleshooting#python-environment-missing-or-host-owned",
        },
        matcher: Matcher::Any(markers),
        search_terms: terms,
    }
}

fn build_python_env_host_owned_entry() -> (r: FailureEntry)
    ensures
        r@ == python_env_host_owned_entry(),
{
    let next = vec!["robo shell", "uv venv --python \"$ROBO_NIX_PYTHON\" --clear", "uv sync"];
    assert(next@ =~= seq!["robo shell", "uv venv --python \"$ROBO_NIX_PYTHON\" --clear", "uv sync"]);
    let markers = vec!["Python virtualenv was created outside robo-nix", "Python environment was created outside robo-nix"];
    assert(markers@ =~= seq!["Python virtualenv was created outside robo-nix", "Python environment was created outside robo-nix"]);
    let terms = vec!["python", "virtualenv", "host", "robo", "nix", "outside"];
    assert(terms@ =~= seq!["python", "virtualenv", "host", "robo", "nix", "outside"]);
    FailureEntry {
        template: DiagnosisTemplate {
            id: "python.env-host-owned",
            title: "Python virtualenv was created outside robo-nix",
            severity: Severity::Error,
            owner: "Project uv environment state plus Python/native ABI alignment",
            summary: "The active .venv is backed by a host Python instead of the Nix-provided robo runtime interpreter.",
            next,
            docs: "https://ausbxuse.github.io/robo-nix/users/troubleshooting#python-environment-missing-or-host-owned",
        },
        matcher: Matcher::Any(markers),
        search_terms: terms,
    }
}

fn build_python_version_mismatch_entry() -> (r: FailureEntry)
    ensures
        r@ == python_version_mismatch_entry(),
{
    let next = vec!["edit pythonVersion in robo.nix", "update .python-version", "robo check"];
    assert(next@ =~= seq!["edit pythonVersion in robo.nix", "update .python-version", "robo check"]);
    let markers = vec!["Python version mismatch", "but robo.nix declares"];
    assert(markers@ =~= seq!["Python version mismatch", "but robo.nix declares"]);
    let terms = vec!["python", "version", "mismatch", "pyproject", "robo"];
    assert(terms@ =~= seq!["python", "version", "mismatch", "pyproject", "robo"]);
    FailureEntry {
        template: DiagnosisTemplate {
            id: "python.version-mismatch",
            title: "Python version contract is inconsistent",
            severity: Severity::Error,
            owner: "Project Python version contract",
            summary: "pyproject.toml, .python-version, and robo.nix do not agree on the Python version.",
            next,
            docs: "https://ausbxuse.github.io/robo-nix/users/troubleshooting#python-project-files-missing",
        },
        matcher: Matcher::Any(markers),
        search_terms: terms,
    }
}

fn build_python_project_files_missing_entry() -> (r: FailureEntry)
    ensures
        r@ == python_project_files_missing_entry(),
{
    let next = vec!["robo init .", "uv sync"];
    assert(next@ =~= seq!["robo init .", "uv sync"]);
    let markers = vec![".python-version is missing", "pyproject.toml is missing", "pyproject.toml missing", "uv.lock missing"];
    assert(markers@ =~= seq![".python-version is missing", "pyproject.toml is missing", "pyproject.toml missing", "uv.lock missing"]);
    let terms = vec!["python", "pyproject", "lock", "missing"];
    assert(terms@ =~= seq!["python", "pyproject", "lock", "missing"]);
    FailureEntry {
        template: DiagnosisTemplate {
            id: "python.project-files-missing",
            title: "Python project contract files are missing",
            severity: Severity::Error,
            owner: "Project Python/uv contract",
            summary: "robo expected the project-owned Python files that uv uses for version selection, dependency locking, or package metadata.",
            next,
            docs: "https://ausbxuse.github.io/robo-nix/users/troubleshooting#python-project-files-missing",
        },
        matcher: Matcher::Any(markers),
        search_terms: terms,
    }
}

fn build_runtime_files_missing_or_stale_entry() -> (r: FailureEntry)
    ensures
        r@ == runtime_files_missing_or_stale_entry(),
{
    let next = vec!["robo init . --force", "robo check"];
    assert(next@ =~= seq!["robo init . --force", "robo check"]);
    let markers = vec!["runtime files need review", "generated robo.nix schema is missing", "No robo runtime files were found in this project"];
    assert(markers@ =~= seq!["runtime files need review", "generated robo.nix schema is missing", "No robo runtime files were found in this project"]);
    let terms = vec!["runtime", "files", "missing", "stale", "schema"];
    assert(terms@ =~= seq!["runtime", "files", "missing", "stale", "schema"]);
    FailureEntry {
        template: DiagnosisTemplate {
            id: "runtime.files-missing-or-stale",
            title: "Runtime files are missing or stale",
            severity: Severity::Warning,
            owner: "Generated robo runtime files",
            summary: "The generated runtime files are missing, stale, or use a schema this CLI cannot trust.",
            next,
            docs: "https://ausbxuse.github.io/robo-nix/users/troubleshooting#runtime-files-or-components-need-review",
        },
        matcher: Matcher::Any(markers),
        search_terms: terms,
    }
}

fn build_runtime_components_incomplete_entry() -> (r: FailureEntry)
    ensures
        r@ == runtime_components_incomplete_entry(),
{
    let next = vec!["robo init . --force", "review robo.nix", "robo check"];
    assert(next@ =~= seq!["robo init . --force", "review robo.nix", "robo check"]);
    let markers = vec!["runtime components may be incomplete", "robo may be missing runtime components"];
    assert(markers@ =~= seq!["runtime components may be incomplete", "robo may be missing runtime components"]);
    let terms = vec!["runtime", "components", "incomplete", "missing"];
    assert(terms@ =~= seq!["runtime", "components", "incomplete", "missing"]);
    FailureEntry {
        template: DiagnosisTemplate {
            id: "runtime.components-incomplete",
            title: "Runtime components may be incomplete",
            severity: Severity::Warning,
            owner: "robo.nix runtime component selection",
            summary: "The project metadata suggests runtime components that are not selected in robo.nix.",
            next,
            docs: "https://ausbxuse.github.io/robo-nix/users/troubleshooting#runtime-files-or-components-need-review",
        },
        matcher: Matcher::Any(markers),
        search_terms: terms,
    }
}

fn build_project_required_directories_missing_entry() -> (r: FailureEntry)
    ensures
        r@ == project_required_directories_missing_entry(),
{
    let next = vec!["create the missing directories or edit requiredDirectories in robo.nix", "robo check"];
    assert(next@ =~= seq!["create the missing directories or edit requiredDirectories in robo.nix", "robo check"]);
    let markers = vec!["required directories missing", "missing required directory"];
    assert(markers@ =~= seq!["required directories missing", "missing required directory"]);
    let terms = vec!["required", "directories", "missing", "workspace"];
    assert(terms@ =~= seq!["required", "directories", "missing", "workspace"]);
    FailureEntry {
        template: DiagnosisTemplate {
            id: "project.required-directories-missing",
            title: "Required project directories are missing",
            severity: Severity::Warning,
            owner: "Project checkout layout",
            summary: "robo.nix declares workspace directories that are not present in this checkout.",
            next,
            docs: "https://ausbxuse.github.io/robo-nix/users/troubleshooting#runtime-files-or-components-need-review",
        },
        matcher: Matcher::Any(markers),
        search_terms: terms,
    }
}

fn build_native_qt6_cmake_missing_entry() -> (r: FailureEntry)
    ensures
        r@ == native_qt6_cmake_missing_entry(),
{
    let next = vec!["add qt6 to robo.nix components", "robo build"];
    assert(next@ =~= seq!["add qt6 to robo.nix components", "robo build"]);
    let markers = vec!["Qt6Config.cmake"];
    assert(markers@ =~= seq!["Qt6Config.cmake"]);
    let terms = vec!["qt6", "cmake", "config", "package", "native"];
    assert(terms@ =~= seq!["qt6", "cmake", "config", "package", "native"]);
    FailureEntry {
        template: DiagnosisTemplate {
            id: "native.qt6-cmake-missing",
            title: "Qt 6 CMake package files are missing from the runtime",
            severity: Severity::Error,
            owner: "Nix runtime dependencies",
            summary: "CMake looked for Qt6Config.cmake while building native code.",
            next,
            docs: "https://ausbxuse.github.io/robo-nix/users/troubleshooting#qt-cmake-files-missing",
        },
        matcher: Matcher::Any(markers),
        search_terms: terms,
    }
}

fn build_python_cmake_helper_missing_entry() -> (r: FailureEntry)
    ensures
        r@ == python_cmake_helper_missing_entry(),
{
    let next = vec!["declare the helper package in pyproject.toml, for example pybind11 or nanobind", "if the failing local package uses setup.py/CMake without build-system requirements, add it to tool.uv.no-build-isolation-package", "rerun the uv sync command documented by the project"];
    assert(next@ =~= seq!["declare the helper package in pyproject.toml, for example pybind11 or nanobind", "if the failing local package uses setup.py/CMake without build-system requirements, add it to tool.uv.no-build-isolation-package", "rerun the uv sync command documented by the project"]);
    let markers = vec!["pybind11Config.cmake", "nanobindConfig.cmake", "Could not find pybind11", "Could not find nanobind"];
    assert(markers@ =~= seq!["pybind11Config.cmake", "nanobindConfig.cmake", "Could not find pybind11", "Could not find nanobind"]);
    let terms = vec!["pybind11", "nanobind", "cmake", "config", "python"];
    assert(terms@ =~= seq!["pybind11", "nanobind", "cmake", "config", "python"]);
    FailureEntry {
        template: DiagnosisTemplate {
            id: "python.cmake-helper-missing",
            title: "A Python-owned CMake helper package is missing",
            severity: Severity::Error,
            owner: "Project Python dependency policy",
            summary: "The native build expected CMake files from a Python package such as pybind11 or nanobind, but the project did not make that helper visible to the package build.",
            next,
            docs: "https://ausbxuse.github.io/robo-nix/users/troubleshooting#python-cmake-helper-missing",
        },
        matcher: Matcher::Any(markers),
        search_terms: terms,
    }
}

fn build_cuda_driver_not_visible_entry() -> (r: FailureEntry)
    ensures
        r@ == cuda_driver_not_visible_entry(),
{
    let next = vec!["robo check cuda --verbose"];
    assert(next@ =~= seq!["robo check cuda --verbose"]);
    let markers = vec!["libcuda.so.1: cannot open shared object file", "CUDA driver library not found", "CUDA driver library not visible", "libcuda.so.1 was not visible", "CUDA_ERROR_NO_DEVICE"];
    assert(markers@ =~= seq!["libcuda.so.1: cannot open shared object file", "CUDA driver library not found", "CUDA driver library not visible", "libcuda.so.1 was not visible", "CUDA_ERROR_NO_DEVICE"]);
    let terms = vec!["cuda", "driver", "libcuda", "device", "visible"];
    assert(terms@ =~= seq!["cuda", "driver", "libcuda", "device", "visible"]);
    FailureEntry {
        template: DiagnosisTemplate {
            id: "cuda.driver-not-visible",
            title: "CUDA driver library is not visible",
            severity: Severity::Error,
            owner: "Host GPU driver integration",
            summary: "The runtime could not see the host NVIDIA driver library or device.",
            next,
            docs: "https://ausbxuse.github.io/robo-nix/users/troubleshooting#cuda-driver-library-not-found",
        },
        matcher: Matcher::Any(markers),
        search_terms: terms,
    }
}

fn build_cuda_host_not_ready_entry() -> (r: FailureEntry)
    ensures
        r@ == cuda_host_not_ready_entry(),
{
    let next = vec!["robo check cuda --verbose"];
    assert(next@ =~= seq!["robo check cuda --verbose"]);
    let markers = vec!["CUDA requires a Linux host", "CUDA environments require a Linux host", "could not detect host NVIDIA driver CUDA support", "NVIDIA driver stack not found"];
    assert(markers@ =~= seq!["CUDA requires a Linux host", "CUDA environments require a Linux host", "could not detect host NVIDIA driver CUDA support", "NVIDIA driver stack not found"]);
    let terms = vec!["cuda", "host", "driver", "nvidia", "linux"];
    assert(terms@ =~= seq!["cuda", "host", "driver", "nvidia", "linux"]);
    FailureEntry {
        template: DiagnosisTemplate {
            id: "cuda.host-not-ready",
            title: "CUDA host driver support is not ready",
            severity: Severity::Error,
            owner: "Host GPU driver integration",
            summary: "The selected runtime needs a Linux NVIDIA host driver, but robo could not confirm the host CUDA driver surface.",
            next,
            docs: "https://ausbxuse.github.io/robo-nix/users/troubleshooting#cuda-driver-library-not-found",
        },
        matcher: Matcher::Any(markers),
        search_terms: terms,
    }
}

fn build_cuda_driver_wheel_mismatch_entry() -> (r: FailureEntry)
    ensures
        r@ == cuda_driver_wheel_mismatch_entry(),
{
    let next = vec!["robo check cuda --verbose"];
    assert(next@ =~= seq!["robo check cuda --verbose"]);
    let markers = vec!["CUDA driver version is insufficient", "uv.lock expects CUDA", "runtime CUDA mismatch", "host supports CUDA", "CUDA host driver is too old", "CUDA host driver mismatch", "CUDA mismatch: uv.lock expects", "CUDA toolkit version does not match uv.lock"];
    assert(markers@ =~= seq!["CUDA driver version is insufficient", "uv.lock expects CUDA", "runtime CUDA mismatch", "host supports CUDA", "CUDA host driver is too old", "CUDA host driver mismatch", "CUDA mismatch: uv.lock expects", "CUDA toolkit version does not match uv.lock"]);
    let terms = vec!["cuda", "driver", "version", "insufficient", "expects", "mismatch"];
    assert(terms@ =~= seq!["cuda", "driver", "version", "insufficient", "expects", "mismatch"]);
    FailureEntry {
        template: DiagnosisTemplate {
            id: "cuda.driver-wheel-mismatch",
            title: "CUDA wheels require a newer or different driver ABI",
            severity: Severity::Error,
            owner: "Host driver version or project Python dependency lock",
            summary: "The selected Python CUDA wheels do not align with the CUDA driver API visible on this host.",
            next,
            docs: "https://ausbxuse.github.io/robo-nix/users/troubleshooting#cuda-wheel-and-driver-mismatch",
        },
        matcher: Matcher::Any(markers),
        search_terms: terms,
    }
}

fn build_cuda_toolkit_not_visible_entry() -> (r: FailureEntry)
    ensures
        r@ == cuda_toolkit_not_visible_entry(),
{
    let next = vec!["add cuda-toolkit to robo.nix components", "robo check --deep"];
    assert(next@ =~= seq!["add cuda-toolkit to robo.nix components", "robo check --deep"]);
    let markers = vec!["CUDA root is not visible in the current shell", "CUDA toolkit not visible in this shell", "CUDA toolkit version is unknown", "CUDA native build surface is incomplete", "CUDA_HOME/CUDA_PATH did not point at a toolkit", "failed to probe CUDA native build surface"];
    assert(markers@ =~= seq!["CUDA root is not visible in the current shell", "CUDA toolkit not visible in this shell", "CUDA toolkit version is unknown", "CUDA native build surface is incomplete", "CUDA_HOME/CUDA_PATH did not point at a toolkit", "failed to probe CUDA native build surface"]);
    let terms = vec!["cuda", "toolkit", "native", "build", "surface"];
    assert(terms@ =~= seq!["cuda", "toolkit", "native", "build", "surface"]);
    FailureEntry {
        template: DiagnosisTemplate {
            id: "cuda.toolkit-not-visible",
            title: "CUDA toolkit is not visible in the runtime",
            severity: Severity::Error,
            owner: "Nix CUDA toolkit runtime",
            summary: "Native CUDA extension builds need the Nix-owned toolkit surface: nvcc, headers, and libcudart link support.",
            next,
            docs: "https://ausbxuse.github.io/robo-nix/users/troubleshooting#cuda-toolkit-not-visible",
        },
        matcher: Matcher::Any(markers),
        search_terms: terms,
    }
}

fn build_runtime_tool_missing_entry() -> (r: FailureEntry)
    ensures
        r@ == runtime_tool_missing_entry(),
{
    let next = vec!["robo check --deep", "robo build"];
    assert(next@ =~= seq!["robo check --deep", "robo build"]);
    let markers = vec!["uv is not available in the runtime shell", "failed to probe uv in runtime shell"];
    assert(markers@ =~= seq!["uv is not available in the runtime shell", "failed to probe uv in runtime shell"]);
    let terms = vec!["runtime", "tool", "missing", "uv"];
    assert(terms@ =~= seq!["runtime", "tool", "missing", "uv"]);
    FailureEntry {
        template: DiagnosisTemplate {
            id: "runtime.tool-missing",
            title: "Runtime shell tool is missing",
            severity: Severity::Error,
            owner: "Nix runtime shell",
            summary: "A tool that robo expects inside the realized runtime shell was not available or could not be probed.",
            next,
            docs: "https://ausbxuse.github.io/robo-nix/users/troubleshooting#runtime-shell-tool-missing",
        },
        matcher: Matcher::Any(markers),
        search_terms: terms,
    }
}

fn build_graphics_egl_context_entry() -> (r: FailureEntry)
    ensures
        r@ == graphics_egl_context_entry(),
{
    let next = vec!["robo check graphics --verbose"];
    assert(next@ =~= seq!["robo check graphics --verbose"]);
    let markers = vec!["EGL: Failed to get EGL display", "Failed to get EGL display", "Failed EGL display", "gladLoadGL error", "OpenGL platform library has not been loaded", "an OpenGL platform library has not been loaded", "Wayland: Failed to load libwayland-client", "Failed to load libwayland-client", "libEGL.so.1 is not visible in the runtime library path", "EGL vendor file is missing", "Nix libEGL is paired with a non-Nix EGL vendor file", "no Wayland or X11 display variable is visible in the runtime shell", "graphics session is"];
    assert(markers@ =~= seq!["EGL: Failed to get EGL display", "Failed to get EGL display", "Failed EGL display", "gladLoadGL error", "OpenGL platform library has not been loaded", "an OpenGL platform library has not been loaded", "Wayland: Failed to load libwayland-client", "Failed to load libwayland-client", "libEGL.so.1 is not visible in the runtime library path", "EGL vendor file is missing", "Nix libEGL is paired with a non-Nix EGL vendor file", "no Wayland or X11 display variable is visible in the runtime shell", "graphics session is"]);
    let terms = vec!["egl", "display", "failed", "opengl", "context", "gladloadgl", "wayland", "libwayland"];
    assert(terms@ =~= seq!["egl", "display", "failed", "opengl", "context", "gladloadgl", "wayland", "libwayland"]);
    FailureEntry {
        template: DiagnosisTemplate {
            id: "graphics.egl-context",
            title: "EGL/OpenGL context creation failed",
            severity: Severity::Error,
            owner: "Host graphics/display integration plus selected runtime graphics libraries",
            summary: "The graphics stack could not create an OpenGL context through EGL, GLVND, Wayland, or X11.",
            next,
            docs: "https://ausbxuse.github.io/robo-nix/users/troubleshooting#egl-or-opengl-context-failure",
        },
        matcher: Matcher::Any(markers),
        search_terms: terms,
    }
}

fn build_graphics_mujoco_gl_forced_entry() -> (r: FailureEntry)
    ensures
        r@ == graphics_mujoco_gl_forced_entry(),
{
    let next = vec!["unset MUJOCO_GL", "robo check graphics --verbose"];
    assert(next@ =~= seq!["unset MUJOCO_GL", "robo check graphics --verbose"]);
    let markers = vec!["MuJoCo GL backend is forced", "Graphics runtime is blocked by MUJOCO_GL"];
    assert(markers@ =~= seq!["MuJoCo GL backend is forced", "Graphics runtime is blocked by MUJOCO_GL"]);
    let terms = vec!["mujoco", "gl", "graphics", "forced"];
    assert(terms@ =~= seq!["mujoco", "gl", "graphics", "forced"]);
    FailureEntry {
        template: DiagnosisTemplate {
            id: "graphics.mujoco-gl-forced",
            title: "MuJoCo GL backend is forced",
            severity: Severity::Warning,
            owner: "User shell environment",
            summary: "MUJOCO_GL is forcing a graphics backend that can block desktop GLFW viewers inside the robo runtime.",
            next,
            docs: "https://ausbxuse.github.io/robo-nix/users/troubleshooting#egl-or-opengl-context-failure",
        },
        matcher: Matcher::Any(markers),
        search_terms: terms,
    }
}

fn build_graphics_software_renderer_entry() -> (r: FailureEntry)
    ensures
        r@ == graphics_software_renderer_entry(),
{
    let next = vec!["unset LIBGL_ALWAYS_SOFTWARE", "robo check graphics --verbose"];
    assert(next@ =~= seq!["unset LIBGL_ALWAYS_SOFTWARE", "robo check graphics --verbose"]);
    let markers = vec!["LIBGL_ALWAYS_SOFTWARE=1 forces software rendering", "OpenGL renderer appears to be software"];
    assert(markers@ =~= seq!["LIBGL_ALWAYS_SOFTWARE=1 forces software rendering", "OpenGL renderer appears to be software"]);
    let terms = vec!["opengl", "software", "renderer", "graphics"];
    assert(terms@ =~= seq!["opengl", "software", "renderer", "graphics"]);
    FailureEntry {
        template: DiagnosisTemplate {
            id: "graphics.software-renderer",
            title: "Graphics runtime is using software rendering",
            severity: Severity::Warning,
            owner: "Host graphics/device visibility",
            summary: "OpenGL is being forced or detected as software rendering, which usually breaks simulator viewers or makes them unusably slow.",
            next,
            docs: "https://ausbxuse.github.io/robo-nix/users/troubleshooting#egl-or-opengl-context-failure",
        },
        matcher: Matcher::Any(markers),
        search_terms: terms,
    }
}

fn build_graphics_python_gui_import_entry() -> (r: FailureEntry)
    ensures
        r@ == graphics_python_gui_import_entry(),
{
    let next = vec!["uv sync", "review qt6 and desktop-gl components in robo.nix", "robo check --deep"];
    assert(next@ =~= seq!["uv sync", "review qt6 and desktop-gl components in robo.nix", "robo check --deep"]);
    let markers = vec!["PyQt6 GUI import failed", "failed to run PyQt6 GUI probe", "matplotlib QtAgg backend probe failed", "failed to run matplotlib QtAgg probe"];
    assert(markers@ =~= seq!["PyQt6 GUI import failed", "failed to run PyQt6 GUI probe", "matplotlib QtAgg backend probe failed", "failed to run matplotlib QtAgg probe"]);
    let terms = vec!["pyqt", "matplotlib", "qtagg", "gui", "graphics"];
    assert(terms@ =~= seq!["pyqt", "matplotlib", "qtagg", "gui", "graphics"]);
    FailureEntry {
        template: DiagnosisTemplate {
            id: "graphics.python-gui-import",
            title: "Python GUI import failed in the runtime",
            severity: Severity::Error,
            owner: "Project Python dependencies plus Nix graphics/runtime libraries",
            summary: "A Python GUI/backend probe failed after entering the runtime, usually because Qt bindings or native display/OpenGL libraries are incomplete.",
            next,
            docs: "https://ausbxuse.github.io/robo-nix/users/troubleshooting#python-gui-import-failed",
        },
        matcher: Matcher::Any(markers),
        search_terms: terms,
    }
}

fn build_media_ffmpeg_runtime_missing_entry() -> (r: FailureEntry)
    ensures
        r@ == media_ffmpeg_runtime_missing_entry(),
{
    let next = vec!["add media to robo.nix components", "robo check --deep"];
    assert(next@ =~= seq!["add media to robo.nix components", "robo check --deep"]);
    let markers = vec!["TorchCodec import failed", "failed to run TorchCodec import probe", "TorchCodec needs FFmpeg shared libraries"];
    assert(markers@ =~= seq!["TorchCodec import failed", "failed to run TorchCodec import probe", "TorchCodec needs FFmpeg shared libraries"]);
    let terms = vec!["torchcodec", "ffmpeg", "media", "runtime"];
    assert(terms@ =~= seq!["torchcodec", "ffmpeg", "media", "runtime"]);
    FailureEntry {
        template: DiagnosisTemplate {
            id: "media.ffmpeg-runtime-missing",
            title: "FFmpeg media runtime is missing or incomplete",
            severity: Severity::Error,
            owner: "Nix media runtime libraries",
            summary: "A video/media Python package failed because its FFmpeg shared-library runtime is not available or not aligned.",
            next,
            docs: "https://ausbxuse.github.io/robo-nix/users/troubleshooting#ffmpeg-media-runtime-missing",
        },
        matcher: Matcher::Any(markers),
        search_terms: terms,
    }
}

fn build_native_linux_headers_missing_entry() -> (r: FailureEntry)
    ensures
        r@ == native_linux_headers_missing_entry(),
{
    let next = vec!["add linux-headers to robo.nix components", "robo build"];
    assert(next@ =~= seq!["add linux-headers to robo.nix components", "robo build"]);
    let markers = vec!["linux/input.h: No such file or directory", "linux/joystick.h: No such file or directory"];
    assert(markers@ =~= seq!["linux/input.h: No such file or directory", "linux/joystick.h: No such file or directory"]);
    let terms = vec!["linux", "input", "joystick", "headers", "directory"];
    assert(terms@ =~= seq!["linux", "input", "joystick", "headers", "directory"]);
    FailureEntry {
        template: DiagnosisTemplate {
            id: "native.linux-headers-missing",
            title: "Linux userspace headers are missing",
            severity: Severity::Error,
            owner: "Nix runtime dependencies",
            summary: "A native extension included Linux kernel userspace headers that are not in the runtime.",
            next,
            docs: "https://ausbxuse.github.io/robo-nix/users/troubleshooting#missing-linux-headers",
        },
        matcher: Matcher::Any(markers),
        search_terms: terms,
    }
}

fn build_native_python_build_tool_shim_entry() -> (r: FailureEntry)
    ensures
        r@ == native_python_build_tool_shim_entry(),
{
    let next = vec!["robo shell", "which cmake", "which ninja"];
    assert(next@ =~= seq!["robo shell", "which cmake", "which ninja"]);
    let any = vec!["Python virtualenv contains native build tool shims", "Python environment contains native build tool shims"];
    assert(any@ =~= seq!["Python virtualenv contains native build tool shims", "Python environment contains native build tool shims"]);
    let one_of = vec![".venv/bin/cmake", ".venv/bin/ninja"];
    assert(one_of@ =~= seq![".venv/bin/cmake", ".venv/bin/ninja"]);
    let terms = vec!["venv", "cmake", "ninja", "glibc", "shim"];
    assert(terms@ =~= seq!["venv", "cmake", "ninja", "glibc", "shim"]);
    FailureEntry {
        template: DiagnosisTemplate {
            id: "native.python-build-tool-shim",
            title: "Python-owned native build tool shim is crossing the ABI boundary",
            severity: Severity::Warning,
            owner: "Project build invocation plus Python/native boundary",
            summary: "A Python-owned build-tool executable is present where the runtime expects Nix-owned native build tools.",
            next,
            docs: "https://ausbxuse.github.io/robo-nix/users/troubleshooting#native-build-tool-shims-in-venv",
        },
        matcher: Matcher::AnyOrPair { any, required: "GLIBC_", one_of },
        search_terms: terms,
    }
}

/// The built-in table of known failures.
pub fn entries() -> (r: Vec<FailureEntry>)
    ensures
        entry_views(r@) == entry_table(),
{
    let mut r: Vec<FailureEntry> = Vec::new();
    r.push(build_python_glibc_abi_mix_entry());
    r.push(build_python_local_editable_missing_entry());
    r.push(build_python_env_missing_entry());
    r.push(build_python_env_host_owned_entry());
    r.push(build_python_version_mismatch_entry());
    r.push(build_python_project_files_missing_entry());
    r.push(build_runtime_files_missing_or_stale_entry());
    r.push(build_runtime_components_incomplete_entry());
    r.push(build_project_required_directories_missing_entry());
    r.push(build_native_qt6_cmake_missing_entry());
    r.push(build_python_cmake_helper_missing_entry());
    r.push(build_cuda_driver_not_visible_entry());
    r.push(build_cuda_host_not_ready_entry());
    r.push(build_cuda_driver_wheel_mismatch_entry());
    r.push(build_cuda_toolkit_not_visible_entry());
    r.push(build_runtime_tool_missing_entry());
    r.push(build_graphics_egl_context_entry());
    r.push(build_graphics_mujoco_gl_forced_entry());
    r.push(build_graphics_software_renderer_entry());
    r.push(build_graphics_python_gui_import_entry());
    r.push(build_media_ffmpeg_runtime_missing_entry());
    r.push(build_native_linux_headers_missing_entry());
    r.push(build_native_python_build_tool_shim_entry());
    assert(entry_views(r@) =~= entry_table());
    r
}

// ---------------------------------------------------------------------
// The report
// ---------------------------------------------------------------------

/// The text of a severity.
pub open spec fn severity_text(s: Severity) -> Seq<char> {
    match s {
        Severity::Error => "error"@,
        Severity::Warning => "warning"@,
    }
}

/// Each text indented by two spaces.
pub open spec fn indented_all(ts: Seq<&'static str>) -> Seq<Seq<char>> {
    ts.map_values(|t: &'static str| "  "@ + t@)
}

/// A possible match: its id and title, then its documentation.
/// The `docs` label, padded to five columns in plain output (`{:<5}`);
/// styled, the escape codes already exceed the width and it stays bare.
pub open spec fn docs_label(pad: bool) -> Seq<char> {
    if pad {
        crate::text::left_aligned("docs"@, 5)
    } else {
        "docs"@
    }
}

pub open spec fn suggestion_lines(s: Suggestion, pad: bool) -> Seq<Seq<char>> {
    seq!["  "@ + s.id@ + "  "@ + s.title@, "    "@ + docs_label(pad) + " "@ + s.docs@]
}

pub open spec fn suggestions_block(ss: Seq<Suggestion>, pad: bool) -> Seq<Seq<char>>
    decreases ss.len(),
{
    if ss.len() == 0 {
        Seq::empty()
    } else {
        suggestions_block(ss.drop_last(), pad) + suggestion_lines(ss.last(), pad)
    }
}

/// One diagnosis: its heading, problem, evidence (the markers worth showing),
/// owner, commands to try and documentation.
pub open spec fn diagnosis_block(d: DiagnosisView) -> Seq<Seq<char>> {
    seq![
        severity_text(d.severity) + "["@ + d.id@ + "]:"@ + " "@ + d.title@,
        Seq::empty(),
        "problem"@,
        "  "@ + d.summary@,
        Seq::empty(),
        "evidence"@,
    ] + indented_all(display_spec(d.matched)) + seq![
        Seq::empty(),
        "owner"@,
        "  "@ + d.owner@,
        Seq::empty(),
        "try"@,
    ] + indented_all(d.next) + seq![Seq::empty(), "docs"@, "  "@ + d.docs@]
}

/// The diagnoses, an empty line between two.
pub open spec fn matches_block(ds: Seq<DiagnosisView>) -> Seq<Seq<char>>
    decreases ds.len(),
{
    if ds.len() == 0 {
        Seq::empty()
    } else if ds.len() == 1 {
        diagnosis_block(ds[0])
    } else {
        matches_block(ds.drop_last()) + seq![Seq::empty()] + diagnosis_block(ds.last())
    }
}

/// What `robo diagnose` prints (without colour): the diagnoses; else, when
/// a short query names possible matches, those; else where to look next.
pub open spec fn diagnosis_report(matches: Seq<DiagnosisView>, suggestions: Seq<Suggestion>, pad: bool) -> Seq<Seq<char>> {
    if matches.len() > 0 {
        matches_block(matches)
    } else if suggestions.len() > 0 {
        seq![
            "no diagnosis matched"@,
            Seq::empty(),
            "reason"@,
            "  "@ + "not enough evidence for a known failure match"@,
            "possible matches"@,
        ] + suggestions_block(suggestions, pad) + seq![
            "try"@,
            "  "@ + "pipe the full error log to `robo diagnose -`"@,
            "  "@ + "robo check --deep"@,
        ]
    } else {
        seq![
            "no diagnosis matched"@,
            Seq::empty(),
            "try"@,
            "  "@ + "robo check --deep"@,
            Seq::empty(),
            "docs"@,
            "  "@ + "https://ausbxuse.github.io/robo-nix/users/troubleshooting"@,
        ]
    }
}

/// Two spaces, then the shown text.
fn indented_line(config: crate::ui::Config, t: &'static str, command: bool) -> (r: String)
    ensures
        crate::ui::renders(config, r@, "  "@ + t@),
{
    let shown = if command {
        crate::ui::label(config, t, LabelKind::Command)
    } else {
        crate::ui::inline(config, t)
    };
    crate::ui::text_glue(config, "  ", shown.as_str(), Ghost(t@))
}

/// Each text indented by two spaces, as a label of `kind` (commands) or as
/// inline text.
fn add_indented(out: &mut crate::ui::Rendered, config: crate::ui::Config, ts: &Vec<&'static str>, command: bool)
    requires
        old(out).fits(config),
    ensures
        final(out).fits(config),
        final(out).plain@ == old(out).plain@ + indented_all(ts@),
{
    let ghost start = out.plain@;
    let mut i: usize = 0;
    assert(indented_all(ts@.take(0)) =~= Seq::<Seq<char>>::empty());
    while i < ts.len()
        invariant
            i <= ts.len(),
            out.fits(config),
            out.plain@ == start + indented_all(ts@.take(i as int)),
        decreases ts.len() - i,
    {
        out.push(config, indented_line(config, ts[i], command), Ghost("  "@ + ts@[i as int]@));
        assert(indented_all(ts@.take(i + 1)) =~= indented_all(ts@.take(i as int)).push("  "@ + ts@[i as int]@));
        i = i + 1;
    }
    assert(ts@.take(ts.len() as int) =~= ts@);
}

fn add_diagnosis(out: &mut crate::ui::Rendered, config: crate::ui::Config, d: &Diagnosis)
    requires
        old(out).fits(config),
    ensures
        final(out).fits(config),
        final(out).plain@ == old(out).plain@ + diagnosis_block(d@),
{
    let ghost start = out.plain@;
    let head = crate::text::concat4(d.severity.label(), "[", d.id, "]:");
    let heading = crate::ui::glue(
        config,
        crate::ui::glue_text(
            config,
            crate::ui::label(config, head.as_str(), d.severity.label_kind()).as_str(),
            Ghost(head@),
            " ",
        ).as_str(),
        Ghost(head@ + " "@),
        crate::ui::inline(config, d.title).as_str(),
        Ghost(d.title@),
    );
    out.push(config, heading, Ghost(head@ + " "@ + d.title@));
    out.push_text(config, String::new());
    out.push(config, crate::ui::label(config, "problem", LabelKind::Status), Ghost("problem"@));
    out.push(config, crate::ui::text_glue(config, "  ", crate::ui::inline(config, d.summary).as_str(), Ghost(d.summary@)), Ghost("  "@ + d.summary@));
    out.push_text(config, String::new());
    out.push(config, crate::ui::label(config, "evidence", LabelKind::Status), Ghost("evidence"@));
    let ghost first = out.plain@;
    let shown = display_markers(&d.matched);
    add_indented(out, config, &shown, false);
    let ghost second = out.plain@;
    out.push_text(config, String::new());
    out.push(config, crate::ui::label(config, "owner", LabelKind::Status), Ghost("owner"@));
    out.push(config, crate::ui::text_glue(config, "  ", crate::ui::inline(config, d.owner).as_str(), Ghost(d.owner@)), Ghost("  "@ + d.owner@));
    out.push_text(config, String::new());
    out.push(config, crate::ui::label(config, "try", LabelKind::Status), Ghost("try"@));
    let ghost third = out.plain@;
    add_indented(out, config, &d.next, true);
    let ghost fourth = out.plain@;
    out.push_text(config, String::new());
    out.push(config, crate::ui::label(config, "docs", LabelKind::Status), Ghost("docs"@));
    out.push(config, crate::ui::text_glue(config, "  ", crate::ui::inline(config, d.docs).as_str(), Ghost(d.docs@)), Ghost("  "@ + d.docs@));
    proof {
        assert(first =~= start + seq![
            severity_text(d.severity) + "["@ + d.id@ + "]:"@ + " "@ + d.title@,
            Seq::empty(),
            "problem"@,
            "  "@ + d.summary@,
            Seq::empty(),
            "evidence"@,
        ]);
        assert(third =~= second + seq![Seq::empty(), "owner"@, "  "@ + d.owner@, Seq::empty(), "try"@]);
        assert(out.plain@ =~= fourth + seq![Seq::empty(), "docs"@, "  "@ + d.docs@]);
        assert(out.plain@ =~= start + diagnosis_block(d@));
    }
}

/// The lines `robo diagnose` prints for a result.
pub fn diagnosis_report_lines(config: crate::ui::Config, result: &DiagnosisResult) -> (r: Vec<String>)
    ensures
        crate::ui::renders_lines(config, crate::text::strs(r@), diagnosis_report(
            diagnosis_views(result.matches@),
            result.suggestions@,
            !config.color,
        )),
{
    let mut out = crate::ui::Rendered::new(config);
    let ghost ds = diagnosis_views(result.matches@);
    if result.matches.len() > 0 {
        let mut i: usize = 0;
        while i < result.matches.len()
            invariant
                i <= result.matches.len(),
                ds == diagnosis_views(result.matches@),
                out.fits(config),
                out.plain@ == matches_block(ds.take(i as int)),
            decreases result.matches.len() - i,
        {
            let ghost before = out.plain@;
            if i > 0 {
                out.push_text(config, String::new());
            }
            let ghost mid = out.plain@;
            add_diagnosis(&mut out, config, &result.matches[i]);
            proof {
                let t = ds.take(i + 1);
                assert(t.drop_last() =~= ds.take(i as int));
                assert(t.last() == result.matches@[i as int]@);
                if i == 0 {
                    assert(t.len() == 1);
                    assert(t[0] == t.last());
                    assert(before =~= Seq::<Seq<char>>::empty());
                    assert(out.plain@ =~= matches_block(t));
                } else {
                    assert(mid =~= before + seq![Seq::<char>::empty()]);
                    assert(out.plain@ =~= matches_block(t));
                }
            }
            i = i + 1;
        }
        assert(ds.take(result.matches.len() as int) =~= ds);
        return out.lines;
    }
    assert(ds.len() == 0);
    out.push(config, crate::ui::label(config, "no diagnosis matched", LabelKind::Warn), Ghost("no diagnosis matched"@));
    out.push_text(config, String::new());
    if result.suggestions.len() > 0 {
        out.push(config, crate::ui::label(config, "reason", LabelKind::Status), Ghost("reason"@));
        let reason = "not enough evidence for a known failure match";
        out.push(config, crate::ui::text_glue(config, "  ", crate::ui::inline(config, reason).as_str(), Ghost(reason@)), Ghost("  "@ + reason@));
        out.push(config, crate::ui::label(config, "possible matches", LabelKind::Status), Ghost("possible matches"@));
        let ghost head = out.plain@;
        let mut i: usize = 0;
        assert(suggestions_block(result.suggestions@.take(0), !config.color) =~= Seq::<Seq<char>>::empty());
        while i < result.suggestions.len()
            invariant
                i <= result.suggestions.len(),
                out.fits(config),
                out.plain@ == head + suggestions_block(result.suggestions@.take(i as int), !config.color),
            decreases result.suggestions.len() - i,
        {
            let s = result.suggestions[i];
            let ghost before = out.plain@;
            let id_part = crate::ui::glue_text(
                config,
                crate::ui::text_glue(config, "  ", crate::ui::label(config, s.id, LabelKind::Hint).as_str(), Ghost(s.id@)).as_str(),
                Ghost("  "@ + s.id@),
                "  ",
            );
            let first = crate::ui::glue(
                config,
                id_part.as_str(),
                Ghost("  "@ + s.id@ + "  "@),
                crate::ui::inline(config, s.title).as_str(),
                Ghost(s.title@),
            );
            out.push(config, first, Ghost("  "@ + s.id@ + "  "@ + s.title@));
            let docs = padded_docs_label(config);
            let d1 = crate::ui::glue_text(
                config,
                crate::ui::text_glue(config, "    ", docs.as_str(), Ghost(docs_label(!config.color))).as_str(),
                Ghost("    "@ + docs_label(!config.color)),
                " ",
            );
            let second = crate::ui::glue(
                config,
                d1.as_str(),
                Ghost("    "@ + docs_label(!config.color) + " "@),
                crate::ui::inline(config, s.docs).as_str(),
                Ghost(s.docs@),
            );
            out.push(config, second, Ghost("    "@ + docs_label(!config.color) + " "@ + s.docs@));
            proof {
                let t = result.suggestions@.take(i + 1);
                assert(t.drop_last() =~= result.suggestions@.take(i as int));
                assert(t.last() == s);
                assert(out.plain@ =~= before + suggestion_lines(s, !config.color));
                assert(out.plain@ =~= head + suggestions_block(t, !config.color));
            }
            i = i + 1;
        }
        assert(result.suggestions@.take(result.suggestions.len() as int) =~= result.suggestions@);
        let ghost mid = out.plain@;
        out.push(config, crate::ui::label(config, "try", LabelKind::Status), Ghost("try"@));
        let pipe = "pipe the full error log to `robo diagnose -`";
        out.push(config, crate::ui::text_glue(config, "  ", crate::ui::inline(config, pipe).as_str(), Ghost(pipe@)), Ghost("  "@ + pipe@));
        out.push(config, indented_line(config, "robo check --deep", true), Ghost("  "@ + "robo check --deep"@));
        proof {
            assert(out.plain@ =~= diagnosis_report(ds, result.suggestions@, !config.color));
        }
        return out.lines;
    }
    out.push(config, crate::ui::label(config, "try", LabelKind::Status), Ghost("try"@));
    out.push(config, indented_line(config, "robo check --deep", true), Ghost("  "@ + "robo check --deep"@));
    out.push_text(config, String::new());
    out.push(config, crate::ui::label(config, "docs", LabelKind::Status), Ghost("docs"@));
    let url = "https://ausbxuse.github.io/robo-nix/users/troubleshooting";
    out.push(config, crate::ui::text_glue(config, "  ", crate::ui::inline(config, url).as_str(), Ghost(url@)), Ghost("  "@ + url@));
    proof {
        assert(out.plain@ =~= diagnosis_report(ds, result.suggestions@, !config.color));
    }
    out.lines
}

/// The `docs` label padded to five characters, as `{:<5}` pads it: the
/// padding counts every character of the rendered label, escape codes
/// included.
fn padded_docs_label(config: crate::ui::Config) -> (r: String)
    ensures
        crate::ui::renders(config, r@, docs_label(!config.color)),
{
    let shown = crate::ui::label(config, "docs", LabelKind::Hint);
    let r = crate::text::pad_right(shown.as_str(), 5);
    proof {
        let pad = r@.skip(shown@.len() as int);
        assert(r@ =~= shown@ + pad);
        assert(crate::ui::padding(pad));
        crate::ui::lemma_shows_nothing(pad);
        crate::ui::lemma_shows_concat(shown@, "docs"@, pad, Seq::<char>::empty());
        assert("docs"@ + Seq::<char>::empty() =~= "docs"@);
        if !config.color {
            crate::ui::lemma_shows_itself(r@);
        }
    }
    r
}

} // verus!
