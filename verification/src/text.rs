//! Character-level text primitives shared by every parser in the crate.
//!
//! Text is modelled as `Seq<char>` (the view of `str` and `String`). Each
//! executable helper here works on `Vec<char>` and is proved equal to a
//! spec function that states what the matching `str` method computes.
use vstd::prelude::*;

verus! {

broadcast use vstd::string::group_string_axioms;

/// Unicode `White_Space`, the set that `char::is_whitespace` tests.
pub open spec fn is_ws(c: char) -> bool {
    ||| ('\t' <= c && c <= '\r')
    ||| c == ' '
    ||| c == '\u{85}'
    ||| c == '\u{a0}'
    ||| c == '\u{1680}'
    ||| ('\u{2000}' <= c && c <= '\u{200a}')
    ||| c == '\u{2028}'
    ||| c == '\u{2029}'
    ||| c == '\u{202f}'
    ||| c == '\u{205f}'
    ||| c == '\u{3000}'
}

pub open spec fn is_digit(c: char) -> bool {
    '0' <= c && c <= '9'
}

pub open spec fn is_upper(c: char) -> bool {
    'A' <= c && c <= 'Z'
}

pub open spec fn is_lower(c: char) -> bool {
    'a' <= c && c <= 'z'
}

pub open spec fn is_alnum(c: char) -> bool {
    is_digit(c) || is_upper(c) || is_lower(c)
}

/// A class of characters that a split or a trim stops at.
#[derive(Clone, Copy)]
pub enum Sep {
    /// Exactly this character.
    Char(char),
    /// `char::is_whitespace`.
    Whitespace,
    /// Anything but an ASCII letter or digit.
    NotAlnum,
    /// Anything but an ASCII letter, digit, `.`, `-` or `_`.
    NotIdent,
    /// `.`, space, `_` or `-`.
    VersionSep,
    /// Whitespace or one of `: , ; ' " ``.
    Punct,
    /// Anything but an ASCII digit or `.`.
    NotDigitOrDot,
    /// `(` or `)`.
    Paren,
    /// A quote or `$`.
    QuoteDollar,
    /// A quote, `$`, `{` or `}`.
    QuoteDollarBrace,
    /// A quote or `;`.
    QuoteSemi,
    /// A quote or whitespace.
    QuoteOrWhitespace,
}

pub open spec fn is_punct(c: char) -> bool {
    c == ':' || c == ',' || c == ';' || c == '\'' || c == '"' || c == '`'
}

pub open spec fn in_sep(sep: Sep, c: char) -> bool {
    match sep {
        Sep::Char(x) => c == x,
        Sep::Whitespace => is_ws(c),
        Sep::NotAlnum => !is_alnum(c),
        Sep::NotIdent => !(is_alnum(c) || c == '.' || c == '-' || c == '_'),
        Sep::VersionSep => c == '.' || c == ' ' || c == '_' || c == '-',
        Sep::Punct => is_ws(c) || is_punct(c),
        Sep::NotDigitOrDot => !(is_digit(c) || c == '.'),
        Sep::Paren => c == '(' || c == ')',
        Sep::QuoteDollar => c == '"' || c == '\'' || c == '$',
        Sep::QuoteDollarBrace => c == '"' || c == '\'' || c == '$' || c == '{' || c == '}',
        Sep::QuoteSemi => c == '"' || c == '\'' || c == ';',
        Sep::QuoteOrWhitespace => c == '"' || c == '\'' || is_ws(c),
    }
}

pub fn is_whitespace(c: char) -> (r: bool)
    ensures
        r == is_ws(c),
{
    ('\t' <= c && c <= '\r') || c == ' ' || c == '\u{85}' || c == '\u{a0}' || c == '\u{1680}'
        || ('\u{2000}' <= c && c <= '\u{200a}') || c == '\u{2028}' || c == '\u{2029}' || c
        == '\u{202f}' || c == '\u{205f}' || c == '\u{3000}'
}

pub fn is_ascii_digit(c: char) -> (r: bool)
    ensures
        r == is_digit(c),
{
    '0' <= c && c <= '9'
}

pub fn is_ascii_upper(c: char) -> (r: bool)
    ensures
        r == is_upper(c),
{
    'A' <= c && c <= 'Z'
}

pub fn is_ascii_alnum(c: char) -> (r: bool)
    ensures
        r == is_alnum(c),
{
    ('0' <= c && c <= '9') || ('A' <= c && c <= 'Z') || ('a' <= c && c <= 'z')
}

pub fn sep_has(sep: Sep, c: char) -> (r: bool)
    ensures
        r == in_sep(sep, c),
{
    match sep {
        Sep::Char(x) => c == x,
        Sep::Whitespace => is_whitespace(c),
        Sep::NotAlnum => !is_ascii_alnum(c),
        Sep::NotIdent => !(is_ascii_alnum(c) || c == '.' || c == '-' || c == '_'),
        Sep::VersionSep => c == '.' || c == ' ' || c == '_' || c == '-',
        Sep::Punct => is_whitespace(c) || c == ':' || c == ',' || c == ';' || c == '\'' || c
            == '"' || c == '`',
        Sep::NotDigitOrDot => !(is_ascii_digit(c) || c == '.'),
        Sep::Paren => c == '(' || c == ')',
        Sep::QuoteDollar => c == '"' || c == '\'' || c == '$',
        Sep::QuoteDollarBrace => c == '"' || c == '\'' || c == '$' || c == '{' || c == '}',
        Sep::QuoteSemi => c == '"' || c == '\'' || c == ';',
        Sep::QuoteOrWhitespace => c == '"' || c == '\'' || is_whitespace(c),
    }
}

/// `char::to_ascii_lowercase`.
pub open spec fn lower_char(c: char) -> char {
    if is_upper(c) {
        ((c as u32) + 32) as char
    } else {
        c
    }
}

pub open spec fn lower(s: Seq<char>) -> Seq<char> {
    s.map_values(|c: char| lower_char(c))
}

pub fn to_lower_char(c: char) -> (r: char)
    ensures
        r == lower_char(c),
{
    if 'A' <= c && c <= 'Z' {
        let x: u32 = c as u32 + 32;
        let b: u8 = x as u8;
        b as char
    } else {
        c
    }
}

/// The characters of a string slice, in order.
pub fn chars_of(s: &str) -> (r: Vec<char>)
    ensures
        r@ == s@,
{
    let mut out: Vec<char> = Vec::new();
    for c in it: s.chars()
        invariant
            out@ == it.seq().take(it.index() as int),
    {
        out.push(c);
    }
    out
}

/// `String::push`.
#[verifier::external_body]
fn push_char(s: &mut String, c: char)
    ensures
        final(s)@ == old(s)@.push(c),
{
    s.push(c);
}


/// The text `String::from_utf8_lossy` makes of a byte string: a function of
/// the bytes alone.
pub uninterp spec fn lossy_text(bytes: Seq<u8>) -> Seq<char>;

/// `String::from_utf8_lossy`, owned. Valid UTF-8 decodes as it is (std's
/// documentation: the borrowed text is returned then); other bytes get
/// replacement characters, which is left unsaid here.
#[verifier::external_body]
pub fn lossy_utf8(bytes: &[u8]) -> (r: String)
    ensures
        r@ == lossy_text(bytes@),
        vstd::utf8::valid_utf8(bytes@) ==> r@ == vstd::utf8::decode_utf8(bytes@),
{
    String::from_utf8_lossy(bytes).into_owned()
}

/// The text `String::from_utf8_lossy` makes of a byte string: the decoded
/// text when the bytes are valid UTF-8.
pub open spec fn lossy_decoded(bytes: Seq<u8>) -> Seq<char> {
    if vstd::utf8::valid_utf8(bytes) {
        vstd::utf8::decode_utf8(bytes)
    } else {
        lossy_text(bytes)
    }
}

/// `String::from_utf8`: the text when the bytes are valid UTF-8.
#[verifier::external_body]
pub fn utf8_string(bytes: Vec<u8>) -> (r: Option<String>)
    ensures
        r is Some <==> vstd::utf8::valid_utf8(bytes@),
        r matches Some(s) ==> s@ == vstd::utf8::decode_utf8(bytes@),
{
    String::from_utf8(bytes).ok()
}

/// A `String` holding exactly these characters.
pub fn string_of(v: &Vec<char>) -> (r: String)
    ensures
        r@ == v@,
{
    let mut out = String::new();
    let mut i: usize = 0;
    while i < v.len()
        invariant
            i <= v.len(),
            out@ == v@.take(i as int),
        decreases v.len() - i,
    {
        push_char(&mut out, v[i]);
        assert(v@.take(i + 1) == v@.take(i as int).push(v@[i as int]));
        i = i + 1;
    }
    assert(v@.take(v.len() as int) == v@);
    out
}

/// A `String` copied from a string slice.
pub fn owned(s: &str) -> (r: String)
    ensures
        r@ == s@,
{
    s.to_owned()
}

/// `a` followed by `b`.
pub fn concat(a: &str, b: &str) -> (r: String)
    ensures
        r@ == a@ + b@,
{
    let mut out = a.to_owned();
    out.append(b);
    out
}

/// `a`, `b` and `c` joined.
pub fn concat3(a: &str, b: &str, c: &str) -> (r: String)
    ensures
        r@ == a@ + b@ + c@,
{
    let mut out = a.to_owned();
    out.append(b);
    out.append(c);
    out
}

/// `a`, `b`, `c` and `d` joined.
pub fn concat4(a: &str, b: &str, c: &str, d: &str) -> (r: String)
    ensures
        r@ == a@ + b@ + c@ + d@,
{
    let mut out = a.to_owned();
    out.append(b);
    out.append(c);
    out.append(d);
    out
}

/// A copy of `v[start..end]`.
pub fn slice(v: &Vec<char>, start: usize, end: usize) -> (r: Vec<char>)
    requires
        start <= end <= v.len(),
    ensures
        r@ == v@.subrange(start as int, end as int),
{
    let mut out: Vec<char> = Vec::new();
    let mut i = start;
    while i < end
        invariant
            start <= i <= end <= v.len(),
            out@ == v@.subrange(start as int, i as int),
        decreases end - i,
    {
        out.push(v[i]);
        assert(v@.subrange(start as int, i + 1) == v@.subrange(start as int, i as int).push(
            v@[i as int],
        ));
        i = i + 1;
    }
    out
}

pub fn lowercase(v: &Vec<char>) -> (r: Vec<char>)
    ensures
        r@ == lower(v@),
{
    let mut out: Vec<char> = Vec::new();
    let mut i: usize = 0;
    while i < v.len()
        invariant
            i <= v.len(),
            out@ == lower(v@.take(i as int)),
        decreases v.len() - i,
    {
        out.push(to_lower_char(v[i]));
        assert(lower(v@.take(i + 1)) == lower(v@.take(i as int)).push(lower_char(v@[i as int])));
        i = i + 1;
    }
    assert(v@.take(v.len() as int) == v@);
    out
}

pub fn eq_chars(a: &Vec<char>, b: &Vec<char>) -> (r: bool)
    ensures
        r == (a@ == b@),
{
    if a.len() != b.len() {
        return false;
    }
    let mut i: usize = 0;
    while i < a.len()
        invariant
            a.len() == b.len(),
            i <= a.len(),
            a@.take(i as int) == b@.take(i as int),
        decreases a.len() - i,
    {
        if a[i] != b[i] {
            assert(a@[i as int] != b@[i as int]);
            return false;
        }
        assert(a@.take(i + 1) == a@.take(i as int).push(a@[i as int]));
        assert(b@.take(i + 1) == b@.take(i as int).push(b@[i as int]));
        i = i + 1;
    }
    assert(a@.take(a.len() as int) == a@);
    assert(b@.take(b.len() as int) == b@);
    true
}

/// Whether two string slices hold the same text.
pub fn str_eq(a: &str, b: &str) -> (r: bool)
    ensures
        r == (a@ == b@),
{
    let va = chars_of(a);
    let vb = chars_of(b);
    eq_chars(&va, &vb)
}

/// `s == lit` for a string slice.
pub fn eq_str(a: &Vec<char>, lit: &str) -> (r: bool)
    ensures
        r == (a@ == lit@),
{
    let b = chars_of(lit);
    eq_chars(a, &b)
}

// ---------------------------------------------------------------------
// Prefixes, suffixes and search
// ---------------------------------------------------------------------

pub open spec fn is_prefix(p: Seq<char>, s: Seq<char>) -> bool {
    p.len() <= s.len() && s.take(p.len() as int) == p
}

pub open spec fn is_suffix(p: Seq<char>, s: Seq<char>) -> bool {
    p.len() <= s.len() && s.skip(s.len() - p.len()) == p
}

pub open spec fn occurs_at(s: Seq<char>, p: Seq<char>, i: int) -> bool {
    0 <= i && i + p.len() <= s.len() && s.subrange(i, i + p.len()) == p
}

/// The first index at or after `i` at which `p` occurs in `s`.
pub open spec fn find_from(s: Seq<char>, p: Seq<char>, i: int) -> Option<int>
    decreases s.len() + 1 - i,
{
    if i < 0 || i + p.len() > s.len() {
        None
    } else if occurs_at(s, p, i) {
        Some(i)
    } else {
        find_from(s, p, i + 1)
    }
}

/// `str::find`: the first index at which `p` occurs.
pub open spec fn find(s: Seq<char>, p: Seq<char>) -> Option<int> {
    find_from(s, p, 0)
}

/// `str::contains`.
pub open spec fn contains(s: Seq<char>, p: Seq<char>) -> bool {
    find(s, p) is Some
}

/// The last index at or before `i` at which `p` occurs in `s`.
pub open spec fn rfind_upto(s: Seq<char>, p: Seq<char>, i: int) -> Option<int>
    decreases i + 1,
{
    if i < 0 {
        None
    } else if occurs_at(s, p, i) {
        Some(i)
    } else {
        rfind_upto(s, p, i - 1)
    }
}

/// `str::rfind`: the last index at which `p` occurs.
pub open spec fn rfind(s: Seq<char>, p: Seq<char>) -> Option<int> {
    rfind_upto(s, p, s.len() - p.len())
}

pub proof fn lemma_find_from(s: Seq<char>, p: Seq<char>, i: int)
    requires
        0 <= i,
    ensures
        find_from(s, p, i) matches Some(k) ==> (i <= k && occurs_at(s, p, k) && forall|j: int|
            i <= j < k ==> !occurs_at(s, p, j)),
        find_from(s, p, i) is None ==> forall|j: int| i <= j ==> !occurs_at(s, p, j),
    decreases s.len() + 1 - i,
{
    if i + p.len() > s.len() {
    } else if occurs_at(s, p, i) {
    } else {
        lemma_find_from(s, p, i + 1);
    }
}

pub proof fn lemma_rfind_upto(s: Seq<char>, p: Seq<char>, i: int)
    ensures
        rfind_upto(s, p, i) matches Some(k) ==> (k <= i && occurs_at(s, p, k) && forall|j: int|
            k < j <= i ==> !occurs_at(s, p, j)),
        rfind_upto(s, p, i) is None ==> forall|j: int| j <= i ==> !occurs_at(s, p, j),
    decreases i + 1,
{
    if i < 0 {
    } else if occurs_at(s, p, i) {
    } else {
        lemma_rfind_upto(s, p, i - 1);
    }
}

pub fn starts_with(s: &Vec<char>, p: &Vec<char>) -> (r: bool)
    ensures
        r == is_prefix(p@, s@),
{
    if p.len() > s.len() {
        return false;
    }
    let head = slice(s, 0, p.len());
    let r = eq_chars(&head, p);
    assert(s@.take(p.len() as int) == s@.subrange(0, p.len() as int));
    r
}

pub fn starts_with_str(s: &Vec<char>, p: &str) -> (r: bool)
    ensures
        r == is_prefix(p@, s@),
{
    let pv = chars_of(p);
    starts_with(s, &pv)
}

pub fn ends_with(s: &Vec<char>, p: &Vec<char>) -> (r: bool)
    ensures
        r == is_suffix(p@, s@),
{
    if p.len() > s.len() {
        return false;
    }
    let tail = slice(s, s.len() - p.len(), s.len());
    assert(s@.skip(s.len() - p.len()) == s@.subrange(s.len() - p.len(), s.len() as int));
    eq_chars(&tail, p)
}

pub fn ends_with_str(s: &Vec<char>, p: &str) -> (r: bool)
    ensures
        r == is_suffix(p@, s@),
{
    let pv = chars_of(p);
    ends_with(s, &pv)
}

/// Whether `p` occurs in `s` at index `i`.
pub fn matches_at(s: &Vec<char>, p: &Vec<char>, i: usize) -> (r: bool)
    ensures
        r == occurs_at(s@, p@, i as int),
{
    if i > s.len() || p.len() > s.len() - i {
        return false;
    }
    let part = slice(s, i, i + p.len());
    eq_chars(&part, p)
}

pub fn find_chars(s: &Vec<char>, p: &Vec<char>) -> (r: Option<usize>)
    ensures
        r matches Some(k) ==> find(s@, p@) == Some(k as int),
        r is None ==> find(s@, p@) is None,
{
    if p.len() > s.len() {
        return None;
    }
    let last = s.len() - p.len();
    let mut i: usize = 0;
    loop
        invariant
            last == s.len() - p.len(),
            i <= last,
            find(s@, p@) == find_from(s@, p@, i as int),
        decreases last - i,
    {
        if matches_at(s, p, i) {
            return Some(i);
        }
        if i == last {
            assert(find_from(s@, p@, i + 1) is None);
            return None;
        }
        i = i + 1;
    }
}

pub fn find_str(s: &Vec<char>, p: &str) -> (r: Option<usize>)
    ensures
        r matches Some(k) ==> find(s@, p@) == Some(k as int),
        r is None ==> find(s@, p@) is None,
{
    let pv = chars_of(p);
    find_chars(s, &pv)
}

pub fn contains_chars(s: &Vec<char>, p: &Vec<char>) -> (r: bool)
    ensures
        r == contains(s@, p@),
{
    find_chars(s, p).is_some()
}

pub fn contains_str(s: &Vec<char>, p: &str) -> (r: bool)
    ensures
        r == contains(s@, p@),
{
    find_str(s, p).is_some()
}

pub fn rfind_chars(s: &Vec<char>, p: &Vec<char>) -> (r: Option<usize>)
    ensures
        r matches Some(k) ==> rfind(s@, p@) == Some(k as int),
        r is None ==> rfind(s@, p@) is None,
{
    if p.len() > s.len() {
        return None;
    }
    let mut i: usize = s.len() - p.len();
    loop
        invariant
            i <= s.len() - p.len(),
            rfind(s@, p@) == rfind_upto(s@, p@, i as int),
        decreases i,
    {
        if matches_at(s, p, i) {
            return Some(i);
        }
        if i == 0 {
            return None;
        }
        i = i - 1;
    }
}

/// `str::strip_prefix`.
pub open spec fn strip_prefix(s: Seq<char>, p: Seq<char>) -> Option<Seq<char>> {
    if is_prefix(p, s) {
        Some(s.skip(p.len() as int))
    } else {
        None
    }
}

/// `str::strip_suffix`.
pub open spec fn strip_suffix(s: Seq<char>, p: Seq<char>) -> Option<Seq<char>> {
    if is_suffix(p, s) {
        Some(s.take(s.len() - p.len()))
    } else {
        None
    }
}

pub fn strip_prefix_str(s: &Vec<char>, p: &str) -> (r: Option<Vec<char>>)
    ensures
        r matches Some(v) ==> strip_prefix(s@, p@) == Some(v@),
        r is None ==> strip_prefix(s@, p@) is None,
{
    let pv = chars_of(p);
    if starts_with(s, &pv) {
        let rest = slice(s, pv.len(), s.len());
        assert(s@.skip(pv.len() as int) == s@.subrange(pv.len() as int, s.len() as int));
        Some(rest)
    } else {
        None
    }
}

pub fn strip_suffix_str(s: &Vec<char>, p: &str) -> (r: Option<Vec<char>>)
    ensures
        r matches Some(v) ==> strip_suffix(s@, p@) == Some(v@),
        r is None ==> strip_suffix(s@, p@) is None,
{
    let pv = chars_of(p);
    if ends_with(s, &pv) {
        let rest = slice(s, 0, s.len() - pv.len());
        assert(s@.take(s.len() - pv.len()) == s@.subrange(0, s.len() - pv.len()));
        Some(rest)
    } else {
        None
    }
}

/// `str::split_once`: the text before and after the first occurrence of `p`.
pub open spec fn split_once(s: Seq<char>, p: Seq<char>) -> Option<(Seq<char>, Seq<char>)> {
    match find(s, p) {
        Some(i) => Some((s.take(i), s.skip(i + p.len()))),
        None => None,
    }
}

/// `str::rsplit_once`: the text before and after the last occurrence of `p`.
pub open spec fn rsplit_once(s: Seq<char>, p: Seq<char>) -> Option<(Seq<char>, Seq<char>)> {
    match rfind(s, p) {
        Some(i) => Some((s.take(i), s.skip(i + p.len()))),
        None => None,
    }
}

pub fn split_once_str(s: &Vec<char>, p: &str) -> (r: Option<(Vec<char>, Vec<char>)>)
    ensures
        r matches Some((a, b)) ==> split_once(s@, p@) == Some((a@, b@)),
        r is None ==> split_once(s@, p@) is None,
{
    let pv = chars_of(p);
    match find_chars(s, &pv) {
        Some(i) => {
            proof {
                lemma_find_from(s@, p@, 0);
            }
            let a = slice(s, 0, i);
            let b = slice(s, i + pv.len(), s.len());
            assert(s@.take(i as int) == s@.subrange(0, i as int));
            assert(s@.skip(i + p@.len()) == s@.subrange(i + p@.len(), s.len() as int));
            Some((a, b))
        },
        None => None,
    }
}

pub fn rsplit_once_str(s: &Vec<char>, p: &str) -> (r: Option<(Vec<char>, Vec<char>)>)
    ensures
        r matches Some((a, b)) ==> rsplit_once(s@, p@) == Some((a@, b@)),
        r is None ==> rsplit_once(s@, p@) is None,
{
    let pv = chars_of(p);
    match rfind_chars(s, &pv) {
        Some(i) => {
            proof {
                lemma_rfind_upto(s@, p@, s@.len() - p@.len());
            }
            let a = slice(s, 0, i);
            let b = slice(s, i + pv.len(), s.len());
            assert(s@.take(i as int) == s@.subrange(0, i as int));
            assert(s@.skip(i + p@.len()) == s@.subrange(i + p@.len(), s.len() as int));
            Some((a, b))
        },
        None => None,
    }
}


// ---------------------------------------------------------------------
// Splitting, lines and trimming
// ---------------------------------------------------------------------

/// The texts held by a vector of character vectors.
pub open spec fn views(v: Seq<Vec<char>>) -> Seq<Seq<char>> {
    v.map_values(|x: Vec<char>| x@)
}

pub proof fn lemma_views_push(v: Seq<Vec<char>>, x: Vec<char>)
    ensures
        views(v.push(x)) == views(v).push(x@),
{
    assert(views(v.push(x)) =~= views(v).push(x@));
}

/// `str::split` with a character class: the pieces between separators,
/// empty pieces included, so there is always one piece more than separators.
pub open spec fn split(s: Seq<char>, sep: Sep) -> Seq<Seq<char>>
    decreases s.len(),
{
    if s.len() == 0 {
        seq![Seq::<char>::empty()]
    } else {
        let prev = split(s.drop_last(), sep);
        let c = s.last();
        if in_sep(sep, c) {
            prev.push(Seq::<char>::empty())
        } else {
            prev.update(prev.len() - 1, prev.last().push(c))
        }
    }
}

pub proof fn lemma_split_len(s: Seq<char>, sep: Sep)
    ensures
        split(s, sep).len() >= 1,
    decreases s.len(),
{
    if s.len() > 0 {
        lemma_split_len(s.drop_last(), sep);
    }
}

/// The pieces of `split` that are not empty, as `str::split_whitespace`
/// gives them for `Sep::Whitespace`.
pub open spec fn non_empty(pieces: Seq<Seq<char>>) -> Seq<Seq<char>>
    decreases pieces.len(),
{
    if pieces.len() == 0 {
        pieces
    } else if pieces.last().len() > 0 {
        non_empty(pieces.drop_last()).push(pieces.last())
    } else {
        non_empty(pieces.drop_last())
    }
}

pub open spec fn split_whitespace(s: Seq<char>) -> Seq<Seq<char>> {
    non_empty(split(s, Sep::Whitespace))
}

pub open spec fn strip_cr(line: Seq<char>) -> Seq<char> {
    if line.len() > 0 && line.last() == '\r' {
        line.drop_last()
    } else {
        line
    }
}

/// `str::lines`: split at `\n`, drop one `\r` before each `\n`, and drop a
/// final empty line.
pub open spec fn lines(s: Seq<char>) -> Seq<Seq<char>> {
    let parts = split(s, Sep::Char('\n'));
    let n = parts.len();
    let body = parts.take(n - 1).map_values(|line: Seq<char>| strip_cr(line));
    if parts.last().len() == 0 {
        body
    } else {
        body.push(parts.last())
    }
}

pub fn split_chars(s: &Vec<char>, sep: Sep) -> (r: Vec<Vec<char>>)
    ensures
        views(r@) == split(s@, sep),
{
    let mut pieces: Vec<Vec<char>> = Vec::new();
    let mut cur: Vec<char> = Vec::new();
    let mut i: usize = 0;
    assert(s@.take(0).len() == 0);
    while i < s.len()
        invariant
            i <= s.len(),
            views(pieces@).push(cur@) == split(s@.take(i as int), sep),
        decreases s.len() - i,
    {
        let c = s[i];
        let ghost before = s@.take(i as int);
        assert(s@.take(i + 1).drop_last() == before);
        proof {
            lemma_split_len(before, sep);
        }
        let ghost old_views = views(pieces@);
        if sep_has(sep, c) {
            let done = cur;
            proof {
                lemma_views_push(pieces@, done);
            }
            pieces.push(done);
            cur = Vec::new();
            assert(views(pieces@).push(cur@) =~= split(s@.take(i + 1), sep));
        } else {
            cur.push(c);
            assert(old_views.push(cur@) =~= split(s@.take(i + 1), sep));
        }
        i = i + 1;
    }
    assert(s@.take(s.len() as int) == s@);
    proof {
        lemma_views_push(pieces@, cur);
    }
    pieces.push(cur);
    pieces
}

pub fn split_str(s: &Vec<char>, sep: char) -> (r: Vec<Vec<char>>)
    ensures
        views(r@) == split(s@, Sep::Char(sep)),
{
    split_chars(s, Sep::Char(sep))
}

pub fn keep_non_empty(pieces: Vec<Vec<char>>) -> (r: Vec<Vec<char>>)
    ensures
        views(r@) == non_empty(views(pieces@)),
{
    let mut out: Vec<Vec<char>> = Vec::new();
    let ghost all = views(pieces@);
    assert(all.take(0) =~= Seq::<Seq<char>>::empty());
    let mut i: usize = 0;
    while i < pieces.len()
        invariant
            i <= pieces.len(),
            all == views(pieces@),
            views(out@) == non_empty(all.take(i as int)),
        decreases pieces.len() - i,
    {
        assert(all.take(i + 1).drop_last() == all.take(i as int));
        assert(all[i as int] == pieces@[i as int]@);
        if pieces[i].len() > 0 {
            let x = clone_chars(&pieces[i]);
            proof {
                lemma_views_push(out@, x);
            }
            out.push(x);
        }
        i = i + 1;
    }
    assert(all.take(pieces.len() as int) == all);
    out
}

pub fn clone_chars(v: &Vec<char>) -> (r: Vec<char>)
    ensures
        r@ == v@,
{
    slice(v, 0, v.len())
}

pub fn words(s: &Vec<char>) -> (r: Vec<Vec<char>>)
    ensures
        views(r@) == split_whitespace(s@),
{
    keep_non_empty(split_chars(s, Sep::Whitespace))
}

pub fn drop_cr(line: &Vec<char>) -> (r: Vec<char>)
    ensures
        r@ == strip_cr(line@),
{
    if line.len() > 0 && line[line.len() - 1] == '\r' {
        slice(line, 0, line.len() - 1)
    } else {
        clone_chars(line)
    }
}

pub fn lines_of(s: &Vec<char>) -> (r: Vec<Vec<char>>)
    ensures
        views(r@) == lines(s@),
{
    let parts = split_chars(s, Sep::Char('\n'));
    let ghost pv = views(parts@);
    proof {
        lemma_split_len(s@, Sep::Char('\n'));
    }
    let n = parts.len();
    let mut out: Vec<Vec<char>> = Vec::new();
    let mut i: usize = 0;
    while i + 1 < n
        invariant
            n == parts.len(),
            n >= 1,
            i + 1 <= n,
            pv == views(parts@),
            views(out@) == pv.take(i as int).map_values(|line: Seq<char>| strip_cr(line)),
        decreases n - i,
    {
        let x = drop_cr(&parts[i]);
        proof {
            lemma_views_push(out@, x);
        }
        out.push(x);
        assert(pv.take(i + 1) == pv.take(i as int).push(pv[i as int]));
        assert(pv.take(i + 1).map_values(|line: Seq<char>| strip_cr(line)) =~= pv.take(
            i as int,
        ).map_values(|line: Seq<char>| strip_cr(line)).push(strip_cr(pv[i as int])));
        i = i + 1;
    }
    assert(pv.take(n - 1) == pv.take(i as int));
    if parts[n - 1].len() > 0 {
        let x = clone_chars(&parts[n - 1]);
        proof {
            lemma_views_push(out@, x);
        }
        out.push(x);
    }
    out
}

/// The lines of a string slice.
pub fn lines_str(s: &str) -> (r: Vec<Vec<char>>)
    ensures
        views(r@) == lines(s@),
{
    let v = chars_of(s);
    lines_of(&v)
}

/// `str::trim_start_matches` with a character class.
pub open spec fn trim_start(s: Seq<char>, sep: Sep) -> Seq<char>
    decreases s.len(),
{
    if s.len() > 0 && in_sep(sep, s[0]) {
        trim_start(s.drop_first(), sep)
    } else {
        s
    }
}

/// `str::trim_end_matches` with a character class.
pub open spec fn trim_end(s: Seq<char>, sep: Sep) -> Seq<char>
    decreases s.len(),
{
    if s.len() > 0 && in_sep(sep, s.last()) {
        trim_end(s.drop_last(), sep)
    } else {
        s
    }
}

/// `str::trim_matches` with a character class; `str::trim` for `Sep::Whitespace`.
pub open spec fn trim(s: Seq<char>, sep: Sep) -> Seq<char> {
    trim_end(trim_start(s, sep), sep)
}

pub fn trim_start_chars(s: &Vec<char>, sep: Sep) -> (r: Vec<char>)
    ensures
        r@ == trim_start(s@, sep),
{
    let mut i: usize = 0;
    assert(s@.skip(0) == s@);
    while i < s.len() && sep_has(sep, s[i])
        invariant
            i <= s.len(),
            trim_start(s@, sep) == trim_start(s@.skip(i as int), sep),
        decreases s.len() - i,
    {
        assert(s@.skip(i as int).drop_first() == s@.skip(i + 1));
        i = i + 1;
    }
    let r = slice(s, i, s.len());
    assert(r@ == s@.skip(i as int));
    r
}

pub fn trim_end_chars(s: &Vec<char>, sep: Sep) -> (r: Vec<char>)
    ensures
        r@ == trim_end(s@, sep),
{
    let mut j: usize = s.len();
    assert(s@.take(s.len() as int) == s@);
    while j > 0 && sep_has(sep, s[j - 1])
        invariant
            j <= s.len(),
            trim_end(s@, sep) == trim_end(s@.take(j as int), sep),
        decreases j,
    {
        assert(s@.take(j as int).drop_last() == s@.take(j - 1));
        j = j - 1;
    }
    let r = slice(s, 0, j);
    assert(r@ == s@.take(j as int));
    r
}

pub fn trim_chars(s: &Vec<char>, sep: Sep) -> (r: Vec<char>)
    ensures
        r@ == trim(s@, sep),
{
    let a = trim_start_chars(s, sep);
    trim_end_chars(&a, sep)
}

/// `str::trim`.
pub fn trim_ws(s: &Vec<char>) -> (r: Vec<char>)
    ensures
        r@ == trim(s@, Sep::Whitespace),
{
    trim_chars(s, Sep::Whitespace)
}

/// Whether every character of `s` is in the class.
pub open spec fn all_in(s: Seq<char>, sep: Sep) -> bool {
    forall|i: int| 0 <= i < s.len() ==> in_sep(sep, #[trigger] s[i])
}

pub open spec fn all_digits(s: Seq<char>) -> bool {
    forall|i: int| 0 <= i < s.len() ==> is_digit(#[trigger] s[i])
}

pub fn all_ascii_digits(s: &Vec<char>) -> (r: bool)
    ensures
        r == all_digits(s@),
{
    let mut i: usize = 0;
    while i < s.len()
        invariant
            i <= s.len(),
            forall|k: int| 0 <= k < i ==> is_digit(#[trigger] s@[k]),
        decreases s.len() - i,
    {
        if !is_ascii_digit(s[i]) {
            return false;
        }
        i = i + 1;
    }
    true
}

// ---------------------------------------------------------------------
// Decimal numbers
// ---------------------------------------------------------------------

pub open spec fn digit_value(c: char) -> nat {
    ((c as u32) - ('0' as u32)) as nat
}

pub open spec fn digit_char(d: nat) -> char {
    (('0' as u32) + d) as char
}

/// The value of a string of decimal digits.
pub open spec fn digits_value(s: Seq<char>) -> nat
    decreases s.len(),
{
    if s.len() == 0 {
        0
    } else {
        digits_value(s.drop_last()) * 10 + digit_value(s.last())
    }
}

/// `u32::from_str`: an optional `+`, then at least one digit, no overflow.
pub open spec fn parse_u32(s: Seq<char>) -> Option<u32> {
    let d = if s.len() > 0 && s[0] == '+' {
        s.drop_first()
    } else {
        s
    };
    if d.len() > 0 && all_digits(d) && digits_value(d) <= u32::MAX {
        Some(digits_value(d) as u32)
    } else {
        None
    }
}

/// The decimal form of `n`, as `Display` for integers writes it.
pub open spec fn decimal(n: nat) -> Seq<char>
    decreases n,
{
    if n < 10 {
        seq![digit_char(n)]
    } else {
        decimal(n / 10).push(digit_char(n % 10))
    }
}

proof fn lemma_digits_value_prefix(s: Seq<char>, i: int)
    requires
        0 <= i <= s.len(),
    ensures
        digits_value(s.take(i)) <= digits_value(s),
    decreases s.len(),
{
    if i < s.len() {
        assert(s.drop_last().take(i) == s.take(i));
        lemma_digits_value_prefix(s.drop_last(), i);
    } else {
        assert(s.take(i) == s);
    }
}

fn digits_u32(d: &Vec<char>) -> (r: Option<u32>)
    requires
        d.len() > 0,
        all_digits(d@),
    ensures
        r matches Some(v) ==> digits_value(d@) <= u32::MAX && v == digits_value(d@),
        r is None ==> digits_value(d@) > u32::MAX,
{
    let mut acc: u64 = 0;
    let mut i: usize = 0;
    while i < d.len()
        invariant
            i <= d.len(),
            all_digits(d@),
            acc == digits_value(d@.take(i as int)),
            acc <= u32::MAX,
        decreases d.len() - i,
    {
        let c = d[i];
        assert(is_digit(d@[i as int]));
        let dv: u64 = (c as u32 - '0' as u32) as u64;
        assert(d@.take(i + 1).drop_last() == d@.take(i as int));
        let next: u64 = acc * 10 + dv;
        if next > 4294967295 {
            proof {
                lemma_digits_value_prefix(d@, i + 1);
            }
            return None;
        }
        acc = next;
        i = i + 1;
    }
    assert(d@.take(d.len() as int) == d@);
    Some(acc as u32)
}

pub fn parse_u32_chars(s: &Vec<char>) -> (r: Option<u32>)
    ensures
        r == parse_u32(s@),
{
    let d = if s.len() > 0 && s[0] == '+' {
        slice(s, 1, s.len())
    } else {
        clone_chars(s)
    };
    assert(s@.len() > 0 && s@[0] == '+' ==> d@ == s@.drop_first());
    if d.len() == 0 || !all_ascii_digits(&d) {
        return None;
    }
    digits_u32(&d)
}


/// `str::parse::<usize>`: an optional `+`, then decimal digits whose value
/// fits in `usize`.
pub open spec fn parse_usize(s: Seq<char>) -> Option<int> {
    let d = if s.len() > 0 && s[0] == '+' {
        s.drop_first()
    } else {
        s
    };
    if d.len() > 0 && all_digits(d) && digits_value(d) <= usize::MAX {
        Some(digits_value(d) as int)
    } else {
        None
    }
}

pub fn parse_usize_str(text: &str) -> (r: Option<usize>)
    ensures
        match r {
            Some(n) => parse_usize(text@) == Some(n as int),
            None => parse_usize(text@) is None,
        },
{
    let s = chars_of(text);
    let d = if s.len() > 0 && s[0] == '+' {
        slice(&s, 1, s.len())
    } else {
        clone_chars(&s)
    };
    assert(s@.len() > 0 && s@[0] == '+' ==> d@ == s@.drop_first());
    if d.len() == 0 || !all_ascii_digits(&d) {
        return None;
    }
    let mut acc: usize = 0;
    let mut i: usize = 0;
    while i < d.len()
        invariant
            i <= d.len(),
            d.len() > 0,
            all_digits(d@),
            acc == digits_value(d@.take(i as int)),
            parse_usize(text@) is None <==> digits_value(d@) > usize::MAX,
            parse_usize(text@) matches Some(v) ==> v == digits_value(d@),
        decreases d.len() - i,
    {
        let c = d[i];
        assert(is_digit(d@[i as int]));
        let dv: usize = (c as u32 - '0' as u32) as usize;
        assert(d@.take(i + 1).drop_last() == d@.take(i as int));
        assert(d@.take(i + 1).last() == d@[i as int]);
        assert(digits_value(d@.take(i + 1)) == acc * 10 + dv);
        match acc.checked_mul(10) {
            Some(m) => match m.checked_add(dv) {
                Some(next) => {
                    acc = next;
                },
                None => {
                    proof {
                        lemma_digits_value_prefix(d@, i + 1);
                    }
                    return None;
                },
            },
            None => {
                proof {
                    lemma_digits_value_prefix(d@, i + 1);
                }
                return None;
            },
        }
        i = i + 1;
    }
    assert(d@.take(d.len() as int) == d@);
    Some(acc)
}

fn digit_of(d: u64) -> (r: char)
    requires
        d < 10,
    ensures
        r == digit_char(d as nat),
{
    let x: u32 = 48 + d as u32;
    let b: u8 = x as u8;
    b as char
}

/// The decimal digits of `n`.
pub fn decimal_chars(n: u64) -> (r: Vec<char>)
    ensures
        r@ == decimal(n as nat),
    decreases n,
{
    if n < 10 {
        let mut v: Vec<char> = Vec::new();
        v.push(digit_of(n));
        v
    } else {
        let mut v = decimal_chars(n / 10);
        v.push(digit_of(n % 10));
        v
    }
}

/// `n.to_string()`.
pub fn decimal_string(n: u64) -> (r: String)
    ensures
        r@ == decimal(n as nat),
{
    let v = decimal_chars(n);
    string_of(&v)
}


// ---------------------------------------------------------------------
// Joining
// ---------------------------------------------------------------------


/// The texts of a sequence of `String`s.
pub open spec fn strs(v: Seq<String>) -> Seq<Seq<char>> {
    v.map_values(|s: String| s@)
}

pub proof fn lemma_strs_push(v: Seq<String>, x: String)
    ensures
        strs(v.push(x)) == strs(v).push(x@),
{
    assert(strs(v.push(x)) =~= strs(v).push(x@));
}

pub proof fn lemma_strs_add(a: Seq<String>, b: Seq<String>)
    ensures
        strs(a + b) == strs(a) + strs(b),
{
    assert(strs(a + b) =~= strs(a) + strs(b));
}

/// The text of an optional `String`.
pub open spec fn opt_str(o: Option<String>) -> Option<Seq<char>> {
    match o {
        Some(s) => Some(s@),
        None => None,
    }
}

/// `[T]::join`: the pieces with `sep` between neighbours.
pub open spec fn join(pieces: Seq<Seq<char>>, sep: Seq<char>) -> Seq<char>
    decreases pieces.len(),
{
    if pieces.len() == 0 {
        Seq::empty()
    } else if pieces.len() == 1 {
        pieces[0]
    } else {
        join(pieces.drop_last(), sep) + sep + pieces.last()
    }
}

/// Appends a copy of `v` to `out`.
pub fn append_chars(out: &mut Vec<char>, v: &Vec<char>)
    ensures
        final(out)@ == old(out)@ + v@,
{
    let mut i: usize = 0;
    let ghost start = out@;
    while i < v.len()
        invariant
            i <= v.len(),
            out@ == start + v@.take(i as int),
        decreases v.len() - i,
    {
        out.push(v[i]);
        assert(v@.take(i + 1) == v@.take(i as int).push(v@[i as int]));
        i = i + 1;
    }
    assert(v@.take(v.len() as int) == v@);
}

/// Appends the characters of a string slice to `out`.
pub fn append_str(out: &mut Vec<char>, s: &str)
    ensures
        final(out)@ == old(out)@ + s@,
{
    let v = chars_of(s);
    append_chars(out, &v);
}

pub fn join_chars(pieces: &Vec<Vec<char>>, sep: &Vec<char>) -> (r: Vec<char>)
    ensures
        r@ == join(views(pieces@), sep@),
{
    let ghost pv = views(pieces@);
    if pieces.len() == 0 {
        return Vec::new();
    }
    let mut out = clone_chars(&pieces[0]);
    let mut i: usize = 1;
    assert(pv.take(1).drop_last().len() == 0);
    while i < pieces.len()
        invariant
            1 <= i <= pieces.len(),
            pv == views(pieces@),
            out@ == join(pv.take(i as int), sep@),
        decreases pieces.len() - i,
    {
        append_chars(&mut out, sep);
        append_chars(&mut out, &pieces[i]);
        assert(pv.take(i + 1).drop_last() == pv.take(i as int));
        i = i + 1;
    }
    assert(pv.take(pieces.len() as int) == pv);
    out
}



/// A copy of each string, in order.
pub fn clone_strings(v: &Vec<String>) -> (r: Vec<String>)
    ensures
        strs(r@) == strs(v@),
{
    let mut out: Vec<String> = Vec::new();
    let mut i: usize = 0;
    while i < v.len()
        invariant
            i <= v.len(),
            strs(out@) == strs(v@).take(i as int),
        decreases v.len() - i,
    {
        let ghost before = out@;
        let x = v[i].clone();
        out.push(x);
        proof {
            lemma_strs_push(before, x);
            assert(strs(v@).take(i + 1) =~= strs(v@).take(i as int).push(v@[i as int]@));
        }
        i = i + 1;
    }
    assert(strs(v@).take(v.len() as int) == strs(v@));
    out
}

/// `format!("{:<width$}", value)`: the text followed by spaces up to
/// `width` characters.
pub open spec fn left_aligned(value: Seq<char>, width: nat) -> Seq<char> {
    value + Seq::new(
        (if width >= value.len() {
            width - value.len()
        } else {
            0
        }) as nat,
        |i: int| ' ',
    )
}

pub fn pad_right(value: &str, width: usize) -> (r: String)
    ensures
        r@ == left_aligned(value@, width as nat),
{
    let mut out = chars_of(value);
    let n = out.len();
    let padding: usize = if width >= n {
        width - n
    } else {
        0
    };
    let ghost start = out@;
    let mut i: usize = 0;
    while i < padding
        invariant
            i <= padding,
            out@ == start + Seq::new(i as nat, |k: int| ' '),
        decreases padding - i,
    {
        out.push(' ');
        assert(Seq::new((i + 1) as nat, |k: int| ' ') =~= Seq::new(i as nat, |k: int| ' ').push(' '));
        i = i + 1;
    }
    assert(out@ =~= left_aligned(value@, width as nat));
    string_of(&out)
}

/// The strings joined with `sep` between them.
pub fn join_strings(items: &Vec<String>, sep: &str) -> (r: String)
    ensures
        r@ == join(strs(items@), sep@),
{
    let mut pieces: Vec<Vec<char>> = Vec::new();
    let mut i: usize = 0;
    while i < items.len()
        invariant
            i <= items.len(),
            views(pieces@) == strs(items@).take(i as int),
        decreases items.len() - i,
    {
        let c = chars_of(items[i].as_str());
        proof {
            lemma_views_push(pieces@, c);
        }
        pieces.push(c);
        assert(strs(items@).take(i + 1) =~= strs(items@).take(i as int).push(items@[i as int]@));
        i = i + 1;
    }
    assert(strs(items@).take(items.len() as int) == strs(items@));
    string_of(&join_chars(&pieces, &chars_of(sep)))
}

// ---------------------------------------------------------------------
// Replacing
// ---------------------------------------------------------------------

/// `str::replace` with a single-character pattern: every `c` in `s`
/// becomes `with`.
pub open spec fn replace_char(s: Seq<char>, c: char, with: Seq<char>) -> Seq<char>
    decreases s.len(),
{
    if s.len() == 0 {
        Seq::empty()
    } else {
        replace_char(s.drop_last(), c, with) + (if s.last() == c {
            with
        } else {
            seq![s.last()]
        })
    }
}


/// No character of `s` is `c`.
pub open spec fn avoids(s: Seq<char>, c: char) -> bool {
    forall|i: int| 0 <= i < s.len() ==> s[i] != c
}

pub proof fn lemma_join_avoids(pieces: Seq<Seq<char>>, sep: Seq<char>, c: char)
    requires
        forall|k: int| 0 <= k < pieces.len() ==> avoids(#[trigger] pieces[k], c),
        avoids(sep, c),
    ensures
        avoids(join(pieces, sep), c),
    decreases pieces.len(),
{
    if pieces.len() > 1 {
        lemma_join_avoids(pieces.drop_last(), sep, c);
        let prev = join(pieces.drop_last(), sep);
        let last = pieces.last();
        assert(avoids(last, c));
        assert forall|i: int| 0 <= i < (prev + sep + last).len() implies (prev + sep + last)[i]
            != c by {
            if i < prev.len() {
            } else if i < prev.len() + sep.len() {
                assert((prev + sep + last)[i] == sep[i - prev.len()]);
            } else {
                assert((prev + sep + last)[i] == last[i - prev.len() - sep.len()]);
            }
        }
    } else if pieces.len() == 1 {
        assert(avoids(pieces[0], c));
    }
}

pub proof fn lemma_replace_avoids(s: Seq<char>, c: char, with: Seq<char>, d: char)
    requires
        avoids(s, d),
        avoids(with, d),
    ensures
        avoids(replace_char(s, c, with), d),
    decreases s.len(),
{
    if s.len() > 0 {
        lemma_replace_avoids(s.drop_last(), c, with, d);
        let prev = replace_char(s.drop_last(), c, with);
        let tail = if s.last() == c {
            with
        } else {
            seq![s.last()]
        };
        assert(avoids(tail, d));
        assert forall|i: int| 0 <= i < (prev + tail).len() implies (prev + tail)[i] != d by {
            if i >= prev.len() {
                assert((prev + tail)[i] == tail[i - prev.len()]);
            }
        }
    }
}

pub fn replace_char_chars(s: &Vec<char>, c: char, with: &Vec<char>) -> (r: Vec<char>)
    ensures
        r@ == replace_char(s@, c, with@),
{
    let mut out: Vec<char> = Vec::new();
    let mut i: usize = 0;
    while i < s.len()
        invariant
            i <= s.len(),
            out@ == replace_char(s@.take(i as int), c, with@),
        decreases s.len() - i,
    {
        assert(s@.take(i + 1).drop_last() == s@.take(i as int));
        if s[i] == c {
            append_chars(&mut out, with);
        } else {
            out.push(s[i]);
        }
        i = i + 1;
    }
    assert(s@.take(s.len() as int) == s@);
    out
}

// ---------------------------------------------------------------------
// Paths
// ---------------------------------------------------------------------

/// The components of a `/`-separated path that name something: empty
/// pieces and `.` are dropped, as `Path::components` drops them.
pub open spec fn path_parts(pieces: Seq<Seq<char>>) -> Seq<Seq<char>>
    decreases pieces.len(),
{
    if pieces.len() == 0 {
        Seq::empty()
    } else {
        let prev = path_parts(pieces.drop_last());
        let last = pieces.last();
        if last.len() == 0 || last == seq!['.'] {
            prev
        } else {
            prev.push(last)
        }
    }
}

/// `Path::file_name`: the last component, unless it is `..` or there is none.
pub open spec fn file_name(path: Seq<char>) -> Option<Seq<char>> {
    let parts = path_parts(split(path, Sep::Char('/')));
    if parts.len() == 0 || parts.last() == seq!['.', '.'] {
        None
    } else {
        Some(parts.last())
    }
}

pub fn file_name_chars(path: &Vec<char>) -> (r: Option<Vec<char>>)
    ensures
        r matches Some(v) ==> file_name(path@) == Some(v@),
        r is None ==> file_name(path@) is None,
{
    let pieces = split_str(path, '/');
    let ghost pv = views(pieces@);
    let mut last: Option<usize> = None;
    let mut i: usize = 0;
    while i < pieces.len()
        invariant
            i <= pieces.len(),
            pv == views(pieces@),
            match last {
                Some(k) => k < i && path_parts(pv.take(i as int)).len() > 0 && path_parts(
                    pv.take(i as int),
                ).last() == pv[k as int],
                None => path_parts(pv.take(i as int)).len() == 0,
            },
        decreases pieces.len() - i,
    {
        assert(pv.take(i + 1).drop_last() == pv.take(i as int));
        let piece = &pieces[i];
        let dot = piece.len() == 1 && piece[0] == '.';
        assert(pv[i as int] == piece@);
        proof {
            if dot {
                assert(piece@ =~= seq!['.']);
            } else if piece@ == seq!['.'] {
                assert(piece@[0] == '.');
            }
        }
        if piece.len() > 0 && !dot {
            last = Some(i);
        }
        i = i + 1;
    }
    assert(pv.take(pieces.len() as int) == pv);
    match last {
        Some(k) => {
            let piece = &pieces[k];
            let dots = piece.len() == 2 && piece[0] == '.' && piece[1] == '.';
            assert(pv[k as int] == piece@);
            proof {
                if dots {
                    assert(piece@ =~= seq!['.', '.']);
                } else if piece@ == seq!['.', '.'] {
                    assert(piece@[0] == '.' && piece@[1] == '.');
                }
            }
            if dots {
                None
            } else {
                Some(clone_chars(piece))
            }
        },
        None => None,
    }
}

pub fn file_name_str(path: &str) -> (r: Option<Vec<char>>)
    ensures
        r matches Some(v) ==> file_name(path@) == Some(v@),
        r is None ==> file_name(path@) is None,
{
    let v = chars_of(path);
    file_name_chars(&v)
}

/// `str::replace` with a non-empty pattern: each occurrence, left to right
/// and not overlapping, replaced.
pub open spec fn replace_all(s: Seq<char>, p: Seq<char>, with: Seq<char>) -> Seq<char>
    decreases s.len(),
{
    if p.len() == 0 || s.len() == 0 {
        s
    } else if is_prefix(p, s) {
        with + replace_all(s.skip(p.len() as int), p, with)
    } else {
        seq![s[0]] + replace_all(s.skip(1), p, with)
    }
}

pub fn replace_str(s: &str, p: &str, with: &str) -> (r: String)
    requires
        p@.len() > 0,
    ensures
        r@ == replace_all(s@, p@, with@),
{
    let v = chars_of(s);
    let pv = chars_of(p);
    let wv = chars_of(with);
    let mut out: Vec<char> = Vec::new();
    let mut i: usize = 0;
    assert(v@.skip(0) =~= v@);
    while i < v.len()
        invariant
            i <= v.len(),
            pv@.len() > 0,
            pv@ == p@,
            wv@ == with@,
            out@ + replace_all(v@.skip(i as int), pv@, wv@) == replace_all(v@, pv@, wv@),
        decreases v.len() - i,
    {
        let ghost rest = v@.skip(i as int);
        if matches_at(&v, &pv, i) {
            assert(is_prefix(pv@, rest)) by {
                assert(rest.take(pv@.len() as int) =~= v@.subrange(i as int, i + pv@.len()));
            }
            assert(rest.skip(pv@.len() as int) =~= v@.skip(i + pv@.len()));
            let ghost before = out@;
            append_chars(&mut out, &wv);
            assert(before + (wv@ + replace_all(v@.skip(i + pv@.len()), pv@, wv@)) =~= out@ + replace_all(v@.skip(i + pv@.len()), pv@, wv@));
            i = i + pv.len();
        } else {
            assert(!is_prefix(pv@, rest)) by {
                if is_prefix(pv@, rest) {
                    assert(rest.take(pv@.len() as int) =~= v@.subrange(i as int, i + pv@.len()));
                }
            }
            assert(rest.skip(1) =~= v@.skip(i + 1));
            let ghost before = out@;
            out.push(v[i]);
            assert(before + (seq![v@[i as int]] + replace_all(v@.skip(i + 1), pv@, wv@)) =~= out@ + replace_all(v@.skip(i + 1), pv@, wv@));
            i = i + 1;
        }
    }
    assert(v@.skip(v.len() as int).len() == 0);
    assert(out@ + Seq::<char>::empty() =~= out@);
    string_of(&out)
}

} // verus!
