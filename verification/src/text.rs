//! Character-level text primitives shared by every analyzer of the library:
//! substring search, whitespace handling, trimming and case folding.

use vstd::prelude::*;

verus! {

// ---------------------------------------------------------------------------
// Specifications
// ---------------------------------------------------------------------------

/// `pat` occurs in `text` starting at position `i`.
pub open spec fn occurs_at(text: Seq<char>, pat: Seq<char>, i: int) -> bool {
    0 <= i && i + pat.len() <= text.len() && text.subrange(i, i + pat.len()) == pat
}

/// `pat` occurs somewhere in `text` (the empty pattern occurs everywhere).
pub open spec fn seq_contains(text: Seq<char>, pat: Seq<char>) -> bool {
    exists|i: int| #[trigger] occurs_at(text, pat, i)
}

/// `text` begins with `pat`.
pub open spec fn seq_starts_with(text: Seq<char>, pat: Seq<char>) -> bool {
    occurs_at(text, pat, 0)
}

/// Some pattern of `pats` occurs in `text`.
pub open spec fn contains_any_spec(text: Seq<char>, pats: Seq<Seq<char>>) -> bool {
    exists|k: int| 0 <= k < pats.len() && #[trigger] seq_contains(text, pats[k])
}

/// The character views of a list of string slices.
pub open spec fn views_of(strs: Seq<&str>) -> Seq<Seq<char>> {
    strs.map_values(|s: &str| s@)
}

/// The character views of a list of strings.
pub open spec fn string_views(strs: Seq<String>) -> Seq<Seq<char>> {
    strs.map_values(|s: String| s@)
}

/// Unicode `White_Space`, the predicate behind `char::is_whitespace`,
/// `str::trim` and `str::split_whitespace`.
pub open spec fn is_ws(c: char) -> bool {
    ||| ('\u{9}' <= c && c <= '\u{d}')
    ||| c == ' '
    ||| c == '\u{85}'
    ||| c == '\u{a0}'
    ||| c == '\u{1680}'
    ||| ('\u{2000}' <= c && c <= '\u{200a}')
    ||| c == '\u{2028}'
    ||| c == '\u{2029}'
    ||| c == '\u{202f}'
    ||| c == '\u{205f}'
    ||| c == '\u{3000}'
}

/// `char::is_ascii_whitespace`: space, tab, line feed, form feed, carriage return.
pub open spec fn is_ascii_ws(c: char) -> bool {
    c == ' ' || c == '\t' || c == '\n' || c == '\u{c}' || c == '\r'
}

/// `char::is_ascii_alphanumeric`.
pub open spec fn is_ascii_alnum(c: char) -> bool {
    ('a' <= c && c <= 'z') || ('A' <= c && c <= 'Z') || ('0' <= c && c <= '9')
}

/// `char::to_ascii_lowercase`.
pub open spec fn ascii_lower(c: char) -> char {
    if 'A' <= c && c <= 'Z' {
        ((c as u32) + 32) as char
    } else {
        c
    }
}

/// One step of whitespace collapsing: the text produced so far, and whether
/// a separator is owed before the next word.
pub open spec fn collapse_step(acc: (Seq<char>, bool), c: char) -> (Seq<char>, bool) {
    if is_ws(c) {
        (acc.0, acc.0.len() > 0)
    } else if acc.1 {
        (acc.0.push(' ').push(c), false)
    } else {
        (acc.0.push(c), false)
    }
}

/// Collapsing state after the first `n` characters of `s`.
pub open spec fn collapse_prefix(s: Seq<char>, n: nat) -> (Seq<char>, bool)
    decreases n,
{
    if n == 0 {
        (Seq::<char>::empty(), false)
    } else {
        collapse_step(collapse_prefix(s, (n - 1) as nat), s[n - 1])
    }
}

/// The words of `s` (maximal runs of non-whitespace) joined by single spaces:
/// what `s.split_whitespace().collect::<Vec<_>>().join(" ")` gives.
pub open spec fn collapse_ws(s: Seq<char>) -> Seq<char> {
    collapse_prefix(s, s.len()).0
}

/// `s` without leading whitespace.
pub open spec fn trim_start_seq(s: Seq<char>) -> Seq<char>
    decreases s.len(),
{
    if s.len() > 0 && is_ws(s[0]) {
        trim_start_seq(s.drop_first())
    } else {
        s
    }
}

/// `s` without trailing whitespace.
pub open spec fn trim_end_seq(s: Seq<char>) -> Seq<char>
    decreases s.len(),
{
    if s.len() > 0 && is_ws(s.last()) {
        trim_end_seq(s.drop_last())
    } else {
        s
    }
}

/// `str::trim`: `s` without leading and trailing whitespace.
pub open spec fn trim_seq(s: Seq<char>) -> Seq<char> {
    trim_end_seq(trim_start_seq(s))
}

/// The first position at or after `i` where `pat` occurs in `text`, or -1.
pub open spec fn find_from(text: Seq<char>, pat: Seq<char>, i: int) -> int
    decreases text.len() + 1 - i,
{
    if i < 0 || i + pat.len() > text.len() {
        -1
    } else if occurs_at(text, pat, i) {
        i
    } else {
        find_from(text, pat, i + 1)
    }
}

/// A string is blank when it holds whitespace only.
pub open spec fn is_blank(s: Seq<char>) -> bool {
    forall|i: int| 0 <= i < s.len() ==> is_ws(#[trigger] s[i])
}

/// What `str::to_lowercase` returns for a string: Unicode lowercase mapping,
/// which is defined by tables of the Unicode standard.
pub uninterp spec fn lowercase_of(s: Seq<char>) -> Seq<char>;

/// ASCII case-insensitive equality (`str::eq_ignore_ascii_case`).
pub open spec fn eq_ignore_ascii_case_spec(a: Seq<char>, b: Seq<char>) -> bool {
    a.len() == b.len() && forall|i: int| 0 <= i < a.len() ==> ascii_lower(#[trigger] a[i]) == ascii_lower(b[i])
}

// ---------------------------------------------------------------------------
// Trusted std calls
// ---------------------------------------------------------------------------

/// `String::push`: appends one character.
#[verifier::external_body]
pub(crate) fn push_char(s: &mut String, c: char)
    ensures
        final(s)@ == old(s)@.push(c),
{
    s.push(c);
}

/// `str::to_lowercase`. Its result is named by `lowercase_of`: the Unicode
/// lowercase mapping is a fixed function of the input text; nothing more of it
/// is stated here.
#[verifier::external_body]
pub(crate) fn to_lowercase(s: &str) -> (res: String)
    ensures
        res@ == lowercase_of(s@),
{
    s.to_lowercase()
}

// ---------------------------------------------------------------------------
// Conversions
// ---------------------------------------------------------------------------

/// The characters of `s`, in order.
pub fn chars_of(s: &str) -> (res: Vec<char>)
    ensures
        res@ == s@,
{
    let mut out: Vec<char> = Vec::new();
    for c in it: s.chars()
        invariant
            out@ == it.seq().take(it.index() as int),
    {
        out.push(c);
    }
    out
}

/// Builds a string from its characters.
pub fn string_from_chars(cs: &Vec<char>) -> (res: String)
    ensures
        res@ == cs@,
{
    let mut out = String::new();
    let mut i: usize = 0;
    while i < cs.len()
        invariant
            i <= cs.len(),
            out@ == cs@.take(i as int),
        decreases cs.len() - i,
    {
        push_char(&mut out, cs[i]);
        assert(cs@.take(i as int + 1) == cs@.take(i as int).push(cs@[i as int]));
        i += 1;
    }
    assert(cs@.take(cs.len() as int) == cs@);
    out
}

/// An owned copy of a string slice.
pub fn owned(s: &str) -> (res: String)
    ensures
        res@ == s@,
{
    String::from_str(s)
}

/// The lowercase form of `s`, as characters.
pub fn lowercase_chars(s: &str) -> (res: Vec<char>)
    ensures
        res@ == lowercase_of(s@),
{
    let lower = to_lowercase(s);
    chars_of(lower.as_str())
}

// ---------------------------------------------------------------------------
// Search
// ---------------------------------------------------------------------------

fn matches_at(text: &Vec<char>, pat: &Vec<char>, i: usize) -> (r: bool)
    requires
        i + pat.len() <= text.len(),
    ensures
        r == (text@.subrange(i as int, i + pat.len()) == pat@),
{
    let mut j: usize = 0;
    while j < pat.len()
        invariant
            j <= pat.len(),
            i + pat.len() <= text.len(),
            forall|k: int| 0 <= k < j ==> text@[i + k] == pat@[k],
        decreases pat.len() - j,
    {
        if text[i + j] != pat[j] {
            assert(text@.subrange(i as int, i + pat.len())[j as int] != pat@[j as int]);
            return false;
        }
        j += 1;
    }
    assert(text@.subrange(i as int, i + pat.len()) =~= pat@);
    true
}

/// Whether `pat` occurs in `text` at position `i`.
pub fn matches_at_pub(text: &Vec<char>, pat: &Vec<char>, i: usize) -> (r: bool)
    requires
        i + pat.len() <= text.len(),
    ensures
        r == (text@.subrange(i as int, i + pat.len()) == pat@),
{
    matches_at(text, pat, i)
}

/// Whether `pat` occurs in `text`.
pub fn contains_seq(text: &Vec<char>, pat: &Vec<char>) -> (r: bool)
    ensures
        r == seq_contains(text@, pat@),
{
    if pat.len() > text.len() {
        assert forall|i: int| !occurs_at(text@, pat@, i) by {}
        return false;
    }
    let last = text.len() - pat.len();
    let mut i: usize = 0;
    while i <= last
        invariant
            last + pat.len() == text.len(),
            forall|k: int| 0 <= k < i ==> !#[trigger] occurs_at(text@, pat@, k),
        decreases last + 1 - i,
    {
        if matches_at(text, pat, i) {
            assert(occurs_at(text@, pat@, i as int));
            return true;
        }
        if i == last {
            assert forall|k: int| !#[trigger] occurs_at(text@, pat@, k) by {
                if 0 <= k && k <= last {
                } 
            }
            return false;
        }
        i += 1;
    }
    false
}

/// The first position where `pat` occurs in `text`.
pub fn find_first(text: &Vec<char>, pat: &Vec<char>) -> (r: Option<usize>)
    ensures
        r matches Some(i) ==> i as int == find_from(text@, pat@, 0) && occurs_at(text@, pat@, i as int),
        r is None ==> find_from(text@, pat@, 0) == -1,
{
    if pat.len() > text.len() {
        return None;
    }
    let last = text.len() - pat.len();
    let mut i: usize = 0;
    while i <= last
        invariant
            last + pat.len() == text.len(),
            i <= last + 1,
            find_from(text@, pat@, 0) == find_from(text@, pat@, i as int),
        decreases last + 1 - i,
    {
        if matches_at(text, pat, i) {
            return Some(i);
        }
        if i == last {
            assert(find_from(text@, pat@, i as int + 1) == -1);
            return None;
        }
        i += 1;
    }
    None
}

/// Whether the literal `pat` occurs in `text`.
pub fn contains(text: &Vec<char>, pat: &str) -> (r: bool)
    ensures
        r == seq_contains(text@, pat@),
{
    let p = chars_of(pat);
    contains_seq(text, &p)
}

/// Whether `pat` occurs in `text`.
pub fn str_contains(text: &str, pat: &str) -> (r: bool)
    ensures
        r == seq_contains(text@, pat@),
{
    let t = chars_of(text);
    contains(&t, pat)
}

/// Whether `text` begins with `pat`.
pub fn starts_with(text: &Vec<char>, pat: &str) -> (r: bool)
    ensures
        r == seq_starts_with(text@, pat@),
{
    let p = chars_of(pat);
    if p.len() > text.len() {
        return false;
    }
    matches_at(text, &p, 0)
}

/// Whether `text` begins with `pat`.
pub fn seq_prefix(text: &Vec<char>, pat: &Vec<char>) -> (r: bool)
    ensures
        r == seq_starts_with(text@, pat@),
{
    if pat.len() > text.len() {
        return false;
    }
    matches_at(text, pat, 0)
}

/// Whether some pattern of `pats` occurs in `text`.
pub fn contains_any(text: &Vec<char>, pats: &[&str]) -> (r: bool)
    ensures
        r == contains_any_spec(text@, views_of(pats@)),
{
    let mut k: usize = 0;
    while k < pats.len()
        invariant
            k <= pats.len(),
            forall|j: int| 0 <= j < k ==> !#[trigger] seq_contains(text@, views_of(pats@)[j]),
        decreases pats.len() - k,
    {
        if contains(text, pats[k]) {
            assert(seq_contains(text@, views_of(pats@)[k as int]));
            return true;
        }
        k += 1;
    }
    false
}

/// Whether `s` is one of `names`.
pub fn member(s: &str, names: &[&str]) -> (r: bool)
    ensures
        r == views_of(names@).contains(s@),
{
    let mut k: usize = 0;
    while k < names.len()
        invariant
            k <= names.len(),
            forall|j: int| 0 <= j < k ==> views_of(names@)[j] != s@,
        decreases names.len() - k,
    {
        if str_eq(names[k], s) {
            assert(views_of(names@)[k as int] == s@);
            return true;
        }
        k += 1;
    }
    false
}

/// Character-wise equality of `a` and the literal `b`.
pub fn chars_eq(a: &Vec<char>, b: &str) -> (r: bool)
    ensures
        r == (a@ == b@),
{
    let bc = chars_of(b);
    if a.len() != bc.len() {
        return false;
    }
    let r = matches_at(a, &bc, 0);
    assert(a@.subrange(0, a@.len() as int) == a@);
    r
}

/// Equality of two string slices.
pub fn str_eq(a: &str, b: &str) -> (r: bool)
    ensures
        r == (a@ == b@),
{
    let ac = chars_of(a);
    chars_eq(&ac, b)
}

// ---------------------------------------------------------------------------
// Whitespace and case
// ---------------------------------------------------------------------------

/// `char::is_whitespace`.
pub fn is_whitespace(c: char) -> (r: bool)
    ensures
        r == is_ws(c),
{
    ('\u{9}' <= c && c <= '\u{d}') || c == ' ' || c == '\u{85}' || c == '\u{a0}'
        || c == '\u{1680}' || ('\u{2000}' <= c && c <= '\u{200a}') || c == '\u{2028}'
        || c == '\u{2029}' || c == '\u{202f}' || c == '\u{205f}' || c == '\u{3000}'
}

/// `char::is_ascii_whitespace`.
pub fn is_ascii_whitespace(c: char) -> (r: bool)
    ensures
        r == is_ascii_ws(c),
{
    c == ' ' || c == '\t' || c == '\n' || c == '\u{c}' || c == '\r'
}

/// `char::is_ascii_alphanumeric`.
pub fn is_ascii_alphanumeric(c: char) -> (r: bool)
    ensures
        r == is_ascii_alnum(c),
{
    ('a' <= c && c <= 'z') || ('A' <= c && c <= 'Z') || ('0' <= c && c <= '9')
}

/// `char::to_ascii_lowercase`.
pub fn to_ascii_lowercase(c: char) -> (r: char)
    ensures
        r == ascii_lower(c),
{
    if 'A' <= c && c <= 'Z' {
        let b: u8 = (c as u8) + 32;
        b as char
    } else {
        c
    }
}

/// Collapses runs of whitespace into single spaces and drops leading and
/// trailing whitespace.
pub fn collapse_whitespace(s: &Vec<char>) -> (res: Vec<char>)
    ensures
        res@ == collapse_ws(s@),
{
    let mut out: Vec<char> = Vec::new();
    let mut pending = false;
    let mut i: usize = 0;
    while i < s.len()
        invariant
            i <= s.len(),
            (out@, pending) == collapse_prefix(s@, i as nat),
        decreases s.len() - i,
    {
        let c = s[i];
        if is_whitespace(c) {
            pending = out.len() > 0;
        } else {
            if pending {
                out.push(' ');
            }
            out.push(c);
            pending = false;
        }
        i += 1;
    }
    out
}

/// `str::trim` over characters.
pub fn trim_chars(s: &Vec<char>) -> (res: Vec<char>)
    ensures
        res@ == trim_seq(s@),
{
    let mut lo: usize = 0;
    assert(s@.subrange(0, s.len() as int) == s@);
    while lo < s.len() && is_whitespace(s[lo])
        invariant
            lo <= s.len(),
            trim_start_seq(s@) == trim_start_seq(s@.subrange(lo as int, s.len() as int)),
        decreases s.len() - lo,
    {
        assert(s@.subrange(lo as int, s.len() as int).drop_first()
            =~= s@.subrange(lo + 1, s.len() as int));
        lo += 1;
    }
    let ghost mid = s@.subrange(lo as int, s.len() as int);
    assert(trim_start_seq(mid) == mid);
    let mut hi: usize = s.len();
    while hi > lo && is_whitespace(s[hi - 1])
        invariant
            lo <= hi <= s.len(),
            mid == s@.subrange(lo as int, s.len() as int),
            trim_end_seq(mid) == trim_end_seq(s@.subrange(lo as int, hi as int)),
        decreases hi - lo,
    {
        assert(s@.subrange(lo as int, hi as int).drop_last()
            =~= s@.subrange(lo as int, hi - 1));
        hi -= 1;
    }
    let mut out: Vec<char> = Vec::new();
    let mut k: usize = lo;
    while k < hi
        invariant
            lo <= k <= hi,
            hi <= s.len(),
            out@ == s@.subrange(lo as int, k as int),
        decreases hi - k,
    {
        out.push(s[k]);
        assert(s@.subrange(lo as int, k + 1) =~= s@.subrange(lo as int, k as int).push(s@[k as int]));
        k += 1;
    }
    out
}

/// `str::trim`.
pub fn trim(s: &str) -> (res: Vec<char>)
    ensures
        res@ == trim_seq(s@),
{
    let cs = chars_of(s);
    trim_chars(&cs)
}

/// Whether `s` holds whitespace only (`s.trim().is_empty()`).
pub fn blank(s: &Vec<char>) -> (r: bool)
    ensures
        r == is_blank(s@),
{
    let mut i: usize = 0;
    while i < s.len()
        invariant
            i <= s.len(),
            forall|k: int| 0 <= k < i ==> is_ws(#[trigger] s@[k]),
        decreases s.len() - i,
    {
        if !is_whitespace(s[i]) {
            return false;
        }
        i += 1;
    }
    true
}

/// `str::eq_ignore_ascii_case`.
pub fn eq_ignore_ascii_case(a: &str, b: &str) -> (r: bool)
    ensures
        r == eq_ignore_ascii_case_spec(a@, b@),
{
    let ac = chars_of(a);
    let bc = chars_of(b);
    if ac.len() != bc.len() {
        return false;
    }
    let mut i: usize = 0;
    while i < ac.len()
        invariant
            i <= ac.len(),
            ac.len() == bc.len(),
            ac@ == a@,
            bc@ == b@,
            forall|k: int| 0 <= k < i ==> ascii_lower(#[trigger] ac@[k]) == ascii_lower(bc@[k]),
        decreases ac.len() - i,
    {
        if to_ascii_lowercase(ac[i]) != to_ascii_lowercase(bc[i]) {
            assert(ascii_lower(a@[i as int]) != ascii_lower(b@[i as int]));
            return false;
        }
        i += 1;
    }
    true
}


// ---------------------------------------------------------------------------
// Numbers
// ---------------------------------------------------------------------------

/// The decimal digit for `d` (below ten).
pub open spec fn digit_char(d: nat) -> char {
    if d == 0 { '0' } else if d == 1 { '1' } else if d == 2 { '2' } else if d == 3 { '3' }
    else if d == 4 { '4' } else if d == 5 { '5' } else if d == 6 { '6' } else if d == 7 { '7' }
    else if d == 8 { '8' } else { '9' }
}

/// The decimal numeral of `n`, without leading zeros.
pub open spec fn decimal(n: nat) -> Seq<char>
    decreases n,
{
    if n < 10 { seq![digit_char(n)] } else { decimal(n / 10).push(digit_char(n % 10)) }
}

fn digit_of(d: usize) -> (r: char)
    requires
        d < 10,
    ensures
        r == digit_char(d as nat),
{
    if d == 0 { '0' } else if d == 1 { '1' } else if d == 2 { '2' } else if d == 3 { '3' }
    else if d == 4 { '4' } else if d == 5 { '5' } else if d == 6 { '6' } else if d == 7 { '7' }
    else if d == 8 { '8' } else { '9' }
}

/// The decimal numeral of `n`, as `n.to_string()` writes it.
pub fn decimal_string(n: usize) -> (res: String)
    ensures
        res@ == decimal(n as nat),
    decreases n,
{
    if n < 10 {
        let mut s = String::new();
        push_char(&mut s, digit_of(n));
        assert(s@ =~= seq![digit_char(n as nat)]);
        s
    } else {
        let mut s = decimal_string(n / 10);
        push_char(&mut s, digit_of(n % 10));
        s
    }
}


/// A count of hundredths written with two decimals, as `{:.2}` writes the
/// fraction it stands for: `20` is `0.20`.
pub open spec fn hundredths(p: nat) -> Seq<char> {
    decimal(p / 100) + "."@ + seq![digit_char((p % 100) / 10), digit_char(p % 10)]
}

/// Writes a count of hundredths with two decimals.
pub fn hundredths_text(p: u32) -> (r: String)
    ensures
        r@ == hundredths(p as nat),
{
    let mut s = decimal_string((p / 100) as usize);
    push_char(&mut s, '.');
    push_char(&mut s, digit_of(((p % 100) / 10) as usize));
    push_char(&mut s, digit_of((p % 10) as usize));
    proof { reveal_strlit("."); }
    assert(s@ =~= decimal((p / 100) as nat) + "."@ + seq![digit_char(((p as nat) % 100) / 10), digit_char((p as nat) % 10)]);
    s
}

/// The decimal numeral of a 64-bit `n`.
pub fn decimal_string_u64(n: u64) -> (res: String)
    ensures
        res@ == decimal(n as nat),
    decreases n,
{
    if n < 10 {
        let mut s = String::new();
        push_char(&mut s, digit_of(n as usize));
        assert(s@ =~= seq![digit_char(n as nat)]);
        s
    } else {
        let mut s = decimal_string_u64(n / 10);
        push_char(&mut s, digit_of((n % 10) as usize));
        s
    }
}

/// The decimal numeral of a signed integer, with `-` before a negative one.
pub open spec fn signed_decimal(n: int) -> Seq<char> {
    if n < 0 { "-"@ + decimal((-n) as nat) } else { decimal(n as nat) }
}

/// The decimal numeral of `n`, as `n.to_string()` writes it.
pub fn signed_decimal_string(n: i64) -> (res: String)
    ensures
        res@ == signed_decimal(n as int),
{
    if n >= 0 {
        decimal_string_u64(n as u64)
    } else {
        let m: u64 = (-(n + 1)) as u64 + 1;
        let mut s = String::from_str("-");
        let d = decimal_string_u64(m);
        s.append(d.as_str());
        s
    }
}

// ---------------------------------------------------------------------------
// UTF-8 length
// ---------------------------------------------------------------------------

/// How many bytes UTF-8 takes for a character.
pub open spec fn utf8_width(c: char) -> nat {
    if (c as u32) < 0x80 { 1 } else if (c as u32) < 0x800 { 2 } else if (c as u32) < 0x10000 { 3 } else { 4 }
}

/// How many bytes UTF-8 takes for a text: what `str::len` returns.
pub open spec fn utf8_len(s: Seq<char>) -> nat
    decreases s.len(),
{
    if s.len() == 0 { 0 } else { utf8_len(s.drop_last()) + utf8_width(s.last()) }
}

/// A prefix never takes more bytes than the whole text.
pub proof fn lemma_utf8_len_prefix(s: Seq<char>, i: int)
    requires
        0 <= i <= s.len(),
    ensures
        utf8_len(s.take(i)) <= utf8_len(s),
    decreases s.len() - i,
{
    if i < s.len() {
        lemma_utf8_len_prefix(s, i + 1);
        assert(s.take(i + 1).drop_last() =~= s.take(i));
    } else {
        assert(s.take(i) =~= s);
    }
}

fn char_width(c: char) -> (r: usize)
    ensures
        r == utf8_width(c),
{
    let code = c as u32;
    if code < 0x80 { 1 } else if code < 0x800 { 2 } else if code < 0x10000 { 3 } else { 4 }
}

/// Whether the UTF-8 encoding of `s` takes fewer than `k` bytes.
pub fn utf8_len_below(s: &Vec<char>, k: usize) -> (r: bool)
    ensures
        r == (utf8_len(s@) < k),
{
    let mut acc: usize = 0;
    let mut i: usize = 0;
    if k == 0 {
        return false;
    }
    while i < s.len()
        invariant
            i <= s.len(),
            acc == utf8_len(s@.take(i as int)),
            acc < k,
        decreases s.len() - i,
    {
        assert(s@.take(i as int + 1).drop_last() =~= s@.take(i as int));
        let w = char_width(s[i]);
        if w >= k - acc {
            proof { lemma_utf8_len_prefix(s@, i as int + 1); }
            return false;
        }
        acc = acc + w;
        i += 1;
    }
    assert(s@.take(s.len() as int) =~= s@);
    true
}


/// `r` is an error with the message `msg`.
pub open spec fn err_msg<T>(r: Result<T, String>, msg: Seq<char>) -> bool {
    r matches Err(e) && e@ == msg
}


/// A text of more than two bytes has a first character.
pub proof fn lemma_utf8_len_positive(s: Seq<char>)
    requires
        utf8_len(s) >= 3,
    ensures
        s.len() >= 1,
{
}

/// A text of more than two bytes whose first character takes one byte has a
/// second character.
pub proof fn lemma_utf8_len_second(s: Seq<char>)
    requires
        utf8_len(s) >= 3,
        s.len() >= 1,
        utf8_width(s[0]) == 1,
    ensures
        s.len() >= 2,
{
    if s.len() == 1 {
        assert(s.drop_last().len() == 0);
        assert(utf8_len(s.drop_last()) == 0);
        assert(s.last() == s[0]);
        assert(utf8_len(s) == utf8_width(s[0]));
    }
}

/// How many bytes UTF-8 takes for a character.
pub fn char_width_pub(c: char) -> (r: usize)
    ensures
        r == utf8_width(c),
{
    char_width(c)
}


/// `str::trim_start` over characters.
pub fn trim_start_chars(s: &Vec<char>) -> (res: Vec<char>)
    ensures
        res@ == trim_start_seq(s@),
{
    let mut lo: usize = 0;
    assert(s@.subrange(0, s.len() as int) == s@);
    while lo < s.len() && is_whitespace(s[lo])
        invariant
            lo <= s.len(),
            trim_start_seq(s@) == trim_start_seq(s@.subrange(lo as int, s.len() as int)),
        decreases s.len() - lo,
    {
        assert(s@.subrange(lo as int, s.len() as int).drop_first()
            =~= s@.subrange(lo + 1, s.len() as int));
        lo += 1;
    }
    let mut out: Vec<char> = Vec::new();
    let mut k: usize = lo;
    while k < s.len()
        invariant
            lo <= k <= s.len(),
            out@ == s@.subrange(lo as int, k as int),
        decreases s.len() - k,
    {
        out.push(s[k]);
        assert(s@.subrange(lo as int, k + 1) =~= s@.subrange(lo as int, k as int).push(s@[k as int]));
        k += 1;
    }
    out
}

/// The UTF-8 length of `s`, or `cap` when it is longer.
pub fn utf8_len_capped(s: &Vec<char>, cap: usize) -> (r: usize)
    ensures
        r == (if utf8_len(s@) < cap { utf8_len(s@) } else { cap as nat }),
{
    if cap == 0 {
        return 0;
    }
    let mut acc: usize = 0;
    let mut i: usize = 0;
    while i < s.len()
        invariant
            i <= s.len(),
            acc == utf8_len(s@.take(i as int)),
            acc < cap,
        decreases s.len() - i,
    {
        assert(s@.take(i as int + 1).drop_last() =~= s@.take(i as int));
        let w = char_width(s[i]);
        if w >= cap - acc {
            proof { lemma_utf8_len_prefix(s@, i as int + 1); }
            return cap;
        }
        acc = acc + w;
        i += 1;
    }
    assert(s@.take(s.len() as int) =~= s@);
    acc
}


/// `s` with every occurrence of `pat` replaced by `rep`, scanning left to
/// right as `str::replace` does (for a non-empty pattern).
pub open spec fn replace_all(s: Seq<char>, pat: Seq<char>, rep: Seq<char>) -> Seq<char>
    decreases s.len(),
{
    if s.len() == 0 {
        s
    } else if pat.len() > 0 && pat.len() <= s.len() && s.subrange(0, pat.len() as int) == pat {
        rep + replace_all(s.skip(pat.len() as int), pat, rep)
    } else {
        seq![s[0]] + replace_all(s.skip(1), pat, rep)
    }
}

/// `str::replace` over characters.
pub fn replace_chars(text: &Vec<char>, pat: &str, rep: &str) -> (res: Vec<char>)
    ensures
        res@ == replace_all(text@, pat@, rep@),
{
    let p = chars_of(pat);
    let r = chars_of(rep);
    let mut out: Vec<char> = Vec::new();
    let mut i: usize = 0;
    assert(text@.skip(0) =~= text@);
    assert(out@ + replace_all(text@, p@, r@) =~= replace_all(text@, p@, r@));
    while i < text.len()
        invariant
            i <= text.len(),
            p@ == pat@,
            r@ == rep@,
            out@ + replace_all(text@.skip(i as int), p@, r@) == replace_all(text@, p@, r@),
        decreases text.len() - i,
    {
        let ghost rest = text@.skip(i as int);
        if p.len() > 0 && p.len() <= text.len() - i && matches_at(text, &p, i) {
            assert(rest.subrange(0, p@.len() as int) =~= text@.subrange(i as int, i + p@.len()));
            assert(rest.skip(p@.len() as int) =~= text@.skip(i + p@.len()));
            let ghost before = out@;
            let mut k: usize = 0;
            while k < r.len()
                invariant
                    k <= r.len(),
                    out@ == before + r@.take(k as int),
                decreases r.len() - k,
            {
                out.push(r[k]);
                assert(before + r@.take(k as int + 1) =~= (before + r@.take(k as int)).push(r@[k as int]));
                k += 1;
            }
            assert(r@.take(r.len() as int) =~= r@);
            assert(out@ + replace_all(text@.skip(i + p@.len()), p@, r@) =~= before + (r@ + replace_all(rest.skip(p@.len() as int), p@, r@)));
            i += p.len();
        } else {
            proof {
                if p@.len() > 0 && p@.len() <= rest.len() {
                    assert(rest.subrange(0, p@.len() as int) =~= text@.subrange(i as int, i + p@.len()));
                }
                assert(rest.skip(1) =~= text@.skip(i + 1));
                assert(rest[0] == text@[i as int]);
            }
            let ghost before = out@;
            out.push(text[i]);
            assert(out@ + replace_all(text@.skip(i + 1), p@, r@) =~= before + (seq![text@[i as int]] + replace_all(rest.skip(1), p@, r@)));
            i += 1;
        }
    }
    assert(text@.skip(text.len() as int) =~= Seq::<char>::empty());
    assert(out@ + Seq::<char>::empty() =~= out@);
    out
}


/// The first `n` bytes of `s` end at a character boundary.
pub open spec fn byte_boundary(s: Seq<char>, n: nat) -> bool {
    exists|k: int| 0 <= k <= s.len() && #[trigger] utf8_len(s.take(k)) == n
}

/// Whether the first `n` bytes of a text end between two characters.
pub fn is_byte_boundary(s: &Vec<char>, n: usize) -> (r: bool)
    ensures
        r == byte_boundary(s@, n as nat),
{
    let mut acc: usize = 0;
    let mut i: usize = 0;
    while i < s.len() && acc < n
        invariant
            i <= s.len(),
            acc == utf8_len(s@.take(i as int)),
            acc <= n,
            forall|k: int| 0 <= k < i ==> #[trigger] utf8_len(s@.take(k)) < n,
        decreases s.len() - i,
    {
        assert(s@.take(i as int + 1).drop_last() =~= s@.take(i as int));
        let w = char_width(s[i]);
        if w > n - acc {
            proof {
                assert forall|k: int| 0 <= k <= s@.len() implies #[trigger] utf8_len(s@.take(k)) != n by {
                    if k > i as int + 1 {
                        lemma_utf8_len_strict(s@, i as int + 1, k);
                    }
                }
            }
            return false;
        }
        acc = acc + w;
        i += 1;
    }
    if acc == n {
        assert(utf8_len(s@.take(i as int)) == n);
        return true;
    }
    proof {
        assert forall|k: int| 0 <= k <= s@.len() implies #[trigger] utf8_len(s@.take(k)) != n by {
            if k == s@.len() {
                assert(i == s.len());
            }
        }
    }
    false
}

/// Every character takes at least one byte, so longer prefixes take more.
pub proof fn lemma_utf8_len_strict(s: Seq<char>, i: int, j: int)
    requires
        0 <= i < j <= s.len(),
    ensures
        utf8_len(s.take(i)) < utf8_len(s.take(j)),
    decreases j - i,
{
    assert(s.take(j).drop_last() =~= s.take(j - 1));
    if i < j - 1 {
        lemma_utf8_len_strict(s, i, j - 1);
    }
}

/// The characters of `s` that make up its first `n` bytes.
pub fn byte_prefix(s: &Vec<char>, n: usize) -> (r: Vec<char>)
    requires
        byte_boundary(s@, n as nat),
    ensures
        utf8_len(r@) == n,
        exists|k: int| 0 <= k <= s@.len() && r@ == s@.take(k),
{
    let ghost kk = choose|k: int| 0 <= k <= s@.len() && #[trigger] utf8_len(s@.take(k)) == n as nat;
    let mut out: Vec<char> = Vec::new();
    let mut acc: usize = 0;
    let mut i: usize = 0;
    let slen = s.len();
    assert(s@.take(0) =~= Seq::<char>::empty());
    while acc < n
        invariant
            slen == s@.len(),
            i <= kk,
            0 <= kk <= s@.len(),
            utf8_len(s@.take(kk)) == n,
            acc == utf8_len(s@.take(i as int)),
            out@ == s@.take(i as int),
            acc <= n,
        decreases n - acc,
    {
        proof {
            if i == kk {
                assert(false);
            }
            lemma_utf8_len_strict(s@, i as int, i as int + 1);
            if i + 1 < kk {
                lemma_utf8_len_strict(s@, i as int + 1, kk);
            }
        }
        assert(s@.take(i as int + 1).drop_last() =~= s@.take(i as int));
        assert(i < kk);
        let w = char_width(s[i]);
        out.push(s[i]);
        assert(out@ =~= s@.take(i as int + 1));
        acc = acc + w;
        i += 1;
    }
    out
}

/// The words of `text` joined by single spaces, cut to `max` bytes with
/// `...` appended when longer.
pub open spec fn compact_spec(text: Seq<char>, max: nat) -> Seq<char> {
    let single = collapse_ws(text);
    if utf8_len(single) > max {
        (choose|p: Seq<char>| (exists|k: int| 0 <= k <= single.len() && p == single.take(k)) && utf8_len(p) == max) + "..."@
    } else {
        single
    }
}

/// Collapses whitespace and cuts the result to `max` bytes, adding `...`
/// when it was longer. The cut must fall between characters.
pub fn compact_text(text: &str, max: usize) -> (r: String)
    requires
        utf8_len(collapse_ws(text@)) > max ==> byte_boundary(collapse_ws(text@), max as nat),
    ensures
        r@ == compact_spec(text@, max as nat),
{
    let single = collapse_whitespace(&chars_of(text));
    if utf8_len_below(&single, max) {
        return string_from_chars(&single);
    }
    proof {
        if utf8_len(single@) == max as nat {
            assert(single@.take(single@.len() as int) =~= single@);
            assert(byte_boundary(single@, max as nat));
        }
    }
    let p = byte_prefix(&single, max);
    if p.len() == single.len() {
        proof {
            let kp = choose|k: int| 0 <= k <= single@.len() && p@ == single@.take(k);
            assert(p@ =~= single@);
        }
        return string_from_chars(&single);
    }
    proof {
        let kp = choose|k: int| 0 <= k <= single@.len() && p@ == single@.take(k);
        assert(kp < single@.len());
        lemma_utf8_len_strict(single@, kp, single@.len() as int);
        assert(single@.take(single@.len() as int) =~= single@);
        let q = choose|q: Seq<char>| (exists|k: int| 0 <= k <= single@.len() && q == single@.take(k)) && utf8_len(q) == max as nat;
        assert((exists|k: int| 0 <= k <= single@.len() && p@ == single@.take(k)) && utf8_len(p@) == max as nat);
        let kq = choose|k: int| 0 <= k <= single@.len() && q == single@.take(k);
        if kp < kq { lemma_utf8_len_strict(single@, kp, kq); }
        if kq < kp { lemma_utf8_len_strict(single@, kq, kp); }
        assert(p@ == q);
    }
    let mut out = string_from_chars(&p);
    out.append("...");
    out
}


/// The first `max` bytes of `s`, or all of `s` when it is no longer.
pub open spec fn byte_cut(s: Seq<char>, max: nat) -> Seq<char> {
    if utf8_len(s) > max {
        choose|p: Seq<char>| (exists|k: int| 0 <= k <= s.len() && p == s.take(k)) && utf8_len(p) == max
    } else {
        s
    }
}

/// Cuts `text` to its first `max` bytes, as slicing `&text[..max]` does;
/// the cut must fall between characters.
pub fn cut_to_bytes(text: &str, max: usize) -> (r: String)
    requires
        utf8_len(text@) > max ==> byte_boundary(text@, max as nat),
    ensures
        r@ == byte_cut(text@, max as nat),
{
    let cs = chars_of(text);
    if utf8_len_below(&cs, max) {
        return string_from_chars(&cs);
    }
    proof {
        if utf8_len(cs@) == max as nat {
            assert(cs@.take(cs@.len() as int) =~= cs@);
            assert(byte_boundary(cs@, max as nat));
        }
    }
    let p = byte_prefix(&cs, max);
    if p.len() == cs.len() {
        proof {
            let kp = choose|k: int| 0 <= k <= cs@.len() && p@ == cs@.take(k);
            assert(p@ =~= cs@);
        }
        return string_from_chars(&cs);
    }
    proof {
        let kp = choose|k: int| 0 <= k <= cs@.len() && p@ == cs@.take(k);
        assert(kp < cs@.len());
        lemma_utf8_len_strict(cs@, kp, cs@.len() as int);
        assert(cs@.take(cs@.len() as int) =~= cs@);
        let q = choose|q: Seq<char>| (exists|k: int| 0 <= k <= cs@.len() && q == cs@.take(k)) && utf8_len(q) == max as nat;
        assert((exists|k: int| 0 <= k <= cs@.len() && p@ == cs@.take(k)) && utf8_len(p@) == max as nat);
        let kq = choose|k: int| 0 <= k <= cs@.len() && q == cs@.take(k);
        if kp < kq { lemma_utf8_len_strict(cs@, kp, kq); }
        if kq < kp { lemma_utf8_len_strict(cs@, kq, kp); }
        assert(p@ == q);
    }
    string_from_chars(&p)
}

/// Texts joined by a separator.
pub open spec fn join_seqs(items: Seq<Seq<char>>, sep: Seq<char>) -> Seq<char>
    decreases items.len(),
{
    if items.len() == 0 {
        Seq::empty()
    } else if items.len() == 1 {
        items[0]
    } else {
        join_seqs(items.drop_last(), sep) + sep + items.last()
    }
}

/// Joins texts with a separator, as `join` does.
pub fn join_strings(items: &Vec<String>, sep: &str) -> (r: String)
    ensures
        r@ == join_seqs(string_views(items@), sep@),
{
    let mut out = String::new();
    let mut i: usize = 0;
    while i < items.len()
        invariant
            i <= items.len(),
            out@ == join_seqs(string_views(items@).take(i as int), sep@),
        decreases items.len() - i,
    {
        assert(string_views(items@).take(i as int + 1).drop_last() =~= string_views(items@).take(i as int));
        if i > 0 {
            out.append(sep);
        }
        out.append(items[i].as_str());
        proof {
            if i == 0 {
                assert(out@ =~= string_views(items@).take(1)[0]);
            }
        }
        i += 1;
    }
    assert(string_views(items@).take(items.len() as int) =~= string_views(items@));
    out
}

/// Joins string slices with a separator, as `join` does.
pub fn join_strs(items: &[&str], sep: &str) -> (r: String)
    ensures
        r@ == join_seqs(views_of(items@), sep@),
{
    let mut out = String::new();
    let mut i: usize = 0;
    while i < items.len()
        invariant
            i <= items.len(),
            out@ == join_seqs(views_of(items@).take(i as int), sep@),
        decreases items.len() - i,
    {
        assert(views_of(items@).take(i as int + 1).drop_last() =~= views_of(items@).take(i as int));
        if i > 0 {
            out.append(sep);
        }
        out.append(items[i]);
        proof {
            if i == 0 {
                assert(out@ =~= views_of(items@).take(1)[0]);
            }
        }
        i += 1;
    }
    assert(views_of(items@).take(items.len() as int) =~= views_of(items@));
    out
}

} // verus!
