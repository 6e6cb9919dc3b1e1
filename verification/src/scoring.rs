//! The integer parts of retrieval scoring: which words count, how many of
//! them a candidate shares with the query, and the fixed bonuses (in
//! hundredths) a candidate earns. The weighted sums of these are floating
//! point and stay with the caller.

use vstd::prelude::*;
use crate::models::{DomainSpecialty, QueryAnalysis};
use crate::query_analyzer::{tokenize, words};
use crate::retrieval::{normalize_text, retrieval_normalize_spec};
use crate::text::{
    chars_of, contains_seq, eq_ignore_ascii_case, eq_ignore_ascii_case_spec, lowercase_chars, lowercase_of, member,
    replace_all, replace_chars, seq_contains, string_views, utf8_len, utf8_len_below, views_of,
};

verus! {

// ---------------------------------------------------------------------------
// Significant words
// ---------------------------------------------------------------------------

/// Words too common to tell documents apart.
pub open spec fn stopwords() -> Seq<Seq<char>> {
    seq![
        "que"@, "es"@, "un"@, "una"@, "el"@, "la"@, "los"@, "las"@, "de"@, "del"@,
        "y"@, "en"@, "por"@, "para"@, "con"@, "sobre"@, "como"@, "a"@, "al"@, "se"@,
        "lo"@, "me"@, "mi"@, "tu"@, "su"@, "te"@, "hay"@, "tener"@, "tengo"@, "tiene"@,
    ]
}

/// Whether a word is too common to count.
pub fn is_stopword(token: &str) -> (r: bool)
    ensures
        r == stopwords().contains(token@),
{
    let list: [&str; 30] = [
        "que", "es", "un", "una", "el", "la", "los", "las", "de", "del",
        "y", "en", "por", "para", "con", "sobre", "como", "a", "al", "se",
        "lo", "me", "mi", "tu", "su", "te", "hay", "tener", "tengo", "tiene",
    ];
    assert(views_of(list@) =~= stopwords());
    member(token, &list)
}

/// A word counts when it takes at least two bytes and is not a stopword.
pub open spec fn keep_token(t: Seq<char>) -> bool {
    utf8_len(t) >= 2 && !stopwords().contains(t)
}

/// The words that count, in order.
pub open spec fn significant_of(ws: Seq<Seq<char>>) -> Seq<Seq<char>>
    decreases ws.len(),
{
    if ws.len() == 0 {
        ws
    } else if keep_token(ws.last()) {
        significant_of(ws.drop_last()).push(ws.last())
    } else {
        significant_of(ws.drop_last())
    }
}

/// The words of a text that count.
pub fn significant_tokens(text: &str) -> (r: Vec<String>)
    ensures
        string_views(r@) == significant_of(words(text@)),
{
    let ws = tokenize(text);
    let mut out: Vec<String> = Vec::new();
    let mut i: usize = 0;
    while i < ws.len()
        invariant
            i <= ws.len(),
            string_views(out@) == significant_of(string_views(ws@).take(i as int)),
        decreases ws.len() - i,
    {
        assert(string_views(ws@).take(i as int + 1).drop_last() =~= string_views(ws@).take(i as int));
        let w = ws[i].as_str();
        let cs = chars_of(w);
        if !utf8_len_below(&cs, 2) && !is_stopword(w) {
            let ghost before = out@;
            let c = ws[i].clone();
            out.push(c);
            assert(string_views(out@) =~= string_views(before).push(c@));
        }
        i += 1;
    }
    assert(string_views(ws@).take(ws.len() as int) =~= string_views(ws@));
    out
}

/// How many of the query's words (repeats included) appear among the
/// document's.
pub open spec fn shared_count(q: Seq<Seq<char>>, d: Seq<Seq<char>>) -> nat
    decreases q.len(),
{
    if q.len() == 0 {
        0
    } else {
        shared_count(q.drop_last(), d) + if d.contains(q.last()) { 1nat } else { 0nat }
    }
}

fn contains_word(ws: &Vec<String>, w: &str) -> (r: bool)
    ensures
        r == string_views(ws@).contains(w@),
{
    let mut i: usize = 0;
    while i < ws.len()
        invariant
            i <= ws.len(),
            forall|j: int| 0 <= j < i ==> string_views(ws@)[j] != w@,
        decreases ws.len() - i,
    {
        if crate::text::str_eq(ws[i].as_str(), w) {
            assert(string_views(ws@)[i as int] == w@);
            return true;
        }
        i += 1;
    }
    false
}

/// How many of the query's words appear among the document's.
pub fn count_shared(query_tokens: &Vec<String>, doc_tokens: &Vec<String>) -> (r: usize)
    ensures
        r == shared_count(string_views(query_tokens@), string_views(doc_tokens@)),
{
    let mut n: usize = 0;
    let mut i: usize = 0;
    while i < query_tokens.len()
        invariant
            i <= query_tokens.len(),
            n == shared_count(string_views(query_tokens@).take(i as int), string_views(doc_tokens@)),
            n <= i,
        decreases query_tokens.len() - i,
    {
        assert(string_views(query_tokens@).take(i as int + 1).drop_last() =~= string_views(query_tokens@).take(i as int));
        if contains_word(doc_tokens, query_tokens[i].as_str()) {
            n += 1;
        }
        i += 1;
    }
    assert(string_views(query_tokens@).take(query_tokens.len() as int) =~= string_views(query_tokens@));
    n
}

// ---------------------------------------------------------------------------
// Fixed bonuses, in hundredths
// ---------------------------------------------------------------------------

/// The bonus for a document that holds the query as a phrase, or is held
/// by it: 28 hundredths, none when either is empty.
pub open spec fn exact_phrase_bonus_spec(q: Seq<char>, d: Seq<char>) -> u32 {
    if q.len() == 0 || d.len() == 0 {
        0
    } else if d == q || seq_contains(d, q) || seq_contains(q, d) {
        28
    } else {
        0
    }
}

/// The phrase bonus of a normalized document for a normalized query.
pub fn exact_phrase_bonus_pct(query_norm: &str, doc_norm: &str) -> (r: u32)
    ensures
        r == exact_phrase_bonus_spec(query_norm@, doc_norm@),
{
    let q = chars_of(query_norm);
    let d = chars_of(doc_norm);
    if q.len() == 0 || d.len() == 0 {
        return 0;
    }
    if contains_seq(&d, &q) || contains_seq(&q, &d) {
        28
    } else {
        proof {
            if d@ == q@ {
                assert(d@.subrange(0, q@.len() as int) =~= q@);
                assert(crate::text::occurs_at(d@, q@, 0));
            }
        }
        0
    }
}

/// The bonus for a title or anchor that shares words with the query: 10
/// hundredths for two or more in either, 5 for one, else none.
pub open spec fn anchor_bonus_spec(q: Seq<Seq<char>>, title: Seq<char>, anchor: Seq<char>) -> u32 {
    let t = shared_count(q, significant_of(words(retrieval_normalize_spec(title))));
    let a = shared_count(q, significant_of(words(retrieval_normalize_spec(anchor))));
    if t >= 2 || a >= 2 { 10 } else if t >= 1 || a >= 1 { 5 } else { 0 }
}

/// The anchor bonus of a document for the query's significant words.
pub fn anchor_bonus_pct(query_tokens: &Vec<String>, title: &str, title_anchor: &str) -> (r: u32)
    ensures
        r == anchor_bonus_spec(string_views(query_tokens@), title@, title_anchor@),
{
    let title_norm = normalize_text(title);
    let anchor_norm = normalize_text(title_anchor);
    let title_tokens = significant_tokens(title_norm.as_str());
    let anchor_tokens = significant_tokens(anchor_norm.as_str());
    let t = count_shared(query_tokens, &title_tokens);
    let a = count_shared(query_tokens, &anchor_tokens);
    if t >= 2 || a >= 2 { 10 } else if t >= 1 || a >= 1 { 5 } else { 0 }
}

/// The bonus for a document keyed by the query's first entity (letter case
/// aside): 18 hundredths.
pub open spec fn entity_bonus_spec(entity_filter: Seq<char>, entity_key: Seq<char>) -> u32 {
    if entity_filter.len() > 0 && eq_ignore_ascii_case_spec(entity_key, entity_filter) { 18 } else { 0 }
}

/// The entity bonus of a document.
pub fn entity_bonus_pct(entity_filter: &str, entity_key: &str) -> (r: u32)
    ensures
        r == entity_bonus_spec(entity_filter@, entity_key@),
{
    if chars_of(entity_filter).len() > 0 && eq_ignore_ascii_case(entity_key, entity_filter) { 18 } else { 0 }
}

/// The bonus for a lowercased text that is the query, holds (or is held by)
/// one of its entities, or holds one of its symptoms (with or without
/// underscores): 35, 20 or 15 hundredths, checked in that order.
pub open spec fn exact_match_bonus_spec(text: Seq<char>, a: QueryAnalysis) -> u32 {
    let h = lowercase_of(text);
    if h == a.normalized_text@ {
        35
    } else if exists|i: int| 0 <= i < a.entities@.len()
        && (seq_contains(h, #[trigger] string_views(a.entities@)[i]) || seq_contains(string_views(a.entities@)[i], h)) {
        20
    } else if exists|i: int| 0 <= i < a.symptoms@.len()
        && (seq_contains(h, #[trigger] string_views(a.symptoms@)[i])
            || seq_contains(h, replace_all(string_views(a.symptoms@)[i], "_"@, " "@))) {
        15
    } else {
        0
    }
}

/// The exact-match bonus of a text for a query.
pub fn exact_match_bonus_pct(text: &str, analysis: &QueryAnalysis) -> (r: u32)
    ensures
        r == exact_match_bonus_spec(text@, *analysis),
{
    let h = lowercase_chars(text);
    if crate::text::chars_eq(&h, analysis.normalized_text.as_str()) {
        return 35;
    }
    let mut i: usize = 0;
    while i < analysis.entities.len()
        invariant
            i <= analysis.entities.len(),
            h@ == lowercase_of(text@),
            h@ != analysis.normalized_text@,
            forall|j: int| 0 <= j < i ==> !(seq_contains(h@, #[trigger] string_views(analysis.entities@)[j])
                || seq_contains(string_views(analysis.entities@)[j], h@)),
        decreases analysis.entities.len() - i,
    {
        let e = chars_of(analysis.entities[i].as_str());
        if contains_seq(&h, &e) || contains_seq(&e, &h) {
            assert(string_views(analysis.entities@)[i as int] == e@);
            assert(h@ != analysis.normalized_text@);
            assert(exists|i: int| 0 <= i < analysis.entities@.len()
                && (seq_contains(h@, #[trigger] string_views(analysis.entities@)[i]) || seq_contains(string_views(analysis.entities@)[i], h@)));
            return 20;
        }
        i += 1;
    }
    let mut k: usize = 0;
    while k < analysis.symptoms.len()
        invariant
            k <= analysis.symptoms.len(),
            h@ == lowercase_of(text@),
            h@ != analysis.normalized_text@,
            forall|j: int| 0 <= j < analysis.entities@.len() ==> !(seq_contains(h@, #[trigger] string_views(analysis.entities@)[j])
                || seq_contains(string_views(analysis.entities@)[j], h@)),
            forall|j: int| 0 <= j < k ==> !(seq_contains(h@, #[trigger] string_views(analysis.symptoms@)[j])
                || seq_contains(h@, replace_all(string_views(analysis.symptoms@)[j], "_"@, " "@))),
        decreases analysis.symptoms.len() - k,
    {
        let s = chars_of(analysis.symptoms[k].as_str());
        let spaced = replace_chars(&s, "_", " ");
        if contains_seq(&h, &s) || contains_seq(&h, &spaced) {
            assert(string_views(analysis.symptoms@)[k as int] == s@);
            assert(h@ != analysis.normalized_text@);
            assert(exists|i: int| 0 <= i < analysis.symptoms@.len()
                && (seq_contains(h@, #[trigger] string_views(analysis.symptoms@)[i])
                    || seq_contains(h@, replace_all(string_views(analysis.symptoms@)[i], "_"@, " "@))));
            return 15;
        }
        k += 1;
    }
    0
}

/// The bonus for a candidate of the query's specialty, when that is known:
/// 25 hundredths.
pub open spec fn specialty_bonus_spec(candidate: DomainSpecialty, a: QueryAnalysis) -> u32 {
    if a.specialty == DomainSpecialty::Unknown { 0 } else if candidate == a.specialty { 25 } else { 0 }
}

/// The specialty bonus of a candidate.
pub fn specialty_bonus_pct(candidate_specialty: &DomainSpecialty, analysis: &QueryAnalysis) -> (r: u32)
    ensures
        r == specialty_bonus_spec(*candidate_specialty, *analysis),
{
    if analysis.specialty == DomainSpecialty::Unknown {
        0
    } else if *candidate_specialty == analysis.specialty {
        25
    } else {
        0
    }
}

// ---------------------------------------------------------------------------
// Lexical evidence
// ---------------------------------------------------------------------------

/// How many query words of two or more bytes a lowercased text holds.
pub open spec fn token_hits(ws: Seq<Seq<char>>, h: Seq<char>) -> nat
    decreases ws.len(),
{
    if ws.len() == 0 {
        0
    } else {
        token_hits(ws.drop_last(), h) + if utf8_len(ws.last()) >= 2 && seq_contains(h, ws.last()) { 1nat } else { 0nat }
    }
}

/// How many symptoms a lowercased text holds, with underscores read as
/// spaces or as written.
pub open spec fn symptom_hits(ss: Seq<Seq<char>>, h: Seq<char>) -> nat
    decreases ss.len(),
{
    if ss.len() == 0 {
        0
    } else {
        symptom_hits(ss.drop_last(), h)
            + if seq_contains(h, replace_all(ss.last(), "_"@, " "@)) || seq_contains(h, ss.last()) { 1nat } else { 0nat }
    }
}

/// How many entities a lowercased text holds.
pub open spec fn entity_hits(es: Seq<Seq<char>>, h: Seq<char>) -> nat
    decreases es.len(),
{
    if es.len() == 0 {
        0
    } else {
        entity_hits(es.drop_last(), h) + if seq_contains(h, es.last()) { 1nat } else { 0nat }
    }
}

/// The lexical evidence of a text for a query: the query words, symptoms
/// and entities its lowercase form holds. The lexical score weighs these
/// (18, 25 and 30 hundredths each, capped at one).
pub open spec fn lexical_hits_spec(text: Seq<char>, a: QueryAnalysis) -> (nat, nat, nat) {
    let h = lowercase_of(text);
    (
        token_hits(words(a.normalized_text@), h),
        symptom_hits(string_views(a.symptoms@), h),
        entity_hits(string_views(a.entities@), h),
    )
}

/// The lexical evidence of a text for a query.
pub fn lexical_hits(text: &str, analysis: &QueryAnalysis) -> (r: (usize, usize, usize))
    ensures
        (r.0 as nat, r.1 as nat, r.2 as nat) == lexical_hits_spec(text@, *analysis),
{
    let h = lowercase_chars(text);
    let ws = tokenize(analysis.normalized_text.as_str());
    let mut t: usize = 0;
    let mut i: usize = 0;
    while i < ws.len()
        invariant
            i <= ws.len(),
            t == token_hits(string_views(ws@).take(i as int), h@),
            t <= i,
        decreases ws.len() - i,
    {
        assert(string_views(ws@).take(i as int + 1).drop_last() =~= string_views(ws@).take(i as int));
        let w = chars_of(ws[i].as_str());
        if !utf8_len_below(&w, 2) && contains_seq(&h, &w) {
            t += 1;
        }
        i += 1;
    }
    assert(string_views(ws@).take(ws.len() as int) =~= string_views(ws@));
    let mut s: usize = 0;
    let mut k: usize = 0;
    while k < analysis.symptoms.len()
        invariant
            k <= analysis.symptoms.len(),
            s == symptom_hits(string_views(analysis.symptoms@).take(k as int), h@),
            s <= k,
        decreases analysis.symptoms.len() - k,
    {
        assert(string_views(analysis.symptoms@).take(k as int + 1).drop_last() =~= string_views(analysis.symptoms@).take(k as int));
        let sc = chars_of(analysis.symptoms[k].as_str());
        let spaced = replace_chars(&sc, "_", " ");
        if contains_seq(&h, &spaced) || contains_seq(&h, &sc) {
            s += 1;
        }
        k += 1;
    }
    assert(string_views(analysis.symptoms@).take(analysis.symptoms.len() as int) =~= string_views(analysis.symptoms@));
    let mut e: usize = 0;
    let mut j: usize = 0;
    while j < analysis.entities.len()
        invariant
            j <= analysis.entities.len(),
            e == entity_hits(string_views(analysis.entities@).take(j as int), h@),
            e <= j,
        decreases analysis.entities.len() - j,
    {
        assert(string_views(analysis.entities@).take(j as int + 1).drop_last() =~= string_views(analysis.entities@).take(j as int));
        let ec = chars_of(analysis.entities[j].as_str());
        if contains_seq(&h, &ec) {
            e += 1;
        }
        j += 1;
    }
    assert(string_views(analysis.entities@).take(analysis.entities.len() as int) =~= string_views(analysis.entities@));
    (t, s, e)
}

} // verus!
