//! Searches restricted to Microsoft's documentation and support sites.

use vstd::prelude::*;
use crate::text::{chars_of, contains_any, contains_any_spec, lowercase_chars, lowercase_of, matches_at_pub, string_from_chars, trim_chars, trim_seq, views_of};

verus! {

/// The sites a search may draw from.
pub open spec fn ms_allowed_domains() -> Seq<Seq<char>> {
    seq!["learn.microsoft.com"@, "support.microsoft.com"@, "answers.microsoft.com"@, "techcommunity.microsoft.com"@]
}

/// One result of a restricted search.
#[derive(Debug, Clone)]
pub struct MicrosoftSearchResult {
    pub title: String,
    pub snippet: String,
    pub url: String,
    pub domain: String,
}

/// Whether a URL, lowercased, names one of the allowed sites.
pub fn is_whitelisted_microsoft_url(url: &str) -> (r: bool)
    ensures
        r == contains_any_spec(lowercase_of(url@), ms_allowed_domains()),
{
    let lowercase = lowercase_chars(url);
    let domains: [&str; 4] = ["learn.microsoft.com", "support.microsoft.com", "answers.microsoft.com", "techcommunity.microsoft.com"];
    assert(views_of(domains@) =~= ms_allowed_domains());
    contains_any(&lowercase, &domains)
}

/// `s` with every occurrence of `pat` removed, scanning left to right as
/// `str::replace(pat, "")` does.
pub open spec fn remove_all(s: Seq<char>, pat: Seq<char>) -> Seq<char>
    decreases s.len(),
{
    if s.len() == 0 {
        s
    } else if pat.len() > 0 && pat.len() <= s.len() && s.subrange(0, pat.len() as int) == pat {
        remove_all(s.skip(pat.len() as int), pat)
    } else {
        seq![s[0]] + remove_all(s.skip(1), pat)
    }
}

fn remove_occurrences(text: &Vec<char>, pat: &str) -> (res: Vec<char>)
    ensures
        res@ == remove_all(text@, pat@),
{
    let p = chars_of(pat);
    let mut out: Vec<char> = Vec::new();
    let mut i: usize = 0;
    assert(text@.skip(0) =~= text@);
    assert(out@ + remove_all(text@, p@) =~= remove_all(text@, p@));
    while i < text.len()
        invariant
            i <= text.len(),
            p@ == pat@,
            out@ + remove_all(text@.skip(i as int), p@) == remove_all(text@, p@),
        decreases text.len() - i,
    {
        let rest = Ghost(text@.skip(i as int));
        if p.len() > 0 && p.len() <= text.len() - i && matches_at_pub(text, &p, i) {
            assert(rest@.subrange(0, p@.len() as int) =~= text@.subrange(i as int, i + p@.len()));
            assert(rest@.skip(p@.len() as int) =~= text@.skip(i + p@.len()));
            i += p.len();
        } else {
            proof {
                if p@.len() > 0 && p@.len() <= rest@.len() {
                    assert(rest@.subrange(0, p@.len() as int) =~= text@.subrange(i as int, i + p@.len()));
                }
                assert(rest@.skip(1) =~= text@.skip(i + 1));
                assert(rest@[0] == text@[i as int]);
            }
            out.push(text[i]);
            assert(out@ + remove_all(text@.skip(i + 1), p@) =~= (out@.drop_last() + seq![text@[i as int]]) + remove_all(rest@.skip(1), p@));
            i += 1;
        }
    }
    assert(text@.skip(text.len() as int) =~= Seq::<char>::empty());
    assert(out@ + Seq::<char>::empty() =~= out@);
    out
}

/// The search text for a query: `site:` and `http` removed, trimmed, and
/// restricted to the allowed sites.
pub open spec fn ms_query_spec(q: Seq<char>) -> Seq<char> {
    trim_seq(remove_all(remove_all(q, "site:"@), "http"@))
        + " (site:learn.microsoft.com OR site:support.microsoft.com OR site:answers.microsoft.com OR site:techcommunity.microsoft.com)"@
}

/// Builds a search query restricted to the allowed sites.
pub fn build_microsoft_search_query(user_query: &str) -> (res: String)
    ensures
        res@ == ms_query_spec(user_query@),
{
    let q = chars_of(user_query);
    let a = remove_occurrences(&q, "site:");
    let b = remove_occurrences(&a, "http");
    let c = trim_chars(&b);
    let mut out = string_from_chars(&c);
    out.append(" (site:learn.microsoft.com OR site:support.microsoft.com OR site:answers.microsoft.com OR site:techcommunity.microsoft.com)");
    out
}

} // verus!
