//! Keyword rule tables: labels applied when some phrase of theirs occurs in a
//! text, and keyword counting.

use vstd::prelude::*;
use crate::text::{
    chars_of, contains, contains_any, contains_any_spec, owned, seq_contains, string_views, views_of,
};

verus! {

/// A labelled rule: the label applies when any alias occurs in the text.
pub open spec fn rule_views(rules: Seq<(&str, Vec<&str>)>) -> Seq<(Seq<char>, Seq<Seq<char>>)> {
    rules.map_values(|r: (&str, Vec<&str>)| (r.0@, views_of(r.1@)))
}

/// The labels of the rules that match `text`, in rule order.
pub open spec fn matching_labels(text: Seq<char>, rules: Seq<(Seq<char>, Seq<Seq<char>>)>) -> Seq<Seq<char>>
    decreases rules.len(),
{
    if rules.len() == 0 {
        Seq::<Seq<char>>::empty()
    } else {
        let prev = matching_labels(text, rules.drop_last());
        if contains_any_spec(text, rules.last().1) { prev.push(rules.last().0) } else { prev }
    }
}

pub fn labels_for(text: &Vec<char>, rules: &Vec<(&'static str, Vec<&'static str>)>) -> (res: Vec<String>)
    ensures
        string_views(res@) == matching_labels(text@, rule_views(rules@)),
{
    let mut out: Vec<String> = Vec::new();
    let mut k: usize = 0;
    while k < rules.len()
        invariant
            k <= rules.len(),
            string_views(out@) == matching_labels(text@, rule_views(rules@).take(k as int)),
        decreases rules.len() - k,
    {
        assert(rule_views(rules@).take(k as int + 1).drop_last() =~= rule_views(rules@).take(k as int));
        if contains_any(text, rules[k].1.as_slice()) {
            out.push(owned(rules[k].0));
            assert(string_views(out@) =~= string_views(out@).drop_last().push(rules@[k as int].0@));
        }
        k += 1;
    }
    assert(rule_views(rules@).take(rules.len() as int) =~= rule_views(rules@));
    out
}

/// A rule keyed by a value of the library instead of a label.
pub open spec fn keyed_views<K>(rules: Seq<(K, Vec<&str>)>) -> Seq<(K, Seq<Seq<char>>)> {
    rules.map_values(|r: (K, Vec<&str>)| (r.0, views_of(r.1@)))
}

/// How many of the keywords occur in `text`.
pub open spec fn count_hits(text: Seq<char>, kws: Seq<Seq<char>>) -> nat
    decreases kws.len(),
{
    if kws.len() == 0 {
        0
    } else {
        count_hits(text, kws.drop_last()) + if seq_contains(text, kws.last()) { 1nat } else { 0nat }
    }
}

pub fn count_keyword_hits(text: &Vec<char>, kws: &Vec<&'static str>) -> (n: usize)
    ensures
        n == count_hits(text@, views_of(kws@)),
        n <= kws.len(),
{
    let mut n: usize = 0;
    let mut k: usize = 0;
    while k < kws.len()
        invariant
            k <= kws.len(),
            n <= k,
            n == count_hits(text@, views_of(kws@).take(k as int)),
        decreases kws.len() - k,
    {
        assert(views_of(kws@).take(k as int + 1).drop_last() =~= views_of(kws@).take(k as int));
        if contains(text, kws[k]) {
            n += 1;
        }
        k += 1;
    }
    assert(views_of(kws@).take(kws.len() as int) =~= views_of(kws@));
    n
}


/// A rule's label is among the matching labels exactly when one of its
/// phrases occurs in the text (for the label's own rule or another with the
/// same label), and the labels come in rule order.
pub proof fn lemma_matching_labels(text: Seq<char>, rules: Seq<(Seq<char>, Seq<Seq<char>>)>)
    ensures
        forall|i: int| 0 <= i < rules.len() && contains_any_spec(text, (#[trigger] rules[i]).1)
            ==> matching_labels(text, rules).contains(rules[i].0),
        forall|l: Seq<char>| #[trigger] matching_labels(text, rules).contains(l)
            ==> exists|i: int| 0 <= i < rules.len() && (#[trigger] rules[i]).0 == l && contains_any_spec(text, rules[i].1),
        matching_labels(text, rules).len() <= rules.len(),
    decreases rules.len(),
{
    if rules.len() > 0 {
        let prev = rules.drop_last();
        lemma_matching_labels(text, prev);
        let m = matching_labels(text, rules);
        let pm = matching_labels(text, prev);
        assert forall|i: int| 0 <= i < rules.len() && contains_any_spec(text, (#[trigger] rules[i]).1)
            implies m.contains(rules[i].0) by {
            if i < rules.len() - 1 {
                assert(prev[i] == rules[i]);
                assert(pm.contains(prev[i].0));
                let j = choose|j: int| 0 <= j < pm.len() && pm[j] == prev[i].0;
                assert(m[j] == pm[j]);
            } else {
                assert(m[m.len() - 1] == rules[i].0);
            }
        }
        assert forall|l: Seq<char>| #[trigger] m.contains(l)
            implies exists|i: int| 0 <= i < rules.len() && (#[trigger] rules[i]).0 == l && contains_any_spec(text, rules[i].1) by {
            let j = choose|j: int| 0 <= j < m.len() && m[j] == l;
            if j < pm.len() {
                assert(pm[j] == l);
                assert(pm.contains(l));
                let i = choose|i: int| 0 <= i < prev.len() && (#[trigger] prev[i]).0 == l && contains_any_spec(text, prev[i].1);
                assert(rules[i] == prev[i]);
            } else {
                assert(rules[rules.len() - 1].0 == l);
            }
        }
    }
}

} // verus!
