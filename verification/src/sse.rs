//! Reading a server-sent event stream: text arrives in chunks cut anywhere;
//! complete lines are taken from the buffer, and each `data: ` line other
//! than `data: [DONE]` yields its payload. Where the chunks were cut does
//! not change what is read.

use vstd::prelude::*;
use crate::text::{chars_of, seq_starts_with, string_from_chars, string_views, trim_chars, trim_seq};

verus! {

/// The text received but not yet ended by a newline.
#[derive(Debug, Clone)]
pub struct SseLineBuffer {
    pub pending: String,
}

/// The complete lines of a text (without their newlines) and what follows
/// the last newline.
pub open spec fn split_lines(s: Seq<char>) -> (Seq<Seq<char>>, Seq<char>)
    decreases s.len(),
{
    if s.len() == 0 {
        (Seq::empty(), Seq::empty())
    } else {
        let prev = split_lines(s.drop_last());
        if s.last() == '\n' {
            (prev.0.push(prev.1), Seq::empty())
        } else {
            (prev.0, prev.1.push(s.last()))
        }
    }
}

/// The payload of a line: after trimming, what follows `data: `, unless
/// that is `[DONE]`; none for any other line.
pub open spec fn payload_of(line: Seq<char>) -> Option<Seq<char>> {
    let t = trim_seq(line);
    if seq_starts_with(t, "data: "@) && t.skip(6) != "[DONE]"@ {
        Some(t.skip(6))
    } else {
        None
    }
}

/// The payloads of lines, in order.
pub open spec fn payloads(lines: Seq<Seq<char>>) -> Seq<Seq<char>>
    decreases lines.len(),
{
    if lines.len() == 0 {
        Seq::empty()
    } else {
        let prev = payloads(lines.drop_last());
        match payload_of(lines.last()) {
            Some(p) => prev.push(p),
            None => prev,
        }
    }
}

impl SseLineBuffer {
    /// An empty buffer.
    pub fn new() -> (r: Self)
        ensures
            r.pending@ == Seq::<char>::empty(),
    {
        SseLineBuffer { pending: String::new() }
    }

    /// Takes in a chunk of text and returns the payloads of the lines it
    /// completes; the text after the last newline stays pending.
    pub fn feed(&mut self, chunk: &str) -> (r: Vec<String>)
        ensures
            string_views(r@) == payloads(split_lines(old(self).pending@ + chunk@).0),
            final(self).pending@ == split_lines(old(self).pending@ + chunk@).1,
    {
        let mut all = chars_of(self.pending.as_str());
        let c = chars_of(chunk);
        let mut k: usize = 0;
        while k < c.len()
            invariant
                k <= c.len(),
                all@ == old(self).pending@ + c@.take(k as int),
            decreases c.len() - k,
        {
            all.push(c[k]);
            assert(old(self).pending@ + c@.take(k as int + 1) =~= (old(self).pending@ + c@.take(k as int)).push(c@[k as int]));
            k += 1;
        }
        assert(c@.take(c.len() as int) =~= c@);
        let ghost text = all@;
        let mut out: Vec<String> = Vec::new();
        let mut cur: Vec<char> = Vec::new();
        let mut i: usize = 0;
        assert(text.take(0) =~= Seq::<char>::empty());
        while i < all.len()
            invariant
                i <= all.len(),
                all@ == text,
                string_views(out@) == payloads(split_lines(text.take(i as int)).0),
                cur@ == split_lines(text.take(i as int)).1,
            decreases all.len() - i,
        {
            assert(text.take(i as int + 1).drop_last() =~= text.take(i as int));
            let ch = all[i];
            if ch == '\n' {
                let line = trim_chars(&cur);
                let ghost lines_before = split_lines(text.take(i as int)).0;
                assert(split_lines(text.take(i as int + 1)).0 == lines_before.push(cur@));
                assert(split_lines(text.take(i as int + 1)).0.drop_last() =~= lines_before);
                if line.len() >= 6 && line[0] == 'd' && line[1] == 'a' && line[2] == 't' && line[3] == 'a'
                    && line[4] == ':' && line[5] == ' ' {
                    let mut rest: Vec<char> = Vec::new();
                    let mut j: usize = 6;
                    while j < line.len()
                        invariant
                            6 <= j <= line.len(),
                            rest@ == line@.subrange(6, j as int),
                        decreases line.len() - j,
                    {
                        rest.push(line[j]);
                        assert(line@.subrange(6, j as int + 1) =~= line@.subrange(6, j as int).push(line@[j as int]));
                        j += 1;
                    }
                    assert(rest@ =~= line@.skip(6));
                    proof {
                        reveal_strlit("data: ");
                        assert(line@.subrange(0, 6) =~= "data: "@);
                    }
                    let done = rest.len() == 6 && rest[0] == '[' && rest[1] == 'D' && rest[2] == 'O' && rest[3] == 'N'
                        && rest[4] == 'E' && rest[5] == ']';
                    proof {
                        reveal_strlit("[DONE]");
                        if done {
                            assert(rest@ =~= "[DONE]"@);
                        } else if rest@ == "[DONE]"@ {
                            assert(rest@.len() == 6);
                        }
                    }
                    if !done {
                        let ghost before = out@;
                        let p = string_from_chars(&rest);
                        out.push(p);
                        assert(string_views(out@) =~= string_views(before).push(p@));
                    }
                } else {
                    proof {
                        reveal_strlit("data: ");
                        if seq_starts_with(line@, "data: "@) {
                            assert(line@.subrange(0, 6) == "data: "@);
                            assert(line@[0] == line@.subrange(0, 6)[0]);
                            assert(line@[1] == line@.subrange(0, 6)[1]);
                            assert(line@[2] == line@.subrange(0, 6)[2]);
                            assert(line@[3] == line@.subrange(0, 6)[3]);
                            assert(line@[4] == line@.subrange(0, 6)[4]);
                            assert(line@[5] == line@.subrange(0, 6)[5]);
                        }
                    }
                }
                cur = Vec::new();
            } else {
                cur.push(ch);
            }
            i += 1;
        }
        assert(text.take(text.len() as int) =~= text);
        self.pending = string_from_chars(&cur);
        out
    }
}

/// What follows the last newline holds no newline.
proof fn lemma_rest_has_no_newline(s: Seq<char>)
    ensures
        forall|i: int| 0 <= i < split_lines(s).1.len() ==> split_lines(s).1[i] != '\n',
    decreases s.len(),
{
    if s.len() > 0 {
        lemma_rest_has_no_newline(s.drop_last());
        let prev = split_lines(s.drop_last());
        if s.last() != '\n' {
            assert forall|i: int| 0 <= i < split_lines(s).1.len() implies split_lines(s).1[i] != '\n' by {
                if i < prev.1.len() {
                    assert(split_lines(s).1[i] == prev.1[i]);
                }
            }
        }
    }
}

/// A text without newlines is all pending.
proof fn lemma_no_newline_pending(s: Seq<char>)
    requires
        forall|i: int| 0 <= i < s.len() ==> s[i] != '\n',
    ensures
        split_lines(s) == (Seq::<Seq<char>>::empty(), s),
    decreases s.len(),
{
    if s.len() > 0 {
        lemma_no_newline_pending(s.drop_last());
        assert(s.drop_last().push(s.last()) =~= s);
    }
}

/// Splitting a text in two and reading the halves one after the other, the
/// second after what the first left pending, gives the same lines and the
/// same remainder.
proof fn lemma_split_concat(x: Seq<char>, y: Seq<char>)
    ensures
        ({
            let first = split_lines(x);
            let second = split_lines(first.1 + y);
            split_lines(x + y) == (first.0 + second.0, second.1)
        }),
    decreases y.len(),
{
    let first = split_lines(x);
    if y.len() == 0 {
        assert(x + y =~= x);
        lemma_rest_has_no_newline(x);
        lemma_no_newline_pending(first.1);
        assert(first.1 + y =~= first.1);
        assert(first.0 + Seq::<Seq<char>>::empty() =~= first.0);
    } else {
        let y0 = y.drop_last();
        lemma_split_concat(x, y0);
        assert((x + y).drop_last() =~= x + y0);
        assert((first.1 + y).drop_last() =~= first.1 + y0);
        let second0 = split_lines(first.1 + y0);
        if y.last() == '\n' {
            assert((first.0 + second0.0).push(second0.1) =~= first.0 + second0.0.push(second0.1));
        }
    }
}

/// The payloads of two runs of lines are those of each run, in order.
proof fn lemma_payloads_concat(a: Seq<Seq<char>>, b: Seq<Seq<char>>)
    ensures
        payloads(a + b) == payloads(a) + payloads(b),
    decreases b.len(),
{
    if b.len() == 0 {
        assert(a + b =~= a);
        assert(payloads(a) + Seq::<Seq<char>>::empty() =~= payloads(a));
    } else {
        lemma_payloads_concat(a, b.drop_last());
        assert((a + b).drop_last() =~= a + b.drop_last());
        match payload_of(b.last()) {
            Some(p) => {
                assert((payloads(a) + payloads(b.drop_last())).push(p) =~= payloads(a) + payloads(b.drop_last()).push(p));
            },
            None => {},
        }
    }
}

/// Where the stream was cut into chunks does not matter: feeding two
/// chunks one after the other yields the payloads, and leaves pending the
/// text, that feeding them joined would.
pub proof fn lemma_chunk_boundaries_do_not_matter(pending: Seq<char>, a: Seq<char>, b: Seq<char>)
    ensures
        ({
            let first = split_lines(pending + a);
            let second = split_lines(first.1 + b);
            let whole = split_lines(pending + a + b);
            &&& payloads(first.0) + payloads(second.0) == payloads(whole.0)
            &&& second.1 == whole.1
        }),
{
    lemma_split_concat(pending + a, b);
    let first = split_lines(pending + a);
    let second = split_lines(first.1 + b);
    lemma_payloads_concat(first.0, second.0);
}

} // verus!
