//! Markdown documents of the knowledge corpus: a `---`-delimited front
//! matter of `key: value` lines, a body, its summary line and its chunks.

use vstd::prelude::*;
use sha2::Digest;
use crate::text::{
    chars_of, err_msg, is_ws, lowercase_chars, lowercase_of, str_eq, string_from_chars, trim_chars, trim_seq,
    trim_start_chars, trim_start_seq, utf8_len, utf8_len_capped, chars_eq, push_char,
};
use vstd::string::StringSliceAdditionalSpecFns;
use vstd::utf8::encode_utf8;

verus! {

/// The longest a chunk grows, in bytes, before a new one starts.
pub const MAX_CHUNK_LEN: usize = 900;

// ---------------------------------------------------------------------------
// Lines
// ---------------------------------------------------------------------------

/// The position of the first line feed in `s` at or after `i`, or -1.
pub open spec fn newline_from(s: Seq<char>, i: int) -> int
    decreases s.len() - i,
{
    if i < 0 || i >= s.len() {
        -1
    } else if s[i] == '\n' {
        i
    } else {
        newline_from(s, i + 1)
    }
}

/// The first line feed at or after `i` lies at or after `i`, inside `s`.
pub proof fn lemma_newline_from_bounds(s: Seq<char>, i: int)
    ensures
        newline_from(s, i) == -1 || (i <= newline_from(s, i) < s.len() && s[newline_from(s, i)] == '\n'),
    decreases s.len() - i,
{
    if 0 <= i < s.len() && s[i] != '\n' {
        lemma_newline_from_bounds(s, i + 1);
    }
}

/// A line without the carriage return that ended it.
pub open spec fn strip_cr(l: Seq<char>) -> Seq<char> {
    if l.len() > 0 && l.last() == '\r' { l.drop_last() } else { l }
}

/// The lines of `s` from position `start` on, as `str::lines` splits them:
/// at each line feed, dropping a carriage return before it; a final line
/// feed ends the last line and starts none.
pub open spec fn lines_from(s: Seq<char>, start: int) -> Seq<Seq<char>>
    decreases s.len() - start,
{
    if start < 0 || start >= s.len() {
        Seq::empty()
    } else {
        let e = newline_from(s, start);
        proof { lemma_newline_from_bounds(s, start); }
        if e < 0 {
            seq![s.subrange(start, s.len() as int)]
        } else {
            seq![strip_cr(s.subrange(start, e))] + lines_from(s, e + 1)
        }
    }
}

/// The lines of `s`.
pub open spec fn lines_of(s: Seq<char>) -> Seq<Seq<char>> {
    lines_from(s, 0)
}

/// The character views of a list of lines.
pub open spec fn line_views(ls: Seq<Vec<char>>) -> Seq<Seq<char>> {
    ls.map_values(|l: Vec<char>| l@)
}

fn strip_cr_chars(l: Vec<char>) -> (r: Vec<char>)
    ensures
        r@ == strip_cr(l@),
{
    let mut l = l;
    if l.len() > 0 && l[l.len() - 1] == '\r' {
        l.pop();
    }
    l
}

/// Splits text into lines as `str::lines` does.
pub fn split_lines(s: &Vec<char>) -> (res: Vec<Vec<char>>)
    ensures
        line_views(res@) == lines_of(s@),
{
    let mut out: Vec<Vec<char>> = Vec::new();
    let mut current: Vec<char> = Vec::new();
    let mut start: usize = 0;
    let mut i: usize = 0;
    assert(line_views(out@) + lines_from(s@, 0) =~= lines_of(s@));
    while i < s.len()
        invariant
            start <= i <= s.len(),
            current@ == s@.subrange(start as int, i as int),
            newline_from(s@, start as int) == newline_from(s@, i as int) || i == start,
            forall|k: int| start <= k < i ==> s@[k] != '\n',
            line_views(out@) + lines_from(s@, start as int) == lines_of(s@),
        decreases s.len() - i,
    {
        if s[i] == '\n' {
            proof {
                lemma_newline_from_bounds(s@, start as int);
                assert(newline_from(s@, start as int) == i) by {
                    lemma_newline_first(s@, start as int, i as int);
                }
            }
            let line = strip_cr_chars(current);
            let ghost before = out@;
            out.push(line);
            assert(line_views(out@) =~= line_views(before).push(strip_cr(s@.subrange(start as int, i as int))));
            assert(line_views(out@) + lines_from(s@, i + 1) =~= line_views(before) + lines_from(s@, start as int));
            current = Vec::new();
            start = i + 1;
            i += 1;
        } else {
            current.push(s[i]);
            assert(current@ =~= s@.subrange(start as int, i + 1));
            i += 1;
        }
    }
    if start < s.len() {
        proof {
            lemma_newline_none(s@, start as int);
        }
        let ghost before = out@;
        out.push(current);
        assert(line_views(out@) =~= line_views(before) + lines_from(s@, start as int));
    } else {
        assert(line_views(out@) =~= line_views(out@) + lines_from(s@, start as int));
    }
    out
}

proof fn lemma_newline_first(s: Seq<char>, start: int, i: int)
    requires
        0 <= start <= i < s.len(),
        s[i] == '\n',
        forall|k: int| start <= k < i ==> s[k] != '\n',
    ensures
        newline_from(s, start) == i,
    decreases i - start,
{
    if start < i {
        lemma_newline_first(s, start + 1, i);
    }
}

proof fn lemma_newline_none(s: Seq<char>, start: int)
    requires
        0 <= start <= s.len(),
        forall|k: int| start <= k < s.len() ==> s[k] != '\n',
    ensures
        newline_from(s, start) == -1,
    decreases s.len() - start,
{
    if start < s.len() {
        lemma_newline_none(s, start + 1);
    }
}

/// Lines joined by line feeds.
pub open spec fn join_lines(ls: Seq<Seq<char>>) -> Seq<char>
    decreases ls.len(),
{
    if ls.len() == 0 {
        Seq::empty()
    } else if ls.len() == 1 {
        ls[0]
    } else {
        join_lines(ls.drop_last()) + seq!['\n'] + ls.last()
    }
}

fn join_line_chars(ls: &Vec<Vec<char>>) -> (r: Vec<char>)
    ensures
        r@ == join_lines(line_views(ls@)),
{
    let mut out: Vec<char> = Vec::new();
    let mut i: usize = 0;
    while i < ls.len()
        invariant
            i <= ls.len(),
            out@ == join_lines(line_views(ls@).take(i as int)),
        decreases ls.len() - i,
    {
        let ghost prev = line_views(ls@).take(i as int);
        assert(line_views(ls@).take(i as int + 1).drop_last() =~= prev);
        if i > 0 {
            out.push('\n');
        }
        let mut k: usize = 0;
        let ghost base = out@;
        let cur = &ls[i];
        while k < cur.len()
            invariant
                k <= cur.len(),
                cur@ == ls[i as int]@,
                out@ == base + ls[i as int]@.take(k as int),
            decreases cur.len() - k,
        {
            out.push(cur[k]);
            assert(base + ls[i as int]@.take(k as int + 1) =~= (base + ls[i as int]@.take(k as int)).push(ls[i as int]@[k as int]));
            k += 1;
        }
        assert(ls[i as int]@.take(ls[i as int]@.len() as int) =~= ls[i as int]@);
        proof {
            let next = line_views(ls@).take(i as int + 1);
            if i == 0 {
                assert(next.len() == 1);
                assert(out@ =~= next[0]);
            } else {
                assert(out@ =~= join_lines(prev) + seq!['\n'] + next.last());
            }
        }
        i += 1;
    }
    assert(line_views(ls@).take(ls.len() as int) =~= line_views(ls@));
    out
}

// ---------------------------------------------------------------------------
// Front matter
// ---------------------------------------------------------------------------

/// The position of the first `:` in a line, or -1.
pub open spec fn colon_from(l: Seq<char>, i: int) -> int
    decreases l.len() - i,
{
    if i < 0 || i >= l.len() {
        -1
    } else if l[i] == ':' {
        i
    } else {
        colon_from(l, i + 1)
    }
}

/// Reading front matter: whether it is still open, the `key: value` pairs
/// so far (keys and values trimmed), and the body lines so far.
pub open spec fn fm_step(st: (bool, Seq<(Seq<char>, Seq<char>)>, Seq<Seq<char>>), line: Seq<char>) -> (bool, Seq<(Seq<char>, Seq<char>)>, Seq<Seq<char>>) {
    if st.0 {
        if trim_seq(line) == "---"@ {
            (false, st.1, st.2)
        } else if colon_from(line, 0) >= 0 {
            let c = colon_from(line, 0);
            (true, st.1.push((trim_seq(line.take(c)), trim_seq(line.skip(c + 1)))), st.2)
        } else {
            st
        }
    } else {
        (false, st.1, st.2.push(line))
    }
}

/// The reading state after the first `n` lines.
pub open spec fn fm_fold(ls: Seq<Seq<char>>, n: nat) -> (bool, Seq<(Seq<char>, Seq<char>)>, Seq<Seq<char>>)
    decreases n,
{
    if n == 0 || n > ls.len() {
        (true, Seq::empty(), Seq::empty())
    } else {
        fm_step(fm_fold(ls, (n - 1) as nat), ls[n - 1])
    }
}

/// A document split into its front matter pairs and its trimmed body: the
/// first line, trimmed, must be `---`, and a later `---` line must close the
/// front matter.
pub open spec fn split_frontmatter_spec(raw: Seq<char>) -> Result<(Seq<(Seq<char>, Seq<char>)>, Seq<char>), Seq<char>> {
    let ls = lines_of(raw);
    let first = if ls.len() > 0 { trim_seq(ls[0]) } else { Seq::empty() };
    if first != "---"@ {
        Err("Documento sin frontmatter YAML-like inicial"@)
    } else {
        let st = fm_fold(ls.skip(1), (ls.len() - 1) as nat);
        if st.0 {
            Err("Frontmatter no cerrado correctamente"@)
        } else {
            Ok((st.1, trim_seq(join_lines(st.2))))
        }
    }
}

/// The value of the last pair with key `key`.
pub open spec fn fm_get(pairs: Seq<(Seq<char>, Seq<char>)>, key: Seq<char>) -> Option<Seq<char>>
    decreases pairs.len(),
{
    if pairs.len() == 0 {
        None
    } else if pairs.last().0 == key {
        Some(pairs.last().1)
    } else {
        fm_get(pairs.drop_last(), key)
    }
}

/// Front matter pairs as plain values.
pub open spec fn pair_views(ps: Seq<(String, String)>) -> Seq<(Seq<char>, Seq<char>)> {
    ps.map_values(|p: (String, String)| (p.0@, p.1@))
}

fn find_colon(l: &Vec<char>) -> (r: Option<usize>)
    ensures
        match r {
            Some(c) => colon_from(l@, 0) == c as int && c < l.len(),
            None => colon_from(l@, 0) == -1,
        },
{
    let mut i: usize = 0;
    while i < l.len()
        invariant
            i <= l.len(),
            colon_from(l@, 0) == colon_from(l@, i as int),
        decreases l.len() - i,
    {
        if l[i] == ':' {
            return Some(i);
        }
        i += 1;
    }
    None
}

fn sub_chars(l: &Vec<char>, from: usize, to: usize) -> (r: Vec<char>)
    requires
        from <= to <= l.len(),
    ensures
        r@ == l@.subrange(from as int, to as int),
{
    let mut out: Vec<char> = Vec::new();
    let mut k: usize = from;
    while k < to
        invariant
            from <= k <= to,
            to <= l.len(),
            out@ == l@.subrange(from as int, k as int),
        decreases to - k,
    {
        out.push(l[k]);
        assert(l@.subrange(from as int, k + 1) =~= l@.subrange(from as int, k as int).push(l@[k as int]));
        k += 1;
    }
    out
}

fn copy_chars(l: &Vec<char>) -> (r: Vec<char>)
    ensures
        r@ == l@,
{
    let r = sub_chars(l, 0, l.len());
    assert(l@.subrange(0, l@.len() as int) =~= l@);
    r
}

/// Splits a document into its front matter pairs, in order, and its trimmed
/// body.
pub fn split_frontmatter(raw: &str) -> (r: Result<(Vec<(String, String)>, String), String>)
    ensures
        match split_frontmatter_spec(raw@) {
            Ok((pairs, body)) => r matches Ok(v) && pair_views(v.0@) == pairs && v.1@ == body,
            Err(e) => err_msg(r, e),
        },
{
    let cs = chars_of(raw);
    let lines = split_lines(&cs);
    proof { reveal_strlit("---"); }
    let ghost ls = line_views(lines@);
    let first_ok = if lines.len() > 0 { chars_eq(&trim_chars(&lines[0]), "---") } else { chars_eq(&Vec::new(), "---") };
    if !first_ok {
        return Err(String::from_str("Documento sin frontmatter YAML-like inicial"));
    }
    let ghost rest = ls.skip(1);
    let mut pairs: Vec<(String, String)> = Vec::new();
    let mut body: Vec<Vec<char>> = Vec::new();
    let mut in_frontmatter = true;
    let mut i: usize = 1;
    while i < lines.len()
        invariant
            1 <= i <= lines.len(),
            ls == line_views(lines@),
            rest == ls.skip(1),
            fm_fold(rest, (i - 1) as nat) == (in_frontmatter, pair_views(pairs@), line_views(body@)),
        decreases lines.len() - i,
    {
        let line = &lines[i];
        assert(rest[i - 1] == line@);
        if in_frontmatter {
            if chars_eq(&trim_chars(line), "---") {
                in_frontmatter = false;
            } else {
                match find_colon(line) {
                    Some(c) => {
                        let k = string_from_chars(&trim_chars(&sub_chars(line, 0, c)));
                        let v = string_from_chars(&trim_chars(&sub_chars(line, c + 1, line.len())));
                        proof {
                            assert(line@.take(c as int) =~= line@.subrange(0, c as int));
                            assert(line@.skip(c + 1) =~= line@.subrange(c + 1, line@.len() as int));
                        }
                        let ghost before = pairs@;
                        pairs.push((k, v));
                        assert(pair_views(pairs@) =~= pair_views(before).push((k@, v@)));
                    },
                    None => {},
                }
            }
        } else {
            let ghost before = body@;
            body.push(copy_chars(line));
            assert(line_views(body@) =~= line_views(before).push(line@));
        }
        i += 1;
    }
    assert(rest.len() == ls.len() - 1);
    if in_frontmatter {
        return Err(String::from_str("Frontmatter no cerrado correctamente"));
    }
    let joined = join_line_chars(&body);
    let trimmed = trim_chars(&joined);
    Ok((pairs, string_from_chars(&trimmed)))
}

/// The value of the last front matter pair with key `key`.
pub fn frontmatter_get(pairs: &Vec<(String, String)>, key: &str) -> (r: Option<String>)
    ensures
        match fm_get(pair_views(pairs@), key@) {
            Some(v) => r matches Some(s) && s@ == v,
            None => r is None,
        },
{
    let mut i: usize = pairs.len();
    assert(pair_views(pairs@).take(pairs.len() as int) =~= pair_views(pairs@));
    while i > 0
        invariant
            i <= pairs.len(),
            fm_get(pair_views(pairs@), key@) == fm_get(pair_views(pairs@).take(i as int), key@),
        decreases i,
    {
        assert(pair_views(pairs@).take(i as int).drop_last() =~= pair_views(pairs@).take(i - 1));
        if str_eq(pairs[i - 1].0.as_str(), key) {
            return Some(pairs[i - 1].1.clone());
        }
        i -= 1;
    }
    None
}


// ---------------------------------------------------------------------------
// Chunks
// ---------------------------------------------------------------------------

/// `s` without its leading `c` characters.
pub open spec fn strip_leading_char(s: Seq<char>, c: char) -> Seq<char>
    decreases s.len(),
{
    if s.len() > 0 && s[0] == c { strip_leading_char(s.drop_first(), c) } else { s }
}

/// A heading line: its trimmed text starts with `#`.
pub open spec fn is_heading(t: Seq<char>) -> bool {
    t.len() > 0 && t[0] == '#'
}

/// The chunks so far (text and heading anchor), the current anchor, and the
/// text gathered for the next chunk.
pub type ChunkState = (Seq<(Seq<char>, Seq<char>)>, Seq<char>, Seq<char>);

/// The chunks with the gathered text closed as one, when it is not blank.
pub open spec fn flush(chunks: Seq<(Seq<char>, Seq<char>)>, anchor: Seq<char>, current: Seq<char>) -> Seq<(Seq<char>, Seq<char>)> {
    if trim_seq(current).len() > 0 { chunks.push((trim_seq(current), anchor)) } else { chunks }
}

/// Reading one body line: a heading closes the gathered text and becomes the
/// anchor; another line closes the gathered text first when both would pass
/// the chunk limit, then joins it trimmed, unless it is blank.
pub open spec fn chunk_step(st: ChunkState, line: Seq<char>) -> ChunkState {
    let t = trim_seq(line);
    if is_heading(t) {
        let cur = if trim_seq(st.2).len() > 0 { Seq::empty() } else { st.2 };
        (flush(st.0, st.1, st.2), trim_seq(strip_leading_char(t, '#')), cur)
    } else {
        let full = utf8_len(st.2) + utf8_len(t) + 1 > MAX_CHUNK_LEN && trim_seq(st.2).len() > 0;
        let chunks = if full { st.0.push((trim_seq(st.2), st.1)) } else { st.0 };
        let cur = if full { Seq::empty() } else { st.2 };
        let next = if t.len() > 0 { if cur.len() > 0 { cur + seq!['\n'] + t } else { t } } else { cur };
        (chunks, st.1, next)
    }
}

/// The chunking state after the first `n` lines.
pub open spec fn chunk_fold(ls: Seq<Seq<char>>, n: nat) -> ChunkState
    decreases n,
{
    if n == 0 || n > ls.len() {
        (Seq::empty(), "overview"@, Seq::empty())
    } else {
        chunk_step(chunk_fold(ls, (n - 1) as nat), ls[n - 1])
    }
}

/// The chunks of a body, in order: text and heading anchor.
pub open spec fn chunks_spec(body: Seq<char>) -> Seq<(Seq<char>, Seq<char>)> {
    let ls = lines_of(body);
    let st = chunk_fold(ls, ls.len());
    flush(st.0, st.1, st.2)
}

/// A piece of a document that is indexed on its own.
#[derive(Debug, Clone)]
pub struct IngestedChunk {
    pub chunk_index: usize,
    pub chunk_text: String,
    pub title_anchor: String,
    pub entity_key: Option<String>,
}

/// A chunk as its text and anchor.
pub open spec fn chunk_view(c: IngestedChunk) -> (Seq<char>, Seq<char>) {
    (c.chunk_text@, c.title_anchor@)
}

/// An optional text as plain characters.
pub open spec fn opt_view(o: Option<String>) -> Option<Seq<char>> {
    match o {
        Some(s) => Some(s@),
        None => None,
    }
}

/// The chunks are numbered from zero and carry the document's entity key.
pub open spec fn chunks_well_formed(cs: Seq<IngestedChunk>, entity_key: Option<Seq<char>>) -> bool {
    forall|k: int| 0 <= k < cs.len() ==> (#[trigger] cs[k]).chunk_index == k
        && match (cs[k].entity_key, entity_key) {
            (Some(a), Some(b)) => a@ == b,
            (None, None) => true,
            _ => false,
        }
}

fn copy_opt(o: &Option<String>) -> (r: Option<String>)
    ensures
        r == *o,
{
    match o {
        Some(s) => Some(s.clone()),
        None => None,
    }
}

fn strip_hashes(t: &Vec<char>) -> (r: Vec<char>)
    ensures
        r@ == strip_leading_char(t@, '#'),
{
    let mut i: usize = 0;
    assert(t@.skip(0) =~= t@);
    while i < t.len() && t[i] == '#'
        invariant
            i <= t.len(),
            strip_leading_char(t@, '#') == strip_leading_char(t@.skip(i as int), '#'),
        decreases t.len() - i,
    {
        assert(t@.skip(i as int).drop_first() =~= t@.skip(i + 1));
        i += 1;
    }
    let r = sub_chars(t, i, t.len());
    assert(r@ =~= t@.skip(i as int));
    r
}

fn push_chunk(chunks: &mut Vec<IngestedChunk>, current: &Vec<char>, anchor: &Vec<char>, entity_key: &Option<String>)
    requires
        chunks_well_formed(old(chunks)@, opt_view(*entity_key)),
        old(chunks)@.len() < usize::MAX,
    ensures
        final(chunks)@.len() == old(chunks)@.len() + 1,
        final(chunks)@.drop_last() == old(chunks)@,
        chunk_view(final(chunks)@.last()) == (trim_seq(current@), anchor@),
        chunks_well_formed(final(chunks)@, opt_view(*entity_key)),
{
    let c = IngestedChunk {
        chunk_index: chunks.len(),
        chunk_text: string_from_chars(&trim_chars(current)),
        title_anchor: string_from_chars(anchor),
        entity_key: copy_opt(entity_key),
    };
    let ghost before = chunks@;
    chunks.push(c);
    assert(chunks@.drop_last() =~= before);
}

/// Splits a body into chunks at headings and at the chunk limit.
pub fn chunk_markdown(body: &str, entity_key: Option<String>) -> (r: Vec<IngestedChunk>)
    ensures
        r@.map_values(|c: IngestedChunk| chunk_view(c)) == chunks_spec(body@),
        chunks_well_formed(r@, opt_view(entity_key)),
{
    let cs = chars_of(body);
    let lines = split_lines(&cs);
    let ghost ls = line_views(lines@);
    let ghost ek = opt_view(entity_key);
    let mut chunks: Vec<IngestedChunk> = Vec::new();
    let mut anchor: Vec<char> = chars_of("overview");
    let mut current: Vec<char> = Vec::new();
    let mut i: usize = 0;
    while i < lines.len()
        invariant
            i <= lines.len(),
            ls == line_views(lines@),
            ls == lines_of(body@),
            ek == opt_view(entity_key),
            chunk_fold(ls, i as nat) == (chunks@.map_values(|c: IngestedChunk| chunk_view(c)), anchor@, current@),
            chunks_well_formed(chunks@, ek),
            chunks@.len() + (if current@.len() > 0 { 1int } else { 0int }) <= i,
        decreases lines.len() - i,
    {
        let ghost st = chunk_fold(ls, i as nat);
        assert(ls[i as int] == lines[i as int]@);
        let t = trim_chars(&lines[i]);
        if t.len() > 0 && t[0] == '#' {
            if trim_chars(&current).len() > 0 {
                let ghost before = chunks@;
                push_chunk(&mut chunks, &current, &anchor, &entity_key);
                assert(chunks@.map_values(|c: IngestedChunk| chunk_view(c)) =~= before.map_values(|c: IngestedChunk| chunk_view(c)).push((trim_seq(current@), anchor@)));
                current = Vec::new();
            }
            anchor = trim_chars(&strip_hashes(&t));
        } else {
            let cur_len = utf8_len_capped(&current, 901);
            let t_len = utf8_len_capped(&t, 901);
            if cur_len + t_len + 1 > MAX_CHUNK_LEN && trim_chars(&current).len() > 0 {
                let ghost before = chunks@;
                push_chunk(&mut chunks, &current, &anchor, &entity_key);
                assert(chunks@.map_values(|c: IngestedChunk| chunk_view(c)) =~= before.map_values(|c: IngestedChunk| chunk_view(c)).push((trim_seq(current@), anchor@)));
                current = Vec::new();
            }
            if t.len() > 0 {
                if current.len() > 0 {
                    current.push('\n');
                }
                let mut k: usize = 0;
                let ghost base = current@;
                while k < t.len()
                    invariant
                        k <= t.len(),
                        current@ == base + t@.take(k as int),
                    decreases t.len() - k,
                {
                    current.push(t[k]);
                    assert(base + t@.take(k as int + 1) =~= (base + t@.take(k as int)).push(t@[k as int]));
                    k += 1;
                }
                assert(t@.take(t.len() as int) =~= t@);
                proof {
                    if base.len() == 0 {
                        assert(current@ =~= t@);
                    }
                }
            }
        }
        assert(chunk_fold(ls, (i + 1) as nat) == chunk_step(st, ls[i as int]));
        i += 1;
    }
    if trim_chars(&current).len() > 0 {
        let ghost before = chunks@;
        push_chunk(&mut chunks, &current, &anchor, &entity_key);
        assert(chunks@.map_values(|c: IngestedChunk| chunk_view(c)) =~= before.map_values(|c: IngestedChunk| chunk_view(c)).push((trim_seq(current@), anchor@)));
    }
    chunks
}


// ---------------------------------------------------------------------------
// Documents
// ---------------------------------------------------------------------------

/// The front matter of a corpus document.
#[derive(Debug, Clone)]
pub struct DocumentFrontmatter {
    pub title: String,
    pub slug: String,
    pub specialty: String,
    pub doc_type: String,
    pub entity_key: Option<String>,
    pub source_kind: String,
    pub status: String,
}

/// A parsed corpus document.
#[derive(Debug, Clone)]
pub struct IngestedDocument {
    pub frontmatter: DocumentFrontmatter,
    pub source_path: String,
    pub body_markdown: String,
    pub summary: String,
    pub content_hash: String,
    pub chunks: Vec<IngestedChunk>,
}

/// A file of the corpus and the specialty its folder names.
#[derive(Debug, Clone)]
pub struct IngestSource {
    pub source_kind: String,
    pub source_path: String,
    pub specialty: String,
}

/// What an ingestion run found and stored.
#[derive(Debug, Clone)]
pub struct IngestReport {
    pub corpus_root: String,
    pub files_discovered: usize,
    pub documents_ingested: usize,
    pub chunks_ingested: usize,
}

/// The record of a corpus file: a markdown source at its path, whose
/// specialty is the name of the folder holding it, `unknown` where it has
/// none.
pub fn ingest_source(source_path: &str, folder: Option<String>) -> (r: IngestSource)
    ensures
        r.source_kind@ == "markdown"@,
        r.source_path@ == source_path@,
        r.specialty@ == (match folder { Some(f) => f@, None => "unknown"@ }),
{
    IngestSource {
        source_kind: String::from_str("markdown"),
        source_path: String::from_str(source_path),
        specialty: match folder {
            Some(f) => f,
            None => String::from_str("unknown"),
        },
    }
}

impl IngestReport {
    /// A run over `corpus_root` that found `files_discovered` files and has
    /// stored nothing yet.
    pub fn start(corpus_root: &str, files_discovered: usize) -> (r: IngestReport)
        ensures
            r.corpus_root@ == corpus_root@,
            r.files_discovered == files_discovered,
            r.documents_ingested == 0,
            r.chunks_ingested == 0,
    {
        IngestReport { corpus_root: String::from_str(corpus_root), files_discovered, documents_ingested: 0, chunks_ingested: 0 }
    }

    /// Counts one stored document with its chunks.
    pub fn note_document(&mut self, chunks: usize)
        requires
            old(self).documents_ingested < usize::MAX,
            old(self).chunks_ingested + chunks <= usize::MAX,
        ensures
            final(self).corpus_root == old(self).corpus_root,
            final(self).files_discovered == old(self).files_discovered,
            final(self).documents_ingested == old(self).documents_ingested + 1,
            final(self).chunks_ingested == old(self).chunks_ingested + chunks,
    {
        self.documents_ingested = self.documents_ingested + 1;
        self.chunks_ingested = self.chunks_ingested + chunks;
    }
}

/// What `sha2::Sha256` gives for some bytes: their 32-byte digest.
pub uninterp spec fn sha256_digest(bytes: Seq<u8>) -> Seq<u8>;

/// `sha2::Sha256` over some bytes: a 32-byte digest that depends on the
/// bytes only.
#[verifier::external_body]
fn sha256_bytes(input: &[u8]) -> (r: Vec<u8>)
    ensures
        r@ == sha256_digest(input@),
        r@.len() == 32,
{
    let mut hasher = sha2::Sha256::new();
    hasher.update(input);
    hasher.finalize().to_vec()
}

/// The lowercase hexadecimal digit of a value below sixteen.
pub open spec fn hex_digit(v: int) -> char {
    if v < 10 { ('0' as int + v) as char } else { ('a' as int + (v - 10)) as char }
}

/// Bytes written as lowercase hex, two digits each, high digit first.
pub open spec fn hex_text(b: Seq<u8>) -> Seq<char>
    decreases b.len(),
{
    if b.len() == 0 {
        Seq::empty()
    } else {
        hex_text(b.drop_last()) + seq![hex_digit(b.last() as int / 16), hex_digit(b.last() as int % 16)]
    }
}

/// Hex text takes two lowercase hex digits per byte.
pub proof fn lemma_hex_text_shape(b: Seq<u8>)
    ensures
        hex_text(b).len() == 2 * b.len(),
        forall|i: int| 0 <= i < hex_text(b).len() ==> crate::function_calling::is_lower_hex_digit(#[trigger] hex_text(b)[i]),
    decreases b.len(),
{
    if b.len() > 0 {
        lemma_hex_text_shape(b.drop_last());
        let v = b.last() as int;
        assert(0 <= v / 16 < 16 && 0 <= v % 16 < 16);
        let prev = hex_text(b.drop_last());
        assert forall|i: int| 0 <= i < hex_text(b).len() implies crate::function_calling::is_lower_hex_digit(#[trigger] hex_text(b)[i]) by {
            if i < prev.len() {
                assert(hex_text(b)[i] == prev[i]);
            }
        }
    }
}

/// The content hash of a text: SHA-256 of its UTF-8 bytes, in lowercase hex.
pub open spec fn sha256_hex_of(text: Seq<char>) -> Seq<char> {
    hex_text(sha256_digest(encode_utf8(text)))
}

fn hex_char(v: u8) -> (c: char)
    requires
        v < 16,
    ensures
        c == hex_digit(v as int),
{
    if v < 10 { ((48u8 + v) as char) } else { ((87u8 + v) as char) }
}

/// Some bytes written as lowercase hex.
pub fn to_hex(bytes: &[u8]) -> (r: String)
    ensures
        r@ == hex_text(bytes@),
{
    let mut out = String::new();
    let mut i: usize = 0;
    while i < bytes.len()
        invariant
            i <= bytes.len(),
            out@ == hex_text(bytes@.take(i as int)),
        decreases bytes.len() - i,
    {
        let b = bytes[i];
        push_char(&mut out, hex_char(b / 16));
        push_char(&mut out, hex_char(b % 16));
        assert(bytes@.take(i as int + 1).drop_last() =~= bytes@.take(i as int));
        i += 1;
    }
    assert(bytes@.take(bytes.len() as int) =~= bytes@);
    out
}

/// The content hash of a text, as `sha256_hex_of` states it.
fn sha256_hex(input: &str) -> (r: String)
    ensures
        r@ == sha256_hex_of(input@),
{
    let b = input.as_bytes();
    let mut bytes: Vec<u8> = Vec::new();
    let mut i: usize = 0;
    while i < b.len()
        invariant
            i <= b.len(),
            b@ == input.spec_bytes(),
            bytes@ == b@.take(i as int),
        decreases b.len() - i,
    {
        bytes.push(b[i]);
        assert(b@.take(i as int + 1) =~= b@.take(i as int).push(b@[i as int]));
        i += 1;
    }
    assert(b@.take(b.len() as int) =~= b@);
    let digest = sha256_bytes(bytes.as_slice());
    to_hex(digest.as_slice())
}

/// The source kinds the corpus may hold.
pub fn supported_source_kinds() -> (r: &'static [&'static str])
    ensures
        r@.map_values(|s: &str| s@) == seq!["markdown"@, "json"@, "seeded_catalog"@],
{
    let r: &'static [&'static str] = &["markdown", "json", "seeded_catalog"];
    assert(r@.map_values(|s: &str| s@) =~= seq!["markdown"@, "json"@, "seeded_catalog"@]);
    r
}

/// The stored identifier for a specialty code: `sp_` and the code, trimmed
/// and lowercased.
pub fn specialty_id_from_code(code: &str) -> (r: String)
    ensures
        r@ == "sp_"@ + lowercase_of(trim_seq(code@)),
{
    let trimmed = string_from_chars(&trim_chars(&chars_of(code)));
    let lowered = crate::text::to_lowercase(trimmed.as_str());
    let mut out = String::from_str("sp_");
    out.append(lowered.as_str());
    out
}

/// A file is indexed when its first line, trimmed, is `---`.
pub open spec fn indexable_spec(content: Seq<char>) -> bool {
    lines_of(content).len() > 0 && trim_seq(lines_of(content)[0]) == "---"@
}

/// Whether a file's content opens with front matter.
pub fn is_indexable_markdown(content: &str) -> (r: bool)
    ensures
        r == indexable_spec(content@),
{
    let cs = chars_of(content);
    let lines = split_lines(&cs);
    if lines.len() == 0 {
        return false;
    }
    chars_eq(&trim_chars(&lines[0]), "---")
}

/// The first body line that is neither blank nor a heading, trimmed; empty
/// when there is none.
pub open spec fn summary_from(ls: Seq<Seq<char>>, i: int) -> Seq<char>
    decreases ls.len() - i,
{
    if i < 0 || i >= ls.len() {
        Seq::empty()
    } else if trim_seq(ls[i]).len() > 0 && !(trim_start_seq(ls[i]).len() > 0 && trim_start_seq(ls[i])[0] == '#') {
        trim_seq(ls[i])
    } else {
        summary_from(ls, i + 1)
    }
}

fn summary_line(body: &Vec<char>) -> (r: Vec<char>)
    ensures
        r@ == summary_from(lines_of(body@), 0),
{
    let lines = split_lines(body);
    let ghost ls = line_views(lines@);
    let mut i: usize = 0;
    while i < lines.len()
        invariant
            i <= lines.len(),
            ls == line_views(lines@),
            ls == lines_of(body@),
            summary_from(ls, 0) == summary_from(ls, i as int),
        decreases lines.len() - i,
    {
        assert(ls[i as int] == lines[i as int]@);
        let t = trim_chars(&lines[i]);
        let ts = trim_start_chars(&lines[i]);
        if t.len() > 0 && !(ts.len() > 0 && ts[0] == '#') {
            return t;
        }
        i += 1;
    }
    Vec::new()
}

/// The error for a front matter field that is missing.
pub open spec fn missing_message(field: Seq<char>, path: Seq<char>) -> Seq<char> {
    "Falta "@ + field + " en "@ + path
}

/// A parsed document as plain values: title, slug, specialty, document type,
/// entity key, source kind, status, body, summary.
pub type DocumentView = (Seq<char>, Seq<char>, Seq<char>, Seq<char>, Option<Seq<char>>, Seq<char>, Seq<char>, Seq<char>, Seq<char>);

/// A document parsed from its text: the title, slug, specialty and document
/// type must be set; an empty entity key counts as none; the source kind
/// defaults to `curated_markdown` and the status to `active`. Errors name
/// the document by `path`.
pub open spec fn document_spec(raw: Seq<char>, path: Seq<char>) -> Result<DocumentView, Seq<char>> {
    match split_frontmatter_spec(raw) {
        Err(e) => Err(e),
        Ok((pairs, body)) => {
            if fm_get(pairs, "title"@) is None {
                Err(missing_message("title"@, path))
            } else if fm_get(pairs, "slug"@) is None {
                Err(missing_message("slug"@, path))
            } else if fm_get(pairs, "specialty"@) is None {
                Err(missing_message("specialty"@, path))
            } else if fm_get(pairs, "doc_type"@) is None {
                Err(missing_message("doc_type"@, path))
            } else {
                let entity = match fm_get(pairs, "entity_key"@) {
                    Some(v) => if v.len() > 0 { Some(v) } else { None },
                    None => None,
                };
                let kind = match fm_get(pairs, "source_kind"@) { Some(v) => v, None => "curated_markdown"@ };
                let status = match fm_get(pairs, "status"@) { Some(v) => v, None => "active"@ };
                Ok((fm_get(pairs, "title"@)->0, fm_get(pairs, "slug"@)->0, fm_get(pairs, "specialty"@)->0,
                    fm_get(pairs, "doc_type"@)->0, entity, kind, status, body, summary_from(lines_of(body), 0)))
            }
        },
    }
}

/// A parsed document as plain values.
pub open spec fn document_view(d: IngestedDocument) -> DocumentView {
    (d.frontmatter.title@, d.frontmatter.slug@, d.frontmatter.specialty@, d.frontmatter.doc_type@,
        opt_view(d.frontmatter.entity_key), d.frontmatter.source_kind@, d.frontmatter.status@, d.body_markdown@, d.summary@)
}

fn missing(field: &str, path: &str) -> (r: String)
    ensures
        r@ == missing_message(field@, path@),
{
    let mut e = String::from_str("Falta ");
    e.append(field);
    e.append(" en ");
    e.append(path);
    e
}

/// Parses a corpus document from its text; `path` names it in errors and
/// `source_path` is recorded with it.
pub fn parse_markdown_text(raw: &str, path: &str, source_path: String) -> (r: Result<IngestedDocument, String>)
    ensures
        match document_spec(raw@, path@) {
            Ok(v) => r matches Ok(d) && document_view(d) == v && d.source_path == source_path
                && d.content_hash@ == sha256_hex_of(v.7)
                && d.chunks@.map_values(|c: IngestedChunk| chunk_view(c)) == chunks_spec(v.7)
                && chunks_well_formed(d.chunks@, v.4),
            Err(e) => err_msg(r, e),
        },
{
    let (pairs, body) = match split_frontmatter(raw) {
        Ok(v) => v,
        Err(e) => return Err(e),
    };
    let title = match frontmatter_get(&pairs, "title") {
        Some(v) => v,
        None => return Err(missing("title", path)),
    };
    let slug = match frontmatter_get(&pairs, "slug") {
        Some(v) => v,
        None => return Err(missing("slug", path)),
    };
    let specialty = match frontmatter_get(&pairs, "specialty") {
        Some(v) => v,
        None => return Err(missing("specialty", path)),
    };
    let doc_type = match frontmatter_get(&pairs, "doc_type") {
        Some(v) => v,
        None => return Err(missing("doc_type", path)),
    };
    let entity_key = match frontmatter_get(&pairs, "entity_key") {
        Some(v) => if v.as_str().is_empty() { None } else { Some(v) },
        None => None,
    };
    let source_kind = match frontmatter_get(&pairs, "source_kind") {
        Some(v) => v,
        None => String::from_str("curated_markdown"),
    };
    let status = match frontmatter_get(&pairs, "status") {
        Some(v) => v,
        None => String::from_str("active"),
    };
    let body_chars = chars_of(body.as_str());
    let summary = string_from_chars(&summary_line(&body_chars));
    let content_hash = sha256_hex(body.as_str());
    let chunks = chunk_markdown(body.as_str(), copy_opt(&entity_key));
    Ok(IngestedDocument {
        frontmatter: DocumentFrontmatter { title, slug, specialty, doc_type, entity_key, source_kind, status },
        source_path,
        body_markdown: body,
        summary,
        content_hash,
        chunks,
    })
}


// ---------------------------------------------------------------------------
// Laws
// ---------------------------------------------------------------------------

/// Every chunk of a body holds some text: blank stretches never become
/// chunks.
pub proof fn lemma_chunks_not_blank(body: Seq<char>)
    ensures
        forall|k: int| 0 <= k < chunks_spec(body).len() ==> (#[trigger] chunks_spec(body)[k]).0.len() > 0,
{
    let ls = lines_of(body);
    lemma_chunk_fold_not_blank(ls, ls.len());
    let st = chunk_fold(ls, ls.len());
    assert forall|k: int| 0 <= k < chunks_spec(body).len() implies (#[trigger] chunks_spec(body)[k]).0.len() > 0 by {
        if k < st.0.len() {
            assert(chunks_spec(body)[k] == st.0[k]);
        }
    }
}

proof fn lemma_chunk_fold_not_blank(ls: Seq<Seq<char>>, n: nat)
    ensures
        forall|k: int| 0 <= k < chunk_fold(ls, n).0.len() ==> (#[trigger] chunk_fold(ls, n).0[k]).0.len() > 0,
    decreases n,
{
    if n > 0 && n <= ls.len() {
        lemma_chunk_fold_not_blank(ls, (n - 1) as nat);
        let st = chunk_fold(ls, (n - 1) as nat);
        let next = chunk_fold(ls, n);
        assert forall|k: int| 0 <= k < next.0.len() implies (#[trigger] next.0[k]).0.len() > 0 by {
            if k < st.0.len() {
                assert(next.0[k] == st.0[k]);
            }
        }
    }
}


/// A solution the user confirmed, as it is filed: its title and the text
/// of its single chunk.
#[derive(Debug, Clone)]
pub struct ValidatedSolution {
    pub title: String,
    pub chunk_text: String,
}

/// Files a confirmed solution: the title names the problem, the chunk
/// holds the problem and its solution.
pub fn validated_solution(query_text: &str, solution_text: &str) -> (r: ValidatedSolution)
    ensures
        r.title@ == "Solución Validada: "@ + query_text@,
        r.chunk_text@ == "Problema: "@ + query_text@ + "\nSolución Validada: "@ + solution_text@,
{
    let mut title = String::from_str("Solución Validada: ");
    title.append(query_text);
    let mut chunk_text = String::from_str("Problema: ");
    chunk_text.append(query_text);
    chunk_text.append("\nSolución Validada: ");
    chunk_text.append(solution_text);
    ValidatedSolution { title, chunk_text }
}

} // verus!
