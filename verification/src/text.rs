//! Text chunking for graph building.
//!
//! Splits large texts into overlapping chunks suitable for knowledge graph
//! construction, and normalises raw document text.
use vstd::prelude::*;
use crate::strs::{
    chars_of, index_of, index_of_char, is_control, is_ctrl, is_whitespace, is_ws, join,
    lemma_index_of, lemma_trim, lemma_trim_idempotent, occurs_at, push_char, replace_all,
    replace_chars, replace_from, split_from, string_of, trim, trim_bounds, trim_end, trim_start,
};

verus! {

/// Scans `s` downwards from index `i` to `lo` for a blank line ("\n\n")
/// and gives the index just after it.
pub open spec fn para_scan(s: Seq<char>, lo: int, i: int) -> Option<int>
    decreases i - lo + 1,
{
    if i < lo {
        None
    } else if i + 1 < s.len() && s[i] == '\n' && s[i + 1] == '\n' {
        Some(i + 2)
    } else {
        para_scan(s, lo, i - 1)
    }
}

/// Scans `s` downwards from index `i` to `lo` for a sentence end (one of
/// `.`, `!`, `?` followed by a space or a newline) and gives the index just
/// after the character that follows it.
pub open spec fn sentence_scan(s: Seq<char>, lo: int, i: int) -> Option<int>
    decreases i - lo + 1,
{
    if i < lo {
        None
    } else if i + 1 < s.len() && (s[i] == '.' || s[i] == '!' || s[i] == '?') && (s[i + 1] == ' '
        || s[i + 1] == '\n') {
        Some(i + 2)
    } else {
        sentence_scan(s, lo, i - 1)
    }
}

/// `n - m`, or 0 when `m > n`.
pub open spec fn sat_sub(n: int, m: int) -> int {
    if n >= m {
        n - m
    } else {
        0
    }
}

/// The end of the last paragraph break within the last 100 characters of `s`.
pub open spec fn paragraph_boundary(s: Seq<char>) -> Option<int> {
    para_scan(s, sat_sub(s.len() as int, 100), s.len() - 1)
}

/// The end of the last sentence break within the last 50 characters of `s`.
pub open spec fn sentence_boundary(s: Seq<char>) -> Option<int> {
    sentence_scan(s, sat_sub(s.len() as int, 50), s.len() - 1)
}

pub proof fn lemma_para_scan_bounds(s: Seq<char>, lo: int, i: int)
    requires
        0 <= lo,
    ensures
        para_scan(s, lo, i) matches Some(k) ==> 2 <= k <= s.len() && k <= i + 2,
    decreases i - lo + 1,
{
    if i >= lo && !(i + 1 < s.len() && s[i] == '\n' && s[i + 1] == '\n') {
        lemma_para_scan_bounds(s, lo, i - 1);
    }
}

pub proof fn lemma_sentence_scan_bounds(s: Seq<char>, lo: int, i: int)
    requires
        0 <= lo,
    ensures
        sentence_scan(s, lo, i) matches Some(k) ==> 2 <= k <= s.len() && k <= i + 2,
    decreases i - lo + 1,
{
    if i >= lo && !(i + 1 < s.len() && (s[i] == '.' || s[i] == '!' || s[i] == '?') && (s[i + 1]
        == ' ' || s[i + 1] == '\n')) {
        lemma_sentence_scan_bounds(s, lo, i - 1);
    }
}

/// Find the last paragraph boundary (double newline) within the last 100
/// characters of `chars`; the result is the index just after it.
pub fn find_paragraph_boundary(chars: &[char]) -> (r: Option<usize>)
    ensures
        match r {
            Some(k) => paragraph_boundary(chars@) == Some(k as int),
            None => paragraph_boundary(chars@) is None,
        },
{
    let len = chars.len();
    let lo = if len >= 100 {
        len - 100
    } else {
        0
    };
    let mut i = len;
    while i > lo
        invariant
            lo <= i <= len,
            len == chars@.len(),
            lo == sat_sub(len as int, 100),
            paragraph_boundary(chars@) == para_scan(chars@, lo as int, i - 1),
        decreases i,
    {
        let j = i - 1;
        if j + 1 < len && chars[j] == '\n' && chars[j + 1] == '\n' {
            return Some(j + 2);
        }
        i = j;
    }
    None
}

/// Find the last sentence boundary (`.`, `!` or `?` followed by a space or a
/// newline) within the last 50 characters of `chars`; the result is the index
/// just after the character that follows the mark.
pub fn find_sentence_boundary(chars: &[char]) -> (r: Option<usize>)
    ensures
        match r {
            Some(k) => sentence_boundary(chars@) == Some(k as int),
            None => sentence_boundary(chars@) is None,
        },
{
    let len = chars.len();
    let lo = if len >= 50 {
        len - 50
    } else {
        0
    };
    let mut i = len;
    while i > lo
        invariant
            lo <= i <= len,
            len == chars@.len(),
            lo == sat_sub(len as int, 50),
            sentence_boundary(chars@) == sentence_scan(chars@, lo as int, i - 1),
        decreases i,
    {
        let j = i - 1;
        if j + 1 < len && (chars[j] == '.' || chars[j] == '!' || chars[j] == '?') && (chars[j + 1]
            == ' ' || chars[j + 1] == '\n') {
            return Some(j + 2);
        }
        i = j;
    }
    None
}

/// Where the chunk that begins at `start` ends: `chunk_size` characters on,
/// pulled back to the last paragraph break or else the last sentence break in
/// the window, unless the window reaches the end of the text.
pub open spec fn window_end(c: Seq<char>, start: int, chunk_size: int) -> int {
    let end0 = if chunk_size < c.len() - start {
        start + chunk_size
    } else {
        c.len() as int
    };
    if end0 < c.len() {
        let w = c.subrange(start, end0);
        match paragraph_boundary(w) {
            Some(p) => start + p,
            None => match sentence_boundary(w) {
                Some(q) => start + q,
                None => end0,
            },
        }
    } else {
        end0
    }
}

/// Where the next chunk begins: `overlap` characters before the end of the
/// current one, but always past the current start, and nowhere once the end
/// of the text has been reached.
pub open spec fn next_start(c: Seq<char>, start: int, end: int, overlap: int) -> int {
    if end >= c.len() {
        c.len() as int
    } else if end >= overlap && end - overlap > start {
        end - overlap
    } else {
        end
    }
}

pub proof fn lemma_window_end_bounds(c: Seq<char>, start: int, chunk_size: int)
    requires
        0 <= start < c.len(),
        chunk_size > 0,
    ensures
        start < window_end(c, start, chunk_size) <= c.len(),
        window_end(c, start, chunk_size) - start <= chunk_size,
{
    let end0 = if chunk_size < c.len() - start {
        start + chunk_size
    } else {
        c.len() as int
    };
    if end0 < c.len() {
        let w = c.subrange(start, end0);
        lemma_para_scan_bounds(w, sat_sub(w.len() as int, 100), w.len() - 1);
        lemma_sentence_scan_bounds(w, sat_sub(w.len() as int, 50), w.len() - 1);
    }
}

/// The chunks of `c` from position `start` on, trimmed, blank ones left out.
pub open spec fn chunks_from(c: Seq<char>, start: int, chunk_size: int, overlap: int) -> Seq<
    Seq<char>,
>
    decreases c.len() - start,
    via chunks_from_decreases
{
    if start < 0 || start >= c.len() || chunk_size <= 0 || overlap < 0 {
        Seq::empty()
    } else {
        let end = window_end(c, start, chunk_size);
        let piece = trim(c.subrange(start, end));
        let ns = next_start(c, start, end, overlap);
        let rest = chunks_from(c, ns, chunk_size, overlap);
        if piece.len() > 0 {
            seq![piece] + rest
        } else {
            rest
        }
    }
}

#[via_fn]
proof fn chunks_from_decreases(c: Seq<char>, start: int, chunk_size: int, overlap: int) {
    if !(start < 0 || start >= c.len() || chunk_size <= 0 || overlap < 0) {
        lemma_window_end_bounds(c, start, chunk_size);
    }
}

/// The views of a sequence of strings.
pub open spec fn views(v: Seq<String>) -> Seq<Seq<char>> {
    v.map_values(|s: String| s@)
}

/// Split text into overlapping chunks of approximately the given size.
///
/// This function respects paragraph and sentence boundaries when possible,
/// falling back to character-level splitting if needed.
pub fn split_text(text: &str, chunk_size: usize, overlap: usize) -> (chunks: Vec<String>)
    requires
        text@.len() > 0 ==> chunk_size > 0,
    ensures
        views(chunks@) == chunks_from(text@, 0, chunk_size as int, overlap as int),
{
    let chars = chars_of(text);
    let total_len = chars.len();
    let mut chunks: Vec<String> = Vec::new();
    if total_len == 0 {
        assert(views(chunks@) =~= Seq::<Seq<char>>::empty());
        return chunks;
    }
    let ghost c = chars@;
    let mut start: usize = 0;
    while start < total_len
        invariant
            c == chars@,
            c == text@,
            total_len == c.len(),
            chunk_size > 0,
            start <= total_len,
            views(chunks@) + chunks_from(c, start as int, chunk_size as int, overlap as int)
                == chunks_from(c, 0, chunk_size as int, overlap as int),
        decreases total_len - start,
    {
        proof {
            lemma_window_end_bounds(c, start as int, chunk_size as int);
        }
        let mut end = if chunk_size < total_len - start {
            start + chunk_size
        } else {
            total_len
        };
        if end < total_len {
            let window = &chars.as_slice()[start..end];
            assert(window@ == c.subrange(start as int, end as int));
            match find_paragraph_boundary(window) {
                Some(p) => {
                    end = start + p;
                },
                None => match find_sentence_boundary(window) {
                    Some(q) => {
                        end = start + q;
                    },
                    None => {},
                },
            }
        }
        assert(end == window_end(c, start as int, chunk_size as int));
        let (a, b) = trim_bounds(&chars, start, end);
        let ghost old_views = views(chunks@);
        if a < b {
            let piece = string_of(&chars, a, b);
            chunks.push(piece);
            assert(views(chunks@) =~= old_views.push(piece@));
        }
        let next = if end >= total_len {
            total_len
        } else if end >= overlap && end - overlap > start {
            end - overlap
        } else {
            end
        };
        assert(next == next_start(c, start as int, end as int, overlap as int));
        assert(views(chunks@) + chunks_from(c, next as int, chunk_size as int, overlap as int)
            =~= old_views + chunks_from(c, start as int, chunk_size as int, overlap as int));
        start = next;
    }
    assert(chunks_from(c, start as int, chunk_size as int, overlap as int) =~= Seq::<
        Seq<char>,
    >::empty());
    assert(views(chunks@) =~= views(chunks@) + Seq::<Seq<char>>::empty());
    chunks
}



/// The trimmed pieces of `lines` that are not blank, in order.
pub open spec fn nonblank_trimmed(lines: Seq<Seq<char>>) -> Seq<Seq<char>>
    decreases lines.len(),
{
    if lines.len() == 0 {
        Seq::empty()
    } else {
        let kept = nonblank_trimmed(lines.drop_last());
        let t = trim(lines.last());
        if t.len() > 0 {
            kept.push(t)
        } else {
            kept
        }
    }
}

/// Whether `preprocess_text` keeps a character: whitespace, or anything that
/// is not a control character.
pub open spec fn kept_char(c: char) -> bool {
    is_ws(c) || !is_ctrl(c)
}

/// The characters of `s` that `kept_char` keeps, in order.
pub open spec fn kept_chars(s: Seq<char>) -> Seq<char>
    decreases s.len(),
{
    if s.len() == 0 {
        s
    } else if kept_char(s.last()) {
        kept_chars(s.drop_last()).push(s.last())
    } else {
        kept_chars(s.drop_last())
    }
}

/// What `preprocess_text` makes of `s`: line breaks normalised to `\n`, each
/// line trimmed, blank lines dropped, the rest joined by blank lines, and
/// control characters other than whitespace removed.
pub open spec fn preprocessed(s: Seq<char>) -> Seq<char> {
    let n = replace_all(replace_all(s, seq!['\r', '\n'], seq!['\n']), seq!['\r'], seq!['\n']);
    kept_chars(join(nonblank_trimmed(split_from(n, '\n', 0)), seq!['\n', '\n']))
}

/// Preprocess text: normalize whitespace, remove control characters
pub fn preprocess_text(text: &str) -> (r: String)
    ensures
        r@ == preprocessed(text@),
{
    let v0 = chars_of(text);
    let crlf = vec!['\r', '\n'];
    let cr = vec!['\r'];
    let lf = vec!['\n'];
    assert(crlf@ =~= seq!['\r', '\n']);
    assert(cr@ =~= seq!['\r']);
    assert(lf@ =~= seq!['\n']);
    let v1 = replace_chars(&v0, &crlf, &lf);
    let v2 = replace_chars(&v1, &cr, &lf);
    assert(v2@ == replace_all(replace_all(text@, seq!['\r', '\n'], seq!['\n']), seq!['\r'], seq!['\n']));
    let ghost n = v2@;
    let ghost sep: Seq<char> = seq!['\n', '\n'];
    // Join the trimmed non-blank lines.
    let mut joined: Vec<char> = Vec::new();
    let ghost mut done: Seq<Seq<char>> = Seq::empty();
    let mut any = false;
    let mut i: usize = 0;
    loop
        invariant_except_break
            split_from(n, '\n', 0) == done + split_from(n, '\n', i as int),
        invariant
            n == v2@,
            sep == seq!['\n', '\n'],
            i <= v2.len(),
            joined@ == join(nonblank_trimmed(done), sep),
            any == (nonblank_trimmed(done).len() > 0),
        ensures
            split_from(n, '\n', 0) == done,
        decreases v2.len() - i,
    {
        let k = index_of_char(&v2, '\n', i);
        proof {
            lemma_index_of(n, '\n', i as int);
        }
        let (a, b) = trim_bounds(&v2, i, k);
        let ghost line = n.subrange(i as int, k as int);
        let ghost kept_before = nonblank_trimmed(done);
        proof {
            assert((done.push(line)).drop_last() =~= done);
        }
        if a < b {
            let ghost j0 = joined@;
            if any {
                joined.push('\n');
                joined.push('\n');
                assert(joined@ =~= j0 + sep);
            }
            let ghost base = joined@;
            let mut j = a;
            while j < b
                invariant
                    a <= j <= b <= v2.len(),
                    joined@ == base + v2@.subrange(a as int, j as int),
                decreases b - j,
            {
                joined.push(v2[j]);
                assert(v2@.subrange(a as int, j + 1) =~= v2@.subrange(a as int, j as int).push(
                    v2@[j as int],
                ));
                j = j + 1;
            }
            proof {
                let t = trim(line);
                assert(nonblank_trimmed(done.push(line)) =~= kept_before.push(t));
                if kept_before.len() > 0 {
                    assert(kept_before.push(t).drop_last() =~= kept_before);
                    assert(joined@ =~= join(kept_before, sep) + sep + t);
                } else {
                    assert(joined@ =~= t);
                }
            }
            any = true;
        } else {
            proof {
                assert(nonblank_trimmed(done.push(line)) =~= kept_before);
            }
        }
        proof {
            done = done.push(line);
        }
        if k >= v2.len() {
            assert(split_from(n, '\n', i as int) =~= seq![line]);
            assert(split_from(n, '\n', 0) =~= done);
            break;
        }
        assert(split_from(n, '\n', i as int) =~= seq![line] + split_from(n, '\n', k + 1));
        i = k + 1;
    }
    // Drop control characters that are not whitespace.
    let mut out = String::new();
    let mut m: usize = 0;
    while m < joined.len()
        invariant
            m <= joined.len(),
            out@ == kept_chars(joined@.take(m as int)),
        decreases joined.len() - m,
    {
        let c = joined[m];
        assert(joined@.take(m + 1).drop_last() =~= joined@.take(m as int));
        if is_whitespace(c) || !is_control(c) {
            push_char(&mut out, c);
        }
        m = m + 1;
    }
    assert(joined@.take(joined.len() as int) =~= joined@);
    out
}

/// Every chunk that `split_text` gives is a non-empty piece of the text of at
/// most `chunk_size` characters, with no whitespace at either end; a text of
/// at most `chunk_size` characters gives just its trimmed self, or nothing
/// when it is blank.
pub proof fn lemma_split_text_chunks(text: Seq<char>, chunk_size: int, overlap: int)
    requires
        chunk_size > 0,
        overlap >= 0,
    ensures
        forall|i: int|
            0 <= i < chunks_from(text, 0, chunk_size, overlap).len() ==> {
                let ch = #[trigger] chunks_from(text, 0, chunk_size, overlap)[i];
                &&& ch.len() > 0
                &&& ch.len() <= chunk_size
                &&& trim(ch) == ch
                &&& exists|p: int| occurs_at(text, ch, p)
            },
        text.len() <= chunk_size ==> chunks_from(text, 0, chunk_size, overlap) == (if trim(
            text,
        ).len() > 0 {
            seq![trim(text)]
        } else {
            Seq::<Seq<char>>::empty()
        }),
{
    lemma_chunks_from_props(text, 0, chunk_size, overlap);
    if text.len() <= chunk_size && text.len() > 0 {
        assert(window_end(text, 0, chunk_size) == text.len());
        assert(text.subrange(0, text.len() as int) =~= text);
        assert(chunks_from(text, text.len() as int, chunk_size, overlap) =~= Seq::<
            Seq<char>,
        >::empty());
        if trim(text).len() > 0 {
            assert(seq![trim(text)] + Seq::<Seq<char>>::empty() =~= seq![trim(text)]);
        }
    }
}

proof fn lemma_chunks_from_props(c: Seq<char>, start: int, chunk_size: int, overlap: int)
    requires
        chunk_size > 0,
        overlap >= 0,
    ensures
        forall|i: int|
            0 <= i < chunks_from(c, start, chunk_size, overlap).len() ==> {
                let ch = #[trigger] chunks_from(c, start, chunk_size, overlap)[i];
                &&& ch.len() > 0
                &&& ch.len() <= chunk_size
                &&& trim(ch) == ch
                &&& exists|p: int| occurs_at(c, ch, p)
            },
    decreases c.len() - start,
{
    if !(start < 0 || start >= c.len()) {
        lemma_window_end_bounds(c, start, chunk_size);
        let end = window_end(c, start, chunk_size);
        let w = c.subrange(start, end);
        let piece = trim(w);
        let ns = next_start(c, start, end, overlap);
        lemma_chunks_from_props(c, ns, chunk_size, overlap);
        let rest = chunks_from(c, ns, chunk_size, overlap);
        let (a, b) = lemma_trim(w);
        lemma_trim_idempotent(w);
        assert(piece =~= c.subrange(start + a, start + b));
        assert(occurs_at(c, piece, start + a));
        let all = chunks_from(c, start, chunk_size, overlap);
        assert forall|i: int| 0 <= i < all.len() implies {
            let ch = #[trigger] all[i];
            &&& ch.len() > 0
            &&& ch.len() <= chunk_size
            &&& trim(ch) == ch
            &&& exists|p: int| occurs_at(c, ch, p)
        } by {
            if piece.len() > 0 {
                if i == 0 {
                    assert(all[i] == piece);
                } else {
                    assert(all[i] == rest[i - 1]);
                }
            } else {
                assert(all[i] == rest[i]);
            }
        }
    }
}


/// Every character of `s` is one that `preprocess_text` keeps.
pub open spec fn all_kept(s: Seq<char>) -> bool {
    forall|i: int| 0 <= i < s.len() ==> kept_char(#[trigger] s[i])
}

/// `c` does not occur in `s`.
pub open spec fn lacks(s: Seq<char>, c: char) -> bool {
    forall|i: int| 0 <= i < s.len() ==> #[trigger] s[i] != c
}

/// A line of preprocessed text: kept characters, no line break.
pub open spec fn clean_line(l: Seq<char>) -> bool {
    all_kept(l) && lacks(l, '\r') && lacks(l, '\n')
}

proof fn lemma_replace_facts(s: Seq<char>, p: Seq<char>, t: Seq<char>, i: int)
    requires
        p.len() > 0,
        0 <= i <= s.len(),
        all_kept(t),
        all_kept(s),
    ensures
        all_kept(replace_from(s, p, t, i)),
        p == seq!['\r'] && lacks(t, '\r') ==> lacks(replace_from(s, p, t, i), '\r'),
    decreases s.len() - i,
{
    if i < s.len() {
        let r = replace_from(s, p, t, i);
        if occurs_at(s, p, i) {
            lemma_replace_facts(s, p, t, i + p.len());
            let rest = replace_from(s, p, t, i + p.len());
            assert(r == t + rest);
            assert forall|k: int| 0 <= k < r.len() implies kept_char(#[trigger] r[k]) by {
                if k < t.len() {
                    assert(r[k] == t[k]);
                } else {
                    assert(r[k] == rest[k - t.len()]);
                }
            }
            if p == seq!['\r'] && lacks(t, '\r') {
                assert forall|k: int| 0 <= k < r.len() implies #[trigger] r[k] != '\r' by {
                    if k < t.len() {
                        assert(r[k] == t[k]);
                    } else {
                        assert(r[k] == rest[k - t.len()]);
                    }
                }
            }
        } else {
            lemma_replace_facts(s, p, t, i + 1);
            let rest = replace_from(s, p, t, i + 1);
            assert(r == seq![s[i]] + rest);
            assert(kept_char(s[i]));
            assert forall|k: int| 0 <= k < r.len() implies kept_char(#[trigger] r[k]) by {
                if k > 0 {
                    assert(r[k] == rest[k - 1]);
                }
            }
            if p == seq!['\r'] && lacks(t, '\r') {
                if s[i] == '\r' {
                    assert(s.subrange(i, i + 1) =~= seq!['\r']);
                }
                assert forall|k: int| 0 <= k < r.len() implies #[trigger] r[k] != '\r' by {
                    if k > 0 {
                        assert(r[k] == rest[k - 1]);
                    }
                }
            }
        }
    }
}

proof fn lemma_replace_nothing(s: Seq<char>, p: Seq<char>, t: Seq<char>, i: int)
    requires
        p.len() > 0,
        p[0] == '\r',
        lacks(s, '\r'),
        0 <= i <= s.len(),
    ensures
        replace_from(s, p, t, i) == s.subrange(i, s.len() as int),
    decreases s.len() - i,
{
    if i < s.len() {
        if occurs_at(s, p, i) {
            assert(s.subrange(i, i + p.len())[0] == s[i]);
        }
        lemma_replace_nothing(s, p, t, i + 1);
        assert(seq![s[i]] + s.subrange(i + 1, s.len() as int) =~= s.subrange(i, s.len() as int));
    } else {
        assert(s.subrange(i, s.len() as int) =~= Seq::<char>::empty());
    }
}

proof fn lemma_split_clean(s: Seq<char>, i: int)
    requires
        all_kept(s),
        lacks(s, '\r'),
        0 <= i <= s.len(),
    ensures
        forall|m: int|
            0 <= m < split_from(s, '\n', i).len() ==> clean_line(#[trigger] split_from(s, '\n', i)[m]),
    decreases s.len() - i,
{
    lemma_index_of(s, '\n', i);
    let k = index_of(s, '\n', i);
    let piece = s.subrange(i, if k >= s.len() { s.len() as int } else { k });
    assert(clean_line(piece)) by {
        assert forall|q: int| 0 <= q < piece.len() implies kept_char(#[trigger] piece[q]) by {
            assert(piece[q] == s[i + q]);
        }
        assert forall|q: int| 0 <= q < piece.len() implies #[trigger] piece[q] != '\r' by {
            assert(piece[q] == s[i + q]);
        }
        assert forall|q: int| 0 <= q < piece.len() implies #[trigger] piece[q] != '\n' by {
            assert(piece[q] == s[i + q]);
        }
    }
    if k < s.len() {
        lemma_split_clean(s, k + 1);
        let rest = split_from(s, '\n', k + 1);
        assert(split_from(s, '\n', i) == seq![piece] + rest);
        assert forall|m: int| 0 <= m < split_from(s, '\n', i).len() implies clean_line(
            #[trigger] split_from(s, '\n', i)[m],
        ) by {
            if m > 0 {
                assert(split_from(s, '\n', i)[m] == rest[m - 1]);
            }
        }
    }
}

proof fn lemma_trim_clean(l: Seq<char>)
    requires
        clean_line(l),
    ensures
        clean_line(trim(l)),
        trim(trim(l)) == trim(l),
{
    let (a, b) = lemma_trim(l);
    let t = trim(l);
    assert forall|q: int| 0 <= q < t.len() implies kept_char(#[trigger] t[q]) && t[q] != '\r'
        && t[q] != '\n' by {
        assert(t[q] == l[a + q]);
    }
    lemma_trim_idempotent(l);
}

proof fn lemma_nonblank_clean(lines: Seq<Seq<char>>)
    requires
        forall|m: int| 0 <= m < lines.len() ==> clean_line(#[trigger] lines[m]),
    ensures
        forall|m: int|
            0 <= m < nonblank_trimmed(lines).len() ==> {
                let l = #[trigger] nonblank_trimmed(lines)[m];
                clean_line(l) && l.len() > 0 && trim(l) == l
            },
    decreases lines.len(),
{
    if lines.len() > 0 {
        let d = lines.drop_last();
        assert forall|m: int| 0 <= m < d.len() implies clean_line(#[trigger] d[m]) by {
            assert(d[m] == lines[m]);
        }
        lemma_nonblank_clean(d);
        lemma_trim_clean(lines.last());
        let kept = nonblank_trimmed(d);
        let t = trim(lines.last());
        if t.len() > 0 {
            assert forall|m: int| 0 <= m < kept.push(t).len() implies {
                let l = #[trigger] kept.push(t)[m];
                clean_line(l) && l.len() > 0 && trim(l) == l
            } by {
                if m < kept.len() {
                    assert(kept.push(t)[m] == kept[m]);
                }
            }
        }
    }
}

/// The blank line between two lines of preprocessed text.
pub open spec fn blank_line_sep() -> Seq<char> {
    seq!['\n', '\n']
}

proof fn lemma_join_clean(lines: Seq<Seq<char>>)
    requires
        forall|m: int| 0 <= m < lines.len() ==> clean_line(#[trigger] lines[m]),
    ensures
        all_kept(join(lines, blank_line_sep())),
        lacks(join(lines, blank_line_sep()), '\r'),
    decreases lines.len(),
{
    if lines.len() == 1 {
        assert(clean_line(lines[0]));
    } else if lines.len() > 1 {
        let d = lines.drop_last();
        assert forall|m: int| 0 <= m < d.len() implies clean_line(#[trigger] d[m]) by {
            assert(d[m] == lines[m]);
        }
        lemma_join_clean(d);
        let a = join(d, blank_line_sep());
        let l = lines.last();
        assert(clean_line(l));
        let j = join(lines, blank_line_sep());
        assert(j == a + blank_line_sep() + l);
        assert forall|q: int| 0 <= q < j.len() implies kept_char(#[trigger] j[q]) && j[q] != '\r' by {
            if q < a.len() {
                assert(j[q] == a[q]);
            } else if q < a.len() + 2 {
                assert(j[q] == '\n');
            } else {
                assert(j[q] == l[q - a.len() - 2]);
            }
        }
    }
}

proof fn lemma_kept_all(s: Seq<char>)
    requires
        all_kept(s),
    ensures
        kept_chars(s) == s,
    decreases s.len(),
{
    if s.len() > 0 {
        let d = s.drop_last();
        assert forall|i: int| 0 <= i < d.len() implies kept_char(#[trigger] d[i]) by {
            assert(d[i] == s[i]);
        }
        lemma_kept_all(d);
        assert(kept_char(s.last()));
        assert(d.push(s.last()) =~= s);
    }
}

proof fn lemma_index_of_prefix(x: Seq<char>, y: Seq<char>, i: int)
    requires
        0 <= i <= x.len(),
    ensures
        index_of(x + seq!['\n'] + y, '\n', i) == index_of(x, '\n', i),
    decreases x.len() - i,
{
    let s = x + seq!['\n'] + y;
    if i < x.len() {
        assert(s[i] == x[i]);
        if x[i] != '\n' {
            lemma_index_of_prefix(x, y, i + 1);
        }
    } else {
        assert(s[i] == '\n');
    }
}

proof fn lemma_index_of_lacking(s: Seq<char>, i: int)
    requires
        0 <= i <= s.len(),
        forall|q: int| i <= q < s.len() ==> #[trigger] s[q] != '\n',
    ensures
        index_of(s, '\n', i) == s.len(),
{
    lemma_index_of(s, '\n', i);
}

proof fn lemma_split_append_from(x: Seq<char>, y: Seq<char>, i: int)
    requires
        lacks(y, '\n'),
        0 <= i <= x.len(),
    ensures
        split_from(x + seq!['\n'] + y, '\n', i) == split_from(x, '\n', i).push(y),
    decreases x.len() - i,
{
    let s = x + seq!['\n'] + y;
    lemma_index_of_prefix(x, y, i);
    lemma_index_of(x, '\n', i);
    let k = index_of(x, '\n', i);
    if k < x.len() {
        lemma_split_append_from(x, y, k + 1);
        assert(s.subrange(i, k) =~= x.subrange(i, k));
        assert(split_from(s, '\n', i) == seq![s.subrange(i, k)] + split_from(s, '\n', k + 1));
        assert(split_from(x, '\n', i) == seq![x.subrange(i, k)] + split_from(x, '\n', k + 1));
        assert(seq![x.subrange(i, k)] + split_from(x, '\n', k + 1).push(y) =~= (seq![
            x.subrange(i, k),
        ] + split_from(x, '\n', k + 1)).push(y));
    } else {
        let j: int = x.len() as int + 1;
        assert forall|q: int| j <= q < s.len() implies #[trigger] s[q] != '\n' by {
            assert(s[q] == y[q - j]);
        }
        lemma_index_of_lacking(s, j);
        assert(s.subrange(j, s.len() as int) =~= y);
        assert(split_from(s, '\n', j) == seq![y]);
        assert(s.subrange(i, x.len() as int) =~= x.subrange(i, x.len() as int));
        assert(split_from(x, '\n', i) == seq![x.subrange(i, x.len() as int)]);
        assert(split_from(s, '\n', i) == seq![s.subrange(i, x.len() as int)] + split_from(
            s,
            '\n',
            j,
        ));
        assert(split_from(s, '\n', i) =~= split_from(x, '\n', i).push(y));
    }
}

proof fn lemma_split_of_joined(lines: Seq<Seq<char>>)
    requires
        forall|m: int|
            0 <= m < lines.len() ==> {
                let l = #[trigger] lines[m];
                lacks(l, '\n') && l.len() > 0 && trim(l) == l
            },
    ensures
        nonblank_trimmed(split_from(join(lines, blank_line_sep()), '\n', 0)) == lines,
    decreases lines.len(),
{
    let e = Seq::<char>::empty();
    assert(trim_start(e) == e);
    assert(trim_end(e) == e);
    if lines.len() == 0 {
        let j = join(lines, blank_line_sep());
        assert(j == e);
        assert(index_of(e, '\n', 0) == 0);
        assert(e.subrange(0, 0) =~= e);
        assert(split_from(j, '\n', 0) =~= seq![e]);
        let one = seq![e];
        assert(one.drop_last() =~= Seq::<Seq<char>>::empty());
        assert(nonblank_trimmed(one.drop_last()) =~= Seq::<Seq<char>>::empty());
        assert(trim(one.last()) == e);
        assert(nonblank_trimmed(one) =~= lines);
    } else if lines.len() == 1 {
        let l = lines[0];
        assert(lacks(l, '\n') && l.len() > 0 && trim(l) == l);
        lemma_index_of_lacking(l, 0);
        assert(l.subrange(0, l.len() as int) =~= l);
        assert(split_from(l, '\n', 0) == seq![l]);
        let one = seq![l];
        assert(one.drop_last() =~= Seq::<Seq<char>>::empty());
        assert(nonblank_trimmed(one.drop_last()) =~= Seq::<Seq<char>>::empty());
        assert(one.last() == l);
        assert(Seq::<Seq<char>>::empty().push(l) =~= lines);
        assert(nonblank_trimmed(one) =~= lines);
    } else {
        let d = lines.drop_last();
        let l = lines.last();
        assert(lacks(l, '\n') && l.len() > 0 && trim(l) == l);
        assert forall|m: int| 0 <= m < d.len() implies {
            let x = #[trigger] d[m];
            lacks(x, '\n') && x.len() > 0 && trim(x) == x
        } by {
            assert(d[m] == lines[m]);
        }
        lemma_split_of_joined(d);
        let a = join(d, blank_line_sep());
        let a1 = a + seq!['\n'] + e;
        assert(join(lines, blank_line_sep()) =~= a1 + seq!['\n'] + l);
        lemma_split_append_from(a1, l, 0);
        lemma_split_append_from(a, e, 0);
        assert(a1 =~= a + seq!['\n']);
        let sa = split_from(a, '\n', 0);
        let all = sa.push(e).push(l);
        assert(split_from(join(lines, blank_line_sep()), '\n', 0) == all);
        assert(all.drop_last() =~= sa.push(e));
        assert(all.last() == l);
        assert(sa.push(e).drop_last() =~= sa);
        assert(nonblank_trimmed(sa.push(e)) == nonblank_trimmed(sa));
        assert(nonblank_trimmed(all) == d.push(l));
        assert(d.push(l) =~= lines);
    }
}

/// Preprocessing twice is preprocessing once, for a text whose characters
/// are all kept (whitespace, or not a control character).
pub proof fn lemma_preprocess_idempotent(s: Seq<char>)
    requires
        all_kept(s),
    ensures
        preprocessed(preprocessed(s)) == preprocessed(s),
{
    let crlf = seq!['\r', '\n'];
    let cr = seq!['\r'];
    let lf = seq!['\n'];
    assert(kept_char('\n'));
    assert(all_kept(lf));
    assert(lacks(lf, '\r'));
    lemma_replace_facts(s, crlf, lf, 0);
    let n1 = replace_all(s, crlf, lf);
    lemma_replace_facts(n1, cr, lf, 0);
    let n = replace_all(n1, cr, lf);
    lemma_split_clean(n, 0);
    let lines = nonblank_trimmed(split_from(n, '\n', 0));
    lemma_nonblank_clean(split_from(n, '\n', 0));
    lemma_join_clean(lines);
    let j = join(lines, blank_line_sep());
    assert(blank_line_sep() == seq!['\n', '\n']);
    lemma_kept_all(j);
    assert(preprocessed(s) == j);
    lemma_replace_nothing(j, crlf, lf, 0);
    assert(j.subrange(0, j.len() as int) =~= j);
    lemma_replace_nothing(j, cr, lf, 0);
    assert forall|m: int| 0 <= m < lines.len() implies {
        let l = #[trigger] lines[m];
        lacks(l, '\n') && l.len() > 0 && trim(l) == l
    } by {
        assert(clean_line(lines[m]));
    }
    lemma_split_of_joined(lines);
}


/// Consecutive chunks overlap. When the window `[start, end)` of a chunk
/// stops short of the end of the text and `overlap` characters back from
/// `end` still lie past `start`, the next window begins exactly `overlap`
/// characters before `end`, so the two windows share the characters
/// `c[end - overlap..end]`: the chunks from `start` are this window's text,
/// trimmed (left out when blank), followed by the chunks from
/// `end - overlap`. Where stepping back would not pass `start`, the next
/// window begins at `end`, so splitting always moves on.
pub proof fn lemma_chunks_overlap(c: Seq<char>, start: int, chunk_size: int, overlap: int)
    requires
        0 <= start < c.len(),
        chunk_size > 0,
        overlap >= 0,
        window_end(c, start, chunk_size) < c.len(),
    ensures
        ({
            let end = window_end(c, start, chunk_size);
            let piece = trim(c.subrange(start, end));
            let first = if piece.len() > 0 {
                seq![piece]
            } else {
                Seq::<Seq<char>>::empty()
            };
            &&& end - overlap > start ==> chunks_from(c, start, chunk_size, overlap) == first
                + chunks_from(c, end - overlap, chunk_size, overlap)
            &&& end - overlap <= start ==> chunks_from(c, start, chunk_size, overlap) == first
                + chunks_from(c, end, chunk_size, overlap)
        }),
{
    let end = window_end(c, start, chunk_size);
    let piece = trim(c.subrange(start, end));
    let rest = chunks_from(c, next_start(c, start, end, overlap), chunk_size, overlap);
    if piece.len() == 0 {
        assert(Seq::<Seq<char>>::empty() + rest =~= rest);
    }
}

} // verus!
