//! Reading what a language model answered: fenced JSON blocks, the parts of
//! a ReACT step, and the content of the first completion choice.
use vstd::prelude::*;

use crate::error::LlmError;
use crate::strs::{
    chars_of, contains, find, find_chars, index_of, index_of_char, is_ws, occurs_at, string_of, trim,
    trim_bounds, trim_end, trim_start,
};

verus! {

broadcast use vstd::string::group_string_axioms;

/// The three backticks that open and close a fenced block.
pub open spec fn fence() -> Seq<char> {
    seq!['`', '`', '`']
}

/// The fence that announces a JSON block.
pub open spec fn json_fence() -> Seq<char> {
    seq!['`', '`', '`', 'j', 's', 'o', 'n']
}

/// The text between the first `open` in `c` and the next fence after it,
/// trimmed; `None` where either is missing.
pub open spec fn fenced_block(c: Seq<char>, open: Seq<char>) -> Option<Seq<char>> {
    match find(c, open) {
        Some(s) => {
            let rest = c.skip(s + open.len());
            match find(rest, fence()) {
                Some(e) => Some(trim(rest.take(e))),
                None => None,
            }
        },
        None => None,
    }
}

/// The JSON that a reply carries: the body of a ```json block, else the body
/// of a plain fenced block, else the whole reply, trimmed.
pub open spec fn json_block(c: Seq<char>) -> Seq<char> {
    match fenced_block(c, json_fence()) {
        Some(b) => b,
        None => match fenced_block(c, fence()) {
            Some(b) => b,
            None => trim(c),
        },
    }
}

/// The characters `v[lo..]` as a new vector.
fn tail_chars(v: &Vec<char>, lo: usize) -> (r: Vec<char>)
    requires
        lo <= v.len(),
    ensures
        r@ == v@.skip(lo as int),
{
    let mut r: Vec<char> = Vec::new();
    let mut i = lo;
    while i < v.len()
        invariant
            lo <= i <= v.len(),
            r@ == v@.subrange(lo as int, i as int),
        decreases v.len() - i,
    {
        r.push(v[i]);
        assert(v@.subrange(lo as int, i + 1) =~= v@.subrange(lo as int, i as int).push(
            v@[i as int],
        ));
        i = i + 1;
    }
    r
}

fn fence_chars() -> (v: Vec<char>)
    ensures
        v@ == fence(),
{
    let v = vec!['`', '`', '`'];
    assert(v@ =~= fence());
    v
}

fn find_fenced(v: &Vec<char>, open: &Vec<char>) -> (r: Option<String>)
    ensures
        match r {
            Some(s) => fenced_block(v@, open@) == Some(s@),
            None => fenced_block(v@, open@) is None,
        },
{
    match find_chars(v, open) {
        Some(s) => {
            proof {
                crate::strs::lemma_find_from_facts(v@, open@, 0);
                assert(crate::strs::occurs_at(v@, open@, s as int));
            }
            let n = v.len();
            assert(s + open@.len() <= n);
            let rest = tail_chars(v, s + open.len());
            let f = fence_chars();
            match find_chars(&rest, &f) {
                Some(e) => {
                    proof {
                        crate::strs::lemma_find_from_facts(rest@, f@, 0);
                    }
                    let (a, b) = trim_bounds(&rest, 0, e);
                    assert(rest@.subrange(0, e as int) =~= rest@.take(e as int));
                    Some(string_of(&rest, a, b))
                },
                None => None,
            }
        },
        None => None,
    }
}

/// The JSON carried by a model's reply, with a surrounding Markdown fence
/// taken off.
pub fn extract_json_block(content: &str) -> (r: String)
    ensures
        r@ == json_block(content@),
{
    let v = chars_of(content);
    let tag = vec!['`', '`', '`', 'j', 's', 'o', 'n'];
    assert(tag@ =~= json_fence());
    if let Some(b) = find_fenced(&v, &tag) {
        return b;
    }
    let f = fence_chars();
    if let Some(b) = find_fenced(&v, &f) {
        return b;
    }
    let (a, b) = trim_bounds(&v, 0, v.len());
    assert(v@.subrange(0, v.len() as int) =~= v@);
    string_of(&v, a, b)
}

/// `trim_start(s)` drops exactly the leading whitespace of `s`.
proof fn lemma_trim_start_ws(s: Seq<char>) -> (a: int)
    ensures
        0 <= a <= s.len(),
        trim_start(s) == s.subrange(a, s.len() as int),
        forall|i: int| 0 <= i < a ==> is_ws(#[trigger] s[i]),
    decreases s.len(),
{
    if s.len() > 0 && is_ws(s[0]) {
        let a1 = lemma_trim_start_ws(s.drop_first());
        assert(s.drop_first().subrange(a1, s.drop_first().len() as int) =~= s.subrange(
            a1 + 1,
            s.len() as int,
        ));
        assert forall|i: int| 0 <= i < a1 + 1 implies is_ws(#[trigger] s[i]) by {
            if i > 0 {
                assert(s[i] == s.drop_first()[i - 1]);
            }
        }
        a1 + 1
    } else {
        assert(s.subrange(0, s.len() as int) =~= s);
        0
    }
}

/// `trim_end(s)` drops exactly the trailing whitespace of `s`.
proof fn lemma_trim_end_ws(s: Seq<char>) -> (b: int)
    ensures
        0 <= b <= s.len(),
        trim_end(s) == s.subrange(0, b),
        forall|i: int| b <= i < s.len() ==> is_ws(#[trigger] s[i]),
    decreases s.len(),
{
    if s.len() > 0 && is_ws(s.last()) {
        let b1 = lemma_trim_end_ws(s.drop_last());
        assert(s.drop_last().subrange(0, b1) =~= s.subrange(0, b1));
        assert forall|i: int| b1 <= i < s.len() implies is_ws(#[trigger] s[i]) by {
            if i < s.len() - 1 {
                assert(s[i] == s.drop_last()[i]);
            }
        }
        b1
    } else {
        assert(s.subrange(0, s.len() as int) =~= s);
        s.len() as int
    }
}

/// `trim(s)` is `s[a..b]`, with only whitespace before `a` and from `b` on.
proof fn lemma_trim_ws(s: Seq<char>) -> (r: (int, int))
    ensures
        0 <= r.0 <= r.1 <= s.len(),
        trim(s) == s.subrange(r.0, r.1),
        forall|i: int| 0 <= i < r.0 ==> is_ws(#[trigger] s[i]),
        forall|i: int| r.1 <= i < s.len() ==> is_ws(#[trigger] s[i]),
{
    let a = lemma_trim_start_ws(s);
    let t = trim_start(s);
    let b = lemma_trim_end_ws(t);
    assert(t.subrange(0, b) =~= s.subrange(a, a + b));
    assert forall|i: int| a + b <= i < s.len() implies is_ws(#[trigger] s[i]) by {
        assert(s[i] == t[i - a]);
    }
    (a, a + b)
}

/// No character of `p` is whitespace.
pub open spec fn no_ws(p: Seq<char>) -> bool {
    forall|i: int| 0 <= i < p.len() ==> !is_ws(#[trigger] p[i])
}

/// An occurrence in a slice is an occurrence in the whole.
proof fn lemma_occurs_in_slice(h: Seq<char>, p: Seq<char>, x: int, y: int, j: int)
    requires
        0 <= x <= y <= h.len(),
        occurs_at(h.subrange(x, y), p, j),
    ensures
        occurs_at(h, p, x + j),
{
    assert(h.subrange(x, y).subrange(j, j + p.len()) =~= h.subrange(x + j, x + j + p.len()));
}

/// An occurrence, in the whole, of a pattern without whitespace lies within
/// the slice that leaves out only whitespace around it.
proof fn lemma_occurs_within(h: Seq<char>, p: Seq<char>, x: int, y: int, k: int)
    requires
        0 <= x <= y <= h.len(),
        forall|i: int| 0 <= i < x ==> is_ws(#[trigger] h[i]),
        forall|i: int| y <= i < h.len() ==> is_ws(#[trigger] h[i]),
        p.len() > 0,
        no_ws(p),
        occurs_at(h, p, k),
    ensures
        occurs_at(h.subrange(x, y), p, k - x),
{
    let l = p.len() as int;
    assert(h[k] == h.subrange(k, k + l)[0]);
    assert(!is_ws(p[0]));
    assert(h[k + l - 1] == h.subrange(k, k + l)[l - 1]);
    assert(!is_ws(p[l - 1]));
    assert(h.subrange(x, y).subrange(k - x, k - x + l) =~= h.subrange(k, k + l));
}

/// A pattern that occurs has a first occurrence.
proof fn lemma_found(h: Seq<char>, p: Seq<char>, k: int)
    requires
        occurs_at(h, p, k),
    ensures
        find(h, p) matches Some(f) && f <= k,
{
    crate::strs::lemma_find_from_facts(h, p, 0);
}

/// The first occurrence is where the pattern occurs with none before.
proof fn lemma_found_at(h: Seq<char>, p: Seq<char>, k: int)
    requires
        occurs_at(h, p, k),
        forall|j: int| 0 <= j < k ==> !occurs_at(h, p, j),
    ensures
        find(h, p) == Some(k),
{
    crate::strs::lemma_find_from_facts(h, p, 0);
}

/// A pattern that does not occur is not found.
proof fn lemma_not_found(h: Seq<char>, p: Seq<char>)
    requires
        forall|j: int| 0 <= j ==> !occurs_at(h, p, j),
    ensures
        find(h, p) is None,
{
    crate::strs::lemma_find_from_facts(h, p, 0);
}

/// A fenced block's body holds no fence, and is found in the reply.
proof fn lemma_fenced_block_facts(c: Seq<char>, open: Seq<char>)
    requires
        fenced_block(c, open) is Some,
    ensures
        forall|j: int| 0 <= j ==> !occurs_at(fenced_block(c, open)->0, fence(), j),
        exists|k: int| occurs_at(c, fenced_block(c, open)->0, k),
        trim(fenced_block(c, open)->0) == fenced_block(c, open)->0,
{
    crate::strs::lemma_find_from_facts(c, open, 0);
    let s = find(c, open)->0;
    let rest = c.skip(s + open.len());
    crate::strs::lemma_find_from_facts(rest, fence(), 0);
    let e = find(rest, fence())->0;
    let t = rest.take(e);
    let (a, b) = lemma_trim_ws(t);
    let body = fenced_block(c, open)->0;
    assert(body == t.subrange(a, b));
    assert forall|j: int| 0 <= j implies !occurs_at(body, fence(), j) by {
        if occurs_at(body, fence(), j) {
            lemma_occurs_in_slice(t, fence(), a, b, j);
            lemma_occurs_in_slice(rest, fence(), 0, e, a + j);
            assert(rest.subrange(0, e) =~= t);
        }
    }
    assert(body =~= c.subrange(s + open.len() + a, s + open.len() + b));
    assert(occurs_at(c, body, s + open.len() + a));
    crate::strs::lemma_trim_idempotent(t);
}

/// A JSON fence is a fence followed by `json`.
proof fn lemma_json_fence_has_fence(h: Seq<char>, j: int)
    requires
        occurs_at(h, json_fence(), j),
    ensures
        occurs_at(h, fence(), j),
{
    assert(h.subrange(j, j + 3) =~= h.subrange(j, j + 7).subrange(0, 3));
    assert(json_fence().subrange(0, 3) =~= fence());
}

/// Text without a fence is its own JSON block, once trimmed.
proof fn lemma_fenceless_block(b: Seq<char>)
    requires
        forall|j: int| 0 <= j ==> !occurs_at(b, fence(), j),
        trim(b) == b,
    ensures
        json_block(b) == b,
{
    lemma_not_found(b, fence());
    assert forall|j: int| 0 <= j implies !occurs_at(b, json_fence(), j) by {
        if occurs_at(b, json_fence(), j) {
            lemma_json_fence_has_fence(b, j);
        }
    }
    lemma_not_found(b, json_fence());
}

/// Where `open` has no block in `c`, it has none in `c` trimmed.
proof fn lemma_no_block_after_trim(c: Seq<char>, open: Seq<char>)
    requires
        open.len() > 0,
        no_ws(open),
        fenced_block(c, open) is None,
    ensures
        fenced_block(trim(c), open) is None,
{
    let (a, b) = lemma_trim_ws(c);
    let r = trim(c);
    assert(no_ws(fence()));
    crate::strs::lemma_find_from_facts(c, open, 0);
    match find(c, open) {
        None => {
            assert forall|j: int| 0 <= j implies !occurs_at(r, open, j) by {
                if occurs_at(r, open, j) {
                    lemma_occurs_in_slice(c, open, a, b, j);
                }
            }
            lemma_not_found(r, open);
        },
        Some(s) => {
            let l = open.len() as int;
            lemma_occurs_within(c, open, a, b, s);
            assert forall|j: int| 0 <= j < s - a implies !occurs_at(r, open, j) by {
                if occurs_at(r, open, j) {
                    lemma_occurs_in_slice(c, open, a, b, j);
                }
            }
            lemma_found_at(r, open, s - a);
            let rest_c = c.skip(s + l);
            let rest_r = r.skip(s - a + l);
            crate::strs::lemma_find_from_facts(rest_c, fence(), 0);
            assert(rest_r =~= c.subrange(s + l, b));
            assert forall|q: int| 0 <= q implies !occurs_at(rest_r, fence(), q) by {
                if occurs_at(rest_r, fence(), q) {
                    lemma_occurs_in_slice(c, fence(), s + l, b, q);
                    assert(rest_c.subrange(q, q + 3) =~= c.subrange(s + l + q, s + l + q + 3));
                    assert(occurs_at(rest_c, fence(), q));
                }
            }
            lemma_not_found(rest_r, fence());
        },
    }
}

/// What `extract_json_block` gives is trimmed, is found in the reply, and
/// is given back unchanged when extracted again.
pub proof fn lemma_json_block(c: Seq<char>)
    ensures
        trim(json_block(c)) == json_block(c),
        contains(c, json_block(c)),
        json_block(json_block(c)) == json_block(c),
{
    let r = json_block(c);
    if fenced_block(c, json_fence()) is Some {
        lemma_fenced_block_facts(c, json_fence());
        lemma_fenceless_block(r);
    } else if fenced_block(c, fence()) is Some {
        lemma_fenced_block_facts(c, fence());
        lemma_fenceless_block(r);
    } else {
        let (a, b) = lemma_trim_ws(c);
        crate::strs::lemma_trim_idempotent(c);
        assert(r == c.subrange(a, b));
        assert(c.subrange(a, a + r.len()) =~= r);
        assert(occurs_at(c, r, a));
        assert(no_ws(json_fence()));
        assert(no_ws(fence()));
        lemma_no_block_after_trim(c, json_fence());
        lemma_no_block_after_trim(c, fence());
    }
    let k = choose|k: int| occurs_at(c, r, k);
    lemma_found(c, r, k);
}

/// The label that opens a ReACT thought.
pub open spec fn thought_label() -> Seq<char> {
    seq!['T', 'h', 'o', 'u', 'g', 'h', 't', ':']
}

/// The label that opens a ReACT final answer.
pub open spec fn final_answer_label() -> Seq<char> {
    seq!['F', 'i', 'n', 'a', 'l', ' ', 'A', 'n', 's', 'w', 'e', 'r', ':']
}

/// The thought of a ReACT step: the rest of the line after the first
/// `Thought:`, trimmed.
pub open spec fn react_thought(c: Seq<char>) -> Option<Seq<char>> {
    match find(c, thought_label()) {
        Some(s) => {
            let rest = c.skip(s + 8);
            Some(trim(rest.take(index_of(rest, '\n', 0))))
        },
        None => None,
    }
}

/// The final answer of a ReACT step: everything after the first
/// `Final Answer:`, trimmed.
pub open spec fn final_answer(c: Seq<char>) -> Option<Seq<char>> {
    match find(c, final_answer_label()) {
        Some(s) => Some(trim(c.skip(s + 13))),
        None => None,
    }
}

/// The thought line of a ReACT step, if the reply has one.
pub fn parse_react_thought(content: &str) -> (r: Option<String>)
    ensures
        match r {
            Some(s) => react_thought(content@) == Some(s@),
            None => react_thought(content@) is None,
        },
{
    let v = chars_of(content);
    let label = vec!['T', 'h', 'o', 'u', 'g', 'h', 't', ':'];
    assert(label@ =~= thought_label());
    match find_chars(&v, &label) {
        Some(s) => {
            proof {
                crate::strs::lemma_find_from_facts(v@, label@, 0);
                assert(crate::strs::occurs_at(v@, label@, s as int));
            }
            let n = v.len();
            assert(s + 8 <= n);
            let rest = tail_chars(&v, s + 8);
            let e = index_of_char(&rest, '\n', 0);
            proof {
                crate::strs::lemma_index_of(rest@, '\n', 0);
            }
            let (a, b) = trim_bounds(&rest, 0, e);
            assert(rest@.subrange(0, e as int) =~= rest@.take(e as int));
            Some(string_of(&rest, a, b))
        },
        None => None,
    }
}

/// The final answer of a ReACT step, if the reply gives one.
pub fn parse_final_answer(content: &str) -> (r: Option<String>)
    ensures
        match r {
            Some(s) => final_answer(content@) == Some(s@),
            None => final_answer(content@) is None,
        },
{
    let v = chars_of(content);
    let label = vec!['F', 'i', 'n', 'a', 'l', ' ', 'A', 'n', 's', 'w', 'e', 'r', ':'];
    assert(label@ =~= final_answer_label());
    match find_chars(&v, &label) {
        Some(s) => {
            proof {
                crate::strs::lemma_find_from_facts(v@, label@, 0);
                assert(crate::strs::occurs_at(v@, label@, s as int));
            }
            let n = v.len();
            assert(s + 13 <= n);
            let (a, b) = trim_bounds(&v, s + 13, n);
            assert(v@.subrange(s + 13, v.len() as int) =~= v@.skip(s + 13));
            Some(string_of(&v, a, b))
        },
        None => None,
    }
}

/// What `serde_json` reads from `text` at the top-level string member `key`:
/// `None` where `text` is not a JSON document, `Some(None)` where it is one
/// but holds no string under `key`, and `Some(Some(s))` where it holds `s`.
pub uninterp spec fn json_string_member(text: Seq<char>, key: Seq<char>) -> Option<
    Option<Seq<char>>,
>;

/// The view of an optional optional string.
pub open spec fn opt_opt_view(r: Option<Option<String>>) -> Option<Option<Seq<char>>> {
    match r {
        Some(Some(s)) => Some(Some(s@)),
        Some(None) => Some(None),
        None => None,
    }
}

/// Parses `text` with `serde_json::from_str` into a `serde_json::Value` and
/// reads its string member `key` through `Value::get` and `Value::as_str`.
/// The result is named, not described: it is whatever serde_json gives for
/// these two arguments.
#[verifier::external_body]
fn parse_string_member(text: &str, key: &str) -> (r: Option<Option<String>>)
    ensures
        opt_opt_view(r) == json_string_member(text@, key@),
{
    match serde_json::from_str::<serde_json::Value>(text) {
        Ok(v) => Some(v.get(key).and_then(serde_json::Value::as_str).map(str::to_string)),
        Err(_) => None,
    }
}

/// The tag that opens a tool call.
pub open spec fn tool_call_open() -> Seq<char> {
    seq!['<', 't', 'o', 'o', 'l', '_', 'c', 'a', 'l', 'l', '>']
}

/// The tag that closes a tool call.
pub open spec fn tool_call_close() -> Seq<char> {
    seq!['<', '/', 't', 'o', 'o', 'l', '_', 'c', 'a', 'l', 'l', '>']
}

/// The key under which a tool call names its tool.
pub open spec fn name_key() -> Seq<char> {
    seq!['n', 'a', 'm', 'e']
}

/// The JSON text between the first `<tool_call>` and the next
/// `</tool_call>`, trimmed.
pub open spec fn tool_call_text(c: Seq<char>) -> Option<Seq<char>> {
    match find(c, tool_call_open()) {
        Some(s) => {
            let rest = c.skip(s + 11);
            match find(rest, tool_call_close()) {
                Some(e) => Some(trim(rest.take(e))),
                None => None,
            }
        },
        None => None,
    }
}

/// The action of a ReACT step: the tool's name (empty where the call names
/// none) and the call's JSON text, where the reply holds a tool call whose
/// text is a JSON document.
pub open spec fn react_action(c: Seq<char>) -> Option<(Seq<char>, Seq<char>)> {
    match tool_call_text(c) {
        Some(j) => match json_string_member(j, name_key()) {
            Some(Some(n)) => Some((n, j)),
            Some(None) => Some((Seq::empty(), j)),
            None => None,
        },
        None => None,
    }
}

/// The tool call of a ReACT step, as `(name, call JSON)`.
pub fn parse_react_action(content: &str) -> (r: Option<(String, String)>)
    ensures
        match r {
            Some((n, j)) => react_action(content@) == Some((n@, j@)),
            None => react_action(content@) is None,
        },
{
    let v = chars_of(content);
    let open = vec!['<', 't', 'o', 'o', 'l', '_', 'c', 'a', 'l', 'l', '>'];
    assert(open@ =~= tool_call_open());
    let s = match find_chars(&v, &open) {
        Some(s) => s,
        None => return None,
    };
    proof {
        crate::strs::lemma_find_from_facts(v@, open@, 0);
        assert(crate::strs::occurs_at(v@, open@, s as int));
    }
    let n = v.len();
    assert(s + 11 <= n);
    let rest = tail_chars(&v, s + 11);
    let close = vec!['<', '/', 't', 'o', 'o', 'l', '_', 'c', 'a', 'l', 'l', '>'];
    assert(close@ =~= tool_call_close());
    let e = match find_chars(&rest, &close) {
        Some(e) => e,
        None => return None,
    };
    proof {
        crate::strs::lemma_find_from_facts(rest@, close@, 0);
    }
    let (a, b) = trim_bounds(&rest, 0, e);
    assert(rest@.subrange(0, e as int) =~= rest@.take(e as int));
    let json = string_of(&rest, a, b);
    proof {
        reveal_strlit("name");
    }
    assert("name"@ =~= name_key());
    match parse_string_member(json.as_str(), "name") {
        Some(Some(name)) => Some((name, json)),
        Some(None) => Some((String::new(), json)),
        None => None,
    }
}

/// Why a completion choice stopped, as the chat completion API reports it.
pub enum FinishReason {
    Stop,
    Length,
    ToolCalls,
    ContentFilter,
    FunctionCall,
}

/// What the library reads of one completion choice.
pub struct ChatChoice {
    pub finish_reason: Option<FinishReason>,
    pub content: Option<String>,
}

/// The outcome of reading the first completion choice.
pub open spec fn choice_content(choices: Seq<ChatChoice>) -> Result<Seq<char>, Seq<char>> {
    if choices.len() == 0 {
        Err("No choices in response"@)
    } else if choices[0].finish_reason == Some(FinishReason::Length) {
        Err("Response was truncated due to max tokens"@)
    } else {
        match choices[0].content {
            Some(c) => Ok(c@),
            None => Err("No content in response"@),
        }
    }
}

/// The text of the first completion choice; an API error where there is no
/// choice, where the answer was cut at the token limit, or where it has no
/// content.
pub fn extract_choice_content(choices: &Vec<ChatChoice>) -> (r: Result<String, LlmError>)
    ensures
        match choice_content(choices@) {
            Ok(c) => r matches Ok(s) && s@ == c,
            Err(m) => r matches Err(LlmError::Api(s)) && s@ == m,
        },
{
    if choices.len() == 0 {
        return Err(LlmError::Api(crate::strs::owned("No choices in response")));
    }
    let choice = &choices[0];
    if let Some(FinishReason::Length) = &choice.finish_reason {
        return Err(LlmError::Api(crate::strs::owned("Response was truncated due to max tokens")));
    }
    match &choice.content {
        Some(c) => Ok(c.clone()),
        None => Err(LlmError::Api(crate::strs::owned("No content in response"))),
    }
}

} // verus!
