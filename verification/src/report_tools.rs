//! The report agent's tools: how a query is broken up, and how what the
//! graph search found is put together into a tool result.
use vstd::prelude::*;

use crate::graph::SearchHit;
use crate::strs::{is_whitespace, is_ws, join, join_strings, owned, push_str, string_of, views, chars_of};

verus! {

/// A tool's result.
#[derive(Debug, Clone)]
pub struct ToolResult {
    pub tool_name: String,
    pub query: String,
    pub content: String,
    pub entities: Vec<String>,
    pub facts: Vec<String>,
}

/// The first index at or after `i` that holds no whitespace, or the end.
pub open spec fn skip_ws(s: Seq<char>, i: int) -> int
    decreases s.len() - i,
{
    if i < 0 || i >= s.len() {
        s.len() as int
    } else if is_ws(s[i]) {
        skip_ws(s, i + 1)
    } else {
        i
    }
}

/// The first index at or after `i` that holds whitespace, or the end.
pub open spec fn word_end(s: Seq<char>, i: int) -> int
    decreases s.len() - i,
{
    if i < 0 || i >= s.len() {
        s.len() as int
    } else if is_ws(s[i]) {
        i
    } else {
        word_end(s, i + 1)
    }
}

pub proof fn lemma_skip_ws(s: Seq<char>, i: int)
    requires
        0 <= i <= s.len(),
    ensures
        i <= skip_ws(s, i) <= s.len(),
        skip_ws(s, i) < s.len() ==> !is_ws(s[skip_ws(s, i)]),
    decreases s.len() - i,
{
    if i < s.len() && is_ws(s[i]) {
        lemma_skip_ws(s, i + 1);
    }
}

pub proof fn lemma_word_end(s: Seq<char>, i: int)
    requires
        0 <= i <= s.len(),
    ensures
        i <= word_end(s, i) <= s.len(),
        i < s.len() && !is_ws(s[i]) ==> i < word_end(s, i),
    decreases s.len() - i,
{
    if i < s.len() && !is_ws(s[i]) {
        lemma_word_end(s, i + 1);
    }
}

#[via_fn]
proof fn words_from_decreases(s: Seq<char>, i: int) {
    if 0 <= i <= s.len() {
        lemma_skip_ws(s, i);
        let a = skip_ws(s, i);
        if a < s.len() {
            lemma_word_end(s, a);
        }
    }
}

/// The words of `s[i..]`, as `str::split_whitespace` gives them.
pub open spec fn words_from(s: Seq<char>, i: int) -> Seq<Seq<char>>
    decreases s.len() - i,
    via words_from_decreases
{
    if i < 0 || i > s.len() {
        Seq::empty()
    } else {
        let a = skip_ws(s, i);
        if a >= s.len() {
            Seq::empty()
        } else {
            let b = word_end(s, a);
            seq![s.subrange(a, b)] + words_from(s, b)
        }
    }
}

/// The words of `s`.
pub open spec fn words(s: Seq<char>) -> Seq<Seq<char>> {
    words_from(s, 0)
}

/// The words of a text, in order.
pub fn split_whitespace(text: &str) -> (r: Vec<String>)
    ensures
        views(r@) == words(text@),
{
    let v = chars_of(text);
    let n = v.len();
    let mut out: Vec<String> = Vec::new();
    let mut i: usize = 0;
    while i < n
        invariant
            n == v@.len(),
            v@ == text@,
            i <= n,
            views(out@) + words_from(v@, i as int) == words(v@),
        decreases n - i,
    {
        let mut a = i;
        while a < n && is_whitespace(v[a])
            invariant
                i <= a <= n,
                n == v@.len(),
                skip_ws(v@, i as int) == skip_ws(v@, a as int),
            decreases n - a,
        {
            a = a + 1;
        }
        proof {
            lemma_skip_ws(v@, a as int);
        }
        if a >= n {
            assert(words_from(v@, i as int) =~= Seq::<Seq<char>>::empty());
            assert(words_from(v@, n as int) =~= Seq::<Seq<char>>::empty());
            i = n;
        } else {
            let mut b = a;
            while b < n && !is_whitespace(v[b])
                invariant
                    a <= b <= n,
                    n == v@.len(),
                    word_end(v@, a as int) == word_end(v@, b as int),
                decreases n - b,
            {
                b = b + 1;
            }
            proof {
                lemma_word_end(v@, a as int);
            }
            let w = string_of(&v, a, b);
            let ghost o0 = views(out@);
            out.push(w);
            assert(views(out@) =~= o0.push(w@));
            assert(views(out@) + words_from(v@, b as int) =~= o0 + words_from(v@, i as int));
            i = b;
        }
    }
    assert(words_from(v@, n as int) =~= Seq::<Seq<char>>::empty());
    assert(views(out@) =~= views(out@) + words_from(v@, i as int));
    out
}

/// The sub-queries of a query: the query itself, and where it has more
/// than three words, the first half of its words and the rest, each joined
/// by single spaces.
pub open spec fn sub_queries(query: Seq<char>) -> Seq<Seq<char>> {
    let w = words(query);
    if w.len() > 3 {
        let h = w.len() / 2;
        seq![query, join(w.take(h as int), " "@), join(w.skip(h as int), " "@)]
    } else {
        seq![query]
    }
}

fn join_range(w: &Vec<String>, lo: usize, hi: usize) -> (r: String)
    requires
        lo <= hi <= w@.len(),
    ensures
        r@ == join(views(w@).subrange(lo as int, hi as int), " "@),
{
    let mut part: Vec<String> = Vec::new();
    let mut i = lo;
    while i < hi
        invariant
            lo <= i <= hi <= w@.len(),
            views(part@) == views(w@).subrange(lo as int, i as int),
        decreases hi - i,
    {
        let ghost p0 = views(part@);
        part.push(w[i].clone());
        assert(views(part@) =~= p0.push(w@[i as int]@));
        assert(views(w@).subrange(lo as int, i + 1) =~= views(w@).subrange(lo as int, i as int).push(w@[i as int]@));
        i = i + 1;
    }
    join_strings(&part, " ")
}

/// Breaks a query into sub-queries for a broader search.
pub fn decompose_query(query: &str) -> (r: Vec<String>)
    ensures
        views(r@) == sub_queries(query@),
{
    let words = split_whitespace(query);
    let mut out: Vec<String> = Vec::new();
    out.push(owned(query));
    let n = words.len();
    if n > 3 {
        let h = n / 2;
        let first = join_range(&words, 0, h);
        let second = join_range(&words, h, n);
        out.push(first);
        out.push(second);
        assert(views(words@).subrange(0, h as int) =~= views(words@).take(h as int));
        assert(views(words@).subrange(h as int, n as int) =~= views(words@).skip(h as int));
    }
    assert(views(out@) =~= sub_queries(query@));
    out
}

/// `s` with each run of equal neighbours kept once (`Vec::dedup`).
pub open spec fn dedup(s: Seq<Seq<char>>) -> Seq<Seq<char>>
    decreases s.len(),
{
    if s.len() == 0 {
        s
    } else if s.len() >= 2 && s.last() == s[s.len() - 2] {
        dedup(s.drop_last())
    } else {
        dedup(s.drop_last()).push(s.last())
    }
}

/// No two neighbours are equal.
pub open spec fn no_adjacent_repeats(s: Seq<Seq<char>>) -> bool {
    forall|i: int| 0 <= i < s.len() - 1 ==> #[trigger] s[i] != s[i + 1]
}

/// The last element of `dedup(s)` is that of `s`, and no two of its
/// neighbours are equal.
pub proof fn lemma_dedup(s: Seq<Seq<char>>)
    ensures
        s.len() > 0 ==> dedup(s).len() > 0 && dedup(s).last() == s.last(),
        dedup(s).len() <= s.len(),
        no_adjacent_repeats(dedup(s)),
    decreases s.len(),
{
    if s.len() > 0 {
        lemma_dedup(s.drop_last());
        if s.len() >= 2 {
            assert(s.drop_last().last() == s[s.len() - 2]);
        }
        let d = dedup(s.drop_last());
        if !(s.len() >= 2 && s.last() == s[s.len() - 2]) {
            let e = d.push(s.last());
            assert forall|i: int| 0 <= i < e.len() - 1 implies #[trigger] e[i] != e[i + 1] by {
                if i < d.len() - 1 {
                    assert(e[i] == d[i] && e[i + 1] == d[i + 1]);
                }
            }
        }
    }
}

/// Removes consecutive repeats from a list of strings.
pub fn dedup_strings(v: Vec<String>) -> (r: Vec<String>)
    ensures
        views(r@) == dedup(views(v@)),
{
    let mut out: Vec<String> = Vec::new();
    let mut i: usize = 0;
    let ghost vv = views(v@);
    while i < v.len()
        invariant
            i <= v@.len(),
            vv == views(v@),
            views(out@) == dedup(vv.take(i as int)),
            i > 0 ==> out@.len() > 0 && out@.last()@ == vv[i - 1],
        decreases v.len() - i,
    {
        proof {
            lemma_dedup(vv.take(i as int));
            assert(vv.take(i + 1).drop_last() =~= vv.take(i as int));
        }
        let repeat = i > 0 && crate::strs::str_eq(v[i].as_str(), out[out.len() - 1].as_str());
        if !repeat {
            let ghost o0 = views(out@);
            out.push(v[i].clone());
            assert(views(out@) =~= o0.push(vv[i as int]));
        }
        i = i + 1;
    }
    assert(vv.take(i as int) =~= vv);
    out
}

/// The names of the entities the hits found, in order.
pub open spec fn hit_entities(hits: Seq<SearchHit>) -> Seq<Seq<char>>
    decreases hits.len(),
{
    if hits.len() == 0 {
        Seq::empty()
    } else {
        hit_entities(hits.drop_last()) + match hits.last().entity {
            Some(e) => seq![e.name@],
            None => Seq::empty(),
        }
    }
}

/// The facts the hits found, in order.
pub open spec fn hit_facts(hits: Seq<SearchHit>) -> Seq<Seq<char>>
    decreases hits.len(),
{
    if hits.len() == 0 {
        Seq::empty()
    } else {
        hit_facts(hits.drop_last()) + match hits.last().facts {
            Some(f) => views(f@),
            None => Seq::empty(),
        }
    }
}

fn gather(hits: &Vec<SearchHit>) -> (r: (Vec<String>, Vec<String>))
    ensures
        views(r.0@) == hit_entities(hits@),
        views(r.1@) == hit_facts(hits@),
{
    let mut entities: Vec<String> = Vec::new();
    let mut facts: Vec<String> = Vec::new();
    let mut i: usize = 0;
    while i < hits.len()
        invariant
            i <= hits@.len(),
            views(entities@) == hit_entities(hits@.take(i as int)),
            views(facts@) == hit_facts(hits@.take(i as int)),
        decreases hits.len() - i,
    {
        assert(hits@.take(i + 1).drop_last() =~= hits@.take(i as int));
        let h = &hits[i];
        if let Some(e) = &h.entity {
            let ghost e0 = views(entities@);
            entities.push(e.name.clone());
            assert(views(entities@) =~= e0 + seq![e.name@]);
        } else {
            assert(views(entities@) =~= views(entities@) + Seq::<Seq<char>>::empty());
        }
        if let Some(f) = &h.facts {
            let mut j: usize = 0;
            let ghost f0 = views(facts@);
            while j < f.len()
                invariant
                    j <= f@.len(),
                    views(facts@) == f0 + views(f@).take(j as int),
                decreases f.len() - j,
            {
                let ghost g = views(facts@);
                facts.push(f[j].clone());
                assert(views(facts@) =~= g.push(f@[j as int]@));
                assert(views(f@).take(j + 1) =~= views(f@).take(j as int).push(f@[j as int]@));
                j = j + 1;
            }
            assert(views(f@).take(j as int) =~= views(f@));
        } else {
            assert(views(facts@) =~= views(facts@) + Seq::<Seq<char>>::empty());
        }
        i = i + 1;
    }
    assert(hits@.take(i as int) =~= hits@);
    (entities, facts)
}

/// `<Tool> Results for '<query>':\n\nEntities found: <entities>\nFacts: <facts>`
pub open spec fn insight_content(query: Seq<char>, es: Seq<Seq<char>>, fs: Seq<Seq<char>>) -> Seq<
    char,
> {
    "InsightForge Results for '"@ + query + "':\n\nEntities found: "@ + join(es, ", "@)
        + "\nFacts: "@ + join(fs, "\n"@)
}

pub open spec fn panorama_content(query: Seq<char>, es: Seq<Seq<char>>, fs: Seq<Seq<char>>) -> Seq<
    char,
> {
    "PanoramaSearch Results for '"@ + query + "':\n\nEntities: "@ + join(es, ", "@) + "\nFacts: "@
        + join(fs, "\n"@)
}

pub open spec fn quick_content(query: Seq<char>, fs: Seq<Seq<char>>) -> Seq<char> {
    "QuickSearch Results for '"@ + query + "':\n"@ + join(fs, "\n"@)
}

/// The InsightForge result for `query` from the hits of its sub-queries:
/// entities and facts in order, consecutive repeats removed.
pub fn insight_forge_result(query: &str, hits: &Vec<SearchHit>) -> (r: ToolResult)
    ensures
        r.tool_name@ == "InsightForge"@,
        r.query@ == query@,
        views(r.entities@) == dedup(hit_entities(hits@)),
        views(r.facts@) == dedup(hit_facts(hits@)),
        r.content@ == insight_content(query@, views(r.entities@), views(r.facts@)),
{
    let (es, fs) = gather(hits);
    let entities = dedup_strings(es);
    let facts = dedup_strings(fs);
    let mut content = owned("InsightForge Results for '");
    push_str(&mut content, query);
    push_str(&mut content, "':\n\nEntities found: ");
    push_str(&mut content, join_strings(&entities, ", ").as_str());
    push_str(&mut content, "\nFacts: ");
    push_str(&mut content, join_strings(&facts, "\n").as_str());
    ToolResult { tool_name: owned("InsightForge"), query: owned(query), content, entities, facts }
}

/// The PanoramaSearch result for `query` from its hits: entities and facts
/// in order, consecutive repeats removed.
pub fn panorama_result(query: &str, hits: &Vec<SearchHit>) -> (r: ToolResult)
    ensures
        r.tool_name@ == "PanoramaSearch"@,
        r.query@ == query@,
        views(r.entities@) == dedup(hit_entities(hits@)),
        views(r.facts@) == dedup(hit_facts(hits@)),
        r.content@ == panorama_content(query@, views(r.entities@), views(r.facts@)),
{
    let (es, fs) = gather(hits);
    let entities = dedup_strings(es);
    let facts = dedup_strings(fs);
    let mut content = owned("PanoramaSearch Results for '");
    push_str(&mut content, query);
    push_str(&mut content, "':\n\nEntities: ");
    push_str(&mut content, join_strings(&entities, ", ").as_str());
    push_str(&mut content, "\nFacts: ");
    push_str(&mut content, join_strings(&facts, "\n").as_str());
    ToolResult { tool_name: owned("PanoramaSearch"), query: owned(query), content, entities, facts }
}

/// The QuickSearch result for `query` from its hits: entities and facts in
/// order, repeats kept; the content lists the facts.
pub fn quick_result(query: &str, hits: &Vec<SearchHit>) -> (r: ToolResult)
    ensures
        r.tool_name@ == "QuickSearch"@,
        r.query@ == query@,
        views(r.entities@) == hit_entities(hits@),
        views(r.facts@) == hit_facts(hits@),
        r.content@ == quick_content(query@, views(r.facts@)),
{
    let (entities, facts) = gather(hits);
    let mut content = owned("QuickSearch Results for '");
    push_str(&mut content, query);
    push_str(&mut content, "':\n");
    push_str(&mut content, join_strings(&facts, "\n").as_str());
    ToolResult { tool_name: owned("QuickSearch"), query: owned(query), content, entities, facts }
}

/// The system prompt of an interview with `agent_name`.
pub open spec fn interview_tool_prompt(agent_name: Seq<char>, agent_context: Seq<char>) -> Seq<char> {
    "You are "@ + agent_name
        + ". Answer the question based on your simulated experiences and beliefs.\n\nContext: "@
        + agent_context
}

/// The system prompt for interviewing `agent_name`.
pub fn interview_system_prompt(agent_name: &str, agent_context: &str) -> (r: String)
    ensures
        r@ == interview_tool_prompt(agent_name@, agent_context@),
{
    let mut s = owned("You are ");
    push_str(&mut s, agent_name);
    push_str(&mut s, ". Answer the question based on your simulated experiences and beliefs.\n\nContext: ");
    push_str(&mut s, agent_context);
    s
}

/// The InterviewAgents result: the exchange as content, the agent as the
/// one entity and its answer as the one fact.
pub fn interview_result(agent_name: &str, question: &str, response: String) -> (r: ToolResult)
    ensures
        r.tool_name@ == "InterviewAgents"@,
        r.query@ == agent_name@ + ": "@ + question@,
        r.content@ == "Interview with "@ + agent_name@ + ":\nQ: "@ + question@ + "\nA: "@ + response@,
        views(r.entities@) == seq![agent_name@],
        views(r.facts@) == seq![response@],
{
    let mut content = owned("Interview with ");
    push_str(&mut content, agent_name);
    push_str(&mut content, ":\nQ: ");
    push_str(&mut content, question);
    push_str(&mut content, "\nA: ");
    push_str(&mut content, response.as_str());
    let mut q = owned(agent_name);
    push_str(&mut q, ": ");
    push_str(&mut q, question);
    let entities = vec![owned(agent_name)];
    let facts = vec![response];
    assert(views(entities@) =~= seq![agent_name@]);
    assert(views(facts@) =~= seq![facts@[0]@]);
    ToolResult { tool_name: owned("InterviewAgents"), query: q, content, entities, facts }
}

} // verus!
