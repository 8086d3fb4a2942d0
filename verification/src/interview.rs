//! Interviews with agents after a simulation: sessions, their summaries,
//! the agent's best posts and the prompts the interview is held with.
use std::collections::hash_map::Entry;
use std::collections::HashMap;
use vstd::prelude::*;

use crate::actions::{ActionRecord, Comment, Post};
use crate::report::ChatMessage;
use crate::simulation::AgentProfile;
use crate::strs::{decimal, decimal_string, join, join_strings, owned, push_str, views};

verus! {

/// An interview session with one agent.
pub struct InterviewSession {
    pub agent_id: usize,
    pub agent_profile: AgentProfile,
    pub chat_history: Vec<ChatMessage>,
    pub agent_actions: Vec<ActionRecord>,
    pub agent_posts: Vec<Post>,
    pub agent_comments: Vec<Comment>,
}

/// `Agent <name> (@<username>) performed <n> actions: <p> posts, <c> comments.`
pub open spec fn activity_summary_of(
    name: Seq<char>,
    username: Seq<char>,
    actions: nat,
    posts: nat,
    comments: nat,
) -> Seq<char> {
    "Agent "@ + name + " (@"@ + username + ") performed "@ + decimal(actions) + " actions: "@
        + decimal(posts) + " posts, "@ + decimal(comments) + " comments."@
}

/// A post's engagement: its likes and comments.
pub open spec fn engagement(p: Post) -> int {
    p.likes + p.comments@.len()
}

/// Post `i` ranks before post `j`: more engagement, or as much and earlier.
pub open spec fn ranks_before(ps: Seq<Post>, i: int, j: int) -> bool {
    engagement(ps[i]) > engagement(ps[j]) || (engagement(ps[i]) == engagement(ps[j]) && i < j)
}

/// `order` lists the indices of all of `ps` from the most engaged down,
/// equally engaged posts in their original order.
pub open spec fn ranked(ps: Seq<Post>, order: Seq<int>) -> bool {
    &&& order.len() == ps.len()
    &&& forall|a: int| 0 <= a < order.len() ==> 0 <= #[trigger] order[a] < ps.len()
    &&& forall|a: int, b: int|
        0 <= a < b < order.len() ==> ranks_before(ps, #[trigger] order[a], #[trigger] order[b])
}

/// Every post's engagement fits in a `usize`.
pub open spec fn engagement_fits(ps: Seq<Post>) -> bool {
    forall|i: int| 0 <= i < ps.len() ==> engagement(#[trigger] ps[i]) <= usize::MAX
}

impl InterviewSession {
    /// A session with no chat yet.
    pub fn new(
        agent_id: usize,
        agent_profile: AgentProfile,
        actions: Vec<ActionRecord>,
        posts: Vec<Post>,
        comments: Vec<Comment>,
    ) -> (r: Self)
        ensures
            r.agent_id == agent_id,
            r.agent_profile == agent_profile,
            r.chat_history@.len() == 0,
            r.agent_actions == actions,
            r.agent_posts == posts,
            r.agent_comments == comments,
    {
        InterviewSession {
            agent_id,
            agent_profile,
            chat_history: Vec::new(),
            agent_actions: actions,
            agent_posts: posts,
            agent_comments: comments,
        }
    }

    /// A one-line summary of the agent's activity.
    pub fn activity_summary(&self) -> (r: String)
        ensures
            r@ == activity_summary_of(
                self.agent_profile.name@,
                self.agent_profile.username@,
                self.agent_actions@.len(),
                self.agent_posts@.len(),
                self.agent_comments@.len(),
            ),
    {
        let mut s = owned("Agent ");
        push_str(&mut s, self.agent_profile.name.as_str());
        push_str(&mut s, " (@");
        push_str(&mut s, self.agent_profile.username.as_str());
        push_str(&mut s, ") performed ");
        push_str(&mut s, decimal_string(self.agent_actions.len() as u64).as_str());
        push_str(&mut s, " actions: ");
        push_str(&mut s, decimal_string(self.agent_posts.len() as u64).as_str());
        push_str(&mut s, " posts, ");
        push_str(&mut s, decimal_string(self.agent_comments.len() as u64).as_str());
        push_str(&mut s, " comments.");
        s
    }

    fn engagement_at(&self, i: usize) -> (r: usize)
        requires
            i < self.agent_posts@.len(),
            engagement_fits(self.agent_posts@),
        ensures
            r == engagement(self.agent_posts@[i as int]),
    {
        self.agent_posts[i].likes + self.agent_posts[i].comments.len()
    }

    /// The indices of the agent's posts, from the most engaged down.
    pub fn ranked_post_indices(&self) -> (r: Vec<usize>)
        requires
            engagement_fits(self.agent_posts@),
        ensures
            ranked(self.agent_posts@, r@.map_values(|i: usize| i as int)),
    {
        let ghost ps = self.agent_posts@;
        let n = self.agent_posts.len();
        let mut order: Vec<usize> = Vec::new();
        let mut i: usize = 0;
        while i < n
            invariant
                n == ps.len(),
                ps == self.agent_posts@,
                engagement_fits(ps),
                i <= n,
                order@.len() == i,
                forall|a: int| 0 <= a < order@.len() ==> #[trigger] order@[a] < i,
                forall|a: int, b: int|
                    0 <= a < b < order@.len() ==> ranks_before(
                        ps,
                        #[trigger] order@[a] as int,
                        #[trigger] order@[b] as int,
                    ),
            decreases n - i,
        {
            let si = self.engagement_at(i);
            let mut pos: usize = 0;
            while pos < order.len() && self.engagement_at(order[pos]) >= si
                invariant
                    n == ps.len(),
                    ps == self.agent_posts@,
                    engagement_fits(ps),
                    i < n,
                    si == engagement(ps[i as int]),
                    pos <= order@.len(),
                    forall|a: int| 0 <= a < order@.len() ==> #[trigger] order@[a] < i,
                    forall|a: int| 0 <= a < pos ==> engagement(ps[#[trigger] order@[a] as int]) >= si,
                decreases order@.len() - pos,
            {
                pos = pos + 1;
            }
            let ghost o0 = order@;
            order.insert(pos, i);
            proof {
                assert forall|a: int, b: int|
                    0 <= a < b < order@.len() implies ranks_before(
                    ps,
                    #[trigger] order@[a] as int,
                    #[trigger] order@[b] as int,
                ) by {
                    if b < pos {
                        assert(order@[a] == o0[a] && order@[b] == o0[b]);
                    } else if b == pos {
                        assert(order@[a] == o0[a]);
                    } else if a == pos {
                        assert(order@[b] == o0[b - 1]);
                        if b - 1 == pos {
                        }
                        assert(engagement(ps[o0[pos as int] as int]) < si || pos == o0.len());
                    } else if a < pos {
                        assert(order@[a] == o0[a] && order@[b] == o0[b - 1]);
                    } else {
                        assert(order@[a] == o0[a - 1] && order@[b] == o0[b - 1]);
                    }
                }
            }
            i = i + 1;
        }
        assert(order@.map_values(|i: usize| i as int).len() == n);
        order
    }
}

impl InterviewSession {
    /// The agent's `limit` most engaged posts, from the most engaged down;
    /// equally engaged posts keep their order.
    pub fn top_posts(&self, limit: usize) -> (r: Vec<&Post>)
        requires
            engagement_fits(self.agent_posts@),
        ensures
            exists|order: Seq<int>|
                #[trigger] ranked(self.agent_posts@, order) && r@.len() == (if limit
                    < order.len() {
                    limit as int
                } else {
                    order.len() as int
                }) && forall|a: int| 0 <= a < r@.len() ==> *r@[a] == self.agent_posts@[order[a]],
    {
        let order = self.ranked_post_indices();
        let ghost ord = order@.map_values(|i: usize| i as int);
        let k = if limit < order.len() {
            limit
        } else {
            order.len()
        };
        let mut r: Vec<&Post> = Vec::new();
        let mut a: usize = 0;
        while a < k
            invariant
                k <= order@.len(),
                ord == order@.map_values(|i: usize| i as int),
                ranked(self.agent_posts@, ord),
                a <= k,
                r@.len() == a,
                forall|b: int| 0 <= b < a ==> *r@[b] == self.agent_posts@[ord[b]],
            decreases k - a,
        {
            assert(ord[a as int] == order@[a as int] as int);
            r.push(&self.agent_posts[order[a]]);
            a = a + 1;
        }
        r
    }
}

/// Interview sessions, keyed by the agent they are with.
pub struct InterviewManager {
    sessions: HashMap<usize, InterviewSession>,
}

impl InterviewManager {
    /// The sessions, by agent id.
    pub closed spec fn sessions(self) -> Map<usize, InterviewSession> {
        self.sessions@
    }

    /// The session kept under agent `agent_id`.
    pub open spec fn session(self, agent_id: usize) -> Option<InterviewSession> {
        if self.sessions().contains_key(agent_id) {
            Some(self.sessions()[agent_id])
        } else {
            None
        }
    }

    /// No sessions.
    pub fn new() -> (r: Self)
        ensures
            r.sessions() == Map::<usize, InterviewSession>::empty(),
    {
        InterviewManager { sessions: HashMap::new() }
    }

    /// The session with agent `agent_id`, to change in place. What the
    /// caller leaves in it is kept under that agent.
    pub fn get_session_mut(&mut self, agent_id: usize) -> (r: Option<&mut InterviewSession>)
        ensures
            r is Some <==> old(self).session(agent_id) is Some,
            r is Some ==> *(r->0) == old(self).session(agent_id)->0 && final(self).sessions()
                == old(self).sessions().insert(agent_id, *final(r->0)),
            r is None ==> final(self).sessions() == old(self).sessions(),
    {
        broadcast use vstd::std_specs::hash::group_hash_axioms;

        if self.sessions.contains_key(&agent_id) {
            match self.sessions.entry(agent_id) {
                Entry::Occupied(o) => Some(o.into_mut()),
                Entry::Vacant(v) => {
                    let _ = v.into_key();
                    None
                },
            }
        } else {
            None
        }
    }

    /// Opens a session with an agent, in place of an earlier one with the
    /// same agent.
    pub fn create_session(
        &mut self,
        agent_id: usize,
        profile: AgentProfile,
        actions: Vec<ActionRecord>,
        posts: Vec<Post>,
        comments: Vec<Comment>,
    )
        ensures
            final(self).sessions().dom() == old(self).sessions().dom().insert(agent_id),
            final(self).session(agent_id) matches Some(s) && s.agent_id == agent_id
                && s.agent_profile == profile && s.chat_history@.len() == 0 && s.agent_actions
                == actions && s.agent_posts == posts && s.agent_comments == comments,
            forall|id: usize| id != agent_id ==> final(self).session(id) == old(self).session(id),
    {
        broadcast use vstd::std_specs::hash::group_hash_axioms;

        let session = InterviewSession::new(agent_id, profile, actions, posts, comments);
        self.sessions.insert(agent_id, session);
    }

    /// The session with agent `agent_id`, if there is one.
    pub fn get_session(&self, agent_id: usize) -> (r: Option<&InterviewSession>)
        ensures
            match self.session(agent_id) {
                Some(s) => r == Some(&s),
                None => r is None,
            },
    {
        broadcast use vstd::std_specs::hash::group_hash_axioms;

        self.sessions.get(&agent_id)
    }

    /// The agents that can be interviewed, as (id, name, username), each
    /// once, in the order the map is walked.
    pub fn list_agents(&self) -> (r: Vec<(usize, &str, &str)>)
        ensures
            r@.len() == self.sessions().dom().len(),
            forall|i: int|
                0 <= i < r@.len() ==> self.sessions().contains_key((#[trigger] r@[i]).0)
                    && r@[i].1@ == self.sessions()[r@[i].0].agent_profile.name@ && r@[i].2@
                    == self.sessions()[r@[i].0].agent_profile.username@,
            forall|i: int, j: int|
                0 <= i < j < r@.len() ==> (#[trigger] r@[i]).0 != (#[trigger] r@[j]).0,
            forall|k: usize|
                #[trigger] self.sessions().contains_key(k) ==> exists|i: int|
                    0 <= i < r@.len() && (#[trigger] r@[i]).0 == k,
    {
        broadcast use vstd::std_specs::hash::group_hash_axioms;

        let mut r: Vec<(usize, &str, &str)> = Vec::new();
        let ghost m = self.sessions@;
        for (id, s) in it: self.sessions.iter()
            invariant
                m == self.sessions@,
                it.seq().no_duplicates(),
                forall|j: int|
                    0 <= j < it.seq().len() ==> m.contains_key(*(#[trigger] it.seq()[j]).0)
                        && m[*it.seq()[j].0] == *it.seq()[j].1,
                forall|k: usize|
                    #[trigger] m.contains_key(k) ==> exists|j: int|
                        0 <= j < it.seq().len() && *(#[trigger] it.seq()[j]).0 == k,
                r@.len() == it.index(),
                forall|j: int|
                    0 <= j < r@.len() ==> (#[trigger] r@[j]).0 == *it.seq()[j].0 && r@[j].1@
                        == it.seq()[j].1.agent_profile.name@ && r@[j].2@
                        == it.seq()[j].1.agent_profile.username@,
                forall|i: int, j: int|
                    0 <= i < j < r@.len() ==> (#[trigger] r@[i]).0 != (#[trigger] r@[j]).0,
                forall|k: usize|
                    #[trigger] m.contains_key(k) ==> (exists|j: int|
                        0 <= j < r@.len() && (#[trigger] r@[j]).0 == k) || (exists|j: int|
                        r@.len() <= j < it.seq().len() && *(#[trigger] it.seq()[j]).0 == k),
        {
            proof {
                let v = it.seq();
                let n = r@.len() as int;
                assert forall|i: int| 0 <= i < n implies *v[i].0 != *v[n].0 by {
                    if *v[i].0 == *v[n].0 {
                        assert(v[i] == v[n]);
                    }
                }
            }
            let ghost r0 = r@;
            r.push((*id, s.agent_profile.name.as_str(), s.agent_profile.username.as_str()));
            proof {
                let v = it.seq();
                assert forall|k: usize| #[trigger] m.contains_key(k) implies (exists|j: int|
                    0 <= j < r@.len() && (#[trigger] r@[j]).0 == k) || (exists|j: int|
                    r@.len() <= j < v.len() && *(#[trigger] v[j]).0 == k) by {
                    if exists|j: int| 0 <= j < r0.len() && (#[trigger] r0[j]).0 == k {
                        let j = choose|j: int| 0 <= j < r0.len() && (#[trigger] r0[j]).0 == k;
                        assert(r@[j] == r0[j]);
                    } else {
                        let j = choose|j: int| r0.len() <= j < v.len() && *(#[trigger] v[j]).0 == k;
                        if j == r0.len() {
                            assert(r@[j].0 == k);
                        }
                    }
                }
            }
        }
        r
    }
}

/// A character as it appears inside a quoted, escaped string.
pub open spec fn escape_char(c: char) -> Seq<char> {
    if c == '\\' {
        seq!['\\', '\\']
    } else if c == '"' {
        seq!['\\', '"']
    } else if c == '\n' {
        seq!['\\', 'n']
    } else if c == '\r' {
        seq!['\\', 'r']
    } else if c == '\t' {
        seq!['\\', 't']
    } else if c == '\0' {
        seq!['\\', '0']
    } else {
        seq![c]
    }
}

/// `s` with each character escaped.
pub open spec fn escaped(s: Seq<char>) -> Seq<char>
    decreases s.len(),
{
    if s.len() == 0 {
        Seq::empty()
    } else {
        escaped(s.drop_last()) + escape_char(s.last())
    }
}

/// `s` quoted and escaped, as a string is shown in a table.
pub open spec fn quoted_str(s: Seq<char>) -> Seq<char> {
    "\""@ + escaped(s) + "\""@
}

/// A table of traits, shown as `{"key": "value", ...}` in its order.
pub open spec fn table_text(pairs: Seq<(String, String)>) -> Seq<char> {
    "{"@ + join(
        Seq::new(pairs.len(), |i: int| quoted_str(pairs[i].0@) + ": "@ + quoted_str(pairs[i].1@)),
        ", "@,
    ) + "}"@
}

fn push_escaped(out: &mut String, s: &str)
    ensures
        final(out)@ == old(out)@ + escaped(s@),
{
    let v = crate::strs::chars_of(s);
    let mut i: usize = 0;
    while i < v.len()
        invariant
            i <= v@.len(),
            v@ == s@,
            out@ == old(out)@ + escaped(v@.take(i as int)),
        decreases v.len() - i,
    {
        let c = v[i];
        assert(v@.take(i + 1).drop_last() =~= v@.take(i as int));
        if c == '\\' {
            push_str(out, "\\\\");
            proof { reveal_strlit("\\\\"); }
        } else if c == '"' {
            push_str(out, "\\\"");
            proof { reveal_strlit("\\\""); }
        } else if c == '\n' {
            push_str(out, "\\n");
            proof { reveal_strlit("\\n"); }
        } else if c == '\r' {
            push_str(out, "\\r");
            proof { reveal_strlit("\\r"); }
        } else if c == '\t' {
            push_str(out, "\\t");
            proof { reveal_strlit("\\t"); }
        } else if c == '\0' {
            push_str(out, "\\0");
            proof { reveal_strlit("\\0"); }
        } else {
            crate::strs::push_char(out, c);
        }
        assert(out@ =~= old(out)@ + escaped(v@.take(i + 1)));
        i = i + 1;
    }
    assert(v@.take(i as int) =~= s@);
}

/// A table of traits as text.
pub fn table_string(pairs: &Vec<(String, String)>) -> (r: String)
    ensures
        r@ == table_text(pairs@),
{
    let ghost parts = Seq::new(
        pairs@.len(),
        |i: int| quoted_str(pairs@[i].0@) + ": "@ + quoted_str(pairs@[i].1@),
    );
    let mut items: Vec<String> = Vec::new();
    let mut i: usize = 0;
    while i < pairs.len()
        invariant
            i <= pairs@.len(),
            parts == Seq::new(
                pairs@.len(),
                |i: int| quoted_str(pairs@[i].0@) + ": "@ + quoted_str(pairs@[i].1@),
            ),
            views(items@) == parts.take(i as int),
        decreases pairs.len() - i,
    {
        let mut item = owned("\"");
        push_escaped(&mut item, pairs[i].0.as_str());
        push_str(&mut item, "\": \"");
        push_escaped(&mut item, pairs[i].1.as_str());
        push_str(&mut item, "\"");
        proof {
            reveal_strlit("\"");
            reveal_strlit("\": \"");
            reveal_strlit(": ");
        }
        assert(item@ =~= parts[i as int]);
        let ghost it0 = items@;
        items.push(item);
        assert(views(items@) =~= views(it0).push(item@));
        assert(views(items@) =~= parts.take(i + 1));
        i = i + 1;
    }
    assert(parts.take(i as int) =~= parts);
    let mut r = owned("{");
    push_str(&mut r, join_strings(&items, ", ").as_str());
    push_str(&mut r, "}");
    r
}

/// The system prompt of an interview: the agent's persona and a summary
/// of its activity.
pub open spec fn interview_system_prompt(s: InterviewSession) -> Seq<char> {
    let p = s.agent_profile;
    "You are roleplaying as "@ + p.name@ + ". \nUsername: @"@ + p.username@ + "\nBio: "@ + p.bio@
        + "\nPersonality: "@ + table_text(p.persona.personality_traits@) + "\nInterests: "@ + join(
        views(p.persona.interests@),
        ", "@,
    ) + "\nCommunication style: "@ + p.persona.communication_style@ + "\nStance on topic: "@
        + p.persona.stance_on_topic@ + "\nDemographics: "@ + p.demographics.occupation@ + ", "@
        + p.demographics.location@ + ", "@ + p.demographics.age_group@
        + "\n\nYou participated in a social media simulation. \nYour activity summary: "@
        + activity_summary_of(
        p.name@,
        p.username@,
        s.agent_actions@.len(),
        s.agent_posts@.len(),
        s.agent_comments@.len(),
    )
        + "\n\nStay in character at all times. Respond naturally as this person would, drawing on your simulated experiences and actions."@
}

/// The last ten chat messages, oldest first, as `role: content` lines.
pub open spec fn history_text(h: Seq<ChatMessage>) -> Seq<char>
    decreases h.len(),
{
    let start = if h.len() > 10 {
        h.len() - 10
    } else {
        0
    };
    lines_from(h, start)
}

/// The messages of `h` from index `i` on, as `role: content` lines.
pub open spec fn lines_from(h: Seq<ChatMessage>, i: int) -> Seq<char>
    decreases h.len() - i,
{
    if i < 0 || i >= h.len() {
        Seq::empty()
    } else {
        h[i].role@ + ": "@ + h[i].content@ + "\n"@ + lines_from(h, i + 1)
    }
}

/// The five newest actions, newest first, as `- <type> (round <n>)` lines.
pub open spec fn recent_actions_text(a: Seq<ActionRecord>) -> Seq<char> {
    let k = if a.len() < 5 {
        a.len() as int
    } else {
        5
    };
    join(
        Seq::new(
            k as nat,
            |i: int|
                "- "@ + a[a.len() - 1 - i].action_type@ + " (round "@ + decimal(
                    a[a.len() - 1 - i].round_num as nat,
                ) + ")"@,
        ),
        "\n"@,
    )
}

/// The user prompt of an interview turn.
pub open spec fn interview_user_prompt(s: InterviewSession, message: Seq<char>) -> Seq<char> {
    let h = history_text(s.chat_history@);
    let acts = recent_actions_text(s.agent_actions@);
    if h.len() == 0 {
        "User asks: "@ + message + "\n\nRecent actions:\n"@ + acts
    } else {
        "Chat history:\n"@ + h + "\n\nUser asks: "@ + message + "\n\nRecent actions:\n"@ + acts
    }
}

fn history_string(h: &Vec<ChatMessage>) -> (r: String)
    ensures
        r@ == history_text(h@),
{
    let n = h.len();
    let start = if n > 10 {
        n - 10
    } else {
        0
    };
    let mut acc = String::new();
    let mut i = start;
    while i < n
        invariant
            start <= i <= n,
            n == h@.len(),
            acc@ + lines_from(h@, i as int) == lines_from(h@, start as int),
        decreases n - i,
    {
        let ghost a0 = acc@;
        push_str(&mut acc, h[i].role.as_str());
        push_str(&mut acc, ": ");
        push_str(&mut acc, h[i].content.as_str());
        push_str(&mut acc, "\n");
        assert(acc@ + lines_from(h@, i + 1) =~= a0 + lines_from(h@, i as int));
        i = i + 1;
    }
    assert(acc@ =~= acc@ + lines_from(h@, n as int));
    acc
}

fn recent_actions_string(a: &Vec<ActionRecord>) -> (r: String)
    ensures
        r@ == recent_actions_text(a@),
{
    let n = a.len();
    let k = if n < 5 {
        n
    } else {
        5
    };
    let ghost parts = Seq::new(
        k as nat,
        |i: int|
            "- "@ + a@[a@.len() - 1 - i].action_type@ + " (round "@ + decimal(
                a@[a@.len() - 1 - i].round_num as nat,
            ) + ")"@,
    );
    let mut lines: Vec<String> = Vec::new();
    let mut i: usize = 0;
    while i < k
        invariant
            k <= n,
            n == a@.len(),
            i <= k,
            parts == Seq::new(
                k as nat,
                |i: int|
                    "- "@ + a@[a@.len() - 1 - i].action_type@ + " (round "@ + decimal(
                        a@[a@.len() - 1 - i].round_num as nat,
                    ) + ")"@,
            ),
            views(lines@) == parts.take(i as int),
        decreases k - i,
    {
        let rec = &a[n - 1 - i];
        let mut line = owned("- ");
        push_str(&mut line, rec.action_type.as_str());
        push_str(&mut line, " (round ");
        push_str(&mut line, decimal_string(rec.round_num as u64).as_str());
        push_str(&mut line, ")");
        assert(line@ =~= parts[i as int]);
        let ghost l0 = lines@;
        lines.push(line);
        assert(views(lines@) =~= views(l0).push(line@));
        assert(views(lines@) =~= parts.take(i + 1));
        i = i + 1;
    }
    assert(parts.take(i as int) =~= parts);
    join_strings(&lines, "\n")
}

/// The prompts (system, user) for the agent's answer to `user_message`.
pub fn interview_prompts(session: &InterviewSession, user_message: &str) -> (r: (String, String))
    ensures
        r.0@ == interview_system_prompt(*session),
        r.1@ == interview_user_prompt(*session, user_message@),
{
    let p = &session.agent_profile;
    let mut sys = owned("You are roleplaying as ");
    push_str(&mut sys, p.name.as_str());
    push_str(&mut sys, ". \nUsername: @");
    push_str(&mut sys, p.username.as_str());
    push_str(&mut sys, "\nBio: ");
    push_str(&mut sys, p.bio.as_str());
    push_str(&mut sys, "\nPersonality: ");
    push_str(&mut sys, table_string(&p.persona.personality_traits).as_str());
    push_str(&mut sys, "\nInterests: ");
    push_str(&mut sys, join_strings(&p.persona.interests, ", ").as_str());
    push_str(&mut sys, "\nCommunication style: ");
    push_str(&mut sys, p.persona.communication_style.as_str());
    push_str(&mut sys, "\nStance on topic: ");
    push_str(&mut sys, p.persona.stance_on_topic.as_str());
    push_str(&mut sys, "\nDemographics: ");
    push_str(&mut sys, p.demographics.occupation.as_str());
    push_str(&mut sys, ", ");
    push_str(&mut sys, p.demographics.location.as_str());
    push_str(&mut sys, ", ");
    push_str(&mut sys, p.demographics.age_group.as_str());
    push_str(&mut sys, "\n\nYou participated in a social media simulation. \nYour activity summary: ");
    push_str(&mut sys, session.activity_summary().as_str());
    push_str(
        &mut sys,
        "\n\nStay in character at all times. Respond naturally as this person would, drawing on your simulated experiences and actions.",
    );
    let history = history_string(&session.chat_history);
    let actions = recent_actions_string(&session.agent_actions);
    let mut user = if history.as_str().is_empty() {
        owned("User asks: ")
    } else {
        let mut u = owned("Chat history:\n");
        push_str(&mut u, history.as_str());
        push_str(&mut u, "\n\nUser asks: ");
        u
    };
    push_str(&mut user, user_message);
    push_str(&mut user, "\n\nRecent actions:\n");
    push_str(&mut user, actions.as_str());
    (sys, user)
}

} // verus!
