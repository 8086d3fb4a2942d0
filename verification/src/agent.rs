//! An agent's memory, the targets it picks and the prompts it writes with.
use vstd::prelude::*;

use crate::actions::{AgentAction, Post};
use crate::simulation::AgentProfile;
use crate::strs::{decimal, decimal_string, join, join_strings, owned, push_str, views};

verus! {

/// At most this many recent memories are kept.
pub const MEMORY_CAPACITY: usize = 50;

/// An agent's memory.
pub struct AgentMemory {
    pub past_posts: Vec<String>,
    pub past_comments: Vec<String>,
    pub interactions: std::collections::HashMap<u64, usize>,
    pub recent_memories: Vec<String>,
}

/// The last `n` items of `s`, oldest first.
pub open spec fn last_n<T>(s: Seq<T>, n: int) -> Seq<T> {
    if s.len() > n {
        s.skip(s.len() - n)
    } else {
        s
    }
}

/// The context lines of the `limit` newest memories, newest first, each
/// as `- <memory>`, joined by newlines.
pub open spec fn recent_context(memories: Seq<Seq<char>>, limit: int) -> Seq<char> {
    let k = if limit < memories.len() {
        limit
    } else {
        memories.len() as int
    };
    join(
        Seq::new(k as nat, |i: int| "- "@ + memories[memories.len() - 1 - i]),
        "\n"@,
    )
}

impl AgentMemory {
    /// An empty memory.
    pub fn new() -> (r: Self)
        ensures
            r.past_posts@.len() == 0,
            r.past_comments@.len() == 0,
            r.interactions@ == Map::<u64, usize>::empty(),
            r.recent_memories@.len() == 0,
    {
        AgentMemory {
            past_posts: Vec::new(),
            past_comments: Vec::new(),
            interactions: std::collections::HashMap::new(),
            recent_memories: Vec::new(),
        }
    }

    /// Remembers `memory`, keeping the 50 newest memories.
    pub fn add_memory(&mut self, memory: String)
        ensures
            views(final(self).recent_memories@) == last_n(
                views(old(self).recent_memories@).push(memory@),
                50,
            ),
            final(self).past_posts == old(self).past_posts,
            final(self).past_comments == old(self).past_comments,
            final(self).interactions == old(self).interactions,
    {
        let ghost all = views(self.recent_memories@).push(memory@);
        self.recent_memories.push(memory);
        assert(views(self.recent_memories@) =~= all);
        let n = self.recent_memories.len();
        if n > MEMORY_CAPACITY {
            let extra = n - MEMORY_CAPACITY;
            let mut kept: Vec<String> = Vec::new();
            let mut i: usize = extra;
            while i < n
                invariant
                    extra <= i <= n,
                    n == self.recent_memories@.len(),
                    views(self.recent_memories@) == all,
                    views(kept@) == all.subrange(extra as int, i as int),
                decreases n - i,
            {
                let m = self.recent_memories[i].clone();
                assert(m@ == all[i as int]);
                let ghost k0 = kept@;
                kept.push(m);
                assert(views(kept@) =~= views(k0).push(m@));
                assert(views(kept@) =~= all.subrange(extra as int, i + 1));
                i = i + 1;
            }
            self.recent_memories = kept;
        }
    }

    /// The `limit` newest memories as context lines, newest first.
    pub fn get_recent_context(&self, limit: usize) -> (r: String)
        ensures
            r@ == recent_context(views(self.recent_memories@), limit as int),
    {
        let n = self.recent_memories.len();
        let k = if limit < n {
            limit
        } else {
            n
        };
        let ghost parts = Seq::new(
            k as nat,
            |i: int| "- "@ + views(self.recent_memories@)[n - 1 - i],
        );
        let mut lines: Vec<String> = Vec::new();
        let mut i: usize = 0;
        while i < k
            invariant
                k <= n,
                n == self.recent_memories@.len(),
                i <= k,
                parts == Seq::new(
                    k as nat,
                    |i: int| "- "@ + views(self.recent_memories@)[n - 1 - i],
                ),
                views(lines@) == parts.take(i as int),
            decreases k - i,
        {
            let mut line = owned("- ");
            push_str(&mut line, self.recent_memories[n - 1 - i].as_str());
            assert(line@ == parts[i as int]);
            let ghost l0 = lines@;
            lines.push(line);
            assert(views(lines@) =~= views(l0).push(line@));
            assert(views(lines@) =~= parts.take(i + 1));
            i = i + 1;
        }
        assert(parts.take(i as int) =~= parts);
        join_strings(&lines, "\n")
    }
}

/// The index that a random number picks among `len` items.
pub open spec fn picked_index(random: u64, len: int) -> int {
    (random as usize) as int % len
}

/// The index of a random element of `len` items, given a random number;
/// `None` where there are no items.
pub fn pick_random_index(random: u64, len: usize) -> (r: Option<usize>)
    ensures
        len == 0 ==> r is None,
        len > 0 ==> r == Some(picked_index(random, len as int) as usize),
        r matches Some(i) ==> i < len,
{
    if len == 0 {
        return None;
    }
    Some((random as usize) % len)
}

/// A random post, given a random number.
pub fn pick_random_element(items: &[Post], random: u64) -> (r: Option<&Post>)
    ensures
        items@.len() == 0 ==> r is None,
        items@.len() > 0 ==> r == Some(&items@[picked_index(random, items@.len() as int)]),
{
    match pick_random_index(random, items.len()) {
        Some(i) => Some(&items[i]),
        None => None,
    }
}

/// Liking a random post, given a random number; no action without posts.
pub fn select_like_action(available_posts: &[Post], random: u64) -> (r: AgentAction)
    ensures
        available_posts@.len() == 0 ==> r is Pass,
        available_posts@.len() > 0 ==> (r matches AgentAction::LikePost { post_id }
            && post_id@ == available_posts@[picked_index(
            random,
            available_posts@.len() as int,
        )].post_id@),
{
    match pick_random_element(available_posts, random) {
        Some(p) => AgentAction::LikePost { post_id: p.post_id.clone() },
        None => AgentAction::Pass,
    }
}

/// Disliking a random post, given a random number; no action without
/// posts.
pub fn select_dislike_action(available_posts: &[Post], random: u64) -> (r: AgentAction)
    ensures
        available_posts@.len() == 0 ==> r is Pass,
        available_posts@.len() > 0 ==> (r matches AgentAction::DislikePost { post_id }
            && post_id@ == available_posts@[picked_index(
            random,
            available_posts@.len() as int,
        )].post_id@),
{
    match pick_random_element(available_posts, random) {
        Some(p) => AgentAction::DislikePost { post_id: p.post_id.clone() },
        None => AgentAction::Pass,
    }
}

/// A random number from the thread's generator (`rand::thread_rng` and
/// `RngCore::next_u64`). Nothing is stated of its value.
#[verifier::external_body]
pub(crate) fn random_u64() -> (r: u64) {
    rand::RngCore::next_u64(&mut rand::thread_rng())
}

/// Liking a random post.
pub fn select_like_action_now(available_posts: &[Post]) -> (r: AgentAction)
    ensures
        available_posts@.len() == 0 ==> r is Pass,
        available_posts@.len() > 0 ==> exists|k: int|
            0 <= k < available_posts@.len() && (r matches AgentAction::LikePost { post_id }
                && post_id@ == #[trigger] available_posts@[k].post_id@),
{
    let random = random_u64();
    select_like_action(available_posts, random)
}

/// Disliking a random post.
pub fn select_dislike_action_now(available_posts: &[Post]) -> (r: AgentAction)
    ensures
        available_posts@.len() == 0 ==> r is Pass,
        available_posts@.len() > 0 ==> exists|k: int|
            0 <= k < available_posts@.len() && (r matches AgentAction::DislikePost { post_id }
                && post_id@ == #[trigger] available_posts@[k].post_id@),
{
    let random = random_u64();
    select_dislike_action(available_posts, random)
}

/// The system prompt for writing a post in character.
pub open spec fn post_system_prompt(p: AgentProfile) -> Seq<char> {
    "You are "@ + p.name@ + ". Your interests: "@ + join(views(p.persona.interests@), ", "@)
        + ". Your stance on the topic: "@ + p.persona.stance_on_topic@ + ". Communication style: "@
        + p.persona.communication_style@
}

/// The recent events as context: the first five as `- <event>` lines, or
/// "No recent events.".
pub open spec fn events_context(events: Seq<Seq<char>>) -> Seq<char> {
    if events.len() == 0 {
        "No recent events."@
    } else {
        let k = if events.len() < 5 {
            events.len() as int
        } else {
            5
        };
        "Recent events:\n"@ + join(Seq::new(k as nat, |i: int| "- "@ + events[i]), "\n"@)
    }
}

/// The user prompt for writing a post in round `round`.
pub open spec fn post_user_prompt(round: u32, events: Seq<Seq<char>>) -> Seq<char> {
    "Simulation round "@ + decimal(round as nat) + ". "@ + events_context(events)
        + "\n\nWrite a post in character. Under 280 chars."@
}

/// The system prompt for commenting on a post.
pub open spec fn comment_system_prompt(p: AgentProfile) -> Seq<char> {
    "You are "@ + p.name@ + ". Stance: "@ + p.persona.stance_on_topic@ + ". Style: "@
        + p.persona.communication_style@ + "."@
}

/// The user prompt for commenting on `post`.
pub open spec fn comment_user_prompt(post: Post) -> Seq<char> {
    "Post from "@ + post.agent_name@ + ": "@ + post.content@
        + "\n\nWrite a comment (under 200 chars)."@
}

/// The system prompt for sharing a post with commentary.
pub open spec fn share_system_prompt(p: AgentProfile) -> Seq<char> {
    "You are "@ + p.name@ + ". Stance: "@ + p.persona.stance_on_topic@
        + ". Write SHORT commentary (under 200 chars)."@
}

/// The user prompt for sharing `post`.
pub open spec fn share_user_prompt(post: Post) -> Seq<char> {
    "Post: \""@ + post.content@ + "\"\n\nAdd commentary:"@
}

/// The events context of a post prompt.
fn events_context_of(events: &[String]) -> (r: String)
    ensures
        r@ == events_context(events@.map_values(|e: String| e@)),
{
    let ghost ev = events@.map_values(|e: String| e@);
    if events.len() == 0 {
        return owned("No recent events.");
    }
    let k = if events.len() < 5 {
        events.len()
    } else {
        5
    };
    let ghost parts = Seq::new(k as nat, |i: int| "- "@ + ev[i]);
    let mut lines: Vec<String> = Vec::new();
    let mut i: usize = 0;
    while i < k
        invariant
            k <= events@.len(),
            i <= k,
            ev == events@.map_values(|e: String| e@),
            parts == Seq::new(k as nat, |i: int| "- "@ + ev[i]),
            views(lines@) == parts.take(i as int),
        decreases k - i,
    {
        let mut line = owned("- ");
        push_str(&mut line, events[i].as_str());
        assert(line@ == parts[i as int]);
        let ghost l0 = lines@;
        lines.push(line);
        assert(views(lines@) =~= views(l0).push(line@));
        assert(views(lines@) =~= parts.take(i + 1));
        i = i + 1;
    }
    assert(parts.take(i as int) =~= parts);
    let mut r = owned("Recent events:\n");
    push_str(&mut r, join_strings(&lines, "\n").as_str());
    r
}

/// The prompts (system, user) for writing a post in round `round`.
pub fn post_prompts(profile: &AgentProfile, recent_events: &[String], round: u32) -> (r: (
    String,
    String,
))
    ensures
        r.0@ == post_system_prompt(*profile),
        r.1@ == post_user_prompt(round, recent_events@.map_values(|e: String| e@)),
{
    let mut sys = owned("You are ");
    push_str(&mut sys, profile.name.as_str());
    push_str(&mut sys, ". Your interests: ");
    push_str(&mut sys, join_strings(&profile.persona.interests, ", ").as_str());
    push_str(&mut sys, ". Your stance on the topic: ");
    push_str(&mut sys, profile.persona.stance_on_topic.as_str());
    push_str(&mut sys, ". Communication style: ");
    push_str(&mut sys, profile.persona.communication_style.as_str());
    let mut user = owned("Simulation round ");
    push_str(&mut user, decimal_string(round as u64).as_str());
    push_str(&mut user, ". ");
    push_str(&mut user, events_context_of(recent_events).as_str());
    push_str(&mut user, "\n\nWrite a post in character. Under 280 chars.");
    (sys, user)
}

/// The topic of an agent's post: its first interest, if any.
pub fn post_topic(profile: &AgentProfile) -> (r: Option<String>)
    ensures
        profile.persona.interests@.len() == 0 ==> r is None,
        profile.persona.interests@.len() > 0 ==> r == Some(profile.persona.interests@[0]),
{
    if profile.persona.interests.len() == 0 {
        None
    } else {
        Some(profile.persona.interests[0].clone())
    }
}

/// The prompts (system, user) for commenting on `target`.
pub fn comment_prompts(profile: &AgentProfile, target: &Post) -> (r: (String, String))
    ensures
        r.0@ == comment_system_prompt(*profile),
        r.1@ == comment_user_prompt(*target),
{
    let mut sys = owned("You are ");
    push_str(&mut sys, profile.name.as_str());
    push_str(&mut sys, ". Stance: ");
    push_str(&mut sys, profile.persona.stance_on_topic.as_str());
    push_str(&mut sys, ". Style: ");
    push_str(&mut sys, profile.persona.communication_style.as_str());
    push_str(&mut sys, ".");
    let mut user = owned("Post from ");
    push_str(&mut user, target.agent_name.as_str());
    push_str(&mut user, ": ");
    push_str(&mut user, target.content.as_str());
    push_str(&mut user, "\n\nWrite a comment (under 200 chars).");
    (sys, user)
}

/// The prompts (system, user) for sharing `target` with commentary.
pub fn share_prompts(profile: &AgentProfile, target: &Post) -> (r: (String, String))
    ensures
        r.0@ == share_system_prompt(*profile),
        r.1@ == share_user_prompt(*target),
{
    let mut sys = owned("You are ");
    push_str(&mut sys, profile.name.as_str());
    push_str(&mut sys, ". Stance: ");
    push_str(&mut sys, profile.persona.stance_on_topic.as_str());
    push_str(&mut sys, ". Write SHORT commentary (under 200 chars).");
    let mut user = owned("Post: \"");
    push_str(&mut user, target.content.as_str());
    push_str(&mut user, "\"\n\nAdd commentary:");
    (sys, user)
}

} // verus!
