//! The simulation engine's state and the decisions it makes between the
//! agents' turns: rounds and hours, the platform of each action, the
//! effects of actions on posts and comments, and what recent events the
//! agents see.
use vstd::prelude::*;

use crate::actions::{ActionRecord, AgentAction, Comment, Post, action_type_name};
use crate::simulation::{InitialPost, RunnerStatus, Simulation, SimulationStatus};
use crate::strs::{decimal, decimal_string, first_chars, owned, push_str, str_eq, take_chars};

verus! {

/// The number of rounds in `hours` hours of `minutes_per_round` each.
pub open spec fn total_rounds_of(hours: u32, minutes_per_round: u32) -> int {
    (hours * 60) / (minutes_per_round as int)
}

/// The simulated hour of the day at the end of `round`.
pub open spec fn hour_of(round: u32, minutes_per_round: u32) -> int {
    ((round * minutes_per_round) / 60) % 24
}

/// The platform an action of `round` goes to: alternating, Twitter on even
/// rounds, where both are enabled; else the enabled one, Reddit where
/// neither is.
pub open spec fn platform_for(twitter: bool, reddit: bool, round: u32) -> Seq<char> {
    if twitter && reddit {
        if round % 2 == 0 {
            "twitter"@
        } else {
            "reddit"@
        }
    } else if twitter {
        "twitter"@
    } else {
        "reddit"@
    }
}

/// The identifiers of a sequence of posts.
pub open spec fn post_ids(ps: Seq<Post>) -> Seq<Seq<char>> {
    ps.map_values(|p: Post| p.post_id@)
}

/// `"post_"` followed by the decimal digits of `n`.
pub open spec fn post_id_of(n: nat) -> Seq<char> {
    "post_"@ + decimal(n)
}

/// `"comment_"` followed by the decimal digits of `n`.
pub open spec fn comment_id_of(n: nat) -> Seq<char> {
    "comment_"@ + decimal(n)
}

/// `p` is a post just made: no likes, dislikes, comments or shares.
pub open spec fn is_new_post(
    p: Post,
    id: Seq<char>,
    agent_id: usize,
    agent_name: Seq<char>,
    platform: Seq<char>,
    content: Seq<char>,
    topic: Option<String>,
    now: i64,
) -> bool {
    &&& p.post_id@ == id
    &&& p.agent_id == agent_id
    &&& p.agent_name@ == agent_name
    &&& p.platform@ == platform
    &&& p.content@ == content
    &&& p.topic == topic
    &&& p.created_at == now
    &&& p.likes == 0
    &&& p.dislikes == 0
    &&& p.comments@.len() == 0
    &&& p.shares == 0
}

/// `c` is a comment just made, with no likes or dislikes.
pub open spec fn is_new_comment(
    c: Comment,
    id: Seq<char>,
    post_id: Seq<char>,
    agent_id: usize,
    agent_name: Seq<char>,
    content: Seq<char>,
    now: i64,
) -> bool {
    &&& c.comment_id@ == id
    &&& c.post_id@ == post_id
    &&& c.agent_id == agent_id
    &&& c.agent_name@ == agent_name
    &&& c.content@ == content
    &&& c.created_at == now
    &&& c.likes == 0
    &&& c.dislikes == 0
}

/// The simulation engine's state. The agents and their activity settings,
/// which take probabilities, are held beside it by whoever runs the loop.
pub struct SimulationEngine {
    pub simulation: Simulation,
    pub total_simulation_hours: u32,
    pub minutes_per_round: u32,
    pub initial_posts: Vec<InitialPost>,
    pub posts: Vec<Post>,
    pub comments: Vec<Comment>,
    pub action_log: Vec<ActionRecord>,
    pub current_round: u32,
    pub is_running: bool,
    pub is_paused: bool,
    pub total_actions: usize,
}

/// What the engine reports of a run, but for its progress percentage and
/// times.
#[derive(Debug, Clone, Copy)]
pub struct RunCounts {
    pub runner_status: RunnerStatus,
    pub current_round: u32,
    pub total_rounds: u32,
    pub simulated_hours: u32,
    pub total_simulation_hours: u32,
    pub twitter_running: bool,
    pub reddit_running: bool,
    pub twitter_actions_count: usize,
    pub reddit_actions_count: usize,
    pub total_actions_count: usize,
}

/// The number of log records on `platform`.
pub open spec fn count_on(log: Seq<ActionRecord>, platform: Seq<char>) -> nat
    decreases log.len(),
{
    if log.len() == 0 {
        0
    } else {
        count_on(log.drop_last(), platform) + if log.last().platform@ == platform {
            1nat
        } else {
            0nat
        }
    }
}

pub proof fn lemma_count_on_bound(log: Seq<ActionRecord>, platform: Seq<char>)
    ensures
        count_on(log, platform) <= log.len(),
    decreases log.len(),
{
    if log.len() > 0 {
        lemma_count_on_bound(log.drop_last(), platform);
    }
}

impl SimulationEngine {
    /// The engine's invariant: one log record per action, and no post
    /// counter above the number of actions.
    pub open spec fn wf(self) -> bool {
        &&& self.action_log@.len() == self.total_actions
        &&& forall|i: int|
            0 <= i < self.posts@.len() ==> {
                &&& (#[trigger] self.posts@[i]).likes <= self.total_actions
                &&& self.posts@[i].dislikes <= self.total_actions
                &&& self.posts@[i].shares <= self.total_actions
            }
    }

    /// The timing settings are usable: rounds have a length, and the
    /// simulated minutes fit in a `u32`.
    pub open spec fn timing_ok(self) -> bool {
        self.minutes_per_round > 0 && self.total_simulation_hours * 60 <= u32::MAX
    }

    /// An engine for `simulation`, before any round.
    pub fn new(
        simulation: Simulation,
        total_simulation_hours: u32,
        minutes_per_round: u32,
        initial_posts: Vec<InitialPost>,
    ) -> (r: Self)
        ensures
            r.wf(),
            r.simulation == simulation,
            r.total_simulation_hours == total_simulation_hours,
            r.minutes_per_round == minutes_per_round,
            r.initial_posts == initial_posts,
            r.posts@.len() == 0,
            r.comments@.len() == 0,
            r.action_log@.len() == 0,
            r.current_round == 0,
            !r.is_running,
            !r.is_paused,
            r.total_actions == 0,
    {
        SimulationEngine {
            simulation,
            total_simulation_hours,
            minutes_per_round,
            initial_posts,
            posts: Vec::new(),
            comments: Vec::new(),
            action_log: Vec::new(),
            current_round: 0,
            is_running: false,
            is_paused: false,
            total_actions: 0,
        }
    }

    /// The number of rounds of the run.
    pub fn total_rounds(&self) -> (r: u32)
        requires
            self.timing_ok(),
        ensures
            r == total_rounds_of(self.total_simulation_hours, self.minutes_per_round),
    {
        self.total_simulation_hours * 60 / self.minutes_per_round
    }

    /// The simulated hour of the day at the end of `round`.
    pub fn round_to_hour(&self, round: u32) -> (r: usize)
        requires
            round * self.minutes_per_round <= u32::MAX,
        ensures
            r == hour_of(round, self.minutes_per_round),
            r < 24,
    {
        let total_minutes = round * self.minutes_per_round;
        (total_minutes / 60) as usize % 24
    }

    /// Pauses the run.
    pub fn pause(&mut self)
        ensures
            final(self).is_paused,
            final(self).simulation.status == SimulationStatus::Paused,
            final(self).is_running == old(self).is_running,
            final(self).posts == old(self).posts,
            final(self).comments == old(self).comments,
            final(self).action_log == old(self).action_log,
            final(self).total_actions == old(self).total_actions,
            final(self).current_round == old(self).current_round,
    {
        self.is_paused = true;
        self.simulation.status = SimulationStatus::Paused;
    }

    /// Resumes a paused run.
    pub fn resume(&mut self)
        ensures
            !final(self).is_paused,
            final(self).simulation.status == SimulationStatus::Running,
            final(self).is_running == old(self).is_running,
            final(self).posts == old(self).posts,
            final(self).comments == old(self).comments,
            final(self).action_log == old(self).action_log,
            final(self).total_actions == old(self).total_actions,
            final(self).current_round == old(self).current_round,
    {
        self.is_paused = false;
        self.simulation.status = SimulationStatus::Running;
    }

    /// Stops the run at time `now`.
    pub fn stop_at(&mut self, now: i64)
        ensures
            !final(self).is_running,
            final(self).is_paused == old(self).is_paused,
            final(self).simulation.status == SimulationStatus::Completed,
            final(self).simulation.completed_at == Some(now),
            final(self).posts == old(self).posts,
            final(self).comments == old(self).comments,
            final(self).action_log == old(self).action_log,
            final(self).total_actions == old(self).total_actions,
            final(self).current_round == old(self).current_round,
            *final(self) == (SimulationEngine {
                is_running: false,
                simulation: Simulation {
                    status: SimulationStatus::Completed,
                    completed_at: Some(now),
                    ..old(self).simulation
                },
                ..*old(self)
            }),
    {
        self.is_running = false;
        self.simulation.status = SimulationStatus::Completed;
        self.simulation.completed_at = Some(now);
    }

    /// Stops the run now.
    pub fn stop(&mut self)
        ensures
            !final(self).is_running,
            final(self).is_paused == old(self).is_paused,
            final(self).simulation.status == SimulationStatus::Completed,
            final(self).simulation.completed_at is Some,
            final(self).posts == old(self).posts,
            final(self).comments == old(self).comments,
            final(self).action_log == old(self).action_log,
            final(self).total_actions == old(self).total_actions,
            final(self).current_round == old(self).current_round,
    {
        let now = crate::ids::now_nanos();
        self.stop_at(now);
    }
}

/// `"<prefix><n>"`.
fn numbered(prefix: &str, n: usize) -> (r: String)
    ensures
        r@ == prefix@ + decimal(n as nat),
{
    let mut s = owned(prefix);
    let d = decimal_string(n as u64);
    push_str(&mut s, d.as_str());
    s
}

impl SimulationEngine {
    /// Adds the configured initial posts, as posts by "System" on Twitter
    /// numbered from 0, made at time `now`.
    pub fn seed_initial_posts(&mut self, now: i64)
        requires
            old(self).wf(),
        ensures
            final(self).wf(),
            final(self).posts@.len() == old(self).posts@.len() + old(self).initial_posts@.len(),
            final(self).posts@.take(old(self).posts@.len() as int) == old(self).posts@,
            forall|i: int|
                0 <= i < old(self).initial_posts@.len() ==> is_new_post(
                    #[trigger] final(self).posts@[old(self).posts@.len() + i],
                    post_id_of(i as nat),
                    0,
                    "System"@,
                    "twitter"@,
                    old(self).initial_posts@[i].content@,
                    Some(old(self).initial_posts@[i].topic),
                    now,
                ),
            final(self).comments == old(self).comments,
            final(self).action_log == old(self).action_log,
            final(self).total_actions == old(self).total_actions,
            final(self).initial_posts == old(self).initial_posts,
            final(self).simulation == old(self).simulation,
            final(self).is_running == old(self).is_running,
            final(self).is_paused == old(self).is_paused,
            final(self).current_round == old(self).current_round,
            final(self).minutes_per_round == old(self).minutes_per_round,
            final(self).total_simulation_hours == old(self).total_simulation_hours,
    {
        let ghost p0 = self.posts@;
        let n0 = self.posts.len();
        let mut i: usize = 0;
        while i < self.initial_posts.len()
            invariant
                self.wf(),
                n0 == p0.len(),
                i <= self.initial_posts@.len(),
                self.initial_posts == old(self).initial_posts,
                self.comments == old(self).comments,
                self.action_log == old(self).action_log,
                self.total_actions == old(self).total_actions,
                self.simulation == old(self).simulation,
                self.is_running == old(self).is_running,
                self.is_paused == old(self).is_paused,
                self.current_round == old(self).current_round,
                self.minutes_per_round == old(self).minutes_per_round,
                self.total_simulation_hours == old(self).total_simulation_hours,
                p0 == old(self).posts@,
                self.posts@.len() == n0 + i,
                self.posts@.take(n0 as int) == p0,
                forall|j: int|
                    0 <= j < i ==> is_new_post(
                        #[trigger] self.posts@[n0 + j],
                        post_id_of(j as nat),
                        0,
                        "System"@,
                        "twitter"@,
                        self.initial_posts@[j].content@,
                        Some(self.initial_posts@[j].topic),
                        now,
                    ),
            decreases self.initial_posts@.len() - i,
        {
            let post = Post {
                post_id: numbered("post_", i),
                agent_id: 0,
                agent_name: owned("System"),
                platform: owned("twitter"),
                content: self.initial_posts[i].content.clone(),
                topic: Some(self.initial_posts[i].topic.clone()),
                created_at: now,
                likes: 0,
                dislikes: 0,
                comments: Vec::new(),
                shares: 0,
            };
            let ghost before = self.posts@;
            self.posts.push(post);
            assert(self.posts@.take(n0 as int) =~= before.take(n0 as int));
            i = i + 1;
        }
    }

    /// The index of the first post with identifier `post_id`.
    fn find_post(&self, post_id: &str) -> (r: Option<usize>)
        ensures
            match r {
                Some(k) => k < self.posts@.len() && self.posts@[k as int].post_id@ == post_id@
                    && forall|j: int| 0 <= j < k ==> self.posts@[j].post_id@ != post_id@,
                None => forall|j: int|
                    0 <= j < self.posts@.len() ==> self.posts@[j].post_id@ != post_id@,
            },
    {
        let mut i: usize = 0;
        while i < self.posts.len()
            invariant
                i <= self.posts@.len(),
                forall|j: int| 0 <= j < i ==> self.posts@[j].post_id@ != post_id@,
            decreases self.posts.len() - i,
        {
            if str_eq(self.posts[i].post_id.as_str(), post_id) {
                return Some(i);
            }
            i = i + 1;
        }
        None
    }
}

/// Which counter of a post an action raises.
pub enum Counter {
    Likes,
    Dislikes,
    Shares,
}

/// `p` with counter `c` one higher.
pub open spec fn bump(p: Post, c: Counter) -> Post {
    match c {
        Counter::Likes => Post { likes: (p.likes + 1) as usize, ..p },
        Counter::Dislikes => Post { dislikes: (p.dislikes + 1) as usize, ..p },
        Counter::Shares => Post { shares: (p.shares + 1) as usize, ..p },
    }
}

/// `ps` with counter `c` of the first post called `id` one higher, if
/// there is such a post.
pub open spec fn bumped(ps: Seq<Post>, id: Seq<char>, c: Counter) -> Seq<Post> {
    match crate::ontology::first_index(post_ids(ps), id) {
        Some(k) => ps.update(k, bump(ps[k], c)),
        None => ps,
    }
}

/// What an action does to the posts and comments: a new post or comment is
/// appended, numbered by the count before it; a like, dislike or share
/// raises the counter of the post it names, if there is one; any other
/// action leaves both unchanged.
pub open spec fn applied(
    old_posts: Seq<Post>,
    old_comments: Seq<Comment>,
    posts: Seq<Post>,
    comments: Seq<Comment>,
    action: AgentAction,
    agent_id: usize,
    agent_name: Seq<char>,
    platform: Seq<char>,
    now: i64,
) -> bool {
    match action {
        AgentAction::CreatePost { content, topic } => {
            &&& posts.len() == old_posts.len() + 1
            &&& posts.take(old_posts.len() as int) == old_posts
            &&& is_new_post(
                posts.last(),
                post_id_of(old_posts.len()),
                agent_id,
                agent_name,
                platform,
                content@,
                topic,
                now,
            )
            &&& comments == old_comments
        },
        AgentAction::CreateComment { post_id, content } => {
            &&& comments.len() == old_comments.len() + 1
            &&& comments.take(old_comments.len() as int) == old_comments
            &&& is_new_comment(
                comments.last(),
                comment_id_of(old_comments.len()),
                post_id@,
                agent_id,
                agent_name,
                content@,
                now,
            )
            &&& posts == old_posts
        },
        AgentAction::LikePost { post_id } => posts == bumped(old_posts, post_id@, Counter::Likes)
            && comments == old_comments,
        AgentAction::DislikePost { post_id } => posts == bumped(
            old_posts,
            post_id@,
            Counter::Dislikes,
        ) && comments == old_comments,
        AgentAction::SharePost { post_id, .. } => posts == bumped(
            old_posts,
            post_id@,
            Counter::Shares,
        ) && comments == old_comments,
        _ => posts == old_posts && comments == old_comments,
    }
}

/// Raising one counter by one keeps every counter within one more than
/// the bound that held before.
pub proof fn lemma_bumped_bound(ps: Seq<Post>, id: Seq<char>, c: Counter, n: int)
    requires
        forall|i: int|
            0 <= i < ps.len() ==> {
                &&& (#[trigger] ps[i]).likes <= n
                &&& ps[i].dislikes <= n
                &&& ps[i].shares <= n
            },
    ensures
        bumped(ps, id, c).len() == ps.len(),
        forall|i: int|
            0 <= i < ps.len() ==> {
                &&& (#[trigger] bumped(ps, id, c)[i]).likes <= n + 1
                &&& bumped(ps, id, c)[i].dislikes <= n + 1
                &&& bumped(ps, id, c)[i].shares <= n + 1
            },
{
    if crate::ontology::first_index(post_ids(ps), id) is Some {
        crate::ontology::lemma_first_index_found(post_ids(ps), id);
    }
}

impl SimulationEngine {
    /// Raises counter `c` of the first post called `post_id`, if any.
    #[verifier::rlimit(40)]
    fn bump_post(&mut self, post_id: &str, c: Counter)
        requires
            old(self).wf(),
            old(self).total_actions < usize::MAX,
        ensures
            final(self).posts@ == bumped(old(self).posts@, post_id@, c),
            final(self).comments == old(self).comments,
            final(self).action_log == old(self).action_log,
            final(self).total_actions == old(self).total_actions,
            final(self).initial_posts == old(self).initial_posts,
            final(self).simulation == old(self).simulation,
            final(self).is_running == old(self).is_running,
            final(self).is_paused == old(self).is_paused,
            final(self).current_round == old(self).current_round,
            final(self).minutes_per_round == old(self).minutes_per_round,
            final(self).total_simulation_hours == old(self).total_simulation_hours,
    {
        match self.find_post(post_id) {
            Some(k) => {
                proof {
                    assert forall|j: int| 0 <= j < k implies post_ids(self.posts@)[j] != post_id@ by {}
                    crate::ontology::lemma_first_index(post_ids(self.posts@), post_id@, k as int);
                }
                let ghost before = self.posts@;
                let mut p = self.posts.remove(k);
                assert(p == before[k as int]);
                match c {
                    Counter::Likes => {
                        p.likes = p.likes + 1;
                    },
                    Counter::Dislikes => {
                        p.dislikes = p.dislikes + 1;
                    },
                    Counter::Shares => {
                        p.shares = p.shares + 1;
                    },
                }
                self.posts.insert(k, p);
                assert(self.posts@ =~= before.update(k as int, bump(before[k as int], c)));
            },
            None => {
                proof {
                    assert(!exists|j: int|
                        0 <= j < post_ids(self.posts@).len() && post_ids(self.posts@)[j]
                            == post_id@);
                }
            },
        }
    }

    /// Carries out `action` of agent `agent_id` (`agent_name`) in `round` at
    /// time `now`: it takes effect on the posts and comments, and is logged
    /// on the round's platform.
    pub fn execute_action_by_id(
        &mut self,
        agent_id: usize,
        agent_name: &str,
        action: AgentAction,
        round: u32,
        now: i64,
    )
        requires
            old(self).wf(),
            old(self).total_actions < usize::MAX,
        ensures
            final(self).wf(),
            final(self).total_actions == old(self).total_actions + 1,
            final(self).action_log@.len() == old(self).action_log@.len() + 1,
            final(self).action_log@.take(old(self).action_log@.len() as int) == old(self).action_log@,
            final(self).action_log@.last().records(
                old(self).simulation.simulation_id@,
                round,
                platform_for(
                    old(self).simulation.enable_twitter,
                    old(self).simulation.enable_reddit,
                    round,
                ),
                agent_id,
                agent_name@,
                action,
                None,
                true,
                now,
            ),
            applied(
                old(self).posts@,
                old(self).comments@,
                final(self).posts@,
                final(self).comments@,
                action,
                agent_id,
                agent_name@,
                platform_for(
                    old(self).simulation.enable_twitter,
                    old(self).simulation.enable_reddit,
                    round,
                ),
                now,
            ),
            final(self).initial_posts == old(self).initial_posts,
            final(self).simulation == old(self).simulation,
            final(self).is_running == old(self).is_running,
            final(self).is_paused == old(self).is_paused,
            final(self).current_round == old(self).current_round,
            final(self).minutes_per_round == old(self).minutes_per_round,
            final(self).total_simulation_hours == old(self).total_simulation_hours,
    {
        let ghost a = action;
        let platform: &str = if self.simulation.enable_twitter && self.simulation.enable_reddit {
            if round % 2 == 0 {
                "twitter"
            } else {
                "reddit"
            }
        } else if self.simulation.enable_twitter {
            "twitter"
        } else {
            "reddit"
        };
        let record = ActionRecord::from_action_at(
            self.simulation.simulation_id.as_str(),
            round,
            platform,
            agent_id,
            agent_name,
            &action,
            None,
            true,
            now,
        );
        match action {
            AgentAction::CreatePost { content, topic } => {
                let post = Post {
                    post_id: numbered("post_", self.posts.len()),
                    agent_id,
                    agent_name: owned(agent_name),
                    platform: owned(platform),
                    content,
                    topic,
                    created_at: now,
                    likes: 0,
                    dislikes: 0,
                    comments: Vec::new(),
                    shares: 0,
                };
                let ghost before = self.posts@;
                self.posts.push(post);
                assert(self.posts@.take(before.len() as int) =~= before);
            },
            AgentAction::CreateComment { post_id, content } => {
                let comment = Comment {
                    comment_id: numbered("comment_", self.comments.len()),
                    post_id,
                    agent_id,
                    agent_name: owned(agent_name),
                    content,
                    created_at: now,
                    likes: 0,
                    dislikes: 0,
                };
                let ghost before = self.comments@;
                self.comments.push(comment);
                assert(self.comments@.take(before.len() as int) =~= before);
            },
            AgentAction::LikePost { post_id } => {
                let ghost before = self.posts@;
                self.bump_post(post_id.as_str(), Counter::Likes);
                proof {
                    lemma_bumped_bound(before, post_id@, Counter::Likes, self.total_actions as int);
                }
            },
            AgentAction::DislikePost { post_id } => {
                let ghost before = self.posts@;
                self.bump_post(post_id.as_str(), Counter::Dislikes);
                proof {
                    lemma_bumped_bound(before, post_id@, Counter::Dislikes, self.total_actions as int);
                }
            },
            AgentAction::SharePost { post_id, .. } => {
                let ghost before = self.posts@;
                self.bump_post(post_id.as_str(), Counter::Shares);
                proof {
                    lemma_bumped_bound(before, post_id@, Counter::Shares, self.total_actions as int);
                }
            },
            _ => {},
        }
        let ghost log0 = self.action_log@;
        self.action_log.push(record);
        assert(self.action_log@.take(log0.len() as int) =~= log0);
        self.total_actions = self.total_actions + 1;
    }
}

/// The last `n` items of `s`, newest first.
pub open spec fn latest<T>(s: Seq<T>, n: int) -> Seq<T> {
    let k = if n < s.len() {
        n
    } else {
        s.len() as int
    };
    Seq::new(k as nat, |i: int| s[s.len() - 1 - i])
}

/// `Post by <author>: "<first 100 characters>"`
pub open spec fn post_event(p: Post) -> Seq<char> {
    "Post by "@ + p.agent_name@ + ": \""@ + take_chars(p.content@, 100) + "\""@
}

/// `Comment by <author>: "<first 100 characters>"`
pub open spec fn comment_event(c: Comment) -> Seq<char> {
    "Comment by "@ + c.agent_name@ + ": \""@ + take_chars(c.content@, 100) + "\""@
}

/// `<action type> by <agent> (round <n>)`
pub open spec fn action_event(a: ActionRecord) -> Seq<char> {
    a.action_type@ + " by "@ + a.agent_name@ + " (round "@ + decimal(a.round_num as nat) + ")"@
}

/// The recent events an agent sees: the newest `limit / 3` posts, then
/// comments, then logged actions, each newest first.
pub open spec fn recent_events(
    posts: Seq<Post>,
    comments: Seq<Comment>,
    log: Seq<ActionRecord>,
    limit: int,
) -> Seq<Seq<char>> {
    let k = limit / 3;
    latest(posts, k).map_values(|p: Post| post_event(p)) + latest(comments, k).map_values(
        |c: Comment| comment_event(c),
    ) + latest(log, k).map_values(|a: ActionRecord| action_event(a))
}

fn describe_post(p: &Post) -> (r: String)
    ensures
        r@ == post_event(*p),
{
    let mut s = owned("Post by ");
    push_str(&mut s, p.agent_name.as_str());
    push_str(&mut s, ": \"");
    let c = first_chars(p.content.as_str(), 100);
    push_str(&mut s, c.as_str());
    push_str(&mut s, "\"");
    s
}

fn describe_comment(c: &Comment) -> (r: String)
    ensures
        r@ == comment_event(*c),
{
    let mut s = owned("Comment by ");
    push_str(&mut s, c.agent_name.as_str());
    push_str(&mut s, ": \"");
    let t = first_chars(c.content.as_str(), 100);
    push_str(&mut s, t.as_str());
    push_str(&mut s, "\"");
    s
}

fn describe_action(a: &ActionRecord) -> (r: String)
    ensures
        r@ == action_event(*a),
{
    let mut s = owned(a.action_type.as_str());
    push_str(&mut s, " by ");
    push_str(&mut s, a.agent_name.as_str());
    push_str(&mut s, " (round ");
    let d = decimal_string(a.round_num as u64);
    push_str(&mut s, d.as_str());
    push_str(&mut s, ")");
    s
}

impl SimulationEngine {
    /// The recent events, as context for an agent's next action; at most
    /// `limit` of them.
    pub fn get_recent_events(&self, limit: usize) -> (r: Vec<String>)
        ensures
            r@.map_values(|s: String| s@) == recent_events(
                self.posts@,
                self.comments@,
                self.action_log@,
                limit as int,
            ),
            r@.len() <= limit,
    {
        let k = limit / 3;
        let mut events: Vec<String> = Vec::new();
        let np = self.posts.len();
        let mut i: usize = 0;
        let ghost lp = latest(self.posts@, k as int).map_values(|p: Post| post_event(p));
        while i < k && i < np
            invariant
                np == self.posts@.len(),
                k == limit / 3,
                i <= k,
                i <= np,
                lp == latest(self.posts@, k as int).map_values(|p: Post| post_event(p)),
                events@.map_values(|s: String| s@) == lp.take(i as int),
            decreases np - i,
        {
            let e = describe_post(&self.posts[np - 1 - i]);
            let ghost ev0 = events@;
            events.push(e);
            assert(latest(self.posts@, k as int)[i as int] == self.posts@[np - 1 - i]);
            assert(lp[i as int] == e@);
            assert(events@.map_values(|s: String| s@) =~= ev0.map_values(|s: String| s@).push(e@));
            assert(events@.map_values(|s: String| s@) =~= lp.take(i + 1));
            i = i + 1;
        }
        assert(lp.take(i as int) =~= lp);
        let ghost a1 = events@.map_values(|s: String| s@);
        let nc = self.comments.len();
        let mut j: usize = 0;
        let ghost lc = latest(self.comments@, k as int).map_values(|c: Comment| comment_event(c));
        while j < k && j < nc
            invariant
                nc == self.comments@.len(),
                k == limit / 3,
                j <= k,
                j <= nc,
                lc == latest(self.comments@, k as int).map_values(|c: Comment| comment_event(c)),
                events@.map_values(|s: String| s@) == a1 + lc.take(j as int),
            decreases nc - j,
        {
            let e = describe_comment(&self.comments[nc - 1 - j]);
            let ghost ev0 = events@;
            events.push(e);
            assert(latest(self.comments@, k as int)[j as int] == self.comments@[nc - 1 - j]);
            assert(lc[j as int] == e@);
            assert(events@.map_values(|s: String| s@) =~= ev0.map_values(|s: String| s@).push(e@));
            assert(events@.map_values(|s: String| s@) =~= a1 + lc.take(j + 1));
            j = j + 1;
        }
        assert(lc.take(j as int) =~= lc);
        let ghost a2 = events@.map_values(|s: String| s@);
        let na = self.action_log.len();
        let mut m: usize = 0;
        let ghost la = latest(self.action_log@, k as int).map_values(
            |a: ActionRecord| action_event(a),
        );
        while m < k && m < na
            invariant
                na == self.action_log@.len(),
                k == limit / 3,
                m <= k,
                m <= na,
                la == latest(self.action_log@, k as int).map_values(
                    |a: ActionRecord| action_event(a),
                ),
                events@.map_values(|s: String| s@) == a2 + la.take(m as int),
            decreases na - m,
        {
            let e = describe_action(&self.action_log[na - 1 - m]);
            let ghost ev0 = events@;
            events.push(e);
            assert(latest(self.action_log@, k as int)[m as int] == self.action_log@[na - 1 - m]);
            assert(la[m as int] == e@);
            assert(events@.map_values(|s: String| s@) =~= ev0.map_values(|s: String| s@).push(e@));
            assert(events@.map_values(|s: String| s@) =~= a2 + la.take(m + 1));
            m = m + 1;
        }
        assert(la.take(m as int) =~= la);
        events
    }
}

/// `Round <round>/<total> (hour <hour>)`
pub open spec fn round_message(round: u32, total: u32, hour: usize) -> Seq<char> {
    "Round "@ + decimal(round as nat) + "/"@ + decimal(total as nat) + " (hour "@ + decimal(
        hour as nat,
    ) + ")"@
}

/// The JSON number `n`.
pub open spec fn jnum(n: nat) -> crate::json::JsonModel {
    crate::json::JsonModel::Number(crate::json::JsonNumber::PosInt(n as u64))
}

fn num(n: u64) -> (r: crate::json::JsonValue)
    ensures
        crate::json::json_model(r) == jnum(n as nat),
{
    crate::json::JsonValue::Number(crate::json::JsonNumber::PosInt(n))
}

impl SimulationEngine {
    /// Starts the run at time `now`: running, with the initial posts seeded.
    pub fn begin_run(&mut self, now: i64)
        requires
            old(self).wf(),
        ensures
            final(self).wf(),
            final(self).is_running,
            final(self).simulation.status == SimulationStatus::Running,
            final(self).simulation.started_at == Some(now),
            final(self).posts@.len() == old(self).posts@.len() + old(self).initial_posts@.len(),
            final(self).posts@.take(old(self).posts@.len() as int) == old(self).posts@,
            forall|i: int|
                0 <= i < old(self).initial_posts@.len() ==> is_new_post(
                    #[trigger] final(self).posts@[old(self).posts@.len() + i],
                    post_id_of(i as nat),
                    0,
                    "System"@,
                    "twitter"@,
                    old(self).initial_posts@[i].content@,
                    Some(old(self).initial_posts@[i].topic),
                    now,
                ),
            final(self).comments == old(self).comments,
            final(self).action_log == old(self).action_log,
            final(self).total_actions == old(self).total_actions,
            final(self).is_paused == old(self).is_paused,
            final(self).minutes_per_round == old(self).minutes_per_round,
            final(self).total_simulation_hours == old(self).total_simulation_hours,
            final(self).current_round == old(self).current_round,
            final(self).initial_posts == old(self).initial_posts,
            final(self).simulation == (Simulation {
                status: SimulationStatus::Running,
                started_at: Some(now),
                ..old(self).simulation
            }),
    {
        self.is_running = true;
        self.simulation.status = SimulationStatus::Running;
        self.simulation.started_at = Some(now);
        self.seed_initial_posts(now);
    }

    /// Enters `round` and returns its simulated hour.
    pub fn begin_round(&mut self, round: u32) -> (hour: usize)
        requires
            round * old(self).minutes_per_round <= u32::MAX,
        ensures
            final(self).current_round == round,
            hour == hour_of(round, old(self).minutes_per_round),
            *final(self) == (SimulationEngine { current_round: round, ..*old(self) }),
    {
        self.current_round = round;
        self.round_to_hour(round)
    }

    /// Ends the run at time `now`: not running, completed.
    pub fn finish_run(&mut self, now: i64)
        ensures
            !final(self).is_running,
            final(self).simulation.status == SimulationStatus::Completed,
            final(self).simulation.completed_at == Some(now),
            final(self).posts == old(self).posts,
            final(self).comments == old(self).comments,
            final(self).action_log == old(self).action_log,
            final(self).total_actions == old(self).total_actions,
            final(self).current_round == old(self).current_round,
            final(self).is_paused == old(self).is_paused,
            old(self).wf() ==> final(self).wf(),
            *final(self) == (SimulationEngine {
                is_running: false,
                simulation: Simulation {
                    status: SimulationStatus::Completed,
                    completed_at: Some(now),
                    ..old(self).simulation
                },
                ..*old(self)
            }),
    {
        self.stop_at(now);
    }

    /// The progress message of a round.
    pub fn round_message(&self, round: u32, total_rounds: u32, hour: usize) -> (r: String)
        ensures
            r@ == round_message(round, total_rounds, hour),
    {
        let mut s = owned("Round ");
        push_str(&mut s, decimal_string(round as u64).as_str());
        push_str(&mut s, "/");
        push_str(&mut s, decimal_string(total_rounds as u64).as_str());
        push_str(&mut s, " (hour ");
        push_str(&mut s, decimal_string(hour as u64).as_str());
        push_str(&mut s, ")");
        s
    }

    /// The progress detail of a round: its number, the number of rounds, the
    /// hour, and the counts of posts, comments and actions so far.
    pub fn round_detail(&self, round: u32, total_rounds: u32, hour: usize) -> (r:
        crate::json::JsonValue)
        ensures
            crate::json::json_model(r) == crate::json::JsonModel::Object(
                seq![
                    ("actions"@, jnum(self.total_actions as nat)),
                    ("comments"@, jnum(self.comments@.len())),
                    ("hour"@, jnum(hour as nat)),
                    ("posts"@, jnum(self.posts@.len())),
                    ("round"@, jnum(round as nat)),
                    ("total_rounds"@, jnum(total_rounds as nat)),
                ],
            ),
    {
        let fields = vec![
            (owned("actions"), num(self.total_actions as u64)),
            (owned("comments"), num(self.comments.len() as u64)),
            (owned("hour"), num(hour as u64)),
            (owned("posts"), num(self.posts.len() as u64)),
            (owned("round"), num(round as u64)),
            (owned("total_rounds"), num(total_rounds as u64)),
        ];
        let r = crate::json::JsonValue::Object(fields);
        proof {
            if let crate::json::JsonModel::Object(x) = crate::json::json_model(r) {
                assert(x =~= seq![
                    ("actions"@, jnum(self.total_actions as nat)),
                    ("comments"@, jnum(self.comments@.len())),
                    ("hour"@, jnum(hour as nat)),
                    ("posts"@, jnum(self.posts@.len())),
                    ("round"@, jnum(round as nat)),
                    ("total_rounds"@, jnum(total_rounds as nat)),
                ]);
            }
        }
        r
    }

    /// The number of logged actions on `platform`.
    fn count_platform(&self, platform: &str) -> (r: usize)
        ensures
            r == count_on(self.action_log@, platform@),
    {
        let mut n: usize = 0;
        let mut i: usize = 0;
        while i < self.action_log.len()
            invariant
                i <= self.action_log@.len(),
                n == count_on(self.action_log@.take(i as int), platform@),
            decreases self.action_log.len() - i,
        {
            proof {
                assert(self.action_log@.take(i + 1).drop_last() =~= self.action_log@.take(i as int));
                lemma_count_on_bound(self.action_log@.take(i as int), platform@);
            }
            if str_eq(self.action_log[i].platform.as_str(), platform) {
                n = n + 1;
            }
            i = i + 1;
        }
        assert(self.action_log@.take(i as int) =~= self.action_log@);
        n
    }

    /// The run's state, but for its progress percentage and times: paused,
    /// running or completed; the rounds and hours; the actions per platform.
    pub fn run_counts(&self) -> (r: RunCounts)
        requires
            self.timing_ok(),
            self.current_round * self.minutes_per_round <= u32::MAX,
        ensures
            r.runner_status == (if self.is_paused {
                RunnerStatus::Paused
            } else if self.is_running {
                RunnerStatus::Running
            } else {
                RunnerStatus::Completed
            }),
            r.current_round == self.current_round,
            r.total_rounds == total_rounds_of(self.total_simulation_hours, self.minutes_per_round),
            r.simulated_hours == hour_of(self.current_round, self.minutes_per_round),
            r.total_simulation_hours == self.total_simulation_hours,
            r.twitter_running == (self.is_running && self.simulation.enable_twitter),
            r.reddit_running == (self.is_running && self.simulation.enable_reddit),
            r.twitter_actions_count == count_on(self.action_log@, "twitter"@),
            r.reddit_actions_count == count_on(self.action_log@, "reddit"@),
            r.total_actions_count == self.total_actions,
    {
        let runner_status = if self.is_paused {
            RunnerStatus::Paused
        } else if self.is_running {
            RunnerStatus::Running
        } else {
            RunnerStatus::Completed
        };
        RunCounts {
            runner_status,
            current_round: self.current_round,
            total_rounds: self.total_rounds(),
            simulated_hours: self.round_to_hour(self.current_round) as u32,
            total_simulation_hours: self.total_simulation_hours,
            twitter_running: self.is_running && self.simulation.enable_twitter,
            reddit_running: self.is_running && self.simulation.enable_reddit,
            twitter_actions_count: self.count_platform("twitter"),
            reddit_actions_count: self.count_platform("reddit"),
            total_actions_count: self.total_actions,
        }
    }
}


/// `after` is `before` moved on to `round` and through that round's
/// actions: the round set (as `begin_round` does); the simulation, the run
/// flag and the timing kept, and the log only extended (as
/// `execute_action_by_id` does).
pub open spec fn round_played(before: SimulationEngine, after: SimulationEngine, round: u32) -> bool {
    &&& after.current_round == round
    &&& after.simulation == before.simulation
    &&& after.is_running == before.is_running
    &&& after.minutes_per_round == before.minutes_per_round
    &&& after.total_simulation_hours == before.total_simulation_hours
    &&& after.action_log@.len() >= before.action_log@.len()
    &&& after.action_log@.take(before.action_log@.len() as int) == before.action_log@
}

/// The engine as `finish_run` leaves it at time `now`.
pub open spec fn finished_at(e: SimulationEngine, now: i64) -> SimulationEngine {
    SimulationEngine {
        is_running: false,
        simulation: Simulation {
            status: SimulationStatus::Completed,
            completed_at: Some(now),
            ..e.simulation
        },
        ..e
    }
}

proof fn lemma_rounds_keep(rounds: Seq<SimulationEngine>, k: int)
    requires
        1 <= k < rounds.len(),
        forall|r: int| 1 <= r < rounds.len() ==> round_played(rounds[r - 1], #[trigger] rounds[r], r as u32),
    ensures
        rounds[k].simulation == rounds[0].simulation,
        rounds[k].is_running == rounds[0].is_running,
        rounds[k].minutes_per_round == rounds[0].minutes_per_round,
        rounds[k].total_simulation_hours == rounds[0].total_simulation_hours,
        rounds[k].action_log@.len() >= rounds[0].action_log@.len(),
        rounds[k].action_log@.take(rounds[0].action_log@.len() as int) == rounds[0].action_log@,
    decreases k,
{
    assert(round_played(rounds[k - 1], rounds[k], k as u32));
    if k > 1 {
        lemma_rounds_keep(rounds, k - 1);
        let n0 = rounds[0].action_log@.len() as int;
        let n1 = rounds[k - 1].action_log@.len() as int;
        assert(rounds[k].action_log@.take(n0) =~= rounds[k].action_log@.take(n1).take(n0));
    }
}

/// A run ends at its last round, completed: a run whose rounds 1 to n (n
/// the run's number of rounds) are played in turn from the state
/// `rounds[0]` left by `begin_run`, then finished by `finish_run`, ends at
/// round n, completed and not running, with its simulation's start and
/// identifier as the run began, and every action logged before the rounds
/// still first in the log.
pub proof fn lemma_run_ends_at_last_round(rounds: Seq<SimulationEngine>, finished: SimulationEngine, now: i64)
    requires
        rounds.len() >= 1,
        rounds[0].timing_ok(),
        rounds.len() == total_rounds_of(rounds[0].total_simulation_hours, rounds[0].minutes_per_round) + 1,
        forall|r: int| 1 <= r < rounds.len() ==> round_played(rounds[r - 1], #[trigger] rounds[r], r as u32),
        finished == finished_at(rounds.last(), now),
    ensures
        rounds.len() > 1 ==> finished.current_round == total_rounds_of(
            rounds[0].total_simulation_hours,
            rounds[0].minutes_per_round,
        ),
        finished.simulation.status == SimulationStatus::Completed,
        finished.simulation.completed_at == Some(now),
        !finished.is_running,
        finished.simulation.started_at == rounds[0].simulation.started_at,
        finished.simulation.simulation_id == rounds[0].simulation.simulation_id,
        finished.action_log@.take(rounds[0].action_log@.len() as int) == rounds[0].action_log@,
{
    let n = rounds.len() - 1;
    let h = rounds[0].total_simulation_hours * 60;
    let m = rounds[0].minutes_per_round as int;
    assert(h / m <= h) by (nonlinear_arith)
        requires
            h >= 0,
            m >= 1,
    ;
    if n >= 1 {
        lemma_rounds_keep(rounds, n);
        assert(round_played(rounds[n - 1], rounds[n], n as u32));
    }
}

} // verus!
