//! Graph memory updates: agent activities turned into natural-language
//! episodes, batched per platform before they are sent to the graph.
use vstd::prelude::*;
use crate::json::{JsonValue, json_as_u64, json_get, json_as_str, str_field, str_or_empty};
use crate::strs::{join, owned, push_str, str_eq};

verus! {

/// An agent activity record for graph memory update.
pub struct AgentActivity {
    /// "twitter" or "reddit"
    pub platform: String,
    pub agent_id: usize,
    pub agent_name: String,
    /// "CREATE_POST", "LIKE_POST", ...
    pub action_type: String,
    pub action_args: JsonValue,
    pub round_num: u32,
    pub timestamp: String,
}

/// `「x」`
pub open spec fn quoted(x: Seq<char>) -> Seq<char> {
    "「"@ + x + "」"@
}

/// The text of the first of `k1`, `k2` that the arguments hold, as
/// `get(k1).or_else(|| get(k2)).and_then(as_str).unwrap_or("")` gives it.
pub open spec fn str_either(v: JsonValue, k1: Seq<char>, k2: Seq<char>) -> Seq<char> {
    let f = if json_get(v, k1) is Some {
        json_get(v, k1)
    } else {
        json_get(v, k2)
    };
    match json_as_str(f) {
        Some(s) => s,
        None => Seq::empty(),
    }
}

/// A post/comment description by content and author, where `verb` is what
/// the agent did and `what` names the object ("帖子" or "评论").
pub open spec fn describe_with_author(verb: Seq<char>, what: Seq<char>, content: Seq<char>, author: Seq<char>) -> Seq<char> {
    if content.len() > 0 && author.len() > 0 {
        verb + author + "的"@ + what + "："@ + quoted(content)
    } else if content.len() > 0 {
        verb + "一条"@ + what + "："@ + quoted(content)
    } else if author.len() > 0 {
        verb + author + "的一条"@ + what
    } else {
        verb + "一条"@ + what
    }
}

pub open spec fn spec_describe_create_post(a: JsonValue) -> Seq<char> {
    let content = str_or_empty(a, "content"@);
    if content.len() > 0 {
        "发布了一条帖子："@ + quoted(content)
    } else {
        "发布了一条帖子"@
    }
}

pub open spec fn spec_describe_quote_post(a: JsonValue) -> Seq<char> {
    let content = str_or_empty(a, "original_content"@);
    let author = str_or_empty(a, "original_author_name"@);
    let quote = str_either(a, "quote_content"@, "content"@);
    let base = if content.len() > 0 && author.len() > 0 {
        "引用了"@ + author + "的帖子"@ + quoted(content)
    } else if content.len() > 0 {
        "引用了一条帖子"@ + quoted(content)
    } else if author.len() > 0 {
        "引用了"@ + author + "的一条帖子"@
    } else {
        "引用了一条帖子"@
    };
    if quote.len() > 0 {
        base + "，并评论道："@ + quoted(quote)
    } else {
        base
    }
}

pub open spec fn spec_describe_create_comment(a: JsonValue) -> Seq<char> {
    let content = str_or_empty(a, "content"@);
    let post_content = str_or_empty(a, "post_content"@);
    let post_author = str_or_empty(a, "post_author_name"@);
    if content.len() > 0 {
        if post_content.len() > 0 && post_author.len() > 0 {
            "在"@ + post_author + "的帖子"@ + quoted(post_content) + "下评论道："@ + quoted(content)
        } else if post_content.len() > 0 {
            "在帖子"@ + quoted(post_content) + "下评论道："@ + quoted(content)
        } else if post_author.len() > 0 {
            "在"@ + post_author + "的帖子下评论道："@ + quoted(content)
        } else {
            "评论道："@ + quoted(content)
        }
    } else {
        "发表了评论"@
    }
}

/// `{prefix}「{target}」` when the target is named, else `fallback`.
pub open spec fn describe_target(target: Seq<char>, prefix: Seq<char>, fallback: Seq<char>) -> Seq<char> {
    if target.len() > 0 {
        prefix + quoted(target)
    } else {
        fallback
    }
}

/// The natural-language description of an activity, by its action type.
pub open spec fn spec_description(action_type: Seq<char>, a: JsonValue) -> Seq<char> {
    if action_type == "CREATE_POST"@ {
        spec_describe_create_post(a)
    } else if action_type == "LIKE_POST"@ {
        describe_with_author("点赞了"@, "帖子"@, str_or_empty(a, "post_content"@), str_or_empty(a, "post_author_name"@))
    } else if action_type == "DISLIKE_POST"@ {
        describe_with_author("踩了"@, "帖子"@, str_or_empty(a, "post_content"@), str_or_empty(a, "post_author_name"@))
    } else if action_type == "REPOST"@ {
        describe_with_author("转发了"@, "帖子"@, str_or_empty(a, "original_content"@), str_or_empty(a, "original_author_name"@))
    } else if action_type == "QUOTE_POST"@ {
        spec_describe_quote_post(a)
    } else if action_type == "FOLLOW"@ {
        describe_target(str_or_empty(a, "target_user_name"@), "关注了用户"@, "关注了一个用户"@)
    } else if action_type == "CREATE_COMMENT"@ {
        spec_describe_create_comment(a)
    } else if action_type == "LIKE_COMMENT"@ {
        describe_with_author("点赞了"@, "评论"@, str_or_empty(a, "comment_content"@), str_or_empty(a, "comment_author_name"@))
    } else if action_type == "DISLIKE_COMMENT"@ {
        describe_with_author("踩了"@, "评论"@, str_or_empty(a, "comment_content"@), str_or_empty(a, "comment_author_name"@))
    } else if action_type == "SEARCH_POSTS"@ {
        describe_target(str_either(a, "query"@, "keyword"@), "搜索了"@, "进行了搜索"@)
    } else if action_type == "SEARCH_USER"@ {
        describe_target(str_either(a, "query"@, "username"@), "搜索了用户"@, "搜索了用户"@)
    } else if action_type == "MUTE"@ {
        describe_target(str_or_empty(a, "target_user_name"@), "屏蔽了用户"@, "屏蔽了一个用户"@)
    } else {
        "执行了"@ + action_type + "操作"@
    }
}

/// `x` followed by `「y」`.
fn push_quoted(s: &mut String, y: &str)
    ensures
        final(s)@ == old(s)@ + quoted(y@),
{
    push_str(s, "「");
    push_str(s, y);
    push_str(s, "」");
    assert(final(s)@ =~= old(s)@ + quoted(y@));
}

fn str_either_field(v: &JsonValue, k1: &str, k2: &str) -> (r: String)
    ensures
        r@ == str_either(*v, k1@, k2@),
{
    let f = match v.get(k1) {
        Some(x) => Some(x),
        None => v.get(k2),
    };
    match f {
        Some(x) => match x.as_str() {
            Some(t) => owned(t),
            None => String::new(),
        },
        None => String::new(),
    }
}

fn describe_by_author(verb: &str, what: &str, content: &str, author: &str) -> (r: String)
    ensures
        r@ == describe_with_author(verb@, what@, content@, author@),
{
    let mut s = String::new();
    push_str(&mut s, verb);
    if !content.is_empty() && !author.is_empty() {
        push_str(&mut s, author);
        push_str(&mut s, "的");
        push_str(&mut s, what);
        push_str(&mut s, "：");
        push_quoted(&mut s, content);
    } else if !content.is_empty() {
        push_str(&mut s, "一条");
        push_str(&mut s, what);
        push_str(&mut s, "：");
        push_quoted(&mut s, content);
    } else if !author.is_empty() {
        push_str(&mut s, author);
        push_str(&mut s, "的一条");
        push_str(&mut s, what);
    } else {
        push_str(&mut s, "一条");
        push_str(&mut s, what);
    }
    assert(s@ =~= describe_with_author(verb@, what@, content@, author@));
    s
}

fn describe_target_exec(target: &str, prefix: &str, fallback: &str) -> (r: String)
    ensures
        r@ == describe_target(target@, prefix@, fallback@),
{
    if !target.is_empty() {
        let mut s = String::new();
        push_str(&mut s, prefix);
        push_quoted(&mut s, target);
        assert(s@ =~= describe_target(target@, prefix@, fallback@));
        s
    } else {
        owned(fallback)
    }
}

impl AgentActivity {
    /// Convert activity to natural language description for the graph.
    pub fn to_episode_text(&self) -> (r: String)
        ensures
            r@ == self.agent_name@ + ": "@ + spec_description(self.action_type@, self.action_args),
    {
        let t = self.action_type.as_str();
        let description = if str_eq(t, "CREATE_POST") {
            self._describe_create_post()
        } else if str_eq(t, "LIKE_POST") {
            self._describe_like_post()
        } else if str_eq(t, "DISLIKE_POST") {
            self._describe_dislike_post()
        } else if str_eq(t, "REPOST") {
            self._describe_repost()
        } else if str_eq(t, "QUOTE_POST") {
            self._describe_quote_post()
        } else if str_eq(t, "FOLLOW") {
            self._describe_follow()
        } else if str_eq(t, "CREATE_COMMENT") {
            self._describe_create_comment()
        } else if str_eq(t, "LIKE_COMMENT") {
            self._describe_like_comment()
        } else if str_eq(t, "DISLIKE_COMMENT") {
            self._describe_dislike_comment()
        } else if str_eq(t, "SEARCH_POSTS") {
            self._describe_search()
        } else if str_eq(t, "SEARCH_USER") {
            self._describe_search_user()
        } else if str_eq(t, "MUTE") {
            self._describe_mute()
        } else {
            self._describe_generic()
        };
        let mut s = owned(self.agent_name.as_str());
        push_str(&mut s, ": ");
        push_str(&mut s, description.as_str());
        s
    }

    pub fn _describe_create_post(&self) -> (r: String)
        ensures
            r@ == spec_describe_create_post(self.action_args),
    {
        let content = str_field(&self.action_args, "content");
        if !content.as_str().is_empty() {
            let mut s = owned("发布了一条帖子：");
            push_quoted(&mut s, content.as_str());
            return s;
        }
        owned("发布了一条帖子")
    }

    pub fn _describe_like_post(&self) -> (r: String)
        ensures
            r@ == describe_with_author("点赞了"@, "帖子"@, str_or_empty(self.action_args, "post_content"@), str_or_empty(self.action_args, "post_author_name"@)),
    {
        let c = str_field(&self.action_args, "post_content");
        let a = str_field(&self.action_args, "post_author_name");
        describe_by_author("点赞了", "帖子", c.as_str(), a.as_str())
    }

    pub fn _describe_dislike_post(&self) -> (r: String)
        ensures
            r@ == describe_with_author("踩了"@, "帖子"@, str_or_empty(self.action_args, "post_content"@), str_or_empty(self.action_args, "post_author_name"@)),
    {
        let c = str_field(&self.action_args, "post_content");
        let a = str_field(&self.action_args, "post_author_name");
        describe_by_author("踩了", "帖子", c.as_str(), a.as_str())
    }

    pub fn _describe_repost(&self) -> (r: String)
        ensures
            r@ == describe_with_author("转发了"@, "帖子"@, str_or_empty(self.action_args, "original_content"@), str_or_empty(self.action_args, "original_author_name"@)),
    {
        let c = str_field(&self.action_args, "original_content");
        let a = str_field(&self.action_args, "original_author_name");
        describe_by_author("转发了", "帖子", c.as_str(), a.as_str())
    }

    pub fn _describe_quote_post(&self) -> (r: String)
        ensures
            r@ == spec_describe_quote_post(self.action_args),
    {
        let content = str_field(&self.action_args, "original_content");
        let author = str_field(&self.action_args, "original_author_name");
        let quote = str_either_field(&self.action_args, "quote_content", "content");
        let mut base = String::new();
        if !content.as_str().is_empty() && !author.as_str().is_empty() {
            push_str(&mut base, "引用了");
            push_str(&mut base, author.as_str());
            push_str(&mut base, "的帖子");
            push_quoted(&mut base, content.as_str());
        } else if !content.as_str().is_empty() {
            push_str(&mut base, "引用了一条帖子");
            push_quoted(&mut base, content.as_str());
        } else if !author.as_str().is_empty() {
            push_str(&mut base, "引用了");
            push_str(&mut base, author.as_str());
            push_str(&mut base, "的一条帖子");
        } else {
            push_str(&mut base, "引用了一条帖子");
        }
        if !quote.as_str().is_empty() {
            push_str(&mut base, "，并评论道：");
            push_quoted(&mut base, quote.as_str());
        }
        assert(base@ =~= spec_describe_quote_post(self.action_args));
        base
    }

    pub fn _describe_follow(&self) -> (r: String)
        ensures
            r@ == describe_target(str_or_empty(self.action_args, "target_user_name"@), "关注了用户"@, "关注了一个用户"@),
    {
        let target = str_field(&self.action_args, "target_user_name");
        describe_target_exec(target.as_str(), "关注了用户", "关注了一个用户")
    }

    pub fn _describe_create_comment(&self) -> (r: String)
        ensures
            r@ == spec_describe_create_comment(self.action_args),
    {
        let content = str_field(&self.action_args, "content");
        let post_content = str_field(&self.action_args, "post_content");
        let post_author = str_field(&self.action_args, "post_author_name");
        let mut s = String::new();
        if !content.as_str().is_empty() {
            if !post_content.as_str().is_empty() && !post_author.as_str().is_empty() {
                push_str(&mut s, "在");
                push_str(&mut s, post_author.as_str());
                push_str(&mut s, "的帖子");
                push_quoted(&mut s, post_content.as_str());
                push_str(&mut s, "下评论道：");
                push_quoted(&mut s, content.as_str());
            } else if !post_content.as_str().is_empty() {
                push_str(&mut s, "在帖子");
                push_quoted(&mut s, post_content.as_str());
                push_str(&mut s, "下评论道：");
                push_quoted(&mut s, content.as_str());
            } else if !post_author.as_str().is_empty() {
                push_str(&mut s, "在");
                push_str(&mut s, post_author.as_str());
                push_str(&mut s, "的帖子下评论道：");
                push_quoted(&mut s, content.as_str());
            } else {
                push_str(&mut s, "评论道：");
                push_quoted(&mut s, content.as_str());
            }
        } else {
            push_str(&mut s, "发表了评论");
        }
        assert(s@ =~= spec_describe_create_comment(self.action_args));
        s
    }

    pub fn _describe_like_comment(&self) -> (r: String)
        ensures
            r@ == describe_with_author("点赞了"@, "评论"@, str_or_empty(self.action_args, "comment_content"@), str_or_empty(self.action_args, "comment_author_name"@)),
    {
        let c = str_field(&self.action_args, "comment_content");
        let a = str_field(&self.action_args, "comment_author_name");
        describe_by_author("点赞了", "评论", c.as_str(), a.as_str())
    }

    pub fn _describe_dislike_comment(&self) -> (r: String)
        ensures
            r@ == describe_with_author("踩了"@, "评论"@, str_or_empty(self.action_args, "comment_content"@), str_or_empty(self.action_args, "comment_author_name"@)),
    {
        let c = str_field(&self.action_args, "comment_content");
        let a = str_field(&self.action_args, "comment_author_name");
        describe_by_author("踩了", "评论", c.as_str(), a.as_str())
    }

    pub fn _describe_search(&self) -> (r: String)
        ensures
            r@ == describe_target(str_either(self.action_args, "query"@, "keyword"@), "搜索了"@, "进行了搜索"@),
    {
        let q = str_either_field(&self.action_args, "query", "keyword");
        describe_target_exec(q.as_str(), "搜索了", "进行了搜索")
    }

    pub fn _describe_search_user(&self) -> (r: String)
        ensures
            r@ == describe_target(str_either(self.action_args, "query"@, "username"@), "搜索了用户"@, "搜索了用户"@),
    {
        let q = str_either_field(&self.action_args, "query", "username");
        describe_target_exec(q.as_str(), "搜索了用户", "搜索了用户")
    }

    pub fn _describe_mute(&self) -> (r: String)
        ensures
            r@ == describe_target(str_or_empty(self.action_args, "target_user_name"@), "屏蔽了用户"@, "屏蔽了一个用户"@),
    {
        let target = str_field(&self.action_args, "target_user_name");
        describe_target_exec(target.as_str(), "屏蔽了用户", "屏蔽了一个用户")
    }

    pub fn _describe_generic(&self) -> (r: String)
        ensures
            r@ == "执行了"@ + self.action_type@ + "操作"@,
    {
        let mut s = owned("执行了");
        push_str(&mut s, self.action_type.as_str());
        push_str(&mut s, "操作");
        s
    }
}


/// Statistics for the memory updater.
pub struct MemoryUpdaterStats {
    pub total_activities: usize,
    pub batches_sent: usize,
    pub items_sent: usize,
    pub failed_batches: usize,
    pub skipped_count: usize,
}

impl Default for MemoryUpdaterStats {
    fn default() -> (r: Self)
        ensures
            r.total_activities == 0 && r.batches_sent == 0 && r.items_sent == 0
                && r.failed_batches == 0 && r.skipped_count == 0,
    {
        MemoryUpdaterStats {
            total_activities: 0,
            batches_sent: 0,
            items_sent: 0,
            failed_batches: 0,
            skipped_count: 0,
        }
    }
}

/// Configuration for the graph memory updater.
pub struct MemoryUpdaterConfig {
    pub batch_size: usize,
    pub send_interval_ms: u64,
    pub max_retries: usize,
    pub retry_delay_ms: u64,
}

impl Default for MemoryUpdaterConfig {
    fn default() -> (r: Self)
        ensures
            r.batch_size == 5 && r.send_interval_ms == 500 && r.max_retries == 3
                && r.retry_delay_ms == 2000,
    {
        MemoryUpdaterConfig { batch_size: 5, send_interval_ms: 500, max_retries: 3, retry_delay_ms: 2000 }
    }
}

/// The lower-case form of a text, as `str::to_lowercase` gives it.
pub uninterp spec fn lowercase(s: Seq<char>) -> Seq<char>;

/// `str::to_lowercase`; the result is the Unicode lower-case mapping of the
/// text, named `lowercase` and otherwise not spelled out here.
#[verifier::external_body]
fn to_lowercase(s: &str) -> (r: String)
    ensures
        r@ == lowercase(s@),
{
    s.to_lowercase()
}

/// Whether an activity is the passive "DO_NOTHING" one, which is skipped.
pub open spec fn is_do_nothing(a: AgentActivity) -> bool {
    a.action_type@ == "DO_NOTHING"@
}

/// The activities waiting to be sent, one buffer per platform.
pub struct PlatformBuffer {
    pub platform: String,
    pub activities: Vec<AgentActivity>,
}

/// The per-platform activity buffers of a graph memory updater, with its
/// statistics.
pub struct ActivityBuffers {
    pub buffers: Vec<PlatformBuffer>,
    pub stats: MemoryUpdaterStats,
}

/// The position of the buffer for `platform`, or `bufs.len()`.
pub open spec fn buffer_index(bufs: Seq<PlatformBuffer>, platform: Seq<char>, i: int) -> int
    decreases bufs.len() - i,
{
    if i < 0 || i >= bufs.len() {
        bufs.len() as int
    } else if bufs[i].platform@ == platform {
        i
    } else {
        buffer_index(bufs, platform, i + 1)
    }
}

pub proof fn lemma_buffer_index(bufs: Seq<PlatformBuffer>, platform: Seq<char>, i: int)
    requires
        0 <= i <= bufs.len(),
    ensures
        i <= buffer_index(bufs, platform, i) <= bufs.len(),
    decreases bufs.len() - i,
{
    if i < bufs.len() && bufs[i].platform@ != platform {
        lemma_buffer_index(bufs, platform, i + 1);
    }
}

/// The number of activities waiting in `bufs`.
pub open spec fn buffered_count(bufs: Seq<PlatformBuffer>) -> int
    decreases bufs.len(),
{
    if bufs.len() == 0 {
        0
    } else {
        buffered_count(bufs.drop_last()) + bufs.last().activities.len()
    }
}

/// The activities of a batch, joined line by line as one episode.
pub open spec fn batch_episode(batch: Seq<AgentActivity>) -> Seq<char> {
    join(
        batch.map_values(
            |a: AgentActivity| a.agent_name@ + ": "@ + spec_description(a.action_type@, a.action_args),
        ),
        "\n"@,
    )
}

/// What a batch of activities is sent as: their episode texts, one per line.
pub fn batch_text(batch: &Vec<AgentActivity>) -> (r: String)
    ensures
        r@ == batch_episode(batch@),
{
    let ghost texts = batch@.map_values(
        |a: AgentActivity| a.agent_name@ + ": "@ + spec_description(a.action_type@, a.action_args),
    );
    let mut out = String::new();
    let mut i: usize = 0;
    while i < batch.len()
        invariant
            i <= batch.len(),
            texts == batch@.map_values(
                |a: AgentActivity| a.agent_name@ + ": "@ + spec_description(a.action_type@, a.action_args),
            ),
            out@ == join(texts.take(i as int), "\n"@),
        decreases batch.len() - i,
    {
        let t = batch[i].to_episode_text();
        if i > 0 {
            push_str(&mut out, "\n");
        }
        push_str(&mut out, t.as_str());
        assert(texts.take(i + 1).drop_last() =~= texts.take(i as int));
        i = i + 1;
    }
    assert(texts.take(batch.len() as int) =~= texts);
    out
}

impl ActivityBuffers {
    /// Empty buffers and zero statistics.
    pub fn new() -> (r: Self)
        ensures
            r.buffers@.len() == 0,
            r.stats.skipped_count == 0 && r.stats.batches_sent == 0 && r.stats.items_sent == 0
                && r.stats.failed_batches == 0 && r.stats.total_activities == 0,
    {
        ActivityBuffers { buffers: Vec::new(), stats: MemoryUpdaterStats::default() }
    }

    /// Add an activity to the buffer of its (lower-cased) platform; a
    /// "DO_NOTHING" activity is counted as skipped instead. Returns whether
    /// the activity was buffered.
    pub fn add_activity(&mut self, activity: AgentActivity) -> (queued: bool)
        requires
            is_do_nothing(activity) ==> old(self).stats.skipped_count < usize::MAX,
        ensures
            queued == !is_do_nothing(activity),
            !queued ==> final(self).buffers@ == old(self).buffers@ && final(self).stats.skipped_count
                == old(self).stats.skipped_count + 1,
            queued ==> {
                let p = lowercase(activity.platform@);
                let k = buffer_index(old(self).buffers@, p, 0);
                &&& final(self).stats == old(self).stats
                &&& k < old(self).buffers@.len() ==> final(self).buffers@ == old(self).buffers@.update(
                    k,
                    PlatformBuffer {
                        platform: old(self).buffers@[k].platform,
                        activities: final(self).buffers@[k].activities,
                    },
                ) && final(self).buffers@[k].activities@ == old(self).buffers@[k].activities@.push(
                    activity,
                )
                &&& k >= old(self).buffers@.len() ==> final(self).buffers@.len()
                    == old(self).buffers@.len() + 1 && final(self).buffers@.drop_last()
                    == old(self).buffers@ && final(self).buffers@.last().platform@ == p
                    && final(self).buffers@.last().activities@ == seq![activity]
            },
    {
        if str_eq(activity.action_type.as_str(), "DO_NOTHING") {
            self.stats.skipped_count = self.stats.skipped_count + 1;
            return false;
        }
        let platform = to_lowercase(activity.platform.as_str());
        let mut i: usize = 0;
        while i < self.buffers.len()
            invariant
                self.buffers@ == old(self).buffers@,
                self.stats == old(self).stats,
                !is_do_nothing(activity),
                platform@ == lowercase(activity.platform@),
                i <= self.buffers.len(),
                buffer_index(self.buffers@, platform@, 0) == buffer_index(self.buffers@, platform@, i as int),
            decreases self.buffers.len() - i,
        {
            if str_eq(self.buffers[i].platform.as_str(), platform.as_str()) {
                assert(buffer_index(self.buffers@, platform@, i as int) == i as int);
                let ghost before = self.buffers@;
                let mut buf = self.buffers.remove(i);
                buf.activities.push(activity);
                self.buffers.insert(i, buf);
                assert(self.buffers@ =~= before.update(i as int, self.buffers@[i as int]));
                return true;
            }
            i = i + 1;
        }
        let mut acts = Vec::new();
        acts.push(activity);
        self.buffers.push(PlatformBuffer { platform, activities: acts });
        assert(self.buffers@.drop_last() =~= old(self).buffers@);
        assert(self.buffers@.last().activities@ =~= seq![activity]);
        true
    }

    /// Take the first `batch_size` activities out of every buffer that holds
    /// at least that many, one batch per such buffer, in buffer order.
    pub fn take_ready_batches(&mut self, batch_size: usize) -> (batches: Vec<Vec<AgentActivity>>)
        ensures
            final(self).stats == old(self).stats,
            final(self).buffers@.len() == old(self).buffers@.len(),
            forall|k: int|
                0 <= k < old(self).buffers@.len() ==> {
                    let before = #[trigger] old(self).buffers@[k];
                    let after = final(self).buffers@[k];
                    &&& after.platform == before.platform
                    &&& before.activities@.len() >= batch_size ==> after.activities@
                        == before.activities@.skip(batch_size as int)
                    &&& before.activities@.len() < batch_size ==> after.activities@
                        == before.activities@
                },
            batch_views(batches@) == ready_batches(old(self).buffers@, batch_size as int),
    {
        let mut batches: Vec<Vec<AgentActivity>> = Vec::new();
        let mut i: usize = 0;
        while i < self.buffers.len()
            invariant
                i <= self.buffers.len(),
                self.stats == old(self).stats,
                self.buffers@.len() == old(self).buffers@.len(),
                forall|k: int|
                    i <= k < old(self).buffers@.len() ==> self.buffers@[k] == old(
                        self,
                    ).buffers@[k],
                forall|k: int|
                    0 <= k < i ==> {
                        let before = #[trigger] old(self).buffers@[k];
                        let after = self.buffers@[k];
                        &&& after.platform == before.platform
                        &&& before.activities@.len() >= batch_size ==> after.activities@
                            == before.activities@.skip(batch_size as int)
                        &&& before.activities@.len() < batch_size ==> after.activities@
                            == before.activities@
                    },
                batch_views(batches@) == ready_batches(old(self).buffers@.take(i as int), batch_size as int),
            decreases self.buffers.len() - i,
        {
            let ghost bi = old(self).buffers@[i as int];
            assert(old(self).buffers@.take(i + 1).drop_last() =~= old(self).buffers@.take(i as int));
            if self.buffers[i].activities.len() >= batch_size {
                let ghost before = self.buffers@;
                let mut buf = self.buffers.remove(i);
                let rest = buf.activities.split_off(batch_size);
                let batch = buf.activities;
                buf.activities = rest;
                self.buffers.insert(i, buf);
                assert(batch@ =~= bi.activities@.take(batch_size as int));
                let ghost bv = batch_views(batches@);
                batches.push(batch);
                assert(batch_views(batches@) =~= bv.push(bi.activities@.take(batch_size as int)));
                assert(forall|k: int| 0 <= k < self.buffers@.len() && k != i ==> self.buffers@[k] == before[k]);
            }
            i = i + 1;
        }
        assert(old(self).buffers@.take(i as int) =~= old(self).buffers@);
        batches
    }

    /// Take every non-empty buffer's activities out, in buffer order, and
    /// drop all buffers.
    pub fn flush(&mut self) -> (batches: Vec<Vec<AgentActivity>>)
        ensures
            final(self).stats == old(self).stats,
            final(self).buffers@.len() == 0,
            batch_views(batches@) == pending_batches(old(self).buffers@),
    {
        let mut batches: Vec<Vec<AgentActivity>> = Vec::new();
        let ghost bufs = self.buffers@;
        while self.buffers.len() > 0
            invariant
                self.stats == old(self).stats,
                bufs == old(self).buffers@,
                self.buffers@ == bufs.skip(bufs.len() - self.buffers@.len()),
                self.buffers@.len() <= bufs.len(),
                batch_views(batches@) == pending_batches(bufs.take(bufs.len() - self.buffers@.len())),
            decreases self.buffers.len(),
        {
            let ghost done = bufs.len() - self.buffers@.len();
            let buf = self.buffers.remove(0);
            assert(buf == bufs[done]);
            assert(bufs.take(done + 1).drop_last() =~= bufs.take(done));
            assert(self.buffers@ =~= bufs.skip(done + 1));
            if buf.activities.len() > 0 {
                let ghost bv = batch_views(batches@);
                let ghost acts = buf.activities@;
                batches.push(buf.activities);
                assert(batch_views(batches@) =~= bv.push(acts));
            }
        }
        assert(bufs.take(bufs.len() as int) =~= bufs);
        batches
    }

    /// The delay before the next try at sending a batch of `batch_len`
    /// activities after try number `attempt` (from 0) came back `sent` or
    /// not; `None` when no try follows. A sent batch is counted with its
    /// items; a batch whose last allowed try failed is counted as failed.
    pub fn after_send_attempt(
        &mut self,
        config: &MemoryUpdaterConfig,
        attempt: usize,
        sent: bool,
        batch_len: usize,
    ) -> (retry_after_ms: Option<u64>)
        requires
            attempt < config.max_retries,
            sent ==> old(self).stats.batches_sent < usize::MAX && old(self).stats.items_sent + batch_len <= usize::MAX,
            !sent && attempt + 1 >= config.max_retries ==> old(self).stats.failed_batches < usize::MAX,
            !sent && attempt + 1 < config.max_retries ==> config.retry_delay_ms * (attempt + 1) <= u64::MAX,
        ensures
            final(self).buffers@ == old(self).buffers@,
            retry_after_ms == retry_after(*config, attempt as int, sent),
            sent ==> retry_after_ms is None && final(self).stats == (MemoryUpdaterStats {
                batches_sent: (old(self).stats.batches_sent + 1) as usize,
                items_sent: (old(self).stats.items_sent + batch_len) as usize,
                ..old(self).stats
            }),
            !sent && attempt + 1 < config.max_retries ==> retry_after_ms == Some(
                (config.retry_delay_ms * (attempt + 1)) as u64,
            ) && final(self).stats == old(self).stats,
            !sent && attempt + 1 >= config.max_retries ==> retry_after_ms is None
                && final(self).stats == (MemoryUpdaterStats {
                failed_batches: (old(self).stats.failed_batches + 1) as usize,
                ..old(self).stats
            }),
    {
        if sent {
            self.stats.batches_sent = self.stats.batches_sent + 1;
            self.stats.items_sent = self.stats.items_sent + batch_len;
            None
        } else if attempt < config.max_retries - 1 {
            Some(config.retry_delay_ms * (attempt as u64 + 1))
        } else {
            self.stats.failed_batches = self.stats.failed_batches + 1;
            None
        }
    }

    /// Build an activity from one line of an action log and buffer it.
    /// Lines that describe an event, or name no agent, are ignored; the
    /// result tells whether the activity was buffered.
    pub fn add_activity_from_dict(&mut self, data: JsonValue, platform: &str) -> (queued: bool)
        requires
            old(self).stats.skipped_count < usize::MAX,
        ensures
            (json_get(data, "event_type"@) is Some || json_get(data, "agent_id"@) is None)
                ==> !queued && final(self).buffers@ == old(self).buffers@ && final(self).stats == old(self).stats,
            (json_get(data, "event_type"@) is None && json_get(data, "agent_id"@) is Some
                && str_or_empty(data, "action_type"@) == "DO_NOTHING"@) ==> !queued && final(self).buffers@
                == old(self).buffers@ && final(self).stats.skipped_count == old(self).stats.skipped_count + 1,
            queued ==> buffered_count(final(self).buffers@) == buffered_count(old(self).buffers@) + 1,
    {
        match activity_from_record(data, platform) {
            Some(activity) => {
                let ghost a = activity;
                let q = self.add_activity(activity);
                proof {
                    if q {
                        lemma_add_activity_count(old(self).buffers@, self.buffers@, a, lowercase(a.platform@));
                    }
                }
                q
            },
            None => false,
        }
    }
}


/// The pause before the next try at sending a batch after try `attempt`
/// (from 0) came back `sent` or not: the retry delay times the number of
/// tries so far while tries are left after a failure; none after a success
/// or after the last allowed try.
pub open spec fn retry_after(config: MemoryUpdaterConfig, attempt: int, sent: bool) -> Option<u64> {
    if !sent && attempt + 1 < config.max_retries {
        Some((config.retry_delay_ms * (attempt + 1)) as u64)
    } else {
        None
    }
}

/// A batch that never gets through is tried `max_retries` times in all:
/// after each failed try but the last another follows (tries 0 to k failed
/// lead to try k + 1), after the failed try numbered `max_retries - 1` none
/// does, and a try that gets through is never followed by another.
pub proof fn lemma_failed_batch_tried_max_retries(config: MemoryUpdaterConfig)
    requires
        config.max_retries > 0,
    ensures
        forall|a: int| 0 <= a && a + 1 < config.max_retries ==> #[trigger] retry_after(config, a, false) is Some,
        retry_after(config, config.max_retries - 1, false) is None,
        forall|a: int| #[trigger] retry_after(config, a, true) is None,
{
}

/// The contents of a sequence of batches.
pub open spec fn batch_views(b: Seq<Vec<AgentActivity>>) -> Seq<Seq<AgentActivity>> {
    b.map_values(|v: Vec<AgentActivity>| v@)
}

/// The agent id a log line names, or 0.
pub open spec fn record_u64(data: JsonValue, key: Seq<char>) -> u64 {
    match json_as_u64(json_get(data, key)) {
        Some(n) => n,
        None => 0,
    }
}

/// Build an activity from one line of an action log (a JSON object) for
/// `platform`; lines that describe an event, or name no agent, give `None`.
pub fn activity_from_record(data: JsonValue, platform: &str) -> (r: Option<AgentActivity>)
    ensures
        r is None <==> (json_get(data, "event_type"@) is Some || json_get(data, "agent_id"@) is None),
        r matches Some(a) ==> {
            &&& a.platform@ == platform@
            &&& a.agent_id == record_u64(data, "agent_id"@) as usize
            &&& a.agent_name@ == str_or_empty(data, "agent_name"@)
            &&& a.action_type@ == str_or_empty(data, "action_type"@)
            &&& a.round_num == record_u64(data, "round"@) as u32
            &&& a.timestamp@ == str_or_empty(data, "timestamp"@)
            &&& match json_get(data, "action_args"@) {
                Some(v) => a.action_args == v,
                None => a.action_args matches JsonValue::Object(f) && f@.len() == 0,
            }
        },
{
    if data.get("event_type").is_some() {
        return None;
    }
    if data.get("agent_id").is_none() {
        return None;
    }
    let agent_id = match data.get("agent_id") {
        Some(v) => match v.as_u64() {
            Some(n) => n as usize,
            None => 0,
        },
        None => 0,
    };
    let round_num = match data.get("round") {
        Some(v) => match v.as_u64() {
            Some(n) => n as u32,
            None => 0,
        },
        None => 0,
    };
    let agent_name = str_field(&data, "agent_name");
    let action_type = str_field(&data, "action_type");
    let timestamp = str_field(&data, "timestamp");
    let action_args = match data.into_field("action_args") {
        Some(v) => v,
        None => JsonValue::Object(Vec::new()),
    };
    Some(
        AgentActivity {
            platform: owned(platform),
            agent_id,
            agent_name,
            action_type,
            action_args,
            round_num,
            timestamp,
        },
    )
}

proof fn lemma_buffered_count_update(s: Seq<PlatformBuffer>, k: int, x: PlatformBuffer)
    requires
        0 <= k < s.len(),
    ensures
        buffered_count(s.update(k, x)) == buffered_count(s) - s[k].activities.len()
            + x.activities.len(),
    decreases s.len(),
{
    if k == s.len() - 1 {
        assert(s.update(k, x).drop_last() =~= s.drop_last());
    } else {
        lemma_buffered_count_update(s.drop_last(), k, x);
        assert(s.update(k, x).drop_last() =~= s.drop_last().update(k, x));
    }
}

proof fn lemma_add_activity_count(before: Seq<PlatformBuffer>, after: Seq<PlatformBuffer>, a: AgentActivity, p: Seq<char>)
    requires
        ({
            let k = buffer_index(before, p, 0);
            &&& k < before.len() ==> after == before.update(
                k,
                PlatformBuffer { platform: before[k].platform, activities: after[k].activities },
            ) && after[k].activities@ == before[k].activities@.push(a)
            &&& k >= before.len() ==> after.len() == before.len() + 1 && after.drop_last() == before
                && after.last().activities@ == seq![a]
        }),
    ensures
        buffered_count(after) == buffered_count(before) + 1,
{
    let k = buffer_index(before, p, 0);
    lemma_buffer_index(before, p, 0);
    if k < before.len() {
        lemma_buffered_count_update(
            before,
            k,
            PlatformBuffer { platform: before[k].platform, activities: after[k].activities },
        );
    }
}

/// The batches `take_ready_batches` takes out of `bufs`.
pub open spec fn ready_batches(bufs: Seq<PlatformBuffer>, batch_size: int) -> Seq<Seq<AgentActivity>>
    decreases bufs.len(),
{
    if bufs.len() == 0 {
        Seq::empty()
    } else {
        let earlier = ready_batches(bufs.drop_last(), batch_size);
        let last = bufs.last().activities@;
        if last.len() >= batch_size {
            earlier.push(last.take(batch_size))
        } else {
            earlier
        }
    }
}

/// The batches `flush` takes out of `bufs`.
pub open spec fn pending_batches(bufs: Seq<PlatformBuffer>) -> Seq<Seq<AgentActivity>>
    decreases bufs.len(),
{
    if bufs.len() == 0 {
        Seq::empty()
    } else {
        let earlier = pending_batches(bufs.drop_last());
        if bufs.last().activities@.len() > 0 {
            earlier.push(bufs.last().activities@)
        } else {
            earlier
        }
    }
}


/// A like and a dislike of the same post (or of the same comment) are
/// described by the same words after their verb, which is "点赞了" (liked)
/// for the like and "踩了" (disliked) for the dislike, so the two texts
/// always differ; a post and a comment with the same arguments differ in
/// the object they name.
pub proof fn lemma_like_and_dislike_differ_in_verb(a: JsonValue)
    ensures
        exists|rest: Seq<char>|
            spec_description("LIKE_POST"@, a) == "点赞了"@ + rest && spec_description(
                "DISLIKE_POST"@,
                a,
            ) == "踩了"@ + rest,
        exists|rest: Seq<char>|
            spec_description("LIKE_COMMENT"@, a) == "点赞了"@ + rest && spec_description(
                "DISLIKE_COMMENT"@,
                a,
            ) == "踩了"@ + rest,
        spec_description("LIKE_POST"@, a) != spec_description("DISLIKE_POST"@, a),
        spec_description("LIKE_COMMENT"@, a) != spec_description("DISLIKE_COMMENT"@, a),
{
    reveal_strlit("CREATE_POST");
    reveal_strlit("LIKE_POST");
    reveal_strlit("DISLIKE_POST");
    reveal_strlit("REPOST");
    reveal_strlit("QUOTE_POST");
    reveal_strlit("FOLLOW");
    reveal_strlit("CREATE_COMMENT");
    reveal_strlit("LIKE_COMMENT");
    reveal_strlit("DISLIKE_COMMENT");
    reveal_strlit("点赞了");
    reveal_strlit("踩了");
    assert("LIKE_POST"@[0] != "CREATE_POST"@[0]);
    assert("DISLIKE_POST"@[0] != "CREATE_POST"@[0]);
    assert("DISLIKE_POST"@[0] != "LIKE_POST"@[0]);
    assert("LIKE_COMMENT"@[0] != "CREATE_POST"@[0]);
    assert("LIKE_COMMENT"@[5] != "LIKE_POST"@[5]);
    assert("LIKE_COMMENT"@[0] != "DISLIKE_POST"@[0]);
    assert("LIKE_COMMENT"@[0] != "REPOST"@[0]);
    assert("LIKE_COMMENT"@[0] != "QUOTE_POST"@[0]);
    assert("LIKE_COMMENT"@[0] != "FOLLOW"@[0]);
    assert("LIKE_COMMENT"@[0] != "CREATE_COMMENT"@[0]);
    assert("DISLIKE_COMMENT"@[0] != "CREATE_POST"@[0]);
    assert("DISLIKE_COMMENT"@[0] != "LIKE_POST"@[0]);
    assert("DISLIKE_COMMENT"@[8] != "DISLIKE_POST"@[8]);
    assert("DISLIKE_COMMENT"@[0] != "REPOST"@[0]);
    assert("DISLIKE_COMMENT"@[0] != "QUOTE_POST"@[0]);
    assert("DISLIKE_COMMENT"@[0] != "FOLLOW"@[0]);
    assert("DISLIKE_COMMENT"@[0] != "CREATE_COMMENT"@[0]);
    assert("DISLIKE_COMMENT"@[0] != "LIKE_COMMENT"@[0]);
    let pc = str_or_empty(a, "post_content"@);
    let pa = str_or_empty(a, "post_author_name"@);
    let cc = str_or_empty(a, "comment_content"@);
    let ca = str_or_empty(a, "comment_author_name"@);
    lemma_verb_first("点赞了"@, "踩了"@, "帖子"@, pc, pa);
    lemma_verb_first("点赞了"@, "踩了"@, "评论"@, cc, ca);
    assert(("点赞了"@ + describe_with_author(Seq::empty(), "帖子"@, pc, pa))[0] == '点');
    assert(("踩了"@ + describe_with_author(Seq::empty(), "帖子"@, pc, pa))[0] == '踩');
    assert(("点赞了"@ + describe_with_author(Seq::empty(), "评论"@, cc, ca))[0] == '点');
    assert(("踩了"@ + describe_with_author(Seq::empty(), "评论"@, cc, ca))[0] == '踩');
}

/// A description by content and author is its verb followed by the same
/// words whatever the verb.
proof fn lemma_verb_first(v1: Seq<char>, v2: Seq<char>, what: Seq<char>, content: Seq<char>, author: Seq<char>)
    ensures
        describe_with_author(v1, what, content, author) == v1 + describe_with_author(Seq::empty(), what, content, author),
        describe_with_author(v2, what, content, author) == v2 + describe_with_author(Seq::empty(), what, content, author),
{
    let e = Seq::<char>::empty();
    assert(v1 + author + "的"@ + what + "："@ + quoted(content) =~= v1 + (e + author + "的"@ + what + "："@ + quoted(content)));
    assert(v1 + "一条"@ + what + "："@ + quoted(content) =~= v1 + (e + "一条"@ + what + "："@ + quoted(content)));
    assert(v1 + author + "的一条"@ + what =~= v1 + (e + author + "的一条"@ + what));
    assert(v1 + "一条"@ + what =~= v1 + (e + "一条"@ + what));
    assert(v2 + author + "的"@ + what + "："@ + quoted(content) =~= v2 + (e + author + "的"@ + what + "："@ + quoted(content)));
    assert(v2 + "一条"@ + what + "："@ + quoted(content) =~= v2 + (e + "一条"@ + what + "："@ + quoted(content)));
    assert(v2 + author + "的一条"@ + what =~= v2 + (e + author + "的一条"@ + what));
    assert(v2 + "一条"@ + what =~= v2 + (e + "一条"@ + what));
}


/// `s` begins with `p`.
pub open spec fn begins_with(s: Seq<char>, p: Seq<char>) -> bool {
    p.len() <= s.len() && s.subrange(0, p.len() as int) == p
}

/// Each of these action types is told by its own verb, whatever its
/// arguments: a repost by "转发了" (reposted), a follow by "关注了"
/// (followed), a mute by "屏蔽了" (muted).
pub proof fn lemma_actions_told_by_their_verb(a: JsonValue)
    ensures
        begins_with(spec_description("REPOST"@, a), "转发了"@),
        begins_with(spec_description("FOLLOW"@, a), "关注了"@),
        begins_with(spec_description("MUTE"@, a), "屏蔽了"@),
{
    reveal_strlit("CREATE_POST");
    reveal_strlit("LIKE_POST");
    reveal_strlit("DISLIKE_POST");
    reveal_strlit("REPOST");
    reveal_strlit("QUOTE_POST");
    reveal_strlit("FOLLOW");
    reveal_strlit("CREATE_COMMENT");
    reveal_strlit("LIKE_COMMENT");
    reveal_strlit("DISLIKE_COMMENT");
    reveal_strlit("SEARCH_POSTS");
    reveal_strlit("SEARCH_USER");
    reveal_strlit("MUTE");
    reveal_strlit("转发了");
    reveal_strlit("关注了");
    reveal_strlit("关注了用户");
    reveal_strlit("关注了一个用户");
    reveal_strlit("屏蔽了");
    reveal_strlit("屏蔽了用户");
    reveal_strlit("屏蔽了一个用户");
    assert("REPOST"@[0] != "CREATE_POST"@[0]);
    assert("REPOST"@[0] != "LIKE_POST"@[0]);
    assert("REPOST"@[0] != "DISLIKE_POST"@[0]);
    assert("FOLLOW"@[0] != "CREATE_POST"@[0]);
    assert("FOLLOW"@[0] != "LIKE_POST"@[0]);
    assert("FOLLOW"@[0] != "DISLIKE_POST"@[0]);
    assert("FOLLOW"@[0] != "REPOST"@[0]);
    assert("FOLLOW"@[0] != "QUOTE_POST"@[0]);
    assert("MUTE"@[0] != "CREATE_POST"@[0]);
    assert("MUTE"@[0] != "LIKE_POST"@[0]);
    assert("MUTE"@[0] != "DISLIKE_POST"@[0]);
    assert("MUTE"@[0] != "REPOST"@[0]);
    assert("MUTE"@[0] != "QUOTE_POST"@[0]);
    assert("MUTE"@[0] != "FOLLOW"@[0]);
    assert("MUTE"@[0] != "CREATE_COMMENT"@[0]);
    assert("MUTE"@[0] != "LIKE_COMMENT"@[0]);
    assert("MUTE"@[0] != "DISLIKE_COMMENT"@[0]);
    assert("MUTE"@[0] != "SEARCH_POSTS"@[0]);
    assert("MUTE"@[0] != "SEARCH_USER"@[0]);
    let rc = str_or_empty(a, "original_content"@);
    let ra = str_or_empty(a, "original_author_name"@);
    lemma_verb_first("转发了"@, "转发了"@, "帖子"@, rc, ra);
    let rest = describe_with_author(Seq::empty(), "帖子"@, rc, ra);
    assert(("转发了"@ + rest).subrange(0, 3) =~= "转发了"@);
    let f = str_or_empty(a, "target_user_name"@);
    assert(("关注了用户"@ + quoted(f)).subrange(0, 3) =~= "关注了"@);
    assert("关注了一个用户"@.subrange(0, 3) =~= "关注了"@);
    assert(("屏蔽了用户"@ + quoted(f)).subrange(0, 3) =~= "屏蔽了"@);
    assert("屏蔽了一个用户"@.subrange(0, 3) =~= "屏蔽了"@);
}

} // verus!
