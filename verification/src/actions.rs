//! Agent actions in the simulated social network, and the records they
//! leave: posts, comments and the action log.
use vstd::prelude::*;

use crate::json::{JsonNumber, JsonValue};
use crate::strs::owned;

verus! {

/// Every action an agent can take.
#[derive(Debug, Clone)]
pub enum AgentAction {
    /// Create a new post.
    CreatePost { content: String, topic: Option<String> },
    LikePost { post_id: String },
    /// Dislike (downvote) a post.
    DislikePost { post_id: String },
    /// Comment on a post.
    CreateComment { post_id: String, content: String },
    LikeComment { comment_id: String },
    DislikeComment { comment_id: String },
    /// Share (retweet) a post, with optional commentary.
    SharePost { post_id: String, commentary: Option<String> },
    FollowAgent { target_agent_id: usize },
    UnfollowAgent { target_agent_id: usize },
    /// Answer an interview question.
    InterviewResponse { prompt: String, response: String },
    /// No action (a passive round).
    Pass,
}

/// The name under which an action is logged.
pub open spec fn action_type_name(a: AgentAction) -> Seq<char> {
    match a {
        AgentAction::CreatePost { .. } => "create_post"@,
        AgentAction::LikePost { .. } => "like_post"@,
        AgentAction::DislikePost { .. } => "dislike_post"@,
        AgentAction::CreateComment { .. } => "create_comment"@,
        AgentAction::LikeComment { .. } => "like_comment"@,
        AgentAction::DislikeComment { .. } => "dislike_comment"@,
        AgentAction::SharePost { .. } => "share_post"@,
        AgentAction::FollowAgent { .. } => "follow_agent"@,
        AgentAction::UnfollowAgent { .. } => "unfollow_agent"@,
        AgentAction::InterviewResponse { .. } => "interview_response"@,
        AgentAction::Pass => "none"@,
    }
}

/// A JSON string.
pub open spec fn jstr(s: Seq<char>) -> crate::json::JsonModel {
    crate::json::JsonModel::String(s)
}

/// A JSON string or `null`.
pub open spec fn jopt(s: Option<String>) -> crate::json::JsonModel {
    match s {
        Some(t) => crate::json::JsonModel::String(t@),
        None => crate::json::JsonModel::Null,
    }
}

/// `{tag: {fields}}`, the JSON shape of an enum variant with fields.
pub open spec fn tagged(
    tag: Seq<char>,
    fields: Seq<(Seq<char>, crate::json::JsonModel)>,
) -> crate::json::JsonModel {
    crate::json::JsonModel::Object(seq![(tag, crate::json::JsonModel::Object(fields))])
}

/// The JSON form of an action: a variant with fields is an object with
/// one member named after the variant, whose value holds the fields by
/// name in ascending order of name; `None` is the string "None".
pub open spec fn action_json(a: AgentAction) -> crate::json::JsonModel {
    match a {
        AgentAction::CreatePost { content, topic } => tagged(
            "CreatePost"@,
            seq![("content"@, jstr(content@)), ("topic"@, jopt(topic))],
        ),
        AgentAction::LikePost { post_id } => tagged("LikePost"@, seq![("post_id"@, jstr(post_id@))]),
        AgentAction::DislikePost { post_id } => tagged(
            "DislikePost"@,
            seq![("post_id"@, jstr(post_id@))],
        ),
        AgentAction::CreateComment { post_id, content } => tagged(
            "CreateComment"@,
            seq![("content"@, jstr(content@)), ("post_id"@, jstr(post_id@))],
        ),
        AgentAction::LikeComment { comment_id } => tagged(
            "LikeComment"@,
            seq![("comment_id"@, jstr(comment_id@))],
        ),
        AgentAction::DislikeComment { comment_id } => tagged(
            "DislikeComment"@,
            seq![("comment_id"@, jstr(comment_id@))],
        ),
        AgentAction::SharePost { post_id, commentary } => tagged(
            "SharePost"@,
            seq![("commentary"@, jopt(commentary)), ("post_id"@, jstr(post_id@))],
        ),
        AgentAction::FollowAgent { target_agent_id } => tagged(
            "FollowAgent"@,
            seq![
                ("target_agent_id"@, crate::json::JsonModel::Number(
                    JsonNumber::PosInt(target_agent_id as u64),
                )),
            ],
        ),
        AgentAction::UnfollowAgent { target_agent_id } => tagged(
            "UnfollowAgent"@,
            seq![
                ("target_agent_id"@, crate::json::JsonModel::Number(
                    JsonNumber::PosInt(target_agent_id as u64),
                )),
            ],
        ),
        AgentAction::InterviewResponse { prompt, response } => tagged(
            "InterviewResponse"@,
            seq![("prompt"@, jstr(prompt@)), ("response"@, jstr(response@))],
        ),
        AgentAction::Pass => jstr("None"@),
    }
}

fn json_string(s: &str) -> (r: JsonValue)
    ensures
        crate::json::json_model(r) == jstr(s@),
{
    JsonValue::String(owned(s))
}

fn json_opt(s: &Option<String>) -> (r: JsonValue)
    ensures
        crate::json::json_model(r) == jopt(*s),
{
    match s {
        Some(t) => JsonValue::String(t.clone()),
        None => JsonValue::Null,
    }
}

fn json_tagged(tag: &str, fields: Vec<(String, JsonValue)>) -> (r: JsonValue)
    ensures
        crate::json::json_model(r) == tagged(
            tag@,
            Seq::new(
                fields@.len(),
                |i: int| (fields@[i].0@, crate::json::json_model(fields@[i].1)),
            ),
        ),
{
    let ghost inner = crate::json::json_model(JsonValue::Object(fields));
    let r = JsonValue::Object(vec![(owned(tag), JsonValue::Object(fields))]);
    proof {
        let m = crate::json::json_model(r);
        if let crate::json::JsonModel::Object(x) = m {
            assert(x.len() == 1);
            assert(x =~= seq![(tag@, inner)]);
        }
        if let crate::json::JsonModel::Object(y) = inner {
            assert(y =~= Seq::new(
                fields@.len(),
                |i: int| (fields@[i].0@, crate::json::json_model(fields@[i].1)),
            ));
        }
    }
    r
}

impl AgentAction {
    /// The name under which the action is logged.
    pub fn action_type(&self) -> (r: &'static str)
        ensures
            r@ == action_type_name(*self),
    {
        match self {
            AgentAction::CreatePost { .. } => "create_post",
            AgentAction::LikePost { .. } => "like_post",
            AgentAction::DislikePost { .. } => "dislike_post",
            AgentAction::CreateComment { .. } => "create_comment",
            AgentAction::LikeComment { .. } => "like_comment",
            AgentAction::DislikeComment { .. } => "dislike_comment",
            AgentAction::SharePost { .. } => "share_post",
            AgentAction::FollowAgent { .. } => "follow_agent",
            AgentAction::UnfollowAgent { .. } => "unfollow_agent",
            AgentAction::InterviewResponse { .. } => "interview_response",
            AgentAction::Pass => "none",
        }
    }

    /// The action as JSON, in the shape `serde_json::to_value` gives an
    /// externally tagged enum.
    pub fn to_args_json(&self) -> (r: JsonValue)
        ensures
            crate::json::json_model(r) == action_json(*self),
    {
        let fields: Vec<(String, JsonValue)> = match self {
            AgentAction::Pass => {
                return json_string("None");
            },
            AgentAction::CreatePost { content, topic } => vec![
                (owned("content"), json_string(content.as_str())),
                (owned("topic"), json_opt(topic)),
            ],
            AgentAction::LikePost { post_id } => vec![(owned("post_id"), json_string(post_id.as_str()))],
            AgentAction::DislikePost { post_id } => vec![
                (owned("post_id"), json_string(post_id.as_str())),
            ],
            AgentAction::CreateComment { post_id, content } => vec![
                (owned("content"), json_string(content.as_str())),
                (owned("post_id"), json_string(post_id.as_str())),
            ],
            AgentAction::LikeComment { comment_id } => vec![
                (owned("comment_id"), json_string(comment_id.as_str())),
            ],
            AgentAction::DislikeComment { comment_id } => vec![
                (owned("comment_id"), json_string(comment_id.as_str())),
            ],
            AgentAction::SharePost { post_id, commentary } => vec![
                (owned("commentary"), json_opt(commentary)),
                (owned("post_id"), json_string(post_id.as_str())),
            ],
            AgentAction::FollowAgent { target_agent_id } => vec![
                (
                    owned("target_agent_id"),
                    JsonValue::Number(JsonNumber::PosInt(*target_agent_id as u64)),
                ),
            ],
            AgentAction::UnfollowAgent { target_agent_id } => vec![
                (
                    owned("target_agent_id"),
                    JsonValue::Number(JsonNumber::PosInt(*target_agent_id as u64)),
                ),
            ],
            AgentAction::InterviewResponse { prompt, response } => vec![
                (owned("prompt"), json_string(prompt.as_str())),
                (owned("response"), json_string(response.as_str())),
            ],
        };
        let ghost fs = Seq::new(
            fields@.len(),
            |i: int| (fields@[i].0@, crate::json::json_model(fields@[i].1)),
        );
        let tag = self.variant_name();
        let r = json_tagged(tag, fields);
        let ghost me = *self;
        proof {
            match me {
                AgentAction::CreatePost { content, topic } => {
                    assert(fs =~= seq![("content"@, jstr(content@)), ("topic"@, jopt(topic))]);
                },
                AgentAction::LikePost { post_id } => {
                    assert(fs =~= seq![("post_id"@, jstr(post_id@))]);
                },
                AgentAction::DislikePost { post_id } => {
                    assert(fs =~= seq![("post_id"@, jstr(post_id@))]);
                },
                AgentAction::CreateComment { post_id, content } => {
                    assert(fs =~= seq![("content"@, jstr(content@)), ("post_id"@, jstr(post_id@))]);
                },
                AgentAction::LikeComment { comment_id } => {
                    assert(fs =~= seq![("comment_id"@, jstr(comment_id@))]);
                },
                AgentAction::DislikeComment { comment_id } => {
                    assert(fs =~= seq![("comment_id"@, jstr(comment_id@))]);
                },
                AgentAction::SharePost { post_id, commentary } => {
                    assert(fs =~= seq![("commentary"@, jopt(commentary)), ("post_id"@, jstr(post_id@))]);
                },
                AgentAction::FollowAgent { target_agent_id } => {
                    assert(fs =~= seq![
                        ("target_agent_id"@, crate::json::JsonModel::Number(
                            JsonNumber::PosInt(target_agent_id as u64),
                        )),
                    ]);
                },
                AgentAction::UnfollowAgent { target_agent_id } => {
                    assert(fs =~= seq![
                        ("target_agent_id"@, crate::json::JsonModel::Number(
                            JsonNumber::PosInt(target_agent_id as u64),
                        )),
                    ]);
                },
                AgentAction::InterviewResponse { prompt, response } => {
                    assert(fs =~= seq![("prompt"@, jstr(prompt@)), ("response"@, jstr(response@))]);
                },
                AgentAction::Pass => {},
            }
        }
        r
    }

    /// The name of the action's variant.
    pub fn variant_name(&self) -> (r: &'static str)
        ensures
            r@ == variant_name(*self),
    {
        match self {
            AgentAction::CreatePost { .. } => "CreatePost",
            AgentAction::LikePost { .. } => "LikePost",
            AgentAction::DislikePost { .. } => "DislikePost",
            AgentAction::CreateComment { .. } => "CreateComment",
            AgentAction::LikeComment { .. } => "LikeComment",
            AgentAction::DislikeComment { .. } => "DislikeComment",
            AgentAction::SharePost { .. } => "SharePost",
            AgentAction::FollowAgent { .. } => "FollowAgent",
            AgentAction::UnfollowAgent { .. } => "UnfollowAgent",
            AgentAction::InterviewResponse { .. } => "InterviewResponse",
            AgentAction::Pass => "None",
        }
    }
}

/// The name of an action's variant.
pub open spec fn variant_name(a: AgentAction) -> Seq<char> {
    match a {
        AgentAction::CreatePost { .. } => "CreatePost"@,
        AgentAction::LikePost { .. } => "LikePost"@,
        AgentAction::DislikePost { .. } => "DislikePost"@,
        AgentAction::CreateComment { .. } => "CreateComment"@,
        AgentAction::LikeComment { .. } => "LikeComment"@,
        AgentAction::DislikeComment { .. } => "DislikeComment"@,
        AgentAction::SharePost { .. } => "SharePost"@,
        AgentAction::FollowAgent { .. } => "FollowAgent"@,
        AgentAction::UnfollowAgent { .. } => "UnfollowAgent"@,
        AgentAction::InterviewResponse { .. } => "InterviewResponse"@,
        AgentAction::Pass => "None"@,
    }
}

/// An executed action, as the action log stores it.
#[derive(Debug)]
pub struct ActionRecord {
    pub simulation_id: String,
    pub round_num: u32,
    /// Nanoseconds since the Unix epoch.
    pub timestamp: i64,
    /// "twitter" or "reddit".
    pub platform: String,
    pub agent_id: usize,
    pub agent_name: String,
    pub action_type: String,
    pub action_args: JsonValue,
    pub result: Option<String>,
    pub success: bool,
}

impl ActionRecord {
    /// The record of `action` taken at time `now`.
    pub open spec fn records(
        self,
        simulation_id: Seq<char>,
        round_num: u32,
        platform: Seq<char>,
        agent_id: usize,
        agent_name: Seq<char>,
        action: AgentAction,
        result: Option<String>,
        success: bool,
        now: i64,
    ) -> bool {
        &&& self.simulation_id@ == simulation_id
        &&& self.round_num == round_num
        &&& self.timestamp == now
        &&& self.platform@ == platform
        &&& self.agent_id == agent_id
        &&& self.agent_name@ == agent_name
        &&& self.action_type@ == action_type_name(action)
        &&& crate::json::json_model(self.action_args) == action_json(action)
        &&& self.result == result
        &&& self.success == success
    }

    /// The record of `action`, taken at time `now`.
    pub fn from_action_at(
        simulation_id: &str,
        round_num: u32,
        platform: &str,
        agent_id: usize,
        agent_name: &str,
        action: &AgentAction,
        result: Option<String>,
        success: bool,
        now: i64,
    ) -> (r: Self)
        ensures
            r.records(
                simulation_id@,
                round_num,
                platform@,
                agent_id,
                agent_name@,
                *action,
                result,
                success,
                now,
            ),
    {
        ActionRecord {
            simulation_id: owned(simulation_id),
            round_num,
            timestamp: now,
            platform: owned(platform),
            agent_id,
            agent_name: owned(agent_name),
            action_type: owned(action.action_type()),
            action_args: action.to_args_json(),
            result,
            success,
        }
    }

    /// The record of `action`, taken now.
    pub fn from_action(
        simulation_id: &str,
        round_num: u32,
        platform: &str,
        agent_id: usize,
        agent_name: &str,
        action: &AgentAction,
        result: Option<String>,
        success: bool,
    ) -> (r: Self)
        ensures
            exists|now: i64|
                #[trigger] r.records(
                    simulation_id@,
                    round_num,
                    platform@,
                    agent_id,
                    agent_name@,
                    *action,
                    result,
                    success,
                    now,
                ),
    {
        let now = crate::ids::now_nanos();
        ActionRecord::from_action_at(
            simulation_id,
            round_num,
            platform,
            agent_id,
            agent_name,
            action,
            result,
            success,
            now,
        )
    }
}

/// A post in the simulation.
#[derive(Debug, Clone)]
pub struct Post {
    pub post_id: String,
    pub agent_id: usize,
    pub agent_name: String,
    pub platform: String,
    pub content: String,
    pub topic: Option<String>,
    /// Nanoseconds since the Unix epoch.
    pub created_at: i64,
    pub likes: usize,
    pub dislikes: usize,
    pub comments: Vec<Comment>,
    pub shares: usize,
}

/// A comment in the simulation.
#[derive(Debug, Clone)]
pub struct Comment {
    pub comment_id: String,
    pub post_id: String,
    pub agent_id: usize,
    pub agent_name: String,
    pub content: String,
    /// Nanoseconds since the Unix epoch.
    pub created_at: i64,
    pub likes: usize,
    pub dislikes: usize,
}

} // verus!
