use mirofish::actions::{ActionRecord, AgentAction, Comment, Post};
use mirofish::agent::{
    comment_prompts, pick_random_index, post_prompts, post_topic, select_dislike_action,
    select_like_action, share_prompts, AgentMemory,
};
use mirofish::engine::SimulationEngine;
use mirofish::interview::{interview_prompts, table_string, InterviewManager, InterviewSession};
use mirofish::json::{JsonNumber, JsonValue};
use mirofish::platform::{PlatformManager, RedditPlatform, TwitterPlatform};
use mirofish::report::ChatMessage;
use mirofish::simulation::{
    AgentProfile, InitialPost, RunnerStatus, Simulation, SimulationPlatform, SimulationStatus,
};

fn post(id: &str, author: &str, content: &str, likes: usize) -> Post {
    Post {
        post_id: id.to_string(),
        agent_id: 1,
        agent_name: author.to_string(),
        platform: "twitter".to_string(),
        content: content.to_string(),
        topic: None,
        created_at: 0,
        likes,
        dislikes: 0,
        comments: Vec::new(),
        shares: 0,
    }
}

fn engine(twitter: bool, reddit: bool) -> SimulationEngine {
    let sim = Simulation::with_id("proj", "graph", twitter, reddit, "abc", 0);
    let seeds = vec![InitialPost {
        content: "Breaking news".to_string(),
        topic: "economy".to_string(),
        sentiment: "neutral".to_string(),
    }];
    SimulationEngine::new(sim, 72, 30, seeds)
}

#[test]
fn memory_keeps_the_fifty_newest() {
    let mut m = AgentMemory::new();
    for i in 0..60 {
        m.add_memory(format!("m{}", i));
    }
    assert_eq!(m.recent_memories.len(), 50);
    assert_eq!(m.recent_memories[0], "m10");
    assert_eq!(m.recent_memories[49], "m59");
}

#[test]
fn recent_context_lists_newest_first() {
    let mut m = AgentMemory::new();
    m.add_memory("a".to_string());
    m.add_memory("b".to_string());
    m.add_memory("c".to_string());
    assert_eq!(m.get_recent_context(2), "- c\n- b");
    assert_eq!(m.get_recent_context(10), "- c\n- b\n- a");
    assert_eq!(AgentMemory::new().get_recent_context(5), "");
}

#[test]
fn random_pick_is_the_number_modulo_the_count() {
    assert_eq!(pick_random_index(7, 3), Some(1));
    assert_eq!(pick_random_index(7, 0), None);
}

#[test]
fn like_and_dislike_target_the_picked_post() {
    let posts = vec![post("post_0", "a", "x", 0), post("post_1", "b", "y", 0)];
    assert!(matches!(select_like_action(&posts, 3), AgentAction::LikePost { ref post_id } if post_id == "post_1"));
    assert!(matches!(select_dislike_action(&posts, 4), AgentAction::DislikePost { ref post_id } if post_id == "post_0"));
    assert!(matches!(select_like_action(&[], 3), AgentAction::Pass));
}

#[test]
fn agent_prompts_describe_the_agent() {
    let mut p = AgentProfile::default_for_interview();
    p.persona.interests = vec!["tech".to_string(), "art".to_string()];
    let events = vec!["e1".to_string(), "e2".to_string()];
    let (sys, user) = post_prompts(&p, &events, 3);
    assert_eq!(
        sys,
        "You are Default Agent. Your interests: tech, art. Your stance on the topic: open. Communication style: neutral"
    );
    assert_eq!(
        user,
        "Simulation round 3. Recent events:\n- e1\n- e2\n\nWrite a post in character. Under 280 chars."
    );
    let (_, quiet) = post_prompts(&p, &[], 1);
    assert_eq!(quiet, "Simulation round 1. No recent events.\n\nWrite a post in character. Under 280 chars.");
    assert_eq!(post_topic(&p).as_deref(), Some("tech"));
    let target = post("post_0", "bob", "Hello", 0);
    let (csys, cuser) = comment_prompts(&p, &target);
    assert_eq!(csys, "You are Default Agent. Stance: open. Style: neutral.");
    assert_eq!(cuser, "Post from bob: Hello\n\nWrite a comment (under 200 chars).");
    let (ssys, suser) = share_prompts(&p, &target);
    assert_eq!(ssys, "You are Default Agent. Stance: open. Write SHORT commentary (under 200 chars).");
    assert_eq!(suser, "Post: \"Hello\"\n\nAdd commentary:");
}

#[test]
fn engine_counts_rounds_and_hours() {
    let e = engine(true, false);
    assert_eq!(e.total_rounds(), 144);
    assert_eq!(e.round_to_hour(1), 0);
    assert_eq!(e.round_to_hour(2), 1);
    assert_eq!(e.round_to_hour(50), 1);
}

#[test]
fn run_start_seeds_the_initial_posts() {
    let mut e = engine(true, false);
    e.begin_run(5);
    assert!(e.is_running);
    assert_eq!(e.simulation.status, SimulationStatus::Running);
    assert_eq!(e.simulation.started_at, Some(5));
    assert_eq!(e.posts.len(), 1);
    assert_eq!(e.posts[0].post_id, "post_0");
    assert_eq!(e.posts[0].agent_name, "System");
    assert_eq!(e.posts[0].topic.as_deref(), Some("economy"));
}

#[test]
fn actions_change_posts_and_are_logged() {
    let mut e = engine(true, true);
    e.begin_run(0);
    let hour = e.begin_round(1);
    assert_eq!(hour, 0);
    e.execute_action_by_id(7, "alice", AgentAction::CreatePost { content: "hi".to_string(), topic: None }, 1, 10);
    assert_eq!(e.posts.len(), 2);
    assert_eq!(e.posts[1].post_id, "post_1");
    assert_eq!(e.posts[1].platform, "reddit");
    e.execute_action_by_id(8, "bob", AgentAction::LikePost { post_id: "post_1".to_string() }, 2, 11);
    assert_eq!(e.posts[1].likes, 1);
    e.execute_action_by_id(8, "bob", AgentAction::LikePost { post_id: "post_9".to_string() }, 2, 11);
    e.execute_action_by_id(9, "carol", AgentAction::CreateComment { post_id: "post_0".to_string(), content: "wow".to_string() }, 3, 12);
    assert_eq!(e.comments.len(), 1);
    assert_eq!(e.comments[0].comment_id, "comment_0");
    e.execute_action_by_id(9, "carol", AgentAction::SharePost { post_id: "post_0".to_string(), commentary: None }, 4, 13);
    assert_eq!(e.posts[0].shares, 1);
    assert_eq!(e.total_actions, 5);
    assert_eq!(e.action_log.len(), 5);
    assert_eq!(e.action_log[0].action_type, "create_post");
    assert_eq!(e.action_log[1].platform, "twitter");
    let counts = e.run_counts();
    assert_eq!(counts.twitter_actions_count + counts.reddit_actions_count, 5);
    assert_eq!(counts.twitter_actions_count, 3);
    assert_eq!(counts.runner_status, RunnerStatus::Running);
    assert_eq!(counts.current_round, 1);
}

#[test]
fn recent_events_take_a_third_of_the_limit_from_each_kind() {
    let mut e = engine(true, false);
    e.begin_run(0);
    e.execute_action_by_id(1, "ann", AgentAction::CreatePost { content: "p1".to_string(), topic: None }, 1, 0);
    e.execute_action_by_id(1, "ann", AgentAction::CreateComment { post_id: "post_0".to_string(), content: "c1".to_string() }, 2, 0);
    let events = e.get_recent_events(3);
    assert_eq!(
        events,
        vec![
            "Post by ann: \"p1\"".to_string(),
            "Comment by ann: \"c1\"".to_string(),
            "create_comment by ann (round 2)".to_string(),
        ]
    );
}

#[test]
fn pause_resume_and_stop() {
    let mut e = engine(true, false);
    e.begin_run(0);
    e.pause();
    assert_eq!(e.run_counts().runner_status, RunnerStatus::Paused);
    e.resume();
    assert_eq!(e.simulation.status, SimulationStatus::Running);
    e.stop_at(99);
    assert!(!e.is_running);
    assert_eq!(e.simulation.completed_at, Some(99));
    assert_eq!(e.run_counts().runner_status, RunnerStatus::Completed);
}

#[test]
fn round_progress_message_and_detail() {
    let e = engine(true, false);
    assert_eq!(e.round_message(3, 144, 1), "Round 3/144 (hour 1)");
    match e.round_detail(3, 144, 1) {
        JsonValue::Object(f) => {
            assert_eq!(f.len(), 6);
            assert_eq!(f[4].0, "round");
            assert!(matches!(f[4].1, JsonValue::Number(JsonNumber::PosInt(3))));
        }
        _ => panic!("expected an object"),
    }
}

#[test]
fn action_json_is_externally_tagged() {
    let a = AgentAction::CreateComment { post_id: "p".to_string(), content: "c".to_string() };
    match a.to_args_json() {
        JsonValue::Object(f) => {
            assert_eq!(f.len(), 1);
            assert_eq!(f[0].0, "CreateComment");
            match &f[0].1 {
                JsonValue::Object(g) => {
                    assert_eq!(g[0].0, "content");
                    assert_eq!(g[1].0, "post_id");
                }
                _ => panic!("expected fields"),
            }
        }
        _ => panic!("expected an object"),
    }
    assert!(matches!(AgentAction::Pass.to_args_json(), JsonValue::String(ref s) if s == "None"));
    assert_eq!(AgentAction::Pass.action_type(), "none");
    let r = ActionRecord::from_action_at("sim", 2, "reddit", 4, "dan", &AgentAction::FollowAgent { target_agent_id: 9 }, None, true, 77);
    assert_eq!(r.action_type, "follow_agent");
    assert_eq!(r.timestamp, 77);
}

#[test]
fn twitter_cuts_long_posts_and_reddit_does_not() {
    let long: String = "a".repeat(300);
    let t = TwitterPlatform.format_post_content(&long);
    assert_eq!(t.len(), 280);
    assert!(t.ends_with("..."));
    assert_eq!(TwitterPlatform.format_comment("short"), "short");
    assert_eq!(RedditPlatform.format_post_content(&long), long);
    assert_eq!(TwitterPlatform.max_post_length(), 280);
    assert_eq!(RedditPlatform.max_post_length(), 40000);
    assert_eq!(TwitterPlatform.platform_type(), SimulationPlatform::Twitter);
    let pm = PlatformManager::new();
    assert_eq!(pm.format_post_content(&long, "twitter").len(), 280);
    assert_eq!(pm.format_post_content(&long, "mastodon"), long);
    assert!(pm.get_platform("reddit").is_some());
    assert!(pm.get_platform("other").is_none());
}

#[test]
fn interview_summary_and_top_posts() {
    let posts = vec![post("p0", "a", "x", 1), post("p1", "a", "y", 5), post("p2", "a", "z", 1)];
    let session = InterviewSession::new(3, AgentProfile::default_for_interview(), vec![], posts, vec![]);
    assert_eq!(
        session.activity_summary(),
        "Agent Default Agent (@@default) performed 0 actions: 3 posts, 0 comments."
    );
    let top = session.top_posts(2);
    let ids: Vec<&str> = top.iter().map(|p| p.post_id.as_str()).collect();
    assert_eq!(ids, vec!["p1", "p0"]);
    let all = session.top_posts(10);
    let ids: Vec<&str> = all.iter().map(|p| p.post_id.as_str()).collect();
    assert_eq!(ids, vec!["p1", "p0", "p2"]);
}

#[test]
fn interview_manager_keeps_one_session_per_agent() {
    let mut m = InterviewManager::new();
    m.create_session(1, AgentProfile::default_for_interview(), vec![], vec![], vec![]);
    let mut other = AgentProfile::default_for_interview();
    other.name = "Other".to_string();
    m.create_session(2, other, vec![], vec![], vec![]);
    m.create_session(1, AgentProfile::default_for_interview(), vec![], vec![post("p", "a", "b", 0)], vec![]);
    assert_eq!(m.list_agents().len(), 2);
    assert_eq!(m.get_session(1).unwrap().agent_posts.len(), 1);
    assert_eq!(m.get_session(2).unwrap().agent_profile.name, "Other");
    assert!(m.get_session(3).is_none());
}

#[test]
fn interview_prompts_carry_persona_history_and_actions() {
    let mut profile = AgentProfile::default_for_interview();
    profile.persona.personality_traits = vec![("mood".to_string(), "calm \"always\"".to_string())];
    let mut session = InterviewSession::new(0, profile, vec![], vec![], vec![]);
    let (_, first) = interview_prompts(&session, "Why?");
    assert_eq!(first, "User asks: Why?\n\nRecent actions:\n");
    session.chat_history.push(ChatMessage { role: "user".to_string(), content: "hi".to_string(), timestamp: 0 });
    let (sys, user) = interview_prompts(&session, "Why?");
    assert!(sys.contains("Personality: {\"mood\": \"calm \\\"always\\\"\"}"));
    assert!(sys.starts_with("You are roleplaying as Default Agent. \nUsername: @@default\n"));
    assert_eq!(user, "Chat history:\nuser: hi\n\n\nUser asks: Why?\n\nRecent actions:\n");
    assert_eq!(table_string(&vec![]), "{}");
}

#[test]
fn comment_record_fields() {
    let c = Comment {
        comment_id: "comment_0".to_string(),
        post_id: "post_0".to_string(),
        agent_id: 1,
        agent_name: "a".to_string(),
        content: "c".to_string(),
        created_at: 0,
        likes: 0,
        dislikes: 0,
    };
    assert_eq!(c.clone().comment_id, "comment_0");
}

#[test]
fn finishing_a_run_keeps_everything_else() {
    let mut e = engine(true, false);
    e.begin_run(5);
    e.begin_round(3);
    e.pause();
    e.finish_run(9);
    assert!(!e.is_running);
    assert!(e.is_paused);
    assert_eq!(e.current_round, 3);
    assert_eq!(e.simulation.status, SimulationStatus::Completed);
    assert_eq!(e.simulation.started_at, Some(5));
    assert_eq!(e.simulation.completed_at, Some(9));
    assert_eq!(e.simulation.simulation_id, "sim_abc");
    assert_eq!(e.posts.len(), 1);
}

#[test]
fn a_session_can_be_changed_in_place() {
    let mut m = InterviewManager::new();
    m.create_session(7, AgentProfile::default_for_interview(), vec![], vec![], vec![]);
    match m.get_session_mut(7) {
        Some(s) => s.chat_history.push(ChatMessage { role: "user".to_string(), content: "hi".to_string(), timestamp: 0 }),
        None => panic!("expected the session"),
    }
    assert_eq!(m.get_session(7).map(|s| s.chat_history.len()), Some(1));
    assert!(m.get_session_mut(8).is_none());
}

#[test]
fn each_agent_is_listed_once() {
    let mut m = InterviewManager::new();
    m.create_session(4, AgentProfile::default_for_interview(), vec![], vec![], vec![]);
    m.create_session(9, AgentProfile::default_for_interview(), vec![], vec![], vec![]);
    m.create_session(4, AgentProfile::default_for_interview(), vec![], vec![], vec![]);
    let mut ids: Vec<usize> = m.list_agents().iter().map(|a| a.0).collect();
    ids.sort();
    assert_eq!(ids, vec![4, 9]);
}
