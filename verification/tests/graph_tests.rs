use mirofish::error::GraphError;
use mirofish::graph::{
    batch_message, check_generated_ontology, episodes_poll, EpisodePoll, ontology_from_response, EdgeTypeResponse, EntityTypeResponse,
    OntologyResponse, episodes_message, filter_entities, ontology_prompt,
    ontology_to_zep_schema, processing_complete, uuid_from_reply, validate_ontology, ZepEntity,
};
use mirofish::json::{JsonNumber, JsonValue};
use mirofish::memory_updater::{
    activity_from_record, batch_text, ActivityBuffers, AgentActivity, MemoryUpdaterConfig,
};
use mirofish::ontology::{EdgeType, EntityAttribute, EntityType, Ontology};
use mirofish::profile::{generate_profile_manual, profile_from_json, profile_prompt};
use mirofish::sim_config::{generation_reasoning, parse_event_config, parse_time_config, platform_config, sim_config_prompt};

fn s(x: &str) -> String {
    x.to_string()
}

fn text(x: &str) -> JsonValue {
    JsonValue::String(s(x))
}

fn num(n: u64) -> JsonValue {
    JsonValue::Number(JsonNumber::PosInt(n))
}

fn obj(fields: Vec<(&str, JsonValue)>) -> JsonValue {
    JsonValue::Object(fields.into_iter().map(|(k, v)| (s(k), v)).collect())
}

fn member<'a>(v: &'a JsonValue, key: &str) -> Option<&'a JsonValue> {
    match v {
        JsonValue::Object(fs) => fs.iter().find(|(k, _)| k == key).map(|(_, v)| v),
        _ => None,
    }
}

fn entity(uuid: &str, name: &str, kind: &str) -> ZepEntity {
    ZepEntity {
        uuid: s(uuid),
        name: s(name),
        entity_type: s(kind),
        summary: Some(format!("{} summary", name)),
        description: None,
        metadata: None,
    }
}

fn ontology(entities: usize, edges: usize) -> Ontology {
    let mut o = Ontology::empty();
    for i in 0..entities {
        o.entity_types.push(EntityType {
            name: format!("E{}", i),
            description: s("an entity"),
            attributes: vec![EntityAttribute { name: s("role"), description: s("its role"), data_type: s("string") }],
        });
    }
    for i in 0..edges {
        o.edge_types.push(EdgeType {
            name: format!("R{}", i),
            description: s("a relation"),
            source_types: vec![s("E0")],
            target_types: vec![s("E0")],
        });
    }
    o
}

fn activity(platform: &str, action_type: &str, args: JsonValue) -> AgentActivity {
    AgentActivity {
        platform: s(platform),
        agent_id: 1,
        agent_name: s("Ann"),
        action_type: s(action_type),
        action_args: args,
        round_num: 1,
        timestamp: s("t"),
    }
}

#[test]
fn entities_are_filtered_by_type() {
    let all = || vec![entity("1", "A", "Person"), entity("2", "B", "Org"), entity("3", "C", "Person")];
    let types = vec![s("Person")];
    let f = filter_entities(all(), Some(&types));
    assert_eq!(f.filtered_count, 2);
    assert_eq!(f.entities.iter().map(|e| e.name.clone()).collect::<Vec<_>>(), vec![s("A"), s("C")]);
    assert_eq!(f.entity_types, vec![s("Person"), s("Person")]);
    assert_eq!(filter_entities(all(), None).filtered_count, 3);
    let none: Vec<String> = vec![];
    assert_eq!(filter_entities(all(), Some(&none)).filtered_count, 3);
}

#[test]
fn ontology_lookups_and_validity() {
    let o = ontology(2, 1);
    assert!(o.is_valid());
    assert_eq!(o.get_entity_type("E1").map(|t| t.description.clone()), Some(s("an entity")));
    assert!(o.get_entity_type("E9").is_none());
    assert_eq!(o.get_edge_type("R0").map(|t| t.name.clone()), Some(s("R0")));
    assert_eq!(o.entity_type_names(), vec!["E0", "E1"]);
    assert_eq!(o.edge_type_names(), vec!["R0"]);
    assert!(!Ontology::empty().is_valid());
    assert!(!ontology(1, 0).is_valid());
}

#[test]
fn invalid_ontologies_are_refused() {
    match check_generated_ontology(ontology(1, 0)) {
        Err(GraphError::Ontology(m)) => assert_eq!(m, "Generated ontology is invalid: empty entity or edge types"),
        _ => panic!("expected an ontology error"),
    }
    assert!(check_generated_ontology(ontology(1, 1)).is_ok());
    match validate_ontology(&ontology(0, 1)) {
        Err(GraphError::Ontology(m)) => assert_eq!(m, "Invalid ontology: empty entity or edge types"),
        _ => panic!("expected an ontology error"),
    }
    assert!(validate_ontology(&ontology(1, 1)).is_ok());
}

#[test]
fn schema_lists_edge_and_entity_types() {
    let schema = ontology_to_zep_schema(&ontology(1, 1));
    match member(&schema, "entity_types") {
        Some(JsonValue::Array(a)) => {
            assert_eq!(a.len(), 1);
            assert!(matches!(member(&a[0], "name"), Some(JsonValue::String(n)) if n == "E0"));
        }
        _ => panic!("expected entity types"),
    }
    match member(&schema, "edge_types") {
        Some(JsonValue::Array(a)) => {
            assert_eq!(a.len(), 1);
            assert!(matches!(member(&a[0], "source_types"), Some(JsonValue::Array(t)) if t.len() == 1));
        }
        _ => panic!("expected edge types"),
    }
}

#[test]
fn ontology_prompt_fills_in_the_requirement() {
    let p = ontology_prompt("Some document.", "Predict it");
    assert_eq!(
        p,
        "Documents to analyze:\n\n{document_texts}\n\nSimulation requirement: Predict it\n\n{additional_context}\n\nCreate an ontology that will support simulating the described scenario."
    );
}

#[test]
fn service_replies_are_read() {
    assert_eq!(uuid_from_reply(&obj(vec![("uuid", text("g-1"))]), "no id").unwrap(), "g-1");
    match uuid_from_reply(&obj(vec![("uuid", num(1))]), "no id") {
        Err(GraphError::ZepApi(m)) => assert_eq!(m, "no id"),
        _ => panic!("expected a service error"),
    }
    assert!(processing_complete(&obj(vec![("processing_complete", JsonValue::Bool(true))])));
    assert!(!processing_complete(&obj(vec![("processing_complete", text("yes"))])));
    assert!(!processing_complete(&JsonValue::Null));
    assert_eq!(batch_message(0, 7), "Adding chunks batch 1/3...");
    assert_eq!(episodes_message(2, 5), "Processing 2/5 episodes...");
}

#[test]
fn time_config_defaults_and_peak_hours() {
    let t = parse_time_config(&JsonValue::Null, 10);
    assert_eq!(t.total_simulation_hours, 72);
    assert_eq!(t.minutes_per_round, 30);
    assert_eq!(t.peak_hours, vec![9, 12, 18, 21]);
    assert_eq!(t.off_peak_hours.len(), 20);
    assert!(!t.off_peak_hours.contains(&9));
    let data = obj(vec![("time_config", obj(vec![("total_simulation_hours", num(24)), ("minutes_per_round", num(60))]))]);
    let t = parse_time_config(&data, 51);
    assert_eq!(t.total_simulation_hours, 24);
    assert_eq!(t.minutes_per_round, 60);
    assert_eq!(t.peak_hours.len(), 12);
    assert_eq!(t.off_peak_hours, vec![0, 1, 2, 3, 4, 5, 6, 7, 15, 16, 17, 23]);
}

#[test]
fn event_config_is_read_with_defaults() {
    let data = obj(vec![(
        "event_config",
        obj(vec![
            ("initial_posts", JsonValue::Array(vec![obj(vec![("content", text("Hello"))])])),
            (
                "hot_topics",
                JsonValue::Array(vec![obj(vec![
                    ("title", text("T")),
                    ("related_entities", JsonValue::Array(vec![text("A"), num(1), text("B")])),
                ])]),
            ),
        ]),
    )]);
    let e = parse_event_config(&data);
    assert_eq!(e.initial_posts.len(), 1);
    assert_eq!(e.initial_posts[0].content, "Hello");
    assert_eq!(e.initial_posts[0].topic, "");
    assert_eq!(e.initial_posts[0].sentiment, "neutral");
    assert_eq!(e.hot_topics[0].title, "T");
    assert_eq!(e.hot_topics[0].description, "");
    assert_eq!(e.hot_topics[0].related_entities, vec![s("A"), s("B")]);
    let none = parse_event_config(&JsonValue::Null);
    assert!(none.initial_posts.is_empty() && none.hot_topics.is_empty());
}

#[test]
fn platform_settings_and_reasoning() {
    let p = platform_config(3, "A requirement", true, false);
    let t = p.twitter_config.expect("twitter");
    assert_eq!(t.agent_count, 3);
    assert_eq!(t.subreddit, "twitter");
    assert_eq!(t.topic, "A requirement");
    assert!(p.reddit_config.is_none());
    assert_eq!(
        generation_reasoning(&JsonValue::Null),
        "Configuration generated based on entity analysis and simulation requirements."
    );
    assert_eq!(generation_reasoning(&obj(vec![("generation_reasoning", text("why"))])), "why");
    let prompt = sim_config_prompt("req", "doc", &[entity("1", "A", "Person"), entity("2", "B", "Person")]);
    assert!(prompt.contains("req"));
}

#[test]
fn manual_profiles_come_from_the_entity() {
    let p = generate_profile_manual(&entity("abcdefghij", "Ann", "Person"), 4);
    assert_eq!(p.agent_id, 4);
    assert_eq!(p.name, "Ann");
    assert_eq!(p.username, "user_abcdefgh");
    assert_eq!(p.bio, "Ann summary");
    assert_eq!(p.demographics.occupation, "Person");
    assert_eq!(p.activity_pattern.peak_hours, vec![9, 12, 18, 21]);
    assert_eq!(p.persona.communication_style, "neutral");
}

#[test]
fn profiles_from_the_model_fill_gaps_from_the_entity() {
    let data = obj(vec![
        ("bio", text("A bio")),
        ("persona", obj(vec![("interests", JsonValue::Array(vec![text("x")]))])),
    ]);
    let p = profile_from_json(&data, &entity("abcdefghij", "Ann", "Person"));
    assert_eq!(p.name, "Ann");
    assert_eq!(p.username, "user_abcdefgh");
    assert_eq!(p.bio, "A bio");
    assert_eq!(p.persona.interests, vec![s("x")]);
    let prompt = profile_prompt(&entity("1", "Ann", "Person"), "", "req");
    assert!(prompt.contains("Ann"));
    assert!(!prompt.contains("{entity_name}"));
}

#[test]
fn activities_are_described_in_words() {
    let post = activity("twitter", "CREATE_POST", obj(vec![("content", text("hi"))]));
    assert_eq!(post.to_episode_text(), "Ann: 发布了一条帖子：「hi」");
    let like = activity("twitter", "LIKE_POST", obj(vec![("post_content", text("x")), ("post_author_name", text("Bob"))]));
    assert_eq!(like.to_episode_text(), "Ann: 点赞了Bob的帖子：「x」");
    let follow = activity("twitter", "FOLLOW", obj(vec![]));
    assert_eq!(follow.to_episode_text(), "Ann: 关注了一个用户");
    let other = activity("twitter", "DANCE", obj(vec![]));
    assert_eq!(other.to_episode_text(), "Ann: 执行了DANCE操作");
    assert_eq!(batch_text(&vec![post, follow]), "Ann: 发布了一条帖子：「hi」\nAnn: 关注了一个用户");
}

#[test]
fn activities_are_buffered_per_platform_and_batched() {
    let mut b = ActivityBuffers::new();
    assert!(!b.add_activity(activity("Twitter", "DO_NOTHING", obj(vec![]))));
    assert_eq!(b.stats.skipped_count, 1);
    for _ in 0..6 {
        assert!(b.add_activity(activity("Twitter", "CREATE_POST", obj(vec![]))));
    }
    assert!(b.add_activity(activity("reddit", "CREATE_POST", obj(vec![]))));
    assert_eq!(b.buffers.len(), 2);
    assert_eq!(b.buffers[0].platform, "twitter");
    let ready = b.take_ready_batches(5);
    assert_eq!(ready.len(), 1);
    assert_eq!(ready[0].len(), 5);
    assert_eq!(b.buffers[0].activities.len(), 1);
    let rest = b.flush();
    assert_eq!(rest.len(), 2);
    assert!(b.buffers.is_empty());
}

#[test]
fn send_attempts_retry_then_fail() {
    let config = MemoryUpdaterConfig::default();
    assert_eq!(config.batch_size, 5);
    let mut b = ActivityBuffers::new();
    assert_eq!(b.after_send_attempt(&config, 0, false, 5), Some(2000));
    assert_eq!(b.after_send_attempt(&config, 1, false, 5), Some(4000));
    assert_eq!(b.after_send_attempt(&config, 2, false, 5), None);
    assert_eq!(b.stats.failed_batches, 1);
    assert_eq!(b.after_send_attempt(&config, 0, true, 5), None);
    assert_eq!(b.stats.batches_sent, 1);
    assert_eq!(b.stats.items_sent, 5);
}

#[test]
fn log_lines_become_activities() {
    let line = obj(vec![
        ("agent_id", num(3)),
        ("agent_name", text("Ann")),
        ("action_type", text("CREATE_POST")),
        ("round", num(2)),
    ]);
    let a = activity_from_record(line, "reddit").expect("an activity");
    assert_eq!(a.agent_id, 3);
    assert_eq!(a.round_num, 2);
    assert_eq!(a.platform, "reddit");
    assert!(matches!(a.action_args, JsonValue::Object(ref f) if f.is_empty()));
    assert!(activity_from_record(obj(vec![("event_type", text("x")), ("agent_id", num(1))]), "reddit").is_none());
    assert!(activity_from_record(obj(vec![("agent_name", text("x"))]), "reddit").is_none());
    let mut b = ActivityBuffers::new();
    assert!(b.add_activity_from_dict(obj(vec![("agent_id", num(1)), ("action_type", text("LIKE_POST"))]), "reddit"));
    assert!(!b.add_activity_from_dict(obj(vec![("agent_id", num(1)), ("action_type", text("DO_NOTHING"))]), "reddit"));
    assert_eq!(b.stats.skipped_count, 1);
}

#[test]
fn model_answers_become_ontologies() {
    let answer = OntologyResponse {
        entity_types: vec![EntityTypeResponse { name: s("Person"), description: s("a person"), attributes: vec![] }],
        edge_types: vec![EdgeTypeResponse {
            name: s("KNOWS"),
            description: s("acquainted"),
            source_types: vec![s("Person")],
            target_types: vec![s("Person")],
        }],
        analysis_summary: s("people"),
    };
    let o = ontology_from_response(answer);
    assert_eq!(o.entity_type_names(), vec!["Person"]);
    assert_eq!(o.edge_type_names(), vec!["KNOWS"]);
    assert_eq!(o.edge_types[0].source_types, vec![s("Person")]);
    assert_eq!(o.analysis_summary, "people");
    assert!(check_generated_ontology(o).is_ok());
}

#[test]
fn episode_checks_decide_the_wait() {
    assert_eq!(episodes_poll(&[Some(true), None, Some(true)], 0, 60), (2, EpisodePoll::Done));
    assert_eq!(episodes_poll(&[Some(true), Some(false)], 0, 60), (1, EpisodePoll::Wait));
    assert_eq!(episodes_poll(&[Some(false)], 59, 60), (0, EpisodePoll::TimedOut));
    assert_eq!(episodes_poll(&[], 0, 60), (0, EpisodePoll::Done));
}

#[test]
fn entity_only_nodes_are_not_defined_entities() {
    let all = vec![entity("1", "A", "Person"), entity("2", "B", "Entity"), entity("3", "C", "Org")];
    let kept = mirofish::graph::defined_entities(all);
    assert_eq!(kept.iter().map(|e| e.name.clone()).collect::<Vec<_>>(), vec![s("A"), s("C")]);
}
