use mirofish::chat::{build_chat_prompt, build_chat_system_prompt, detect_tools_used};
use mirofish::graph::{SearchHit, ZepEntity};
use mirofish::json::{JsonNumber, JsonValue};
use mirofish::planner::{outline_from_json, report_plan_prompt, section_prompts};
use mirofish::react::{build_react_prompt, select_tool, ReACTStep, ReactAction, ReactLoop, ToolCall};
use mirofish::report::{ChatMessage, Report, ReportOutline, ReportSection, ReportSectionOutline, ReportStatus};
use mirofish::report_agent::{
    add_section, compile_markdown, completion_result, facts_json, finish_report, research_prompt,
    section_detail, section_message,
};
use mirofish::report_tools::{
    decompose_query, dedup_strings, insight_forge_result, interview_result, interview_system_prompt,
    panorama_result, quick_result, split_whitespace, ToolResult,
};

fn s(x: &str) -> String {
    x.to_string()
}

fn entity(name: &str) -> ZepEntity {
    ZepEntity {
        uuid: format!("u-{}", name),
        name: s(name),
        entity_type: s("Person"),
        summary: None,
        description: None,
        metadata: None,
    }
}

fn hit(name: Option<&str>, facts: Option<Vec<&str>>) -> SearchHit {
    SearchHit {
        entity: name.map(entity),
        facts: facts.map(|f| f.into_iter().map(s).collect()),
    }
}

fn obj(fields: Vec<(&str, JsonValue)>) -> JsonValue {
    JsonValue::Object(fields.into_iter().map(|(k, v)| (s(k), v)).collect())
}

fn member<'a>(v: &'a JsonValue, key: &str) -> Option<&'a JsonValue> {
    match v {
        JsonValue::Object(fs) => fs.iter().find(|(k, _)| k == key).map(|(_, v)| v),
        _ => None,
    }
}

fn report_with(outline: Option<ReportOutline>, sections: Vec<ReportSection>) -> Report {
    let mut r = Report::with_id("sim_1", "graph_1", "Will prices rise?", "00ff", 5);
    r.outline = outline;
    r.sections = sections;
    r
}

fn section(index: usize, title: &str, description: &str, content: &str) -> ReportSection {
    ReportSection {
        index,
        title: s(title),
        description: s(description),
        content: s(content),
        tool_calls_count: 0,
    }
}

#[test]
fn words_are_split_on_any_whitespace() {
    assert_eq!(split_whitespace("  a\tbb \n ccc  "), vec![s("a"), s("bb"), s("ccc")]);
    assert!(split_whitespace(" \t\n").is_empty());
}

#[test]
fn long_queries_are_split_in_halves() {
    assert_eq!(decompose_query("one two three"), vec![s("one two three")]);
    assert_eq!(
        decompose_query("alpha beta  gamma delta epsilon"),
        vec![s("alpha beta  gamma delta epsilon"), s("alpha beta"), s("gamma delta epsilon")]
    );
}

#[test]
fn dedup_removes_only_neighbouring_repeats() {
    let v = vec![s("a"), s("a"), s("b"), s("a"), s("b"), s("b")];
    assert_eq!(dedup_strings(v), vec![s("a"), s("b"), s("a"), s("b")]);
    assert!(dedup_strings(vec![]).is_empty());
}

#[test]
fn insight_forge_gathers_entities_and_facts() {
    let hits = vec![
        hit(Some("Alice"), Some(vec!["f1", "f2"])),
        hit(Some("Alice"), Some(vec!["f2"])),
        hit(None, Some(vec!["f3"])),
        hit(Some("Bob"), None),
    ];
    let r: ToolResult = insight_forge_result("q", &hits);
    assert_eq!(r.tool_name, "InsightForge");
    assert_eq!(r.query, "q");
    assert_eq!(r.entities, vec![s("Alice"), s("Bob")]);
    assert_eq!(r.facts, vec![s("f1"), s("f2"), s("f3")]);
    assert_eq!(r.content, "InsightForge Results for 'q':\n\nEntities found: Alice, Bob\nFacts: f1\nf2\nf3");
}

#[test]
fn panorama_and_quick_results() {
    let hits = vec![hit(Some("A"), Some(vec!["x"])), hit(Some("A"), Some(vec!["x"]))];
    let p = panorama_result("topic", &hits);
    assert_eq!(p.tool_name, "PanoramaSearch");
    assert_eq!(p.entities, vec![s("A")]);
    assert_eq!(p.content, "PanoramaSearch Results for 'topic':\n\nEntities: A\nFacts: x");
    let q = quick_result("topic", &hits);
    assert_eq!(q.tool_name, "QuickSearch");
    assert_eq!(q.entities, vec![s("A"), s("A")]);
    assert_eq!(q.facts, vec![s("x"), s("x")]);
    assert_eq!(q.content, "QuickSearch Results for 'topic':\nx\nx");
}

#[test]
fn interview_tool_prompt_and_result() {
    assert_eq!(
        interview_system_prompt("Ann", "ctx"),
        "You are Ann. Answer the question based on your simulated experiences and beliefs.\n\nContext: ctx"
    );
    let r = interview_result("Ann", "Why?", s("Because."));
    assert_eq!(r.tool_name, "InterviewAgents");
    assert_eq!(r.query, "Ann: Why?");
    assert_eq!(r.content, "Interview with Ann:\nQ: Why?\nA: Because.");
    assert_eq!(r.entities, vec![s("Ann")]);
    assert_eq!(r.facts, vec![s("Because.")]);
}

#[test]
fn tools_are_selected_by_name() {
    assert!(matches!(select_tool("InsightForge", "q"), Ok(ToolCall::InsightForge)));
    assert_eq!(select_tool("PanoramaSearch", "q").unwrap().limit(), 15);
    assert_eq!(select_tool("QuickSearch", "q").unwrap().limit(), 5);
    assert_eq!(ToolCall::InsightForge.limit(), 10);
    match select_tool("InterviewAgents", "Bob: what now?") {
        Ok(ToolCall::InterviewAgents { agent_name, question }) => {
            assert_eq!(agent_name, "Bob");
            assert_eq!(question, " what now?");
        }
        _ => panic!("expected an interview"),
    }
    match select_tool("InterviewAgents", "Bob") {
        Ok(ToolCall::InterviewAgents { agent_name, question }) => {
            assert_eq!(agent_name, "Bob");
            assert_eq!(question, "What happened?");
        }
        _ => panic!("expected an interview"),
    }
    assert_eq!(select_tool("Other", "q").unwrap_err(), "Unknown tool: Other");
}

#[test]
fn react_prompt_lists_previous_steps() {
    let first = build_react_prompt("SYS", "Q", "CTX", &vec![]);
    assert_eq!(
        first,
        "SYS\n\nQuery: Q\n\nContext:\nCTX\n\nNow think step by step. Use Thought: ... Action: ... format.\nWhen you have enough information, use Final Answer: ... to conclude.\n"
    );
    let steps = vec![ReACTStep { thought: s("t"), tool_name: s("QuickSearch"), tool_query: s("q"), observation: s("obs") }];
    let p = build_react_prompt("SYS", "Q", "CTX", &steps);
    assert!(p.contains("Previous steps:\nStep 1:\nThought: t\nAction: QuickSearch\nObservation: obs\n\n"));
}

#[test]
fn react_loop_runs_tools_and_stops_at_the_limit() {
    let (mut l, first) = ReactLoop::start("SYS", "Q", "CTX");
    assert!(matches!(first, ReactAction::AskModel(_)));
    match l.on_reply("Final Answer: done", "Q") {
        ReactAction::Finish(Ok(a)) => assert_eq!(a, "done"),
        _ => panic!("expected the answer"),
    }
    match l.on_reply("Thought: look\nAction: <tool_call>{\"name\": \"Nope\"}</tool_call>", "Q") {
        ReactAction::Finish(Err(e)) => assert_eq!(e, "Unknown tool: Nope"),
        _ => panic!("expected an unknown tool"),
    }
    match l.on_reply("just text", "Q") {
        ReactAction::Finish(Ok(a)) => assert_eq!(a, "just text"),
        _ => panic!("expected the reply as answer"),
    }
    let reply = "Thought: look\nAction: <tool_call>{\"name\": \"QuickSearch\"}</tool_call>";
    let mut rounds = 0;
    loop {
        let (call, thought) = match l.on_reply(reply, "Q") {
            ReactAction::RunTool { call, thought } => (call, thought),
            _ => panic!("expected a tool"),
        };
        assert!(matches!(call, ToolCall::QuickSearch));
        assert_eq!(thought, "look");
        rounds += 1;
        let result = quick_result("Q", &vec![]);
        match l.on_tool_result(thought, result, "SYS", "Q", "CTX") {
            ReactAction::AskModel(_) => {}
            ReactAction::Finish(Err(e)) => {
                assert_eq!(e, "ReACT loop exceeded maximum iterations");
                break;
            }
            _ => panic!("unexpected action"),
        }
    }
    assert_eq!(rounds, 15);
    assert_eq!(l.scratchpad.len(), 15);
}

#[test]
fn chat_prompts() {
    let outline = ReportOutline {
        title: s("T"),
        summary: s("S"),
        sections: vec![
            ReportSectionOutline { title: s("A"), description: s("") },
            ReportSectionOutline { title: s("B"), description: s("") },
        ],
    };
    let r = report_with(Some(outline), vec![section(1, "A", "", "body")]);
    assert_eq!(
        build_chat_system_prompt(&r),
        "You are an AI assistant with full knowledge of a simulation report.\n\nReport: T\nSummary: S\nSections: A, B\n\nReport sections:\n- A: body\n\nYou can use tools to query the simulation graph for more details. Answer questions about the simulation and its predictions accurately."
    );
    let bare = report_with(None, vec![]);
    assert!(build_chat_system_prompt(&bare).contains("Report outline not available."));
    let history: Vec<ChatMessage> = (0..12)
        .map(|i| ChatMessage { role: s("user"), content: format!("m{}", i), timestamp: 0 })
        .collect();
    let p = build_chat_prompt(&history, "hi");
    assert!(p.starts_with("user: m0\n"));
    assert!(p.contains("user: m9\n"));
    assert!(!p.contains("m10"));
    assert!(p.ends_with("user: hi\nassistant:"));
}

#[test]
fn tools_used_follow_a_fixed_order() {
    assert_eq!(
        detect_tools_used("the agent said ... after a quick lookup and deep analysis"),
        vec![s("InsightForge"), s("QuickSearch"), s("InterviewAgents")]
    );
    assert!(detect_tools_used("nothing").is_empty());
}

#[test]
fn outline_is_read_with_defaults() {
    let data = obj(vec![
        ("summary", JsonValue::String(s("sum"))),
        (
            "sections",
            JsonValue::Array(vec![
                obj(vec![("title", JsonValue::String(s("Intro"))), ("description", JsonValue::String(s("d")))]),
                obj(vec![]),
            ]),
        ),
    ]);
    let o = outline_from_json(&data);
    assert_eq!(o.title, "Simulation Report");
    assert_eq!(o.summary, "sum");
    assert_eq!(o.sections.len(), 2);
    assert_eq!(o.sections[0].title, "Intro");
    assert_eq!(o.sections[0].description, "d");
    assert_eq!(o.sections[1].title, "Untitled");
    assert_eq!(o.sections[1].description, "");
    assert!(outline_from_json(&JsonValue::Null).sections.is_empty());
}

#[test]
fn plan_and_section_prompts() {
    let p = report_plan_prompt("req", 3, 4, &vec![s("Person"), s("Org")], 7, "[]");
    assert!(p.contains("req"));
    assert!(p.contains("Person, Org"));
    assert!(!p.contains("{total_nodes}"));
    assert!(!p.contains("{related_facts_json}"));
    let (sys, user) = section_prompts("Intro", "T", "S", "req", "found");
    assert_eq!(
        sys,
        "You are writing a section of a future prediction report. Report title: T. Summary: S. Prediction scenario: req. Current section: Intro. You MUST use the available tools to gather data from the simulation. Every claim must be backed by simulation evidence."
    );
    assert_eq!(
        user,
        "Write a comprehensive section titled 'Intro'.\n\nResearch findings:\nfound\n\nWrite in a professional report style with clear analysis and evidence."
    );
}

#[test]
fn facts_are_given_as_a_json_array() {
    assert_eq!(facts_json(&vec![s("a\"b"), s("c")]), "[\"a\\\"b\",\"c\"]");
    assert_eq!(facts_json(&vec![]), "[]");
}

#[test]
fn markdown_has_the_outline_and_sections() {
    let outline = ReportOutline { title: s("T"), summary: s("S"), sections: vec![] };
    let r = report_with(Some(outline), vec![section(1, "A", "desc", "body"), section(2, "B", "", "more")]);
    assert_eq!(compile_markdown(&r), "# T\n\nS\n\n## A\n\ndesc\n\nbody\n\n## B\n\nmore\n\n");
    assert_eq!(compile_markdown(&report_with(None, vec![])), "");
}

#[test]
fn report_progress_values() {
    assert_eq!(
        research_prompt("Intro"),
        "You are researching for a report section. Use tools to gather evidence about: Intro"
    );
    assert_eq!(section_message("Intro"), "Generating section: Intro");
    let d = section_detail("Intro", 2, 5);
    assert!(matches!(member(&d, "current_section"), Some(JsonValue::String(t)) if t == "Intro"));
    assert!(matches!(member(&d, "section_index"), Some(JsonValue::Number(JsonNumber::PosInt(2)))));
    assert!(matches!(member(&d, "total_sections"), Some(JsonValue::Number(JsonNumber::PosInt(5)))));
    let r = report_with(None, vec![section(1, "A", "", "x")]);
    let c = completion_result(&r);
    assert!(matches!(member(&c, "report_id"), Some(JsonValue::String(t)) if t == "report_00ff"));
    assert!(matches!(member(&c, "sections"), Some(JsonValue::Number(JsonNumber::PosInt(1)))));
}

#[test]
fn sections_are_added_and_the_report_finished() {
    let mut r = report_with(None, vec![]);
    let o = ReportSectionOutline { title: s("A"), description: s("d") };
    add_section(&mut r, 1, &o, s("body"));
    assert_eq!(r.sections.len(), 1);
    assert_eq!(r.sections[0].index, 1);
    assert_eq!(r.sections[0].title, "A");
    finish_report(&mut r);
    assert_eq!(r.status, ReportStatus::Completed);
    assert_eq!(r.progress_percent, 100);
    assert_eq!(r.markdown_content, "## A\n\nd\n\nbody\n\n");
}

#[test]
fn report_steps_keep_the_other_fields() {
    let mut r = report_with(None, vec![]);
    r.error = Some(s("earlier"));
    r.progress_percent = 40;
    let o = ReportSectionOutline { title: s("A"), description: s("d") };
    add_section(&mut r, 1, &o, s("body"));
    assert_eq!(r.progress_percent, 40);
    assert_eq!(r.markdown_content, "");
    finish_report(&mut r);
    assert_eq!(r.simulation_id, "sim_1");
    assert_eq!(r.graph_id, "graph_1");
    assert_eq!(r.error, Some(s("earlier")));
    assert_eq!(r.created_at, 5);
    assert_eq!(r.completed_at, None);
}
