use mirofish::error::LlmError;
use mirofish::llm::{
    extract_choice_content, extract_json_block, parse_final_answer, parse_react_action,
    parse_react_thought, ChatChoice, FinishReason,
};

#[test]
fn json_block_is_taken_out_of_a_json_fence() {
    let reply = "Here you go:\n```json\n{\"a\": 1}\n```\nDone.";
    assert_eq!(extract_json_block(reply), "{\"a\": 1}");
}

#[test]
fn json_block_is_taken_out_of_a_plain_fence() {
    let reply = "```\n[1, 2]\n```";
    assert_eq!(extract_json_block(reply), "[1, 2]");
}

#[test]
fn unfenced_reply_is_trimmed() {
    assert_eq!(extract_json_block("  {\"x\": true}  "), "{\"x\": true}");
}

#[test]
fn unclosed_fence_falls_back_to_the_whole_reply() {
    assert_eq!(extract_json_block("```json {\"x\": 1}"), "```json {\"x\": 1}");
}

#[test]
fn thought_is_the_rest_of_its_line() {
    let reply = "Thought:  I should search  \nAction: QuickSearch";
    assert_eq!(parse_react_thought(reply), Some("I should search".to_string()));
    assert_eq!(parse_react_thought("no thinking here"), None);
}

#[test]
fn final_answer_is_everything_after_its_label() {
    let reply = "Thought: done\nFinal Answer:  The market grows.\nMore text.  ";
    assert_eq!(parse_final_answer(reply), Some("The market grows.\nMore text.".to_string()));
    assert_eq!(parse_final_answer("Thought: not yet"), None);
}

#[test]
fn tool_call_gives_the_tool_name_and_its_json() {
    let reply = "Thought: look\n<tool_call> {\"name\": \"QuickSearch\", \"parameters\": {}} </tool_call>";
    let (name, json) = parse_react_action(reply).expect("a tool call");
    assert_eq!(name, "QuickSearch");
    assert_eq!(json, "{\"name\": \"QuickSearch\", \"parameters\": {}}");
}

#[test]
fn tool_call_without_a_name_has_an_empty_name() {
    let reply = "<tool_call>{\"parameters\": 1}</tool_call>";
    let (name, json) = parse_react_action(reply).expect("a tool call");
    assert_eq!(name, "");
    assert_eq!(json, "{\"parameters\": 1}");
}

#[test]
fn tool_call_that_is_not_json_is_no_action() {
    assert_eq!(parse_react_action("<tool_call>not json</tool_call>"), None);
    assert_eq!(parse_react_action("<tool_call>{\"name\": \"x\"}"), None);
    assert_eq!(parse_react_action("no call"), None);
}

#[test]
fn first_choice_content_is_returned() {
    let choices = vec![ChatChoice { finish_reason: Some(FinishReason::Stop), content: Some("hi".to_string()) }];
    match extract_choice_content(&choices) {
        Ok(s) => assert_eq!(s, "hi"),
        Err(_) => panic!("expected content"),
    }
}

#[test]
fn choice_errors_are_api_errors() {
    match extract_choice_content(&vec![]) {
        Err(LlmError::Api(m)) => assert_eq!(m, "No choices in response"),
        _ => panic!("expected an API error"),
    }
    let cut = vec![ChatChoice { finish_reason: Some(FinishReason::Length), content: Some("x".to_string()) }];
    match extract_choice_content(&cut) {
        Err(LlmError::Api(m)) => assert_eq!(m, "Response was truncated due to max tokens"),
        _ => panic!("expected an API error"),
    }
    let empty = vec![ChatChoice { finish_reason: None, content: None }];
    match extract_choice_content(&empty) {
        Err(LlmError::Api(m)) => assert_eq!(m, "No content in response"),
        _ => panic!("expected an API error"),
    }
}

#[test]
fn llm_error_messages() {
    assert_eq!(LlmError::Api("boom".to_string()).message(), "LLM API error: boom");
    assert_eq!(LlmError::RateLimit.message(), "LLM rate limit exceeded");
}

#[test]
fn json_block_is_trimmed_contained_and_stable() {
    for reply in ["x ```json\n {\"a\": 1} \n``` y", "```\n[1]\n```", "  plain  ", "```json {"] {
        let block = extract_json_block(reply);
        assert_eq!(block.trim(), block);
        assert!(reply.contains(block.as_str()));
        assert_eq!(extract_json_block(&block), block);
    }
}
