use mirofish::api::{check_report, list_limit, parse_interview_request, parse_report_request, parse_stop_request};
use mirofish::config::{parse_unsigned, AppConfig, EnvValues};
use mirofish::error::{ConfigError, FileError, GraphError, MiroFishError, ReportError, SimulationError, TaskError};
use mirofish::files::{
    decode_with_fallback, detect_encoding, detect_file_type, encoding_name_to_encoding, extract_plain_text, FileType,
    TextEncoding, UploadSummary,
};
use mirofish::json::{get_in_value, str_field, str_value_or, string_list, string_table, usize_list, JsonNumber, JsonValue};

fn s(x: &str) -> String {
    x.to_string()
}

fn text(x: &str) -> JsonValue {
    JsonValue::String(s(x))
}

fn num(n: u64) -> JsonValue {
    JsonValue::Number(JsonNumber::PosInt(n))
}

fn obj(fields: Vec<(&str, JsonValue)>) -> JsonValue {
    JsonValue::Object(fields.into_iter().map(|(k, v)| (s(k), v)).collect())
}

fn member<'a>(v: &'a JsonValue, key: &str) -> Option<&'a JsonValue> {
    match v {
        JsonValue::Object(fs) => fs.iter().find(|(k, _)| k == key).map(|(_, v)| v),
        _ => None,
    }
}

fn env() -> EnvValues {
    EnvValues {
        llm_api_key: None,
        zep_api_key: None,
        llm_base_url: None,
        llm_model_name: None,
        zep_base_url: None,
        server_host: None,
        server_port: None,
        upload_folder: None,
        default_chunk_size: None,
        default_chunk_overlap: None,
        max_upload_size: None,
        allowed_extensions: None,
        default_language: None,
    }
}

#[test]
fn default_config_values() {
    let c = AppConfig::default();
    assert_eq!(c.server_host, "0.0.0.0");
    assert_eq!(c.server_port, 5001);
    assert_eq!(c.upload_folder, "uploads");
    assert_eq!(c.llm_model_name, "qwen-plus");
    assert_eq!(c.zep_base_url, "https://api.getzep.com");
    assert_eq!(c.default_chunk_size, 500);
    assert_eq!(c.default_chunk_overlap, 50);
    assert_eq!(c.max_upload_size, 52_428_800);
    assert_eq!(c.allowed_extensions, vec![s("pdf"), s("md"), s("txt")]);
    assert_eq!(c.default_language, "en");
}

#[test]
fn unsigned_numbers_are_read_like_str_parse() {
    assert_eq!(parse_unsigned("5001", 65535), Some(5001));
    assert_eq!(parse_unsigned("+7", 65535), Some(7));
    assert_eq!(parse_unsigned("65536", 65535), None);
    assert_eq!(parse_unsigned("", 65535), None);
    assert_eq!(parse_unsigned("+", 65535), None);
    assert_eq!(parse_unsigned("-1", 65535), None);
    assert_eq!(parse_unsigned("12a", 65535), None);
    assert_eq!(parse_unsigned("18446744073709551615", u64::MAX), Some(u64::MAX));
    assert_eq!(parse_unsigned("18446744073709551616", u64::MAX), None);
}

#[test]
fn api_keys_are_required() {
    match AppConfig::from_env_values(env()) {
        Err(ConfigError::Missing(m)) => assert_eq!(m, "LLM_API_KEY"),
        _ => panic!("expected the LLM key to be missing"),
    }
    let mut e = env();
    e.llm_api_key = Some(s("k"));
    match AppConfig::from_env_values(e) {
        Err(ConfigError::Missing(m)) => assert_eq!(m, "ZEP_API_KEY"),
        _ => panic!("expected the Zep key to be missing"),
    }
    assert_eq!(ConfigError::Missing(s("X")).message(), "Missing config: X");
}

#[test]
fn settings_fall_back_to_their_defaults() {
    let mut e = env();
    e.llm_api_key = Some(s("llm"));
    e.zep_api_key = Some(s("zep"));
    e.server_port = Some(s("8080"));
    e.default_chunk_size = Some(s("not a number"));
    e.llm_model_name = Some(s("gpt"));
    let c = match AppConfig::from_env_values(e) {
        Ok(c) => c,
        Err(_) => panic!("expected a configuration"),
    };
    assert_eq!(c.llm_api_key, "llm");
    assert_eq!(c.zep_api_key, "zep");
    assert_eq!(c.server_port, 8080);
    assert_eq!(c.default_chunk_size, 500);
    assert_eq!(c.llm_model_name, "gpt");
    assert_eq!(c.llm_base_url, "https://dashscope.aliyuncs.com/compatible-mode/v1");
    assert_eq!(c.server_host, "0.0.0.0");
}

#[test]
fn file_types_by_content_type_then_name() {
    assert_eq!(detect_file_type(Some("application/pdf"), "a.txt"), FileType::Pdf);
    assert_eq!(detect_file_type(Some("text/markdown"), "a.pdf"), FileType::Text);
    assert_eq!(detect_file_type(Some("application/octet-stream"), "a.pdf"), FileType::Pdf);
    assert_eq!(detect_file_type(None, "notes.md"), FileType::Text);
}

#[test]
fn encoding_names_are_mapped_in_any_case() {
    assert_eq!(encoding_name_to_encoding("UTF-8"), TextEncoding::Utf8);
    assert_eq!(encoding_name_to_encoding("ISO-8859-1"), TextEncoding::Windows1252);
    assert_eq!(encoding_name_to_encoding("Shift_JIS"), TextEncoding::ShiftJis);
    assert_eq!(encoding_name_to_encoding("gb2312"), TextEncoding::Gbk);
    assert_eq!(encoding_name_to_encoding("GB18030"), TextEncoding::Gb18030);
    assert_eq!(encoding_name_to_encoding("UTF-16BE"), TextEncoding::Utf16Be);
    assert_eq!(encoding_name_to_encoding("klingon"), TextEncoding::Utf8);
}

#[test]
fn text_is_decoded_as_utf8_or_in_its_detected_encoding() {
    assert_eq!(decode_with_fallback("héllo".as_bytes()), "héllo");
    assert_eq!(extract_plain_text("plain".as_bytes()), "plain");
    let french = "Le café est très chaud à midi, où êtes-vous? Déjà là, près de la fenêtre.";
    let latin: Vec<u8> = french.chars().map(|c| c as u32 as u8).collect();
    assert_eq!(detect_encoding(&latin), "windows-1252");
    assert_eq!(decode_with_fallback(&latin), french);
    let marked = extract_plain_text(&latin);
    assert!(marked.starts_with("[Encoding: windows-1252]\nLe caf\u{FFFD} est"));
    assert_eq!(FileError::ReadError(s("x")).message(), "File read error: x");
}

#[test]
fn upload_summary_lists_the_files() {
    assert_eq!(UploadSummary::new().finish().unwrap_err(), "No files uploaded");
    let mut u = UploadSummary::new();
    u.add_file(Some("a.txt"), 3, "abc");
    u.add_file(None, 2, "é");
    assert_eq!(u.combined_text, "abc\n\n---\n\né\n\n---\n\n");
    let j = u.finish().unwrap();
    assert!(matches!(member(&j, "combined_text_length"), Some(JsonValue::Number(JsonNumber::PosInt(19)))));
    assert!(matches!(member(&j, "message"), Some(JsonValue::String(m)) if m == "Successfully uploaded 2 files"));
    match member(&j, "files") {
        Some(JsonValue::Array(fs)) => {
            assert_eq!(fs.len(), 2);
            assert!(matches!(member(&fs[1], "filename"), Some(JsonValue::String(n)) if n == "unknown"));
            assert!(matches!(member(&fs[1], "text_length"), Some(JsonValue::Number(JsonNumber::PosInt(2)))));
        }
        _ => panic!("expected the files"),
    }
}

#[test]
fn json_helpers_read_members() {
    let v = obj(vec![
        ("name", text("Ann")),
        ("name", text("Other")),
        ("tags", JsonValue::Array(vec![text("a"), text("b")])),
        ("mixed", JsonValue::Array(vec![text("a"), num(1)])),
        ("ids", JsonValue::Array(vec![num(3), num(4)])),
        ("traits", obj(vec![("calm", text("yes")), ("bold", text("no"))])),
        ("odd_traits", obj(vec![("calm", text("yes")), ("age", num(3))])),
        ("inner", obj(vec![("k", text("v"))])),
    ]);
    assert_eq!(str_field(&v, "name"), "Ann");
    assert_eq!(str_field(&v, "missing"), "");
    assert_eq!(str_value_or(v.get("missing"), "d"), "d");
    assert_eq!(string_list(v.get("tags")), Some(vec![s("a"), s("b")]));
    assert_eq!(usize_list(v.get("ids")), Some(vec![3, 4]));
    assert_eq!(string_list(v.get("mixed")), None);
    assert_eq!(usize_list(v.get("mixed")), None);
    assert_eq!(string_table(v.get("traits")), Some(vec![(s("calm"), s("yes")), (s("bold"), s("no"))]));
    assert_eq!(string_table(v.get("odd_traits")), None);
    assert_eq!(string_list(v.get("name")), None);
    assert!(matches!(get_in_value(v.get("inner"), "k"), Some(JsonValue::String(t)) if t == "v"));
    assert!(get_in_value(None, "k").is_none());
    assert_eq!(num(7).as_u64(), Some(7));
    assert_eq!(JsonValue::Bool(true).as_bool(), Some(true));
    assert_eq!(GraphError::ZepApi(s("bad")).message(), "Zep API error: bad");
}

#[test]
fn request_fields_are_required_or_defaulted() {
    let r = parse_report_request(&obj(vec![("simulation_id", text("s")), ("graph_id", text("g"))])).unwrap();
    assert_eq!(r.simulation_id, "s");
    assert_eq!(r.graph_id, "g");
    assert_eq!(r.simulation_requirement, "");
    assert_eq!(parse_report_request(&obj(vec![("graph_id", text("g"))])).unwrap_err(), "Missing simulation_id");
    assert_eq!(parse_report_request(&obj(vec![("simulation_id", text("s"))])).unwrap_err(), "Missing graph_id");
    assert_eq!(parse_stop_request(&obj(vec![("simulation_id", text("s"))])).unwrap(), "s");
    assert_eq!(parse_stop_request(&obj(vec![("simulation_id", num(1))])).unwrap_err(), "Missing simulation_id");
    assert_eq!(parse_interview_request(&obj(vec![("message", text("hi"))])).unwrap(), (s("hi"), 0));
    assert_eq!(
        parse_interview_request(&obj(vec![("message", text("hi")), ("agent_id", num(4))])).unwrap(),
        (s("hi"), 4)
    );
    assert_eq!(parse_interview_request(&obj(vec![])).unwrap_err(), "Missing message");
}

#[test]
fn list_limit_defaults_to_fifty() {
    assert_eq!(list_limit(None), 50);
    assert_eq!(list_limit(Some("10")), 10);
    assert_eq!(list_limit(Some("ten")), 50);
}

#[test]
fn report_check_unlocks_interviews_when_completed() {
    let none = check_report(None);
    assert!(!none.has_report && none.report_status.is_none() && !none.interview_unlocked);
    let done = obj(vec![("status", text("completed")), ("report_id", text("report_1"))]);
    let c = check_report(Some(&done));
    assert!(c.has_report && c.interview_unlocked);
    assert_eq!(c.report_status, Some(s("completed")));
    assert_eq!(c.report_id, Some(s("report_1")));
    let odd = obj(vec![("status", num(3))]);
    let c = check_report(Some(&odd));
    assert_eq!(c.report_status, Some(s("unknown")));
    assert!(c.report_id.is_none() && !c.interview_unlocked);
}

#[test]
fn every_error_has_its_displayed_message() {
    assert_eq!(MiroFishError::not_found(s("x")).message(), "Not found: x");
    assert_eq!(MiroFishError::internal(s("x")).message(), "Internal error: x");
    assert_eq!(MiroFishError::validation(s("x")).message(), "Validation error: x");
    assert_eq!(
        MiroFishError::Graph(GraphError::ZepApi(s("down"))).message(),
        "Graph error: Zep API error: down"
    );
    assert_eq!(SimulationError::InterviewTimeout.message(), "Interview timeout");
    assert_eq!(SimulationError::NotReady(s("s1")).message(), "Simulation not ready: s1");
    assert_eq!(
        ReportError::ToolFailed { tool_name: s("QuickSearch"), error: s("boom") }.message(),
        "Tool execution failed: QuickSearch: boom"
    );
    assert_eq!(TaskError::AlreadyCompleted.message(), "Task already completed");
    assert_eq!(
        MiroFishError::Task(TaskError::Failed(s("x"))).message(),
        "Task error: Task failed: x"
    );
}
