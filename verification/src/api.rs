//! What the HTTP handlers decide: which request fields they need, and
//! what they answer about a simulation's report.
use vstd::prelude::*;

use crate::json::{JsonModel, JsonValue, json_as_str, json_as_u64, json_get, json_model, str_or};
use crate::strs::{owned, str_eq};

verus! {

/// The text of required field `key`, or an error with message `missing`.
pub open spec fn required_text(req: JsonValue, key: Seq<char>, missing: Seq<char>) -> Result<
    Seq<char>,
    Seq<char>,
> {
    match json_as_str(json_get(req, key)) {
        Some(s) => Ok(s),
        None => Err(missing),
    }
}

fn required(req: &JsonValue, key: &str, missing: &str) -> (r: Result<String, String>)
    ensures
        match required_text(*req, key@, missing@) {
            Ok(s) => r matches Ok(t) && t@ == s,
            Err(m) => r matches Err(e) && e@ == m,
        },
{
    match req.get(key) {
        Some(v) => match v.as_str() {
            Some(s) => Ok(owned(s)),
            None => Err(owned(missing)),
        },
        None => Err(owned(missing)),
    }
}

/// A request to generate a report.
#[derive(Debug, Clone)]
pub struct ReportRequest {
    pub simulation_id: String,
    pub graph_id: String,
    pub simulation_requirement: String,
}

/// The report request that a request body makes: the simulation and graph
/// are required, the requirement defaults to empty.
pub fn parse_report_request(req: &JsonValue) -> (r: Result<ReportRequest, String>)
    ensures
        match required_text(*req, "simulation_id"@, "Missing simulation_id"@) {
            Err(m) => r matches Err(e) && e@ == m,
            Ok(sim) => match required_text(*req, "graph_id"@, "Missing graph_id"@) {
                Err(m) => r matches Err(e) && e@ == m,
                Ok(g) => r matches Ok(q) && q.simulation_id@ == sim && q.graph_id@ == g
                    && q.simulation_requirement@ == str_or(
                    json_get(*req, "simulation_requirement"@),
                    Seq::empty(),
                ),
            },
        },
{
    let simulation_id = match required(req, "simulation_id", "Missing simulation_id") {
        Ok(s) => s,
        Err(e) => return Err(e),
    };
    let graph_id = match required(req, "graph_id", "Missing graph_id") {
        Ok(s) => s,
        Err(e) => return Err(e),
    };
    proof {
        reveal_strlit("");
        assert(""@ =~= Seq::<char>::empty());
    }
    let simulation_requirement = crate::json::str_value_or(req.get("simulation_requirement"), "");
    Ok(ReportRequest { simulation_id, graph_id, simulation_requirement })
}

/// The simulation named in a stop request.
pub fn parse_stop_request(req: &JsonValue) -> (r: Result<String, String>)
    ensures
        match required_text(*req, "simulation_id"@, "Missing simulation_id"@) {
            Ok(s) => r matches Ok(t) && t@ == s,
            Err(m) => r matches Err(e) && e@ == m,
        },
{
    required(req, "simulation_id", "Missing simulation_id")
}

/// The message and agent of an interview request: the message is
/// required, the agent defaults to 0.
pub fn parse_interview_request(req: &JsonValue) -> (r: Result<(String, usize), String>)
    ensures
        match required_text(*req, "message"@, "Missing message"@) {
            Err(m) => r matches Err(e) && e@ == m,
            Ok(msg) => r matches Ok((t, id)) && t@ == msg && id == match json_as_u64(
                json_get(*req, "agent_id"@),
            ) {
                Some(n) => n as usize,
                None => 0usize,
            },
        },
{
    let message = match required(req, "message", "Missing message") {
        Ok(s) => s,
        Err(e) => return Err(e),
    };
    let agent_id = match req.get("agent_id") {
        Some(v) => match v.as_u64() {
            Some(n) => n as usize,
            None => 0,
        },
        None => 0,
    };
    Ok((message, agent_id))
}

/// The most reports a list returns where the query sets no usable limit.
pub open spec fn list_limit_of(param: Option<Seq<char>>) -> int {
    match param {
        Some(p) => match crate::config::parsed_unsigned(p, usize::MAX as int) {
            Some(n) => n,
            None => 50,
        },
        None => 50,
    }
}

/// The limit of a report list, from its query parameter.
pub fn list_limit(param: Option<&str>) -> (r: usize)
    ensures
        r == list_limit_of(
            match param {
                Some(p) => Some(p@),
                None => None,
            },
        ),
{
    match param {
        Some(p) => match crate::config::parse_unsigned(p, usize::MAX as u64) {
            Some(n) => {
                proof {
                    crate::config::lemma_digits_value_nonneg(crate::config::unsigned_digits(p@));
                }
                n as usize
            },
            None => 50,
        },
        None => 50,
    }
}

/// What is known of a simulation's report: whether there is one, its status
/// ("unknown" where it gives none) and identifier, and whether interviews
/// are unlocked (a completed report).
pub open spec fn report_check(report: Option<JsonValue>) -> (bool, Option<Seq<char>>, Option<Seq<char>>, bool) {
    match report {
        Some(r) => {
            let status = str_or(json_get(r, "status"@), "unknown"@);
            (true, Some(status), json_as_str(json_get(r, "report_id"@)), status == "completed"@)
        },
        None => (false, None, None, false),
    }
}

/// What a report check answers.
#[derive(Debug, Clone)]
pub struct ReportCheck {
    pub has_report: bool,
    pub report_status: Option<String>,
    pub report_id: Option<String>,
    pub interview_unlocked: bool,
}

/// What is known of a simulation's report, given the report (as JSON) if
/// there is one.
pub fn check_report(report: Option<&JsonValue>) -> (r: ReportCheck)
    ensures
        report_check(
            match report {
                Some(j) => Some(*j),
                None => None,
            },
        ) == (r.has_report, match r.report_status {
            Some(s) => Some(s@),
            None => None,
        }, match r.report_id {
            Some(s) => Some(s@),
            None => None,
        }, r.interview_unlocked),
{
    match report {
        Some(j) => {
            let status = crate::json::str_value_or(j.get("status"), "unknown");
            let id = match j.get("report_id") {
                Some(v) => match v.as_str() {
                    Some(s) => Some(owned(s)),
                    None => None,
                },
                None => None,
            };
            let unlocked = str_eq(status.as_str(), "completed");
            ReportCheck { has_report: true, report_status: Some(status), report_id: id, interview_unlocked: unlocked }
        },
        None => ReportCheck { has_report: false, report_status: None, report_id: None, interview_unlocked: false },
    }
}

} // verus!
