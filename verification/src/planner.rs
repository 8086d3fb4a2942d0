//! Planning a report: the prompt for its outline, the outline read from
//! the model's answer, and the prompts for writing a section.
use vstd::prelude::*;

use crate::json::{JsonValue, json_as_array, json_get, str_or, str_value_or};
use crate::report::{ReportOutline, ReportSectionOutline};
use crate::strs::{decimal, decimal_string, join, join_strings, owned, push_str, replace_all, replace_str, views};

verus! {

/// The user prompt for planning a report: the template with the
/// requirement, the graph's size, the entity types, the number of entities
/// and the sample facts (as JSON text) filled in.
pub open spec fn plan_prompt_text(
    requirement: Seq<char>,
    total_nodes: nat,
    total_edges: nat,
    entity_types: Seq<Seq<char>>,
    total_entities: nat,
    facts_json: Seq<char>,
) -> Seq<char> {
    replace_all(
        replace_all(
            replace_all(
                replace_all(
                    replace_all(
                        replace_all(
                            crate::prompts::REPORT_PLAN_USER_PROMPT_TEMPLATE@,
                            "{simulation_requirement}"@,
                            requirement,
                        ),
                        "{total_nodes}"@,
                        decimal(total_nodes),
                    ),
                    "{total_edges}"@,
                    decimal(total_edges),
                ),
                "{entity_types}"@,
                join(entity_types, ", "@),
            ),
            "{total_entities}"@,
            decimal(total_entities),
        ),
        "{related_facts_json}"@,
        facts_json,
    )
}

/// The user prompt for planning a report.
pub fn report_plan_prompt(
    simulation_requirement: &str,
    total_nodes: usize,
    total_edges: usize,
    entity_types: &Vec<String>,
    total_entities: usize,
    related_facts_json: &str,
) -> (r: String)
    ensures
        r@ == plan_prompt_text(
            simulation_requirement@,
            total_nodes as nat,
            total_edges as nat,
            views(entity_types@),
            total_entities as nat,
            related_facts_json@,
        ),
{
    proof {
        reveal_strlit("{simulation_requirement}");
        reveal_strlit("{total_nodes}");
        reveal_strlit("{total_edges}");
        reveal_strlit("{entity_types}");
        reveal_strlit("{total_entities}");
        reveal_strlit("{related_facts_json}");
    }
    let a = replace_str(crate::prompts::REPORT_PLAN_USER_PROMPT_TEMPLATE, "{simulation_requirement}", simulation_requirement);
    let b = replace_str(a.as_str(), "{total_nodes}", decimal_string(total_nodes as u64).as_str());
    let c = replace_str(b.as_str(), "{total_edges}", decimal_string(total_edges as u64).as_str());
    let d = replace_str(c.as_str(), "{entity_types}", join_strings(entity_types, ", ").as_str());
    let e = replace_str(d.as_str(), "{total_entities}", decimal_string(total_entities as u64).as_str());
    replace_str(e.as_str(), "{related_facts_json}", related_facts_json)
}

/// The planned section that an element of the answer describes.
pub open spec fn section_outline_from(v: JsonValue, s: ReportSectionOutline) -> bool {
    &&& s.title@ == str_or(json_get(v, "title"@), "Untitled"@)
    &&& s.description@ == str_or(json_get(v, "description"@), Seq::empty())
}

/// The sections of the answer, where it lists them.
pub open spec fn outline_items(data: JsonValue) -> Seq<JsonValue> {
    match json_as_array(json_get(data, "sections"@)) {
        Some(a) => a,
        None => Seq::empty(),
    }
}

/// The outline that the model's answer `data` describes: its title
/// ("Simulation Report" by default), summary and sections.
pub fn outline_from_json(data: &JsonValue) -> (r: ReportOutline)
    ensures
        r.title@ == str_or(json_get(*data, "title"@), "Simulation Report"@),
        r.summary@ == str_or(json_get(*data, "summary"@), Seq::empty()),
        r.sections@.len() == outline_items(*data).len(),
        forall|i: int|
            0 <= i < r.sections@.len() ==> section_outline_from(
                outline_items(*data)[i],
                #[trigger] r.sections@[i],
            ),
{
    proof {
        reveal_strlit("");
        assert(""@ =~= Seq::<char>::empty());
    }
    let title = str_value_or(data.get("title"), "Simulation Report");
    let summary = str_value_or(data.get("summary"), "");
    let mut sections: Vec<ReportSectionOutline> = Vec::new();
    let items = match data.get("sections") {
        Some(v) => v.as_array(),
        None => None,
    };
    if let Some(a) = items {
        let mut i: usize = 0;
        while i < a.len()
            invariant
                i <= a@.len(),
                a@ == outline_items(*data),
                sections@.len() == i,
                ""@ == Seq::<char>::empty(),
                forall|j: int| 0 <= j < i ==> section_outline_from(a@[j], #[trigger] sections@[j]),
            decreases a.len() - i,
        {
            let v = &a[i];
            sections.push(
                ReportSectionOutline {
                    title: str_value_or(v.get("title"), "Untitled"),
                    description: str_value_or(v.get("description"), ""),
                },
            );
            i = i + 1;
        }
    }
    ReportOutline { title, summary, sections }
}

/// The system prompt for writing a section.
pub open spec fn section_system_prompt(
    section_title: Seq<char>,
    report_title: Seq<char>,
    report_summary: Seq<char>,
    requirement: Seq<char>,
) -> Seq<char> {
    "You are writing a section of a future prediction report. Report title: "@ + report_title
        + ". Summary: "@ + report_summary + ". Prediction scenario: "@ + requirement
        + ". Current section: "@ + section_title
        + ". You MUST use the available tools to gather data from the simulation. Every claim must be backed by simulation evidence."@
}

/// The user prompt for writing a section from the research findings.
pub open spec fn section_user_prompt(section_title: Seq<char>, findings: Seq<char>) -> Seq<char> {
    "Write a comprehensive section titled '"@ + section_title + "'.\n\nResearch findings:\n"@
        + findings
        + "\n\nWrite in a professional report style with clear analysis and evidence."@
}

/// The prompts (system, user) for writing a section from the research.
pub fn section_prompts(
    section_title: &str,
    report_title: &str,
    report_summary: &str,
    simulation_requirement: &str,
    research_findings: &str,
) -> (r: (String, String))
    ensures
        r.0@ == section_system_prompt(
            section_title@,
            report_title@,
            report_summary@,
            simulation_requirement@,
        ),
        r.1@ == section_user_prompt(section_title@, research_findings@),
{
    let mut sys = owned("You are writing a section of a future prediction report. Report title: ");
    push_str(&mut sys, report_title);
    push_str(&mut sys, ". Summary: ");
    push_str(&mut sys, report_summary);
    push_str(&mut sys, ". Prediction scenario: ");
    push_str(&mut sys, simulation_requirement);
    push_str(&mut sys, ". Current section: ");
    push_str(&mut sys, section_title);
    push_str(
        &mut sys,
        ". You MUST use the available tools to gather data from the simulation. Every claim must be backed by simulation evidence.",
    );
    let mut user = owned("Write a comprehensive section titled '");
    push_str(&mut user, section_title);
    push_str(&mut user, "'.\n\nResearch findings:\n");
    push_str(&mut user, research_findings);
    push_str(&mut user, "\n\nWrite in a professional report style with clear analysis and evidence.");
    (sys, user)
}

} // verus!
