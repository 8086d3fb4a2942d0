//! Report generation, step by step: the report as it is planned, written
//! section by section and compiled to Markdown, and what is reported of
//! its progress.
use vstd::prelude::*;

use crate::json::{JsonModel, JsonNumber, JsonValue, json_model};
use crate::report::{Report, ReportOutline, ReportSection, ReportSectionOutline, ReportStatus};
use crate::strs::{join, owned, push_str, views};

verus! {

/// A character of a JSON string, escaped as serde_json writes it: quote,
/// backslash and the control characters below U+0020 (short forms for
/// backspace, tab, newline, form feed and carriage return; `\u00xx` with
/// lowercase hexadecimal digits otherwise).
pub open spec fn json_escape(c: char) -> Seq<char> {
    let u = c as u32;
    if c == '"' {
        seq!['\\', '"']
    } else if c == '\\' {
        seq!['\\', '\\']
    } else if u == 8 {
        seq!['\\', 'b']
    } else if u == 9 {
        seq!['\\', 't']
    } else if u == 10 {
        seq!['\\', 'n']
    } else if u == 12 {
        seq!['\\', 'f']
    } else if u == 13 {
        seq!['\\', 'r']
    } else if u < 0x20 {
        seq!['\\', 'u', '0', '0', crate::strs::digit_char((u / 16) as int), hex_low(u % 16)]
    } else {
        seq![c]
    }
}

/// A lowercase hexadecimal digit.
pub open spec fn hex_low(d: u32) -> char {
    if d < 10 {
        crate::strs::digit_char(d as int)
    } else if d == 10 {
        'a'
    } else if d == 11 {
        'b'
    } else if d == 12 {
        'c'
    } else if d == 13 {
        'd'
    } else if d == 14 {
        'e'
    } else {
        'f'
    }
}

/// `s` with each character escaped for a JSON string.
pub open spec fn json_escaped(s: Seq<char>) -> Seq<char>
    decreases s.len(),
{
    if s.len() == 0 {
        Seq::empty()
    } else {
        json_escaped(s.drop_last()) + json_escape(s.last())
    }
}

/// The compact JSON text of an array of strings.
pub open spec fn json_string_array_text(v: Seq<Seq<char>>) -> Seq<char> {
    "["@ + join(Seq::new(v.len(), |i: int| "\""@ + json_escaped(v[i]) + "\""@), ","@) + "]"@
}

/// The compact JSON text of a list of strings (`serde_json::to_string`
/// on `Vec<String>`), which the serde_json source writes as `[`, the
/// strings quoted and escaped as `json_escape` says and separated by
/// commas, and `]`. Serialising strings does not fail, so the default that
/// an error would give never comes out.
#[verifier::external_body]
fn json_text_of_strings(v: &Vec<String>) -> (r: String)
    ensures
        r@ == json_string_array_text(views(v@)),
{
    serde_json::to_string(v).unwrap_or_default()
}

/// The sample facts as JSON text, for the planning prompt.
pub fn facts_json(facts: &Vec<String>) -> (r: String)
    ensures
        r@ == json_string_array_text(views(facts@)),
{
    json_text_of_strings(facts)
}

/// The Markdown of a report: its title and summary where it has an
/// outline, then each section's title, description (where not empty) and
/// content.
pub open spec fn markdown(r: Report) -> Seq<char> {
    (match r.outline {
        Some(o) => "# "@ + o.title@ + "\n\n"@ + o.summary@ + "\n\n"@,
        None => Seq::empty(),
    }) + sections_markdown(r.sections@)
}

/// The Markdown of a sequence of sections.
pub open spec fn sections_markdown(s: Seq<ReportSection>) -> Seq<char>
    decreases s.len(),
{
    if s.len() == 0 {
        Seq::empty()
    } else {
        sections_markdown(s.drop_last()) + section_markdown(s.last())
    }
}

/// The Markdown of a section.
pub open spec fn section_markdown(s: ReportSection) -> Seq<char> {
    "## "@ + s.title@ + "\n\n"@ + (if s.description@.len() > 0 {
        s.description@ + "\n\n"@
    } else {
        Seq::empty()
    }) + s.content@ + "\n\n"@
}

/// The report's sections compiled to Markdown.
pub fn compile_markdown(report: &Report) -> (r: String)
    ensures
        r@ == markdown(*report),
{
    let mut md = String::new();
    if let Some(outline) = &report.outline {
        push_str(&mut md, "# ");
        push_str(&mut md, outline.title.as_str());
        push_str(&mut md, "\n\n");
        push_str(&mut md, outline.summary.as_str());
        push_str(&mut md, "\n\n");
    }
    let ghost head = md@;
    let mut i: usize = 0;
    while i < report.sections.len()
        invariant
            i <= report.sections@.len(),
            md@ == head + sections_markdown(report.sections@.take(i as int)),
        decreases report.sections.len() - i,
    {
        let s = &report.sections[i];
        let ghost m0 = md@;
        push_str(&mut md, "## ");
        push_str(&mut md, s.title.as_str());
        push_str(&mut md, "\n\n");
        if !s.description.as_str().is_empty() {
            push_str(&mut md, s.description.as_str());
            push_str(&mut md, "\n\n");
        }
        push_str(&mut md, s.content.as_str());
        push_str(&mut md, "\n\n");
        assert(report.sections@.take(i + 1).drop_last() =~= report.sections@.take(i as int));
        assert(md@ =~= m0 + section_markdown(report.sections@[i as int]));
        i = i + 1;
    }
    assert(report.sections@.take(i as int) =~= report.sections@);
    proof {
        if report.outline is None {
            assert(head =~= Seq::<char>::empty());
        }
    }
    md
}

/// The system prompt of the research for a section.
pub open spec fn research_prompt_text(title: Seq<char>) -> Seq<char> {
    "You are researching for a report section. Use tools to gather evidence about: "@ + title
}

/// The system prompt of the research for a section.
pub fn research_prompt(section_title: &str) -> (r: String)
    ensures
        r@ == research_prompt_text(section_title@),
{
    let mut s = owned("You are researching for a report section. Use tools to gather evidence about: ");
    push_str(&mut s, section_title);
    s
}

/// The progress message while a section is written.
pub fn section_message(section_title: &str) -> (r: String)
    ensures
        r@ == "Generating section: "@ + section_title@,
{
    let mut s = owned("Generating section: ");
    push_str(&mut s, section_title);
    s
}

/// The progress detail while section `index` (from 1) of `total` is
/// written.
pub fn section_detail(section_title: &str, index: usize, total: usize) -> (r: JsonValue)
    ensures
        json_model(r) == JsonModel::Object(
            seq![
                ("current_section"@, JsonModel::String(section_title@)),
                ("section_index"@, JsonModel::Number(JsonNumber::PosInt(index as u64))),
                ("total_sections"@, JsonModel::Number(JsonNumber::PosInt(total as u64))),
            ],
        ),
{
    let a = (owned("current_section"), JsonValue::String(owned(section_title)));
    let b = (owned("section_index"), JsonValue::Number(JsonNumber::PosInt(index as u64)));
    let c = (owned("total_sections"), JsonValue::Number(JsonNumber::PosInt(total as u64)));
    let fields = vec![a, b, c];
    assert(fields@[0].0@ == "current_section"@ && json_model(fields@[0].1) == JsonModel::String(section_title@));
    assert(fields@[1].0@ == "section_index"@ && json_model(fields@[1].1) == JsonModel::Number(JsonNumber::PosInt(index as u64)));
    assert(fields@[2].0@ == "total_sections"@ && json_model(fields@[2].1) == JsonModel::Number(JsonNumber::PosInt(total as u64)));
    let r = JsonValue::Object(fields);
    proof {
        if let JsonModel::Object(x) = json_model(r) {
            assert(x =~= seq![
                ("current_section"@, JsonModel::String(section_title@)),
                ("section_index"@, JsonModel::Number(JsonNumber::PosInt(index as u64))),
                ("total_sections"@, JsonModel::Number(JsonNumber::PosInt(total as u64))),
            ]);
        }
    }
    r
}

/// The result recorded for a finished report: its identifier and number
/// of sections.
pub fn completion_result(report: &Report) -> (r: JsonValue)
    ensures
        json_model(r) == JsonModel::Object(
            seq![
                ("report_id"@, JsonModel::String(report.report_id@)),
                ("sections"@, JsonModel::Number(JsonNumber::PosInt(report.sections@.len() as u64))),
            ],
        ),
{
    let a = (owned("report_id"), JsonValue::String(report.report_id.clone()));
    let b = (owned("sections"), JsonValue::Number(JsonNumber::PosInt(report.sections.len() as u64)));
    let fields = vec![a, b];
    assert(fields@[0].0@ == "report_id"@ && json_model(fields@[0].1) == JsonModel::String(report.report_id@));
    assert(fields@[1].0@ == "sections"@ && json_model(fields@[1].1) == JsonModel::Number(JsonNumber::PosInt(report.sections@.len() as u64)));
    let r = JsonValue::Object(fields);
    proof {
        if let JsonModel::Object(x) = json_model(r) {
            assert(x =~= seq![
                ("report_id"@, JsonModel::String(report.report_id@)),
                ("sections"@, JsonModel::Number(JsonNumber::PosInt(report.sections@.len() as u64))),
            ]);
        }
    }
    r
}

/// Records section number `index` written from its outline.
pub fn add_section(report: &mut Report, index: usize, outline: &ReportSectionOutline, content: String)
    ensures
        final(report).sections@.len() == old(report).sections@.len() + 1,
        final(report).sections@.take(old(report).sections@.len() as int) == old(report).sections@,
        final(report).sections@.last().index == index,
        final(report).sections@.last().title@ == outline.title@,
        final(report).sections@.last().description@ == outline.description@,
        final(report).sections@.last().content == content,
        final(report).sections@.last().tool_calls_count == 0,
        final(report).outline == old(report).outline,
        final(report).status == old(report).status,
        final(report).report_id == old(report).report_id,
        section_added(*old(report), *final(report), index, *outline),
        *final(report) == (Report { sections: final(report).sections, ..*old(report) }),
{
    let ghost s0 = report.sections@;
    report.sections.push(
        ReportSection {
            index,
            title: outline.title.clone(),
            description: outline.description.clone(),
            content,
            tool_calls_count: 0,
        },
    );
    assert(report.sections@.take(s0.len() as int) =~= s0);
}

/// Finishes a report: its Markdown compiled, completed, at 100%.
pub fn finish_report(report: &mut Report)
    ensures
        final(report).markdown_content@ == markdown(*old(report)),
        final(report).status == ReportStatus::Completed,
        final(report).progress_percent == 100,
        final(report).sections == old(report).sections,
        final(report).outline == old(report).outline,
        final(report).report_id == old(report).report_id,
        *final(report) == (Report {
            markdown_content: final(report).markdown_content,
            status: ReportStatus::Completed,
            progress_percent: 100,
            ..*old(report)
        }),
{
    report.markdown_content = compile_markdown(report);
    report.status = ReportStatus::Completed;
    report.progress_percent = 100;
}


/// `after` is `before` with one section appended as `add_section` appends
/// section number `index` written from outline `o`.
pub open spec fn section_added(before: Report, after: Report, index: usize, o: ReportSectionOutline) -> bool {
    &&& after.sections@.len() == before.sections@.len() + 1
    &&& after.sections@.take(before.sections@.len() as int) == before.sections@
    &&& after.sections@.last().index == index
    &&& after.sections@.last().title@ == o.title@
    &&& after.sections@.last().description@ == o.description@
    &&& after.sections@.last().tool_calls_count == 0
    &&& after.outline == before.outline
    &&& after.report_id == before.report_id
}

proof fn lemma_sections_added(states: Seq<Report>, outline: Seq<ReportSectionOutline>, k: int)
    requires
        states.len() == outline.len() + 1,
        0 <= k < states.len(),
        forall|i: int|
            0 <= i < outline.len() ==> section_added(states[i], #[trigger] states[i + 1], i as usize, outline[i]),
    ensures
        states[k].sections@.len() == states[0].sections@.len() + k,
        states[k].sections@.take(states[0].sections@.len() as int) == states[0].sections@,
        states[k].outline == states[0].outline,
        states[k].report_id == states[0].report_id,
        forall|i: int|
            0 <= i < k ==> {
                let s = #[trigger] states[k].sections@[states[0].sections@.len() + i];
                &&& s.index == i as usize
                &&& s.title@ == outline[i].title@
                &&& s.description@ == outline[i].description@
            },
    decreases k,
{
    if k > 0 {
        lemma_sections_added(states, outline, k - 1);
        let j = k - 1;
        assert(section_added(states[j], states[j + 1], j as usize, outline[j]));
        let n0 = states[0].sections@.len() as int;
        let prev = states[k - 1].sections@;
        let cur = states[k].sections@;
        assert(cur.take(n0) =~= cur.take(prev.len() as int).take(n0));
        assert forall|i: int| 0 <= i < k implies {
            let s = #[trigger] states[k].sections@[n0 + i];
            &&& s.index == i as usize
            &&& s.title@ == outline[i].title@
            &&& s.description@ == outline[i].description@
        } by {
            if i < k - 1 {
                assert(cur[n0 + i] == cur.take(prev.len() as int)[n0 + i]);
                assert(prev[n0 + i] == states[k - 1].sections@[n0 + i]);
            }
        }
    }
}

/// One section per outline section, in order: a report that has each
/// section of its outline added in turn (section `i` from outline section
/// `i`, as `add_section` adds it) and is then finished (`finish_report`)
/// holds, after the sections it had, exactly one section per outline
/// section, numbered from 0 with the outline's titles and descriptions; it
/// is completed at 100%, and its Markdown is compiled from those sections.
pub proof fn lemma_one_section_per_outline_section(
    states: Seq<Report>,
    outline: Seq<ReportSectionOutline>,
    finished: Report,
)
    requires
        states.len() == outline.len() + 1,
        forall|i: int|
            0 <= i < outline.len() ==> section_added(states[i], #[trigger] states[i + 1], i as usize, outline[i]),
        finished.markdown_content@ == markdown(states.last()),
        finished.status == ReportStatus::Completed,
        finished.progress_percent == 100,
        finished.sections == states.last().sections,
    ensures
        finished.sections@.len() == states[0].sections@.len() + outline.len(),
        finished.sections@.take(states[0].sections@.len() as int) == states[0].sections@,
        forall|i: int|
            0 <= i < outline.len() ==> {
                let s = #[trigger] finished.sections@[states[0].sections@.len() + i];
                &&& s.index == i as usize
                &&& s.title@ == outline[i].title@
                &&& s.description@ == outline[i].description@
            },
        finished.status == ReportStatus::Completed,
        finished.progress_percent == 100,
        finished.markdown_content@ == markdown(states.last()),
{
    lemma_sections_added(states, outline, outline.len() as int);
}

} // verus!
