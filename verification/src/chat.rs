//! Chat about a finished report: the prompts, and which tools an answer
//! mentions.
use vstd::prelude::*;

use crate::report::{ChatMessage, Report, ReportOutline, ReportSection};
use crate::strs::{contains, join, join_strings, owned, push_str, str_contains, take_chars, views, first_chars};

verus! {

/// The outline part of the chat prompt.
pub open spec fn outline_info(outline: Option<ReportOutline>) -> Seq<char> {
    match outline {
        Some(o) => "Report: "@ + o.title@ + "\nSummary: "@ + o.summary@ + "\nSections: "@ + join(
            o.sections@.map_values(|s: crate::report::ReportSectionOutline| s.title@),
            ", "@,
        ),
        None => "Report outline not available."@,
    }
}

/// The sections part of the chat prompt: `- <title>: <first 200 characters>`
/// per section.
pub open spec fn sections_info(sections: Seq<ReportSection>) -> Seq<char> {
    join(
        sections.map_values(|s: ReportSection| "- "@ + s.title@ + ": "@ + take_chars(s.content@, 200)),
        "\n"@,
    )
}

/// The system prompt for chatting about a report.
pub open spec fn chat_system_prompt(r: Report) -> Seq<char> {
    "You are an AI assistant with full knowledge of a simulation report.\n\n"@ + outline_info(
        r.outline,
    ) + "\n\nReport sections:\n"@ + sections_info(r.sections@)
        + "\n\nYou can use tools to query the simulation graph for more details. Answer questions about the simulation and its predictions accurately."@
}

/// The system prompt for chatting about `report`.
pub fn build_chat_system_prompt(report: &Report) -> (r: String)
    ensures
        r@ == chat_system_prompt(*report),
{
    let outline = match &report.outline {
        Some(o) => {
            let mut titles: Vec<String> = Vec::new();
            let mut i: usize = 0;
            while i < o.sections.len()
                invariant
                    i <= o.sections@.len(),
                    views(titles@) == o.sections@.map_values(
                        |s: crate::report::ReportSectionOutline| s.title@,
                    ).take(i as int),
                decreases o.sections.len() - i,
            {
                let ghost t0 = views(titles@);
                titles.push(o.sections[i].title.clone());
                assert(views(titles@) =~= t0.push(o.sections@[i as int].title@));
                assert(o.sections@.map_values(|s: crate::report::ReportSectionOutline| s.title@).take(
                    i + 1,
                ) =~= o.sections@.map_values(|s: crate::report::ReportSectionOutline| s.title@).take(
                    i as int,
                ).push(o.sections@[i as int].title@));
                i = i + 1;
            }
            assert(o.sections@.map_values(|s: crate::report::ReportSectionOutline| s.title@).take(
                i as int,
            ) =~= o.sections@.map_values(|s: crate::report::ReportSectionOutline| s.title@));
            let mut s = owned("Report: ");
            push_str(&mut s, o.title.as_str());
            push_str(&mut s, "\nSummary: ");
            push_str(&mut s, o.summary.as_str());
            push_str(&mut s, "\nSections: ");
            push_str(&mut s, join_strings(&titles, ", ").as_str());
            s
        },
        None => owned("Report outline not available."),
    };
    let mut lines: Vec<String> = Vec::new();
    let mut i: usize = 0;
    let ghost parts = report.sections@.map_values(
        |s: ReportSection| "- "@ + s.title@ + ": "@ + take_chars(s.content@, 200),
    );
    while i < report.sections.len()
        invariant
            i <= report.sections@.len(),
            parts == report.sections@.map_values(
                |s: ReportSection| "- "@ + s.title@ + ": "@ + take_chars(s.content@, 200),
            ),
            views(lines@) == parts.take(i as int),
        decreases report.sections.len() - i,
    {
        let sec = &report.sections[i];
        let mut line = owned("- ");
        push_str(&mut line, sec.title.as_str());
        push_str(&mut line, ": ");
        push_str(&mut line, first_chars(sec.content.as_str(), 200).as_str());
        let ghost l0 = views(lines@);
        lines.push(line);
        assert(views(lines@) =~= l0.push(parts[i as int]));
        assert(parts.take(i + 1) =~= parts.take(i as int).push(parts[i as int]));
        i = i + 1;
    }
    assert(parts.take(i as int) =~= parts);
    let mut r = owned("You are an AI assistant with full knowledge of a simulation report.\n\n");
    push_str(&mut r, outline.as_str());
    push_str(&mut r, "\n\nReport sections:\n");
    push_str(&mut r, join_strings(&lines, "\n").as_str());
    push_str(
        &mut r,
        "\n\nYou can use tools to query the simulation graph for more details. Answer questions about the simulation and its predictions accurately.",
    );
    r
}

/// The first ten messages of the history as `role: content` lines, then
/// the user's message and the assistant's turn.
pub open spec fn chat_prompt(history: Seq<ChatMessage>, message: Seq<char>) -> Seq<char> {
    let k = if history.len() < 10 {
        history.len() as int
    } else {
        10
    };
    crate::interview::lines_from(history.take(k), 0) + "user: "@ + message + "\nassistant:"@
}

/// The user prompt for a chat turn.
pub fn build_chat_prompt(history: &[ChatMessage], message: &str) -> (r: String)
    ensures
        r@ == chat_prompt(history@, message@),
{
    let k = if history.len() < 10 {
        history.len()
    } else {
        10
    };
    let ghost h = history@.take(k as int);
    let mut prompt = String::new();
    let mut i: usize = 0;
    while i < k
        invariant
            k <= history@.len(),
            h == history@.take(k as int),
            i <= k,
            prompt@ + crate::interview::lines_from(h, i as int) == crate::interview::lines_from(h, 0),
        decreases k - i,
    {
        let m = &history[i];
        let ghost p0 = prompt@;
        push_str(&mut prompt, m.role.as_str());
        push_str(&mut prompt, ": ");
        push_str(&mut prompt, m.content.as_str());
        push_str(&mut prompt, "\n");
        assert(h[i as int] == history@[i as int]);
        assert(prompt@ + crate::interview::lines_from(h, i + 1) =~= p0 + crate::interview::lines_from(h, i as int));
        i = i + 1;
    }
    assert(crate::interview::lines_from(h, k as int) =~= Seq::<char>::empty());
    assert(prompt@ =~= crate::interview::lines_from(h, 0));
    push_str(&mut prompt, "user: ");
    push_str(&mut prompt, message);
    push_str(&mut prompt, "\nassistant:");
    prompt
}

/// The tools an answer mentions, by name or by what they do, in the order
/// InsightForge, PanoramaSearch, QuickSearch, InterviewAgents.
pub open spec fn tools_mentioned(r: Seq<char>) -> Seq<Seq<char>> {
    (if contains(r, "InsightForge"@) || contains(r, "deep analysis"@) {
        seq!["InsightForge"@]
    } else {
        Seq::empty()
    }) + (if contains(r, "PanoramaSearch"@) || contains(r, "broad view"@) {
        seq!["PanoramaSearch"@]
    } else {
        Seq::empty()
    }) + (if contains(r, "QuickSearch"@) || contains(r, "quick lookup"@) {
        seq!["QuickSearch"@]
    } else {
        Seq::empty()
    }) + (if contains(r, "InterviewAgents"@) || contains(r, "agent said"@) {
        seq!["InterviewAgents"@]
    } else {
        Seq::empty()
    })
}

/// The tools an answer mentions.
pub fn detect_tools_used(response: &str) -> (r: Vec<String>)
    ensures
        views(r@) == tools_mentioned(response@),
{
    let mut tools: Vec<String> = Vec::new();
    let ghost t0 = views(tools@);
    if str_contains(response, "InsightForge") || str_contains(response, "deep analysis") {
        tools.push(owned("InsightForge"));
    }
    let ghost t1 = views(tools@);
    if str_contains(response, "PanoramaSearch") || str_contains(response, "broad view") {
        tools.push(owned("PanoramaSearch"));
    }
    let ghost t2 = views(tools@);
    if str_contains(response, "QuickSearch") || str_contains(response, "quick lookup") {
        tools.push(owned("QuickSearch"));
    }
    let ghost t3 = views(tools@);
    if str_contains(response, "InterviewAgents") || str_contains(response, "agent said") {
        tools.push(owned("InterviewAgents"));
    }
    assert(views(tools@) =~= tools_mentioned(response@));
    tools
}

} // verus!
