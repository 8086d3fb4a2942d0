//! The ReACT loop of the report agent, as a state machine: the prompt of
//! each round, what a reply of the model calls for, and when the loop ends.
use vstd::prelude::*;

use crate::llm::{final_answer, react_action, react_thought, parse_final_answer, parse_react_action, parse_react_thought};
use crate::report_tools::ToolResult;
use crate::strs::{decimal, decimal_string, first_chars, index_of, index_of_char, owned, push_str, str_eq, string_of, take_chars, chars_of};

verus! {

/// The most rounds a ReACT loop asks the model for.
pub const MAX_REACT_ITERATIONS: usize = 15;

/// One step of a ReACT loop.
#[derive(Debug, Clone)]
pub struct ReACTStep {
    pub thought: String,
    pub tool_name: String,
    pub tool_query: String,
    pub observation: String,
}

/// A step as the prompt shows it, numbered from 1; the observation cut to
/// 500 characters.
pub open spec fn step_text(i: int, s: ReACTStep) -> Seq<char> {
    "Step "@ + decimal((i + 1) as nat) + ":\nThought: "@ + s.thought@ + "\nAction: "@
        + s.tool_name@ + "\nObservation: "@ + take_chars(s.observation@, 500) + "\n\n"@
}

/// The steps as the prompt shows them.
pub open spec fn steps_text(steps: Seq<ReACTStep>) -> Seq<char>
    decreases steps.len(),
{
    if steps.len() == 0 {
        Seq::empty()
    } else {
        steps_text(steps.drop_last()) + step_text(steps.len() - 1, steps.last())
    }
}

/// The prompt of a ReACT round.
pub open spec fn react_prompt(
    system_prompt: Seq<char>,
    query: Seq<char>,
    context: Seq<char>,
    steps: Seq<ReACTStep>,
) -> Seq<char> {
    system_prompt + "\n\nQuery: "@ + query + "\n\nContext:\n"@ + context + "\n\n"@ + (if steps.len()
        > 0 {
        "Previous steps:\n"@ + steps_text(steps)
    } else {
        Seq::empty()
    }) + "Now think step by step. Use Thought: ... Action: ... format.\n"@
        + "When you have enough information, use Final Answer: ... to conclude.\n"@
}

/// The prompt of a ReACT round, with the steps taken so far.
pub fn build_react_prompt(
    system_prompt: &str,
    query: &str,
    context: &str,
    scratchpad: &[ReACTStep],
) -> (r: String)
    ensures
        r@ == react_prompt(system_prompt@, query@, context@, scratchpad@),
{
    let mut prompt = owned(system_prompt);
    push_str(&mut prompt, "\n\nQuery: ");
    push_str(&mut prompt, query);
    push_str(&mut prompt, "\n\nContext:\n");
    push_str(&mut prompt, context);
    push_str(&mut prompt, "\n\n");
    let ghost head = prompt@;
    if scratchpad.len() > 0 {
        push_str(&mut prompt, "Previous steps:\n");
        let ghost h2 = prompt@;
        let mut i: usize = 0;
        while i < scratchpad.len()
            invariant
                i <= scratchpad@.len(),
                prompt@ == h2 + steps_text(scratchpad@.take(i as int)),
            decreases scratchpad.len() - i,
        {
            let step = &scratchpad[i];
            let ghost p0 = prompt@;
            push_str(&mut prompt, "Step ");
            push_str(&mut prompt, decimal_string(i as u64 + 1).as_str());
            push_str(&mut prompt, ":\nThought: ");
            push_str(&mut prompt, step.thought.as_str());
            push_str(&mut prompt, "\nAction: ");
            push_str(&mut prompt, step.tool_name.as_str());
            push_str(&mut prompt, "\nObservation: ");
            push_str(&mut prompt, first_chars(step.observation.as_str(), 500).as_str());
            push_str(&mut prompt, "\n\n");
            assert(scratchpad@.take(i + 1).drop_last() =~= scratchpad@.take(i as int));
            assert(prompt@ =~= p0 + step_text(i as int, scratchpad@[i as int]));
            i = i + 1;
        }
        assert(scratchpad@.take(i as int) =~= scratchpad@);
    }
    push_str(&mut prompt, "Now think step by step. Use Thought: ... Action: ... format.\n");
    push_str(&mut prompt, "When you have enough information, use Final Answer: ... to conclude.\n");
    proof {
        if scratchpad@.len() == 0 {
            assert(head =~= head + Seq::<char>::empty());
        }
    }
    prompt
}

/// A tool the model can call, with what it is called with.
#[derive(Debug, Clone)]
pub enum ToolCall {
    /// Deep search over sub-queries, 10 hits each.
    InsightForge,
    /// Broad search, 15 hits.
    PanoramaSearch,
    /// Quick search, 5 hits.
    QuickSearch,
    /// An interview with an agent.
    InterviewAgents { agent_name: String, question: String },
}

impl ToolCall {
    /// How many hits a search asks for.
    pub fn limit(&self) -> (r: usize)
        ensures
            self is InsightForge ==> r == 10,
            self is PanoramaSearch ==> r == 15,
            self is QuickSearch ==> r == 5,
            self is InterviewAgents ==> r == 0,
    {
        match self {
            ToolCall::InsightForge => 10,
            ToolCall::PanoramaSearch => 15,
            ToolCall::QuickSearch => 5,
            ToolCall::InterviewAgents { .. } => 0,
        }
    }
}

/// The agent and question of an interview query `agent: question`: the
/// text before the first colon and the rest; "What happened?" as question
/// where there is no colon.
pub open spec fn interview_parts(q: Seq<char>) -> (Seq<char>, Seq<char>) {
    let k = index_of(q, ':', 0);
    if k < q.len() {
        (q.take(k), q.skip(k + 1))
    } else {
        (q, "What happened?"@)
    }
}

/// The tool that `tool_name` names, for `query`; `Unknown tool: <name>`
/// where it names none.
pub open spec fn tool_for(tool_name: Seq<char>, query: Seq<char>) -> Result<
    (Seq<char>, Option<(Seq<char>, Seq<char>)>),
    Seq<char>,
> {
    if tool_name == "InsightForge"@ || tool_name == "PanoramaSearch"@ || tool_name
        == "QuickSearch"@ {
        Ok((tool_name, None))
    } else if tool_name == "InterviewAgents"@ {
        Ok((tool_name, Some(interview_parts(query))))
    } else {
        Err("Unknown tool: "@ + tool_name)
    }
}

/// The name of a tool call.
pub open spec fn call_name(c: ToolCall) -> Seq<char> {
    match c {
        ToolCall::InsightForge => "InsightForge"@,
        ToolCall::PanoramaSearch => "PanoramaSearch"@,
        ToolCall::QuickSearch => "QuickSearch"@,
        ToolCall::InterviewAgents { .. } => "InterviewAgents"@,
    }
}

/// The view of a tool call: its name and, for an interview, its parts.
pub open spec fn call_view(c: ToolCall) -> (Seq<char>, Option<(Seq<char>, Seq<char>)>) {
    match c {
        ToolCall::InterviewAgents { agent_name, question } => (
            "InterviewAgents"@,
            Some((agent_name@, question@)),
        ),
        _ => (call_name(c), None),
    }
}

/// The tool that `tool_name` names, for `query`.
pub fn select_tool(tool_name: &str, query: &str) -> (r: Result<ToolCall, String>)
    ensures
        match tool_for(tool_name@, query@) {
            Ok(v) => r matches Ok(c) && call_view(c) == v,
            Err(m) => r matches Err(e) && e@ == m,
        },
{
    proof {
        reveal_strlit("InsightForge");
        reveal_strlit("PanoramaSearch");
        reveal_strlit("QuickSearch");
        reveal_strlit("InterviewAgents");
    }
    if str_eq(tool_name, "InsightForge") {
        Ok(ToolCall::InsightForge)
    } else if str_eq(tool_name, "PanoramaSearch") {
        Ok(ToolCall::PanoramaSearch)
    } else if str_eq(tool_name, "QuickSearch") {
        Ok(ToolCall::QuickSearch)
    } else if str_eq(tool_name, "InterviewAgents") {
        let v = chars_of(query);
        let k = index_of_char(&v, ':', 0);
        proof {
            crate::strs::lemma_index_of(v@, ':', 0);
        }
        if k < v.len() {
            assert(v@.subrange(0, k as int) =~= v@.take(k as int));
            assert(v@.subrange(k + 1, v.len() as int) =~= v@.skip(k + 1));
            Ok(
                ToolCall::InterviewAgents {
                    agent_name: string_of(&v, 0, k),
                    question: string_of(&v, k + 1, v.len()),
                },
            )
        } else {
            Ok(
                ToolCall::InterviewAgents {
                    agent_name: owned(query),
                    question: owned("What happened?"),
                },
            )
        }
    } else {
        let mut m = owned("Unknown tool: ");
        push_str(&mut m, tool_name);
        Err(m)
    }
}

/// What the loop asks of whoever runs it.
#[derive(Debug)]
pub enum ReactAction {
    /// Ask the model with this prompt.
    AskModel(String),
    /// Run this tool; `thought` is the thought the model gave with it.
    RunTool { call: ToolCall, thought: String },
    /// The loop is over, with this outcome.
    Finish(Result<String, String>),
}

/// What a reply of the model calls for: the final answer where it gives
/// one; else the tool its action names (an error for an unknown tool);
/// else the reply itself as the answer.
pub open spec fn reply_outcome(reply: Seq<char>, query: Seq<char>) -> Result<
    Result<Seq<char>, Seq<char>>,
    ((Seq<char>, Option<(Seq<char>, Seq<char>)>), Seq<char>),
> {
    match final_answer(reply) {
        Some(a) => Ok(Ok(a)),
        None => {
            let thought = match react_thought(reply) {
                Some(t) => t,
                None => Seq::empty(),
            };
            match react_action(reply) {
                Some((name, _)) => match tool_for(name, query) {
                    Ok(v) => Err((v, thought)),
                    Err(m) => Ok(Err(m)),
                },
                None => Ok(Ok(reply)),
            }
        },
    }
}

/// The view of an action that is not a request to the model.
pub open spec fn action_outcome(a: ReactAction) -> Option<
    Result<
        Result<Seq<char>, Seq<char>>,
        ((Seq<char>, Option<(Seq<char>, Seq<char>)>), Seq<char>),
    >,
> {
    match a {
        ReactAction::AskModel(_) => None,
        ReactAction::RunTool { call, thought } => Some(Err((call_view(call), thought@))),
        ReactAction::Finish(Ok(s)) => Some(Ok(Ok(s@))),
        ReactAction::Finish(Err(e)) => Some(Ok(Err(e@))),
    }
}

/// The state of a ReACT loop: the steps taken and the current round.
pub struct ReactLoop {
    pub scratchpad: Vec<ReACTStep>,
    pub iteration: usize,
}

impl ReactLoop {
    /// The loop's invariant: within the round limit, one step recorded per
    /// round before the current one (or per round, once the last round's
    /// tool has run).
    pub open spec fn wf(self) -> bool {
        &&& 1 <= self.iteration <= MAX_REACT_ITERATIONS
        &&& (self.scratchpad@.len() + 1 == self.iteration || self.scratchpad@.len()
            == self.iteration)
    }

    /// Starts a loop: round 1, asking the model with no steps yet.
    pub fn start(system_prompt: &str, query: &str, context: &str) -> (r: (ReactLoop, ReactAction))
        ensures
            r.0.wf(),
            r.0.iteration == 1,
            r.0.scratchpad@.len() == 0,
            r.1 matches ReactAction::AskModel(p) && p@ == react_prompt(
                system_prompt@,
                query@,
                context@,
                Seq::empty(),
            ),
    {
        let l = ReactLoop { scratchpad: Vec::new(), iteration: 1 };
        let p = build_react_prompt(system_prompt, query, context, &l.scratchpad);
        assert(l.scratchpad@ =~= Seq::<ReACTStep>::empty());
        (l, ReactAction::AskModel(p))
    }

    /// What the model's `reply` calls for.
    pub fn on_reply(&self, reply: &str, query: &str) -> (r: ReactAction)
        ensures
            action_outcome(r) == Some(reply_outcome(reply@, query@)),
    {
        if let Some(answer) = parse_final_answer(reply) {
            return ReactAction::Finish(Ok(answer));
        }
        let thought = match parse_react_thought(reply) {
            Some(t) => t,
            None => String::new(),
        };
        match parse_react_action(reply) {
            Some((name, _)) => match select_tool(name.as_str(), query) {
                Ok(call) => ReactAction::RunTool { call, thought },
                Err(e) => ReactAction::Finish(Err(e)),
            },
            None => ReactAction::Finish(Ok(owned(reply))),
        }
    }

    /// Records the tool's `result` with the `thought` it was called with,
    /// then asks the model again, or ends the loop where the last round is
    /// done.
    pub fn on_tool_result(
        &mut self,
        thought: String,
        result: ToolResult,
        system_prompt: &str,
        query: &str,
        context: &str,
    ) -> (r: ReactAction)
        requires
            old(self).wf(),
            old(self).scratchpad@.len() + 1 == old(self).iteration,
        ensures
            final(self).wf(),
            final(self).scratchpad@.len() == old(self).scratchpad@.len() + 1,
            final(self).scratchpad@.take(old(self).scratchpad@.len() as int) == old(
                self,
            ).scratchpad@,
            final(self).scratchpad@.last().thought == thought,
            final(self).scratchpad@.last().tool_name == result.tool_name,
            final(self).scratchpad@.last().tool_query == result.query,
            final(self).scratchpad@.last().observation == result.content,
            old(self).iteration < MAX_REACT_ITERATIONS ==> final(self).iteration == old(
                self,
            ).iteration + 1 && (r matches ReactAction::AskModel(p) && p@ == react_prompt(
                system_prompt@,
                query@,
                context@,
                final(self).scratchpad@,
            )),
            old(self).iteration >= MAX_REACT_ITERATIONS ==> final(self).iteration == old(
                self,
            ).iteration && (r matches ReactAction::Finish(Err(e)) && e@
                == "ReACT loop exceeded maximum iterations"@),
    {
        let ghost s0 = self.scratchpad@;
        self.scratchpad.push(
            ReACTStep {
                thought,
                tool_name: result.tool_name,
                tool_query: result.query,
                observation: result.content,
            },
        );
        assert(self.scratchpad@.take(s0.len() as int) =~= s0);
        if self.iteration < MAX_REACT_ITERATIONS {
            self.iteration = self.iteration + 1;
            let p = build_react_prompt(system_prompt, query, context, &self.scratchpad);
            ReactAction::AskModel(p)
        } else {
            ReactAction::Finish(Err(owned("ReACT loop exceeded maximum iterations")))
        }
    }
}

/// The rounds stay within the limit: when a well-formed loop moves on to
/// the next round (as `on_tool_result` does below the limit), the round it
/// left was below the limit and the new one is within it; and no
/// well-formed loop has recorded more than 15 steps.
pub proof fn lemma_react_rounds_bounded(before: ReactLoop, after: ReactLoop)
    requires
        before.wf(),
        after.wf(),
        after.iteration == before.iteration + 1,
    ensures
        after.iteration <= MAX_REACT_ITERATIONS,
        before.iteration < MAX_REACT_ITERATIONS,
        before.scratchpad@.len() < MAX_REACT_ITERATIONS,
        after.scratchpad@.len() <= MAX_REACT_ITERATIONS,
{
}

} // verus!
