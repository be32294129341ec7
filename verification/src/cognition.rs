//! The cognitive loop: the decisions of one thinking step of an agent and
//! of the background loop that repeats it. The repository and the model
//! are reached around these functions; each takes what they returned.
use crate::agent::{Agent, AgentState};
use crate::budget::{consume_allowed, consumed, token_limit_message, cost_limit_message};
use crate::checkpoint::{Checkpoint, Message, MessageRole, stamped_from, transcript};
use crate::clock::{uuid_layout_mask, uuid_v4_layout};
use crate::agent::is_clock_reading;
use crate::error::{DomainError, DomainResult, is_invalid_transition, is_budget_exceeded};
use crate::llm::LlmResponse;
use crate::text::{contains_seq, contains_text, join2, join3};
use vstd::prelude::*;

verus! {

/// The system message of a step: the agent's instructions with the tools'
/// combined schema.
pub open spec fn step_system_text(tools_schema: Seq<char>) -> Seq<char> {
    "You are a Chronos Agent. You have access to the following tools: "@ + tools_schema
        + ". If you need to perform an action, output a JSON object with 'tool_call' containing 'tool_name' and 'arguments'."@
}

/// The user message of a step for the agent named `name`.
pub open spec fn step_user_text(name: Seq<char>) -> Seq<char> {
    "Continue your work for agent "@ + name
}

/// The error detail when a step is asked of an agent that is not running.
pub open spec fn not_running_detail() -> Seq<char> {
    "Agent is not in Running state"@
}

/// Whether a model's answer asks for a tool call: it holds `"tool_call"`,
/// quotes included.
pub open spec fn requests_tool(content: Seq<char>) -> bool {
    contains_seq(content, "\"tool_call\""@)
}

/// The observation recorded after a requested tool call.
pub open spec fn tool_observation() -> Seq<char> {
    "Tool executed successfully."@
}

/// The conversation a step records: the prompt, the model's answer, and,
/// where the answer asks for a tool call, the tool's observation.
pub open spec fn step_transcript(
    prompt: Seq<(MessageRole, Seq<char>)>,
    content: Seq<char>,
) -> Seq<(MessageRole, Seq<char>)> {
    if requests_tool(content) {
        prompt.push((MessageRole::Assistant, content)).push(
            (MessageRole::Tool, tool_observation()),
        )
    } else {
        prompt.push((MessageRole::Assistant, content))
    }
}

/// The messages that open a step of `agent`: a system message with the
/// tools' schema and a user message that asks the agent to continue. Only
/// a running agent takes a step.
pub fn step_prompt(agent: &Agent, tools_schema: &str) -> (r: DomainResult<Vec<Message>>)
    ensures
        agent.state != AgentState::Running ==> (r matches Err(e) && is_invalid_transition(
            e,
            agent.id,
            not_running_detail(),
        )),
        agent.state == AgentState::Running ==> (r matches Ok(ms) && transcript(ms@) == seq![
            (MessageRole::System, step_system_text(tools_schema@)),
            (MessageRole::User, step_user_text(agent.name@)),
        ] && stamped_from(ms@, 0)),
{
    if agent.state != AgentState::Running {
        return Err(
            DomainError::InvalidStateTransition(
                agent.id,
                String::from_str("Agent is not in Running state"),
            ),
        );
    }
    let system = join3(
        "You are a Chronos Agent. You have access to the following tools: ",
        tools_schema,
        ". If you need to perform an action, output a JSON object with 'tool_call' containing 'tool_name' and 'arguments'.",
    );
    let user = join2("Continue your work for agent ", agent.name.as_str());
    let mut ms: Vec<Message> = Vec::new();
    ms.push(Message::now(MessageRole::System, system));
    ms.push(Message::now(MessageRole::User, user));
    assert(transcript(ms@) =~= seq![
        (MessageRole::System, step_system_text(tools_schema@)),
        (MessageRole::User, step_user_text(agent.name@)),
    ]);
    Ok(ms)
}

/// Completes a step with the model's `response` to `prompt`: charges the
/// agent's budget with the tokens of both prompt and completion and the
/// call's cost, then returns the checkpoint of the step's conversation.
/// Where the budget refuses the charge, the agent is left as it was and
/// the budget's error is returned.
pub fn complete_step(agent: &mut Agent, prompt: Vec<Message>, response: LlmResponse) -> (r:
    DomainResult<Checkpoint>)
    requires
        response.prompt_tokens + response.completion_tokens <= u32::MAX,
        old(agent).budget.current_tokens + response.prompt_tokens + response.completion_tokens
            <= u32::MAX,
    ensures
        ({
            let tokens = (response.prompt_tokens + response.completion_tokens) as nat;
            let cost = response.total_cost_micros as nat;
            let b = old(agent).budget;
            &&& r is Ok <==> consume_allowed(b, tokens, cost)
            &&& r matches Ok(c) ==> {
                &&& *final(agent) == Agent { budget: consumed(b, tokens, cost), ..*old(agent) }
                &&& c.agent_id == old(agent).id
                &&& c.id & uuid_layout_mask() == uuid_v4_layout()
                &&& is_clock_reading(c.created_at)
                &&& c.messages@.take(prompt@.len() as int) == prompt@
                &&& stamped_from(c.messages@, prompt@.len() as int)
                &&& transcript(c.messages@) == step_transcript(
                    transcript(prompt@),
                    response.content@,
                )
                &&& c.tools@.len() == 0
            }
            &&& r is Err ==> *final(agent) == *old(agent)
            &&& b.current_tokens + tokens > b.max_tokens ==> (r matches Err(e)
                && is_budget_exceeded(
                e,
                old(agent).id,
                token_limit_message(b.max_tokens as nat, (b.current_tokens + tokens) as nat),
            ))
            &&& b.current_tokens + tokens <= b.max_tokens && b.current_cost_micros + cost
                > b.max_cost_micros ==> (r matches Err(e) && is_budget_exceeded(
                e,
                old(agent).id,
                cost_limit_message(b.max_cost_micros as nat, (b.current_cost_micros + cost) as nat),
            ))
        }),
{
    let tokens = response.prompt_tokens + response.completion_tokens;
    let id = agent.id;
    match agent.budget.consume(id, tokens, response.total_cost_micros) {
        Err(e) => {
            return Err(e);
        },
        Ok(()) => {},
    }
    let mut messages = prompt;
    let ghost before = transcript(messages@);
    let ghost before_messages = messages@;
    let wants_tool = contains_text(response.content.as_str(), "\"tool_call\"");
    let content = response.content;
    messages.push(Message::now(MessageRole::Assistant, content));
    if wants_tool {
        messages.push(
            Message::now(MessageRole::Tool, String::from_str("Tool executed successfully.")),
        );
    }
    assert(transcript(messages@) =~= step_transcript(before, response.content@));
    assert(messages@.take(before_messages.len() as int) =~= before_messages);
    Ok(Checkpoint::new(id, messages, Vec::new()))
}

/// What the background loop of an agent learns at each point.
#[derive(Clone, Copy, Debug, PartialEq, Eq, Structural)]
pub enum LoopEvent {
    /// The agent was read from the repository, in this state.
    AgentLoaded(AgentState),
    /// The agent could not be read.
    AgentUnavailable,
    /// A step completed.
    StepSucceeded,
    /// A step failed.
    StepFailed,
}

/// What the background loop does next.
#[derive(Clone, Copy, Debug, PartialEq, Eq, Structural)]
pub enum LoopAction {
    /// Run one cognitive step.
    RunStep,
    /// Wait, then read the agent again.
    WaitThenReload,
    /// Mark the agent as failed, save it, and end the loop.
    FailAgentAndFinish,
    /// End the loop.
    Finish,
}

/// The loop's rule: it steps only a running agent, ends when the agent
/// cannot be read or no longer runs, waits between steps, and marks the
/// agent failed when a step fails.
pub open spec fn loop_rule(event: LoopEvent) -> LoopAction {
    match event {
        LoopEvent::AgentLoaded(s) => if s == AgentState::Running {
            LoopAction::RunStep
        } else {
            LoopAction::Finish
        },
        LoopEvent::AgentUnavailable => LoopAction::Finish,
        LoopEvent::StepSucceeded => LoopAction::WaitThenReload,
        LoopEvent::StepFailed => LoopAction::FailAgentAndFinish,
    }
}

/// The background loop's next action after `event`.
pub fn next_loop_action(event: LoopEvent) -> (a: LoopAction)
    ensures
        a == loop_rule(event),
{
    match event {
        LoopEvent::AgentLoaded(s) => if s == AgentState::Running {
            LoopAction::RunStep
        } else {
            LoopAction::Finish
        },
        LoopEvent::AgentUnavailable => LoopAction::Finish,
        LoopEvent::StepSucceeded => LoopAction::WaitThenReload,
        LoopEvent::StepFailed => LoopAction::FailAgentAndFinish,
    }
}

/// The pause between two steps of the background loop, in seconds.
pub fn step_interval_seconds() -> (s: u64)
    ensures
        s == 5,
{
    5
}

/// The loop never steps an agent that is not running, and every failure
/// ends the loop.
pub proof fn law_loop_steps_only_running_agents(event: LoopEvent)
    ensures
        loop_rule(event) == LoopAction::RunStep ==> event == LoopEvent::AgentLoaded(
            AgentState::Running,
        ),
        event == LoopEvent::StepFailed || event == LoopEvent::AgentUnavailable ==> (loop_rule(
            event,
        ) == LoopAction::Finish || loop_rule(event) == LoopAction::FailAgentAndFinish),
{
}

/// A step records the whole prompt first, then the model's answer; the
/// tool's observation is added exactly when the answer asks for a tool.
pub proof fn law_step_transcript_extends_prompt(
    prompt: Seq<(MessageRole, Seq<char>)>,
    content: Seq<char>,
)
    ensures
        step_transcript(prompt, content).subrange(0, prompt.len() as int) == prompt,
        step_transcript(prompt, content)[prompt.len() as int] == (MessageRole::Assistant, content),
        step_transcript(prompt, content).len() == prompt.len() + if requests_tool(content) {
            2int
        } else {
            1int
        },
{
    assert(step_transcript(prompt, content).subrange(0, prompt.len() as int) =~= prompt);
}

/// The loop marks an agent failed only after a failed step: an agent found
/// in any state but `Running` (stopped, paused, pending or failed) ends the
/// loop and is left as it is; only a running agent is stepped, and only a
/// successful step leads to waiting.
pub proof fn law_loop_ends_quietly_unless_a_step_failed(event: LoopEvent, s: AgentState)
    ensures
        s != AgentState::Running ==> loop_rule(LoopEvent::AgentLoaded(s)) == LoopAction::Finish,
        loop_rule(LoopEvent::AgentLoaded(AgentState::Running)) == LoopAction::RunStep,
        (loop_rule(event) == LoopAction::FailAgentAndFinish) <==> (event == LoopEvent::StepFailed),
        (loop_rule(event) == LoopAction::WaitThenReload) <==> (event
            == LoopEvent::StepSucceeded),
        (loop_rule(event) == LoopAction::RunStep) <==> (event == LoopEvent::AgentLoaded(
            AgentState::Running,
        )),
        loop_rule(LoopEvent::AgentUnavailable) == LoopAction::Finish,
{
}

/// An answer asks for a tool wherever `"tool_call"` occurs in it, at the
/// start, in the middle or at the end, and only then.
pub proof fn law_tool_request_anywhere(a: Seq<char>, b: Seq<char>, content: Seq<char>)
    ensures
        requests_tool(a + "\"tool_call\""@ + b),
        requests_tool(content) <==> exists|i: int|
            0 <= i && i + "\"tool_call\""@.len() <= content.len() && #[trigger] content.subrange(
                i,
                i + "\"tool_call\""@.len(),
            ) == "\"tool_call\""@,
{
    let m = "\"tool_call\""@;
    let c = a + m + b;
    assert(c.subrange(a.len() as int, (a.len() + m.len()) as int) =~= m);
    assert(crate::text::occurs_at(c, m, a.len() as int));
    if requests_tool(content) {
        let i = choose|i: int| crate::text::occurs_at(content, m, i);
        assert(content.subrange(i, i + m.len()) == m);
    }
    if exists|i: int|
        0 <= i && i + m.len() <= content.len() && #[trigger] content.subrange(i, i + m.len()) == m {
        let i = choose|i: int|
            0 <= i && i + m.len() <= content.len() && #[trigger] content.subrange(i, i + m.len())
                == m;
        assert(crate::text::occurs_at(content, m, i));
    }
}

/// Where the answer asks for a tool, the step ends with the answer and then
/// the tool's observation; otherwise it ends with the answer.
pub proof fn law_step_ends_with_answer_and_observation(
    prompt: Seq<(MessageRole, Seq<char>)>,
    content: Seq<char>,
)
    ensures
        requests_tool(content) ==> step_transcript(prompt, content) == prompt + seq![
            (MessageRole::Assistant, content),
            (MessageRole::Tool, "Tool executed successfully."@),
        ],
        !requests_tool(content) ==> step_transcript(prompt, content) == prompt + seq![
            (MessageRole::Assistant, content),
        ],
{
    assert(prompt.push((MessageRole::Assistant, content)).push(
        (MessageRole::Tool, "Tool executed successfully."@),
    ) =~= prompt + seq![
        (MessageRole::Assistant, content),
        (MessageRole::Tool, "Tool executed successfully."@),
    ]);
    assert(prompt.push((MessageRole::Assistant, content)) =~= prompt + seq![
        (MessageRole::Assistant, content),
    ]);
}

} // verus!
