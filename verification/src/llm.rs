//! Language-model responses, the simulated provider, and the rules by which
//! the kernel speaks to OpenAI-compatible chat APIs.
use crate::checkpoint::{Message, MessageRole};
use crate::error::{DomainError, DomainResult, is_internal};
use crate::text::join3;
use vstd::prelude::*;

verus! {

/// A model's answer with its usage.
#[derive(Debug)]
pub struct LlmResponse {
    pub content: String,
    pub prompt_tokens: u32,
    pub completion_tokens: u32,
    /// What the call cost, in micro-dollars.
    pub total_cost_micros: u64,
}

/// A provider that simulates a model: it answers every conversation by
/// quoting its last message.
#[derive(Debug, Clone, Copy)]
pub struct MockLlmProvider;

/// The text that the simulated model answers to a conversation whose last
/// message reads `last`.
pub open spec fn simulated_answer(last: Seq<char>) -> Seq<char> {
    "I am a simulated response to: '"@ + last + "'. I am processing your task."@
}

/// What the simulated model quotes: the last message, or `No input` for an
/// empty conversation.
pub open spec fn quoted_input(messages: Seq<Message>) -> Seq<char> {
    if messages.len() == 0 {
        "No input"@
    } else {
        messages.last().content@
    }
}

impl MockLlmProvider {
    /// Answers with a simulated response to the last message, reporting 10
    /// prompt tokens, 20 completion tokens and a cost of 100 micro-dollars.
    /// It never fails.
    pub fn completion(&self, model_id: &str, messages: &[Message]) -> (r: DomainResult<
        LlmResponse,
    >)
        ensures
            r matches Ok(resp) && resp.content@ == simulated_answer(quoted_input(messages@))
                && resp.prompt_tokens == 10 && resp.completion_tokens == 20
                && resp.total_cost_micros == 100,
    {
        let last: &str = if messages.len() == 0 {
            "No input"
        } else {
            messages[messages.len() - 1].content.as_str()
        };
        let content = join3("I am a simulated response to: '", last, "'. I am processing your task.");
        Ok(LlmResponse { content, prompt_tokens: 10, completion_tokens: 20, total_cost_micros: 100 })
    }
}

/// The token counts that a chat API reports.
#[derive(Debug, Clone, Copy, PartialEq, Eq, Structural)]
pub struct ChatUsage {
    pub prompt_tokens: u32,
    pub completion_tokens: u32,
}

/// The role name that chat APIs expect. Tool results go as user messages.
pub open spec fn wire_role_of(role: MessageRole) -> Seq<char> {
    match role {
        MessageRole::System => "system"@,
        MessageRole::User => "user"@,
        MessageRole::Assistant => "assistant"@,
        MessageRole::Tool => "user"@,
    }
}

/// The role name that chat APIs expect for a message role.
pub fn wire_role(role: MessageRole) -> (r: &'static str)
    ensures
        r@ == wire_role_of(role),
{
    match role {
        MessageRole::System => "system",
        MessageRole::User => "user",
        MessageRole::Assistant => "assistant",
        MessageRole::Tool => "user",
    }
}

/// A message as a chat API receives it.
#[derive(Debug)]
pub struct ChatMessage {
    pub role: String,
    pub content: String,
}

/// Each message's wire role and text, as a chat API receives them.
pub open spec fn chat_view(messages: Seq<Message>) -> Seq<(Seq<char>, Seq<char>)> {
    messages.map_values(|m: Message| (wire_role_of(m.role), m.content@))
}

/// The messages of a conversation as a chat API receives them: each
/// message's wire role and text, in order.
pub fn chat_messages(messages: &[Message]) -> (r: Vec<ChatMessage>)
    ensures
        r@.map_values(|c: ChatMessage| (c.role@, c.content@)) == chat_view(messages@),
{
    let mut r: Vec<ChatMessage> = Vec::new();
    let mut i: usize = 0;
    while i < messages.len()
        invariant
            i <= messages@.len(),
            r@.map_values(|c: ChatMessage| (c.role@, c.content@)) == chat_view(
                messages@.take(i as int),
            ),
        decreases messages@.len() - i,
    {
        let m = &messages[i];
        let ghost prev = r@;
        r.push(
            ChatMessage {
                role: String::from_str(wire_role(m.role)),
                content: String::from_str(m.content.as_str()),
            },
        );
        assert(r@.map_values(|c: ChatMessage| (c.role@, c.content@)) =~= prev.map_values(
            |c: ChatMessage| (c.role@, c.content@),
        ).push((wire_role_of(m.role), m.content@)));
        assert(messages@.take(i + 1) =~= messages@.take(i as int).push(messages@[i as int]));
        assert(chat_view(messages@.take(i + 1)) =~= chat_view(messages@.take(i as int)).push(
            (wire_role_of(m.role), m.content@),
        ));
        i = i + 1;
    }
    assert(messages@.take(i as int) =~= messages@);
    r
}

/// The estimated cost of a call, in micro-dollars: one per prompt token and
/// two per completion token.
pub open spec fn estimated_cost(usage: ChatUsage) -> nat {
    (usage.prompt_tokens + 2 * usage.completion_tokens) as nat
}

/// The estimated cost of a call, in micro-dollars.
pub fn estimate_cost_micros(usage: ChatUsage) -> (r: u64)
    ensures
        r == estimated_cost(usage),
{
    usage.prompt_tokens as u64 + 2 * usage.completion_tokens as u64
}

/// The endpoint for chat completions under an API's base address.
pub fn completions_url(base_url: &str) -> (r: String)
    ensures
        r@ == base_url@ + "/chat/completions"@,
{
    crate::text::join2(base_url, "/chat/completions")
}

/// The authorization header value for an API key.
pub fn bearer(api_key: &str) -> (r: String)
    ensures
        r@ == "Bearer "@ + api_key@,
{
    crate::text::join2("Bearer ", api_key)
}

/// The error for a reply whose HTTP status is not a success.
pub fn api_error(body: &str) -> (e: DomainError)
    ensures
        is_internal(e, "API error: "@ + body@),
{
    DomainError::Internal(crate::text::join2("API error: ", body))
}

/// The response read from a chat reply, given the content of its first
/// choice (`None` where there is no choice; `Some(None)` where the choice
/// has no content) and the usage it reports. Without usage, both counts
/// are zero.
pub fn interpret_chat_reply(first_choice: Option<Option<String>>, usage: Option<ChatUsage>) -> (r:
    DomainResult<LlmResponse>)
    ensures
        first_choice is None ==> (r matches Err(e) && is_internal(
            e,
            "No choices returned from LLM"@,
        )),
        first_choice == Some(None::<String>) ==> (r matches Err(e) && is_internal(
            e,
            "Empty message content returned from LLM"@,
        )),
        first_choice matches Some(Some(c)) ==> (r matches Ok(resp) && resp.content == c && ({
            let u = match usage {
                Some(u) => u,
                None => ChatUsage { prompt_tokens: 0, completion_tokens: 0 },
            };
            &&& resp.prompt_tokens == u.prompt_tokens
            &&& resp.completion_tokens == u.completion_tokens
            &&& resp.total_cost_micros == estimated_cost(u)
        })),
{
    match first_choice {
        None => Err(DomainError::Internal(String::from_str("No choices returned from LLM"))),
        Some(None) => Err(
            DomainError::Internal(String::from_str("Empty message content returned from LLM")),
        ),
        Some(Some(content)) => {
            let u = match usage {
                Some(u) => u,
                None => ChatUsage { prompt_tokens: 0, completion_tokens: 0 },
            };
            Ok(
                LlmResponse {
                    content,
                    prompt_tokens: u.prompt_tokens,
                    completion_tokens: u.completion_tokens,
                    total_cost_micros: estimate_cost_micros(u),
                },
            )
        },
    }
}

/// A call costs one micro-dollar per prompt token and two per completion
/// token, and tool results travel as user messages.
pub proof fn law_chat_pricing_and_roles(u: ChatUsage)
    ensures
        estimated_cost(u) == u.prompt_tokens + 2 * u.completion_tokens,
        estimated_cost(ChatUsage { prompt_tokens: 0, completion_tokens: 0 }) == 0,
        wire_role_of(MessageRole::Tool) == wire_role_of(MessageRole::User),
        wire_role_of(MessageRole::System) == "system"@,
        wire_role_of(MessageRole::User) == "user"@,
        wire_role_of(MessageRole::Assistant) == "assistant"@,
{
}

} // verus!
