//! The OpenAI-shaped chat client: what its calls look like to the platform.

use vstd::prelude::*;
use crate::interceptors::{join_lines, line, lines, prompt_line, response_summary, summary_of};
use crate::types::agent::TokenUsage;

verus! {

/// One chat message.
#[derive(Debug, Clone, PartialEq, Eq)]
pub struct ChatMessage {
    pub role: String,
    pub content: String,
}

/// One completion choice.
#[derive(Debug, Clone, PartialEq, Eq)]
pub struct ChatCompletionChoice {
    pub index: usize,
    pub message: ChatMessage,
    pub finish_reason: String,
}

/// Token counts of a completion.
#[derive(Debug, Clone, Copy, PartialEq, Eq)]
pub struct Usage {
    pub prompt_tokens: usize,
    pub completion_tokens: usize,
    pub total_tokens: usize,
}

/// A chat completion.
#[derive(Debug, Clone, PartialEq, Eq)]
pub struct ChatCompletionResponse {
    pub id: String,
    pub object: String,
    pub created: i64,
    pub model: String,
    pub choices: Vec<ChatCompletionChoice>,
    pub usage: Usage,
}

/// The prompt the platform inspects: one `role: content` line per message.
pub open spec fn chat_prompt(messages: Seq<ChatMessage>) -> Seq<char> {
    lines(messages.map_values(|m: ChatMessage| prompt_line(m.role@, m.content@)))
}

/// The prompt is the messages' `role: content` lines, in order, one per
/// message: no message, no prompt; one message, its line; and one more
/// message adds a newline and its line after everything before it.
pub proof fn law_the_prompt_has_one_line_per_message(messages: Seq<ChatMessage>, m: ChatMessage)
    ensures
        chat_prompt(Seq::empty()) == Seq::<char>::empty(),
        chat_prompt(seq![m]) == m.role@ + ": "@ + m.content@,
        messages.len() > 0 ==> chat_prompt(messages.push(m)) == chat_prompt(messages) + "\n"@ + (m.role@ + ": "@ + m.content@),
{
    let f = |c: ChatMessage| prompt_line(c.role@, c.content@);
    assert(Seq::<ChatMessage>::empty().map_values(f) =~= Seq::<Seq<char>>::empty());
    assert(seq![m].map_values(f) =~= seq![f(m)]);
    assert(messages.push(m).map_values(f) =~= messages.map_values(f).push(f(m)));
    assert(messages.map_values(f).push(f(m)).drop_last() =~= messages.map_values(f));
}

/// The prompt of a chat request.
pub fn chat_prompt_text(messages: &[ChatMessage]) -> (r: String)
    ensures
        r@ == chat_prompt(messages@),
{
    let mut parts: Vec<String> = Vec::new();
    let mut i: usize = 0;
    while i < messages.len()
        invariant
            i <= messages@.len(),
            parts@.map_values(|p: String| p@) == messages@.subrange(0, i as int).map_values(|m: ChatMessage| prompt_line(m.role@, m.content@)),
        decreases messages@.len() - i,
    {
        let l = line(messages[i].role.as_str(), messages[i].content.as_str());
        let ghost before = parts@;
        parts.push(l);
        proof {
            let f = |m: ChatMessage| prompt_line(m.role@, m.content@);
            let g = |p: String| p@;
            assert(messages@.subrange(0, i + 1) =~= messages@.subrange(0, i as int).push(messages@[i as int]));
            assert(messages@.subrange(0, i + 1).map_values(f) =~= messages@.subrange(0, i as int).map_values(f).push(f(messages@[i as int])));
            assert(parts@.map_values(g) =~= before.map_values(g).push(l@));
            assert(parts@.map_values(g) =~= messages@.subrange(0, i + 1).map_values(f));
        }
        i += 1;
    }
    proof {
        assert(messages@.subrange(0, messages@.len() as int) =~= messages@);
    }
    join_lines(&parts)
}

/// The audit summary of a completion: its first choice's content,
/// summarised, or nothing when it has no choice.
pub fn chat_summary(response: &ChatCompletionResponse) -> (r: String)
    ensures
        response.choices@.len() == 0 ==> r@.len() == 0,
        response.choices@.len() > 0 ==> r@ == summary_of(response.choices@[0].message.content@),
{
    if response.choices.len() == 0 {
        String::new()
    } else {
        response_summary(response.choices[0].message.content.as_str())
    }
}

/// The token usage an audit record carries for a completion.
pub fn chat_token_usage(usage: &Usage) -> (t: TokenUsage)
    ensures
        t == (TokenUsage { prompt_tokens: usage.prompt_tokens, completion_tokens: usage.completion_tokens, total_tokens: usage.total_tokens }),
{
    TokenUsage { prompt_tokens: usage.prompt_tokens, completion_tokens: usage.completion_tokens, total_tokens: usage.total_tokens }
}

} // verus!
