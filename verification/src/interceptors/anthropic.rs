//! The Anthropic-shaped messages client: what its calls look like to the
//! platform.

use vstd::prelude::*;
use crate::interceptors::{join_lines, line, lines, prompt_line, response_summary, summary_of};
use crate::text::{append, owned};
use crate::types::agent::TokenUsage;

verus! {

/// One message.
#[derive(Debug, Clone, PartialEq, Eq)]
pub struct AnthropicMessage {
    pub role: String,
    pub content: String,
}

/// One content block of a response.
#[derive(Debug, Clone, PartialEq, Eq)]
pub struct AnthropicContent {
    pub type_: String,
    pub text: String,
}

/// Token counts of a response.
#[derive(Debug, Clone, Copy, PartialEq, Eq)]
pub struct AnthropicUsage {
    pub input_tokens: usize,
    pub output_tokens: usize,
}

/// A messages response.
#[derive(Debug, Clone, PartialEq, Eq)]
pub struct AnthropicResponse {
    pub id: String,
    pub type_: String,
    pub role: String,
    pub content: Vec<AnthropicContent>,
    pub model: String,
    pub usage: AnthropicUsage,
}

/// The prompt the platform inspects: a `System:` line for the system
/// prompt when there is one, then one `role: content` line per message.
pub open spec fn messages_prompt(system: Option<Seq<char>>, messages: Seq<AnthropicMessage>) -> Seq<char> {
    let body = messages.map_values(|m: AnthropicMessage| prompt_line(m.role@, m.content@));
    match system {
        Some(s) => lines(seq!["System: "@ + s] + body),
        None => lines(body),
    }
}


/// The prompt is an optional `System: ` line, then the messages'
/// `role: content` lines in order, one per message, joined by newlines:
/// nothing at all gives no prompt, and one more message adds a newline and
/// its line after everything before it.
pub proof fn law_the_prompt_has_one_line_per_message(system: Option<Seq<char>>, messages: Seq<AnthropicMessage>, m: AnthropicMessage)
    ensures
        messages_prompt(None, Seq::empty()) == Seq::<char>::empty(),
        messages_prompt(None, seq![m]) == m.role@ + ": "@ + m.content@,
        system matches Some(s) ==> messages_prompt(system, Seq::empty()) == "System: "@ + s,
        (system is Some || messages.len() > 0) ==> messages_prompt(system, messages.push(m))
            == messages_prompt(system, messages) + "\n"@ + (m.role@ + ": "@ + m.content@),
{
    let f = |c: AnthropicMessage| prompt_line(c.role@, c.content@);
    assert(Seq::<AnthropicMessage>::empty().map_values(f) =~= Seq::<Seq<char>>::empty());
    assert(seq![m].map_values(f) =~= seq![f(m)]);
    let body = messages.map_values(f);
    assert(messages.push(m).map_values(f) =~= body.push(f(m)));
    assert(body.push(f(m)).drop_last() =~= body);
    if let Some(s) = system {
        let head = seq!["System: "@ + s];
        assert(head + Seq::<Seq<char>>::empty() =~= head);
        assert(head + body.push(f(m)) =~= (head + body).push(f(m)));
        assert((head + body).push(f(m)).drop_last() =~= head + body);
    }
}

/// The prompt of a messages request.
pub fn messages_prompt_text(system: Option<&str>, messages: &[AnthropicMessage]) -> (r: String)
    ensures
        r@ == messages_prompt(
            match system {
                Some(s) => Some(s@),
                None => None,
            },
            messages@,
        ),
{
    let mut parts: Vec<String> = Vec::new();
    let ghost head: Seq<Seq<char>> = match system {
        Some(s) => seq!["System: "@ + s@],
        None => Seq::empty(),
    };
    match system {
        Some(s) => {
            let mut first = owned("System: ");
            append(&mut first, s);
            parts.push(first);
        },
        None => {},
    }
    proof {
        assert(parts@.map_values(|p: String| p@) =~= head);
    }
    let mut i: usize = 0;
    while i < messages.len()
        invariant
            i <= messages@.len(),
            parts@.map_values(|p: String| p@) == head + messages@.subrange(0, i as int).map_values(|m: AnthropicMessage| prompt_line(m.role@, m.content@)),
        decreases messages@.len() - i,
    {
        let l = line(messages[i].role.as_str(), messages[i].content.as_str());
        let ghost before = parts@;
        parts.push(l);
        proof {
            let f = |m: AnthropicMessage| prompt_line(m.role@, m.content@);
            let g = |p: String| p@;
            assert(messages@.subrange(0, i + 1) =~= messages@.subrange(0, i as int).push(messages@[i as int]));
            assert(messages@.subrange(0, i + 1).map_values(f) =~= messages@.subrange(0, i as int).map_values(f).push(f(messages@[i as int])));
            assert(parts@.map_values(g) =~= before.map_values(g).push(l@));
            assert(parts@.map_values(g) =~= head + messages@.subrange(0, i + 1).map_values(f));
        }
        i += 1;
    }
    proof {
        assert(messages@.subrange(0, messages@.len() as int) =~= messages@);
        let body = messages@.map_values(|m: AnthropicMessage| prompt_line(m.role@, m.content@));
        if system is None {
            assert(head + body =~= body);
        }
    }
    join_lines(&parts)
}

/// The audit summary of a response: its first content block's text,
/// summarised, or nothing when it has none.
pub fn message_summary(response: &AnthropicResponse) -> (r: String)
    ensures
        response.content@.len() == 0 ==> r@.len() == 0,
        response.content@.len() > 0 ==> r@ == summary_of(response.content@[0].text@),
{
    if response.content.len() == 0 {
        String::new()
    } else {
        response_summary(response.content[0].text.as_str())
    }
}

/// The token usage an audit record carries for a response: input, output,
/// and their sum.
pub fn message_token_usage(usage: &AnthropicUsage) -> (t: TokenUsage)
    requires
        usage.input_tokens + usage.output_tokens <= usize::MAX,
    ensures
        t == (TokenUsage {
            prompt_tokens: usage.input_tokens,
            completion_tokens: usage.output_tokens,
            total_tokens: (usage.input_tokens + usage.output_tokens) as usize,
        }),
{
    TokenUsage {
        prompt_tokens: usage.input_tokens,
        completion_tokens: usage.output_tokens,
        total_tokens: usage.input_tokens + usage.output_tokens,
    }
}

} // verus!
