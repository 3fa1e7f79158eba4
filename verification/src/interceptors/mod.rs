//! Wrapping LLM provider clients: the prompt the platform inspects before a
//! call, the refusal for a blocked one, and the audit summary after.

pub mod anthropic;
pub mod openai;

use vstd::prelude::*;
use crate::error::AxonFlowError;
use crate::text::{append, chars_of, owned, string_of};

verus! {

/// The request type a wrapped provider call is checked under.
pub const LLM_CHAT_REQUEST: &'static str = "llm_chat";

/// The reason given for a block the platform did not explain.
pub const DEFAULT_BLOCK_REASON: &'static str = "Blocked by policy";

/// The longest response summary an audit record carries, in characters,
/// before the ellipsis.
pub const SUMMARY_CHARS: usize = 100;

/// One prompt line: `role: content`.
pub open spec fn prompt_line(role: Seq<char>, content: Seq<char>) -> Seq<char> {
    role + ": "@ + content
}

/// Lines joined with newlines.
pub open spec fn lines(ls: Seq<Seq<char>>) -> Seq<char>
    decreases ls.len(),
{
    if ls.len() == 0 {
        Seq::empty()
    } else if ls.len() == 1 {
        ls[0]
    } else {
        lines(ls.drop_last()) + "\n"@ + ls.last()
    }
}

/// Joins `parts` with newlines.
pub fn join_lines(parts: &Vec<String>) -> (r: String)
    ensures
        r@ == lines(parts@.map_values(|p: String| p@)),
{
    let ghost all = parts@.map_values(|p: String| p@);
    let mut r = String::new();
    let mut i: usize = 0;
    proof {
        reveal_strlit("");
    }
    while i < parts.len()
        invariant
            i <= parts@.len(),
            all == parts@.map_values(|p: String| p@),
            r@ == lines(all.subrange(0, i as int)),
        decreases parts@.len() - i,
    {
        proof {
            assert(all.subrange(0, i + 1).drop_last() =~= all.subrange(0, i as int));
        }
        if i > 0 {
            append(&mut r, "\n");
        }
        append(&mut r, parts[i].as_str());
        proof {
            if i == 0 {
                assert(r@ =~= all.subrange(0, 1)[0]);
            } else {
                assert(r@ =~= lines(all.subrange(0, i as int)) + "\n"@ + all[i as int]);
            }
        }
        i += 1;
    }
    proof {
        assert(all.subrange(0, parts@.len() as int) =~= all);
    }
    r
}

/// `role: content`.
pub fn line(role: &str, content: &str) -> (r: String)
    ensures
        r@ == prompt_line(role@, content@),
{
    let mut r = owned(role);
    append(&mut r, ": ");
    append(&mut r, content);
    r
}

/// The refusal for a call the platform blocked: `403` with its reason, or
/// the default one.
pub fn blocked_error(block_reason: Option<String>) -> (e: AxonFlowError)
    ensures
        match block_reason {
            Some(r) => e == (AxonFlowError::ApiError { status: 403, message: r }),
            None => e matches AxonFlowError::ApiError { status, message } && status == 403 && message@ == DEFAULT_BLOCK_REASON@,
        },
{
    match block_reason {
        Some(r) => AxonFlowError::ApiError { status: 403, message: r },
        None => AxonFlowError::ApiError { status: 403, message: owned(DEFAULT_BLOCK_REASON) },
    }
}

/// A response summary: the text itself when it is at most 100 characters,
/// its first 100 characters and `...` otherwise.
pub open spec fn summary_of(text: Seq<char>) -> Seq<char> {
    if text.len() > SUMMARY_CHARS {
        text.subrange(0, SUMMARY_CHARS as int) + "..."@
    } else {
        text
    }
}

/// Summarises a response for the audit record.
pub fn response_summary(text: &str) -> (r: String)
    ensures
        r@ == summary_of(text@),
{
    let cs = chars_of(text);
    if cs.len() > SUMMARY_CHARS {
        let mut head: Vec<char> = Vec::new();
        let mut i: usize = 0;
        while i < SUMMARY_CHARS
            invariant
                i <= SUMMARY_CHARS < cs@.len(),
                head@ == cs@.subrange(0, i as int),
            decreases SUMMARY_CHARS - i,
        {
            head.push(cs[i]);
            assert(cs@.subrange(0, i as int).push(cs@[i as int]) =~= cs@.subrange(0, i + 1));
            i += 1;
        }
        let mut r = string_of(head.as_slice());
        append(&mut r, "...");
        r
    } else {
        owned(text)
    }
}


/// What the platform's answer means for a wrapped provider call.
#[derive(Debug)]
pub enum WrappedCall {
    /// The platform blocked it: the provider is not called, and this is the
    /// caller's error.
    Refuse(AxonFlowError),
    /// The provider is called; afterwards the call is audited under
    /// `audit_as` when the platform named the request.
    Forward { audit_as: Option<String> },
}

/// Decides a wrapped call from the platform's answer: a blocked call is
/// refused with its reason (or the default one), anything else goes to the
/// provider and is audited under the request id, when there is one.
pub fn wrapped_call(blocked: bool, block_reason: Option<String>, request_id: Option<String>) -> (w: WrappedCall)
    ensures
        blocked ==> (w matches WrappedCall::Refuse(e) && match block_reason {
            Some(r) => e == (AxonFlowError::ApiError { status: 403, message: r }),
            None => e matches AxonFlowError::ApiError { status, message } && status == 403 && message@ == DEFAULT_BLOCK_REASON@,
        }),
        !blocked ==> w == (WrappedCall::Forward { audit_as: request_id }),
{
    if blocked {
        WrappedCall::Refuse(blocked_error(block_reason))
    } else {
        WrappedCall::Forward { audit_as: request_id }
    }
}

} // verus!
