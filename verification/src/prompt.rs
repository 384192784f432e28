//! Prompt synthesis for the generation service, and extraction of the
//! reply text from its response shape.
//!
//! The prompt is one string: a fixed instruction preamble naming the
//! current author, a "Recent conversation:" section listing at most the
//! five most-recent context messages newest first, and the current
//! message restated with a respond cue.

use vstd::prelude::*;
use vstd::string::StringExecFns;
use crate::message::PersistedMessage;

verus! {

/// At most this many context messages enter a prompt.
pub const PROMPT_CONTEXT_MESSAGES: usize = 5;

/// One context line: automated messages are attributed to "AI", human
/// ones to their author.
pub open spec fn spec_context_line(m: PersistedMessage) -> Seq<char> {
    if m.is_ai {
        "AI: "@ + m.message@ + "\n"@
    } else {
        m.username@ + ": "@ + m.message@ + "\n"@
    }
}

/// The lines of the `count` newest context messages, newest first.
pub open spec fn spec_context_lines(ctx: Seq<PersistedMessage>, count: int) -> Seq<char>
    decreases ctx.len(),
{
    if count <= 0 || ctx.len() == 0 {
        Seq::empty()
    } else {
        spec_context_line(ctx.last()) + spec_context_lines(ctx.drop_last(), count - 1)
    }
}

/// The whole prompt for a current message, its author, and the (oldest
/// first) context fetched from the store.
pub open spec fn spec_prompt(
    current: Seq<char>,
    author: Seq<char>,
    ctx: Seq<PersistedMessage>,
) -> Seq<char> {
    let preamble = "You are a helpful AI assistant in a group chat. The user '"@ + author
        + "' just sent a message. Respond in a friendly, conversational way. Keep your response concise (1-2 sentences max) and engaging. Be helpful and natural.\n\n"@;
    let conversation = if ctx.len() == 0 {
        Seq::<char>::empty()
    } else {
        "Recent conversation:\n"@ + spec_context_lines(ctx, PROMPT_CONTEXT_MESSAGES as int)
    };
    let tail = "\nCurrent message from "@ + author + ": "@ + current + "\n\nPlease respond:"@;
    preamble + conversation + tail
}

/// One more context line extends the lines of the `k` newest messages by
/// the line of the next-older one.
proof fn lemma_context_lines_step(ctx: Seq<PersistedMessage>, k: int)
    requires
        0 <= k < ctx.len(),
    ensures
        spec_context_lines(ctx, k + 1) == spec_context_lines(ctx, k) + spec_context_line(
            ctx[ctx.len() - 1 - k],
        ),
    decreases k,
{
    let line = spec_context_line(ctx[ctx.len() - 1 - k]);
    if k == 0 {
        assert(spec_context_lines(ctx, 0) =~= Seq::<char>::empty());
        assert(spec_context_lines(ctx.drop_last(), 0) =~= Seq::<char>::empty());
        assert(spec_context_line(ctx.last()) + spec_context_lines(ctx.drop_last(), 0)
            =~= Seq::<char>::empty() + line);
    } else {
        let dl = ctx.drop_last();
        lemma_context_lines_step(dl, k - 1);
        assert(dl[dl.len() - 1 - (k - 1)] == ctx[ctx.len() - 1 - k]);
        assert(spec_context_line(ctx.last()) + (spec_context_lines(dl, k - 1) + line)
            =~= (spec_context_line(ctx.last()) + spec_context_lines(dl, k - 1)) + line);
    }
}

/// Once the whole context is taken, a larger count adds nothing.
proof fn lemma_context_lines_saturate(ctx: Seq<PersistedMessage>, a: int, b: int)
    requires
        ctx.len() <= a,
        ctx.len() <= b,
    ensures
        spec_context_lines(ctx, a) == spec_context_lines(ctx, b),
    decreases ctx.len(),
{
    if ctx.len() == 0 || a <= 0 || b <= 0 {
    } else {
        lemma_context_lines_saturate(ctx.drop_last(), a - 1, b - 1);
    }
}

/// Builds the prompt for `current_message` by `author` with `context` as
/// fetched from the store, oldest first: the five most-recent context
/// messages are listed newest first.
pub fn build_prompt(current_message: &str, author: &str, context: &Vec<PersistedMessage>) -> (r:
    String)
    ensures
        r@ == spec_prompt(current_message@, author@, context@),
{
    let mut out = String::new();
    out.append("You are a helpful AI assistant in a group chat. The user '");
    out.append(author);
    out.append(
        "' just sent a message. Respond in a friendly, conversational way. Keep your response concise (1-2 sentences max) and engaging. Be helpful and natural.\n\n",
    );
    let ghost preamble = out@;
    let len = context.len();
    if len > 0 {
        out.append("Recent conversation:\n");
        let ghost base = out@;
        let take = if len < PROMPT_CONTEXT_MESSAGES {
            len
        } else {
            PROMPT_CONTEXT_MESSAGES
        };
        let mut i: usize = 0;
        proof {
            assert(base + spec_context_lines(context@, 0) =~= base);
        }
        while i < take
            invariant
                len == context@.len(),
                take <= len,
                take == if len < PROMPT_CONTEXT_MESSAGES {
                    len as int
                } else {
                    PROMPT_CONTEXT_MESSAGES as int
                },
                0 <= i <= take,
                out@ == base + spec_context_lines(context@, i as int),
            decreases take - i,
        {
            let ghost prev = out@;
            let m = &context[len - 1 - i];
            if m.is_ai {
                out.append("AI: ");
                out.append(m.message.as_str());
                out.append("\n");
            } else {
                out.append(m.username.as_str());
                out.append(": ");
                out.append(m.message.as_str());
                out.append("\n");
            }
            proof {
                assert(out@ =~= prev + spec_context_line(context@[len - 1 - i]));
                lemma_context_lines_step(context@, i as int);
                assert(base + (spec_context_lines(context@, i as int) + spec_context_line(
                    context@[len - 1 - i],
                )) =~= (base + spec_context_lines(context@, i as int)) + spec_context_line(
                    context@[len - 1 - i],
                ));
            }
            i = i + 1;
        }
        proof {
            if len < PROMPT_CONTEXT_MESSAGES {
                lemma_context_lines_saturate(
                    context@,
                    take as int,
                    PROMPT_CONTEXT_MESSAGES as int,
                );
            }
        }
    }
    let ghost with_context = out@;
    out.append("\nCurrent message from ");
    out.append(author);
    out.append(": ");
    out.append(current_message);
    out.append("\n\nPlease respond:");
    proof {
        assert(out@ =~= spec_prompt(current_message@, author@, context@));
    }
    out
}

/// One text part of a generation-service candidate.
pub struct GenPart {
    pub text: String,
}

/// The content of one candidate: its text parts in order.
pub struct GenContent {
    pub parts: Vec<GenPart>,
}

/// One candidate reply of the generation service.
pub struct GenCandidate {
    pub content: GenContent,
}

/// The decoded shape of a generation-service response.
pub struct GenResponse {
    pub candidates: Vec<GenCandidate>,
}

/// The reply text of a response: the text of the first part of the first
/// candidate when both exist; any other shape means "no automated reply".
pub fn extract_reply(resp: GenResponse) -> (r: Option<String>)
    ensures
        r is Some <==> resp.candidates@.len() > 0 && resp.candidates@[0].content.parts@.len() > 0,
        r matches Some(t) ==> t == resp.candidates@[0].content.parts@[0].text,
{
    let mut candidates = resp.candidates;
    if candidates.len() == 0 {
        return None;
    }
    let first = candidates.remove(0);
    let mut parts = first.content.parts;
    if parts.len() == 0 {
        return None;
    }
    let part = parts.remove(0);
    Some(part.text)
}

} // verus!
