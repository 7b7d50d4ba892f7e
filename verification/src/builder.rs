//! Fitting a prompt into the context window: how many tokens a prompt may
//! take, and which turns go when it takes more.

use crate::request::ChatCompletionRequestMessage;
use crate::response::ChatCompletionRole;
use vstd::prelude::*;

verus! {

/// The most tokens that a prompt may take of a context window: four fifths
/// of it.
pub open spec fn prompt_budget(ctx_size: u64) -> int {
    ctx_size * 4 / 5
}

/// The most tokens that a prompt may take of a context window of the given
/// size.
pub fn max_prompt_tokens(ctx_size: u64) -> (budget: u64)
    ensures
        budget == prompt_budget(ctx_size),
        budget <= ctx_size,
{
    let fifths: u64 = ctx_size / 5;
    let rest: u64 = ctx_size % 5;
    fifths * 4 + rest * 4 / 5
}

/// The role of the turn at index `i`.
pub open spec fn role_at(messages: Seq<ChatCompletionRequestMessage>, i: int) -> ChatCompletionRole {
    messages[i].spec_role()
}

/// Whether a conversation can be pruned: whether it begins with a system or
/// a user turn.
pub open spec fn prunable(messages: Seq<ChatCompletionRequestMessage>) -> bool {
    messages.len() > 0 && (role_at(messages, 0) == ChatCompletionRole::System || role_at(
        messages,
        0,
    ) == ChatCompletionRole::User)
}

/// Whether nothing more can go from a conversation: one that begins with the
/// system turn and has at most one more turn, or two of which the first is not
/// the user's; and one that is a single user turn.
pub open spec fn is_minimal(messages: Seq<ChatCompletionRequestMessage>) -> bool {
    if role_at(messages, 0) == ChatCompletionRole::System {
        messages.len() <= 2 || (messages.len() == 3 && role_at(messages, 1)
            != ChatCompletionRole::User)
    } else {
        messages.len() <= 1
    }
}

/// `messages` without its first turn, if that is a turn of `role`.
pub open spec fn without_leading(
    messages: Seq<ChatCompletionRequestMessage>,
    role: ChatCompletionRole,
) -> Seq<ChatCompletionRequestMessage> {
    if messages.len() > 0 && role_at(messages, 0) == role {
        messages.remove(0)
    } else {
        messages
    }
}

/// `messages` without its leading tool turn and the assistant turn that
/// follows it, where it begins with a tool turn.
pub open spec fn without_tool_exchange(messages: Seq<ChatCompletionRequestMessage>) -> Seq<
    ChatCompletionRequestMessage,
> {
    if messages.len() > 0 && role_at(messages, 0) == ChatCompletionRole::Tool {
        without_leading(messages.remove(0), ChatCompletionRole::Assistant)
    } else {
        messages
    }
}

/// The conversation after its oldest exchange went.
///
/// - One that begins with the system turn keeps that turn. With four turns
///   or more it loses the two turns after it; with three turns it loses the
///   one after it, if that is the user's.
/// - One that begins with a user turn loses that turn and, with three turns
///   or more, the assistant turn that follows it; a tool turn that comes to
///   the front then goes too, with the assistant turn that follows it.
/// - Any other conversation, and one that [`is_minimal`], stays as it is.
pub open spec fn pruned(messages: Seq<ChatCompletionRequestMessage>) -> Seq<
    ChatCompletionRequestMessage,
> {
    if !prunable(messages) || is_minimal(messages) {
        messages
    } else if role_at(messages, 0) == ChatCompletionRole::System {
        if messages.len() >= 4 {
            messages.remove(1).remove(1)
        } else {
            messages.remove(1)
        }
    } else {
        if messages.len() >= 3 {
            without_tool_exchange(
                without_leading(messages.remove(0), ChatCompletionRole::Assistant),
            )
        } else {
            messages.remove(0)
        }
    }
}

/// Pruning takes at least one turn from every conversation that can be
/// pruned and is not minimal, and leaves a minimal one as it is.
pub proof fn lemma_pruning_shrinks(messages: Seq<ChatCompletionRequestMessage>)
    requires
        prunable(messages),
    ensures
        !is_minimal(messages) ==> pruned(messages).len() < messages.len(),
        is_minimal(messages) ==> pruned(messages) == messages,
        role_at(messages, 0) == ChatCompletionRole::System ==> pruned(messages).len() > 0
            && pruned(messages)[0] == messages[0],
{
}

/// Takes the first turn from `messages` if it is a turn of `role`.
fn drop_leading(messages: &mut Vec<ChatCompletionRequestMessage>, role: ChatCompletionRole)
    ensures
        final(messages)@ == without_leading(old(messages)@, role),
{
    if messages.len() > 0 && messages[0].role() == role {
        messages.remove(0);
    }
}

/// Takes the oldest exchange from a conversation: afterwards it is
/// [`pruned`]. The call says whether any turn went: at least one goes,
/// unless the conversation [`is_minimal`].
///
/// The conversation has to begin with a system or a user turn.
pub fn prune(messages: &mut Vec<ChatCompletionRequestMessage>) -> (changed: bool)
    requires
        prunable(old(messages)@),
    ensures
        final(messages)@ == pruned(old(messages)@),
        changed == !is_minimal(old(messages)@),
        changed ==> final(messages)@.len() < old(messages)@.len(),
        !changed ==> final(messages)@ == old(messages)@,
{
    match messages[0].role() {
        ChatCompletionRole::System => {
            if messages.len() >= 4 {
                messages.remove(1);
                messages.remove(1);
                true
            } else if messages.len() == 3 && messages[1].role() == ChatCompletionRole::User {
                messages.remove(1);
                true
            } else {
                false
            }
        },
        _ => {
            if messages.len() >= 3 {
                messages.remove(0);
                drop_leading(messages, ChatCompletionRole::Assistant);
                if messages.len() > 0 && messages[0].role() == ChatCompletionRole::Tool {
                    messages.remove(0);
                    drop_leading(messages, ChatCompletionRole::Assistant);
                }
                true
            } else if messages.len() == 2 {
                messages.remove(0);
                true
            } else {
                false
            }
        },
    }
}

/// What to do with a prompt once its tokens are counted.
#[derive(Debug, Clone, Copy, PartialEq, Eq, Structural)]
pub enum Fit {
    /// The prompt is the one to compute with; so many tokens of the context
    /// window are left for the completion.
    Keep { available_completion_tokens: u64 },
    /// Turns went from the conversation: the prompt is to be rendered again.
    Retry,
}

/// What becomes of a prompt of `prompt_tokens` tokens in a context window of
/// `ctx_size` tokens.
pub open spec fn fit_of(
    messages: Seq<ChatCompletionRequestMessage>,
    prompt_tokens: u64,
    ctx_size: u64,
) -> Fit {
    if prompt_tokens > prompt_budget(ctx_size) && !is_minimal(messages) {
        Fit::Retry
    } else {
        Fit::Keep {
            available_completion_tokens: (ctx_size - prompt_budget(ctx_size)) as u64,
        }
    }
}

/// Decides on a prompt once the backend has counted its tokens.
///
/// A prompt within its budget of four fifths of the context window is kept,
/// and the conversation stays as it is. For a prompt over its budget the
/// conversation is pruned: the prompt is to be rendered again as long as a
/// turn went, and is kept, as long as it is, when none could go. What is left
/// of the context window beside the budget is available for the completion.
///
/// A conversation whose prompt is over its budget has to begin with a system
/// or a user turn.
pub fn fit_prompt(
    messages: &mut Vec<ChatCompletionRequestMessage>,
    prompt_tokens: u64,
    ctx_size: u64,
) -> (fit: Fit)
    requires
        prompt_tokens > prompt_budget(ctx_size) ==> prunable(old(messages)@),
    ensures
        fit == fit_of(old(messages)@, prompt_tokens, ctx_size),
        final(messages)@ == if prompt_tokens > prompt_budget(ctx_size) {
            pruned(old(messages)@)
        } else {
            old(messages)@
        },
        fit is Retry ==> final(messages)@.len() < old(messages)@.len(),
        fit is Keep ==> final(messages)@ == old(messages)@,
{
    let budget = max_prompt_tokens(ctx_size);
    if prompt_tokens > budget && prune(messages) {
        Fit::Retry
    } else {
        Fit::Keep { available_completion_tokens: ctx_size - budget }
    }
}

} // verus!
