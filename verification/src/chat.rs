//! Chat completions: what the core answers once the backend has computed,
//! all at once or as a stream whose items are computed up front.
//!
//! The caller owns the backend. It computes, reads the generation from output
//! slot 0 and hands it to [`decode_generation`], reads the token counts from
//! output slot 1 and hands them to
//! [`get_token_info_by_graph`](crate::json::get_token_info_by_graph), and
//! leaves the rest to [`compute_by_graph`] or [`chat_stream_by_graph`].

use crate::error::{ErrorView, LlamaCoreError};
use crate::post::{cleaned, post_process};
use crate::response::{
    tool_calls_view, ChatCompletionChunk, ChatCompletionObject, ChunkView, FinishReason,
    ObjectView, TokenInfo, ToolCall, ToolCallView, Usage,
};
use crate::stream::{
    lemma_cached_stream_yields_cache, usage_count, ChatStream, ItemView, PullInput, StreamItem,
    StreamView,
};
use crate::template::PromptTemplateType;
use crate::text::{has_prefix, join, replaced};
use crate::tools::{is_fresh_call_of, parse_tool_calls, tool_records};
use crate::utf8::string_from_utf8;
use crate::utils::{gen_chat_id, is_fresh_id};
use vstd::prelude::*;
use vstd::utf8::{decode_utf8, valid_utf8};

verus! {

/// What the process serves.
#[derive(Debug, Clone, Copy, PartialEq, Eq, Structural)]
pub enum RunningMode {
    Chat,
    Embeddings,
    ChatEmbeddings,
}

impl RunningMode {
    /// The name of the mode.
    pub open spec fn spec_name(self) -> Seq<char> {
        match self {
            RunningMode::Chat => "chat"@,
            RunningMode::Embeddings => "embeddings"@,
            RunningMode::ChatEmbeddings => "chat-embeddings"@,
        }
    }

    /// The name of the mode.
    pub fn name(&self) -> (name: &'static str)
        ensures
            name@ == self.spec_name(),
    {
        match self {
            RunningMode::Chat => "chat",
            RunningMode::Embeddings => "embeddings",
            RunningMode::ChatEmbeddings => "chat-embeddings",
        }
    }
}

/// Whether chat completions are served in the given mode: in every mode but
/// `Embeddings`, in which they fail at once.
pub fn check_running_mode(mode: RunningMode) -> (r: Result<(), LlamaCoreError>)
    ensures
        match mode {
            RunningMode::Embeddings => r matches Err(e) && e@ == ErrorView::Operation(
                "The chat completion is not supported in the "@ + mode.spec_name() + " mode."@,
            ),
            _ => r is Ok,
        },
{
    match mode {
        RunningMode::Embeddings => {
            let mut message = join("The chat completion is not supported in the ", mode.name());
            message.append(" mode.");
            Err(LlamaCoreError::Operation(message))
        },
        _ => Ok(()),
    }
}

/// The identifier under which a request is answered: the user that the
/// request names, or a fresh identifier where it names none.
pub fn completion_id(user: Option<&String>) -> (id: String)
    ensures
        match user {
            Some(user) => id@ == user@,
            None => is_fresh_id(id@, "chatcmpl-"@),
        },
{
    match user {
        Some(user) => user.clone(),
        None => gen_chat_id(),
    }
}

/// What the blocking computation reported.
#[derive(Debug, Clone, PartialEq, Eq)]
pub enum ComputeOutcome {
    /// The generation is complete.
    Done,
    /// The context window is full: the generation is cut short.
    ContextFull,
    /// The prompt did not fit the context window.
    PromptTooLong,
    /// Any other failure, with the backend's description of it.
    Failed(String),
}

/// The mathematical value of a [`ComputeOutcome`].
pub enum OutcomeView {
    Done,
    ContextFull,
    PromptTooLong,
    Failed(Seq<char>),
}

impl View for ComputeOutcome {
    type V = OutcomeView;

    open spec fn view(&self) -> OutcomeView {
        match *self {
            ComputeOutcome::Done => OutcomeView::Done,
            ComputeOutcome::ContextFull => OutcomeView::ContextFull,
            ComputeOutcome::PromptTooLong => OutcomeView::PromptTooLong,
            ComputeOutcome::Failed(reason) => OutcomeView::Failed(reason@),
        }
    }
}

impl ComputeOutcome {
    /// The error that the outcome is, where the computation failed.
    pub open spec fn spec_failure(self) -> Option<ErrorView> {
        match self@ {
            OutcomeView::Failed(reason) => Some(
                ErrorView::Compute("Failed to compute the chat completion. Reason: "@ + reason),
            ),
            _ => None,
        }
    }

    /// The error that the outcome is, where the computation failed for a
    /// reason other than a full context or a prompt that is too long; `None`
    /// for every other outcome, after which the generation is to be read.
    pub fn failure(&self) -> (error: Option<LlamaCoreError>)
        ensures
            match self.spec_failure() {
                Some(view) => error matches Some(e) && e@ == view,
                None => error is None,
            },
    {
        match self {
            ComputeOutcome::Failed(reason) => Some(LlamaCoreError::compute(reason.as_str())),
            _ => None,
        }
    }
}

/// The message of a generation: the text that output slot 0 held, decoded and
/// post-processed for the template (see [`cleaned`]).
///
/// It is an error if the bytes are not valid UTF-8, and for no other bytes.
pub fn decode_generation(output: &[u8], template: &PromptTemplateType) -> (r: Result<
    String,
    LlamaCoreError,
>)
    ensures
        if valid_utf8(output@) {
            r matches Ok(message) && message@ == cleaned(decode_utf8(output@), *template)
        } else {
            r matches Err(LlamaCoreError::Operation(message)) && has_prefix(
                message@,
                "Failed to decode the buffer of the inference result to a utf-8 string. "@,
            )
        },
{
    let raw = match string_from_utf8(output) {
        Ok(raw) => raw,
        Err(detail) => {
            proof {
                let prefix =
                    "Failed to decode the buffer of the inference result to a utf-8 string. "@;
                assert((prefix + detail@).subrange(0, prefix.len() as int) =~= prefix);
            }
            return Err(
                LlamaCoreError::operation_with(
                    "Failed to decode the buffer of the inference result to a utf-8 string. ",
                    detail.as_str(),
                ),
            );
        },
    };
    match post_process(raw.as_str(), template) {
        Ok(message) => Ok(message),
        Err(reason) => Err(
            LlamaCoreError::operation_with("Failed to post-process the output. ", reason.as_str()),
        ),
    }
}

/// The error of a request that wants tools from a template that knows none.
pub open spec fn tools_unsupported() -> ErrorView {
    ErrorView::Operation(
        "The tool use is only supported for 'mistral-chat' and 'chatml' prompt templates."@,
    )
}

/// How a generation ended, for what the computation reported and whether the
/// generation carries tool calls.
pub open spec fn finish_reason(outcome: OutcomeView, calls: bool) -> FinishReason {
    match outcome {
        OutcomeView::Done => if calls {
            FinishReason::ToolCalls
        } else {
            FinishReason::Stop
        },
        _ => FinishReason::Length,
    }
}

/// Whether `calls` are the tool calls of a complete generation `message`:
/// one call for each record in it where tools are in use, and none where
/// they are not, or where the generation was cut short.
pub open spec fn calls_of_generation(
    calls: Seq<ToolCallView>,
    outcome: OutcomeView,
    tool_use: bool,
    message: Seq<char>,
    template: PromptTemplateType,
) -> bool {
    let records = if outcome is Done && tool_use {
        tool_records(message, template)
    } else {
        seq![]
    };
    &&& calls.len() == records.len()
    &&& forall|i: int| 0 <= i < calls.len() ==> is_fresh_call_of(#[trigger] calls[i], records[i])
}

/// A complete generation that carries tool calls is answered with them:
/// where tools are in use and the generation holds at least one record, the
/// finish reason is `tool_calls`, and there is one call for each record, of
/// the type `function`, of the function that the record names, with the
/// record's arguments.
pub proof fn lemma_generation_with_tool_calls(
    calls: Seq<ToolCallView>,
    message: Seq<char>,
    template: PromptTemplateType,
)
    requires
        calls_of_generation(calls, OutcomeView::Done, true, message, template),
        tool_records(message, template).len() > 0,
    ensures
        finish_reason(OutcomeView::Done, calls.len() > 0) == FinishReason::ToolCalls,
        calls.len() == tool_records(message, template).len(),
        forall|i: int|
            0 <= i < calls.len() ==> {
                let record = tool_records(message, template)[i];
                &&& (#[trigger] calls[i]).ty == "function"@
                &&& calls[i].name == replaced(record.name, "\""@, ""@)
                &&& calls[i].arguments == record.arguments
            },
{
}

/// The tool calls of a generation.
fn generation_calls(
    outcome: &ComputeOutcome,
    tool_use: bool,
    message: &String,
    template: PromptTemplateType,
) -> (calls: Vec<ToolCall>)
    ensures
        calls_of_generation(tool_calls_view(calls@), outcome@, tool_use, message@, template),
{
    let found = match outcome {
        ComputeOutcome::Done => if tool_use {
            parse_tool_calls(message.as_str(), template)
        } else {
            None
        },
        _ => None,
    };
    match found {
        Some(calls) => calls,
        None => Vec::new(),
    }
}

/// The answer to a request that does not stream, once the backend has
/// computed.
///
/// `message` is the generation (see [`decode_generation`]) and `token_info`
/// are the counts that the backend reported for it; `id`, `created` and the
/// name of the graph go into the answer as they are.
///
/// - A computation that failed makes the error.
/// - A generation that the context window or the prompt cut short is
///   answered with the finish reason `length`, and without tool calls.
/// - A complete generation is answered with the finish reason `stop`. Where
///   tools are in use, the template has to know tool calls (it is an error if
///   it does not), and a generation that carries tool calls is answered with
///   these and the finish reason `tool_calls`.
///
/// The usage is that of `token_info`: its total is the sum of the two counts.
pub fn compute_by_graph(
    outcome: &ComputeOutcome,
    graph_name: &str,
    template: PromptTemplateType,
    id: String,
    tool_use: bool,
    message: String,
    token_info: &TokenInfo,
    created: u64,
) -> (r: Result<ChatCompletionObject, LlamaCoreError>)
    requires
        token_info.fits(),
    ensures
        match outcome@ {
            OutcomeView::Failed(reason) => r matches Err(e) && e@ == ErrorView::Compute(
                "Failed to compute the chat completion. Reason: "@ + reason,
            ),
            _ => if outcome@ is Done && tool_use && !template.supports_tools() {
                r matches Err(e) && e@ == tools_unsupported()
            } else {
                &&& r matches Ok(object)
                &&& object@.choices.len() == 1
                &&& calls_of_generation(
                    object@.choices[0].tool_calls,
                    outcome@,
                    tool_use,
                    message@,
                    template,
                )
                &&& object@ == ObjectView::message(
                    id@,
                    created,
                    graph_name@,
                    message@,
                    object@.choices[0].tool_calls,
                    finish_reason(outcome@, object@.choices[0].tool_calls.len() > 0),
                    Usage::of(*token_info),
                )
                &&& object@.usage.total_tokens == object@.usage.prompt_tokens
                    + object@.usage.completion_tokens
            },
        },
{
    match outcome.failure() {
        Some(error) => {
            return Err(error);
        },
        None => {},
    }
    match outcome {
        ComputeOutcome::Done => {
            if tool_use && !template.has_tool_support() {
                return Err(
                    LlamaCoreError::operation(
                        "The tool use is only supported for 'mistral-chat' and 'chatml' prompt templates.",
                    ),
                );
            }
        },
        _ => {},
    }
    let calls = generation_calls(outcome, tool_use, &message, template);
    let finish = match outcome {
        ComputeOutcome::Done => if calls.len() > 0 {
            FinishReason::ToolCalls
        } else {
            FinishReason::Stop
        },
        _ => FinishReason::Length,
    };
    Ok(
        ChatCompletionObject::message(
            id,
            created,
            String::from_str(graph_name),
            message,
            calls,
            finish,
            Usage::new(token_info),
        ),
    )
}

/// The items of a stream that is computed up front: the chunk with the
/// generation, the usage chunk where the stream reports the usage, and the
/// closing event.
pub open spec fn precomputed_items(
    id: Seq<char>,
    created: u64,
    graph_name: Seq<char>,
    message: Seq<char>,
    calls: Seq<ToolCallView>,
    outcome: OutcomeView,
    include_usage: bool,
    usage: Usage,
) -> Seq<ItemView> {
    let first = ItemView::Chunk(
        ChunkView::delta(
            id,
            created,
            graph_name,
            Some(message),
            calls,
            if outcome is Done {
                None
            } else {
                Some(FinishReason::Length)
            },
        ),
    );
    if include_usage {
        seq![first, ItemView::Chunk(ChunkView::usage(id, created, graph_name, usage)), ItemView::Done]
    } else {
        seq![first, ItemView::Done]
    }
}

/// The stream that answers a request with tools, once the backend has
/// computed: its items are computed up front.
///
/// `message` is the generation (see [`decode_generation`]) and `token_info`
/// are the counts that the backend reported for it.
///
/// - A computation that failed makes the error.
/// - A generation that the context window or the prompt cut short makes a
///   chunk with the finish reason `length`, and without tool calls.
/// - A complete generation makes a chunk without a finish reason, with the
///   tool calls that it carries. The template has to know tool calls: it is
///   an error if it does not.
///
/// The stream yields that chunk, then the usage chunk if it reports the
/// usage, then the closing event.
pub fn chat_stream_by_graph(
    outcome: &ComputeOutcome,
    graph_name: &str,
    template: PromptTemplateType,
    id: String,
    include_usage: bool,
    message: String,
    token_info: &TokenInfo,
    created: u64,
) -> (r: Result<ChatStream, LlamaCoreError>)
    requires
        token_info.fits(),
    ensures
        match outcome@ {
            OutcomeView::Failed(reason) => r matches Err(e) && e@ == ErrorView::Compute(
                "Failed to compute the chat completion. Reason: "@ + reason,
            ),
            _ => if outcome@ is Done && !template.supports_tools() {
                r matches Err(e) && e@ == tools_unsupported()
            } else {
                &&& r matches Ok(stream)
                &&& stream@.cache matches Some(items)
                &&& items.len() >= 2
                &&& items[0] matches ItemView::Chunk(first)
                &&& first.choices.len() == 1
                &&& calls_of_generation(
                    first.choices[0].tool_calls,
                    outcome@,
                    true,
                    message@,
                    template,
                )
                &&& stream@ == StreamView::new(
                    Some(graph_name@),
                    id@,
                    include_usage,
                    Some(
                        precomputed_items(
                            id@,
                            created,
                            graph_name@,
                            message@,
                            first.choices[0].tool_calls,
                            outcome@,
                            include_usage,
                            Usage::of(*token_info),
                        ),
                    ),
                )
                &&& include_usage ==> (items[1] matches ItemView::Chunk(chunk) && chunk.usage
                    matches Some(usage) && usage.total_tokens == usage.prompt_tokens
                    + usage.completion_tokens)
            },
        },
{
    match outcome.failure() {
        Some(error) => {
            return Err(error);
        },
        None => {},
    }
    match outcome {
        ComputeOutcome::Done => {
            if !template.has_tool_support() {
                return Err(
                    LlamaCoreError::operation(
                        "The tool use is only supported for 'mistral-chat' and 'chatml' prompt templates.",
                    ),
                );
            }
        },
        _ => {},
    }
    let calls = generation_calls(outcome, true, &message, template);
    let finish = match outcome {
        ComputeOutcome::Done => None,
        _ => Some(FinishReason::Length),
    };
    let first = StreamItem::Chunk(
        ChatCompletionChunk::delta(
            id.clone(),
            created,
            String::from_str(graph_name),
            Some(message),
            calls,
            finish,
        ),
    );
    let mut items: Vec<StreamItem> = Vec::new();
    items.push(first);
    if include_usage {
        items.push(
            StreamItem::Chunk(
                ChatCompletionChunk::usage(
                    id.clone(),
                    created,
                    String::from_str(graph_name),
                    Usage::new(token_info),
                ),
            ),
        );
    }
    items.push(StreamItem::Done);
    let ghost expected = precomputed_items(
        id@,
        created,
        graph_name@,
        message@,
        tool_calls_view(calls@),
        outcome@,
        include_usage,
        Usage::of(*token_info),
    );
    assert(crate::stream::items_view(items@) =~= expected);
    let stream = ChatStream::new(Some(String::from_str(graph_name)), id, include_usage, Some(items));
    Ok(stream)
}

/// A stream that is computed up front yields its chunk, the usage once if it
/// reports the usage and never if not, and the closing event last.
pub proof fn lemma_precomputed_stream(
    id: Seq<char>,
    created: u64,
    graph_name: Seq<char>,
    message: Seq<char>,
    calls: Seq<ToolCallView>,
    outcome: OutcomeView,
    include_usage: bool,
    usage: Usage,
    inputs: Seq<PullInput>,
)
    requires
        inputs.len() >= 3,
    ensures
        ({
            let items = precomputed_items(
                id,
                created,
                graph_name,
                message,
                calls,
                outcome,
                include_usage,
                usage,
            );
            let stream = StreamView::new(Some(graph_name), id, include_usage, Some(items));
            &&& stream.emitted(inputs) == items
            &&& items.last() == ItemView::Done
            &&& usage_count(items) == if include_usage {
                1nat
            } else {
                0nat
            }
        }),
{
    let items = precomputed_items(
        id,
        created,
        graph_name,
        message,
        calls,
        outcome,
        include_usage,
        usage,
    );
    lemma_cached_stream_yields_cache(Some(graph_name), id, include_usage, items, inputs);
    reveal_with_fuel(usage_count, 4);
}

} // verus!
