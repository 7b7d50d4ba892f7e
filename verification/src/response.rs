//! What a chat completion answers with: usage, tool calls, the aggregated
//! object and the chunk of a stream.

use vstd::prelude::*;

verus! {

/// The token counts that the backend reports after a computation.
#[derive(Debug, Clone, Copy, PartialEq, Eq, Structural)]
pub struct TokenInfo {
    pub prompt_tokens: u64,
    pub completion_tokens: u64,
}

/// The token counts of a response.
#[derive(Debug, Clone, Copy, PartialEq, Eq, Structural)]
pub struct Usage {
    pub prompt_tokens: u64,
    pub completion_tokens: u64,
    pub total_tokens: u64,
}

impl TokenInfo {
    /// The sum of the two counts.
    pub open spec fn total(self) -> int {
        self.prompt_tokens + self.completion_tokens
    }

    /// Whether the sum of the two counts is a `u64`.
    pub open spec fn fits(self) -> bool {
        self.total() <= u64::MAX
    }

    /// The sum of the two counts, where it is a `u64`.
    pub fn checked_total(&self) -> (sum: Option<u64>)
        ensures
            self.fits() ==> sum == Some(self.total() as u64),
            !self.fits() ==> sum is None,
    {
        self.prompt_tokens.checked_add(self.completion_tokens)
    }
}

impl Usage {
    /// The usage that stands for the given counts.
    pub open spec fn of(token_info: TokenInfo) -> Usage {
        Usage {
            prompt_tokens: token_info.prompt_tokens,
            completion_tokens: token_info.completion_tokens,
            total_tokens: token_info.total() as u64,
        }
    }

    /// The usage of a response from the counts that the backend reported: the
    /// total is the sum of prompt and completion tokens.
    pub fn new(token_info: &TokenInfo) -> (usage: Usage)
        requires
            token_info.fits(),
        ensures
            usage == Usage::of(*token_info),
            usage.total_tokens == usage.prompt_tokens + usage.completion_tokens,
    {
        Usage {
            prompt_tokens: token_info.prompt_tokens,
            completion_tokens: token_info.completion_tokens,
            total_tokens: token_info.prompt_tokens + token_info.completion_tokens,
        }
    }
}

/// Why a generation came to its end.
#[derive(Debug, Clone, Copy, PartialEq, Eq, Structural)]
pub enum FinishReason {
    /// The model ended its turn.
    Stop,
    /// The context window or the prompt budget was exhausted.
    Length,
    /// The model asked for tools to be called.
    ToolCalls,
}

/// Who speaks in a turn.
#[derive(Debug, Clone, Copy, PartialEq, Eq, Structural)]
pub enum ChatCompletionRole {
    System,
    User,
    Assistant,
    Tool,
}

/// The function that a tool call names, with its arguments as JSON text.
#[derive(Debug, Clone, PartialEq, Eq)]
pub struct Function {
    pub name: String,
    pub arguments: String,
}

/// A function invocation that the model emitted.
#[derive(Debug, Clone, PartialEq, Eq)]
pub struct ToolCall {
    pub id: String,
    pub ty: String,
    pub function: Function,
}

/// The mathematical value of a [`ToolCall`].
pub struct ToolCallView {
    pub id: Seq<char>,
    pub ty: Seq<char>,
    pub name: Seq<char>,
    pub arguments: Seq<char>,
}

impl View for ToolCall {
    type V = ToolCallView;

    open spec fn view(&self) -> ToolCallView {
        ToolCallView {
            id: self.id@,
            ty: self.ty@,
            name: self.function.name@,
            arguments: self.function.arguments@,
        }
    }
}

/// The values of a list of tool calls.
pub open spec fn tool_calls_view(calls: Seq<ToolCall>) -> Seq<ToolCallView> {
    calls.map_values(|c: ToolCall| c@)
}

/// The value of an optional text.
pub open spec fn text_view(text: Option<String>) -> Option<Seq<char>> {
    match text {
        Some(s) => Some(s@),
        None => None,
    }
}

/// What changed in one choice since the last chunk.
#[derive(Debug, Clone, PartialEq, Eq)]
pub struct ChatCompletionChunkChoiceDelta {
    pub role: ChatCompletionRole,
    pub content: Option<String>,
    pub tool_calls: Vec<ToolCall>,
}

/// One choice of a chunk. Its `logprobs` are always null on the wire.
#[derive(Debug, Clone, PartialEq, Eq)]
pub struct ChatCompletionChunkChoice {
    pub index: u32,
    pub delta: ChatCompletionChunkChoiceDelta,
    pub finish_reason: Option<FinishReason>,
}

/// The mathematical value of a [`ChatCompletionChunkChoice`].
pub struct ChunkChoiceView {
    pub index: u32,
    pub role: ChatCompletionRole,
    pub content: Option<Seq<char>>,
    pub tool_calls: Seq<ToolCallView>,
    pub finish_reason: Option<FinishReason>,
}

impl View for ChatCompletionChunkChoice {
    type V = ChunkChoiceView;

    open spec fn view(&self) -> ChunkChoiceView {
        ChunkChoiceView {
            index: self.index,
            role: self.delta.role,
            content: text_view(self.delta.content),
            tool_calls: tool_calls_view(self.delta.tool_calls@),
            finish_reason: self.finish_reason,
        }
    }
}

/// One element of a streamed chat completion. On the wire its `object` is
/// always `chat.completion.chunk` and its `system_fingerprint` always
/// `fp_44709d6fcb`; the type holds neither, so no chunk can differ in them.
#[derive(Debug, Clone, PartialEq, Eq)]
pub struct ChatCompletionChunk {
    pub id: String,
    pub created: u64,
    pub model: String,
    pub choices: Vec<ChatCompletionChunkChoice>,
    pub usage: Option<Usage>,
}

/// The mathematical value of a [`ChatCompletionChunk`].
pub struct ChunkView {
    pub id: Seq<char>,
    pub object: Seq<char>,
    pub created: u64,
    pub model: Seq<char>,
    pub system_fingerprint: Seq<char>,
    pub choices: Seq<ChunkChoiceView>,
    pub usage: Option<Usage>,
}

impl View for ChatCompletionChunk {
    type V = ChunkView;

    open spec fn view(&self) -> ChunkView {
        ChunkView {
            id: self.id@,
            object: "chat.completion.chunk"@,
            created: self.created,
            model: self.model@,
            system_fingerprint: "fp_44709d6fcb"@,
            choices: self.choices@.map_values(|c: ChatCompletionChunkChoice| c@),
            usage: self.usage,
        }
    }
}

impl ChunkView {
    /// The chunk that carries one assistant delta and no usage.
    pub open spec fn delta(
        id: Seq<char>,
        created: u64,
        model: Seq<char>,
        content: Option<Seq<char>>,
        tool_calls: Seq<ToolCallView>,
        finish_reason: Option<FinishReason>,
    ) -> ChunkView {
        ChunkView {
            id,
            object: "chat.completion.chunk"@,
            created,
            model,
            system_fingerprint: "fp_44709d6fcb"@,
            choices: seq![
                ChunkChoiceView {
                    index: 0,
                    role: ChatCompletionRole::Assistant,
                    content,
                    tool_calls,
                    finish_reason,
                },
            ],
            usage: None,
        }
    }

    /// The chunk that carries the usage and no choice.
    pub open spec fn usage(id: Seq<char>, created: u64, model: Seq<char>, usage: Usage) -> ChunkView {
        ChunkView {
            id,
            object: "chat.completion.chunk"@,
            created,
            model,
            system_fingerprint: "fp_44709d6fcb"@,
            choices: seq![],
            usage: Some(usage),
        }
    }
}

impl ChatCompletionChunk {
    /// The `object` of every chunk on the wire.
    pub fn object(&self) -> (s: &'static str)
        ensures
            s@ == "chat.completion.chunk"@,
            s@ == self@.object,
    {
        "chat.completion.chunk"
    }

    /// The `system_fingerprint` of every chunk on the wire.
    pub fn system_fingerprint(&self) -> (s: &'static str)
        ensures
            s@ == "fp_44709d6fcb"@,
            s@ == self@.system_fingerprint,
    {
        "fp_44709d6fcb"
    }

    /// A chunk with one assistant delta at index 0 and no usage.
    pub fn delta(
        id: String,
        created: u64,
        model: String,
        content: Option<String>,
        tool_calls: Vec<ToolCall>,
        finish_reason: Option<FinishReason>,
    ) -> (chunk: ChatCompletionChunk)
        ensures
            chunk@ == ChunkView::delta(
                id@,
                created,
                model@,
                text_view(content),
                tool_calls_view(tool_calls@),
                finish_reason,
            ),
    {
        let choice = ChatCompletionChunkChoice {
            index: 0,
            delta: ChatCompletionChunkChoiceDelta {
                role: ChatCompletionRole::Assistant,
                content,
                tool_calls,
            },
            finish_reason,
        };
        let mut choices: Vec<ChatCompletionChunkChoice> = Vec::new();
        choices.push(choice);
        let chunk = ChatCompletionChunk { id, created, model, choices, usage: None };
        assert(chunk@.choices =~= seq![choice@]);
        chunk
    }

    /// The chunk that reports the usage: it has no choice.
    pub fn usage(id: String, created: u64, model: String, usage: Usage) -> (chunk:
        ChatCompletionChunk)
        ensures
            chunk@ == ChunkView::usage(id@, created, model@, usage),
    {
        let chunk = ChatCompletionChunk {
            id,
            created,
            model,
            choices: Vec::new(),
            usage: Some(usage),
        };
        assert(chunk@.choices =~= seq![]);
        chunk
    }
}

/// The message of an aggregated completion.
#[derive(Debug, Clone, PartialEq, Eq)]
pub struct ChatCompletionObjectMessage {
    pub role: ChatCompletionRole,
    pub content: Option<String>,
    pub tool_calls: Vec<ToolCall>,
}

/// One choice of an aggregated completion. Its `logprobs` are always null on
/// the wire.
#[derive(Debug, Clone, PartialEq, Eq)]
pub struct ChatCompletionObjectChoice {
    pub index: u32,
    pub message: ChatCompletionObjectMessage,
    pub finish_reason: FinishReason,
}

/// The mathematical value of a [`ChatCompletionObjectChoice`].
pub struct ObjectChoiceView {
    pub index: u32,
    pub role: ChatCompletionRole,
    pub content: Option<Seq<char>>,
    pub tool_calls: Seq<ToolCallView>,
    pub finish_reason: FinishReason,
}

impl View for ChatCompletionObjectChoice {
    type V = ObjectChoiceView;

    open spec fn view(&self) -> ObjectChoiceView {
        ObjectChoiceView {
            index: self.index,
            role: self.message.role,
            content: text_view(self.message.content),
            tool_calls: tool_calls_view(self.message.tool_calls@),
            finish_reason: self.finish_reason,
        }
    }
}

/// The answer to a request that does not stream. On the wire its `object` is
/// always `chat.completion`.
#[derive(Debug, Clone, PartialEq, Eq)]
pub struct ChatCompletionObject {
    pub id: String,
    pub created: u64,
    pub model: String,
    pub choices: Vec<ChatCompletionObjectChoice>,
    pub usage: Usage,
}

/// The mathematical value of a [`ChatCompletionObject`].
pub struct ObjectView {
    pub id: Seq<char>,
    pub object: Seq<char>,
    pub created: u64,
    pub model: Seq<char>,
    pub choices: Seq<ObjectChoiceView>,
    pub usage: Usage,
}

impl View for ChatCompletionObject {
    type V = ObjectView;

    open spec fn view(&self) -> ObjectView {
        ObjectView {
            id: self.id@,
            object: "chat.completion"@,
            created: self.created,
            model: self.model@,
            choices: self.choices@.map_values(|c: ChatCompletionObjectChoice| c@),
            usage: self.usage,
        }
    }
}

impl ObjectView {
    /// The completion with one assistant message at index 0.
    pub open spec fn message(
        id: Seq<char>,
        created: u64,
        model: Seq<char>,
        content: Seq<char>,
        tool_calls: Seq<ToolCallView>,
        finish_reason: FinishReason,
        usage: Usage,
    ) -> ObjectView {
        ObjectView {
            id,
            object: "chat.completion"@,
            created,
            model,
            choices: seq![
                ObjectChoiceView {
                    index: 0,
                    role: ChatCompletionRole::Assistant,
                    content: Some(content),
                    tool_calls,
                    finish_reason,
                },
            ],
            usage,
        }
    }
}

impl ChatCompletionObject {
    /// The `object` of every aggregated completion on the wire.
    pub fn object(&self) -> (s: &'static str)
        ensures
            s@ == "chat.completion"@,
            s@ == self@.object,
    {
        "chat.completion"
    }

    /// A completion with one assistant message at index 0.
    pub fn message(
        id: String,
        created: u64,
        model: String,
        content: String,
        tool_calls: Vec<ToolCall>,
        finish_reason: FinishReason,
        usage: Usage,
    ) -> (object: ChatCompletionObject)
        ensures
            object@ == ObjectView::message(
                id@,
                created,
                model@,
                content@,
                tool_calls_view(tool_calls@),
                finish_reason,
                usage,
            ),
    {
        let choice = ChatCompletionObjectChoice {
            index: 0,
            message: ChatCompletionObjectMessage {
                role: ChatCompletionRole::Assistant,
                content: Some(content),
                tool_calls,
            },
            finish_reason,
        };
        let mut choices: Vec<ChatCompletionObjectChoice> = Vec::new();
        choices.push(choice);
        let object = ChatCompletionObject { id, created, model, choices, usage };
        assert(object@.choices =~= seq![choice@]);
        object
    }
}

} // verus!
