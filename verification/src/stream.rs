//! The streaming state machine: what a stream of chat-completion chunks
//! yields, pull by pull, for what the backend reports.
//!
//! The stream performs no backend call itself. A pull is a short exchange
//! with the caller, who owns the backend:
//!
//! 1. [`ChatStream::poll`] either yields an item at once, or ends the stream,
//!    or asks for the computation of one token.
//! 2. [`ChatStream::on_compute_single`] takes what the computation reported,
//!    moves the state on, and says what the pull needs next.
//! 3. [`ChatStream::on_token`] and [`ChatStream::usage_item`] turn what the
//!    caller then read from the backend into the item of this pull.
//!
//! An incremental stream holds a streaming session of the backend
//! ([`ChatStream::holds_session`]): whoever drops the stream releases it.
//!
//! What a stream yields over all its pulls is laid down for every behaviour
//! of the backend: [`StreamView::emitted`] gives the items, and the lemmas at
//! the end of this file say what holds of them.

use crate::error::{ErrorView, LlamaCoreError};
use crate::response::{
    tool_calls_view, ChatCompletionChunk, ChunkView, FinishReason, TokenInfo, ToolCall, Usage,
};
use crate::utf8::{
    lemma_reassembly, reassemble, residual_after, residual_of, text_of, texts_of,
};
use std::collections::VecDeque;
use vstd::prelude::*;
use vstd::utf8::{decode_utf8, valid_utf8};

verus! {

/// Where the wind-down after an end of sequence stands.
#[derive(Debug, Clone, Copy, PartialEq, Eq, Structural)]
pub enum StreamState {
    Usage,
    Done,
    EndOfSequence,
}

/// Where the wind-down after a full context stands.
#[derive(Debug, Clone, Copy, PartialEq, Eq, Structural)]
pub enum ContextFullState {
    Message,
    Usage,
    Done,
    EndOfSequence,
}

/// Where the wind-down after a prompt that was too long stands.
#[derive(Debug, Clone, Copy, PartialEq, Eq, Structural)]
pub enum PromptTooLongState {
    Message,
    Usage,
    Done,
    EndOfSequence,
}

/// What the computation of a single token reported.
#[derive(Debug, Clone, PartialEq, Eq)]
pub enum ComputeSignal {
    /// A token was computed and waits in output slot 0.
    Token,
    /// The model ended its turn.
    EndOfSequence,
    /// The context window is full.
    ContextFull,
    /// The prompt did not fit the context window.
    PromptTooLong,
    /// Any other failure, with the backend's description of it.
    Failed(String),
}

/// The mathematical value of a [`ComputeSignal`].
pub enum SignalView {
    Token,
    EndOfSequence,
    ContextFull,
    PromptTooLong,
    Failed(Seq<char>),
}

impl View for ComputeSignal {
    type V = SignalView;

    open spec fn view(&self) -> SignalView {
        match *self {
            ComputeSignal::Token => SignalView::Token,
            ComputeSignal::EndOfSequence => SignalView::EndOfSequence,
            ComputeSignal::ContextFull => SignalView::ContextFull,
            ComputeSignal::PromptTooLong => SignalView::PromptTooLong,
            ComputeSignal::Failed(reason) => SignalView::Failed(reason@),
        }
    }
}

/// What a stream hands to its consumer.
#[derive(Debug, Clone, PartialEq, Eq)]
pub enum StreamItem {
    /// A chunk, to be serialised and framed as one server-sent event.
    Chunk(ChatCompletionChunk),
    /// The event that closes every stream: `data: [DONE]`.
    Done,
}

/// The mathematical value of a [`StreamItem`].
pub enum ItemView {
    Chunk(ChunkView),
    Done,
}

impl View for StreamItem {
    type V = ItemView;

    open spec fn view(&self) -> ItemView {
        match *self {
            StreamItem::Chunk(chunk) => ItemView::Chunk(chunk@),
            StreamItem::Done => ItemView::Done,
        }
    }
}

/// The values of a list of items.
pub open spec fn items_view(items: Seq<StreamItem>) -> Seq<ItemView> {
    items.map_values(|i: StreamItem| i@)
}

/// How a pull begins.
#[derive(Debug, Clone, PartialEq, Eq)]
pub enum PullAction {
    /// The pull yields this item, which was computed up front.
    Yield(StreamItem),
    /// The stream has ended: nothing more goes to the wire.
    Stop,
    /// The caller computes a single token and reports with
    /// [`ChatStream::on_compute_single`].
    Compute,
}

/// The mathematical value of a [`PullAction`].
pub enum PullView {
    Yield(ItemView),
    Stop,
    Compute,
}

impl View for PullAction {
    type V = PullView;

    open spec fn view(&self) -> PullView {
        match *self {
            PullAction::Yield(item) => PullView::Yield(item@),
            PullAction::Stop => PullView::Stop,
            PullAction::Compute => PullView::Compute,
        }
    }
}

/// What a pull needs after the computation of a single token.
#[derive(Debug, Clone, PartialEq, Eq)]
pub enum Reaction {
    /// The caller reads the token from output slot 0 and hands it to
    /// [`ChatStream::on_token`].
    ReadToken,
    /// The caller reads the token counts and hands them to
    /// [`ChatStream::usage_item`].
    ReadUsage,
    /// The pull yields this item.
    Yield(StreamItem),
    /// The caller releases the streaming session; the stream has ended.
    Release,
    /// The caller releases the streaming session and fails with this error.
    Abort(LlamaCoreError),
}

/// The mathematical value of a [`Reaction`].
pub enum ReactionView {
    ReadToken,
    ReadUsage,
    Yield(ItemView),
    Release,
    Abort(ErrorView),
}

impl View for Reaction {
    type V = ReactionView;

    open spec fn view(&self) -> ReactionView {
        match *self {
            Reaction::ReadToken => ReactionView::ReadToken,
            Reaction::ReadUsage => ReactionView::ReadUsage,
            Reaction::Yield(item) => ReactionView::Yield(item@),
            Reaction::Release => ReactionView::Release,
            Reaction::Abort(error) => ReactionView::Abort(error@),
        }
    }
}

/// The server-sent event that carries `payload`.
pub open spec fn sse_frame(payload: Seq<char>) -> Seq<char> {
    "data: "@ + payload + "\n\n"@
}

/// Frames the JSON of a chunk as one server-sent event: `data: `, the JSON
/// and an empty line.
pub fn sse_data(json: &str) -> (event: String)
    ensures
        event@ == sse_frame(json@),
{
    let mut event = String::from_str("data: ");
    event.append(json);
    event.append("\n\n");
    event
}

/// The server-sent event that closes every stream.
pub fn sse_done() -> (event: String)
    ensures
        event@ == "data: [DONE]\n\n"@,
        event@ == sse_frame("[DONE]"@),
{
    proof {
        reveal_strlit("data: [DONE]\n\n");
        reveal_strlit("data: ");
        reveal_strlit("[DONE]");
        reveal_strlit("\n\n");
    }
    String::from_str("data: [DONE]\n\n")
}

/// A stream of chat-completion chunks.
///
/// It either drains items that were computed up front (its cache), or it is
/// incremental: each pull computes one token. An incremental stream holds a
/// streaming session of the backend until it is dropped.
#[derive(Debug)]
pub struct ChatStream {
    id: String,
    model: Option<String>,
    include_usage: bool,
    context_full_state: ContextFullState,
    prompt_too_long_state: PromptTooLongState,
    stream_state: StreamState,
    cache: Option<VecDeque<StreamItem>>,
    utf8_residual: Vec<u8>,
}

/// The mathematical value of a [`ChatStream`].
pub struct StreamView {
    pub id: Seq<char>,
    pub model: Option<Seq<char>>,
    pub include_usage: bool,
    pub context_full_state: ContextFullState,
    pub prompt_too_long_state: PromptTooLongState,
    pub stream_state: StreamState,
    pub cache: Option<Seq<ItemView>>,
    pub utf8_residual: Seq<u8>,
}

impl View for ChatStream {
    type V = StreamView;

    closed spec fn view(&self) -> StreamView {
        StreamView {
            id: self.id@,
            model: match self.model {
                Some(m) => Some(m@),
                None => None,
            },
            include_usage: self.include_usage,
            context_full_state: self.context_full_state,
            prompt_too_long_state: self.prompt_too_long_state,
            stream_state: self.stream_state,
            cache: match self.cache {
                Some(q) => Some(items_view(q@)),
                None => None,
            },
            utf8_residual: self.utf8_residual@,
        }
    }
}

/// The content of the chunk that reports a full context.
pub open spec fn context_full_marker() -> Seq<char> {
    "<|WASMEDGE-GGML-CONTEXT-FULL|>"@
}

impl StreamView {
    /// The stream as [`ChatStream::new`] makes it.
    pub open spec fn new(
        model: Option<Seq<char>>,
        id: Seq<char>,
        include_usage: bool,
        cache: Option<Seq<ItemView>>,
    ) -> StreamView {
        StreamView {
            id,
            model,
            include_usage,
            context_full_state: ContextFullState::Message,
            prompt_too_long_state: PromptTooLongState::Message,
            stream_state: if include_usage {
                StreamState::Usage
            } else {
                StreamState::Done
            },
            cache,
            utf8_residual: seq![],
        }
    }

    /// Whether the stream drains a cache.
    pub open spec fn is_cached(self) -> bool {
        self.cache is Some
    }

    /// Whether one of the three wind-downs has come to its end.
    pub open spec fn finished(self) -> bool {
        ||| self.prompt_too_long_state == PromptTooLongState::EndOfSequence
        ||| self.context_full_state == ContextFullState::EndOfSequence
        ||| self.stream_state == StreamState::EndOfSequence
    }

    /// The chunk that reports the usage of this stream.
    pub open spec fn usage_item(self, usage: Usage, created: u64, graph_name: Seq<char>) -> ItemView {
        ItemView::Chunk(ChunkView::usage(self.id, created, graph_name, usage))
    }

    /// The chunk that reports a terminal condition with the given content.
    pub open spec fn length_item(
        self,
        content: Option<Seq<char>>,
        created: u64,
        graph_name: Seq<char>,
    ) -> ItemView {
        ItemView::Chunk(
            ChunkView::delta(
                self.id,
                created,
                graph_name,
                content,
                seq![],
                Some(FinishReason::Length),
            ),
        )
    }

    /// The chunk that carries generated text.
    pub open spec fn content_item(self, content: Seq<char>, created: u64, graph_name: Seq<char>) -> ItemView {
        ItemView::Chunk(
            ChunkView::delta(self.id, created, graph_name, Some(content), seq![], None),
        )
    }

    /// How a pull begins: the stream after it, and the action.
    pub open spec fn poll(self) -> (StreamView, PullView) {
        match self.cache {
            Some(items) => if items.len() > 0 {
                (
                    StreamView { cache: Some(items.subrange(1, items.len() as int)), ..self },
                    PullView::Yield(items[0]),
                )
            } else {
                (self, PullView::Stop)
            },
            None => if self.finished() {
                (self, PullView::Stop)
            } else {
                (self, PullView::Compute)
            },
        }
    }

    /// The state after the computation of a single token reported `signal`.
    pub open spec fn advance(self, signal: SignalView) -> StreamView {
        match signal {
            SignalView::Token => self,
            SignalView::EndOfSequence => match self.stream_state {
                StreamState::Usage => StreamView { stream_state: StreamState::Done, ..self },
                StreamState::Done => StreamView {
                    stream_state: StreamState::EndOfSequence,
                    ..self
                },
                StreamState::EndOfSequence => self,
            },
            SignalView::ContextFull => match self.context_full_state {
                ContextFullState::Message => StreamView {
                    context_full_state: if self.include_usage {
                        ContextFullState::Usage
                    } else {
                        ContextFullState::Done
                    },
                    ..self
                },
                ContextFullState::Usage => StreamView {
                    context_full_state: ContextFullState::Done,
                    ..self
                },
                ContextFullState::Done => StreamView {
                    context_full_state: ContextFullState::EndOfSequence,
                    ..self
                },
                ContextFullState::EndOfSequence => self,
            },
            SignalView::PromptTooLong => match self.prompt_too_long_state {
                PromptTooLongState::Message => StreamView {
                    prompt_too_long_state: if self.include_usage {
                        PromptTooLongState::Usage
                    } else {
                        PromptTooLongState::Done
                    },
                    ..self
                },
                PromptTooLongState::Usage => StreamView {
                    prompt_too_long_state: PromptTooLongState::Done,
                    ..self
                },
                PromptTooLongState::Done => StreamView {
                    prompt_too_long_state: PromptTooLongState::EndOfSequence,
                    ..self
                },
                PromptTooLongState::EndOfSequence => self,
            },
            SignalView::Failed(_) => self,
        }
    }

    /// What the pull needs after the computation of a single token reported
    /// `signal` in this state.
    pub open spec fn reaction(self, signal: SignalView, created: u64, graph_name: Seq<char>) -> ReactionView {
        match signal {
            SignalView::Token => ReactionView::ReadToken,
            SignalView::EndOfSequence => match self.stream_state {
                StreamState::Usage => ReactionView::ReadUsage,
                StreamState::Done => ReactionView::Yield(ItemView::Done),
                StreamState::EndOfSequence => ReactionView::Release,
            },
            SignalView::ContextFull => match self.context_full_state {
                ContextFullState::Message => ReactionView::Yield(
                    self.length_item(Some(context_full_marker()), created, graph_name),
                ),
                ContextFullState::Usage => ReactionView::ReadUsage,
                ContextFullState::Done => ReactionView::Yield(ItemView::Done),
                ContextFullState::EndOfSequence => ReactionView::Release,
            },
            SignalView::PromptTooLong => match self.prompt_too_long_state {
                PromptTooLongState::Message => ReactionView::Yield(
                    self.length_item(None, created, graph_name),
                ),
                PromptTooLongState::Usage => ReactionView::ReadUsage,
                PromptTooLongState::Done => ReactionView::Yield(ItemView::Done),
                PromptTooLongState::EndOfSequence => ReactionView::Release,
            },
            SignalView::Failed(reason) => ReactionView::Abort(
                ErrorView::ComputeSingle(
                    "Failed to compute the chat completion. Reason: "@ + reason,
                ),
            ),
        }
    }
}

/// The items in a queue, first to last.
fn to_queue(items: Vec<StreamItem>) -> (queue: VecDeque<StreamItem>)
    ensures
        queue@ == items@,
{
    let mut rest = items;
    let mut queue: VecDeque<StreamItem> = VecDeque::new();
    while rest.len() > 0
        invariant
            items@ == rest@ + queue@,
        decreases rest.len(),
    {
        let last = rest.pop().unwrap();
        queue.push_front(last);
    }
    queue
}

impl ChatStream {
    /// A stream for the model `model` (the first model, where it is `None`)
    /// that answers under the identifier `id`.
    ///
    /// With `cache` the stream drains these items and nothing else; without,
    /// it is incremental. Its end-of-sequence wind-down starts at the usage
    /// chunk if `include_usage` holds, and at the closing event if not.
    pub fn new(
        model: Option<String>,
        id: String,
        include_usage: bool,
        cache: Option<Vec<StreamItem>>,
    ) -> (stream: ChatStream)
        ensures
            stream@ == StreamView::new(
                match model {
                    Some(m) => Some(m@),
                    None => None,
                },
                id@,
                include_usage,
                match cache {
                    Some(items) => Some(items_view(items@)),
                    None => None,
                },
            ),
    {
        let stream_state = if include_usage {
            StreamState::Usage
        } else {
            StreamState::Done
        };
        let cache = match cache {
            Some(items) => Some(to_queue(items)),
            None => None,
        };
        ChatStream {
            id,
            model,
            include_usage,
            context_full_state: ContextFullState::Message,
            prompt_too_long_state: PromptTooLongState::Message,
            stream_state,
            cache,
            utf8_residual: Vec::new(),
        }
    }

    /// The identifier under which the stream answers.
    pub fn id(&self) -> (id: &String)
        ensures
            id@ == self@.id,
    {
        &self.id
    }

    /// The model that the stream was made for.
    pub fn model(&self) -> (model: &Option<String>)
        ensures
            match *model {
                Some(m) => self@.model == Some(m@),
                None => self@.model is None,
            },
    {
        &self.model
    }

    /// Whether the stream reports the usage.
    pub fn include_usage(&self) -> (b: bool)
        ensures
            b == self@.include_usage,
    {
        self.include_usage
    }

    /// Whether the stream holds a streaming session of the backend, which
    /// whoever drops the stream has to release.
    pub fn holds_session(&self) -> (b: bool)
        ensures
            b == !self@.is_cached(),
    {
        self.cache.is_none()
    }

    /// Begins a pull.
    ///
    /// A stream with a cache yields the cache's first item, and stops when the
    /// cache is empty. An incremental stream stops once one of its wind-downs
    /// has come to its end, and asks for the computation of a token before.
    pub fn poll(&mut self) -> (action: PullAction)
        ensures
            (final(self)@, action@) == old(self)@.poll(),
    {
        match &mut self.cache {
            Some(queue) => {
                let ghost before = queue@;
                match queue.pop_front() {
                    Some(item) => {
                        assert(items_view(queue@) =~= items_view(before).subrange(
                            1,
                            before.len() as int,
                        ));
                        PullAction::Yield(item)
                    },
                    None => PullAction::Stop,
                }
            },
            None => {
                if self.prompt_too_long_state == PromptTooLongState::EndOfSequence
                    || self.context_full_state == ContextFullState::EndOfSequence
                    || self.stream_state == StreamState::EndOfSequence {
                    PullAction::Stop
                } else {
                    PullAction::Compute
                }
            },
        }
    }

    /// Takes what the computation of a single token reported, moves the state
    /// on, and says what the pull needs next.
    ///
    /// A token leaves the state as it is. Each of the three terminal
    /// conditions moves its own wind-down one step: the chunk that reports the
    /// condition (not after an end of sequence), the usage chunk (only if the
    /// stream reports the usage), the closing event, the end. Any other
    /// failure aborts the pull.
    ///
    /// `created` and `graph_name` go into the chunk that the pull may yield.
    pub fn on_compute_single(
        &mut self,
        signal: &ComputeSignal,
        created: u64,
        graph_name: &str,
    ) -> (reaction: Reaction)
        ensures
            final(self)@ == old(self)@.advance(signal@),
            reaction@ == old(self)@.reaction(signal@, created, graph_name@),
    {
        match signal {
            ComputeSignal::Token => Reaction::ReadToken,
            ComputeSignal::EndOfSequence => match self.stream_state {
                StreamState::Usage => {
                    self.stream_state = StreamState::Done;
                    Reaction::ReadUsage
                },
                StreamState::Done => {
                    self.stream_state = StreamState::EndOfSequence;
                    Reaction::Yield(StreamItem::Done)
                },
                StreamState::EndOfSequence => Reaction::Release,
            },
            ComputeSignal::ContextFull => match self.context_full_state {
                ContextFullState::Message => {
                    self.context_full_state = if self.include_usage {
                        ContextFullState::Usage
                    } else {
                        ContextFullState::Done
                    };
                    let content = String::from_str("<|WASMEDGE-GGML-CONTEXT-FULL|>");
                    Reaction::Yield(self.length_item(Some(content), created, graph_name))
                },
                ContextFullState::Usage => {
                    self.context_full_state = ContextFullState::Done;
                    Reaction::ReadUsage
                },
                ContextFullState::Done => {
                    self.context_full_state = ContextFullState::EndOfSequence;
                    Reaction::Yield(StreamItem::Done)
                },
                ContextFullState::EndOfSequence => Reaction::Release,
            },
            ComputeSignal::PromptTooLong => match self.prompt_too_long_state {
                PromptTooLongState::Message => {
                    self.prompt_too_long_state = if self.include_usage {
                        PromptTooLongState::Usage
                    } else {
                        PromptTooLongState::Done
                    };
                    Reaction::Yield(self.length_item(None, created, graph_name))
                },
                PromptTooLongState::Usage => {
                    self.prompt_too_long_state = PromptTooLongState::Done;
                    Reaction::ReadUsage
                },
                PromptTooLongState::Done => {
                    self.prompt_too_long_state = PromptTooLongState::EndOfSequence;
                    Reaction::Yield(StreamItem::Done)
                },
                PromptTooLongState::EndOfSequence => Reaction::Release,
            },
            ComputeSignal::Failed(reason) => Reaction::Abort(
                LlamaCoreError::compute_single(reason.as_str()),
            ),
        }
    }

    /// The chunk that reports a terminal condition: an assistant delta with
    /// the given content and the finish reason `length`.
    fn length_item(&self, content: Option<String>, created: u64, graph_name: &str) -> (item:
        StreamItem)
        ensures
            item@ == self@.length_item(crate::response::text_view(content), created, graph_name@),
    {
        let tool_calls: Vec<ToolCall> = Vec::new();
        assert(tool_calls_view(tool_calls@) =~= seq![]);
        StreamItem::Chunk(
            ChatCompletionChunk::delta(
                self.id.clone(),
                created,
                String::from_str(graph_name),
                content,
                tool_calls,
                Some(FinishReason::Length),
            ),
        )
    }

    /// The item of a pull that read the token counts: the chunk that reports
    /// the usage, without any choice.
    pub fn usage_item(&self, token_info: &TokenInfo, created: u64, graph_name: &str) -> (item:
        StreamItem)
        requires
            token_info.fits(),
        ensures
            item@ == self@.usage_item(Usage::of(*token_info), created, graph_name@),
            item@ matches ItemView::Chunk(chunk) && chunk.usage matches Some(usage)
                && usage.total_tokens == usage.prompt_tokens + usage.completion_tokens,
    {
        StreamItem::Chunk(
            ChatCompletionChunk::usage(
                self.id.clone(),
                created,
                String::from_str(graph_name),
                Usage::new(token_info),
            ),
        )
    }

    /// The item of a pull that read a token: a chunk with the text that the
    /// token gives.
    ///
    /// The bytes of a token need not be whole code points. A token that does
    /// not decode by itself joins the bytes that wait in the stream; they give
    /// their text, and are cleared, once they decode, and the empty text
    /// before. The pull fails where more than four bytes would wait without
    /// decoding.
    pub fn on_token(&mut self, token: &[u8], created: u64, graph_name: &str) -> (r: Result<
        StreamItem,
        LlamaCoreError,
    >)
        ensures
            final(self)@ == (StreamView {
                utf8_residual: residual_after(old(self)@.utf8_residual, token@),
                ..old(self)@
            }),
            match text_of(old(self)@.utf8_residual, token@) {
                Some(text) => r matches Ok(item) && item@ == old(self)@.content_item(
                    text,
                    created,
                    graph_name@,
                ),
                None => r matches Err(e) && e@ == ErrorView::Operation(
                    "The length of the invalid utf8 bytes exceed 4."@,
                ),
            },
    {
        match reassemble(&mut self.utf8_residual, token) {
            Some(text) => {
                let tool_calls: Vec<ToolCall> = Vec::new();
                assert(tool_calls_view(tool_calls@) =~= seq![]);
                Ok(
                    StreamItem::Chunk(
                        ChatCompletionChunk::delta(
                            self.id.clone(),
                            created,
                            String::from_str(graph_name),
                            Some(text),
                            tool_calls,
                            None,
                        ),
                    ),
                )
            },
            None => Err(
                LlamaCoreError::operation("The length of the invalid utf8 bytes exceed 4."),
            ),
        }
    }
}

/// What the backend gives during one pull of an incremental stream: what the
/// computation of a single token reports, and what reading the token or the
/// token counts would give then (`None` where the read fails).
pub struct PullInput {
    pub signal: SignalView,
    pub token: Option<Seq<u8>>,
    pub token_info: Option<TokenInfo>,
    pub created: u64,
    pub graph_name: Seq<char>,
}

/// What the consumer of a stream gets from one pull.
pub enum Pulled {
    /// An item for the wire.
    Item(ItemView),
    /// The end of the stream.
    End,
    /// An error; nothing goes to the wire.
    Failure,
}

impl PullInput {
    /// Whether the computation reports one of the three terminal conditions.
    pub open spec fn is_terminal(self) -> bool {
        ||| self.signal == SignalView::EndOfSequence
        ||| self.signal == SignalView::ContextFull
        ||| self.signal == SignalView::PromptTooLong
    }
}

impl ItemView {
    /// Whether the item is a chunk that carries a usage.
    pub open spec fn has_usage(self) -> bool {
        self matches ItemView::Chunk(chunk) && chunk.usage is Some
    }
}

/// How many of `items` are chunks that carry a usage.
pub open spec fn usage_count(items: Seq<ItemView>) -> nat
    decreases items.len(),
{
    if items.len() == 0 {
        0
    } else {
        usage_count(items.drop_last()) + if items.last().has_usage() {
            1nat
        } else {
            0nat
        }
    }
}

impl StreamView {
    /// One whole pull: the stream after it and what the consumer gets, for
    /// what the backend gives during the pull.
    pub open spec fn pull(self, input: PullInput) -> (StreamView, Pulled) {
        let (polled, action) = self.poll();
        match action {
            PullView::Yield(item) => (polled, Pulled::Item(item)),
            PullView::Stop => (polled, Pulled::End),
            PullView::Compute => {
                let next = self.advance(input.signal);
                match self.reaction(input.signal, input.created, input.graph_name) {
                    ReactionView::ReadToken => match input.token {
                        Some(token) => (
                            StreamView {
                                utf8_residual: residual_after(self.utf8_residual, token),
                                ..next
                            },
                            match text_of(self.utf8_residual, token) {
                                Some(text) => Pulled::Item(
                                    self.content_item(text, input.created, input.graph_name),
                                ),
                                None => Pulled::Failure,
                            },
                        ),
                        None => (next, Pulled::Failure),
                    },
                    ReactionView::ReadUsage => match input.token_info {
                        Some(token_info) => (
                            next,
                            Pulled::Item(
                                self.usage_item(
                                    Usage::of(token_info),
                                    input.created,
                                    input.graph_name,
                                ),
                            ),
                        ),
                        None => (next, Pulled::Failure),
                    },
                    ReactionView::Yield(item) => (next, Pulled::Item(item)),
                    ReactionView::Release => (next, Pulled::End),
                    ReactionView::Abort(_) => (next, Pulled::Failure),
                }
            },
        }
    }

    /// The stream after one pull for each of `inputs`.
    pub open spec fn after(self, inputs: Seq<PullInput>) -> StreamView
        decreases inputs.len(),
    {
        if inputs.len() == 0 {
            self
        } else {
            self.after(inputs.drop_last()).pull(inputs.last()).0
        }
    }

    /// The items that go to the wire in one pull for each of `inputs`.
    pub open spec fn emitted(self, inputs: Seq<PullInput>) -> Seq<ItemView>
        decreases inputs.len(),
    {
        if inputs.len() == 0 {
            seq![]
        } else {
            let before = self.emitted(inputs.drop_last());
            match self.after(inputs.drop_last()).pull(inputs.last()).1 {
                Pulled::Item(item) => before.push(item),
                _ => before,
            }
        }
    }

    /// How many of the three wind-downs are past their usage chunk.
    pub open spec fn past_usage(self) -> nat {
        (if self.stream_state != StreamState::Usage {
            1nat
        } else {
            0nat
        }) + (if self.context_full_state == ContextFullState::Done || self.context_full_state
            == ContextFullState::EndOfSequence {
            1nat
        } else {
            0nat
        }) + (if self.prompt_too_long_state == PromptTooLongState::Done
            || self.prompt_too_long_state == PromptTooLongState::EndOfSequence {
            1nat
        } else {
            0nat
        })
    }
}

/// An incremental stream ends only after the closing event: however the
/// backend behaves, once such a stream has ended, the last item that went to
/// the wire is `Done`.
pub proof fn lemma_incremental_stream_ends_with_done(
    model: Option<Seq<char>>,
    id: Seq<char>,
    include_usage: bool,
    inputs: Seq<PullInput>,
)
    ensures
        ({
            let stream = StreamView::new(model, id, include_usage, None);
            stream.after(inputs).finished() ==> stream.emitted(inputs).len() > 0
                && stream.emitted(inputs).last() == ItemView::Done
        }),
        StreamView::new(model, id, include_usage, None).after(inputs).cache is None,
    decreases inputs.len(),
{
    if inputs.len() > 0 {
        lemma_incremental_stream_ends_with_done(model, id, include_usage, inputs.drop_last());
    }
}

/// Whether a stream holds a streaming session never changes: an incremental
/// stream holds its session from its making to its end, however it is pulled,
/// so that whoever drops it has exactly one session to release; a stream with
/// a cache never holds one.
pub proof fn lemma_session_is_held_throughout(stream: StreamView, inputs: Seq<PullInput>)
    ensures
        stream.after(inputs).is_cached() == stream.is_cached(),
    decreases inputs.len(),
{
    if inputs.len() > 0 {
        lemma_session_is_held_throughout(stream, inputs.drop_last());
    }
}

impl StreamView {
    /// Whether the pull for `input` asks the caller to release the streaming
    /// session.
    pub open spec fn asks_release(self, input: PullInput) -> bool {
        self.poll().1 == PullView::Compute && match self.reaction(
            input.signal,
            input.created,
            input.graph_name,
        ) {
            ReactionView::Release => true,
            ReactionView::Abort(_) => true,
            _ => false,
        }
    }

    /// How often the pulls for `inputs` ask the caller to release the
    /// streaming session.
    pub open spec fn releases(self, inputs: Seq<PullInput>) -> nat
        decreases inputs.len(),
    {
        if inputs.len() == 0 {
            0
        } else {
            self.releases(inputs.drop_last()) + if self.after(inputs.drop_last()).asks_release(
                inputs.last(),
            ) {
                1nat
            } else {
                0nat
            }
        }
    }

    /// How often the streaming session is released over the life of a stream
    /// that is pulled for `inputs` and dropped then: as often as its pulls ask
    /// for, and once more at the drop if the stream holds a session.
    pub open spec fn releases_in_all(self, inputs: Seq<PullInput>) -> nat {
        self.releases(inputs) + if self.after(inputs).is_cached() {
            0nat
        } else {
            1nat
        }
    }
}

/// The session of an incremental stream is released exactly once, at the
/// drop, however far the stream was pulled, as long as no computation failed
/// for a reason other than the three terminal conditions.
pub proof fn lemma_session_is_released_once(
    model: Option<Seq<char>>,
    id: Seq<char>,
    include_usage: bool,
    inputs: Seq<PullInput>,
)
    requires
        forall|i: int| 0 <= i < inputs.len() ==> !((#[trigger] inputs[i]).signal is Failed),
    ensures
        StreamView::new(model, id, include_usage, None).releases(inputs) == 0,
        StreamView::new(model, id, include_usage, None).releases_in_all(inputs) == 1,
    decreases inputs.len(),
{
    let stream = StreamView::new(model, id, include_usage, None);
    lemma_session_is_held_throughout(stream, inputs);
    if inputs.len() > 0 {
        let before = inputs.drop_last();
        assert forall|i: int| 0 <= i < before.len() implies !((#[trigger] before[i]).signal
            is Failed) by {
            assert(before[i] == inputs[i]);
        }
        lemma_session_is_released_once(model, id, include_usage, before);
        lemma_session_is_held_throughout(stream, before);
        assert(inputs.last() == inputs[inputs.len() - 1]);
    }
}

/// A stream with a cache holds no session: none is released for it.
pub proof fn lemma_cached_stream_releases_nothing(
    model: Option<Seq<char>>,
    id: Seq<char>,
    include_usage: bool,
    cache: Seq<ItemView>,
    inputs: Seq<PullInput>,
)
    ensures
        StreamView::new(model, id, include_usage, Some(cache)).releases_in_all(inputs) == 0,
    decreases inputs.len(),
{
    let stream = StreamView::new(model, id, include_usage, Some(cache));
    lemma_session_is_held_throughout(stream, inputs);
    if inputs.len() > 0 {
        lemma_cached_stream_releases_nothing(model, id, include_usage, cache, inputs.drop_last());
        lemma_session_is_held_throughout(stream, inputs.drop_last());
    }
}

/// A stream with a cache yields the cache, item by item, and nothing else: a
/// cache that closes with `Done` makes a stream that closes with `Done`.
pub proof fn lemma_cached_stream_yields_cache(
    model: Option<Seq<char>>,
    id: Seq<char>,
    include_usage: bool,
    cache: Seq<ItemView>,
    inputs: Seq<PullInput>,
)
    ensures
        ({
            let stream = StreamView::new(model, id, include_usage, Some(cache));
            let n = if inputs.len() <= cache.len() {
                inputs.len() as int
            } else {
                cache.len() as int
            };
            &&& stream.emitted(inputs) == cache.take(n)
            &&& stream.after(inputs).cache == Some(cache.skip(n))
        }),
    decreases inputs.len(),
{
    if inputs.len() > 0 {
        lemma_cached_stream_yields_cache(model, id, include_usage, cache, inputs.drop_last());
    }
}

/// A stream that reports the usage yields as many usage chunks as wind-downs
/// are past their usage chunk, however the terminal conditions mix, as long
/// as the token counts can be read when they are asked for.
pub proof fn lemma_usage_chunks_counted(
    model: Option<Seq<char>>,
    id: Seq<char>,
    inputs: Seq<PullInput>,
)
    requires
        forall|i: int|
            0 <= i < inputs.len() && (#[trigger] inputs[i]).is_terminal()
                ==> inputs[i].token_info is Some,
    ensures
        ({
            let stream = StreamView::new(model, id, true, None);
            &&& usage_count(stream.emitted(inputs)) == stream.after(inputs).past_usage()
            &&& stream.after(inputs).include_usage
            &&& stream.after(inputs).cache is None
        }),
    decreases inputs.len(),
{
    let stream = StreamView::new(model, id, true, None);
    if inputs.len() > 0 {
        let before = inputs.drop_last();
        lemma_usage_chunks_counted(model, id, before);
        let items = stream.emitted(before);
        match stream.after(before).pull(inputs.last()).1 {
            Pulled::Item(item) => {
                assert(items.push(item).drop_last() =~= items);
            },
            _ => {},
        }
    }
}

/// A stream that does not report the usage yields no usage chunk.
pub proof fn lemma_no_usage_chunk_unless_asked(
    model: Option<Seq<char>>,
    id: Seq<char>,
    inputs: Seq<PullInput>,
)
    ensures
        ({
            let stream = StreamView::new(model, id, false, None);
            &&& usage_count(stream.emitted(inputs)) == 0
            &&& !stream.after(inputs).include_usage
            &&& stream.after(inputs).cache is None
            &&& stream.after(inputs).stream_state != StreamState::Usage
            &&& stream.after(inputs).context_full_state != ContextFullState::Usage
            &&& stream.after(inputs).prompt_too_long_state != PromptTooLongState::Usage
        }),
    decreases inputs.len(),
{
    let stream = StreamView::new(model, id, false, None);
    if inputs.len() > 0 {
        let before = inputs.drop_last();
        lemma_no_usage_chunk_unless_asked(model, id, before);
        let items = stream.emitted(before);
        match stream.after(before).pull(inputs.last()).1 {
            Pulled::Item(item) => {
                assert(items.push(item).drop_last() =~= items);
            },
            _ => {},
        }
    }
}

/// Whether every terminal condition among `inputs` is `signal`.
pub open spec fn only_terminal(inputs: Seq<PullInput>, signal: SignalView) -> bool {
    forall|i: int|
        0 <= i < inputs.len() && (#[trigger] inputs[i]).is_terminal() ==> inputs[i].signal
            == signal
}

/// The states of the wind-downs that a stream has not entered.
proof fn lemma_other_wind_downs_rest(
    model: Option<Seq<char>>,
    id: Seq<char>,
    inputs: Seq<PullInput>,
    signal: SignalView,
)
    requires
        only_terminal(inputs, signal),
    ensures
        ({
            let end = StreamView::new(model, id, true, None).after(inputs);
            &&& signal != SignalView::EndOfSequence ==> end.stream_state == StreamState::Usage
            &&& signal != SignalView::ContextFull ==> end.context_full_state
                == ContextFullState::Message
            &&& signal != SignalView::PromptTooLong ==> end.prompt_too_long_state
                == PromptTooLongState::Message
            &&& end.cache is None
        }),
    decreases inputs.len(),
{
    if inputs.len() > 0 {
        let before = inputs.drop_last();
        lemma_other_wind_downs_rest(model, id, before, signal);
    }
}

/// A stream that reports the usage yields it once, before the closing event:
/// where the backend reports one and the same terminal condition and the token
/// counts can be read, a stream that has ended yielded exactly one chunk with
/// a usage, and the closing event last.
pub proof fn lemma_exactly_one_usage_chunk(
    model: Option<Seq<char>>,
    id: Seq<char>,
    inputs: Seq<PullInput>,
    signal: SignalView,
)
    requires
        only_terminal(inputs, signal),
        forall|i: int|
            0 <= i < inputs.len() && (#[trigger] inputs[i]).is_terminal()
                ==> inputs[i].token_info is Some,
        StreamView::new(model, id, true, None).after(inputs).finished(),
    ensures
        ({
            let items = StreamView::new(model, id, true, None).emitted(inputs);
            &&& usage_count(items) == 1
            &&& items.len() > 0
            &&& items.last() == ItemView::Done
            &&& usage_count(items.drop_last()) == 1
        }),
{
    lemma_usage_chunks_counted(model, id, inputs);
    lemma_other_wind_downs_rest(model, id, inputs, signal);
    lemma_incremental_stream_ends_with_done(model, id, true, inputs);
}

/// Every chunk of an incremental stream has the fixed `object` and the fixed
/// `system_fingerprint` of chunks on the wire.
pub proof fn lemma_chunks_are_chunks(
    model: Option<Seq<char>>,
    id: Seq<char>,
    include_usage: bool,
    inputs: Seq<PullInput>,
    i: int,
)
    requires
        0 <= i < StreamView::new(model, id, include_usage, None).emitted(inputs).len(),
    ensures
        StreamView::new(model, id, include_usage, None).emitted(inputs)[i] matches ItemView::Chunk(
            chunk,
        ) ==> chunk.object == "chat.completion.chunk"@ && chunk.system_fingerprint
            == "fp_44709d6fcb"@,
        StreamView::new(model, id, include_usage, None).after(inputs).cache is None,
    decreases inputs.len(),
{
    let stream = StreamView::new(model, id, include_usage, None);
    if inputs.len() > 0 {
        let before = inputs.drop_last();
        lemma_session_is_held_throughout(stream, before);
        if i < stream.emitted(before).len() {
            lemma_chunks_are_chunks(model, id, include_usage, before, i);
        }
    }
}

/// The text that an item carries: the content of its first choice.
pub open spec fn item_content(item: ItemView) -> Seq<char> {
    match item {
        ItemView::Chunk(chunk) => if chunk.choices.len() > 0 {
            match chunk.choices[0].content {
                Some(text) => text,
                None => seq![],
            }
        } else {
            seq![]
        },
        ItemView::Done => seq![],
    }
}

/// The texts that the given items carry, joined.
pub open spec fn content_of(items: Seq<ItemView>) -> Seq<char>
    decreases items.len(),
{
    if items.len() == 0 {
        seq![]
    } else {
        content_of(items.drop_last()) + item_content(items.last())
    }
}

impl PullInput {
    /// Whether a token was computed, and could be read.
    pub open spec fn is_token(self) -> bool {
        self.signal == SignalView::Token && self.token is Some
    }
}

/// The tokens that were read during the given pulls.
pub open spec fn tokens_of(inputs: Seq<PullInput>) -> Seq<Seq<u8>> {
    inputs.map_values(|input: PullInput| input.token->0)
}

/// What a stream makes of tokens: as long as every pull reads a token and
/// none fails, the stream yields one chunk for each token, and the texts of
/// the chunks are, joined, the texts that the tokens give in turn.
pub proof fn lemma_stream_yields_the_texts_of_its_tokens(
    model: Option<Seq<char>>,
    id: Seq<char>,
    include_usage: bool,
    inputs: Seq<PullInput>,
)
    requires
        forall|i: int| 0 <= i < inputs.len() ==> (#[trigger] inputs[i]).is_token(),
        texts_of(tokens_of(inputs)) is Some,
    ensures
        ({
            let stream = StreamView::new(model, id, include_usage, None);
            &&& stream.emitted(inputs).len() == inputs.len()
            &&& content_of(stream.emitted(inputs)) == texts_of(tokens_of(inputs))->0
            &&& stream.after(inputs) == (StreamView {
                utf8_residual: residual_of(tokens_of(inputs)),
                ..stream
            })
        }),
    decreases inputs.len(),
{
    let stream = StreamView::new(model, id, include_usage, None);
    if inputs.len() > 0 {
        let before = inputs.drop_last();
        assert(tokens_of(inputs).drop_last() =~= tokens_of(before));
        lemma_stream_yields_the_texts_of_its_tokens(model, id, include_usage, before);
        let items = stream.emitted(before);
        match stream.after(before).pull(inputs.last()).1 {
            Pulled::Item(item) => {
                assert(items.push(item).drop_last() =~= items);
            },
            _ => {},
        }
    }
}

/// Reassembly loses nothing in a stream: where the bytes of all tokens
/// together are valid UTF-8 and no pull fails, the texts of the chunks are,
/// joined, the decoding of all the bytes.
pub proof fn lemma_stream_decodes_its_tokens(
    model: Option<Seq<char>>,
    id: Seq<char>,
    include_usage: bool,
    inputs: Seq<PullInput>,
)
    requires
        forall|i: int| 0 <= i < inputs.len() ==> (#[trigger] inputs[i]).is_token(),
        texts_of(tokens_of(inputs)) is Some,
        valid_utf8(tokens_of(inputs).flatten()),
    ensures
        content_of(StreamView::new(model, id, include_usage, None).emitted(inputs)) == decode_utf8(
            tokens_of(inputs).flatten(),
        ),
        StreamView::new(model, id, include_usage, None).after(inputs).utf8_residual == Seq::<
            u8,
        >::empty(),
{
    lemma_stream_yields_the_texts_of_its_tokens(model, id, include_usage, inputs);
    lemma_reassembly(tokens_of(inputs));
}

} // verus!
