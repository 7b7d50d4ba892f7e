use llama_core::error::{BackendError, LlamaCoreError};
use llama_core::response::{
    ChatCompletionChunk, ChatCompletionRole, FinishReason, TokenInfo, Usage,
};
use llama_core::utf8::reassemble;
use llama_core::stream::{
    sse_data, sse_done, ChatStream, ComputeSignal, PullAction, Reaction, StreamItem,
};

const CREATED: u64 = 1_700_000_000;
const MODEL: &str = "llama-2-7b";

/// What a mock backend gives during one pull.
struct Step {
    signal: ComputeSignal,
    token: Vec<u8>,
    token_info: TokenInfo,
}

fn token(bytes: &[u8]) -> Step {
    Step {
        signal: ComputeSignal::Token,
        token: bytes.to_vec(),
        token_info: TokenInfo { prompt_tokens: 3, completion_tokens: 2 },
    }
}

fn signal(signal: ComputeSignal) -> Step {
    Step { signal, token: Vec::new(), token_info: TokenInfo { prompt_tokens: 3, completion_tokens: 2 } }
}

/// One pull of the stream against the mock backend, as a driver makes it.
fn pull(stream: &mut ChatStream, step: &Step) -> Option<Result<StreamItem, LlamaCoreError>> {
    match stream.poll() {
        PullAction::Yield(item) => Some(Ok(item)),
        PullAction::Stop => None,
        PullAction::Compute => match stream.on_compute_single(&step.signal, CREATED, MODEL) {
            Reaction::ReadToken => Some(stream.on_token(&step.token, CREATED, MODEL)),
            Reaction::ReadUsage => Some(Ok(stream.usage_item(&step.token_info, CREATED, MODEL))),
            Reaction::Yield(item) => Some(Ok(item)),
            Reaction::Release => None,
            Reaction::Abort(error) => Some(Err(error)),
        },
    }
}

/// Pulls until the stream ends; the backend repeats its last step.
fn drain(stream: &mut ChatStream, steps: &[Step]) -> Vec<StreamItem> {
    let mut items = Vec::new();
    let mut i = 0;
    loop {
        let step = &steps[i.min(steps.len() - 1)];
        match pull(stream, step) {
            Some(Ok(item)) => items.push(item),
            Some(Err(error)) => panic!("unexpected error: {:?}", error),
            None => return items,
        }
        i += 1;
        assert!(i < 100, "the stream does not end");
    }
}

fn content_chunk(id: &str, content: Option<&str>, finish_reason: Option<FinishReason>) -> StreamItem {
    StreamItem::Chunk(ChatCompletionChunk::delta(
        id.to_string(),
        CREATED,
        MODEL.to_string(),
        content.map(|c| c.to_string()),
        vec![],
        finish_reason,
    ))
}

fn usage_chunk(id: &str, prompt: u64, completion: u64) -> StreamItem {
    StreamItem::Chunk(ChatCompletionChunk::usage(
        id.to_string(),
        CREATED,
        MODEL.to_string(),
        Usage { prompt_tokens: prompt, completion_tokens: completion, total_tokens: prompt + completion },
    ))
}

fn usage_chunks(items: &[StreamItem]) -> usize {
    items
        .iter()
        .filter(|item| matches!(item, StreamItem::Chunk(chunk) if chunk.usage.is_some()))
        .count()
}

#[test]
fn usage_total_is_the_sum_of_its_parts() {
    let usage = Usage::new(&TokenInfo { prompt_tokens: 3, completion_tokens: 2 });
    assert_eq!(usage, Usage { prompt_tokens: 3, completion_tokens: 2, total_tokens: 5 });
    let large = Usage::new(&TokenInfo { prompt_tokens: u64::MAX - 1, completion_tokens: 1 });
    assert_eq!(large.total_tokens, u64::MAX);
}

#[test]
fn token_counts_that_overflow_have_no_total() {
    let fits = TokenInfo { prompt_tokens: 200, completion_tokens: 40 };
    assert_eq!(fits.checked_total(), Some(240));
    let overflows = TokenInfo { prompt_tokens: u64::MAX, completion_tokens: 1 };
    assert_eq!(overflows.checked_total(), None);
}

#[test]
fn streaming_normal_end() {
    let mut stream = ChatStream::new(Some(MODEL.to_string()), "user-1".to_string(), true, None);
    let steps = [token(b"Hel"), token(b"lo"), signal(ComputeSignal::EndOfSequence)];
    let items = drain(&mut stream, &steps);
    assert_eq!(
        items,
        vec![
            content_chunk("user-1", Some("Hel"), None),
            content_chunk("user-1", Some("lo"), None),
            usage_chunk("user-1", 3, 2),
            StreamItem::Done,
        ]
    );
    match &items[2] {
        StreamItem::Chunk(chunk) => {
            assert!(chunk.choices.is_empty());
            assert_eq!(
                chunk.usage,
                Some(Usage { prompt_tokens: 3, completion_tokens: 2, total_tokens: 5 })
            );
        }
        StreamItem::Done => panic!("the third item is the usage chunk"),
    }
}

#[test]
fn context_full_during_streaming() {
    let mut stream = ChatStream::new(Some(MODEL.to_string()), "user-2".to_string(), true, None);
    let steps = [token(b"one"), token(b" two"), signal(ComputeSignal::ContextFull)];
    let items = drain(&mut stream, &steps);
    assert_eq!(
        items,
        vec![
            content_chunk("user-2", Some("one"), None),
            content_chunk("user-2", Some(" two"), None),
            content_chunk(
                "user-2",
                Some("<|WASMEDGE-GGML-CONTEXT-FULL|>"),
                Some(FinishReason::Length)
            ),
            usage_chunk("user-2", 3, 2),
            StreamItem::Done,
        ]
    );
}

#[test]
fn prompt_too_long_at_start() {
    let mut stream = ChatStream::new(None, "user-3".to_string(), true, None);
    let steps = [signal(ComputeSignal::PromptTooLong)];
    let items = drain(&mut stream, &steps);
    assert_eq!(
        items,
        vec![
            content_chunk("user-3", None, Some(FinishReason::Length)),
            usage_chunk("user-3", 3, 2),
            StreamItem::Done,
        ]
    );
}

#[test]
fn stream_without_usage_skips_the_usage_chunk() {
    for terminal in [
        ComputeSignal::EndOfSequence,
        ComputeSignal::ContextFull,
        ComputeSignal::PromptTooLong,
    ] {
        let mut stream = ChatStream::new(None, "id".to_string(), false, None);
        assert!(!stream.include_usage());
        let items = drain(&mut stream, &[token(b"a"), signal(terminal.clone())]);
        assert_eq!(usage_chunks(&items), 0, "{:?}", terminal);
        assert_eq!(items.last(), Some(&StreamItem::Done));
        let expected = if terminal == ComputeSignal::EndOfSequence { 2 } else { 3 };
        assert_eq!(items.len(), expected, "{:?}", terminal);
    }
}

#[test]
fn last_item_of_every_stream_is_done() {
    for include_usage in [true, false] {
        for terminal in [
            ComputeSignal::EndOfSequence,
            ComputeSignal::ContextFull,
            ComputeSignal::PromptTooLong,
        ] {
            let mut stream = ChatStream::new(None, "id".to_string(), include_usage, None);
            let items = drain(&mut stream, &[token(b"x"), token(b"y"), signal(terminal)]);
            assert_eq!(items.last(), Some(&StreamItem::Done));
            assert_eq!(items.iter().filter(|i| **i == StreamItem::Done).count(), 1);
            assert_eq!(stream.poll(), PullAction::Stop);
        }
    }
}

#[test]
fn exactly_one_usage_chunk_before_done() {
    for terminal in [
        ComputeSignal::EndOfSequence,
        ComputeSignal::ContextFull,
        ComputeSignal::PromptTooLong,
    ] {
        let mut stream = ChatStream::new(None, "id".to_string(), true, None);
        let items = drain(&mut stream, &[token(b"x"), signal(terminal)]);
        assert_eq!(usage_chunks(&items), 1);
        let usage_at = items
            .iter()
            .position(|i| matches!(i, StreamItem::Chunk(c) if c.usage.is_some()))
            .unwrap();
        let done_at = items.iter().position(|i| *i == StreamItem::Done).unwrap();
        assert!(usage_at < done_at);
        assert_eq!(done_at, items.len() - 1);
    }
}

#[test]
fn mixed_terminal_conditions_report_the_usage_once_each() {
    let mut stream = ChatStream::new(None, "id".to_string(), true, None);
    let steps = [
        signal(ComputeSignal::EndOfSequence),
        signal(ComputeSignal::ContextFull),
        signal(ComputeSignal::ContextFull),
        signal(ComputeSignal::ContextFull),
    ];
    let items = drain(&mut stream, &steps);
    assert_eq!(usage_chunks(&items), 2);
    assert_eq!(items.last(), Some(&StreamItem::Done));
}

#[test]
fn every_chunk_has_the_fixed_object_and_fingerprint() {
    let mut stream = ChatStream::new(None, "id".to_string(), true, None);
    let items = drain(&mut stream, &[token(b"x"), signal(ComputeSignal::ContextFull)]);
    let mut chunks = 0;
    for item in &items {
        if let StreamItem::Chunk(chunk) = item {
            chunks += 1;
            assert_eq!(chunk.object(), "chat.completion.chunk");
            assert_eq!(chunk.system_fingerprint(), "fp_44709d6fcb");
            assert_eq!(chunk.id, "id");
            assert_eq!(chunk.model, MODEL);
            assert_eq!(chunk.created, CREATED);
            for choice in &chunk.choices {
                assert_eq!(choice.index, 0);
                assert_eq!(choice.delta.role, ChatCompletionRole::Assistant);
                assert!(choice.delta.tool_calls.is_empty());
            }
        }
    }
    assert_eq!(chunks, 3);
}

#[test]
fn code_points_that_straddle_tokens_are_reassembled() {
    let text = "h\u{e9}llo \u{4f60}\u{597d} \u{1f600}!";
    let bytes = text.as_bytes();
    // Cut inside the two-byte, the three-byte and the four-byte code point.
    let cuts = [0, 2, 3, 7, 8, 9, 11, 13, 15, 17, bytes.len()];
    let mut steps: Vec<Step> = Vec::new();
    for pair in cuts.windows(2) {
        steps.push(token(&bytes[pair[0]..pair[1]]));
    }
    steps.push(signal(ComputeSignal::EndOfSequence));
    let mut stream = ChatStream::new(None, "id".to_string(), false, None);
    let items = drain(&mut stream, &steps);
    let mut content = String::new();
    let mut empty = 0;
    for item in &items {
        if let StreamItem::Chunk(chunk) = item {
            let piece = chunk.choices[0].delta.content.clone().unwrap();
            if piece.is_empty() {
                empty += 1;
            }
            content.push_str(&piece);
        }
    }
    assert_eq!(content, text);
    assert!(empty > 0, "a token that completes no code point gives an empty text");
}

#[test]
fn single_bytes_of_a_code_point_are_reassembled() {
    let mut stream = ChatStream::new(None, "id".to_string(), false, None);
    let emoji = "\u{1f600}".as_bytes().to_vec();
    let mut texts = Vec::new();
    for byte in &emoji {
        match pull(&mut stream, &token(&[*byte])) {
            Some(Ok(StreamItem::Chunk(chunk))) => {
                texts.push(chunk.choices[0].delta.content.clone().unwrap())
            }
            other => panic!("unexpected {:?}", other),
        }
    }
    assert_eq!(texts, vec!["", "", "", "\u{1f600}"]);
}

#[test]
fn more_than_four_waiting_bytes_fail() {
    let mut stream = ChatStream::new(None, "id".to_string(), false, None);
    // Four bytes that decode to nothing may wait.
    let first = pull(&mut stream, &token(&[0x80, 0x80, 0x80, 0x80]));
    assert_eq!(first, Some(Ok(content_chunk("id", Some(""), None))));
    // The fifth is one too many.
    let second = pull(&mut stream, &token(&[0x80]));
    assert_eq!(
        second,
        Some(Err(LlamaCoreError::Operation(
            "The length of the invalid utf8 bytes exceed 4.".to_string()
        )))
    );
    // A token that decodes by itself is not held up by what waits.
    let third = pull(&mut stream, &token(b"ok"));
    assert_eq!(third, Some(Ok(content_chunk("id", Some("ok"), None))));
}

#[test]
fn a_token_with_a_valid_start_and_a_partial_end_waits_as_a_whole() {
    let mut stream = ChatStream::new(None, "id".to_string(), false, None);
    let first = pull(&mut stream, &token(&[b'a', b'b', 0xe4]));
    assert_eq!(first, Some(Ok(content_chunk("id", Some(""), None))));
    let second = pull(&mut stream, &token(&[0xbd, 0xa0]));
    assert_eq!(second, Some(Ok(content_chunk("id", Some("ab\u{4f60}"), None))));
}

#[test]
fn any_other_failure_aborts_the_pull() {
    let mut stream = ChatStream::new(None, "id".to_string(), true, None);
    assert_eq!(stream.poll(), PullAction::Compute);
    let reaction =
        stream.on_compute_single(&ComputeSignal::Failed("Runtime Error".to_string()), CREATED, MODEL);
    assert_eq!(
        reaction,
        Reaction::Abort(LlamaCoreError::Backend(BackendError::ComputeSingle(
            "Failed to compute the chat completion. Reason: Runtime Error".to_string()
        )))
    );
    // The state is as it was: the stream goes on.
    assert_eq!(stream.poll(), PullAction::Compute);
}

#[test]
fn reactions_follow_the_wind_down() {
    let mut stream = ChatStream::new(None, "id".to_string(), true, None);
    assert_eq!(
        stream.on_compute_single(&ComputeSignal::Token, CREATED, MODEL),
        Reaction::ReadToken
    );
    assert_eq!(
        stream.on_compute_single(&ComputeSignal::EndOfSequence, CREATED, MODEL),
        Reaction::ReadUsage
    );
    assert_eq!(
        stream.on_compute_single(&ComputeSignal::EndOfSequence, CREATED, MODEL),
        Reaction::Yield(StreamItem::Done)
    );
    assert_eq!(
        stream.on_compute_single(&ComputeSignal::EndOfSequence, CREATED, MODEL),
        Reaction::Release
    );
    assert_eq!(stream.poll(), PullAction::Stop);
}

#[test]
fn a_stream_with_a_cache_drains_it() {
    let cache = vec![
        content_chunk("id", Some("answer"), None),
        usage_chunk("id", 7, 1),
        StreamItem::Done,
    ];
    let mut stream =
        ChatStream::new(Some(MODEL.to_string()), "id".to_string(), true, Some(cache.clone()));
    assert_eq!(stream.poll(), PullAction::Yield(cache[0].clone()));
    assert_eq!(stream.poll(), PullAction::Yield(cache[1].clone()));
    assert_eq!(stream.poll(), PullAction::Yield(cache[2].clone()));
    assert_eq!(stream.poll(), PullAction::Stop);
    assert_eq!(stream.poll(), PullAction::Stop);
}

#[test]
fn only_an_incremental_stream_holds_a_session() {
    let incremental = ChatStream::new(Some(MODEL.to_string()), "id".to_string(), true, None);
    assert!(incremental.holds_session());
    assert_eq!(incremental.id(), "id");
    assert_eq!(incremental.model(), &Some(MODEL.to_string()));
    let cached = ChatStream::new(None, "id".to_string(), true, Some(vec![StreamItem::Done]));
    assert!(!cached.holds_session());
    // Draining changes neither.
    let mut drained = ChatStream::new(None, "id".to_string(), true, None);
    drain(&mut drained, &[signal(ComputeSignal::EndOfSequence)]);
    assert!(drained.holds_session());
}

#[test]
fn events_are_framed_as_server_sent_events() {
    assert_eq!(sse_data("{\"id\":\"x\"}"), "data: {\"id\":\"x\"}\n\n");
    assert_eq!(sse_data(""), "data: \n\n");
    assert_eq!(sse_done(), "data: [DONE]\n\n");
}

#[test]
fn waiting_bytes_are_cleared_once_they_decode() {
    let mut residual: Vec<u8> = Vec::new();
    assert_eq!(reassemble(&mut residual, b"plain"), Some("plain".to_string()));
    assert!(residual.is_empty());
    assert_eq!(reassemble(&mut residual, &[0xc3]), Some(String::new()));
    assert_eq!(residual, vec![0xc3]);
    // An empty token decodes by itself and leaves the waiting bytes alone.
    assert_eq!(reassemble(&mut residual, &[]), Some(String::new()));
    assert_eq!(residual, vec![0xc3]);
    assert_eq!(reassemble(&mut residual, &[0xa9]), Some("\u{e9}".to_string()));
    assert!(residual.is_empty());
    // Five bytes that do not decode are too many, and stay.
    assert_eq!(reassemble(&mut residual, &[0xff, 0xff, 0xff, 0xff, 0xff]), None);
    assert_eq!(residual.len(), 5);
}
