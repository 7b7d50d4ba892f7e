use llama_core::chat::{
    chat_stream_by_graph, check_running_mode, completion_id, compute_by_graph, decode_generation,
    ComputeOutcome, RunningMode,
};
use llama_core::error::{BackendError, LlamaCoreError};
use llama_core::json::get_token_info_by_graph;
use llama_core::response::{ChatCompletionRole, FinishReason, TokenInfo, Usage};
use llama_core::stream::{PullAction, StreamItem};
use llama_core::template::PromptTemplateType;

const CREATED: u64 = 1_700_000_000;

fn counts(prompt_tokens: u64, completion_tokens: u64) -> TokenInfo {
    TokenInfo { prompt_tokens, completion_tokens }
}

#[test]
fn plain_one_shot() {
    let message = decode_generation(b"Hello!</s>", &PromptTemplateType::Llama2Chat).unwrap();
    assert_eq!(message, "Hello!");
    let token_info =
        get_token_info_by_graph(b"{\"input_tokens\": 3, \"output_tokens\": 2}").unwrap();
    let object = compute_by_graph(
        &ComputeOutcome::Done,
        "llama-2-7b",
        PromptTemplateType::Llama2Chat,
        "chatcmpl-1".to_string(),
        false,
        message,
        &token_info,
        CREATED,
    )
    .unwrap();
    assert_eq!(object.object(), "chat.completion");
    assert_eq!(object.id, "chatcmpl-1");
    assert_eq!(object.model, "llama-2-7b");
    assert_eq!(object.created, CREATED);
    assert_eq!(object.choices.len(), 1);
    assert_eq!(object.choices[0].index, 0);
    assert_eq!(object.choices[0].message.role, ChatCompletionRole::Assistant);
    assert_eq!(object.choices[0].message.content, Some("Hello!".to_string()));
    assert!(object.choices[0].message.tool_calls.is_empty());
    assert_eq!(object.choices[0].finish_reason, FinishReason::Stop);
    assert_eq!(
        object.usage,
        Usage { prompt_tokens: 3, completion_tokens: 2, total_tokens: 5 }
    );
}

#[test]
fn tool_call_parse_chatml() {
    let raw = "<tool_call>{\"name\":\"get_weather\",\"arguments\":{\"city\":\"Paris\"}}</tool_call>";
    let message = decode_generation(raw.as_bytes(), &PromptTemplateType::ChatMLTool).unwrap();
    assert_eq!(message, raw);
    let object = compute_by_graph(
        &ComputeOutcome::Done,
        "hermes",
        PromptTemplateType::ChatMLTool,
        "id".to_string(),
        true,
        message,
        &counts(20, 15),
        CREATED,
    )
    .unwrap();
    let choice = &object.choices[0];
    assert_eq!(choice.finish_reason, FinishReason::ToolCalls);
    assert_eq!(choice.message.content, Some(raw.to_string()));
    assert_eq!(choice.message.tool_calls.len(), 1);
    let call = &choice.message.tool_calls[0];
    assert_eq!(call.function.name, "get_weather");
    assert_eq!(call.function.arguments, "{\"city\":\"Paris\"}");
    assert_eq!(call.ty, "function");
    assert!(call.id.starts_with("call_"));
    assert_eq!(object.usage.total_tokens, 35);
}

#[test]
fn generation_without_tool_calls_stops() {
    let object = compute_by_graph(
        &ComputeOutcome::Done,
        "hermes",
        PromptTemplateType::ChatMLTool,
        "id".to_string(),
        true,
        "It is sunny.".to_string(),
        &counts(20, 4),
        CREATED,
    )
    .unwrap();
    assert_eq!(object.choices[0].finish_reason, FinishReason::Stop);
    assert!(object.choices[0].message.tool_calls.is_empty());
    assert_eq!(object.choices[0].message.content, Some("It is sunny.".to_string()));
}

#[test]
fn tool_calls_are_not_looked_for_without_tool_use() {
    let raw = "<tool_call>{\"name\":\"f\",\"arguments\":{}}</tool_call>";
    let object = compute_by_graph(
        &ComputeOutcome::Done,
        "hermes",
        PromptTemplateType::ChatMLTool,
        "id".to_string(),
        false,
        raw.to_string(),
        &counts(1, 1),
        CREATED,
    )
    .unwrap();
    assert_eq!(object.choices[0].finish_reason, FinishReason::Stop);
    assert!(object.choices[0].message.tool_calls.is_empty());
}

#[test]
fn cut_short_generations_finish_with_length() {
    for outcome in [ComputeOutcome::ContextFull, ComputeOutcome::PromptTooLong] {
        let raw = "<tool_call>{\"name\":\"f\",\"arguments\":{}}</tool_call>";
        let object = compute_by_graph(
            &outcome,
            "hermes",
            PromptTemplateType::ChatMLTool,
            "id".to_string(),
            true,
            raw.to_string(),
            &counts(90, 10),
            CREATED,
        )
        .unwrap();
        assert_eq!(object.choices[0].finish_reason, FinishReason::Length);
        assert!(object.choices[0].message.tool_calls.is_empty());
        assert_eq!(
            object.usage,
            Usage { prompt_tokens: 90, completion_tokens: 10, total_tokens: 100 }
        );
    }
}

#[test]
fn failed_computation_is_a_backend_error() {
    let result = compute_by_graph(
        &ComputeOutcome::Failed("WASI-NN Backend Error: Runtime Error".to_string()),
        "m",
        PromptTemplateType::Llama2Chat,
        "id".to_string(),
        false,
        String::new(),
        &counts(0, 0),
        CREATED,
    );
    assert_eq!(
        result,
        Err(LlamaCoreError::Backend(BackendError::Compute(
            "Failed to compute the chat completion. Reason: WASI-NN Backend Error: Runtime Error"
                .to_string()
        )))
    );
    let stream = chat_stream_by_graph(
        &ComputeOutcome::Failed("boom".to_string()),
        "m",
        PromptTemplateType::ChatMLTool,
        "id".to_string(),
        true,
        String::new(),
        &counts(0, 0),
        CREATED,
    );
    match stream {
        Err(error) => assert_eq!(
            error,
            LlamaCoreError::Backend(BackendError::Compute(
                "Failed to compute the chat completion. Reason: boom".to_string()
            ))
        ),
        Ok(_) => panic!("a failed computation makes no stream"),
    }
}

#[test]
fn tools_need_a_template_that_knows_them() {
    let expected = LlamaCoreError::Operation(
        "The tool use is only supported for 'mistral-chat' and 'chatml' prompt templates."
            .to_string(),
    );
    let result = compute_by_graph(
        &ComputeOutcome::Done,
        "m",
        PromptTemplateType::Llama2Chat,
        "id".to_string(),
        true,
        "hi".to_string(),
        &counts(1, 1),
        CREATED,
    );
    assert_eq!(result, Err(expected.clone()));
    let stream = chat_stream_by_graph(
        &ComputeOutcome::Done,
        "m",
        PromptTemplateType::Llama3Chat,
        "id".to_string(),
        true,
        "hi".to_string(),
        &counts(1, 1),
        CREATED,
    );
    match stream {
        Err(error) => assert_eq!(error, expected),
        Ok(_) => panic!("the template knows no tools"),
    }
    // Without tools in use, any template will do.
    let plain = compute_by_graph(
        &ComputeOutcome::Done,
        "m",
        PromptTemplateType::Llama2Chat,
        "id".to_string(),
        false,
        "hi".to_string(),
        &counts(1, 1),
        CREATED,
    );
    assert!(plain.is_ok());
}

#[test]
fn stream_with_tools_is_computed_up_front() {
    let raw = "[{\"name\":\"get_weather\",\"arguments\":{\"city\":\"Paris\"}}]";
    let mut stream = chat_stream_by_graph(
        &ComputeOutcome::Done,
        "mistral",
        PromptTemplateType::MistralTool,
        "id".to_string(),
        true,
        raw.to_string(),
        &counts(30, 12),
        CREATED,
    )
    .unwrap();
    assert!(!stream.holds_session());
    assert_eq!(stream.model(), &Some("mistral".to_string()));
    match stream.poll() {
        PullAction::Yield(StreamItem::Chunk(chunk)) => {
            assert_eq!(chunk.object(), "chat.completion.chunk");
            assert_eq!(chunk.system_fingerprint(), "fp_44709d6fcb");
            assert_eq!(chunk.model, "mistral");
            assert_eq!(chunk.usage, None);
            assert_eq!(chunk.choices.len(), 1);
            assert_eq!(chunk.choices[0].delta.content, Some(raw.to_string()));
            assert_eq!(chunk.choices[0].finish_reason, None);
            assert_eq!(chunk.choices[0].delta.tool_calls.len(), 1);
            assert_eq!(chunk.choices[0].delta.tool_calls[0].function.name, "get_weather");
        }
        other => panic!("unexpected {:?}", other),
    }
    match stream.poll() {
        PullAction::Yield(StreamItem::Chunk(chunk)) => {
            assert!(chunk.choices.is_empty());
            assert_eq!(
                chunk.usage,
                Some(Usage { prompt_tokens: 30, completion_tokens: 12, total_tokens: 42 })
            );
        }
        other => panic!("unexpected {:?}", other),
    }
    assert_eq!(stream.poll(), PullAction::Yield(StreamItem::Done));
    assert_eq!(stream.poll(), PullAction::Stop);
}

#[test]
fn stream_computed_up_front_reports_usage_only_if_asked() {
    let mut stream = chat_stream_by_graph(
        &ComputeOutcome::ContextFull,
        "mistral",
        PromptTemplateType::MistralTool,
        "id".to_string(),
        false,
        "cut".to_string(),
        &counts(30, 12),
        CREATED,
    )
    .unwrap();
    match stream.poll() {
        PullAction::Yield(StreamItem::Chunk(chunk)) => {
            assert_eq!(chunk.choices[0].delta.content, Some("cut".to_string()));
            assert_eq!(chunk.choices[0].finish_reason, Some(FinishReason::Length));
            assert!(chunk.choices[0].delta.tool_calls.is_empty());
        }
        other => panic!("unexpected {:?}", other),
    }
    assert_eq!(stream.poll(), PullAction::Yield(StreamItem::Done));
    assert_eq!(stream.poll(), PullAction::Stop);
}

#[test]
fn generation_that_is_not_utf8_is_an_error() {
    match decode_generation(&[b'o', b'k', 0xff], &PromptTemplateType::ChatML) {
        Err(LlamaCoreError::Operation(message)) => assert!(message.starts_with(
            "Failed to decode the buffer of the inference result to a utf-8 string. "
        )),
        other => panic!("unexpected {:?}", other),
    }
}

#[test]
fn every_generation_in_utf8_is_cleaned() {
    assert_eq!(
        decode_generation(b"a</s>b", &PromptTemplateType::MistralInstruct),
        Ok("a</s>b".to_string())
    );
    assert_eq!(
        decode_generation(b"Hello</s> ", &PromptTemplateType::MistralInstruct),
        Ok("Hello".to_string())
    );
    assert_eq!(decode_generation(b"", &PromptTemplateType::Zephyr), Ok(String::new()));
}

#[test]
fn outcome_is_an_error_only_where_the_computation_failed() {
    assert_eq!(ComputeOutcome::Done.failure(), None);
    assert_eq!(ComputeOutcome::ContextFull.failure(), None);
    assert_eq!(ComputeOutcome::PromptTooLong.failure(), None);
    assert_eq!(
        ComputeOutcome::Failed("busy".to_string()).failure(),
        Some(LlamaCoreError::Backend(BackendError::Compute(
            "Failed to compute the chat completion. Reason: busy".to_string()
        )))
    );
}

#[test]
fn generation_is_decoded_and_cleaned() {
    assert_eq!(
        decode_generation(
            " \u{4f60}\u{597d}<|im_end|>\n<|im_start|>user".as_bytes(),
            &PromptTemplateType::ChatML
        ),
        Ok("\u{4f60}\u{597d}".to_string())
    );
}

#[test]
fn chat_is_not_served_in_embeddings_mode() {
    assert_eq!(check_running_mode(RunningMode::Chat), Ok(()));
    assert_eq!(check_running_mode(RunningMode::ChatEmbeddings), Ok(()));
    assert_eq!(
        check_running_mode(RunningMode::Embeddings),
        Err(LlamaCoreError::Operation(
            "The chat completion is not supported in the embeddings mode.".to_string()
        ))
    );
    assert_eq!(RunningMode::Chat.name(), "chat");
    assert_eq!(RunningMode::ChatEmbeddings.name(), "chat-embeddings");
}

#[test]
fn completion_is_identified_by_the_user_or_afresh() {
    let user = "alice".to_string();
    assert_eq!(completion_id(Some(&user)), "alice");
    let first = completion_id(None);
    let second = completion_id(None);
    assert!(first.starts_with("chatcmpl-"));
    assert!(first.len() > "chatcmpl-".len());
    assert_ne!(first, second);
}
