use llama_core::builder::{fit_prompt, max_prompt_tokens, prune, Fit};
use llama_core::request::ChatCompletionRequestMessage;
use llama_core::response::ChatCompletionRole;

fn system(text: &str) -> ChatCompletionRequestMessage {
    ChatCompletionRequestMessage::new_system_message(text.to_string())
}

fn user(text: &str) -> ChatCompletionRequestMessage {
    ChatCompletionRequestMessage::new_user_message(text.to_string())
}

fn assistant(text: &str) -> ChatCompletionRequestMessage {
    ChatCompletionRequestMessage::new_assistant_message(Some(text.to_string()), None)
}

fn tool(text: &str) -> ChatCompletionRequestMessage {
    ChatCompletionRequestMessage::new_tool_message(text.to_string(), None)
}

#[test]
fn pruning() {
    let mut messages = vec![
        system("be brief"),
        user("user1"),
        assistant("assistant1"),
        user("user2"),
        assistant("assistant2"),
        user("user3"),
    ];
    // The first count is over the budget of 80: the oldest exchange goes.
    assert_eq!(fit_prompt(&mut messages, 200, 100), Fit::Retry);
    assert_eq!(
        messages,
        vec![system("be brief"), user("user2"), assistant("assistant2"), user("user3")]
    );
    // The second count is within it: the prompt is kept.
    assert_eq!(
        fit_prompt(&mut messages, 40, 100),
        Fit::Keep { available_completion_tokens: 20 }
    );
    assert_eq!(messages.len(), 4);
}

#[test]
fn prompt_budget_is_four_fifths_of_the_context() {
    assert_eq!(max_prompt_tokens(100), 80);
    assert_eq!(max_prompt_tokens(0), 0);
    assert_eq!(max_prompt_tokens(1), 0);
    assert_eq!(max_prompt_tokens(4), 3);
    assert_eq!(max_prompt_tokens(5), 4);
    assert_eq!(max_prompt_tokens(9), 7);
    assert_eq!(max_prompt_tokens(4096), 3276);
    assert_eq!(max_prompt_tokens(u64::MAX), 14_757_395_258_967_641_292);
}

#[test]
fn prompt_at_its_budget_is_kept() {
    let mut messages = vec![user("a"), assistant("b"), user("c")];
    assert_eq!(
        fit_prompt(&mut messages, 80, 100),
        Fit::Keep { available_completion_tokens: 20 }
    );
    assert_eq!(messages.len(), 3);
    assert_eq!(fit_prompt(&mut messages, 81, 100), Fit::Retry);
    assert_eq!(messages, vec![user("c")]);
}

#[test]
fn minimal_conversations_are_kept_as_they_are() {
    let shapes = vec![
        vec![system("s")],
        vec![system("s"), user("u")],
        vec![system("s"), assistant("a"), user("u")],
        vec![user("u")],
    ];
    for shape in shapes {
        let mut messages = shape.clone();
        assert!(!prune(&mut messages));
        assert_eq!(messages, shape);
        let mut messages = shape.clone();
        assert_eq!(
            fit_prompt(&mut messages, 1000, 10),
            Fit::Keep { available_completion_tokens: 2 }
        );
        assert_eq!(messages, shape);
    }
}

#[test]
fn every_other_conversation_loses_a_turn() {
    let shapes = vec![
        vec![system("s"), user("u1"), user("u2")],
        vec![system("s"), user("u1"), assistant("a1"), user("u2")],
        vec![system("s"), tool("t"), assistant("a"), user("u")],
        vec![user("u1"), user("u2")],
        vec![user("u1"), assistant("a1"), user("u2")],
        vec![user("u1"), user("u2"), user("u3")],
        vec![user("u1"), assistant("a1"), tool("t"), assistant("a2"), user("u2")],
    ];
    for shape in shapes {
        let mut messages = shape.clone();
        assert!(prune(&mut messages), "{:?}", shape);
        assert!(messages.len() < shape.len(), "{:?}", shape);
        if shape[0].role() == ChatCompletionRole::System {
            assert_eq!(messages[0], shape[0]);
        }
    }
}

#[test]
fn system_led_conversation_loses_the_two_turns_after_the_system_turn() {
    let mut messages = vec![system("s"), user("u1"), assistant("a1"), user("u2")];
    assert!(prune(&mut messages));
    assert_eq!(messages, vec![system("s"), user("u2")]);
    let mut three = vec![system("s"), user("u1"), user("u2")];
    assert!(prune(&mut three));
    assert_eq!(three, vec![system("s"), user("u2")]);
}

#[test]
fn user_led_conversation_loses_its_oldest_exchange() {
    let mut messages = vec![user("u1"), assistant("a1"), user("u2")];
    assert!(prune(&mut messages));
    assert_eq!(messages, vec![user("u2")]);
    let mut two = vec![user("u1"), user("u2")];
    assert!(prune(&mut two));
    assert_eq!(two, vec![user("u2")]);
    let mut no_answer = vec![user("u1"), user("u2"), user("u3")];
    assert!(prune(&mut no_answer));
    assert_eq!(no_answer, vec![user("u2"), user("u3")]);
}

#[test]
fn tool_exchange_goes_with_the_exchange_that_called_it() {
    let mut messages =
        vec![user("u1"), assistant("a1"), tool("t1"), assistant("a2"), user("u2")];
    assert!(prune(&mut messages));
    assert_eq!(messages, vec![user("u2")]);
    let mut orphan = vec![user("u1"), assistant("a1"), tool("t1")];
    assert!(prune(&mut orphan));
    assert!(orphan.is_empty());
    let mut unanswered = vec![user("u1"), assistant("a1"), tool("t1"), user("u2")];
    assert!(prune(&mut unanswered));
    assert_eq!(unanswered, vec![user("u2")]);
}

#[test]
fn roles_of_the_turns() {
    assert_eq!(system("s").role(), ChatCompletionRole::System);
    assert_eq!(user("u").role(), ChatCompletionRole::User);
    assert_eq!(assistant("a").role(), ChatCompletionRole::Assistant);
    assert_eq!(tool("t").role(), ChatCompletionRole::Tool);
}
