use llama_core::template::PromptTemplateType;
use llama_core::tools::{
    parse_tool_calls, parse_tool_records, tool_call, tool_calls_from_records, ToolRecord,
};

fn record(name: &str, arguments: &str) -> ToolRecord {
    ToolRecord { name: name.to_string(), arguments: arguments.to_string() }
}

#[test]
fn chatml_tool_calls_stand_between_their_tags() {
    let input = "Let me check.\n<tool_call>{\"name\": \"get_weather\", \"arguments\": {\"city\": \"Paris\", \"days\": 2}}</tool_call>\n<tool_call>{\"arguments\": [1, 2], \"name\": \"sum\"}</tool_call>";
    let records = parse_tool_records(input, PromptTemplateType::ChatMLTool);
    assert_eq!(
        records,
        vec![
            record("\"get_weather\"", "{\"city\":\"Paris\",\"days\":2}"),
            record("\"sum\"", "[1,2]"),
        ]
    );
    let calls = parse_tool_calls(input, PromptTemplateType::ChatMLTool).unwrap();
    assert_eq!(calls.len(), 2);
    assert_eq!(calls[0].function.name, "get_weather");
    assert_eq!(calls[0].function.arguments, "{\"city\":\"Paris\",\"days\":2}");
    assert_eq!(calls[1].function.name, "sum");
    assert_eq!(calls[1].function.arguments, "[1,2]");
    for call in &calls {
        assert_eq!(call.ty, "function");
        assert!(call.id.starts_with("call_"));
        assert!(call.id.len() > "call_".len());
    }
    assert_ne!(calls[0].id, calls[1].id);
}

#[test]
fn chatml_tool_call_loses_its_escaped_line_breaks() {
    let input = "<tool_call>\\n{\"name\": \"f\",\\n \"arguments\": {\"a\": \"x\\ny\"}}\\n</tool_call>";
    let records = parse_tool_records(input, PromptTemplateType::ChatMLTool);
    assert_eq!(records, vec![record("\"f\"", "{\"a\":\"xy\"}")]);
}

#[test]
fn chatml_tool_call_ends_with_its_line() {
    // The pattern does not reach over a line break.
    let input = "<tool_call>{\"name\": \"f\",\n\"arguments\": {}}</tool_call>";
    assert_eq!(parse_tool_records(input, PromptTemplateType::ChatMLTool), vec![]);
    assert_eq!(parse_tool_calls(input, PromptTemplateType::ChatMLTool), None);
}

#[test]
fn mistral_tool_calls_are_a_json_array() {
    let input = "[{\"name\": \"get_weather\", \"arguments\": {\"city\": \"Paris\"}}, {\"name\": \"now\", \"arguments\": {}}] and [{\"name\":\"x\",\"arguments\":1}]";
    let records = parse_tool_records(input, PromptTemplateType::MistralTool);
    assert_eq!(
        records,
        vec![
            record("\"get_weather\"", "{\"city\":\"Paris\"}"),
            record("\"now\"", "{}"),
            record("\"x\"", "1"),
        ]
    );
    let calls = parse_tool_calls(input, PromptTemplateType::MistralTool).unwrap();
    assert_eq!(calls.len(), 3);
    assert_eq!(calls[0].function.name, "get_weather");
    assert_eq!(calls[2].function.name, "x");
    assert_eq!(calls[2].function.arguments, "1");
}

#[test]
fn matches_that_are_no_json_are_passed_over() {
    let input = "[{broken}] [{\"name\":\"ok\",\"arguments\":{}}]";
    assert_eq!(
        parse_tool_records(input, PromptTemplateType::MistralTool),
        vec![record("\"ok\"", "{}")]
    );
    let input = "<tool_call>not json</tool_call><tool_call>{\"name\":\"ok\",\"arguments\":{}}</tool_call>";
    assert_eq!(
        parse_tool_records(input, PromptTemplateType::ChatMLTool),
        vec![record("\"ok\"", "{}")]
    );
}

#[test]
fn records_without_a_name_or_arguments_are_passed_over() {
    let input = "<tool_call>{\"name\":\"no_arguments\"}</tool_call><tool_call>{\"arguments\":{}}</tool_call><tool_call>[1]</tool_call>";
    assert_eq!(parse_tool_records(input, PromptTemplateType::ChatMLTool), vec![]);
    assert_eq!(parse_tool_calls(input, PromptTemplateType::ChatMLTool), None);
    let input = "[{\"name\":\"no_arguments\"}]";
    assert_eq!(parse_tool_calls(input, PromptTemplateType::MistralTool), None);
}

#[test]
fn generation_without_tool_calls_has_none() {
    assert_eq!(parse_tool_calls("It is sunny.", PromptTemplateType::ChatMLTool), None);
    assert_eq!(parse_tool_calls("It is sunny.", PromptTemplateType::MistralTool), None);
    assert_eq!(parse_tool_calls("", PromptTemplateType::MistralTool), None);
}

#[test]
fn other_templates_know_no_tool_calls() {
    let input = "<tool_call>{\"name\":\"f\",\"arguments\":{}}</tool_call> [{\"name\":\"f\",\"arguments\":{}}]";
    for template in [
        PromptTemplateType::ChatML,
        PromptTemplateType::MistralInstruct,
        PromptTemplateType::Llama3Chat,
        PromptTemplateType::Qwen2vl,
    ] {
        assert_eq!(parse_tool_calls(input, template), None);
        assert_eq!(parse_tool_records(input, template), vec![]);
    }
    // Each of the two templates follows its own pattern.
    assert_eq!(parse_tool_records(input, PromptTemplateType::ChatMLTool).len(), 1);
    assert_eq!(parse_tool_records(input, PromptTemplateType::MistralTool).len(), 1);
}

#[test]
fn tool_call_is_made_of_its_record() {
    let call = tool_call("abc123", &record("\"get_\\\"weather\"", "{\"city\":\"Paris\"}"));
    assert_eq!(call.id, "call_abc123");
    assert_eq!(call.ty, "function");
    assert_eq!(call.function.name, "get_\\weather");
    assert_eq!(call.function.arguments, "{\"city\":\"Paris\"}");
    // A name that is no string keeps its JSON text.
    assert_eq!(tool_call("1", &record("42", "null")).function.name, "42");
}

#[test]
fn tool_calls_keep_the_order_of_their_records() {
    let records = vec![record("\"a\"", "1"), record("\"b\"", "2"), record("\"c\"", "3")];
    let calls = tool_calls_from_records(&records);
    let names: Vec<&str> = calls.iter().map(|c| c.function.name.as_str()).collect();
    assert_eq!(names, vec!["a", "b", "c"]);
    let mut ids: Vec<&str> = calls.iter().map(|c| c.id.as_str()).collect();
    for id in &ids {
        assert!(id.starts_with("call_"));
        let random = &id["call_".len()..];
        assert_eq!(random.len(), 36);
        assert!(random.chars().enumerate().all(|(i, c)| match i {
            8 | 13 | 18 | 23 => c == '-',
            _ => c.is_ascii_digit() || ('a'..='f').contains(&c),
        }));
    }
    ids.sort();
    ids.dedup();
    assert_eq!(ids.len(), 3);
    assert!(tool_calls_from_records(&vec![]).is_empty());
}
