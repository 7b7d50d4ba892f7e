//! Tool calls: the function invocations that a generation carries, for the
//! two templates that know them. The matching is `regex`'s, the parsing
//! `serde_json`'s.

use crate::json::{
    json_compact, json_elements, json_member, json_text, value_from_str, value_get,
    value_to_string, values_from_str,
};
use crate::response::{text_view, Function, ToolCall, ToolCallView};
use crate::template::PromptTemplateType;
use crate::text::{has_prefix, join, replace, replaced, to_chars, to_string};
use crate::utils::{is_fresh_id, new_uuid};
use vstd::prelude::*;

verus! {

/// `regex::Regex`, a compiled regular expression: the verifier sees nothing
/// inside it.
#[verifier::external_type_specification]
#[verifier::external_body]
pub struct ExRegex(regex::Regex);

/// `regex::Error`, a failure to compile: the verifier sees nothing inside it.
#[verifier::external_type_specification]
#[verifier::external_body]
pub struct ExRegexError(regex::Error);

/// Whether `pattern` is a regular expression that compiles.
pub uninterp spec fn regex_compiles(pattern: Seq<char>) -> bool;

/// The pattern of a regular expression as [`regex_new`] made it: compiled
/// from that pattern by `regex::Regex::new`, with no option set. The name
/// stands for no regular expression that was made in any other way.
pub uninterp spec fn regex_pattern(regex: regex::Regex) -> Seq<char>;

/// For each of the successive matches of `pattern` in `haystack` that do not
/// overlap, the text of the capture group `group`; `None` for a match in
/// which the group took no part.
pub uninterp spec fn regex_group_texts(pattern: Seq<char>, haystack: Seq<char>, group: nat) -> Seq<
    Option<Seq<char>>,
>;

/// Compiles a regular expression, by `regex::Regex::new`.
///
/// Trusted: whether a pattern compiles depends on the pattern alone, and the
/// regular expression remembers the pattern that it was compiled from.
#[verifier::external_body]
fn regex_new(pattern: &str) -> (r: Result<regex::Regex, regex::Error>)
    ensures
        r is Ok <==> regex_compiles(pattern@),
        r matches Ok(regex) ==> regex_pattern(regex) == pattern@,
{
    regex::Regex::new(pattern)
}

/// The text of one capture group in each match, by
/// `regex::Regex::captures_iter` and `regex::Captures::get`.
///
/// Trusted: the matches of a regular expression that [`regex_new`] made
/// depend on its pattern and the haystack alone. No other regular expression
/// reaches this function.
#[verifier::external_body]
fn regex_captures_iter(regex: &regex::Regex, haystack: &str, group: usize) -> (texts: Vec<
    Option<String>,
>)
    ensures
        texts@.map_values(|t: Option<String>| text_view(t)) == regex_group_texts(
            regex_pattern(*regex),
            haystack@,
            group as nat,
        ),
{
    regex.captures_iter(haystack).map(|c| c.get(group).map(|m| m.as_str().to_string())).collect()
}

/// What a generation says of one tool call: the name of the function and its
/// arguments, both as JSON text.
#[derive(Debug, Clone, PartialEq, Eq)]
pub struct ToolRecord {
    pub name: String,
    pub arguments: String,
}

/// The mathematical value of a [`ToolRecord`].
pub struct RecordView {
    pub name: Seq<char>,
    pub arguments: Seq<char>,
}

impl View for ToolRecord {
    type V = RecordView;

    open spec fn view(&self) -> RecordView {
        RecordView { name: self.name@, arguments: self.arguments@ }
    }
}

/// The values of a list of records.
pub open spec fn records_view(records: Seq<ToolRecord>) -> Seq<RecordView> {
    records.map_values(|r: ToolRecord| r@)
}

/// The pattern of the tool calls in a Mistral generation: a JSON array of
/// objects on one line, as short as can be.
pub open spec fn mistral_pattern() -> Seq<char> {
    "\\[\\{.*?\\}\\]"@
}

/// The pattern of a tool call in a ChatML generation: what stands between
/// `<tool_call>` and the next `</tool_call>` on the same line.
pub open spec fn chatml_pattern() -> Seq<char> {
    "<tool_call>(.*?)</tool_call>"@
}

/// The record that the JSON value with the compact text `compact` makes: its
/// members `name` and `arguments`. A value without one of them makes none.
pub open spec fn record_of(compact: Seq<char>) -> Option<RecordView> {
    match (json_member(compact, "name"@), json_member(compact, "arguments"@)) {
        (Some(name), Some(arguments)) => Some(RecordView { name, arguments }),
        _ => None,
    }
}

/// One record or none, as a list.
pub open spec fn listed(record: Option<RecordView>) -> Seq<RecordView> {
    match record {
        Some(r) => seq![r],
        None => seq![],
    }
}

/// The records that the JSON values with the given compact texts make, in
/// their order.
pub open spec fn records_of(values: Seq<Seq<char>>) -> Seq<RecordView>
    decreases values.len(),
{
    if values.len() == 0 {
        seq![]
    } else {
        records_of(values.drop_last()) + listed(record_of(values.last()))
    }
}

/// The records in one match of the Mistral pattern: those of the elements of
/// the JSON array that the match is. A match that is no JSON array gives
/// none.
pub open spec fn mistral_match(capture: Option<Seq<char>>) -> Seq<RecordView> {
    match capture {
        Some(text) => match json_elements(text) {
            Some(values) => records_of(values),
            None => seq![],
        },
        None => seq![],
    }
}

/// The record in one match of the ChatML pattern: that of the JSON value
/// between the tags, once every backslash followed by `n` is taken out of
/// the text. A text that is no JSON then gives none.
pub open spec fn chatml_match(capture: Option<Seq<char>>) -> Seq<RecordView> {
    match capture {
        Some(text) => match json_compact(replaced(text, "\\n"@, ""@)) {
            Some(compact) => listed(record_of(compact)),
            None => seq![],
        },
        None => seq![],
    }
}

/// The records in the matches of the Mistral pattern, in their order.
pub open spec fn mistral_records(captures: Seq<Option<Seq<char>>>) -> Seq<RecordView>
    decreases captures.len(),
{
    if captures.len() == 0 {
        seq![]
    } else {
        mistral_records(captures.drop_last()) + mistral_match(captures.last())
    }
}

/// The records in the matches of the ChatML pattern, in their order.
pub open spec fn chatml_records(captures: Seq<Option<Seq<char>>>) -> Seq<RecordView>
    decreases captures.len(),
{
    if captures.len() == 0 {
        seq![]
    } else {
        chatml_records(captures.drop_last()) + chatml_match(captures.last())
    }
}

/// The records of the tool calls in the generation `input` under `template`.
/// Only the templates `MistralTool` and `ChatMLTool` know tool calls.
pub open spec fn tool_records(input: Seq<char>, template: PromptTemplateType) -> Seq<RecordView> {
    match template {
        PromptTemplateType::MistralTool => if regex_compiles(mistral_pattern()) {
            mistral_records(regex_group_texts(mistral_pattern(), input, 0))
        } else {
            seq![]
        },
        PromptTemplateType::ChatMLTool => if regex_compiles(chatml_pattern()) {
            chatml_records(regex_group_texts(chatml_pattern(), input, 1))
        } else {
            seq![]
        },
        _ => seq![],
    }
}

/// The tool call that `record` makes under an identifier that ends in
/// `suffix`: a call of the type `function`, of the function whose name is the
/// JSON text of the record's name without its quotation marks, with the
/// record's arguments.
pub open spec fn call_of(suffix: Seq<char>, record: RecordView) -> ToolCallView {
    ToolCallView {
        id: "call_"@ + suffix,
        ty: "function"@,
        name: replaced(record.name, "\""@, ""@),
        arguments: record.arguments,
    }
}

/// Whether `call` is the tool call that `record` makes, under whatever
/// identifier that begins with `call_`.
pub open spec fn is_call_of(call: ToolCallView, record: RecordView) -> bool {
    &&& has_prefix(call.id, "call_"@)
    &&& call == call_of(call.id.subrange("call_"@.len() as int, call.id.len() as int), record)
}

/// Whether `call` is the tool call that `record` makes, under a fresh
/// identifier: `call_` and an identifier in hyphenated form.
pub open spec fn is_fresh_call_of(call: ToolCallView, record: RecordView) -> bool {
    is_call_of(call, record) && is_fresh_id(call.id, "call_"@)
}

/// The tool call that a record makes under the identifier `call_` and
/// `suffix`.
pub fn tool_call(suffix: &str, record: &ToolRecord) -> (call: ToolCall)
    ensures
        call@ == call_of(suffix@, record@),
        is_call_of(call@, record@),
{
    let name = replace(&to_chars(record.name.as_str()), &to_chars("\""), &to_chars(""));
    let call = ToolCall {
        id: join("call_", suffix),
        ty: String::from_str("function"),
        function: Function { name: to_string(&name), arguments: record.arguments.clone() },
    };
    proof {
        let prefix = "call_"@;
        assert(call@.id.subrange(0, prefix.len() as int) =~= prefix);
        assert(call@.id.subrange(prefix.len() as int, call@.id.len() as int) =~= suffix@);
    }
    call
}

/// The record that a parsed JSON value makes.
fn record_from_value(value: &serde_json::Value) -> (record: Option<ToolRecord>)
    ensures
        match record_of(json_text(*value)) {
            Some(r) => record matches Some(found) && found@ == r,
            None => record is None,
        },
{
    let name = match value_get(value, "name") {
        Some(name) => value_to_string(name),
        None => {
            return None;
        },
    };
    let arguments = match value_get(value, "arguments") {
        Some(arguments) => value_to_string(arguments),
        None => {
            return None;
        },
    };
    Some(ToolRecord { name, arguments })
}

/// The records in one match of the Mistral pattern, appended to `records`.
fn push_mistral_match(records: &mut Vec<ToolRecord>, capture: &Option<String>)
    ensures
        records_view(final(records)@) == records_view(old(records)@) + mistral_match(
            text_view(*capture),
        ),
{
    let ghost before = records_view(records@);
    let text = match capture {
        Some(text) => text,
        None => {
            return;
        },
    };
    let values = match values_from_str(text.as_str()) {
        Ok(values) => values,
        Err(_) => {
            return;
        },
    };
    let ghost texts = values@.map_values(|v: serde_json::Value| json_text(v));
    let mut i: usize = 0;
    while i < values.len()
        invariant
            i <= values.len(),
            texts == values@.map_values(|v: serde_json::Value| json_text(v)),
            records_view(records@) == before + records_of(texts.take(i as int)),
        decreases values.len() - i,
    {
        let ghost so_far = records_view(records@);
        assert(texts.take(i + 1).drop_last() =~= texts.take(i as int));
        match record_from_value(&values[i]) {
            Some(record) => {
                records.push(record);
                assert(records_view(records@) =~= so_far.push(record@));
            },
            None => {},
        }
        i = i + 1;
    }
    assert(texts.take(values.len() as int) =~= texts);
}

/// The record in one match of the ChatML pattern, appended to `records`.
fn push_chatml_match(records: &mut Vec<ToolRecord>, capture: &Option<String>)
    ensures
        records_view(final(records)@) == records_view(old(records)@) + chatml_match(
            text_view(*capture),
        ),
{
    let text = match capture {
        Some(text) => text,
        None => {
            return;
        },
    };
    let cleaned = to_string(&replace(&to_chars(text.as_str()), &to_chars("\\n"), &to_chars("")));
    let value = match value_from_str(cleaned.as_str()) {
        Ok(value) => value,
        Err(_) => {
            return;
        },
    };
    match record_from_value(&value) {
        Some(record) => {
            records.push(record);
        },
        None => {},
    }
}

/// The tool calls that the given records make, each under a fresh
/// identifier.
pub fn tool_calls_from_records(records: &Vec<ToolRecord>) -> (calls: Vec<ToolCall>)
    ensures
        calls@.len() == records@.len(),
        forall|i: int|
            0 <= i < calls@.len() ==> is_fresh_call_of(#[trigger] calls@[i]@, records@[i]@),
{
    let mut calls: Vec<ToolCall> = Vec::new();
    let mut i: usize = 0;
    while i < records.len()
        invariant
            i <= records.len(),
            calls@.len() == i,
            forall|k: int| 0 <= k < i ==> is_fresh_call_of(#[trigger] calls@[k]@, records@[k]@),
        decreases records.len() - i,
    {
        let suffix = new_uuid();
        calls.push(tool_call(suffix.as_str(), &records[i]));
        i = i + 1;
    }
    calls
}

/// The records of the tool calls that a generation carries.
pub fn parse_tool_records(input: &str, prompt_template: PromptTemplateType) -> (records: Vec<
    ToolRecord,
>)
    ensures
        records_view(records@) == tool_records(input@, prompt_template),
{
    let mut records: Vec<ToolRecord> = Vec::new();
    match prompt_template {
        PromptTemplateType::MistralTool => match regex_new("\\[\\{.*?\\}\\]") {
            Ok(regex) => {
                let captures = regex_captures_iter(&regex, input, 0);
                let ghost texts = captures@.map_values(|t: Option<String>| text_view(t));
                let mut i: usize = 0;
                while i < captures.len()
                    invariant
                        i <= captures.len(),
                        texts == captures@.map_values(|t: Option<String>| text_view(t)),
                        records_view(records@) == mistral_records(texts.take(i as int)),
                    decreases captures.len() - i,
                {
                    assert(texts.take(i + 1).drop_last() =~= texts.take(i as int));
                    push_mistral_match(&mut records, &captures[i]);
                    i = i + 1;
                }
                assert(texts.take(captures.len() as int) =~= texts);
            },
            Err(_) => {},
        },
        PromptTemplateType::ChatMLTool => match regex_new("<tool_call>(.*?)</tool_call>") {
            Ok(regex) => {
                let captures = regex_captures_iter(&regex, input, 1);
                let ghost texts = captures@.map_values(|t: Option<String>| text_view(t));
                let mut i: usize = 0;
                while i < captures.len()
                    invariant
                        i <= captures.len(),
                        texts == captures@.map_values(|t: Option<String>| text_view(t)),
                        records_view(records@) == chatml_records(texts.take(i as int)),
                    decreases captures.len() - i,
                {
                    assert(texts.take(i + 1).drop_last() =~= texts.take(i as int));
                    push_chatml_match(&mut records, &captures[i]);
                    i = i + 1;
                }
                assert(texts.take(captures.len() as int) =~= texts);
            },
            Err(_) => {},
        },
        _ => {},
    }
    records
}

/// The tool calls that a generation carries, `None` where it carries none.
///
/// Only the templates `MistralTool` and `ChatMLTool` know tool calls. The
/// calls stand in the order of their records in the generation, one call for
/// each record, each under an identifier of its own that begins with
/// `call_`.
pub fn parse_tool_calls(input: &str, prompt_template: PromptTemplateType) -> (found: Option<
    Vec<ToolCall>,
>)
    ensures
        ({
            let records = tool_records(input@, prompt_template);
            match found {
                Some(calls) => {
                    &&& records.len() > 0
                    &&& calls@.len() == records.len()
                    &&& forall|i: int|
                        0 <= i < calls@.len() ==> is_fresh_call_of(
                            #[trigger] calls@[i]@,
                            records[i],
                        )
                },
                None => records.len() == 0,
            }
        }),
{
    let records = parse_tool_records(input, prompt_template);
    if records.len() == 0 {
        None
    } else {
        let calls = tool_calls_from_records(&records);
        Some(calls)
    }
}

} // verus!
