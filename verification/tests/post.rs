use llama_core::post::post_process;
use llama_core::template::PromptTemplateType;

fn clean(output: &str, template: PromptTemplateType) -> String {
    post_process(output, &template).unwrap()
}

const ALL: [PromptTemplateType; 17] = [
    PromptTemplateType::Llama2Chat,
    PromptTemplateType::Llama3Chat,
    PromptTemplateType::MistralInstruct,
    PromptTemplateType::MistralLite,
    PromptTemplateType::MistralTool,
    PromptTemplateType::OpenChat,
    PromptTemplateType::CodeLlama,
    PromptTemplateType::HumanAssistant,
    PromptTemplateType::Zephyr,
    PromptTemplateType::ChatML,
    PromptTemplateType::ChatMLTool,
    PromptTemplateType::Baichuan2,
    PromptTemplateType::DeepseekChat,
    PromptTemplateType::SolarInstruct,
    PromptTemplateType::Phi3Chat,
    PromptTemplateType::GemmaInstruct,
    PromptTemplateType::Qwen2vl,
];

#[test]
fn trailing_sentinels_are_stripped() {
    assert_eq!(clean(" Hello!</s>", PromptTemplateType::Llama2Chat), "Hello!");
    assert_eq!(clean("Hello!</s></s>\n", PromptTemplateType::Llama2Chat), "Hello!");
    assert_eq!(clean("Hi <|eot_id|> ", PromptTemplateType::Llama3Chat), "Hi");
    assert_eq!(clean("Hi<|end|>", PromptTemplateType::Phi3Chat), "Hi");
    assert_eq!(clean("Hi\n<end_of_turn>\n", PromptTemplateType::GemmaInstruct), "Hi");
    assert_eq!(clean("Hi<|end_of_turn|>", PromptTemplateType::OpenChat), "Hi");
    assert_eq!(clean(" Hi Human:", PromptTemplateType::HumanAssistant), "Hi");
    assert_eq!(
        clean("\u{4f60}\u{597d}\u{7528}\u{6237}:", PromptTemplateType::Baichuan2),
        "\u{4f60}\u{597d}"
    );
}

#[test]
fn sentinels_and_white_space_go_until_neither_stands_at_the_end() {
    assert_eq!(clean("Hi<|end_of_turn|> ", PromptTemplateType::OpenChat), "Hi");
    assert_eq!(clean("Hi Human:\n", PromptTemplateType::HumanAssistant), "Hi");
    assert_eq!(clean("Hi</s> ", PromptTemplateType::Llama2Chat), "Hi");
    assert_eq!(clean("a</s> </s>", PromptTemplateType::Llama2Chat), "a");
    assert_eq!(clean(" a </s>\n</s></s> \t", PromptTemplateType::Llama2Chat), "a");
    assert_eq!(
        clean("a \u{7528}\u{6237}: \u{7528}\u{6237}:", PromptTemplateType::Baichuan2),
        "a"
    );
    assert_eq!(clean("</s>", PromptTemplateType::Llama2Chat), "");
    assert_eq!(clean(" </s> ", PromptTemplateType::Llama2Chat), "");
}

#[test]
fn sentinel_within_the_text_stays() {
    assert_eq!(clean("a</s>b", PromptTemplateType::Llama2Chat), "a</s>b");
    assert_eq!(clean("a Human: b", PromptTemplateType::HumanAssistant), "a Human: b");
}

#[test]
fn chatml_keeps_what_stands_before_the_first_marker() {
    assert_eq!(clean("Hi<|im_end|>", PromptTemplateType::ChatML), "Hi");
    assert_eq!(clean(" Hi <|im_start|>user", PromptTemplateType::ChatML), "Hi");
    assert_eq!(
        clean("Hi<|im_end|>\n<|im_start|>user\nmore<|im_end|>", PromptTemplateType::ChatMLTool),
        "Hi"
    );
    assert_eq!(clean("Hi<|im_start|>x<|im_end|>", PromptTemplateType::ChatML), "Hi");
    assert_eq!(clean("<|im_end|>Hi", PromptTemplateType::ChatML), "");
    assert_eq!(clean("  plain  ", PromptTemplateType::ChatML), "plain");
}

#[test]
fn mistral_family_takes_the_end_of_sequence() {
    for template in [
        PromptTemplateType::Zephyr,
        PromptTemplateType::MistralLite,
        PromptTemplateType::MistralTool,
        PromptTemplateType::MistralInstruct,
    ] {
        assert_eq!(clean(" Hi</s>", template), "Hi");
        assert_eq!(clean("Hi </s><", template), "Hi");
        assert_eq!(clean("a</s><b</s><</s><", template), "a</s><b");
        assert_eq!(clean("Hi</s></s>", template), "Hi");
        assert_eq!(clean("Hello</s> ", template), "Hello");
        assert_eq!(clean("Hi</s> </s>< </s>", template), "Hi");
        assert_eq!(clean("  Hi  ", template), "Hi");
        // A sentinel within the text stays.
        assert_eq!(clean("a</s>b", template), "a</s>b");
        assert_eq!(clean("a</s><b</s>", template), "a</s><b");
    }
}

#[test]
fn cleaning_never_fails() {
    for template in ALL {
        for output in ["", " ", "a</s>b", "Hello</s> ", "</s>", "<|im_end|>", "### Answer"] {
            assert!(post_process(output, &template).is_ok(), "{:?} {:?}", template, output);
        }
    }
}

#[test]
fn deepseek_turns_inner_sentinels_into_spaces() {
    let template = PromptTemplateType::DeepseekChat;
    assert_eq!(clean("Hi<|end_of_sentence|>", template), "Hi");
    assert_eq!(
        clean("a<|end_of_sentence|>b<|end_of_sentence|><|end_of_sentence|>", template),
        "a b"
    );
    assert_eq!(clean("<|end_of_sentence|> x <|end_of_sentence|> ", template), "x");
    assert_eq!(clean("  plain ", template), "plain");
}

#[test]
fn solar_heading_loses_its_hashes() {
    let template = PromptTemplateType::SolarInstruct;
    assert_eq!(clean("### Answer:\nYes", template), "Answer: Yes");
    assert_eq!(clean(" ### Answer: Yes ", template), "Answer: Yes");
    assert_eq!(clean("### Answer:\nYes. Answer:\nNo", template), "Answer: Yes. Answer: No");
    assert_eq!(clean("### Answers", template), "Answers");
    assert_eq!(clean("Answer:\nYes", template), "Answer:\nYes");
    assert_eq!(clean("  ## A ", template), "## A");
}

#[test]
fn other_templates_only_trim() {
    for template in [PromptTemplateType::CodeLlama, PromptTemplateType::Qwen2vl] {
        assert_eq!(clean("\n\t Hi there </s> \u{3000}", template), "Hi there </s>");
        assert_eq!(clean("", template), "");
        assert_eq!(clean(" \n", template), "");
    }
}

fn corpus() -> Vec<String> {
    let pieces = [
        "", " ", "\n", "Hi", "a b", "</s>", "</s><", "<", "<|im_start|>", "<|im_end|>",
        "<|end_of_turn|>", "<end_of_turn>", "<|eot_id|>", "<|end|>", "<|end_of_sentence|>",
        "Human:", "\u{7528}\u{6237}:", "###", "### Answer", "Answer:\n", "Answer: ", "#",
        "\u{3000}", "\u{1f600}",
    ];
    let mut outputs: Vec<String> = Vec::new();
    for a in pieces {
        for b in pieces {
            outputs.push(format!("{}{}", a, b));
            for c in ["", " ", "x", "</s>", "### Answer:\nYes"] {
                outputs.push(format!("{}{}{}", a, c, b));
                outputs.push(format!("{}{}{}", c, a, b));
            }
        }
    }
    outputs
}

#[test]
fn cleaning_a_cleaned_text_again_changes_nothing() {
    for template in ALL {
        for output in corpus() {
            let once = clean(&output, template);
            assert_eq!(clean(&once, template), once, "{:?} {:?}", template, output);
        }
    }
}

#[test]
fn cleaned_text_is_trimmed_and_no_longer() {
    for template in ALL {
        for output in corpus() {
            let once = clean(&output, template);
            assert_eq!(once.trim(), once, "{:?} {:?}", template, output);
            assert!(once.len() <= output.len(), "{:?} {:?}", template, output);
            assert!(once.chars().count() <= output.chars().count());
        }
    }
}

/// Sentinels and white space taken from the end until neither stands there,
/// and the white space from the start, with the string functions of std.
fn strip(output: &str, sentinels: &[&str]) -> String {
    let mut text = output;
    loop {
        let before = text.len();
        text = text.trim_end();
        for sentinel in sentinels {
            if before == text.len() {
                if let Some(rest) = text.strip_suffix(sentinel) {
                    text = rest;
                }
            }
        }
        if before == text.len() {
            return text.trim_start().to_owned();
        }
    }
}

/// The cleaning, written with the string functions of std.
fn by_std(output: &str, template: PromptTemplateType) -> String {
    match template {
        PromptTemplateType::Baichuan2 => strip(output, &["\u{7528}\u{6237}:"]),
        PromptTemplateType::OpenChat => strip(output, &["<|end_of_turn|>"]),
        PromptTemplateType::HumanAssistant => strip(output, &["Human:"]),
        PromptTemplateType::GemmaInstruct => strip(output, &["<end_of_turn>"]),
        PromptTemplateType::Llama2Chat => strip(output, &["</s>"]),
        PromptTemplateType::Llama3Chat => strip(output, &["<|eot_id|>"]),
        PromptTemplateType::Phi3Chat => strip(output, &["<|end|>"]),
        PromptTemplateType::Zephyr
        | PromptTemplateType::MistralLite
        | PromptTemplateType::MistralTool
        | PromptTemplateType::MistralInstruct => strip(output, &["</s><", "</s>"]),
        PromptTemplateType::ChatML | PromptTemplateType::ChatMLTool => {
            let start = output.find("<|im_start|>");
            let end = output.find("<|im_end|>");
            let cut = match (start, end) {
                (Some(start), Some(end)) => start.min(end),
                (Some(start), None) => start,
                (None, Some(end)) => end,
                (None, None) => output.len(),
            };
            output[..cut].trim().to_owned()
        }
        PromptTemplateType::DeepseekChat => {
            if output.contains("<|end_of_sentence|>") {
                output
                    .trim_end_matches("<|end_of_sentence|>")
                    .trim()
                    .replace("<|end_of_sentence|>", " ")
                    .trim()
                    .to_owned()
            } else {
                output.trim().to_owned()
            }
        }
        PromptTemplateType::SolarInstruct => {
            let text = output.trim();
            if text.starts_with("### Answer") {
                let answer = text.trim_start_matches("###").trim();
                if answer.starts_with("Answer:\n") {
                    answer.replace("Answer:\n", "Answer: ")
                } else {
                    answer.to_owned()
                }
            } else {
                text.to_owned()
            }
        }
        PromptTemplateType::CodeLlama | PromptTemplateType::Qwen2vl => output.trim().to_owned(),
    }
}

#[test]
fn cleaning_is_what_the_string_functions_of_std_give() {
    for template in ALL {
        for output in corpus() {
            assert_eq!(
                post_process(&output, &template),
                Ok(by_std(&output, template)),
                "{:?} {:?}",
                template,
                output
            );
        }
    }
}
