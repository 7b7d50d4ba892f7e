//! Post-processing: what is left of a raw generation once the sentinels of
//! its prompt template are taken away.
//!
//! Cleaning is a function of the generation and the template: it never
//! fails, gives a text without white space around it that is no longer than
//! the generation, and gives a cleaned text back as it is.

use crate::template::PromptTemplateType;
use crate::text::{
    before, before_first, contains, has_prefix, has_suffix, holds, is_trimmed, is_white_space,
    is_whitespace, lemma_holds, lemma_occurrence_in_range, lemma_occurs_in_part,
    lemma_part_holds_none, lemma_replaced_holds_none, lemma_replaced_is_no_longer,
    lemma_replaced_last, lemma_trimmed, lemma_without_leading_space,
    lemma_without_prefixes_is_no_longer, lemma_without_suffixes_is_no_longer, occurs, occurs_at,
    replace, replaced, slice, starts_with, to_chars, to_string, trim, trim_end_matches,
    trim_start, trim_start_matches, trimmed, without_leading_space, without_prefixes,
    without_suffixes, without_trailing_space,
};
use vstd::prelude::*;

verus! {

/// How a template's generations are cleaned.
pub enum Cleaning {
    /// The sentinel and white space are taken from the end until neither
    /// stands there, then the white space from the start.
    Sentinel(Seq<char>),
    /// As with one sentinel, for the two sentinels `</s><` and `</s>`.
    Mistral,
    /// What follows the first of the two ChatML markers is cut off.
    ChatML,
    /// Trailing sentinels are taken away, those within become a space.
    Deepseek,
    /// The heading `### Answer` loses its hashes.
    Solar,
    /// Only the white space around the text is taken.
    Plain,
}

/// How the generations of `template` are cleaned.
pub open spec fn cleaning(template: PromptTemplateType) -> Cleaning {
    match template {
        PromptTemplateType::Baichuan2 => Cleaning::Sentinel("\u{7528}\u{6237}:"@),
        PromptTemplateType::OpenChat => Cleaning::Sentinel("<|end_of_turn|>"@),
        PromptTemplateType::HumanAssistant => Cleaning::Sentinel("Human:"@),
        PromptTemplateType::GemmaInstruct => Cleaning::Sentinel("<end_of_turn>"@),
        PromptTemplateType::Llama2Chat => Cleaning::Sentinel("</s>"@),
        PromptTemplateType::Llama3Chat => Cleaning::Sentinel("<|eot_id|>"@),
        PromptTemplateType::Phi3Chat => Cleaning::Sentinel("<|end|>"@),
        PromptTemplateType::ChatML => Cleaning::ChatML,
        PromptTemplateType::ChatMLTool => Cleaning::ChatML,
        PromptTemplateType::Zephyr => Cleaning::Mistral,
        PromptTemplateType::MistralLite => Cleaning::Mistral,
        PromptTemplateType::MistralTool => Cleaning::Mistral,
        PromptTemplateType::MistralInstruct => Cleaning::Mistral,
        PromptTemplateType::DeepseekChat => Cleaning::Deepseek,
        PromptTemplateType::SolarInstruct => Cleaning::Solar,
        PromptTemplateType::CodeLlama => Cleaning::Plain,
        PromptTemplateType::Qwen2vl => Cleaning::Plain,
    }
}

/// `s` without what trails it: white space and the sentinels `a` and `b`
/// are taken from its end, one after the other, until none of them stands
/// there. An empty sentinel stands for none.
pub open spec fn without_trailing(s: Seq<char>, a: Seq<char>, b: Seq<char>) -> Seq<char>
    decreases s.len(),
{
    if s.len() > 0 && is_white_space(s.last()) {
        without_trailing(s.drop_last(), a, b)
    } else if a.len() > 0 && has_suffix(s, a) {
        without_trailing(s.subrange(0, s.len() - a.len()), a, b)
    } else if b.len() > 0 && has_suffix(s, b) {
        without_trailing(s.subrange(0, s.len() - b.len()), a, b)
    } else {
        s
    }
}

/// `s` without the sentinels and the white space at its end, and without the
/// white space at its start.
pub open spec fn without_sentinels(s: Seq<char>, a: Seq<char>, b: Seq<char>) -> Seq<char> {
    without_leading_space(without_trailing(s, a, b))
}

/// What stands in `s` before the first of `a` and `b`.
pub open spec fn before_either(s: Seq<char>, a: Seq<char>, b: Seq<char>) -> Seq<char> {
    if before_first(s, a).len() <= before_first(s, b).len() {
        before_first(s, a)
    } else {
        before_first(s, b)
    }
}

/// The cleaned text of a ChatML generation: what stands before the first
/// `<|im_start|>` or `<|im_end|>`, without the white space around it.
pub open spec fn cleaned_chatml(output: Seq<char>) -> Seq<char> {
    trimmed(before_either(output, "<|im_start|>"@, "<|im_end|>"@))
}

/// The cleaned text of a generation in the Mistral family: without the
/// sentinels `</s><` and `</s>` and the white space at its end, and without
/// the white space at its start.
pub open spec fn cleaned_mistral(output: Seq<char>) -> Seq<char> {
    without_sentinels(output, "</s><"@, "</s>"@)
}

/// The cleaned text of a Deepseek generation: without the sentinels at its
/// end, with a space for each sentinel within, and without white space
/// around it.
pub open spec fn cleaned_deepseek(output: Seq<char>) -> Seq<char> {
    let sentinel = "<|end_of_sentence|>"@;
    if holds(output, sentinel) {
        trimmed(replaced(trimmed(without_suffixes(output, sentinel)), sentinel, " "@))
    } else {
        trimmed(output)
    }
}

/// The cleaned text of a Solar generation: without the white space around
/// it; where it begins with `### Answer`, without the hashes and the white
/// space after them; and where it begins with `Answer:` and a line break
/// then, with a space for each such line break.
pub open spec fn cleaned_solar(output: Seq<char>) -> Seq<char> {
    let text = trimmed(output);
    if has_prefix(text, "### Answer"@) {
        let answer = trimmed(without_prefixes(text, "###"@));
        if has_prefix(answer, "Answer:\n"@) {
            replaced(answer, "Answer:\n"@, "Answer: "@)
        } else {
            answer
        }
    } else {
        text
    }
}

/// The cleaned text of the raw generation `output` under `template`.
pub open spec fn cleaned(output: Seq<char>, template: PromptTemplateType) -> Seq<char> {
    match cleaning(template) {
        Cleaning::Sentinel(sentinel) => without_sentinels(output, sentinel, seq![]),
        Cleaning::Mistral => cleaned_mistral(output),
        Cleaning::ChatML => cleaned_chatml(output),
        Cleaning::Deepseek => cleaned_deepseek(output),
        Cleaning::Solar => cleaned_solar(output),
        Cleaning::Plain => trimmed(output),
    }
}

/// `output` without the sentinels and the white space at its end, and
/// without the white space at its start.
fn strip_sentinels(output: &Vec<char>, first: &Vec<char>, second: &Vec<char>) -> (text: Vec<char>)
    ensures
        text@ == without_sentinels(output@, first@, second@),
{
    let mut end: usize = output.len();
    let mut going: bool = true;
    assert(output@.subrange(0, end as int) =~= output@);
    while going
        invariant
            end <= output.len(),
            without_trailing(output@, first@, second@) == without_trailing(
                output@.subrange(0, end as int),
                first@,
                second@,
            ),
            !going ==> without_trailing(output@.subrange(0, end as int), first@, second@)
                == output@.subrange(0, end as int),
        decreases end, (if going { 1int } else { 0int }),
    {
        let ghost head = output@.subrange(0, end as int);
        if end > 0 && is_whitespace(output[end - 1]) {
            assert(head.drop_last() =~= output@.subrange(0, end - 1));
            end = end - 1;
        } else if first.len() > 0 && first.len() <= end && occurs(output, first, end - first.len()) {
            assert(head.subrange(end - first.len(), end as int) =~= output@.subrange(
                end - first.len(),
                end as int,
            ));
            assert(head.subrange(0, end - first.len()) =~= output@.subrange(
                0,
                end - first.len(),
            ));
            end = end - first.len();
        } else if second.len() > 0 && second.len() <= end && occurs(
            output,
            second,
            end - second.len(),
        ) {
            assert(first.len() > 0 && first.len() <= end ==> head.subrange(
                end - first.len(),
                end as int,
            ) =~= output@.subrange(end - first.len(), end as int));
            assert(head.subrange(end - second.len(), end as int) =~= output@.subrange(
                end - second.len(),
                end as int,
            ));
            assert(head.subrange(0, end - second.len()) =~= output@.subrange(
                0,
                end - second.len(),
            ));
            end = end - second.len();
        } else {
            assert(first.len() > 0 && first.len() <= end ==> head.subrange(
                end - first.len(),
                end as int,
            ) =~= output@.subrange(end - first.len(), end as int));
            assert(second.len() > 0 && second.len() <= end ==> head.subrange(
                end - second.len(),
                end as int,
            ) =~= output@.subrange(end - second.len(), end as int));
            going = false;
        }
    }
    trim_start(&slice(output, 0, end))
}

/// Strips the sentinels of the prompt template from a raw generation.
///
/// The result is always `Ok`, and its text is [`cleaned`]: the generation
/// without the sentinels of the template and without white space around it.
/// The text neither begins nor ends with white space, is no longer than the
/// generation, and cleaning it once more gives it again.
pub fn post_process(output: &str, template_ty: &PromptTemplateType) -> (result: Result<
    String,
    String,
>)
    ensures
        result matches Ok(text) && text@ == cleaned(output@, *template_ty),
        result matches Ok(text) && is_trimmed(text@) && text@.len() <= output@.len() && cleaned(
            text@,
            *template_ty,
        ) == text@,
{
    let raw = to_chars(output);
    let none: Vec<char> = Vec::new();
    let text: Vec<char> = match template_ty {
        PromptTemplateType::Baichuan2 => strip_sentinels(
            &raw,
            &to_chars("\u{7528}\u{6237}:"),
            &none,
        ),
        PromptTemplateType::OpenChat => strip_sentinels(&raw, &to_chars("<|end_of_turn|>"), &none),
        PromptTemplateType::HumanAssistant => strip_sentinels(&raw, &to_chars("Human:"), &none),
        PromptTemplateType::GemmaInstruct => strip_sentinels(
            &raw,
            &to_chars("<end_of_turn>"),
            &none,
        ),
        PromptTemplateType::Llama2Chat => strip_sentinels(&raw, &to_chars("</s>"), &none),
        PromptTemplateType::Llama3Chat => strip_sentinels(&raw, &to_chars("<|eot_id|>"), &none),
        PromptTemplateType::Phi3Chat => strip_sentinels(&raw, &to_chars("<|end|>"), &none),
        PromptTemplateType::ChatML | PromptTemplateType::ChatMLTool => {
            let start = before(&raw, &to_chars("<|im_start|>"));
            let end = before(&raw, &to_chars("<|im_end|>"));
            if start.len() <= end.len() {
                trim(&start)
            } else {
                trim(&end)
            }
        },
        PromptTemplateType::Zephyr
        | PromptTemplateType::MistralLite
        | PromptTemplateType::MistralTool
        | PromptTemplateType::MistralInstruct => strip_sentinels(
            &raw,
            &to_chars("</s><"),
            &to_chars("</s>"),
        ),
        PromptTemplateType::DeepseekChat => {
            let sentinel = to_chars("<|end_of_sentence|>");
            if contains(&raw, &sentinel) {
                let stripped = trim(&trim_end_matches(&raw, &sentinel));
                trim(&replace(&stripped, &sentinel, &to_chars(" ")))
            } else {
                trim(&raw)
            }
        },
        PromptTemplateType::SolarInstruct => {
            let text = trim(&raw);
            if starts_with(&text, &to_chars("### Answer")) {
                let answer = trim(&trim_start_matches(&text, &to_chars("###")));
                let heading = to_chars("Answer:\n");
                if starts_with(&answer, &heading) {
                    replace(&answer, &heading, &to_chars("Answer: "))
                } else {
                    answer
                }
            } else {
                text
            }
        },
        PromptTemplateType::CodeLlama | PromptTemplateType::Qwen2vl => trim(&raw),
    };
    proof {
        assert(none@ =~= Seq::<char>::empty());
        lemma_post_process_idempotent(output@, *template_ty);
        lemma_cleaned_is_trimmed_and_no_longer(output@, *template_ty);
    }
    Ok(to_string(&text))
}

/// What is left without what trails a text is the start of the text, and
/// nothing trails it.
pub proof fn lemma_without_trailing(s: Seq<char>, a: Seq<char>, b: Seq<char>)
    ensures
        ({
            let t = without_trailing(s, a, b);
            &&& t.len() <= s.len()
            &&& t == s.subrange(0, t.len() as int)
            &&& t.len() > 0 ==> !is_white_space(t.last())
            &&& a.len() > 0 ==> !has_suffix(t, a)
            &&& b.len() > 0 ==> !has_suffix(t, b)
            &&& without_trailing(t, a, b) == t
        }),
    decreases s.len(),
{
    let t = without_trailing(s, a, b);
    if s.len() > 0 && is_white_space(s.last()) {
        lemma_without_trailing(s.drop_last(), a, b);
        assert(t =~= s.subrange(0, t.len() as int));
    } else if a.len() > 0 && has_suffix(s, a) {
        lemma_without_trailing(s.subrange(0, s.len() - a.len()), a, b);
        assert(t =~= s.subrange(0, t.len() as int));
    } else if b.len() > 0 && has_suffix(s, b) {
        lemma_without_trailing(s.subrange(0, s.len() - b.len()), a, b);
        assert(t =~= s.subrange(0, t.len() as int));
    } else {
        assert(s =~= s.subrange(0, s.len() as int));
    }
}

/// A text that ends with `p` ends with `p` when it is taken with more text
/// before it.
proof fn lemma_suffix_of_end(s: Seq<char>, from: int, p: Seq<char>)
    requires
        0 <= from <= s.len(),
        p.len() > 0,
        has_suffix(s.subrange(from, s.len() as int), p),
    ensures
        has_suffix(s, p),
{
    let end = s.subrange(from, s.len() as int);
    assert(end.subrange(end.len() - p.len(), end.len() as int) =~= s.subrange(
        s.len() - p.len(),
        s.len() as int,
    ));
}

/// A text without its sentinels is trimmed, is a part of the text, and has
/// no sentinels left to take.
pub proof fn lemma_without_sentinels(s: Seq<char>, a: Seq<char>, b: Seq<char>)
    ensures
        is_trimmed(without_sentinels(s, a, b)),
        without_sentinels(s, a, b).len() <= s.len(),
        without_sentinels(without_sentinels(s, a, b), a, b) == without_sentinels(s, a, b),
{
    let end = without_trailing(s, a, b);
    let text = without_sentinels(s, a, b);
    lemma_without_trailing(s, a, b);
    lemma_without_leading_space(end);
    if text.len() > 0 {
        assert(text.last() == end.last());
        if a.len() > 0 && has_suffix(text, a) {
            lemma_suffix_of_end(end, end.len() - text.len(), a);
        }
        if b.len() > 0 && has_suffix(text, b) {
            lemma_suffix_of_end(end, end.len() - text.len(), b);
        }
    }
    assert(without_trailing(text, a, b) == text);
    assert(without_leading_space(text) == text);
}

/// What stands before the first `p` holds no `p`, and neither does any
/// shorter start of the text.
proof fn lemma_start_holds_none(s: Seq<char>, p: Seq<char>, k: int)
    requires
        p.len() > 0,
        0 <= k <= before_first(s, p).len(),
    ensures
        !holds(s.subrange(0, k), p),
{
    lemma_occurrence_in_range(s, p, 0);
    lemma_holds(s.subrange(0, k), p);
    if holds(s.subrange(0, k), p) {
        let j = choose|j: int| occurs_at(s.subrange(0, k), p, j);
        lemma_occurs_in_part(s, 0, k, p, j);
    }
}

/// A cleaned ChatML text holds neither of the two markers.
proof fn lemma_chatml_holds_none(output: Seq<char>)
    ensures
        !holds(cleaned_chatml(output), "<|im_start|>"@),
        !holds(cleaned_chatml(output), "<|im_end|>"@),
{
    reveal_strlit("<|im_start|>");
    reveal_strlit("<|im_end|>");
    let start = "<|im_start|>"@;
    let end = "<|im_end|>"@;
    let kept = before_either(output, start, end);
    lemma_occurrence_in_range(output, start, 0);
    lemma_occurrence_in_range(output, end, 0);
    assert(kept =~= output.subrange(0, kept.len() as int));
    lemma_start_holds_none(output, start, kept.len() as int);
    lemma_start_holds_none(output, end, kept.len() as int);
    let bounds = lemma_trimmed(kept);
    lemma_part_holds_none(kept, bounds.0, bounds.1, start);
    lemma_part_holds_none(kept, bounds.0, bounds.1, end);
}

/// A cleaned Deepseek text holds no sentinel.
proof fn lemma_deepseek_holds_none(output: Seq<char>)
    ensures
        !holds(cleaned_deepseek(output), "<|end_of_sentence|>"@),
{
    reveal_strlit("<|end_of_sentence|>");
    reveal_strlit(" ");
    let sentinel = "<|end_of_sentence|>"@;
    if holds(output, sentinel) {
        let stripped = trimmed(without_suffixes(output, sentinel));
        let spaced = replaced(stripped, sentinel, " "@);
        assert forall|j: int| !occurs_at(spaced, sentinel, j) by {
            lemma_replaced_holds_none(stripped, sentinel, " "@, 0, j);
        }
        lemma_holds(spaced, sentinel);
        let bounds = lemma_trimmed(spaced);
        lemma_part_holds_none(spaced, bounds.0, bounds.1, sentinel);
    } else {
        let bounds = lemma_trimmed(output);
        lemma_part_holds_none(output, bounds.0, bounds.1, sentinel);
    }
}

/// A cleaned Solar text is trimmed and does not begin with a hash.
proof fn lemma_solar_settled(output: Seq<char>)
    ensures
        is_trimmed(cleaned_solar(output)),
        !has_prefix(cleaned_solar(output), "### Answer"@),
{
    reveal_strlit("### Answer");
    reveal_strlit("###");
    reveal_strlit("Answer:\n");
    reveal_strlit("Answer: ");
    let heading = "### Answer"@;
    let hashes = "###"@;
    let text = trimmed(output);
    let _ = lemma_trimmed(output);
    if has_prefix(text, heading) {
        assert(text.subrange(0, 10) == heading);
        assert forall|k: int| 0 <= k < 10 implies text[k] == heading[k] by {
            assert(text.subrange(0, 10)[k] == text[k]);
        }
        assert(text.subrange(0, 3) =~= hashes);
        let tail = text.subrange(3, text.len() as int);
        assert(tail[0] == ' ');
        assert(tail[1] == 'A');
        assert(!has_prefix(tail, hashes)) by {
            if has_prefix(tail, hashes) {
                assert(tail.subrange(0, 3)[0] == tail[0]);
            }
        }
        assert(without_prefixes(tail, hashes) == tail);
        assert(without_prefixes(text, hashes) == tail);
        let inner = tail.drop_first();
        assert(inner[0] == 'A');
        assert(without_leading_space(inner) == inner);
        assert(without_leading_space(tail) == inner);
        crate::text::lemma_without_trailing_space(inner);
        let answer = trimmed(tail);
        assert(answer == without_trailing_space(inner));
        assert(answer[0] == inner[0]);
        let _ = lemma_trimmed(tail);
        let label = "Answer:\n"@;
        if has_prefix(answer, label) {
            let spaced = replaced(answer, label, "Answer: "@);
            assert(answer.last() != '\n');
            lemma_replaced_last(answer, label, "Answer: "@, 0);
            assert(spaced[0] == 'A');
            if has_prefix(spaced, heading) {
                assert(spaced.subrange(0, 10)[0] == spaced[0]);
            }
        } else {
            if has_prefix(answer, heading) {
                assert(answer.subrange(0, 10)[0] == answer[0]);
            }
        }
    }
}

/// Post-processing is idempotent: cleaning a cleaned text once more gives it
/// again, for every output and every template.
pub proof fn lemma_post_process_idempotent(output: Seq<char>, template: PromptTemplateType)
    ensures
        cleaned(cleaned(output, template), template) == cleaned(output, template),
{
    match cleaning(template) {
        Cleaning::Sentinel(sentinel) => {
            lemma_without_sentinels(output, sentinel, seq![]);
        },
        Cleaning::Mistral => {
            lemma_without_sentinels(output, "</s><"@, "</s>"@);
        },
        Cleaning::ChatML => {
            lemma_chatml_holds_none(output);
            let _ = lemma_trimmed(before_either(output, "<|im_start|>"@, "<|im_end|>"@));
        },
        Cleaning::Deepseek => {
            lemma_deepseek_holds_none(output);
            let sentinel = "<|end_of_sentence|>"@;
            if holds(output, sentinel) {
                let _ = lemma_trimmed(
                    replaced(trimmed(without_suffixes(output, sentinel)), sentinel, " "@),
                );
            } else {
                let _ = lemma_trimmed(output);
            }
        },
        Cleaning::Solar => {
            lemma_solar_settled(output);
        },
        Cleaning::Plain => {
            let _ = lemma_trimmed(output);
        },
    }
}

/// What stands before the first `p` is no longer than the text.
proof fn lemma_before_first_is_no_longer(s: Seq<char>, p: Seq<char>)
    ensures
        before_first(s, p).len() <= s.len(),
{
    lemma_occurrence_in_range(s, p, 0);
}

/// A cleaned text neither begins nor ends with white space, and is no longer
/// than the generation that it was cleaned from.
pub proof fn lemma_cleaned_is_trimmed_and_no_longer(output: Seq<char>, template: PromptTemplateType)
    ensures
        is_trimmed(cleaned(output, template)),
        cleaned(output, template).len() <= output.len(),
{
    match cleaning(template) {
        Cleaning::Sentinel(sentinel) => {
            lemma_without_sentinels(output, sentinel, seq![]);
        },
        Cleaning::Mistral => {
            lemma_without_sentinels(output, "</s><"@, "</s>"@);
        },
        Cleaning::ChatML => {
            lemma_before_first_is_no_longer(output, "<|im_start|>"@);
            lemma_before_first_is_no_longer(output, "<|im_end|>"@);
            let _ = lemma_trimmed(before_either(output, "<|im_start|>"@, "<|im_end|>"@));
        },
        Cleaning::Deepseek => {
            reveal_strlit("<|end_of_sentence|>");
            reveal_strlit(" ");
            let sentinel = "<|end_of_sentence|>"@;
            let stripped = trimmed(without_suffixes(output, sentinel));
            lemma_without_suffixes_is_no_longer(output, sentinel);
            let _ = lemma_trimmed(without_suffixes(output, sentinel));
            lemma_replaced_is_no_longer(stripped, sentinel, " "@, 0);
            let _ = lemma_trimmed(replaced(stripped, sentinel, " "@));
            let _ = lemma_trimmed(output);
        },
        Cleaning::Solar => {
            reveal_strlit("Answer:\n");
            reveal_strlit("Answer: ");
            lemma_solar_settled(output);
            let text = trimmed(output);
            let _ = lemma_trimmed(output);
            lemma_without_prefixes_is_no_longer(text, "###"@);
            let _ = lemma_trimmed(without_prefixes(text, "###"@));
            lemma_replaced_is_no_longer(
                trimmed(without_prefixes(text, "###"@)),
                "Answer:\n"@,
                "Answer: "@,
                0,
            );
        },
        Cleaning::Plain => {
            let _ = lemma_trimmed(output);
        },
    }
}

} // verus!
