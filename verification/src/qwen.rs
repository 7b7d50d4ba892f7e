//! The prompt template of Qwen2-VL.

use crate::error::PromptError;
use crate::image::{get_image_format, image_format};
use crate::prompt::BuildChatPrompt;
use crate::request::{
    ChatCompletionAssistantMessage, ChatCompletionRequestMessage, ChatCompletionSystemMessage,
    ChatCompletionUserMessage, ChatCompletionUserMessageContent, ContentPart, Image, Tool,
};
use crate::text::{trim_str, trimmed};
use vstd::prelude::*;

verus! {

/// The prompt template of Qwen2-VL.
#[derive(Debug, Default, Clone)]
pub struct Qwen2vlPrompt;

/// The system turn of a conversation that brings none, or an empty one.
pub open spec fn default_system_prompt() -> Seq<char> {
    "<|im_start|>system\nAnswer as concisely as possible.<|im_end|>"@
}

/// The system turn that `message` makes.
pub open spec fn system_prompt_of(message: ChatCompletionSystemMessage) -> Seq<char> {
    if message.content@.len() == 0 {
        default_system_prompt()
    } else {
        "<|im_start|>system\n"@ + message.content@ + "<|im_end|>"@
    }
}

/// The system turn of a conversation: that of its first turn, where that is
/// a system turn, and the default where it is not.
pub open spec fn system_prompt(messages: Seq<ChatCompletionRequestMessage>) -> Seq<char> {
    match messages[0] {
        ChatCompletionRequestMessage::System(message) => system_prompt_of(message),
        _ => default_system_prompt(),
    }
}

/// A user turn with the given body, after `opening`: after nothing, where
/// `opening` is empty.
pub open spec fn user_turn(opening: Seq<char>, body: Seq<char>) -> Seq<char> {
    if opening.len() == 0 {
        "<|im_start|>user\n"@ + body + "<|im_end|>"@
    } else {
        trimmed(opening) + "\n<|im_start|>user\n"@ + body + "<|im_end|>"@
    }
}

/// The texts among `parts`, each followed by a line break.
pub open spec fn parts_text(parts: Seq<ContentPart>) -> Seq<char>
    decreases parts.len(),
{
    if parts.len() == 0 {
        seq![]
    } else {
        parts_text(parts.drop_last()) + match parts.last() {
            ContentPart::Text(text) => text@ + "\n"@,
            ContentPart::Image(_) => seq![],
        }
    }
}

/// What stands for an image in a prompt: a placeholder for one that is
/// referred to, and an inline image of its format for one that is given.
pub open spec fn image_content(image: Image) -> Result<Seq<char>, PromptError> {
    match image {
        Image::Url(_) => Ok("<image>"@),
        Image::Base64(data) => match image_format(data@) {
            Some(format) => Ok(
                "<img src=\"data:image/"@ + format + ";base64,"@ + data@ + "\">"@,
            ),
            None => Err(PromptError::BadImageFormat),
        },
    }
}

/// The images among `parts`, each between the vision markers; the error of
/// the first image that has none.
pub open spec fn parts_images(parts: Seq<ContentPart>) -> Result<Seq<char>, PromptError>
    decreases parts.len(),
{
    if parts.len() == 0 {
        Ok(seq![])
    } else {
        match parts_images(parts.drop_last()) {
            Ok(before) => match parts.last() {
                ContentPart::Text(_) => Ok(before),
                ContentPart::Image(image) => match image_content(image) {
                    Ok(content) => Ok(
                        before + "<|vision_start|>"@ + trimmed(content) + "<|vision_end|>"@,
                    ),
                    Err(e) => Err(e),
                },
            },
            Err(e) => Err(e),
        }
    }
}

/// The conversation so far with a user turn appended. The first user turn
/// follows the system turn.
pub open spec fn with_user(
    history: Seq<char>,
    system: Seq<char>,
    message: ChatCompletionUserMessage,
) -> Result<Seq<char>, PromptError> {
    match message.content {
        ChatCompletionUserMessageContent::Text(content) => Ok(
            user_turn(
                if history.len() == 0 {
                    system
                } else {
                    history
                },
                trimmed(content@),
            ),
        ),
        ChatCompletionUserMessageContent::Parts(parts) => match parts_images(parts@) {
            Ok(images) => Ok(
                trimmed(
                    if history.len() == 0 {
                        system
                    } else {
                        history
                    },
                ) + "\n<|im_start|>user\n"@ + (trimmed(images) + trimmed(parts_text(parts@)))
                    + "<|im_end|>"@,
            ),
            Err(e) => Err(e),
        },
    }
}

/// The conversation so far with an assistant turn appended. A turn without
/// content is an empty turn if it calls tools, and an error if not.
pub open spec fn with_assistant(history: Seq<char>, message: ChatCompletionAssistantMessage) -> Result<
    Seq<char>,
    PromptError,
> {
    match message.content {
        Some(content) => Ok(trimmed(history) + "\nASSISTANT: "@ + trimmed(content@)),
        None => if message.tool_calls is Some {
            Ok(trimmed(history) + "\nASSISTANT: "@)
        } else {
            Err(PromptError::NoAssistantMessage)
        },
    }
}

/// The conversation so far with one more turn: system and tool turns add
/// nothing.
pub open spec fn with_turn(
    history: Seq<char>,
    system: Seq<char>,
    message: ChatCompletionRequestMessage,
) -> Result<Seq<char>, PromptError> {
    match message {
        ChatCompletionRequestMessage::User(message) => with_user(history, system, message),
        ChatCompletionRequestMessage::Assistant(message) => with_assistant(history, message),
        _ => Ok(history),
    }
}

/// The turns of `messages`, rendered one after the other; the error of the
/// first turn that cannot be rendered.
pub open spec fn turns(messages: Seq<ChatCompletionRequestMessage>, system: Seq<char>) -> Result<
    Seq<char>,
    PromptError,
>
    decreases messages.len(),
{
    if messages.len() == 0 {
        Ok(seq![])
    } else {
        match turns(messages.drop_last(), system) {
            Ok(history) => with_turn(history, system, messages.last()),
            Err(e) => Err(e),
        }
    }
}

/// The Qwen2-VL prompt of a conversation: its turns, and the opening of the
/// assistant's turn. A conversation without turns has none.
pub open spec fn qwen2vl_prompt(messages: Seq<ChatCompletionRequestMessage>) -> Result<
    Seq<char>,
    PromptError,
> {
    if messages.len() == 0 {
        Err(PromptError::NoMessages)
    } else {
        match turns(messages, system_prompt(messages)) {
            Ok(history) => Ok(history + "\n<|im_start|>assistant"@),
            Err(e) => Err(e),
        }
    }
}

impl Qwen2vlPrompt {
    /// The system turn that `message` makes.
    fn create_system_prompt(&self, message: &ChatCompletionSystemMessage) -> (prompt: String)
        ensures
            prompt@ == system_prompt_of(*message),
    {
        if message.content.as_str().is_empty() {
            String::from_str("<|im_start|>system\nAnswer as concisely as possible.<|im_end|>")
        } else {
            let mut prompt = String::from_str("<|im_start|>system\n");
            prompt.append(message.content.as_str());
            prompt.append("<|im_end|>");
            prompt
        }
    }

    /// What stands for the images among `parts`.
    fn image_embeddings(&self, parts: &Vec<ContentPart>) -> (r: Result<String, PromptError>)
        ensures
            match parts_images(parts@) {
                Ok(images) => r matches Ok(text) && text@ == images,
                Err(e) => r == Err::<String, PromptError>(e),
            },
    {
        let mut embeddings = String::new();
        let mut i: usize = 0;
        while i < parts.len()
            invariant
                i <= parts.len(),
                parts_images(parts@.take(i as int)) == Ok::<Seq<char>, PromptError>(embeddings@),
            decreases parts.len() - i,
        {
            assert(parts@.take(i + 1).drop_last() =~= parts@.take(i as int));
            match &parts[i] {
                ContentPart::Text(_) => {},
                ContentPart::Image(image) => {
                    let content = match image {
                        Image::Url(_) => String::from_str("<image>"),
                        Image::Base64(data) => {
                            let format = match get_image_format(data.as_str()) {
                                Ok(format) => format,
                                Err(e) => {
                                    proof {
                                        lemma_images_error(parts@, i + 1);
                                    }
                                    return Err(e);
                                },
                            };
                            let mut content = String::from_str("<img src=\"data:image/");
                            content.append(format.as_str());
                            content.append(";base64,");
                            content.append(data.as_str());
                            content.append("\">");
                            content
                        },
                    };
                    embeddings.append("<|vision_start|>");
                    embeddings.append(trim_str(content.as_str()).as_str());
                    embeddings.append("<|vision_end|>");
                },
            }
            i = i + 1;
        }
        assert(parts@.take(parts.len() as int) =~= parts@);
        Ok(embeddings)
    }

    /// The texts among `parts`, each followed by a line break.
    fn text_of_parts(&self, parts: &Vec<ContentPart>) -> (text: String)
        ensures
            text@ == parts_text(parts@),
    {
        let mut text = String::new();
        let mut i: usize = 0;
        while i < parts.len()
            invariant
                i <= parts.len(),
                text@ == parts_text(parts@.take(i as int)),
            decreases parts.len() - i,
        {
            assert(parts@.take(i + 1).drop_last() =~= parts@.take(i as int));
            match &parts[i] {
                ContentPart::Text(part) => {
                    text.append(part.as_str());
                    text.append("\n");
                },
                ContentPart::Image(_) => {},
            }
            i = i + 1;
        }
        assert(parts@.take(parts.len() as int) =~= parts@);
        text
    }

    /// The conversation so far with a user turn appended.
    fn append_user_message(
        &self,
        chat_history: &str,
        system_prompt: &str,
        message: &ChatCompletionUserMessage,
    ) -> (r: Result<String, PromptError>)
        ensures
            match with_user(chat_history@, system_prompt@, *message) {
                Ok(prompt) => r matches Ok(text) && text@ == prompt,
                Err(e) => r == Err::<String, PromptError>(e),
            },
    {
        let opening = if chat_history.is_empty() {
            system_prompt
        } else {
            chat_history
        };
        match &message.content {
            ChatCompletionUserMessageContent::Text(content) => {
                let body = trim_str(content.as_str());
                let mut prompt = if opening.is_empty() {
                    String::from_str("<|im_start|>user\n")
                } else {
                    let mut prompt = trim_str(opening);
                    prompt.append("\n<|im_start|>user\n");
                    prompt
                };
                prompt.append(body.as_str());
                prompt.append("<|im_end|>");
                Ok(prompt)
            },
            ChatCompletionUserMessageContent::Parts(parts) => {
                let images = match self.image_embeddings(parts) {
                    Ok(images) => images,
                    Err(e) => {
                        return Err(e);
                    },
                };
                let text = self.text_of_parts(parts);
                let mut prompt = trim_str(opening);
                prompt.append("\n<|im_start|>user\n");
                prompt.append(trim_str(images.as_str()).as_str());
                prompt.append(trim_str(text.as_str()).as_str());
                prompt.append("<|im_end|>");
                Ok(prompt)
            },
        }
    }

    /// The conversation so far with an assistant turn appended.
    fn append_assistant_message(
        &self,
        chat_history: &str,
        message: &ChatCompletionAssistantMessage,
    ) -> (r: Result<String, PromptError>)
        ensures
            match with_assistant(chat_history@, *message) {
                Ok(prompt) => r matches Ok(text) && text@ == prompt,
                Err(e) => r == Err::<String, PromptError>(e),
            },
    {
        let content = match &message.content {
            Some(content) => trim_str(content.as_str()),
            None => match &message.tool_calls {
                Some(_) => String::new(),
                None => {
                    return Err(PromptError::NoAssistantMessage);
                },
            },
        };
        let mut prompt = trim_str(chat_history);
        prompt.append("\nASSISTANT: ");
        prompt.append(content.as_str());
        Ok(prompt)
    }
}

/// The first image that has no content is an error of all the parts.
proof fn lemma_images_error(parts: Seq<ContentPart>, k: int)
    requires
        0 < k <= parts.len(),
        parts_images(parts.take(k)) is Err,
    ensures
        parts_images(parts) == parts_images(parts.take(k)),
    decreases parts.len() - k,
{
    if k == parts.len() {
        assert(parts.take(k) =~= parts);
    } else {
        assert(parts.take(k + 1).drop_last() =~= parts.take(k));
        lemma_images_error(parts, k + 1);
    }
}

/// The first turn that cannot be rendered is an error of all the turns.
proof fn lemma_turns_error(messages: Seq<ChatCompletionRequestMessage>, system: Seq<char>, k: int)
    requires
        0 < k <= messages.len(),
        turns(messages.take(k), system) is Err,
    ensures
        turns(messages, system) == turns(messages.take(k), system),
    decreases messages.len() - k,
{
    if k == messages.len() {
        assert(messages.take(k) =~= messages);
    } else {
        assert(messages.take(k + 1).drop_last() =~= messages.take(k));
        lemma_turns_error(messages, system, k + 1);
    }
}

impl BuildChatPrompt for Qwen2vlPrompt {
    /// The Qwen2-VL prompt of a conversation, whatever tools are offered.
    open spec fn prompt_of(
        &self,
        messages: Seq<ChatCompletionRequestMessage>,
        tools: Option<Seq<Tool>>,
    ) -> Result<Seq<char>, PromptError> {
        qwen2vl_prompt(messages)
    }

    /// Renders a conversation.
    ///
    /// The prompt begins with the system turn: that of the first message,
    /// where it is a system message with content, and the default where it
    /// is not. The turns of the user and of the assistant follow in their
    /// order, and the opening of the assistant's next turn closes the
    /// prompt. It is an error if the conversation is empty, if an assistant
    /// turn has neither content nor tool calls, and if a user turn holds an
    /// image of no known format.
    fn build(&self, messages: &mut Vec<ChatCompletionRequestMessage>) -> (r: Result<
        String,
        PromptError,
    >) {
        if messages.len() == 0 {
            return Err(PromptError::NoMessages);
        }
        let system_prompt = match &messages[0] {
            ChatCompletionRequestMessage::System(message) => self.create_system_prompt(message),
            _ => String::from_str(
                "<|im_start|>system\nAnswer as concisely as possible.<|im_end|>",
            ),
        };
        let mut prompt = String::new();
        let mut i: usize = 0;
        while i < messages.len()
            invariant
                i <= messages.len(),
                messages.len() > 0,
                *messages == *old(messages),
                system_prompt@ == crate::qwen::system_prompt(messages@),
                turns(messages@.take(i as int), system_prompt@) == Ok::<Seq<char>, PromptError>(
                    prompt@,
                ),
            decreases messages.len() - i,
        {
            assert(messages@.take(i + 1).drop_last() =~= messages@.take(i as int));
            let next = match &messages[i] {
                ChatCompletionRequestMessage::User(message) => self.append_user_message(
                    prompt.as_str(),
                    system_prompt.as_str(),
                    message,
                ),
                ChatCompletionRequestMessage::Assistant(message) => self.append_assistant_message(
                    prompt.as_str(),
                    message,
                ),
                _ => Ok(prompt),
            };
            match next {
                Ok(next) => {
                    prompt = next;
                },
                Err(e) => {
                    proof {
                        lemma_turns_error(messages@, system_prompt@, i + 1);
                    }
                    return Err(e);
                },
            }
            i = i + 1;
        }
        assert(messages@.take(messages.len() as int) =~= messages@);
        prompt.append("\n<|im_start|>assistant");
        Ok(prompt)
    }

    /// Renders a conversation; the template has no place for tools.
    fn build_with_tools(
        &self,
        messages: &mut Vec<ChatCompletionRequestMessage>,
        tools: Option<&[Tool]>,
    ) -> (r: Result<String, PromptError>) {
        self.build(messages)
    }
}

} // verus!
