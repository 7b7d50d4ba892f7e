//! Rendering: a prompt template turns a conversation into the one text that
//! the model was trained on.

use crate::error::{ErrorView, LlamaCoreError, PromptError};
use crate::qwen::Qwen2vlPrompt;
use crate::request::{ChatCompletionRequest, ChatCompletionRequestMessage, Tool};
use crate::template::PromptTemplateType;
use vstd::prelude::*;

verus! {

/// A prompt template.
///
/// A template walks the turns of a conversation in their order and leaves
/// them as they are. What it renders is a function of the conversation and
/// the tools alone: [`prompt_of`](BuildChatPrompt::prompt_of).
pub trait BuildChatPrompt {
    /// The prompt of a conversation, with the tools that are offered.
    spec fn prompt_of(
        &self,
        messages: Seq<ChatCompletionRequestMessage>,
        tools: Option<Seq<Tool>>,
    ) -> Result<Seq<char>, PromptError>;

    /// Renders a conversation without tools.
    fn build(&self, messages: &mut Vec<ChatCompletionRequestMessage>) -> (r: Result<
        String,
        PromptError,
    >)
        ensures
            *final(messages) == *old(messages),
            match r {
                Ok(prompt) => self.prompt_of(old(messages)@, None) == Ok::<Seq<char>, PromptError>(
                    prompt@,
                ),
                Err(e) => self.prompt_of(old(messages)@, None) == Err::<Seq<char>, PromptError>(e),
            },
    ;

    /// Renders a conversation with the tools that are offered.
    fn build_with_tools(
        &self,
        messages: &mut Vec<ChatCompletionRequestMessage>,
        tools: Option<&[Tool]>,
    ) -> (r: Result<String, PromptError>)
        ensures
            *final(messages) == *old(messages),
            match r {
                Ok(prompt) => self.prompt_of(old(messages)@, tools_view(tools)) == Ok::<
                    Seq<char>,
                    PromptError,
                >(prompt@),
                Err(e) => self.prompt_of(old(messages)@, tools_view(tools)) == Err::<
                    Seq<char>,
                    PromptError,
                >(e),
            },
    ;
}

/// The prompt template of a graph, ready to render.
#[derive(Debug, Clone)]
pub enum ChatPrompt {
    Qwen2vl(Qwen2vlPrompt),
}

impl ChatPrompt {
    /// Whether the template is one that renders here.
    pub open spec fn renders(template: PromptTemplateType) -> bool {
        template == PromptTemplateType::Qwen2vl
    }

    /// The renderer of the given template; `None` for a template that has
    /// none here.
    pub fn from_template(template: PromptTemplateType) -> (prompt: Option<ChatPrompt>)
        ensures
            prompt is Some == Self::renders(template),
    {
        match template {
            PromptTemplateType::Qwen2vl => Some(ChatPrompt::Qwen2vl(Qwen2vlPrompt)),
            _ => None,
        }
    }
}

impl BuildChatPrompt for ChatPrompt {
    /// The prompt of a conversation under the template.
    open spec fn prompt_of(
        &self,
        messages: Seq<ChatCompletionRequestMessage>,
        tools: Option<Seq<Tool>>,
    ) -> Result<Seq<char>, PromptError> {
        match *self {
            ChatPrompt::Qwen2vl(prompt) => prompt.prompt_of(messages, tools),
        }
    }

    fn build(&self, messages: &mut Vec<ChatCompletionRequestMessage>) -> (r: Result<
        String,
        PromptError,
    >) {
        match self {
            ChatPrompt::Qwen2vl(prompt) => prompt.build(messages),
        }
    }

    fn build_with_tools(
        &self,
        messages: &mut Vec<ChatCompletionRequestMessage>,
        tools: Option<&[Tool]>,
    ) -> (r: Result<String, PromptError>) {
        match self {
            ChatPrompt::Qwen2vl(prompt) => prompt.build_with_tools(messages, tools),
        }
    }
}

/// The tools that are offered, as a sequence.
pub open spec fn tools_view(tools: Option<&[Tool]>) -> Option<Seq<Tool>> {
    match tools {
        Some(tools) => Some(tools@),
        None => None,
    }
}

/// The tools that a request puts to use: those that it offers, where the
/// model may call tools, and none where it may not.
pub open spec fn tools_in_use(request: ChatCompletionRequest) -> Option<Seq<Tool>> {
    if request.spec_tool_use() {
        Some(request.tools->0@)
    } else {
        None
    }
}

/// Renders the prompt of a request, and says whether tools are in use.
///
/// Tools are in use where the request makes a tool choice other than
/// `NoTool` and offers at least one tool; the prompt is rendered with the
/// tools then, and without them otherwise. The request stays as it is.
pub fn build_prompt<P: BuildChatPrompt>(
    chat_prompt: &P,
    chat_request: &mut ChatCompletionRequest,
) -> (r: Result<(String, bool), LlamaCoreError>)
    ensures
        *final(chat_request) == *old(chat_request),
        match chat_prompt.prompt_of(old(chat_request).messages@, tools_in_use(*old(chat_request))) {
            Ok(prompt) => r matches Ok((text, tool_use)) && text@ == prompt && tool_use == old(
                chat_request,
            ).spec_tool_use(),
            Err(e) => r matches Err(error) && error@ == ErrorView::Operation(
                "Fail to build chat prompts. Reason: "@ + e.text(),
            ),
        },
{
    let tool_use = chat_request.tool_use();
    let built = if tool_use {
        match &chat_request.tools {
            Some(tools) => chat_prompt.build_with_tools(
                &mut chat_request.messages,
                Some(tools.as_slice()),
            ),
            None => chat_prompt.build_with_tools(&mut chat_request.messages, None),
        }
    } else {
        chat_prompt.build_with_tools(&mut chat_request.messages, None)
    };
    match built {
        Ok(prompt) => Ok((prompt, tool_use)),
        Err(e) => {
            let reason = e.message();
            Err(
                LlamaCoreError::operation_with(
                    "Fail to build chat prompts. Reason: ",
                    reason.as_str(),
                ),
            )
        },
    }
}

} // verus!
