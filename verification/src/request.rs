//! What a chat completion is asked with: the turns of the conversation, the
//! tools on offer, and the knobs of the request that the core reads.

use crate::response::{ChatCompletionRole, ToolCall};
use vstd::prelude::*;

verus! {

/// An image in a user turn: a reference to it, or the image itself.
#[derive(Debug, Clone, PartialEq, Eq)]
pub enum Image {
    /// The address of the image.
    Url(String),
    /// The bytes of the image in base64.
    Base64(String),
}

/// One part of a user turn that is made of parts.
#[derive(Debug, Clone, PartialEq, Eq)]
pub enum ContentPart {
    Text(String),
    Image(Image),
}

/// What a user says: one text, or parts of text and images.
#[derive(Debug, Clone, PartialEq, Eq)]
pub enum ChatCompletionUserMessageContent {
    Text(String),
    Parts(Vec<ContentPart>),
}

/// The turn that sets the scene.
#[derive(Debug, Clone, PartialEq, Eq)]
pub struct ChatCompletionSystemMessage {
    pub content: String,
}

/// A turn of the user.
#[derive(Debug, Clone, PartialEq, Eq)]
pub struct ChatCompletionUserMessage {
    pub content: ChatCompletionUserMessageContent,
}

/// A turn of the model. Its content may be missing only where it calls
/// tools.
#[derive(Debug, Clone, PartialEq, Eq)]
pub struct ChatCompletionAssistantMessage {
    pub content: Option<String>,
    pub tool_calls: Option<Vec<ToolCall>>,
}

/// The result of a tool call, fed back to the model.
#[derive(Debug, Clone, PartialEq, Eq)]
pub struct ChatCompletionToolMessage {
    pub content: String,
    pub tool_call_id: Option<String>,
}

/// One turn of a conversation.
#[derive(Debug, Clone, PartialEq, Eq)]
pub enum ChatCompletionRequestMessage {
    System(ChatCompletionSystemMessage),
    User(ChatCompletionUserMessage),
    Assistant(ChatCompletionAssistantMessage),
    Tool(ChatCompletionToolMessage),
}

impl ChatCompletionRequestMessage {
    /// Who speaks in the turn.
    pub open spec fn spec_role(self) -> ChatCompletionRole {
        match self {
            ChatCompletionRequestMessage::System(_) => ChatCompletionRole::System,
            ChatCompletionRequestMessage::User(_) => ChatCompletionRole::User,
            ChatCompletionRequestMessage::Assistant(_) => ChatCompletionRole::Assistant,
            ChatCompletionRequestMessage::Tool(_) => ChatCompletionRole::Tool,
        }
    }

    /// Who speaks in the turn.
    pub fn role(&self) -> (role: ChatCompletionRole)
        ensures
            role == self.spec_role(),
    {
        match self {
            ChatCompletionRequestMessage::System(_) => ChatCompletionRole::System,
            ChatCompletionRequestMessage::User(_) => ChatCompletionRole::User,
            ChatCompletionRequestMessage::Assistant(_) => ChatCompletionRole::Assistant,
            ChatCompletionRequestMessage::Tool(_) => ChatCompletionRole::Tool,
        }
    }

    /// A system turn with the given content.
    pub fn new_system_message(content: String) -> (message: ChatCompletionRequestMessage)
        ensures
            message == ChatCompletionRequestMessage::System(
                ChatCompletionSystemMessage { content },
            ),
    {
        ChatCompletionRequestMessage::System(ChatCompletionSystemMessage { content })
    }

    /// A user turn with the given text.
    pub fn new_user_message(content: String) -> (message: ChatCompletionRequestMessage)
        ensures
            message == ChatCompletionRequestMessage::User(
                ChatCompletionUserMessage { content: ChatCompletionUserMessageContent::Text(content) },
            ),
    {
        ChatCompletionRequestMessage::User(
            ChatCompletionUserMessage { content: ChatCompletionUserMessageContent::Text(content) },
        )
    }

    /// An assistant turn with the given content and tool calls.
    pub fn new_assistant_message(content: Option<String>, tool_calls: Option<Vec<ToolCall>>) -> (message:
        ChatCompletionRequestMessage)
        ensures
            message == ChatCompletionRequestMessage::Assistant(
                ChatCompletionAssistantMessage { content, tool_calls },
            ),
    {
        ChatCompletionRequestMessage::Assistant(
            ChatCompletionAssistantMessage { content, tool_calls },
        )
    }

    /// A tool turn with the given content.
    pub fn new_tool_message(content: String, tool_call_id: Option<String>) -> (message:
        ChatCompletionRequestMessage)
        ensures
            message == ChatCompletionRequestMessage::Tool(
                ChatCompletionToolMessage { content, tool_call_id },
            ),
    {
        ChatCompletionRequestMessage::Tool(ChatCompletionToolMessage { content, tool_call_id })
    }
}

/// A function that the model may call, with the JSON schema of its
/// parameters as text.
#[derive(Debug, Clone, PartialEq, Eq)]
pub struct Tool {
    pub name: String,
    pub description: Option<String>,
    pub parameters: Option<String>,
}

/// Whether, and which, tools the model may call.
#[derive(Debug, Clone, PartialEq, Eq)]
pub enum ToolChoice {
    /// The model calls no tool.
    NoTool,
    /// The model decides.
    Auto,
    /// The model calls the tool of this name.
    Named(String),
}

/// The options of a streamed answer.
#[derive(Debug, Clone, Copy, PartialEq, Eq, Structural)]
pub struct StreamOptions {
    pub include_usage: Option<bool>,
}

/// A request for a chat completion, as far as the core reads it. The
/// sampling settings belong to whoever owns the backend.
#[derive(Debug, Clone, PartialEq, Eq)]
pub struct ChatCompletionRequest {
    pub model: Option<String>,
    pub messages: Vec<ChatCompletionRequestMessage>,
    pub tools: Option<Vec<Tool>>,
    pub tool_choice: Option<ToolChoice>,
    pub max_tokens: Option<u64>,
    pub stream: Option<bool>,
    pub stream_options: Option<StreamOptions>,
    pub user: Option<String>,
}

impl ChatCompletionRequest {
    /// Whether the answer is streamed: only where the request says so.
    pub open spec fn spec_streams(self) -> bool {
        self.stream == Some(true)
    }

    /// Whether a streamed answer reports the usage: only where the request
    /// says so.
    pub open spec fn spec_include_usage(self) -> bool {
        self.stream_options matches Some(options) && options.include_usage == Some(true)
    }

    /// Whether the model may call tools: where the request makes a choice other
    /// than `NoTool` and offers at least one tool.
    pub open spec fn spec_tool_use(self) -> bool {
        &&& self.tool_choice matches Some(choice)
        &&& !(choice is NoTool)
        &&& self.tools matches Some(tools)
        &&& tools@.len() > 0
    }

    /// Whether the answer is streamed.
    pub fn streams(&self) -> (b: bool)
        ensures
            b == self.spec_streams(),
    {
        match self.stream {
            Some(true) => true,
            _ => false,
        }
    }

    /// Whether a streamed answer reports the usage.
    pub fn include_usage(&self) -> (b: bool)
        ensures
            b == self.spec_include_usage(),
    {
        match self.stream_options {
            Some(options) => match options.include_usage {
                Some(true) => true,
                _ => false,
            },
            None => false,
        }
    }

    /// Whether the model may call tools.
    pub fn tool_use(&self) -> (b: bool)
        ensures
            b == self.spec_tool_use(),
    {
        match &self.tool_choice {
            Some(ToolChoice::NoTool) => false,
            Some(_) => match &self.tools {
                Some(tools) => tools.len() > 0,
                None => false,
            },
            None => false,
        }
    }
}

} // verus!
