//! Error kinds of the chat-completion core.

use crate::text::join;
use vstd::prelude::*;

verus! {

/// A failure of the inference backend that is none of the three terminal
/// conditions (end of sequence, context full, prompt too long).
#[derive(Debug, Clone, PartialEq, Eq)]
pub enum BackendError {
    /// The blocking computation failed.
    Compute(String),
    /// The computation of a single token failed.
    ComputeSingle(String),
    /// Releasing the streaming session failed.
    FinishSingle(String),
    /// Reading an output slot failed.
    GetOutput(String),
}

/// Every way in which the core fails.
#[derive(Debug, Clone, PartialEq, Eq)]
pub enum LlamaCoreError {
    /// Misuse, an invalid state, a serialization failure or a missing graph.
    Operation(String),
    /// A failure of the inference backend.
    Backend(BackendError),
}

/// The ways in which rendering a prompt fails.
#[derive(Debug, Clone, Copy, PartialEq, Eq, Structural)]
pub enum PromptError {
    /// The message list is empty.
    NoMessages,
    /// An assistant turn has neither content nor tool calls.
    NoAssistantMessage,
    /// An inlined image is not base64 text of a known image format.
    BadImageFormat,
}

/// The input slots of a graph.
#[derive(Debug, Clone, Copy, PartialEq, Eq, Structural)]
pub enum InputSlot {
    /// Slot 0 takes the bytes of the prompt.
    Prompt,
    /// Slot 1 takes the metadata as JSON.
    Metadata,
}

/// The output slots of a graph.
#[derive(Debug, Clone, Copy, PartialEq, Eq, Structural)]
pub enum OutputSlot {
    /// Slot 0 gives the bytes of the generation.
    Generation,
    /// Slot 1 gives the token counts as JSON.
    TokenInfo,
}

impl InputSlot {
    /// The index of the slot.
    pub open spec fn spec_index(self) -> usize {
        match self {
            InputSlot::Prompt => 0,
            InputSlot::Metadata => 1,
        }
    }

    /// The index of the slot.
    pub fn index(&self) -> (index: usize)
        ensures
            index == self.spec_index(),
    {
        match self {
            InputSlot::Prompt => 0,
            InputSlot::Metadata => 1,
        }
    }
}

impl OutputSlot {
    /// The index of the slot.
    pub open spec fn spec_index(self) -> usize {
        match self {
            OutputSlot::Generation => 0,
            OutputSlot::TokenInfo => 1,
        }
    }

    /// The index of the slot.
    pub fn index(&self) -> (index: usize)
        ensures
            index == self.spec_index(),
    {
        match self {
            OutputSlot::Generation => 0,
            OutputSlot::TokenInfo => 1,
        }
    }
}

/// The mathematical value of a [`LlamaCoreError`]: its kind and its message.
pub enum ErrorView {
    Operation(Seq<char>),
    Compute(Seq<char>),
    ComputeSingle(Seq<char>),
    FinishSingle(Seq<char>),
    GetOutput(Seq<char>),
}

impl View for LlamaCoreError {
    type V = ErrorView;

    open spec fn view(&self) -> ErrorView {
        match *self {
            LlamaCoreError::Operation(m) => ErrorView::Operation(m@),
            LlamaCoreError::Backend(BackendError::Compute(m)) => ErrorView::Compute(m@),
            LlamaCoreError::Backend(BackendError::ComputeSingle(m)) => ErrorView::ComputeSingle(m@),
            LlamaCoreError::Backend(BackendError::FinishSingle(m)) => ErrorView::FinishSingle(m@),
            LlamaCoreError::Backend(BackendError::GetOutput(m)) => ErrorView::GetOutput(m@),
        }
    }
}

impl LlamaCoreError {
    /// An operation error with the given message.
    pub fn operation(message: &str) -> (e: LlamaCoreError)
        ensures
            e@ == ErrorView::Operation(message@),
    {
        LlamaCoreError::Operation(String::from_str(message))
    }

    /// An operation error whose message is `prefix` followed by `detail`.
    pub fn operation_with(prefix: &str, detail: &str) -> (e: LlamaCoreError)
        ensures
            e@ == ErrorView::Operation(prefix@ + detail@),
    {
        LlamaCoreError::Operation(join(prefix, detail))
    }

    /// The failure to set the input of the given slot.
    pub fn set_input(slot: InputSlot) -> (e: LlamaCoreError)
        ensures
            e@ == ErrorView::Operation(
                match slot {
                    InputSlot::Prompt => "Fail to set input tensor at index 0"@,
                    InputSlot::Metadata => "Fail to set input tensor at index 1"@,
                },
            ),
    {
        match slot {
            InputSlot::Prompt => LlamaCoreError::operation("Fail to set input tensor at index 0"),
            InputSlot::Metadata => LlamaCoreError::operation(
                "Fail to set input tensor at index 1",
            ),
        }
    }

    /// The failure of a blocking computation for the given reason.
    pub fn compute(reason: &str) -> (e: LlamaCoreError)
        ensures
            e@ == ErrorView::Compute(
                "Failed to compute the chat completion. Reason: "@ + reason@,
            ),
    {
        LlamaCoreError::Backend(
            BackendError::Compute(join("Failed to compute the chat completion. Reason: ", reason)),
        )
    }

    /// The failure of the computation of a single token for the given reason.
    pub fn compute_single(reason: &str) -> (e: LlamaCoreError)
        ensures
            e@ == ErrorView::ComputeSingle(
                "Failed to compute the chat completion. Reason: "@ + reason@,
            ),
    {
        LlamaCoreError::Backend(
            BackendError::ComputeSingle(
                join("Failed to compute the chat completion. Reason: ", reason),
            ),
        )
    }

    /// The failure to release a streaming session for the given reason.
    pub fn finish_single(reason: &str) -> (e: LlamaCoreError)
        ensures
            e@ == ErrorView::FinishSingle("Failed to clean up the context. Reason: "@ + reason@),
    {
        LlamaCoreError::Backend(
            BackendError::FinishSingle(join("Failed to clean up the context. Reason: ", reason)),
        )
    }

    /// The failure to read an output slot for the given reason.
    pub fn get_output(reason: &str) -> (e: LlamaCoreError)
        ensures
            e@ == ErrorView::GetOutput("Fail to get plugin metadata. "@ + reason@),
    {
        LlamaCoreError::Backend(
            BackendError::GetOutput(join("Fail to get plugin metadata. ", reason)),
        )
    }
}

impl PromptError {
    /// The text that describes the error.
    pub open spec fn text(self) -> Seq<char> {
        match self {
            PromptError::NoMessages => "There must be at least one message to create a prompt from."@,
            PromptError::NoAssistantMessage => "No content in the assistant message when the `tool_calls` is not specified."@,
            PromptError::BadImageFormat => "The image is not base64 text of a supported image format."@,
        }
    }

    /// The text that describes the error.
    pub fn message(&self) -> (s: String)
        ensures
            s@ == self.text(),
    {
        match self {
            PromptError::NoMessages => String::from_str(
                "There must be at least one message to create a prompt from.",
            ),
            PromptError::NoAssistantMessage => String::from_str(
                "No content in the assistant message when the `tool_calls` is not specified.",
            ),
            PromptError::BadImageFormat => String::from_str(
                "The image is not base64 text of a supported image format.",
            ),
        }
    }
}

} // verus!
