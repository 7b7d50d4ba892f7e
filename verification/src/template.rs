//! The kinds of prompt template.

use vstd::prelude::*;

verus! {

/// The template by which a model expects its turns to be laid out.
#[derive(Debug, Clone, Copy, PartialEq, Eq, Hash, Structural)]
pub enum PromptTemplateType {
    Llama2Chat,
    Llama3Chat,
    MistralInstruct,
    MistralLite,
    MistralTool,
    OpenChat,
    CodeLlama,
    HumanAssistant,
    Zephyr,
    ChatML,
    ChatMLTool,
    Baichuan2,
    DeepseekChat,
    SolarInstruct,
    Phi3Chat,
    GemmaInstruct,
    Qwen2vl,
}

impl PromptTemplateType {
    /// Whether generations of this template may carry tool calls.
    pub open spec fn supports_tools(self) -> bool {
        self == PromptTemplateType::MistralTool || self == PromptTemplateType::ChatMLTool
    }

    /// Whether generations of this template may carry tool calls.
    pub fn has_tool_support(&self) -> (b: bool)
        ensures
            b == self.supports_tools(),
    {
        match self {
            PromptTemplateType::MistralTool => true,
            PromptTemplateType::ChatMLTool => true,
            _ => false,
        }
    }
}

} // verus!
