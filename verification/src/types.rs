//! The values that travel between the client and the service.

use vstd::prelude::*;

verus! {

/// The reply of the token endpoint: a session token and the instant, in seconds
/// since the epoch, at which it expires.
#[derive(Debug, Clone, PartialEq, Eq)]
pub struct CopilotTokenResponse {
    pub token: String,
    pub expires_at: u64,
}

/// One agent of the catalog.
#[derive(Debug, Clone, PartialEq, Eq)]
pub struct Agent {
    pub id: String,
    pub name: String,
    pub description: Option<String>,
}

/// The mathematical content of an [`Agent`].
pub struct AgentView {
    pub id: Seq<char>,
    pub name: Seq<char>,
    pub description: Option<Seq<char>>,
}

impl DeepView for Agent {
    type V = AgentView;

    open spec fn deep_view(&self) -> AgentView {
        AgentView {
            id: self.id@,
            name: self.name@,
            description: self.description.deep_view(),
        }
    }
}

/// The reply of the agents endpoint.
#[derive(Debug, Clone, PartialEq, Eq)]
pub struct AgentsResponse {
    pub agents: Vec<Agent>,
}

/// One model of the catalog.
#[derive(Debug, Clone, PartialEq, Eq)]
pub struct Model {
    pub id: String,
    pub name: String,
    pub version: Option<String>,
    pub tokenizer: Option<String>,
    pub max_input_tokens: Option<u32>,
    pub max_output_tokens: Option<u32>,
}

/// The mathematical content of a [`Model`].
pub struct ModelView {
    pub id: Seq<char>,
    pub name: Seq<char>,
    pub version: Option<Seq<char>>,
    pub tokenizer: Option<Seq<char>>,
    pub max_input_tokens: Option<u32>,
    pub max_output_tokens: Option<u32>,
}

impl DeepView for Model {
    type V = ModelView;

    open spec fn deep_view(&self) -> ModelView {
        ModelView {
            id: self.id@,
            name: self.name@,
            version: self.version.deep_view(),
            tokenizer: self.tokenizer.deep_view(),
            max_input_tokens: self.max_input_tokens,
            max_output_tokens: self.max_output_tokens,
        }
    }
}

/// The reply of the models endpoint.
#[derive(Debug, Clone, PartialEq, Eq)]
pub struct ModelsResponse {
    pub data: Vec<Model>,
}

/// One turn of a chat. The role is "system", "user", "assistant" or another word
/// that the service understands.
#[derive(Debug, Clone, PartialEq, Eq)]
pub struct Message {
    pub role: String,
    pub content: String,
}

/// The mathematical content of a [`Message`].
pub struct MessageView {
    pub role: Seq<char>,
    pub content: Seq<char>,
}

impl DeepView for Message {
    type V = MessageView;

    open spec fn deep_view(&self) -> MessageView {
        MessageView { role: self.role@, content: self.content@ }
    }
}

/// The body of a chat completion request. The two sampling weights are held in
/// thousandths, so that 1000 stands for 1.0 and 500 for 0.5.
#[derive(Debug, Clone, PartialEq, Eq)]
pub struct ChatRequest {
    pub model: String,
    pub messages: Vec<Message>,
    pub n: u32,
    pub top_p_permille: u32,
    pub stream: bool,
    pub temperature_permille: u32,
    pub max_tokens: Option<u32>,
}

/// How many tokens a completion used.
#[derive(Debug, Clone, Copy, PartialEq, Eq)]
pub struct TokenUsage {
    pub total_tokens: u32,
}

/// One completion offered by the service.
#[derive(Debug, Clone, PartialEq, Eq)]
pub struct ChatChoice {
    pub message: Message,
    pub finish_reason: Option<String>,
    pub usage: Option<TokenUsage>,
}

/// The mathematical content of a [`ChatChoice`].
pub struct ChatChoiceView {
    pub message: MessageView,
    pub finish_reason: Option<Seq<char>>,
    pub usage: Option<TokenUsage>,
}

impl DeepView for ChatChoice {
    type V = ChatChoiceView;

    open spec fn deep_view(&self) -> ChatChoiceView {
        ChatChoiceView {
            message: self.message.deep_view(),
            finish_reason: self.finish_reason.deep_view(),
            usage: self.usage,
        }
    }
}

/// The reply of the chat completion endpoint.
#[derive(Debug, Clone, PartialEq, Eq)]
pub struct ChatResponse {
    pub choices: Vec<ChatChoice>,
}

/// The body of an embeddings request.
#[derive(Debug, Clone, PartialEq, Eq)]
pub struct EmbeddingRequest {
    pub dimensions: u32,
    pub input: Vec<String>,
    pub model: String,
}

/// One embedding vector and the position of the input it belongs to. Each
/// coordinate is held as the bit pattern of its IEEE 754 double.
#[derive(Debug, Clone, PartialEq, Eq)]
pub struct Embedding {
    pub index: usize,
    pub embedding: Vec<u64>,
}

/// The mathematical content of an [`Embedding`].
pub struct EmbeddingView {
    pub index: usize,
    pub embedding: Seq<u64>,
}

impl DeepView for Embedding {
    type V = EmbeddingView;

    open spec fn deep_view(&self) -> EmbeddingView {
        EmbeddingView { index: self.index, embedding: self.embedding@ }
    }
}

/// The reply of the embeddings endpoint.
#[derive(Debug, Clone, PartialEq, Eq)]
pub struct EmbeddingResponse {
    pub data: Vec<Embedding>,
}

} // verus!
