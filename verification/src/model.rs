//! The values that travel through the service, and their mathematical views.

use vstd::prelude::*;

verus! {

/// One turn of the conversation a client sends.
#[derive(Clone, Debug, PartialEq, Eq)]
pub struct Message {
    /// "system", "user" or "assistant".
    pub role: String,
    pub content: String,
}

/// The body of a completion request. Sampling parameters are accepted on the
/// wire and play no part in the answer; only the token limit is kept here.
#[derive(Clone, Debug, PartialEq, Eq)]
pub struct ChatRequest {
    pub messages: Vec<Message>,
    pub model: String,
    pub stream: Option<bool>,
    pub max_tokens: Option<u32>,
}

/// The message of a finished completion.
#[derive(Clone, Debug, PartialEq, Eq)]
pub struct ChatMessage {
    pub role: String,
    pub content: String,
}

/// One alternative of a finished completion.
#[derive(Clone, Debug, PartialEq, Eq)]
pub struct Choice {
    pub index: u32,
    pub message: ChatMessage,
    pub finish_reason: String,
}

/// A completion sent in one piece.
#[derive(Clone, Debug, PartialEq, Eq)]
pub struct ChatCompletion {
    pub id: String,
    pub object: String,
    pub created: u64,
    pub model: String,
    pub choices: Vec<Choice>,
}

/// What one streamed chunk adds to the message.
#[derive(Clone, Debug, PartialEq, Eq)]
pub struct Delta {
    pub role: Option<String>,
    pub content: Option<String>,
}

/// One alternative of a streamed chunk.
#[derive(Clone, Debug, PartialEq, Eq)]
pub struct ChunkChoice {
    pub index: u32,
    pub delta: Delta,
    pub finish_reason: Option<String>,
}

/// One unit of a streamed completion.
#[derive(Clone, Debug, PartialEq, Eq)]
pub struct ChatCompletionChunk {
    pub id: String,
    pub object: String,
    pub created: u64,
    pub model: String,
    pub choices: Vec<ChunkChoice>,
}

/// The text of an optional string.
pub open spec fn opt_text(o: Option<String>) -> Option<Seq<char>> {
    match o {
        Some(s) => Some(s@),
        None => None,
    }
}

pub ghost struct ChatMessageView {
    pub role: Seq<char>,
    pub content: Seq<char>,
}

pub ghost struct ChoiceView {
    pub index: u32,
    pub message: ChatMessageView,
    pub finish_reason: Seq<char>,
}

pub ghost struct ChatCompletionView {
    pub id: Seq<char>,
    pub object: Seq<char>,
    pub created: u64,
    pub model: Seq<char>,
    pub choices: Seq<ChoiceView>,
}

pub ghost struct DeltaView {
    pub role: Option<Seq<char>>,
    pub content: Option<Seq<char>>,
}

pub ghost struct ChunkChoiceView {
    pub index: u32,
    pub delta: DeltaView,
    pub finish_reason: Option<Seq<char>>,
}

pub ghost struct ChatCompletionChunkView {
    pub id: Seq<char>,
    pub object: Seq<char>,
    pub created: u64,
    pub model: Seq<char>,
    pub choices: Seq<ChunkChoiceView>,
}

impl View for ChatMessage {
    type V = ChatMessageView;

    open spec fn view(&self) -> ChatMessageView {
        ChatMessageView { role: self.role@, content: self.content@ }
    }
}

impl View for Choice {
    type V = ChoiceView;

    open spec fn view(&self) -> ChoiceView {
        ChoiceView {
            index: self.index,
            message: self.message@,
            finish_reason: self.finish_reason@,
        }
    }
}

impl View for ChatCompletion {
    type V = ChatCompletionView;

    open spec fn view(&self) -> ChatCompletionView {
        ChatCompletionView {
            id: self.id@,
            object: self.object@,
            created: self.created,
            model: self.model@,
            choices: Seq::new(self.choices@.len(), |i: int| self.choices@[i]@),
        }
    }
}

impl View for Delta {
    type V = DeltaView;

    open spec fn view(&self) -> DeltaView {
        DeltaView { role: opt_text(self.role), content: opt_text(self.content) }
    }
}

impl View for ChunkChoice {
    type V = ChunkChoiceView;

    open spec fn view(&self) -> ChunkChoiceView {
        ChunkChoiceView {
            index: self.index,
            delta: self.delta@,
            finish_reason: opt_text(self.finish_reason),
        }
    }
}

impl View for ChatCompletionChunk {
    type V = ChatCompletionChunkView;

    open spec fn view(&self) -> ChatCompletionChunkView {
        ChatCompletionChunkView {
            id: self.id@,
            object: self.object@,
            created: self.created,
            model: self.model@,
            choices: Seq::new(self.choices@.len(), |i: int| self.choices@[i]@),
        }
    }
}

} // verus!
