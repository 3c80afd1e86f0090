//! The conversation items that carry prompt images.

use vstd::prelude::*;

verus! {

/// How much detail the model is asked to see in an image.
#[derive(Clone, Copy, Debug, PartialEq, Eq, Structural)]
pub enum ImageDetail {
    Auto,
    Low,
    High,
    Original,
}

/// The phase of an assistant message.
#[derive(Clone, Copy, Debug, PartialEq, Eq, Structural)]
pub enum MessagePhase {
    Commentary,
    FinalAnswer,
}

/// One piece of the content of a message.
#[derive(Clone, Debug, PartialEq, Eq)]
pub enum ContentItem {
    InputText { text: String },
    InputImage { image_url: String, detail: Option<ImageDetail> },
    OutputText { text: String },
}

/// One piece of the output of a function call.
#[derive(Clone, Debug, PartialEq, Eq)]
pub enum FunctionCallOutputContentItem {
    InputText { text: String },
    InputImage { image_url: String, detail: Option<ImageDetail> },
}

/// The body of a function call output: plain text or a list of content items.
#[derive(Clone, Debug, PartialEq, Eq)]
pub enum FunctionCallOutputBody {
    Text(String),
    ContentItems(Vec<FunctionCallOutputContentItem>),
}

/// What a function call (or a custom tool call) gave back.
#[derive(Clone, Debug, PartialEq, Eq)]
pub struct FunctionCallOutputPayload {
    pub body: FunctionCallOutputBody,
    pub success: Option<bool>,
}

impl FunctionCallOutputPayload {
    /// A payload whose body is the given text.
    pub fn from_text(text: String) -> (payload: Self)
        ensures
            payload.body == FunctionCallOutputBody::Text(text),
            payload.success is None,
    {
        FunctionCallOutputPayload { body: FunctionCallOutputBody::Text(text), success: None }
    }

    /// A payload whose body is the given list of content items.
    pub fn from_content_items(items: Vec<FunctionCallOutputContentItem>) -> (payload: Self)
        ensures
            payload.body == FunctionCallOutputBody::ContentItems(items),
            payload.success is None,
    {
        FunctionCallOutputPayload {
            body: FunctionCallOutputBody::ContentItems(items),
            success: None,
        }
    }

    /// The content items of the body, for changing in place, when the body is a
    /// list of them.
    pub fn content_items_mut(&mut self) -> (items: Option<&mut Vec<FunctionCallOutputContentItem>>)
        ensures
            match old(self).body {
                FunctionCallOutputBody::ContentItems(v) => {
                    &&& items matches Some(r) && *r == v
                    &&& final(self).success == old(self).success
                    &&& final(self).body == FunctionCallOutputBody::ContentItems(*final(items->0))
                },
                FunctionCallOutputBody::Text(_) => items is None && *final(self) == *old(self),
            },
    {
        match &mut self.body {
            FunctionCallOutputBody::ContentItems(items) => Some(items),
            FunctionCallOutputBody::Text(_) => None,
        }
    }
}

/// An item of the conversation history sent to the model.
#[derive(Clone, Debug, PartialEq, Eq)]
pub enum ResponseItem {
    Message {
        id: Option<String>,
        role: String,
        content: Vec<ContentItem>,
        phase: Option<MessagePhase>,
    },
    FunctionCall { name: String, arguments: String, call_id: String },
    FunctionCallOutput { call_id: String, output: FunctionCallOutputPayload },
    CustomToolCall { call_id: String, name: String, input: String },
    CustomToolCallOutput { call_id: String, output: FunctionCallOutputPayload },
    Other,
}

} // verus!
