//! The items of a conversation, as far as the bridge reads or writes them.
//!
//! The type parameter `C` stands for what the host keeps with an item and the
//! bridge only carries: it is never looked at and never changed. The view of
//! each type has the same fields, with text as a sequence of characters and a
//! list as a sequence.

use std::path::PathBuf;
use vstd::prelude::*;

verus! {

/// `std::path::PathBuf`, carried with a local image and never looked into.
/// Nothing is claimed of it.
#[verifier::external_type_specification]
#[verifier::external_body]
pub struct ExPathBuf(PathBuf);

/// How closely the vision model is to look at an image.
#[derive(Clone, Copy, Debug, PartialEq, Eq, Structural)]
pub enum ImageDetail {
    Auto,
    Low,
    High,
    Original,
}

impl DeepView for ImageDetail {
    type V = ImageDetail;

    open spec fn deep_view(&self) -> ImageDetail {
        *self
    }
}

/// An image to be described: its URL and the detail asked for, if any.
pub type ImageRef = (String, Option<ImageDetail>);

/// The view of an image to be described.
pub type ImageRefView = (Seq<char>, Option<ImageDetail>);

/// One item of what the user handed in for a turn.
#[derive(Debug, PartialEq, Eq)]
pub enum UserInput<C> {
    Text { text: String, text_elements: Vec<C> },
    Image { image_url: String, detail: Option<ImageDetail> },
    LocalImage { path: PathBuf, detail: Option<ImageDetail> },
    Other(C),
}

#[verifier::ext_equal]
pub enum UserInputView<C> {
    Text { text: Seq<char>, text_elements: Seq<C> },
    Image { image_url: Seq<char>, detail: Option<ImageDetail> },
    LocalImage { path: PathBuf, detail: Option<ImageDetail> },
    Other(C),
}

impl<C> DeepView for UserInput<C> {
    type V = UserInputView<C>;

    open spec fn deep_view(&self) -> UserInputView<C> {
        match *self {
            UserInput::Text { text, text_elements } => UserInputView::Text {
                text: text@,
                text_elements: text_elements@,
            },
            UserInput::Image { image_url, detail } => UserInputView::Image {
                image_url: image_url@,
                detail,
            },
            UserInput::LocalImage { path, detail } => UserInputView::LocalImage { path, detail },
            UserInput::Other(carried) => UserInputView::Other(carried),
        }
    }
}

/// One item of the content of a message.
#[derive(Debug, PartialEq, Eq)]
pub enum ContentItem<C> {
    InputText { text: String },
    InputImage { image_url: String, detail: Option<ImageDetail> },
    Other(C),
}

pub enum ContentItemView<C> {
    InputText { text: Seq<char> },
    InputImage { image_url: Seq<char>, detail: Option<ImageDetail> },
    Other(C),
}

impl<C> DeepView for ContentItem<C> {
    type V = ContentItemView<C>;

    open spec fn deep_view(&self) -> ContentItemView<C> {
        match *self {
            ContentItem::InputText { text } => ContentItemView::InputText { text: text@ },
            ContentItem::InputImage { image_url, detail } => ContentItemView::InputImage {
                image_url: image_url@,
                detail,
            },
            ContentItem::Other(carried) => ContentItemView::Other(carried),
        }
    }
}

/// One item of what a tool handed back.
#[derive(Debug, PartialEq, Eq)]
pub enum FunctionCallOutputContentItem<C> {
    InputText { text: String },
    InputImage { image_url: String, detail: Option<ImageDetail> },
    Other(C),
}

pub enum OutputItemView<C> {
    InputText { text: Seq<char> },
    InputImage { image_url: Seq<char>, detail: Option<ImageDetail> },
    Other(C),
}

impl<C> DeepView for FunctionCallOutputContentItem<C> {
    type V = OutputItemView<C>;

    open spec fn deep_view(&self) -> OutputItemView<C> {
        match *self {
            FunctionCallOutputContentItem::InputText { text } => OutputItemView::InputText { text: text@ },
            FunctionCallOutputContentItem::InputImage { image_url, detail } => OutputItemView::InputImage {
                image_url: image_url@,
                detail,
            },
            FunctionCallOutputContentItem::Other(carried) => OutputItemView::Other(carried),
        }
    }
}

/// What a tool handed back: plain text, or a list of content items.
#[derive(Debug, PartialEq, Eq)]
pub enum FunctionCallOutputBody<C> {
    Text(String),
    ContentItems(Vec<FunctionCallOutputContentItem<C>>),
}

pub enum OutputBodyView<C> {
    Text(Seq<char>),
    ContentItems(Seq<OutputItemView<C>>),
}

impl<C> DeepView for FunctionCallOutputBody<C> {
    type V = OutputBodyView<C>;

    open spec fn deep_view(&self) -> OutputBodyView<C> {
        match *self {
            FunctionCallOutputBody::Text(text) => OutputBodyView::Text(text@),
            FunctionCallOutputBody::ContentItems(items) => OutputBodyView::ContentItems(items.deep_view()),
        }
    }
}

/// The result of a tool call.
#[derive(Debug, PartialEq, Eq)]
pub struct FunctionCallOutputPayload<C> {
    pub body: FunctionCallOutputBody<C>,
    pub success: Option<bool>,
}

pub struct OutputPayloadView<C> {
    pub body: OutputBodyView<C>,
    pub success: Option<bool>,
}

impl<C> DeepView for FunctionCallOutputPayload<C> {
    type V = OutputPayloadView<C>;

    open spec fn deep_view(&self) -> OutputPayloadView<C> {
        OutputPayloadView { body: self.body.deep_view(), success: self.success }
    }
}

impl<C> FunctionCallOutputPayload<C> {
    /// The content items, where the output is a list of them.
    pub fn content_items(&self) -> (r: Option<&Vec<FunctionCallOutputContentItem<C>>>)
        ensures
            r == (match self.body {
                FunctionCallOutputBody::Text(_) => None,
                FunctionCallOutputBody::ContentItems(items) => Some(&items),
            }),
    {
        match &self.body {
            FunctionCallOutputBody::Text(_) => None,
            FunctionCallOutputBody::ContentItems(items) => Some(items),
        }
    }
}

/// One item of the conversation's history.
#[derive(Debug, PartialEq, Eq)]
pub enum ResponseItem<C> {
    Message {
        id: Option<String>,
        role: String,
        content: Vec<ContentItem<C>>,
        phase: Option<C>,
        internal_chat_message_metadata_passthrough: Option<C>,
    },
    FunctionCallOutput {
        id: Option<String>,
        call_id: String,
        output: FunctionCallOutputPayload<C>,
        internal_chat_message_metadata_passthrough: Option<C>,
    },
    /// The output of a custom tool; `rest` is what the item holds besides.
    CustomToolCallOutput { output: FunctionCallOutputPayload<C>, rest: C },
    Other(C),
}

pub enum ResponseItemView<C> {
    Message {
        id: Option<Seq<char>>,
        role: Seq<char>,
        content: Seq<ContentItemView<C>>,
        phase: Option<C>,
        internal_chat_message_metadata_passthrough: Option<C>,
    },
    FunctionCallOutput {
        id: Option<Seq<char>>,
        call_id: Seq<char>,
        output: OutputPayloadView<C>,
        internal_chat_message_metadata_passthrough: Option<C>,
    },
    CustomToolCallOutput { output: OutputPayloadView<C>, rest: C },
    Other(C),
}

impl<C> DeepView for ResponseItem<C> {
    type V = ResponseItemView<C>;

    open spec fn deep_view(&self) -> ResponseItemView<C> {
        match *self {
            ResponseItem::Message { id, role, content, phase, internal_chat_message_metadata_passthrough } => {
                ResponseItemView::Message {
                    id: id.deep_view(),
                    role: role@,
                    content: content.deep_view(),
                    phase,
                    internal_chat_message_metadata_passthrough,
                }
            },
            ResponseItem::FunctionCallOutput { id, call_id, output, internal_chat_message_metadata_passthrough } => {
                ResponseItemView::FunctionCallOutput {
                    id: id.deep_view(),
                    call_id: call_id@,
                    output: output.deep_view(),
                    internal_chat_message_metadata_passthrough,
                }
            },
            ResponseItem::CustomToolCallOutput { output, rest } => {
                ResponseItemView::CustomToolCallOutput { output: output.deep_view(), rest }
            },
            ResponseItem::Other(carried) => ResponseItemView::Other(carried),
        }
    }
}

} // verus!
