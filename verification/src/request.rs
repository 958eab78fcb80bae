//! The request that asks the vision provider for a description.

use vstd::prelude::*;

use crate::items::{ContentItem, ContentItemView, ImageDetail, ResponseItem, ResponseItemView};
use crate::text::VISION_DESCRIPTION_INSTRUCTIONS;

verus! {

/// A request to a Responses endpoint. Options that the bridge never sets are of
/// the host's own type `C`.
#[derive(Debug, PartialEq, Eq)]
pub struct ResponsesApiRequest<C> {
    pub model: String,
    pub instructions: String,
    pub input: Vec<ResponseItem<C>>,
    pub tools: Option<C>,
    pub tool_choice: String,
    pub parallel_tool_calls: bool,
    pub reasoning: Option<C>,
    pub store: bool,
    pub stream: bool,
    pub stream_options: Option<C>,
    pub included: Vec<String>,
    pub service_tier: Option<C>,
    pub prompt_cache_key: Option<C>,
    pub text: Option<C>,
    pub client_metadata: Option<C>,
}

#[verifier::ext_equal]
pub struct RequestView<C> {
    pub model: Seq<char>,
    pub instructions: Seq<char>,
    pub input: Seq<ResponseItemView<C>>,
    pub tools: Option<C>,
    pub tool_choice: Seq<char>,
    pub parallel_tool_calls: bool,
    pub reasoning: Option<C>,
    pub store: bool,
    pub stream: bool,
    pub stream_options: Option<C>,
    pub included: Seq<Seq<char>>,
    pub service_tier: Option<C>,
    pub prompt_cache_key: Option<C>,
    pub text: Option<C>,
    pub client_metadata: Option<C>,
}

impl<C> DeepView for ResponsesApiRequest<C> {
    type V = RequestView<C>;

    open spec fn deep_view(&self) -> RequestView<C> {
        RequestView {
            model: self.model@,
            instructions: self.instructions@,
            input: self.input.deep_view(),
            tools: self.tools,
            tool_choice: self.tool_choice@,
            parallel_tool_calls: self.parallel_tool_calls,
            reasoning: self.reasoning,
            store: self.store,
            stream: self.stream,
            stream_options: self.stream_options,
            included: self.included.deep_view(),
            service_tier: self.service_tier,
            prompt_cache_key: self.prompt_cache_key,
            text: self.text,
            client_metadata: self.client_metadata,
        }
    }
}

/// The content item that comes first: what the provider is asked to do.
pub open spec fn instruction_item<C>() -> ContentItemView<C> {
    ContentItemView::InputText { text: VISION_DESCRIPTION_INSTRUCTIONS@ }
}

/// The content item for one image: `default_detail` where none was asked for.
pub open spec fn image_item<C>(
    image_url: Seq<char>,
    detail: Option<ImageDetail>,
    default_detail: ImageDetail,
) -> ContentItemView<C> {
    ContentItemView::InputImage {
        image_url,
        detail: Some(
            match detail {
                Some(detail) => detail,
                None => default_detail,
            },
        ),
    }
}

/// The request that sends `content` to `model` as one user message: streamed,
/// not stored, and without tools.
pub open spec fn vision_request<C>(model: Seq<char>, content: Seq<ContentItemView<C>>) -> RequestView<C> {
    RequestView {
        model,
        instructions: Seq::empty(),
        input: seq![
            ResponseItemView::Message {
                id: None,
                role: "user"@,
                content,
                phase: None,
                internal_chat_message_metadata_passthrough: None,
            },
        ],
        tools: None,
        tool_choice: "none"@,
        parallel_tool_calls: false,
        reasoning: None,
        store: false,
        stream: true,
        stream_options: None,
        included: Seq::empty(),
        service_tier: None,
        prompt_cache_key: None,
        text: None,
        client_metadata: None,
    }
}

/// Builds the content item that carries the instructions.
pub fn build_instruction_item<C>() -> (item: ContentItem<C>)
    ensures
        item.deep_view() == instruction_item::<C>(),
{
    ContentItem::InputText { text: VISION_DESCRIPTION_INSTRUCTIONS.to_string() }
}

/// Builds the content item for one image.
pub fn build_image_item<C>(
    image_url: String,
    detail: Option<ImageDetail>,
    default_detail: ImageDetail,
) -> (item: ContentItem<C>)
    ensures
        item.deep_view() == image_item::<C>(image_url@, detail, default_detail),
{
    ContentItem::InputImage { image_url, detail: Some(detail.unwrap_or(default_detail)) }
}

/// Builds the request that sends `content` to `model`.
pub fn build_request<C>(model: String, content: Vec<ContentItem<C>>) -> (request: ResponsesApiRequest<C>)
    ensures
        request.deep_view() == vision_request::<C>(model@, content.deep_view()),
{
    let message: ResponseItem<C> = ResponseItem::Message {
        id: None,
        role: "user".to_string(),
        content,
        phase: None,
        internal_chat_message_metadata_passthrough: None,
    };
    let mut input: Vec<ResponseItem<C>> = Vec::new();
    input.push(message);
    let included: Vec<String> = Vec::new();
    let request = ResponsesApiRequest {
        model,
        instructions: String::new(),
        input,
        tools: None,
        tool_choice: "none".to_string(),
        parallel_tool_calls: false,
        reasoning: None,
        store: false,
        stream: true,
        stream_options: None,
        included,
        service_tier: None,
        prompt_cache_key: None,
        text: None,
        client_metadata: None,
    };
    assert(request.deep_view() =~= vision_request::<C>(model@, content.deep_view()));
    request
}

} // verus!
