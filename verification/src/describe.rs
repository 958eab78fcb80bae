//! Having images described by the vision provider.
//!
//! The work is a chain of steps. A [`Step`] names what the host has to do next;
//! the value that it holds takes the answer and gives the step after it, until
//! the description, or the error, is there.

use vstd::prelude::*;

use crate::error::{outcome_view, text_view, VisionError, VisionErrorView};
use crate::image_url::{must_load, needs_loading, normalize_image_url, normalized};
use crate::items::{ContentItem, ContentItemView, ImageDetail, ImageRef, ImageRefView};
use crate::request::{
    build_image_item, build_instruction_item, build_request, image_item, instruction_item,
    vision_request, RequestView, ResponsesApiRequest,
};

verus! {

/// An event of the provider's answer.
#[derive(Debug, PartialEq, Eq)]
pub enum ResponseEvent {
    /// The next piece of the answer's text.
    OutputTextDelta(String),
    /// The answer is complete.
    Completed,
    /// An event that carries nothing for the bridge.
    Other,
}

pub enum EventView {
    OutputTextDelta(Seq<char>),
    Completed,
    Other,
}

impl DeepView for ResponseEvent {
    type V = EventView;

    open spec fn deep_view(&self) -> EventView {
        match *self {
            ResponseEvent::OutputTextDelta(delta) => EventView::OutputTextDelta(delta@),
            ResponseEvent::Completed => EventView::Completed,
            ResponseEvent::Other => EventView::Other,
        }
    }
}

/// The view of what the stream gives next: an event, an error, or its end.
pub open spec fn stream_item_view(item: Option<Result<ResponseEvent, String>>) -> Option<
    Result<EventView, Seq<char>>,
> {
    match item {
        None => None,
        Some(Ok(event)) => Some(Ok(event.deep_view())),
        Some(Err(reason)) => Some(Err(reason@)),
    }
}

/// Images that wait to be described together, and by which model.
#[derive(Debug, PartialEq, Eq)]
pub struct Batch {
    pub model: String,
    pub default_detail: ImageDetail,
    pub images: Vec<ImageRef>,
}

#[verifier::ext_equal]
pub struct BatchView {
    pub model: Seq<char>,
    pub default_detail: ImageDetail,
    pub images: Seq<ImageRefView>,
}

impl DeepView for Batch {
    type V = BatchView;

    open spec fn deep_view(&self) -> BatchView {
        BatchView {
            model: self.model@,
            default_detail: self.default_detail,
            images: self.images.deep_view(),
        }
    }
}

/// Waits for the provider's endpoint.
#[derive(Debug, PartialEq, Eq)]
pub struct ProviderPending {
    pub batch: Batch,
}

/// Waits for the provider's credentials.
#[derive(Debug, PartialEq, Eq)]
pub struct AuthPending {
    pub batch: Batch,
}

/// Waits for an image to be loaded. `content` is what the request holds so far,
/// `rest` the images after this one.
#[derive(Debug, PartialEq, Eq)]
pub struct LoadPending<C> {
    pub model: String,
    pub default_detail: ImageDetail,
    pub content: Vec<ContentItem<C>>,
    pub image_url: String,
    pub detail: Option<ImageDetail>,
    pub rest: Vec<ImageRef>,
}

#[verifier::ext_equal]
pub struct LoadView<C> {
    pub model: Seq<char>,
    pub default_detail: ImageDetail,
    pub content: Seq<ContentItemView<C>>,
    pub image_url: Seq<char>,
    pub detail: Option<ImageDetail>,
    pub rest: Seq<ImageRefView>,
}

impl<C> DeepView for LoadPending<C> {
    type V = LoadView<C>;

    open spec fn deep_view(&self) -> LoadView<C> {
        LoadView {
            model: self.model@,
            default_detail: self.default_detail,
            content: self.content.deep_view(),
            image_url: self.image_url@,
            detail: self.detail,
            rest: self.rest.deep_view(),
        }
    }
}

/// Waits for the provider to take the request.
#[derive(Debug, PartialEq, Eq)]
pub struct SendPending {}

/// Waits for the next event of the answer; `description` is what came so far.
#[derive(Debug, PartialEq, Eq)]
pub struct StreamPending {
    pub description: String,
}

/// What has to happen next.
#[derive(Debug, PartialEq, Eq)]
pub enum Step<C, E> {
    /// Resolve the endpoint of the vision provider.
    ResolveProvider(ProviderPending),
    /// Resolve the credentials for the vision provider.
    ResolveAuth(AuthPending),
    /// Load the image behind `image_url`.
    LoadImage(LoadPending<C>),
    /// Send the request.
    SendRequest { request: ResponsesApiRequest<C>, pending: SendPending },
    /// Take the next event from the stream of the answer.
    PollStream(StreamPending),
    /// Nothing: this is the description, or why there is none.
    Finished(Result<String, VisionError<E>>),
}

pub enum StepView<C, E> {
    ResolveProvider(BatchView),
    ResolveAuth(BatchView),
    LoadImage(LoadView<C>),
    SendRequest(RequestView<C>),
    PollStream(Seq<char>),
    Finished(Result<Seq<char>, VisionErrorView<E>>),
}

impl<C, E> DeepView for Step<C, E> {
    type V = StepView<C, E>;

    open spec fn deep_view(&self) -> StepView<C, E> {
        match *self {
            Step::ResolveProvider(pending) => StepView::ResolveProvider(pending.batch.deep_view()),
            Step::ResolveAuth(pending) => StepView::ResolveAuth(pending.batch.deep_view()),
            Step::LoadImage(pending) => StepView::LoadImage(pending.deep_view()),
            Step::SendRequest { request, pending: _ } => StepView::SendRequest(request.deep_view()),
            Step::PollStream(pending) => StepView::PollStream(pending.description@),
            Step::Finished(outcome) => StepView::Finished(outcome_view(outcome)),
        }
    }
}

/// The first step: without images the description is empty, and nobody is
/// asked.
pub open spec fn first_step<C, E>(batch: BatchView) -> StepView<C, E> {
    if batch.images.len() == 0 {
        StepView::Finished(Ok(Seq::empty()))
    } else {
        StepView::ResolveProvider(batch)
    }
}

/// The step once the endpoint was resolved, or was not.
pub open spec fn after_provider<C, E>(batch: BatchView, answer: Result<(), E>) -> StepView<C, E> {
    match answer {
        Ok(_) => StepView::ResolveAuth(batch),
        Err(error) => StepView::Finished(Err(VisionErrorView::Host(error))),
    }
}

/// The step once the credentials were resolved, or were not: the request is put
/// together, with the instructions in front.
pub open spec fn after_auth<C, E>(batch: BatchView, answer: Result<(), E>) -> StepView<C, E> {
    match answer {
        Ok(_) => assembled(batch.model, batch.default_detail, seq![instruction_item()], batch.images),
        Err(error) => StepView::Finished(Err(VisionErrorView::Host(error))),
    }
}

/// Puts `images` after `content`, up to the first that has to be loaded; where
/// none has, the request is ready.
pub open spec fn assembled<C, E>(
    model: Seq<char>,
    default_detail: ImageDetail,
    content: Seq<ContentItemView<C>>,
    images: Seq<ImageRefView>,
) -> StepView<C, E>
    decreases images.len(),
{
    if images.len() == 0 {
        StepView::SendRequest(vision_request(model, content))
    } else {
        let (image_url, detail) = images[0];
        let rest = images.drop_first();
        if must_load(image_url) {
            StepView::LoadImage(LoadView { model, default_detail, content, image_url, detail, rest })
        } else {
            assembled(model, default_detail, content.push(image_item(image_url, detail, default_detail)), rest)
        }
    }
}

/// The step once the image was loaded, or was not.
pub open spec fn after_load<C, E>(
    pending: LoadView<C>,
    loaded: Result<Seq<char>, Seq<char>>,
) -> StepView<C, E> {
    match normalized::<E>(pending.image_url, loaded) {
        Ok(image_url) => assembled(
            pending.model,
            pending.default_detail,
            pending.content.push(image_item(image_url, pending.detail, pending.default_detail)),
            pending.rest,
        ),
        Err(error) => StepView::Finished(Err(error)),
    }
}

/// The step once the request was taken, or was not.
pub open spec fn after_send<C, E>(answer: Result<(), Seq<char>>) -> StepView<C, E> {
    match answer {
        Ok(_) => StepView::PollStream(Seq::empty()),
        Err(reason) => StepView::Finished(
            Err(VisionErrorView::Stream("vision request failed: "@ + reason)),
        ),
    }
}

/// The step after `description` came and then `item`: a piece of text is added,
/// completion and the end of the stream end the work, an error fails it, and
/// any other event changes nothing.
pub open spec fn after_stream_item<C, E>(
    description: Seq<char>,
    item: Option<Result<EventView, Seq<char>>>,
) -> StepView<C, E> {
    match item {
        None => StepView::Finished(Ok(description)),
        Some(Err(reason)) => StepView::Finished(
            Err(VisionErrorView::Stream("vision stream failed: "@ + reason)),
        ),
        Some(Ok(EventView::OutputTextDelta(delta))) => StepView::PollStream(description + delta),
        Some(Ok(EventView::Completed)) => StepView::Finished(Ok(description)),
        Some(Ok(EventView::Other)) => StepView::PollStream(description),
    }
}

/// The view of an answer that is an error text or nothing.
pub open spec fn sent_view(answer: Result<(), String>) -> Result<(), Seq<char>> {
    match answer {
        Ok(_) => Ok(()),
        Err(reason) => Err(reason@),
    }
}

fn message_with(start: &str, reason: &str) -> (message: String)
    ensures
        message@ == start@ + reason@,
{
    let mut message: String = start.to_string();
    message.append(reason);
    message
}

fn assemble<C, E>(
    model: String,
    default_detail: ImageDetail,
    content: Vec<ContentItem<C>>,
    images: Vec<ImageRef>,
) -> (step: Step<C, E>)
    ensures
        step.deep_view() == assembled::<C, E>(model@, default_detail, content.deep_view(), images.deep_view()),
{
    let mut all: Vec<ContentItem<C>> = content;
    let mut rest: Vec<ImageRef> = images;
    while rest.len() > 0
        invariant
            assembled::<C, E>(model@, default_detail, all.deep_view(), rest.deep_view()) == assembled::<C, E>(
                model@,
                default_detail,
                content.deep_view(),
                images.deep_view(),
            ),
        decreases rest@.len(),
    {
        let ghost so_far = all.deep_view();
        let ghost left = rest.deep_view();
        let (image_url, detail): ImageRef = rest.remove(0);
        assert(left[0] == (image_url@, detail));
        assert(rest.deep_view() == left.drop_first());
        if needs_loading(image_url.as_str()) {
            return Step::LoadImage(
                LoadPending { model, default_detail, content: all, image_url, detail, rest },
            );
        }
        let item: ContentItem<C> = build_image_item(image_url, detail, default_detail);
        all.push(item);
        assert(all.deep_view() == so_far.push(item.deep_view()));
    }
    Step::SendRequest { request: build_request(model, all), pending: SendPending {} }
}

/// Has `images` described by `model` in one request. `default_detail` is asked
/// for where an image names no detail of its own.
pub fn describe_images<C, E>(
    model: String,
    default_detail: ImageDetail,
    images: Vec<ImageRef>,
) -> (step: Step<C, E>)
    ensures
        step.deep_view() == first_step::<C, E>(
            (BatchView { model: model@, default_detail, images: images.deep_view() }),
        ),
{
    if images.is_empty() {
        return Step::Finished(Ok(String::new()));
    }
    Step::ResolveProvider(ProviderPending { batch: Batch { model, default_detail, images } })
}

impl ProviderPending {
    /// Goes on with whether the endpoint was resolved.
    pub fn resume<C, E>(self, answer: Result<(), E>) -> (step: Step<C, E>)
        ensures
            step.deep_view() == after_provider::<C, E>(self.batch.deep_view(), answer),
    {
        match answer {
            Ok(_) => Step::ResolveAuth(AuthPending { batch: self.batch }),
            Err(error) => Step::Finished(Err(VisionError::Host(error))),
        }
    }
}

impl AuthPending {
    /// Goes on with whether the credentials were resolved.
    pub fn resume<C, E>(self, answer: Result<(), E>) -> (step: Step<C, E>)
        ensures
            step.deep_view() == after_auth::<C, E>(self.batch.deep_view(), answer),
    {
        match answer {
            Ok(_) => {
                let mut content: Vec<ContentItem<C>> = Vec::new();
                content.push(build_instruction_item());
                assert(content.deep_view() == seq![instruction_item::<C>()]);
                assemble(self.batch.model, self.batch.default_detail, content, self.batch.images)
            },
            Err(error) => Step::Finished(Err(VisionError::Host(error))),
        }
    }
}

impl<C> LoadPending<C> {
    /// Goes on with the data URL of the loaded image, or with the reason why it
    /// could not be loaded.
    pub fn resume<E>(self, loaded: Result<String, String>) -> (step: Step<C, E>)
        ensures
            step.deep_view() == after_load::<C, E>(self.deep_view(), text_view(loaded)),
    {
        match normalize_image_url::<E>(self.image_url.as_str(), loaded) {
            Ok(image_url) => {
                let mut content: Vec<ContentItem<C>> = self.content;
                let ghost so_far = content.deep_view();
                let item: ContentItem<C> = build_image_item(image_url, self.detail, self.default_detail);
                content.push(item);
                assert(content.deep_view() == so_far.push(item.deep_view()));
                assemble(self.model, self.default_detail, content, self.rest)
            },
            Err(error) => Step::Finished(Err(error)),
        }
    }
}

impl SendPending {
    /// Goes on with whether the provider took the request.
    pub fn resume<C, E>(self, answer: Result<(), String>) -> (step: Step<C, E>)
        ensures
            step.deep_view() == after_send::<C, E>(sent_view(answer)),
    {
        match answer {
            Ok(_) => Step::PollStream(StreamPending { description: String::new() }),
            Err(reason) => Step::Finished(
                Err(VisionError::Stream(message_with("vision request failed: ", reason.as_str()))),
            ),
        }
    }
}

impl StreamPending {
    /// Goes on with what the stream gave next: an event, the reason of a
    /// failure, or `None` at its end.
    pub fn resume<C, E>(self, item: Option<Result<ResponseEvent, String>>) -> (step: Step<C, E>)
        ensures
            step.deep_view() == after_stream_item::<C, E>(self.description@, stream_item_view(item)),
    {
        match item {
            None => Step::Finished(Ok(self.description)),
            Some(Err(reason)) => Step::Finished(
                Err(VisionError::Stream(message_with("vision stream failed: ", reason.as_str()))),
            ),
            Some(Ok(ResponseEvent::OutputTextDelta(delta))) => {
                let mut description: String = self.description;
                description.append(delta.as_str());
                Step::PollStream(StreamPending { description })
            },
            Some(Ok(ResponseEvent::Completed)) => Step::Finished(Ok(self.description)),
            Some(Ok(ResponseEvent::Other)) => Step::PollStream(self),
        }
    }
}

} // verus!
