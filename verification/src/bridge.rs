//! The bridge: which vision model is configured, and what its answer does to
//! the items whose images it was shown.

use vstd::prelude::*;

use crate::attach::{
    attach_response_item_description, attach_vision_description, with_response_description,
    with_user_description,
};
use crate::describe::{describe_images, first_step, BatchView, Step};
use crate::error::{outcome_view, VisionError, VisionErrorView};
use crate::images::{
    lemma_local_image_count_grows, lemma_take_succ, local_image_count, response_images,
    response_items_have_images, user_images, user_input_has_images,
};
use crate::items::{
    ImageDetail, ImageRef, ResponseItem, ResponseItemView, UserInput, UserInputView,
};
use crate::laws::{law_response_images_are_there_to_collect, law_user_images_come_from_image_items};
use crate::text::{blank, is_blank, VISION_BRIDGE_FAILURE_MESSAGE};

verus! {

/// The part of the configuration that the bridge reads. `P` is what the host
/// knows of a provider.
#[derive(Debug, PartialEq, Eq)]
pub struct VisionConfig<P> {
    pub vision_provider: Option<P>,
    pub vision_model: Option<String>,
}

/// A vision provider of its own and the model to ask there. The provider of the
/// session is not touched.
#[derive(Debug, PartialEq, Eq)]
pub struct VisionBridge<P> {
    pub provider: P,
    pub model: String,
}

impl<P: Clone> Clone for VisionBridge<P> {
    fn clone(&self) -> (r: Self)
        ensures
            cloned(self.provider, r.provider),
            r.model@ == self.model@,
    {
        VisionBridge { provider: self.provider.clone(), model: self.model.clone() }
    }
}

impl<P> VisionBridge<P> {
    pub fn new(provider: P, model: String) -> (bridge: Self)
        ensures
            bridge.provider == provider,
            bridge.model == model,
    {
        VisionBridge { provider, model }
    }

    /// Has `images` described in one request to the configured model.
    /// `default_detail` is asked for where an image names no detail of its own.
    pub fn describe_images<C, E>(&self, images: Vec<ImageRef>, default_detail: ImageDetail) -> (step: Step<
        C,
        E,
    >)
        ensures
            step.deep_view() == first_step::<C, E>(
                (BatchView { model: self.model@, default_detail, images: images.deep_view() }),
            ),
    {
        describe_images(self.model.clone(), default_detail, images)
    }
}

/// The bridge, when the session configures one: both a provider and a model.
pub fn vision_bridge_from_config<P: Clone>(config: &VisionConfig<P>) -> (bridge: Option<VisionBridge<P>>)
    ensures
        bridge is Some <==> config.vision_provider is Some && config.vision_model is Some,
        bridge matches Some(bridge) ==> cloned(config.vision_provider->0, bridge.provider) && bridge.model@
            == config.vision_model->0@,
{
    match (&config.vision_provider, &config.vision_model) {
        (Some(provider), Some(model)) => Some(VisionBridge::new(provider.clone(), model.clone())),
        _ => None,
    }
}

/// What is attached for an outcome: the description, unless it is blank, and
/// the explicit failure message where there is none.
pub open spec fn text_to_attach<E>(outcome: Result<Seq<char>, VisionErrorView<E>>) -> Option<Seq<char>> {
    match outcome {
        Ok(description) => if is_blank(description) {
            None
        } else {
            Some(description)
        },
        Err(_) => Some(VISION_BRIDGE_FAILURE_MESSAGE@),
    }
}

/// The user's input after the bridge: as it was where no image could be shown
/// or the description is blank, and else with the text attached.
pub open spec fn bridged_user_input<C, E>(
    input: Seq<UserInputView<C>>,
    loaded: Seq<Option<Seq<char>>>,
    outcome: Result<Seq<char>, VisionErrorView<E>>,
) -> Seq<UserInputView<C>> {
    if user_images(input, loaded).len() == 0 {
        input
    } else {
        match text_to_attach(outcome) {
            Some(text) => with_user_description(input, text),
            None => input,
        }
    }
}

/// The history after the bridge: as it was where there is no image or the
/// description is blank, and else with the text attached.
pub open spec fn bridged_response_items<C, E>(
    items: Seq<ResponseItemView<C>>,
    outcome: Result<Seq<char>, VisionErrorView<E>>,
) -> Seq<ResponseItemView<C>> {
    if response_images(items).len() == 0 {
        items
    } else {
        match text_to_attach(outcome) {
            Some(text) => with_response_description(items, text),
            None => items,
        }
    }
}

fn choose_text<E>(outcome: Result<String, VisionError<E>>) -> (text: Option<String>)
    ensures
        text.deep_view() == text_to_attach(outcome_view(outcome)),
{
    match outcome {
        Ok(description) => if blank(description.as_str()) {
            None
        } else {
            Some(description)
        },
        Err(_) => Some(VISION_BRIDGE_FAILURE_MESSAGE.to_string()),
    }
}

/// Whether any image of `input` is there to be shown.
fn any_user_image<C>(input: &[UserInput<C>], loaded: &[Option<String>]) -> (r: bool)
    requires
        loaded@.len() == local_image_count(input.deep_view()),
    ensures
        r == (user_images(input.deep_view(), loaded.deep_view()).len() > 0),
{
    let ghost all = input.deep_view();
    let ghost urls = loaded.deep_view();
    let mut found: bool = false;
    let mut i: usize = 0;
    let mut next_local: usize = 0;
    assert(all.take(0) == Seq::<UserInputView<C>>::empty());
    while i < input.len()
        invariant
            i <= input@.len(),
            all == input.deep_view(),
            urls == loaded.deep_view(),
            loaded@.len() == local_image_count(all),
            next_local == local_image_count(all.take(i as int)),
            found == (user_images(all.take(i as int), urls).len() > 0),
        decreases input@.len() - i,
    {
        proof {
            lemma_take_succ(all, i as int);
            lemma_local_image_count_grows(all, i as int + 1);
        }
        match &input[i] {
            UserInput::Image { .. } => {
                found = true;
            },
            UserInput::LocalImage { .. } => {
                found = found || loaded[next_local].is_some();
                next_local += 1;
            },
            _ => {},
        }
        i += 1;
    }
    assert(all.take(all.len() as int) == all);
    found
}

/// Brings the outcome of describing the images of `input` into `input`, without
/// removing the images. `loaded` holds, for each local image in order, the data
/// URL that its file was read into, or `None` where it could not be read.
///
/// A description is inserted after the first image. On failure the explicit
/// failure message is inserted instead, so that the model never believes that
/// it saw the image. A failure never goes further than that.
pub fn bridge_user_input_images<C, E>(
    input: &mut Vec<UserInput<C>>,
    loaded: &[Option<String>],
    outcome: Result<String, VisionError<E>>,
)
    requires
        loaded@.len() == local_image_count(old(input).deep_view()),
    ensures
        final(input).deep_view() == bridged_user_input(
            old(input).deep_view(),
            loaded.deep_view(),
            outcome_view(outcome),
        ),
{
    if !user_input_has_images(input.as_slice()) {
        proof {
            law_user_images_come_from_image_items(input.deep_view(), loaded.deep_view());
        }
        return;
    }
    if !any_user_image(input.as_slice(), loaded) {
        return;
    }
    if let Some(text) = choose_text(outcome) {
        attach_vision_description(input, text.as_str());
    }
}

/// Brings the outcome of describing the images of all tool outputs into
/// `items`, without removing the images.
///
/// The description is inserted after the first image of each output that has
/// one. On failure the explicit failure message is inserted instead. A failure
/// never goes further than that.
pub fn bridge_response_item_images<C, E>(
    items: &mut Vec<ResponseItem<C>>,
    outcome: Result<String, VisionError<E>>,
)
    ensures
        final(items).deep_view() == bridged_response_items(old(items).deep_view(), outcome_view(outcome)),
{
    let found: bool = response_items_have_images(items.as_slice());
    proof {
        law_response_images_are_there_to_collect(items.deep_view());
    }
    if !found {
        return;
    }
    if let Some(text) = choose_text(outcome) {
        attach_response_item_description(items, text.as_str());
    }
}

} // verus!
