//! What the answers of the host and of the provider lead to, said of the
//! requests that go out and of the items that come back.

use vstd::prelude::*;

use crate::bridge::{bridged_response_items, bridged_user_input, text_to_attach};
use crate::describe::{
    after_auth, after_load, after_provider, after_send, after_stream_item, assembled, first_step,
    sent_view, stream_item_view, Batch, BatchView, EventView, LoadPending, LoadView, ResponseEvent, Step,
    StepView,
};
use crate::effects::{
    law_content_without_images_stays, law_description_follows_first_output_image,
    law_description_follows_first_user_image, law_history_is_attached_item_by_item,
    law_something_to_show, law_tool_images_are_detected,
};
use crate::error::{outcome_view, text_view, VisionError, VisionErrorView};
use crate::image_url::must_load;
use crate::images::{carries_image, has_response_image, tool_content};
use crate::items::{
    ContentItem, ContentItemView, FunctionCallOutputBody, FunctionCallOutputContentItem,
    FunctionCallOutputPayload, ImageDetail, ImageRefView, OutputBodyView, OutputItemView,
    OutputPayloadView, ResponseItem, ResponseItemView, UserInput, UserInputView,
};
use crate::laws::{law_request_carries_every_image, law_response_images_are_there_to_collect};
use crate::request::{image_item, instruction_item, vision_request, RequestView, ResponsesApiRequest};
use crate::run::{
    first_failed_load, follow, image_items, joined_text, law_run, load_count, stream_end, Answers,
};
use crate::text::{
    is_blank, VISION_BRIDGE_FAILURE_MESSAGE, VISION_DESCRIPTION_INSTRUCTIONS,
    VISION_DESCRIPTION_PREFIX,
};

verus! {

/// The item of an image shows its URL, and the detail that it asks for, or the
/// default handed in where it asks for none.
pub proof fn law_image_item_fields<C>(
    image_url: Seq<char>,
    detail: ImageDetail,
    default_detail: ImageDetail,
)
    ensures
        image_item::<C>(image_url, Some(detail), default_detail) == (ContentItemView::<C>::InputImage {
            image_url,
            detail: Some(detail),
        }),
        image_item::<C>(image_url, None, default_detail) == (ContentItemView::<C>::InputImage {
            image_url,
            detail: Some(default_detail),
        }),
{
}

/// A request is one message of the user with exactly the content given, to the
/// model given: streamed, not stored, without tools or any other option.
pub proof fn law_request_fields<C>(model: Seq<char>, content: Seq<ContentItemView<C>>)
    ensures
        ({
            let request = vision_request::<C>(model, content);
            &&& request.model == model
            &&& request.instructions.len() == 0
            &&& request.input.len() == 1
            &&& request.input[0] is Message
            &&& request.input[0]->Message_id is None
            &&& request.input[0]->Message_role == "user"@
            &&& request.input[0]->Message_content == content
            &&& request.input[0]->Message_phase is None
            &&& request.input[0]->Message_internal_chat_message_metadata_passthrough is None
            &&& request.tools is None
            &&& request.tool_choice == "none"@
            &&& !request.parallel_tool_calls
            &&& request.reasoning is None
            &&& !request.store
            &&& request.stream
            &&& request.stream_options is None
            &&& request.included.len() == 0
            &&& request.service_tier is None
            &&& request.prompt_cache_key is None
            &&& request.text is None
            &&& request.client_metadata is None
        }),
        instruction_item::<C>() == (ContentItemView::<C>::InputText { text: VISION_DESCRIPTION_INSTRUCTIONS@ }),
{
}

/// Work starts at the provider, then its credentials; an error of either ends
/// it as it came. Without images there is no work.
pub proof fn law_provider_and_credentials<C, E>(batch: BatchView, error: E)
    ensures
        batch.images.len() == 0 ==> first_step::<C, E>(batch) == StepView::<C, E>::Finished(Ok(Seq::empty())),
        batch.images.len() > 0 ==> first_step::<C, E>(batch) == StepView::<C, E>::ResolveProvider(batch),
        after_provider::<C, E>(batch, Ok(())) == StepView::<C, E>::ResolveAuth(batch),
        after_provider::<C, E>(batch, Err(error)) == StepView::<C, E>::Finished(
            Err(VisionErrorView::Host(error)),
        ),
        after_auth::<C, E>(batch, Ok(())) == assembled::<C, E>(
            batch.model,
            batch.default_detail,
            seq![ContentItemView::InputText { text: VISION_DESCRIPTION_INSTRUCTIONS@ }],
            batch.images,
        ),
        after_auth::<C, E>(batch, Err(error)) == StepView::<C, E>::Finished(Err(VisionErrorView::Host(error))),
{
}

/// The content grows by one item for each image, in order: an image that can be
/// sent as it is goes in with its URL and detail, and one that cannot is loaded
/// first. When no image is left the request goes out.
pub proof fn law_content_grows_image_by_image<C, E>(
    model: Seq<char>,
    default_detail: ImageDetail,
    content: Seq<ContentItemView<C>>,
    image_url: Seq<char>,
    detail: Option<ImageDetail>,
    rest: Seq<ImageRefView>,
    data_url: Seq<char>,
    reason: Seq<char>,
)
    ensures
        ({
            let asked = Some(
                match detail {
                    Some(detail) => detail,
                    None => default_detail,
                },
            );
            let images = seq![(image_url, detail)] + rest;
            let pending = LoadView { model, default_detail, content, image_url, detail, rest };
            &&& assembled::<C, E>(model, default_detail, content, Seq::empty()) == StepView::<C, E>::SendRequest(
                vision_request(model, content),
            )
            &&& !must_load(image_url) ==> assembled::<C, E>(model, default_detail, content, images) == assembled::<
                C,
                E,
            >(
                model,
                default_detail,
                content.push(ContentItemView::InputImage { image_url, detail: asked }),
                rest,
            )
            &&& must_load(image_url) ==> {
                &&& assembled::<C, E>(model, default_detail, content, images) == StepView::<C, E>::LoadImage(pending)
                &&& after_load::<C, E>(pending, Ok(data_url)) == assembled::<C, E>(
                    model,
                    default_detail,
                    content.push(ContentItemView::InputImage { image_url: data_url, detail: asked }),
                    rest,
                )
                &&& after_load::<C, E>(pending, Err(reason)) == StepView::<C, E>::Finished(
                    Err(VisionErrorView::InvalidRequest("invalid image for vision provider: "@ + reason)),
                )
            }
        }),
{
    let images = seq![(image_url, detail)] + rest;
    assert(images[0] == (image_url, detail));
    assert(images.drop_first() == rest);
}

/// Once the request is taken, every piece of text is added to the end of what
/// came before; completion and the end of the stream give all of it, other
/// events change nothing, and errors are told apart by their text.
pub proof fn law_text_is_added_piece_by_piece<C, E>(before: Seq<char>, delta: Seq<char>, reason: Seq<char>)
    ensures
        after_send::<C, E>(Ok(())) == StepView::<C, E>::PollStream(Seq::empty()),
        after_send::<C, E>(Err(reason)) == StepView::<C, E>::Finished(
            Err(VisionErrorView::Stream("vision request failed: "@ + reason)),
        ),
        after_stream_item::<C, E>(before, Some(Ok(EventView::OutputTextDelta(delta)))) == StepView::<
            C,
            E,
        >::PollStream(before + delta),
        after_stream_item::<C, E>(before, Some(Ok(EventView::Other))) == StepView::<C, E>::PollStream(before),
        after_stream_item::<C, E>(before, Some(Ok(EventView::Completed))) == StepView::<C, E>::Finished(
            Ok(before),
        ),
        after_stream_item::<C, E>(before, None) == StepView::<C, E>::Finished(Ok(before)),
        after_stream_item::<C, E>(before, Some(Err(reason))) == StepView::<C, E>::Finished(
            Err(VisionErrorView::Stream("vision stream failed: "@ + reason)),
        ),
{
}

proof fn lemma_load_count(images: Seq<ImageRefView>)
    ensures
        load_count(images) == images.filter(|im: ImageRefView| must_load(im.0)).len(),
    decreases images.len(),
{
    let pred = |im: ImageRefView| must_load(im.0);
    reveal(Seq::filter);
    if images.len() > 0 {
        let one = seq![images[0]];
        let rest = images.drop_first();
        lemma_load_count(rest);
        assert(images == one + rest);
        Seq::filter_distributes_over_add(one, rest, pred);
        assert(one.drop_last() == Seq::<ImageRefView>::empty());
        assert(one.drop_last().filter(pred).len() == 0);
        assert(one.last() == images[0]);
        assert(one.filter(pred).len() == if must_load(images[0].0) {
            1nat
        } else {
            0nat
        });
    }
}

proof fn lemma_no_failed_load(loads: Seq<Result<Seq<char>, Seq<char>>>)
    requires
        forall|j: int| 0 <= j < loads.len() ==> (#[trigger] loads[j]) is Ok,
    ensures
        first_failed_load(loads) is None,
    decreases loads.len(),
{
    if loads.len() > 0 {
        let rest = loads.drop_first();
        assert forall|j: int| 0 <= j < rest.len() implies (#[trigger] rest[j]) is Ok by {
            assert(rest[j] == loads[j + 1]);
        }
        lemma_no_failed_load(rest);
    }
}

proof fn lemma_first_failed_load(loads: Seq<Result<Seq<char>, Seq<char>>>, k: int)
    requires
        0 <= k < loads.len(),
        loads[k] is Err,
        forall|j: int| 0 <= j < k ==> (#[trigger] loads[j]) is Ok,
    ensures
        first_failed_load(loads) == Some(loads[k]->Err_0),
    decreases loads.len(),
{
    if k > 0 {
        assert(loads[0] is Ok);
        let rest = loads.drop_first();
        assert forall|j: int| 0 <= j < k - 1 implies (#[trigger] rest[j]) is Ok by {
            assert(rest[j] == loads[j + 1]);
        }
        assert(rest[k - 1] == loads[k]);
        lemma_first_failed_load(rest, k - 1);
    }
}

/// Where endpoint, credentials and loads are good, one request goes out, and
/// its message holds the instructions and then every image of the batch: the
/// k-th with its own URL, or with what it was loaded into where that is needed,
/// and with its own detail, or the default where it has none.
pub proof fn law_one_request_shows_every_image<C, E>(batch: BatchView, answers: Answers<E>)
    requires
        batch.images.len() > 0,
        answers.provider is Ok,
        answers.auth is Ok,
        answers.loads.len() == batch.images.filter(|im: ImageRefView| must_load(im.0)).len(),
        forall|j: int| 0 <= j < answers.loads.len() ==> (#[trigger] answers.loads[j]) is Ok,
    ensures
        ({
            let requests = follow::<C, E>(first_step(batch), answers).requests;
            let content = requests[0].input[0]->Message_content;
            &&& requests.len() == 1
            &&& requests[0].model == batch.model
            &&& requests[0].input.len() == 1
            &&& requests[0].input[0] is Message
            &&& requests[0].input[0]->Message_role == "user"@
            &&& content.len() == batch.images.len() + 1
            &&& content[0] is InputText
            &&& content[0]->InputText_text == VISION_DESCRIPTION_INSTRUCTIONS@
            &&& forall|k: int|
                1 <= k <= batch.images.len() ==> {
                    let (image_url, detail) = batch.images[k - 1];
                    let loads_before = batch.images.take(k - 1).filter(
                        |im: ImageRefView| must_load(im.0),
                    ).len();
                    &&& (#[trigger] content[k]) is InputImage
                    &&& detail is Some ==> content[k]->InputImage_detail == detail
                    &&& detail is None ==> content[k]->InputImage_detail == Some(batch.default_detail)
                    &&& !must_load(image_url) ==> content[k]->InputImage_image_url == image_url
                    &&& must_load(image_url) ==> content[k]->InputImage_image_url
                        == answers.loads[loads_before as int]->Ok_0
                }
        }),
{
    lemma_load_count(batch.images);
    lemma_no_failed_load(answers.loads);
    law_run::<C, E>(batch, answers);
    law_request_carries_every_image::<C>(batch.images, batch.default_detail, answers.loads);
    let items = image_items::<C>(batch.images, batch.default_detail, answers.loads);
    let requests = follow::<C, E>(first_step(batch), answers).requests;
    let content = requests[0].input[0]->Message_content;
    assert(content == seq![instruction_item::<C>()] + items);
    assert forall|k: int| 1 <= k <= batch.images.len() implies {
        let (image_url, detail) = batch.images[k - 1];
        let loads_before = batch.images.take(k - 1).filter(|im: ImageRefView| must_load(im.0)).len();
        &&& (#[trigger] content[k]) is InputImage
        &&& detail is Some ==> content[k]->InputImage_detail == detail
        &&& detail is None ==> content[k]->InputImage_detail == Some(batch.default_detail)
        &&& !must_load(image_url) ==> content[k]->InputImage_image_url == image_url
        &&& must_load(image_url) ==> content[k]->InputImage_image_url == answers.loads[loads_before as int]->Ok_0
    } by {
        assert(content[k] == items[k - 1]);
        lemma_load_count(batch.images.take(k - 1));
    }
}

/// The first thing that goes wrong before the request ends the run: nothing is
/// sent, and the outcome says what it was.
pub proof fn law_first_error_ends_the_run<C, E>(batch: BatchView, answers: Answers<E>, k: int)
    requires
        batch.images.len() > 0,
        answers.loads.len() == batch.images.filter(|im: ImageRefView| must_load(im.0)).len(),
    ensures
        ({
            let run = follow::<C, E>(first_step(batch), answers);
            &&& answers.provider is Err ==> run.requests.len() == 0 && run.outcome == Err::<
                Seq<char>,
                VisionErrorView<E>,
            >(VisionErrorView::Host(answers.provider->Err_0))
            &&& answers.provider is Ok && answers.auth is Err ==> run.requests.len() == 0 && run.outcome == Err::<
                Seq<char>,
                VisionErrorView<E>,
            >(VisionErrorView::Host(answers.auth->Err_0))
            &&& answers.provider is Ok && answers.auth is Ok && 0 <= k < answers.loads.len() && answers.loads[k] is Err
                && (forall|j: int| 0 <= j < k ==> (#[trigger] answers.loads[j]) is Ok) ==> run.requests.len() == 0
                && run.outcome == Err::<Seq<char>, VisionErrorView<E>>(
                VisionErrorView::InvalidRequest(
                    "invalid image for vision provider: "@ + answers.loads[k]->Err_0,
                ),
            )
        }),
{
    lemma_load_count(batch.images);
    law_run::<C, E>(batch, answers);
    if answers.provider is Ok && answers.auth is Ok && 0 <= k < answers.loads.len() && answers.loads[k] is Err && (
    forall|j: int| 0 <= j < k ==> (#[trigger] answers.loads[j]) is Ok) {
        lemma_first_failed_load(answers.loads, k);
    }
}

proof fn lemma_stream_end_is(stream: Seq<Result<EventView, Seq<char>>>, end: int)
    requires
        0 <= end <= stream.len(),
        forall|j: int| 0 <= j < end ==> (#[trigger] stream[j]) is Ok && !(stream[j]->Ok_0 is Completed),
        end < stream.len() ==> stream[end] is Err || stream[end]->Ok_0 is Completed,
    ensures
        stream_end(stream) == end,
    decreases stream.len(),
{
    if end > 0 {
        assert(stream[0] is Ok && !(stream[0]->Ok_0 is Completed));
        let rest = stream.drop_first();
        assert forall|j: int| 0 <= j < end - 1 implies (#[trigger] rest[j]) is Ok && !(
        rest[j]->Ok_0 is Completed) by {
            assert(rest[j] == stream[j + 1]);
        }
        assert(end < stream.len() ==> rest[end - 1] == stream[end]);
        lemma_stream_end_is(rest, end - 1);
    }
}

proof fn lemma_joined(stream: Seq<Result<EventView, Seq<char>>>)
    ensures
        joined_text(stream) == stream.map_values(
            |e: Result<EventView, Seq<char>>|
                match e {
                    Ok(EventView::OutputTextDelta(delta)) => delta,
                    _ => Seq::<char>::empty(),
                },
        ).flatten(),
    decreases stream.len(),
{
    let piece = |e: Result<EventView, Seq<char>>|
        match e {
            Ok(EventView::OutputTextDelta(delta)) => delta,
            _ => Seq::<char>::empty(),
        };
    if stream.len() > 0 {
        lemma_joined(stream.drop_first());
        assert(stream.map_values(piece).drop_first() == stream.drop_first().map_values(piece));
        assert(stream.map_values(piece).first() == piece(stream[0]));
    }
}

/// The outcome of a run whose request went out. Refused, it is that error. Else
/// the stream is read up to its completion, its first error or its end, all of
/// which the place `end` says: an error is the outcome, and otherwise the
/// outcome is all the pieces of text before `end`, joined in order.
pub proof fn law_answer_is_all_pieces_joined<C, E>(batch: BatchView, answers: Answers<E>, end: int)
    requires
        batch.images.len() > 0,
        answers.provider is Ok,
        answers.auth is Ok,
        answers.loads.len() == batch.images.filter(|im: ImageRefView| must_load(im.0)).len(),
        forall|j: int| 0 <= j < answers.loads.len() ==> (#[trigger] answers.loads[j]) is Ok,
        0 <= end <= answers.stream.len(),
        forall|j: int|
            0 <= j < end ==> (#[trigger] answers.stream[j]) is Ok && !(answers.stream[j]->Ok_0 is Completed),
        end < answers.stream.len() ==> answers.stream[end] is Err || answers.stream[end]->Ok_0 is Completed,
    ensures
        ({
            let outcome = follow::<C, E>(first_step(batch), answers).outcome;
            if answers.sent is Err {
                outcome == Err::<Seq<char>, VisionErrorView<E>>(
                    VisionErrorView::Stream("vision request failed: "@ + answers.sent->Err_0),
                )
            } else if end < answers.stream.len() && answers.stream[end] is Err {
                outcome == Err::<Seq<char>, VisionErrorView<E>>(
                    VisionErrorView::Stream("vision stream failed: "@ + answers.stream[end]->Err_0),
                )
            } else {
                outcome == Ok::<Seq<char>, VisionErrorView<E>>(
                    answers.stream.take(end).map_values(
                        |e: Result<EventView, Seq<char>>|
                            match e {
                                Ok(EventView::OutputTextDelta(delta)) => delta,
                                _ => Seq::<char>::empty(),
                            },
                    ).flatten(),
                )
            }
        }),
{
    lemma_load_count(batch.images);
    lemma_no_failed_load(answers.loads);
    law_run::<C, E>(batch, answers);
    lemma_stream_end_is(answers.stream, end);
    lemma_joined(answers.stream.take(end));
}

/// The text that an outcome leads to is the whole description, nothing where
/// that is blank, and the failure message for every error.
pub proof fn law_text_of_an_outcome<E>(description: Seq<char>, error: VisionErrorView<E>)
    ensures
        text_to_attach::<E>(Err(error)) == Some(VISION_BRIDGE_FAILURE_MESSAGE@),
        is_blank(description) ==> text_to_attach::<E>(Ok(description)) is None,
        !is_blank(description) ==> text_to_attach::<E>(Ok(description)) == Some(description),
{
}

/// Where an image could be shown, by URL or read from a file, every error leaves
/// the failure message and every description that is not blank leaves all of
/// itself, marked, in one text directly after the first image, and nothing else
/// changes. A blank description changes nothing.
pub proof fn law_user_input_tells_what_was_seen<C, E>(
    input: Seq<UserInputView<C>>,
    loaded: Seq<Option<Seq<char>>>,
    outcome: Result<Seq<char>, VisionErrorView<E>>,
    at: int,
)
    requires
        loaded.len() == input.filter(|x: UserInputView<C>| x is LocalImage).len(),
        (exists|i: int| 0 <= i < input.len() && (#[trigger] input[i]) is Image) || (exists|j: int|
            0 <= j < loaded.len() && (#[trigger] loaded[j]) is Some),
        0 <= at < input.len(),
        input[at] is Image || input[at] is LocalImage,
        forall|j: int| 0 <= j < at ==> !((#[trigger] input[j]) is Image) && !(input[j] is LocalImage),
    ensures
        ({
            let out = bridged_user_input(input, loaded, outcome);
            if outcome is Ok && is_blank(outcome->Ok_0) {
                out == input
            } else {
                let said = match outcome {
                    Ok(description) => description,
                    Err(_) => VISION_BRIDGE_FAILURE_MESSAGE@,
                };
                &&& out.len() == input.len() + 1
                &&& out.take(at + 1) == input.take(at + 1)
                &&& out.skip(at + 2) == input.skip(at + 1)
                &&& out[at + 1] is Text
                &&& out[at + 1]->Text_text == VISION_DESCRIPTION_PREFIX@ + "\n"@ + said
                &&& out[at + 1]->Text_text_elements.len() == 0
            }
        }),
{
    law_something_to_show(input, loaded);
    let said = match outcome {
        Ok(description) => description,
        Err(_) => VISION_BRIDGE_FAILURE_MESSAGE@,
    };
    law_description_follows_first_user_image(input, said, at);
}

/// Where no image came by URL and no local one could be read, user input stays
/// as it is, whatever the outcome.
pub proof fn law_nothing_shown_nothing_said<C, E>(
    input: Seq<UserInputView<C>>,
    loaded: Seq<Option<Seq<char>>>,
    outcome: Result<Seq<char>, VisionErrorView<E>>,
)
    requires
        loaded.len() == input.filter(|x: UserInputView<C>| x is LocalImage).len(),
        forall|i: int| 0 <= i < input.len() ==> !((#[trigger] input[i]) is Image),
        forall|j: int| 0 <= j < loaded.len() ==> (#[trigger] loaded[j]) is None,
    ensures
        bridged_user_input(input, loaded, outcome) == input,
{
    law_something_to_show(input, loaded);
}

/// In the history, every tool output with an image has the failure message, or
/// all of a description that is not blank, marked, in one text directly after
/// its first image, with the rest of its content as it was. A blank description
/// changes nothing.
pub proof fn law_tool_outputs_tell_what_was_seen<C, E>(
    items: Seq<ResponseItemView<C>>,
    outcome: Result<Seq<char>, VisionErrorView<E>>,
    i: int,
    output: OutputPayloadView<C>,
    content: Seq<OutputItemView<C>>,
    at: int,
)
    requires
        0 <= i < items.len(),
        output.body == OutputBodyView::ContentItems(content),
        match items[i] {
            ResponseItemView::FunctionCallOutput { output: o, .. } => o == output,
            ResponseItemView::CustomToolCallOutput { output: o, .. } => o == output,
            _ => false,
        },
        0 <= at < content.len(),
        content[at] is InputImage,
        forall|j: int| 0 <= j < at ==> !((#[trigger] content[j]) is InputImage),
    ensures
        ({
            let out = bridged_response_items(items, outcome);
            if outcome is Ok && is_blank(outcome->Ok_0) {
                out == items
            } else {
                let said = match outcome {
                    Ok(description) => description,
                    Err(_) => VISION_BRIDGE_FAILURE_MESSAGE@,
                };
                &&& out.len() == items.len()
                &&& match (items[i], out[i]) {
                    (
                        ResponseItemView::FunctionCallOutput {
                            id,
                            call_id,
                            internal_chat_message_metadata_passthrough: passed,
                            ..
                        },
                        ResponseItemView::FunctionCallOutput {
                            id: id2,
                            call_id: call_id2,
                            output: output2,
                            internal_chat_message_metadata_passthrough: passed2,
                        },
                    ) => {
                        &&& id2 == id && call_id2 == call_id && passed2 == passed
                        &&& output2.success == output.success
                        &&& output2.body is ContentItems
                        &&& output2.body->ContentItems_0.take(at + 1) == content.take(at + 1)
                        &&& output2.body->ContentItems_0.skip(at + 2) == content.skip(at + 1)
                        &&& output2.body->ContentItems_0.len() == content.len() + 1
                        &&& output2.body->ContentItems_0[at + 1] is InputText
                        &&& output2.body->ContentItems_0[at + 1]->InputText_text == VISION_DESCRIPTION_PREFIX@
                            + "\n"@ + said
                    },
                    (
                        ResponseItemView::CustomToolCallOutput { rest, .. },
                        ResponseItemView::CustomToolCallOutput { output: output2, rest: rest2 },
                    ) => {
                        &&& rest2 == rest
                        &&& output2.success == output.success
                        &&& output2.body is ContentItems
                        &&& output2.body->ContentItems_0.take(at + 1) == content.take(at + 1)
                        &&& output2.body->ContentItems_0.skip(at + 2) == content.skip(at + 1)
                        &&& output2.body->ContentItems_0.len() == content.len() + 1
                        &&& output2.body->ContentItems_0[at + 1] is InputText
                        &&& output2.body->ContentItems_0[at + 1]->InputText_text == VISION_DESCRIPTION_PREFIX@
                            + "\n"@ + said
                    },
                    _ => false,
                }
            }
        }),
{
    law_tool_images_are_detected(items[i], output, content);
    assert(carries_image(items[i]));
    assert(has_response_image(items));
    law_response_images_are_there_to_collect(items);
    let said = match outcome {
        Ok(description) => description,
        Err(_) => VISION_BRIDGE_FAILURE_MESSAGE@,
    };
    law_history_is_attached_item_by_item(items, said, i);
    law_description_follows_first_output_image(content, said, at);
}

/// An item of the history that is no tool output, whose output is plain text or
/// whose content has no image, stays as it is, whatever the outcome.
pub proof fn law_other_items_stay<C, E>(
    items: Seq<ResponseItemView<C>>,
    outcome: Result<Seq<char>, VisionErrorView<E>>,
    i: int,
)
    requires
        0 <= i < items.len(),
        match items[i] {
            ResponseItemView::FunctionCallOutput {
                output: OutputPayloadView { body: OutputBodyView::ContentItems(content), .. },
                ..
            } => forall|j: int| 0 <= j < content.len() ==> !((#[trigger] content[j]) is InputImage),
            ResponseItemView::CustomToolCallOutput {
                output: OutputPayloadView { body: OutputBodyView::ContentItems(content), .. },
                ..
            } => forall|j: int| 0 <= j < content.len() ==> !((#[trigger] content[j]) is InputImage),
            _ => true,
        },
    ensures
        bridged_response_items(items, outcome).len() == items.len(),
        bridged_response_items(items, outcome)[i] == items[i],
{
    if let Some(text) = text_to_attach(outcome) {
        law_history_is_attached_item_by_item(items, text, i);
        if let Some(content) = tool_content(items[i]) {
            law_content_without_images_stays(content, text);
        }
    }
}

/// The view of what the user handed in shows every field.
pub proof fn law_user_input_view<C>(item: UserInput<C>)
    ensures
        match item {
            UserInput::Text { text, text_elements } => item.deep_view() == (UserInputView::<C>::Text {
                text: text@,
                text_elements: text_elements@,
            }),
            UserInput::Image { image_url, detail } => item.deep_view() == (UserInputView::<C>::Image {
                image_url: image_url@,
                detail,
            }),
            UserInput::LocalImage { path, detail } => item.deep_view() == (UserInputView::<C>::LocalImage {
                path,
                detail,
            }),
            UserInput::Other(carried) => item.deep_view() == UserInputView::<C>::Other(carried),
        },
{
}

/// The views of content items show every field.
pub proof fn law_content_views<C>(item: ContentItem<C>, output_item: FunctionCallOutputContentItem<C>)
    ensures
        match item {
            ContentItem::InputText { text } => item.deep_view() == (ContentItemView::<C>::InputText {
                text: text@,
            }),
            ContentItem::InputImage { image_url, detail } => item.deep_view() == (ContentItemView::<
                C,
            >::InputImage { image_url: image_url@, detail }),
            ContentItem::Other(carried) => item.deep_view() == ContentItemView::<C>::Other(carried),
        },
        match output_item {
            FunctionCallOutputContentItem::InputText { text } => output_item.deep_view() == (OutputItemView::<
                C,
            >::InputText { text: text@ }),
            FunctionCallOutputContentItem::InputImage { image_url, detail } => output_item.deep_view() == (
            OutputItemView::<C>::InputImage { image_url: image_url@, detail }),
            FunctionCallOutputContentItem::Other(carried) => output_item.deep_view() == OutputItemView::<
                C,
            >::Other(carried),
        },
{
}

/// The view of an item of the history shows every field.
pub proof fn law_response_item_view<C>(item: ResponseItem<C>, output: FunctionCallOutputPayload<C>)
    ensures
        match item {
            ResponseItem::Message { id, role, content, phase, internal_chat_message_metadata_passthrough } => {
                item.deep_view() == (ResponseItemView::<C>::Message {
                    id: id.deep_view(),
                    role: role@,
                    content: content.deep_view(),
                    phase,
                    internal_chat_message_metadata_passthrough,
                })
            },
            ResponseItem::FunctionCallOutput { id, call_id, output, internal_chat_message_metadata_passthrough } => {
                item.deep_view() == (ResponseItemView::<C>::FunctionCallOutput {
                    id: id.deep_view(),
                    call_id: call_id@,
                    output: output.deep_view(),
                    internal_chat_message_metadata_passthrough,
                })
            },
            ResponseItem::CustomToolCallOutput { output, rest } => {
                item.deep_view() == (ResponseItemView::<C>::CustomToolCallOutput {
                    output: output.deep_view(),
                    rest,
                })
            },
            ResponseItem::Other(carried) => item.deep_view() == ResponseItemView::<C>::Other(carried),
        },
        output.deep_view().success == output.success,
        match output.body {
            FunctionCallOutputBody::Text(text) => output.deep_view().body == OutputBodyView::<C>::Text(text@),
            FunctionCallOutputBody::ContentItems(content) => output.deep_view().body == OutputBodyView::<
                C,
            >::ContentItems(content.deep_view()),
        },
{
}

/// The view of a request shows every field.
pub proof fn law_request_view<C>(request: ResponsesApiRequest<C>)
    ensures
        request.deep_view() == (RequestView::<C> {
            model: request.model@,
            instructions: request.instructions@,
            input: request.input.deep_view(),
            tools: request.tools,
            tool_choice: request.tool_choice@,
            parallel_tool_calls: request.parallel_tool_calls,
            reasoning: request.reasoning,
            store: request.store,
            stream: request.stream,
            stream_options: request.stream_options,
            included: request.included.deep_view(),
            service_tier: request.service_tier,
            prompt_cache_key: request.prompt_cache_key,
            text: request.text,
            client_metadata: request.client_metadata,
        }),
{
}

/// The view of a step shows what it asks for and everything that it keeps, and
/// so do the views of batches and of images that wait to be loaded.
pub proof fn law_step_view<C, E>(step: Step<C, E>, batch: Batch, pending: LoadPending<C>, detail: ImageDetail)
    ensures
        match step {
            Step::ResolveProvider(waiting) => step.deep_view() == StepView::<C, E>::ResolveProvider(
                waiting.batch.deep_view(),
            ),
            Step::ResolveAuth(waiting) => step.deep_view() == StepView::<C, E>::ResolveAuth(
                waiting.batch.deep_view(),
            ),
            Step::LoadImage(waiting) => step.deep_view() == StepView::<C, E>::LoadImage(waiting.deep_view()),
            Step::SendRequest { request, .. } => step.deep_view() == StepView::<C, E>::SendRequest(
                request.deep_view(),
            ),
            Step::PollStream(waiting) => step.deep_view() == StepView::<C, E>::PollStream(waiting.description@),
            Step::Finished(Ok(text)) => step.deep_view() == StepView::<C, E>::Finished(Ok(text@)),
            Step::Finished(Err(error)) => step.deep_view() == StepView::<C, E>::Finished(Err(error.deep_view())),
        },
        batch.deep_view() == (BatchView {
            model: batch.model@,
            default_detail: batch.default_detail,
            images: batch.images.deep_view(),
        }),
        pending.deep_view() == (LoadView::<C> {
            model: pending.model@,
            default_detail: pending.default_detail,
            content: pending.content.deep_view(),
            image_url: pending.image_url@,
            detail: pending.detail,
            rest: pending.rest.deep_view(),
        }),
        detail.deep_view() == detail,
{
}

/// The views of events, errors and results show their text and tell them
/// apart.
pub proof fn law_answer_views<E>(text: String, error: E, failed: VisionError<E>)
    ensures
        stream_item_view(None) is None,
        stream_item_view(Some(Ok(ResponseEvent::OutputTextDelta(text)))) == Some(
            Ok::<EventView, Seq<char>>(EventView::OutputTextDelta(text@)),
        ),
        stream_item_view(Some(Ok(ResponseEvent::Completed))) == Some(
            Ok::<EventView, Seq<char>>(EventView::Completed),
        ),
        stream_item_view(Some(Ok(ResponseEvent::Other))) == Some(Ok::<EventView, Seq<char>>(EventView::Other)),
        stream_item_view(Some(Err(text))) == Some(Err::<EventView, Seq<char>>(text@)),
        sent_view(Ok(())) == Ok::<(), Seq<char>>(()),
        sent_view(Err(text)) == Err::<(), Seq<char>>(text@),
        text_view(Ok(text)) == Ok::<Seq<char>, Seq<char>>(text@),
        text_view(Err(text)) == Err::<Seq<char>, Seq<char>>(text@),
        outcome_view::<E>(Ok(text)) == Ok::<Seq<char>, VisionErrorView<E>>(text@),
        outcome_view::<E>(Err(failed)) == Err::<Seq<char>, VisionErrorView<E>>(failed.deep_view()),
        VisionError::<E>::InvalidRequest(text).deep_view() == VisionErrorView::<E>::InvalidRequest(text@),
        VisionError::<E>::Stream(text).deep_view() == VisionErrorView::<E>::Stream(text@),
        VisionError::<E>::Host(error).deep_view() == VisionErrorView::<E>::Host(error),
{
}

} // verus!
