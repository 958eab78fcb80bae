//! What holds of the bridge as a whole.

use vstd::prelude::*;

use crate::attach::{
    described, first_output_image, first_user_image, lemma_first_output_image, lemma_first_user_image,
    output_description, user_description, with_content_description, with_item_description,
    with_response_description, with_user_description,
};
use crate::bridge::{bridged_response_items, bridged_user_input, text_to_attach};
use crate::describe::{first_step, BatchView};
use crate::error::VisionErrorView;
use crate::image_url::{is_data_url, is_image_data_url, must_load, normalized};
use crate::images::{
    carries_image, has_output_image, has_response_image, has_user_image, is_output_image, is_user_image,
    item_images, local_image_count, local_paths, output_images, response_images, tool_content,
    user_images,
};
use crate::items::{
    ImageDetail, ImageRefView, OutputItemView, ResponseItemView, UserInputView,
};
use crate::request::{image_item, instruction_item, vision_request};
use crate::run::{
    first_failed_load, follow, image_items, law_run, load_count, stream_outcome, Answers,
};
use crate::text::{
    ascii_lower, is_blank, LOCAL_IMAGE_MEDIA_TYPE, VISION_BRIDGE_FAILURE_MESSAGE,
    VISION_DESCRIPTION_PREFIX,
};

verus! {

/// There are images to describe only where the user handed one in: without an
/// image item, nothing is collected, whatever was loaded.
pub proof fn law_user_images_come_from_image_items<C>(
    input: Seq<UserInputView<C>>,
    loaded: Seq<Option<Seq<char>>>,
)
    ensures
        !has_user_image(input) ==> user_images(input, loaded).len() == 0,
    decreases input.len(),
{
    if input.len() > 0 {
        law_user_images_come_from_image_items(input.drop_last(), loaded);
        if has_user_image(input.drop_last()) {
            let i = choose|i: int|
                0 <= i < input.drop_last().len() && is_user_image(#[trigger] input.drop_last()[i]);
            assert(is_user_image(input[i]));
        }
        if is_user_image(input.last()) {
            assert(is_user_image(input[input.len() - 1]));
        }
    }
}

/// Content items hold an image exactly where there is one to collect.
proof fn lemma_output_images<C>(content: Seq<OutputItemView<C>>)
    ensures
        has_output_image(content) <==> output_images(content).len() > 0,
    decreases content.len(),
{
    if content.len() > 0 {
        let front = content.drop_last();
        lemma_output_images(front);
        if has_output_image(front) {
            let i = choose|i: int| 0 <= i < front.len() && is_output_image(#[trigger] front[i]);
            assert(is_output_image(content[i]));
        }
        if is_output_image(content.last()) {
            assert(is_output_image(content[content.len() - 1]));
        }
        if has_output_image(content) && !is_output_image(content.last()) {
            let i = choose|i: int| 0 <= i < content.len() && is_output_image(#[trigger] content[i]);
            assert(is_output_image(front[i]));
        }
    }
}

/// Tool outputs carry an image exactly where there is one to collect.
pub proof fn law_response_images_are_there_to_collect<C>(items: Seq<ResponseItemView<C>>)
    ensures
        has_response_image(items) <==> response_images(items).len() > 0,
    decreases items.len(),
{
    if items.len() > 0 {
        let front = items.drop_last();
        law_response_images_are_there_to_collect(front);
        if tool_content(items.last()) is Some {
            lemma_output_images(tool_content(items.last())->0);
        }
        assert(carries_image(items.last()) <==> item_images(items.last()).len() > 0);
        if has_response_image(front) {
            let i = choose|i: int| 0 <= i < front.len() && carries_image(#[trigger] front[i]);
            assert(carries_image(items[i]));
        }
        if carries_image(items.last()) {
            assert(carries_image(items[items.len() - 1]));
        }
        if has_response_image(items) && !carries_image(items.last()) {
            let i = choose|i: int| 0 <= i < items.len() && carries_image(#[trigger] items[i]);
            assert(carries_image(front[i]));
        }
    }
}

/// An image stands somewhere exactly where the first one has a place.
proof fn lemma_has_user_image<C>(input: Seq<UserInputView<C>>)
    ensures
        has_user_image(input) <==> first_user_image(input) < input.len(),
{
    lemma_first_user_image(input);
    if has_user_image(input) {
        let i = choose|i: int| 0 <= i < input.len() && is_user_image(#[trigger] input[i]);
        assert(is_user_image(input[i]));
    }
    if first_user_image(input) < input.len() {
        assert(is_user_image(input[first_user_image(input)]));
    }
}

proof fn lemma_has_output_image<C>(content: Seq<OutputItemView<C>>)
    ensures
        has_output_image(content) <==> first_output_image(content) < content.len(),
{
    lemma_first_output_image(content);
    if has_output_image(content) {
        let i = choose|i: int| 0 <= i < content.len() && is_output_image(#[trigger] content[i]);
        assert(is_output_image(content[i]));
    }
    if first_output_image(content) < content.len() {
        assert(is_output_image(content[first_output_image(content)]));
    }
}

/// Attaching a description to the user's input adds one item and takes none:
/// the description stands directly after the first image, and without it the
/// input is what it was. Input without an image is left untouched.
pub proof fn law_user_items_are_kept<C>(input: Seq<UserInputView<C>>, description: Seq<char>)
    ensures
        ({
            let out = with_user_description(input, description);
            let at = first_user_image(input);
            if has_user_image(input) {
                &&& 0 <= at < input.len()
                &&& is_user_image(input[at])
                &&& forall|j: int| 0 <= j < at ==> !is_user_image(#[trigger] input[j])
                &&& out.len() == input.len() + 1
                &&& out[at] == input[at]
                &&& out[at + 1] == user_description::<C>(description)
                &&& out.remove(at + 1) == input
            } else {
                out == input
            }
        }),
{
    lemma_first_user_image(input);
    lemma_has_user_image(input);
    let at = first_user_image(input);
    if at < input.len() {
        assert(with_user_description(input, description).remove(at + 1) == input);
    }
}

/// Attaching a description to the content of a tool output adds one item and
/// takes none: the description stands directly after the first image, and
/// without it the content is what it was. Content without an image is left
/// untouched.
pub proof fn law_tool_content_is_kept<C>(content: Seq<OutputItemView<C>>, description: Seq<char>)
    ensures
        ({
            let out = with_content_description(content, description);
            let at = first_output_image(content);
            if has_output_image(content) {
                &&& 0 <= at < content.len()
                &&& is_output_image(content[at])
                &&& forall|j: int| 0 <= j < at ==> !is_output_image(#[trigger] content[j])
                &&& out.len() == content.len() + 1
                &&& out[at] == content[at]
                &&& out[at + 1] == output_description::<C>(description)
                &&& out.remove(at + 1) == content
            } else {
                out == content
            }
        }),
{
    lemma_first_output_image(content);
    lemma_has_output_image(content);
    let at = first_output_image(content);
    if at < content.len() {
        assert(with_content_description(content, description).remove(at + 1) == content);
    }
}

/// Attaching a description to the history changes no item but the tool outputs
/// that carry an image, keeps their order and number, and changes of those
/// nothing but the content.
pub proof fn law_history_is_kept<C>(items: Seq<ResponseItemView<C>>, description: Seq<char>)
    ensures
        with_response_description(items, description).len() == items.len(),
        forall|i: int|
            0 <= i < items.len() && !carries_image(items[i]) ==> #[trigger] with_response_description(
                items,
                description,
            )[i] == items[i],
        forall|i: int|
            0 <= i < items.len() && carries_image(items[i]) ==> tool_content(
                #[trigger] with_response_description(items, description)[i],
            ) == Some(with_content_description(tool_content(items[i])->0, description)),
{
    let out = with_response_description(items, description);
    assert forall|i: int| 0 <= i < items.len() && !carries_image(items[i]) implies #[trigger] out[i]
        == items[i] by {
        if tool_content(items[i]) is Some {
            law_tool_content_is_kept(tool_content(items[i])->0, description);
        }
    }
}

/// An item that is no image can be put anywhere without changing which images
/// there are to describe.
proof fn lemma_insert_into_user_input<C>(
    input: Seq<UserInputView<C>>,
    at: int,
    item: UserInputView<C>,
    loaded: Seq<Option<Seq<char>>>,
)
    requires
        0 <= at <= input.len(),
        !is_user_image(item),
    ensures
        local_image_count(input.insert(at, item)) == local_image_count(input),
        local_paths(input.insert(at, item)) == local_paths(input),
        user_images(input.insert(at, item), loaded) == user_images(input, loaded),
    decreases input.len(),
{
    let out = input.insert(at, item);
    if at == input.len() {
        assert(out.drop_last() == input);
    } else {
        lemma_insert_into_user_input(input.drop_last(), at, item, loaded);
        assert(out.drop_last() == input.drop_last().insert(at, item));
        assert(out.last() == input.last());
    }
}

proof fn lemma_insert_into_content<C>(content: Seq<OutputItemView<C>>, at: int, item: OutputItemView<C>)
    requires
        0 <= at <= content.len(),
        !is_output_image(item),
    ensures
        output_images(content.insert(at, item)) == output_images(content),
    decreases content.len(),
{
    let out = content.insert(at, item);
    if at == content.len() {
        assert(out.drop_last() == content);
    } else {
        lemma_insert_into_content(content.drop_last(), at, item);
        assert(out.drop_last() == content.drop_last().insert(at, item));
        assert(out.last() == content.last());
    }
}

/// The images of the user's input survive a description: there are the same
/// ones, in the same order, after it was attached.
pub proof fn law_user_images_survive<C>(
    input: Seq<UserInputView<C>>,
    description: Seq<char>,
    loaded: Seq<Option<Seq<char>>>,
)
    ensures
        local_paths(with_user_description(input, description)) == local_paths(input),
        local_image_count(with_user_description(input, description)) == local_image_count(input),
        user_images(with_user_description(input, description), loaded) == user_images(input, loaded),
{
    lemma_first_user_image(input);
    let at = first_user_image(input);
    if at < input.len() {
        lemma_insert_into_user_input(input, at + 1, user_description(description), loaded);
    }
}

/// The images of tool outputs survive a description: there are the same ones,
/// in the same order, after it was attached.
pub proof fn law_tool_images_survive<C>(items: Seq<ResponseItemView<C>>, description: Seq<char>)
    ensures
        response_images(with_response_description(items, description)) == response_images(items),
    decreases items.len(),
{
    if items.len() > 0 {
        let out = with_response_description(items, description);
        law_tool_images_survive(items.drop_last(), description);
        assert(out.drop_last() == with_response_description(items.drop_last(), description));
        assert(out.last() == with_item_description(items.last(), description));
        if let Some(content) = tool_content(items.last()) {
            lemma_first_output_image(content);
            let at = first_output_image(content);
            if at < content.len() {
                lemma_insert_into_content(content, at + 1, output_description(description));
            }
        }
    }
}

/// A generated description is marked, and can be read back from the text that
/// was attached for it; so different descriptions give different texts.
pub proof fn law_description_reads_back(description: Seq<char>, other: Seq<char>)
    ensures
        described(description).take(VISION_DESCRIPTION_PREFIX@.len() as int) == VISION_DESCRIPTION_PREFIX@,
        described(description).skip(VISION_DESCRIPTION_PREFIX@.len() as int + 1) == description,
        described(description) == described(other) ==> description == other,
{
    let start = VISION_DESCRIPTION_PREFIX@.len() as int;
    assert(described(description).take(start) == VISION_DESCRIPTION_PREFIX@);
    assert(described(description).skip(start + 1) == description);
    assert(described(other).skip(start + 1) == other);
}

/// Where one description is attached after another, the newer one stands first,
/// and both stand between the first image and what came after it.
pub proof fn law_newer_description_stands_first<C>(
    input: Seq<UserInputView<C>>,
    older: Seq<char>,
    newer: Seq<char>,
)
    requires
        has_user_image(input),
    ensures
        ({
            let at = first_user_image(input);
            with_user_description(with_user_description(input, older), newer) == input.take(at + 1) + seq![
                user_description::<C>(newer),
                user_description::<C>(older),
            ] + input.skip(at + 1)
        }),
{
    lemma_has_user_image(input);
    lemma_first_user_image(input);
    let at = first_user_image(input);
    let once = with_user_description(input, older);
    lemma_first_user_image(once);
    lemma_same_first_user_image(input, once, at);
    assert(with_user_description(once, newer) == input.take(at + 1) + seq![
        user_description::<C>(newer),
        user_description::<C>(older),
    ] + input.skip(at + 1));
}

/// Two inputs that agree up to and with the first image have it at the same
/// place.
proof fn lemma_same_first_user_image<C>(
    input: Seq<UserInputView<C>>,
    other: Seq<UserInputView<C>>,
    at: int,
)
    requires
        0 <= at < input.len(),
        at < other.len(),
        at == first_user_image(input),
        forall|j: int| 0 <= j <= at ==> input[j] == other[j],
    ensures
        first_user_image(other) == at,
{
    lemma_first_user_image(input);
    lemma_first_user_image(other);
    let there = first_user_image(other);
    if there < at {
        assert(is_user_image(other[there]));
        assert(!is_user_image(input[there]));
    } else if there > at {
        assert(!is_user_image(other[at]));
        assert(is_user_image(input[at]));
    }
}

/// A data URL that is labelled as an image is a data URL.
proof fn lemma_image_data_url(image_url: Seq<char>)
    ensures
        is_image_data_url(image_url) ==> is_data_url(image_url),
{
    reveal_strlit("data:");
    reveal_strlit("data:image/");
    if is_image_data_url(image_url) {
        assert forall|i: int| 0 <= i < "data:"@.len() implies ascii_lower(#[trigger] image_url[i]) == ascii_lower(
            "data:"@[i],
        ) by {
            assert("data:"@[i] == "data:image/"@[i]);
        }
    }
}

/// The data URL of a local image file is never sent as it is: whatever the file
/// holds, it has to be loaded first.
pub proof fn law_local_images_are_loaded(payload: Seq<char>)
    ensures
        must_load("data:"@ + LOCAL_IMAGE_MEDIA_TYPE@ + payload),
{
    reveal_strlit("data:");
    reveal_strlit("data:image/");
    reveal_strlit("application/octet-stream");
    let url = "data:"@ + LOCAL_IMAGE_MEDIA_TYPE@ + payload;
    assert(LOCAL_IMAGE_MEDIA_TYPE@[0] == 'a');
    assert(url[5] == 'a');
    assert("data:image/"@[5] == 'i');
    assert(ascii_lower(url[5]) != ascii_lower("data:image/"@[5]));
}

/// Remote URLs, and data URLs that are labelled as an image, pass through
/// unchanged, whatever loading them would give.
pub proof fn law_accepted_urls_pass_through<E>(
    image_url: Seq<char>,
    loaded: Result<Seq<char>, Seq<char>>,
)
    requires
        !is_data_url(image_url) || is_image_data_url(image_url),
    ensures
        normalized::<E>(image_url, loaded) == Ok::<Seq<char>, VisionErrorView<E>>(image_url),
{
}

/// Where loading gives a data URL that is labelled as an image, so does
/// normalizing for every data URL, and what was normalized once is not changed
/// by normalizing it again.
pub proof fn law_normalized_urls_are_accepted<E>(
    image_url: Seq<char>,
    data_url: Seq<char>,
    loaded_again: Result<Seq<char>, Seq<char>>,
)
    requires
        is_image_data_url(data_url),
    ensures
        ({
            let once = normalized::<E>(image_url, Ok(data_url));
            &&& once is Ok
            &&& is_data_url(image_url) <==> is_data_url(once->Ok_0)
            &&& is_data_url(image_url) ==> is_image_data_url(once->Ok_0)
            &&& normalized::<E>(once->Ok_0, loaded_again) == once
        }),
{
    lemma_image_data_url(data_url);
}

/// The request carries the images of the batch one for one and in order: each
/// with its own URL or, where that had to be loaded, with what it was loaded
/// into, and with the detail asked for or the default.
pub proof fn law_request_carries_every_image<C>(
    images: Seq<ImageRefView>,
    default_detail: ImageDetail,
    loads: Seq<Result<Seq<char>, Seq<char>>>,
)
    requires
        loads.len() == load_count(images),
    ensures
        image_items::<C>(images, default_detail, loads).len() == images.len(),
        forall|k: int|
            0 <= k < images.len() ==> #[trigger] image_items::<C>(images, default_detail, loads)[k]
                == image_item::<C>(
                if must_load(images[k].0) {
                    loads[load_count(images.take(k)) as int]->Ok_0
                } else {
                    images[k].0
                },
                images[k].1,
                default_detail,
            ),
    decreases images.len(),
{
    if images.len() > 0 {
        let rest = images.drop_first();
        let later = if must_load(images[0].0) {
            loads.drop_first()
        } else {
            loads
        };
        law_request_carries_every_image::<C>(rest, default_detail, later);
        assert(images.take(0) == Seq::<ImageRefView>::empty());
        let items = image_items::<C>(images, default_detail, loads);
        assert forall|k: int| 0 <= k < images.len() implies #[trigger] items[k] == image_item::<C>(
            if must_load(images[k].0) {
                loads[load_count(images.take(k)) as int]->Ok_0
            } else {
                images[k].0
            },
            images[k].1,
            default_detail,
        ) by {
            if k > 0 {
                assert(images.take(k).drop_first() == rest.take(k - 1));
                assert(items[k] == image_items::<C>(rest, default_detail, later)[k - 1]);
                assert(images[k] == rest[k - 1]);
                if must_load(images[k].0) {
                    lemma_load_rank(rest, k - 1);
                }
            }
        }
    }
}

/// An image that has to be loaded has a load of its own.
proof fn lemma_load_rank(images: Seq<ImageRefView>, k: int)
    requires
        0 <= k < images.len(),
        must_load(images[k].0),
    ensures
        load_count(images.take(k)) < load_count(images),
    decreases k,
{
    if k > 0 {
        lemma_load_rank(images.drop_first(), k - 1);
        assert(images.take(k).drop_first() == images.drop_first().take(k - 1));
    } else {
        assert(images.take(0) == Seq::<ImageRefView>::empty());
    }
}

/// Where every image that is loaded comes out labelled as an image, the request
/// carries no URL that the provider would refuse for its label.
pub proof fn law_request_urls_are_accepted<C>(
    images: Seq<ImageRefView>,
    default_detail: ImageDetail,
    loads: Seq<Result<Seq<char>, Seq<char>>>,
)
    requires
        loads.len() == load_count(images),
        forall|j: int| 0 <= j < loads.len() ==> (#[trigger] loads[j]) is Ok && is_image_data_url(loads[j]->Ok_0),
    ensures
        forall|k: int|
            0 <= k < images.len() ==> {
                let item = #[trigger] image_items::<C>(images, default_detail, loads)[k];
                item is InputImage && !must_load(item->InputImage_image_url) && item->InputImage_detail is Some
            },
{
    law_request_carries_every_image::<C>(images, default_detail, loads);
    assert forall|k: int| 0 <= k < images.len() implies ({
        let item = #[trigger] image_items::<C>(images, default_detail, loads)[k];
        item is InputImage && !must_load(item->InputImage_image_url) && item->InputImage_detail is Some
    }) by {
        if must_load(images[k].0) {
            lemma_load_rank(images, k);
            assert(loads[load_count(images.take(k)) as int] is Ok);
        }
    }
}

/// A failure is never silent: where an image was to be shown and the outcome is
/// an error, the failure message stands directly after the first image.
pub proof fn law_failure_is_shown<C, E>(
    input: Seq<UserInputView<C>>,
    loaded: Seq<Option<Seq<char>>>,
    error: VisionErrorView<E>,
)
    requires
        user_images(input, loaded).len() > 0,
    ensures
        ({
            let out = bridged_user_input::<C, E>(input, loaded, Err(error));
            let at = first_user_image(input);
            &&& 0 <= at < input.len()
            &&& out == input.insert(at + 1, user_description(VISION_BRIDGE_FAILURE_MESSAGE@))
        }),
{
    law_user_images_come_from_image_items(input, loaded);
    lemma_has_user_image(input);
    lemma_first_user_image(input);
}

/// A failure is never silent for tool outputs either: each one that carries an
/// image has the failure message directly after its first image.
pub proof fn law_tool_failure_is_shown<C, E>(
    items: Seq<ResponseItemView<C>>,
    error: VisionErrorView<E>,
    i: int,
)
    requires
        0 <= i < items.len(),
        carries_image(items[i]),
    ensures
        ({
            let out = bridged_response_items::<C, E>(items, Err(error));
            let content = tool_content(items[i])->0;
            let at = first_output_image(content);
            &&& out.len() == items.len()
            &&& 0 <= at < content.len()
            &&& tool_content(out[i]) == Some(
                content.insert(at + 1, output_description(VISION_BRIDGE_FAILURE_MESSAGE@)),
            )
        }),
{
    law_response_images_are_there_to_collect(items);
    assert(has_response_image(items));
    law_history_is_kept(items, VISION_BRIDGE_FAILURE_MESSAGE@);
    lemma_has_output_image(tool_content(items[i])->0);
    lemma_first_output_image(tool_content(items[i])->0);
    let out = with_response_description(items, VISION_BRIDGE_FAILURE_MESSAGE@);
    assert(tool_content(out[i]) == Some(
        with_content_description(tool_content(items[i])->0, VISION_BRIDGE_FAILURE_MESSAGE@),
    ));
}

/// A blank description changes nothing.
pub proof fn law_blank_description_changes_nothing<C, E>(
    input: Seq<UserInputView<C>>,
    loaded: Seq<Option<Seq<char>>>,
    items: Seq<ResponseItemView<C>>,
    description: Seq<char>,
)
    requires
        is_blank(description),
    ensures
        bridged_user_input::<C, E>(input, loaded, Ok(description)) == input,
        bridged_response_items::<C, E>(items, Ok(description)) == items,
{
}

/// Where there is no image to show, nobody is asked, no request is sent and
/// nothing changes, whatever the answers would have been.
pub proof fn law_without_images_nothing_happens<C, E>(
    input: Seq<UserInputView<C>>,
    loaded: Seq<Option<Seq<char>>>,
    model: Seq<char>,
    default_detail: ImageDetail,
    answers: Answers<E>,
)
    requires
        user_images(input, loaded).len() == 0,
    ensures
        ({
            let batch = BatchView { model, default_detail, images: user_images(input, loaded) };
            let run = follow::<C, E>(first_step(batch), answers);
            &&& run.requests.len() == 0
            &&& bridged_user_input(input, loaded, run.outcome) == input
        }),
{
}

/// Where no tool output carries an image, nobody is asked, no request is sent
/// and the history stays as it is, whatever the answers would have been.
pub proof fn law_without_tool_images_nothing_happens<C, E>(
    items: Seq<ResponseItemView<C>>,
    model: Seq<char>,
    default_detail: ImageDetail,
    answers: Answers<E>,
)
    requires
        !has_response_image(items),
    ensures
        ({
            let batch = BatchView { model, default_detail, images: response_images(items) };
            let run = follow::<C, E>(first_step(batch), answers);
            &&& run.requests.len() == 0
            &&& bridged_response_items(items, run.outcome) == items
        }),
{
    law_response_images_are_there_to_collect(items);
}

/// However the provider answers, an image that the user handed in and that
/// could be shown is still there afterwards, and so is every other item: the
/// bridge adds at most one item and takes none.
pub proof fn law_bridge_only_adds<C, E>(
    input: Seq<UserInputView<C>>,
    loaded: Seq<Option<Seq<char>>>,
    outcome: Result<Seq<char>, VisionErrorView<E>>,
)
    ensures
        ({
            let out = bridged_user_input(input, loaded, outcome);
            let at = first_user_image(input);
            &&& out == input || (out.len() == input.len() + 1 && 0 <= at < input.len() && out.remove(at + 1) == input)
            &&& local_paths(out) == local_paths(input)
            &&& user_images(out, loaded) == user_images(input, loaded)
        }),
{
    if let Some(text) = text_to_attach(outcome) {
        law_user_items_are_kept(input, text);
        law_user_images_survive(input, text, loaded);
    }
}

/// However the provider answers, the history keeps its items and their images:
/// an item is as it was, or has one more content item, directly after its first
/// image.
pub proof fn law_bridge_only_adds_to_history<C, E>(
    items: Seq<ResponseItemView<C>>,
    outcome: Result<Seq<char>, VisionErrorView<E>>,
)
    ensures
        bridged_response_items(items, outcome).len() == items.len(),
        response_images(bridged_response_items(items, outcome)) == response_images(items),
        forall|i: int|
            0 <= i < items.len() ==> {
                let out = #[trigger] bridged_response_items(items, outcome)[i];
                out == items[i] || {
                    &&& carries_image(items[i])
                    &&& tool_content(out) is Some
                    &&& tool_content(out)->0.remove(first_output_image(tool_content(items[i])->0) + 1)
                        == tool_content(items[i])->0
                }
            },
{
    if let Some(text) = text_to_attach(outcome) {
        law_tool_images_survive(items, text);
        law_history_is_kept(items, text);
        let with = with_response_description(items, text);
        assert forall|i: int| 0 <= i < items.len() implies ({
            let out = #[trigger] bridged_response_items(items, outcome)[i];
            out == items[i] || {
                &&& carries_image(items[i])
                &&& tool_content(out) is Some
                &&& tool_content(out)->0.remove(first_output_image(tool_content(items[i])->0) + 1)
                    == tool_content(items[i])->0
            }
        }) by {
            assert(with[i] == with_item_description(items[i], text));
            if carries_image(items[i]) {
                law_tool_content_is_kept(tool_content(items[i])->0, text);
            }
        }
    }
}

/// What the vision model says reaches the text-only model: where every answer
/// is good and the text of the stream is not blank, one request was sent with
/// all the images, and that text stands directly after the first image.
pub proof fn law_description_reaches_user_input<C, E>(
    input: Seq<UserInputView<C>>,
    loaded: Seq<Option<Seq<char>>>,
    model: Seq<char>,
    default_detail: ImageDetail,
    answers: Answers<E>,
)
    requires
        user_images(input, loaded).len() > 0,
        answers.loads.len() == load_count(user_images(input, loaded)),
        answers.provider is Ok,
        answers.auth is Ok,
        first_failed_load(answers.loads) is None,
        answers.sent is Ok,
        stream_outcome::<E>(answers.stream) is Ok,
        !is_blank(stream_outcome::<E>(answers.stream)->Ok_0),
    ensures
        ({
            let images = user_images(input, loaded);
            let run = follow::<C, E>(first_step(BatchView { model, default_detail, images }), answers);
            let at = first_user_image(input);
            &&& run.requests == seq![
                vision_request(
                    model,
                    seq![instruction_item::<C>()] + image_items(images, default_detail, answers.loads),
                ),
            ]
            &&& 0 <= at < input.len()
            &&& bridged_user_input(input, loaded, run.outcome) == input.insert(
                at + 1,
                user_description(stream_outcome::<E>(answers.stream)->Ok_0),
            )
        }),
{
    let images = user_images(input, loaded);
    law_run::<C, E>(BatchView { model, default_detail, images }, answers);
    law_user_images_come_from_image_items(input, loaded);
    lemma_has_user_image(input);
    lemma_first_user_image(input);
}

/// What the vision model says of the images of tools reaches the text-only
/// model: where every answer is good and the text of the stream is not blank,
/// one request was sent with all the images, and that text stands directly
/// after the first image of each tool output that carries one.
pub proof fn law_description_reaches_tool_outputs<C, E>(
    items: Seq<ResponseItemView<C>>,
    model: Seq<char>,
    default_detail: ImageDetail,
    answers: Answers<E>,
    i: int,
)
    requires
        0 <= i < items.len(),
        carries_image(items[i]),
        answers.loads.len() == load_count(response_images(items)),
        answers.provider is Ok,
        answers.auth is Ok,
        first_failed_load(answers.loads) is None,
        answers.sent is Ok,
        stream_outcome::<E>(answers.stream) is Ok,
        !is_blank(stream_outcome::<E>(answers.stream)->Ok_0),
    ensures
        ({
            let images = response_images(items);
            let run = follow::<C, E>(first_step(BatchView { model, default_detail, images }), answers);
            let content = tool_content(items[i])->0;
            let at = first_output_image(content);
            &&& run.requests == seq![
                vision_request(
                    model,
                    seq![instruction_item::<C>()] + image_items(images, default_detail, answers.loads),
                ),
            ]
            &&& 0 <= at < content.len()
            &&& tool_content(bridged_response_items(items, run.outcome)[i]) == Some(
                content.insert(at + 1, output_description(stream_outcome::<E>(answers.stream)->Ok_0)),
            )
        }),
{
    let images = response_images(items);
    law_response_images_are_there_to_collect(items);
    assert(has_response_image(items));
    law_run::<C, E>(BatchView { model, default_detail, images }, answers);
    let text = stream_outcome::<E>(answers.stream)->Ok_0;
    law_history_is_kept(items, text);
    lemma_has_output_image(tool_content(items[i])->0);
    lemma_first_output_image(tool_content(items[i])->0);
    let with = with_response_description(items, text);
    assert(tool_content(with[i]) == Some(
        with_content_description(tool_content(items[i])->0, text),
    ));
}

} // verus!
