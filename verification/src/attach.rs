//! Attaching a description next to the images that it describes.

use vstd::prelude::*;

use crate::images::{is_output_image, is_user_image};
use crate::items::{
    FunctionCallOutputBody, FunctionCallOutputContentItem, FunctionCallOutputPayload, OutputBodyView,
    OutputItemView, OutputPayloadView, ResponseItem, ResponseItemView, UserInput, UserInputView,
};
use crate::text::VISION_DESCRIPTION_PREFIX;

verus! {

/// The text that is attached for `description`: the marker, a line break and
/// the description.
pub open spec fn described(description: Seq<char>) -> Seq<char> {
    VISION_DESCRIPTION_PREFIX@ + seq!['\n'] + description
}

/// Where the first image stands in what the user handed in, or the number of
/// items where there is none.
pub open spec fn first_user_image<C>(input: Seq<UserInputView<C>>) -> int
    decreases input.len(),
{
    if input.len() == 0 || is_user_image(input[0]) {
        0
    } else {
        1 + first_user_image(input.drop_first())
    }
}

/// Where the first image stands in a tool output, or the number of content
/// items where there is none.
pub open spec fn first_output_image<C>(content: Seq<OutputItemView<C>>) -> int
    decreases content.len(),
{
    if content.len() == 0 || is_output_image(content[0]) {
        0
    } else {
        1 + first_output_image(content.drop_first())
    }
}

/// The item of the user's input that carries `description`.
pub open spec fn user_description<C>(description: Seq<char>) -> UserInputView<C> {
    UserInputView::Text { text: described(description), text_elements: Seq::empty() }
}

/// The content item of a tool output that carries `description`.
pub open spec fn output_description<C>(description: Seq<char>) -> OutputItemView<C> {
    OutputItemView::InputText { text: described(description) }
}

/// The user's input with `description` attached: directly after the first
/// image, with everything else as it was; without an image, nothing is attached.
pub open spec fn with_user_description<C>(
    input: Seq<UserInputView<C>>,
    description: Seq<char>,
) -> Seq<UserInputView<C>> {
    let at = first_user_image(input);
    if at < input.len() {
        input.insert(at + 1, user_description(description))
    } else {
        input
    }
}

/// Content items with `description` attached: directly after the first image,
/// with everything else as it was; without an image, nothing is attached.
pub open spec fn with_content_description<C>(
    content: Seq<OutputItemView<C>>,
    description: Seq<char>,
) -> Seq<OutputItemView<C>> {
    let at = first_output_image(content);
    if at < content.len() {
        content.insert(at + 1, output_description(description))
    } else {
        content
    }
}

/// A tool output with `description` attached to its content items, if it has
/// any.
pub open spec fn with_output_description<C>(
    output: OutputPayloadView<C>,
    description: Seq<char>,
) -> OutputPayloadView<C> {
    match output.body {
        OutputBodyView::Text(_) => output,
        OutputBodyView::ContentItems(content) => OutputPayloadView {
            body: OutputBodyView::ContentItems(with_content_description(content, description)),
            ..output
        },
    }
}

/// An item of the history with `description` attached, where it is the output
/// of a function or of a custom tool; any other item as it was.
pub open spec fn with_item_description<C>(
    item: ResponseItemView<C>,
    description: Seq<char>,
) -> ResponseItemView<C> {
    match item {
        ResponseItemView::FunctionCallOutput { id, call_id, output, internal_chat_message_metadata_passthrough } => {
            ResponseItemView::FunctionCallOutput {
                id,
                call_id,
                output: with_output_description(output, description),
                internal_chat_message_metadata_passthrough,
            }
        },
        ResponseItemView::CustomToolCallOutput { output, rest } => ResponseItemView::CustomToolCallOutput {
            output: with_output_description(output, description),
            rest,
        },
        _ => item,
    }
}

/// The history with `description` attached to each tool output that carries an
/// image.
pub open spec fn with_response_description<C>(
    items: Seq<ResponseItemView<C>>,
    description: Seq<char>,
) -> Seq<ResponseItemView<C>> {
    Seq::new(items.len(), |i: int| with_item_description(items[i], description))
}

/// `first_user_image` is the first place that holds an image.
pub proof fn lemma_first_user_image<C>(input: Seq<UserInputView<C>>)
    ensures
        0 <= first_user_image(input) <= input.len(),
        first_user_image(input) < input.len() ==> is_user_image(input[first_user_image(input)]),
        forall|j: int| 0 <= j < first_user_image(input) ==> !is_user_image(#[trigger] input[j]),
    decreases input.len(),
{
    if input.len() > 0 && !is_user_image(input[0]) {
        let rest = input.drop_first();
        lemma_first_user_image(rest);
        assert forall|j: int| 0 <= j < first_user_image(input) implies !is_user_image(#[trigger] input[j]) by {
            if j > 0 {
                assert(input[j] == rest[j - 1]);
            }
        }
    }
}

/// `first_output_image` is the first place that holds an image.
pub proof fn lemma_first_output_image<C>(content: Seq<OutputItemView<C>>)
    ensures
        0 <= first_output_image(content) <= content.len(),
        first_output_image(content) < content.len() ==> is_output_image(content[first_output_image(content)]),
        forall|j: int| 0 <= j < first_output_image(content) ==> !is_output_image(#[trigger] content[j]),
    decreases content.len(),
{
    if content.len() > 0 && !is_output_image(content[0]) {
        let rest = content.drop_first();
        lemma_first_output_image(rest);
        assert forall|j: int| 0 <= j < first_output_image(content) implies !is_output_image(
            #[trigger] content[j],
        ) by {
            if j > 0 {
                assert(content[j] == rest[j - 1]);
            }
        }
    }
}

/// The text to attach for `description`.
pub fn description_text(description: &str) -> (text: String)
    ensures
        text@ == described(description@),
{
    let mut text: String = VISION_DESCRIPTION_PREFIX.to_string();
    text.append("\n");
    text.append(description);
    proof {
        reveal_strlit("\n");
        assert("\n"@ == seq!['\n']);
    }
    text
}

/// Attaches `description` to `input` without removing the images.
///
/// The description is inserted directly after the first image; images and
/// other items keep their order, so that a vision-capable model can still see
/// the original image later.
pub fn attach_vision_description<C>(input: &mut Vec<UserInput<C>>, description: &str)
    ensures
        final(input).deep_view() == with_user_description(old(input).deep_view(), description@),
{
    let ghost before = input.deep_view();
    let mut at: usize = 0;
    while at < input.len()
        invariant
            at <= input@.len(),
            input@ == old(input)@,
            before == input.deep_view(),
            forall|j: int| 0 <= j < at ==> !is_user_image(#[trigger] before[j]),
        decreases input@.len() - at,
    {
        let image: bool = matches!(&input[at], UserInput::Image { .. } | UserInput::LocalImage { .. });
        assert(image == is_user_image(before[at as int]));
        if image {
            proof {
                lemma_first_user_image(before);
            }
            let item: UserInput<C> = UserInput::Text {
                text: description_text(description),
                text_elements: Vec::new(),
            };
            assert(item.deep_view() == user_description::<C>(description@));
            input.insert(at + 1, item);
            assert(input.deep_view() == before.insert(at + 1, user_description(description@)));
            return;
        }
        at += 1;
    }
    proof {
        lemma_first_user_image(before);
    }
}

fn attach_to_content<C>(content: &mut Vec<FunctionCallOutputContentItem<C>>, description: &str)
    ensures
        final(content).deep_view() == with_content_description(old(content).deep_view(), description@),
{
    let ghost before = content.deep_view();
    let mut at: usize = 0;
    while at < content.len()
        invariant
            at <= content@.len(),
            content@ == old(content)@,
            before == content.deep_view(),
            forall|j: int| 0 <= j < at ==> !is_output_image(#[trigger] before[j]),
        decreases content@.len() - at,
    {
        let image: bool = matches!(&content[at], FunctionCallOutputContentItem::InputImage { .. });
        assert(image == is_output_image(before[at as int]));
        if image {
            proof {
                lemma_first_output_image(before);
            }
            let item: FunctionCallOutputContentItem<C> = FunctionCallOutputContentItem::InputText {
                text: description_text(description),
            };
            content.insert(at + 1, item);
            assert(content.deep_view() == before.insert(at + 1, output_description(description@)));
            return;
        }
        at += 1;
    }
    proof {
        lemma_first_output_image(before);
    }
}

fn attach_to_output<C>(output: &mut FunctionCallOutputPayload<C>, description: &str)
    ensures
        final(output).deep_view() == with_output_description(old(output).deep_view(), description@),
{
    match &mut output.body {
        FunctionCallOutputBody::Text(_) => {},
        FunctionCallOutputBody::ContentItems(content) => {
            attach_to_content(content, description);
        },
    }
}

/// Attaches `description` to tool outputs without removing the images.
///
/// The description is inserted directly after the first image of each output
/// that has one; images and other content keep their order, so that a
/// vision-capable model can still see the original image later.
pub fn attach_response_item_description<C>(items: &mut Vec<ResponseItem<C>>, description: &str)
    ensures
        final(items).deep_view() == with_response_description(old(items).deep_view(), description@),
{
    let ghost before = items.deep_view();
    let mut i: usize = 0;
    while i < items.len()
        invariant
            i <= items@.len(),
            items@.len() == before.len(),
            forall|j: int| 0 <= j < i ==> (#[trigger] items@[j]).deep_view() == with_item_description(
                before[j],
                description@,
            ),
            forall|j: int| i <= j < items@.len() ==> (#[trigger] items@[j]).deep_view() == before[j],
        decreases items@.len() - i,
    {
        match &mut items[i] {
            ResponseItem::FunctionCallOutput { output, .. } => {
                attach_to_output(output, description);
            },
            ResponseItem::CustomToolCallOutput { output, .. } => {
                attach_to_output(output, description);
            },
            _ => {},
        }
        i += 1;
    }
}

} // verus!
