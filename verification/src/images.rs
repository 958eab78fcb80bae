//! Which items carry an image, and which images there are to describe.

use std::path::PathBuf;
use vstd::prelude::*;

use crate::items::{
    FunctionCallOutputContentItem, ImageRef, ImageRefView, OutputBodyView, OutputItemView,
    OutputPayloadView, ResponseItem, ResponseItemView, UserInput, UserInputView,
};

verus! {

/// An image handed in by the user, by URL or as a local file.
pub open spec fn is_user_image<C>(item: UserInputView<C>) -> bool {
    item is Image || item is LocalImage
}

/// Some item handed in by the user is an image.
pub open spec fn has_user_image<C>(input: Seq<UserInputView<C>>) -> bool {
    exists|i: int| 0 <= i < input.len() && is_user_image(#[trigger] input[i])
}

/// How many of the items are local image files.
pub open spec fn local_image_count<C>(input: Seq<UserInputView<C>>) -> nat
    decreases input.len(),
{
    if input.len() == 0 {
        0
    } else {
        local_image_count(input.drop_last()) + if input.last() is LocalImage { 1nat } else { 0nat }
    }
}

/// The files of the local images, in order.
pub open spec fn local_paths<C>(input: Seq<UserInputView<C>>) -> Seq<PathBuf>
    decreases input.len(),
{
    if input.len() == 0 {
        Seq::empty()
    } else {
        let before = local_paths(input.drop_last());
        match input.last() {
            UserInputView::LocalImage { path, .. } => before.push(path),
            _ => before,
        }
    }
}

/// The images to describe, in order. `loaded` says of each local image, in
/// order, the data URL that its file was read into; a file that could not be
/// read is left out.
pub open spec fn user_images<C>(
    input: Seq<UserInputView<C>>,
    loaded: Seq<Option<Seq<char>>>,
) -> Seq<ImageRefView>
    decreases input.len(),
{
    if input.len() == 0 {
        Seq::empty()
    } else {
        let before = user_images(input.drop_last(), loaded);
        match input.last() {
            UserInputView::Image { image_url, detail } => before.push((image_url, detail)),
            UserInputView::LocalImage { detail, .. } => {
                match loaded[local_image_count(input.drop_last()) as int] {
                    Some(data_url) => before.push((data_url, detail)),
                    None => before,
                }
            },
            _ => before,
        }
    }
}

/// An image handed back by a tool.
pub open spec fn is_output_image<C>(item: OutputItemView<C>) -> bool {
    item is InputImage
}

/// The content items of a tool output, where it is a list of them.
pub open spec fn output_content<C>(output: OutputPayloadView<C>) -> Option<Seq<OutputItemView<C>>> {
    match output.body {
        OutputBodyView::Text(_) => None,
        OutputBodyView::ContentItems(content) => Some(content),
    }
}

/// The content items of an item of the history: there are some where it is the
/// output of a function or of a custom tool, and that is a list.
pub open spec fn tool_content<C>(item: ResponseItemView<C>) -> Option<Seq<OutputItemView<C>>> {
    match item {
        ResponseItemView::FunctionCallOutput { output, .. } => output_content(output),
        ResponseItemView::CustomToolCallOutput { output, .. } => output_content(output),
        _ => None,
    }
}

/// Some content item is an image.
pub open spec fn has_output_image<C>(content: Seq<OutputItemView<C>>) -> bool {
    exists|i: int| 0 <= i < content.len() && is_output_image(#[trigger] content[i])
}

/// An item of the history is a tool output that carries an image.
pub open spec fn carries_image<C>(item: ResponseItemView<C>) -> bool {
    tool_content(item) is Some && has_output_image(tool_content(item)->0)
}

/// Some item of the history is a tool output that carries an image.
pub open spec fn has_response_image<C>(items: Seq<ResponseItemView<C>>) -> bool {
    exists|i: int| 0 <= i < items.len() && carries_image(#[trigger] items[i])
}

/// The images among content items, in order.
pub open spec fn output_images<C>(content: Seq<OutputItemView<C>>) -> Seq<ImageRefView>
    decreases content.len(),
{
    if content.len() == 0 {
        Seq::empty()
    } else {
        let before = output_images(content.drop_last());
        match content.last() {
            OutputItemView::InputImage { image_url, detail } => before.push((image_url, detail)),
            _ => before,
        }
    }
}

/// The images of one item of the history, in order.
pub open spec fn item_images<C>(item: ResponseItemView<C>) -> Seq<ImageRefView> {
    match tool_content(item) {
        Some(content) => output_images(content),
        None => Seq::empty(),
    }
}

/// The images of all tool outputs, in order.
pub open spec fn response_images<C>(items: Seq<ResponseItemView<C>>) -> Seq<ImageRefView>
    decreases items.len(),
{
    if items.len() == 0 {
        Seq::empty()
    } else {
        response_images(items.drop_last()) + item_images(items.last())
    }
}

pub proof fn lemma_take_succ<T>(s: Seq<T>, i: int)
    requires
        0 <= i < s.len(),
    ensures
        s.take(i + 1).drop_last() == s.take(i),
        s.take(i + 1).last() == s[i],
        s.take(s.len() as int) == s,
{
}

/// Whether any item that the user handed in is an image that needs describing.
pub fn user_input_has_images<C>(input: &[UserInput<C>]) -> (r: bool)
    ensures
        r == has_user_image(input.deep_view()),
{
    let mut i: usize = 0;
    while i < input.len()
        invariant
            i <= input@.len(),
            forall|j: int| 0 <= j < i ==> !is_user_image(#[trigger] input.deep_view()[j]),
        decreases input@.len() - i,
    {
        let image: bool = matches!(&input[i], UserInput::Image { .. } | UserInput::LocalImage { .. });
        assert(image == is_user_image(input.deep_view()[i as int]));
        if image {
            return true;
        }
        i += 1;
    }
    false
}

fn content_has_images<C>(content: &Vec<FunctionCallOutputContentItem<C>>) -> (r: bool)
    ensures
        r == has_output_image(content.deep_view()),
{
    let mut i: usize = 0;
    while i < content.len()
        invariant
            i <= content@.len(),
            forall|j: int| 0 <= j < i ==> !is_output_image(#[trigger] content.deep_view()[j]),
        decreases content@.len() - i,
    {
        let image: bool = matches!(&content[i], FunctionCallOutputContentItem::InputImage { .. });
        assert(image == is_output_image(content.deep_view()[i as int]));
        if image {
            return true;
        }
        i += 1;
    }
    false
}

/// The content items of a tool output, where `item` is one and holds a list.
fn tool_output_items<C>(item: &ResponseItem<C>) -> (r: Option<&Vec<FunctionCallOutputContentItem<C>>>)
    ensures
        r is Some <==> tool_content(item.deep_view()) is Some,
        r is Some ==> r->0.deep_view() == tool_content(item.deep_view())->0,
{
    match item {
        ResponseItem::FunctionCallOutput { output, .. } => output.content_items(),
        ResponseItem::CustomToolCallOutput { output, .. } => output.content_items(),
        _ => None,
    }
}

/// Whether any item of the history (a tool output, for example) carries an
/// image that needs describing.
pub fn response_items_have_images<C>(items: &[ResponseItem<C>]) -> (r: bool)
    ensures
        r == has_response_image(items.deep_view()),
{
    let mut i: usize = 0;
    while i < items.len()
        invariant
            i <= items@.len(),
            forall|j: int| 0 <= j < i ==> !carries_image(#[trigger] items.deep_view()[j]),
        decreases items@.len() - i,
    {
        let image: bool = match tool_output_items(&items[i]) {
            Some(content) => content_has_images(content),
            None => false,
        };
        assert(image == carries_image(items.deep_view()[i as int]));
        if image {
            return true;
        }
        i += 1;
    }
    false
}

/// The images of all tool outputs in `items`, in order.
pub fn collect_response_item_images<C>(items: &[ResponseItem<C>]) -> (images: Vec<ImageRef>)
    ensures
        images.deep_view() == response_images(items.deep_view()),
{
    let ghost all = items.deep_view();
    let mut images: Vec<ImageRef> = Vec::new();
    let mut i: usize = 0;
    assert(all.take(0) == Seq::<ResponseItemView<C>>::empty());
    while i < items.len()
        invariant
            i <= items@.len(),
            all == items.deep_view(),
            images.deep_view() == response_images(all.take(i as int)),
        decreases items@.len() - i,
    {
        proof {
            lemma_take_succ(all, i as int);
        }
        if let Some(content) = tool_output_items(&items[i]) {
            let ghost before = images.deep_view();
            let ghost inner = content.deep_view();
            let mut j: usize = 0;
            assert(inner.take(0) == Seq::<OutputItemView<C>>::empty());
            while j < content.len()
                invariant
                    j <= content@.len(),
                    inner == content.deep_view(),
                    images.deep_view() == before + output_images(inner.take(j as int)),
                decreases content@.len() - j,
            {
                proof {
                    lemma_take_succ(inner, j as int);
                }
                let ghost so_far = images.deep_view();
                if let FunctionCallOutputContentItem::InputImage { image_url, detail } = &content[j] {
                    images.push((image_url.clone(), *detail));
                    assert(images.deep_view() == so_far.push((image_url@, *detail)));
                }
                j += 1;
            }
            assert(inner.take(inner.len() as int) == inner);
        }
        i += 1;
    }
    assert(all.take(all.len() as int) == all);
    images
}

/// The files of the local images in `input`, in order.
pub fn local_image_paths<C>(input: &[UserInput<C>]) -> (paths: Vec<&PathBuf>)
    ensures
        paths@.map_values(|p: &PathBuf| *p) == local_paths(input.deep_view()),
        paths@.len() == local_image_count(input.deep_view()),
{
    let ghost all = input.deep_view();
    let mut paths: Vec<&PathBuf> = Vec::new();
    let mut i: usize = 0;
    assert(all.take(0) == Seq::<UserInputView<C>>::empty());
    while i < input.len()
        invariant
            i <= input@.len(),
            all == input.deep_view(),
            paths@.map_values(|p: &PathBuf| *p) == local_paths(all.take(i as int)),
            paths@.len() == local_image_count(all.take(i as int)),
        decreases input@.len() - i,
    {
        proof {
            lemma_take_succ(all, i as int);
        }
        let ghost so_far = paths@.map_values(|p: &PathBuf| *p);
        if let UserInput::LocalImage { path, .. } = &input[i] {
            paths.push(path);
            assert(paths@.map_values(|p: &PathBuf| *p) == so_far.push(*path));
        }
        i += 1;
    }
    assert(all.take(all.len() as int) == all);
    paths
}

pub proof fn lemma_local_image_count_grows<C>(input: Seq<UserInputView<C>>, i: int)
    requires
        0 <= i <= input.len(),
    ensures
        local_image_count(input.take(i)) <= local_image_count(input),
    decreases input.len(),
{
    if i < input.len() {
        assert(input.drop_last().take(i) == input.take(i));
        lemma_local_image_count_grows(input.drop_last(), i);
    } else {
        assert(input.take(i) == input);
    }
}

/// The images in `input` that are there to describe, in order. `loaded` holds,
/// for each local image in order, the data URL that its file was read into, or
/// `None` where it could not be read: such an image is left out of the batch.
pub fn collect_user_input_images<C>(
    input: &[UserInput<C>],
    loaded: &[Option<String>],
) -> (images: Vec<ImageRef>)
    requires
        loaded@.len() == local_image_count(input.deep_view()),
    ensures
        images.deep_view() == user_images(input.deep_view(), loaded.deep_view()),
{
    let ghost all = input.deep_view();
    let ghost urls = loaded.deep_view();
    let mut images: Vec<ImageRef> = Vec::new();
    let mut i: usize = 0;
    let mut next_local: usize = 0;
    assert(all.take(0) == Seq::<UserInputView<C>>::empty());
    while i < input.len()
        invariant
            i <= input@.len(),
            all == input.deep_view(),
            urls == loaded.deep_view(),
            loaded@.len() == local_image_count(all),
            next_local == local_image_count(all.take(i as int)),
            images.deep_view() == user_images(all.take(i as int), urls),
        decreases input@.len() - i,
    {
        proof {
            lemma_take_succ(all, i as int);
            lemma_local_image_count_grows(all, i as int + 1);
        }
        let ghost so_far = images.deep_view();
        match &input[i] {
            UserInput::Image { image_url, detail } => {
                images.push((image_url.clone(), *detail));
                assert(images.deep_view() == so_far.push((image_url@, *detail)));
            },
            UserInput::LocalImage { detail, .. } => {
                if let Some(data_url) = &loaded[next_local] {
                    images.push((data_url.clone(), *detail));
                    assert(images.deep_view() == so_far.push((data_url@, *detail)));
                }
                next_local += 1;
            },
            _ => {},
        }
        i += 1;
    }
    assert(all.take(all.len() as int) == all);
    images
}

} // verus!
