//! What the operations do, said of the items, fields and characters that go in
//! and come out.

use vstd::prelude::*;

use crate::attach::{
    described, first_output_image, first_user_image, lemma_first_output_image, lemma_first_user_image,
    with_content_description, with_item_description, with_response_description, with_user_description,
};
use crate::error::VisionErrorView;
use crate::image_url::{must_load, normalized};
use crate::images::{
    carries_image, has_response_image, has_user_image, is_output_image, is_user_image, local_image_count,
    local_paths, output_images, response_images, user_images,
};
use crate::items::{
    ImageRefView, OutputBodyView, OutputItemView, OutputPayloadView, ResponseItemView, UserInputView,
};
use crate::text::{ascii_lower, has_prefix_ignoring_case, is_blank, is_white_space, VISION_DESCRIPTION_PREFIX};

verus! {

/// The prefix test compares character by character: two characters agree when
/// they are the same, or the same ASCII letter in two cases.
pub proof fn law_prefix_compares_letters(s: Seq<char>, prefix: Seq<char>)
    ensures
        has_prefix_ignoring_case(s, prefix) <==> prefix.len() <= s.len() && forall|i: int|
            0 <= i < prefix.len() ==> {
                ||| #[trigger] s[i] == prefix[i]
                ||| 'A' <= s[i] <= 'Z' && prefix[i] as int == s[i] as int + 32
                ||| 'A' <= prefix[i] <= 'Z' && s[i] as int == prefix[i] as int + 32
            },
{
    assert forall|i: int| 0 <= i < prefix.len() && i < s.len() implies (ascii_lower(#[trigger] s[i])
        == ascii_lower(prefix[i]) <==> {
        ||| s[i] == prefix[i]
        ||| 'A' <= s[i] <= 'Z' && prefix[i] as int == s[i] as int + 32
        ||| 'A' <= prefix[i] <= 'Z' && s[i] as int == prefix[i] as int + 32
    }) by {
        lemma_same_letter(s[i], prefix[i]);
    }
    if has_prefix_ignoring_case(s, prefix) {
        assert forall|i: int| 0 <= i < prefix.len() implies {
            ||| #[trigger] s[i] == prefix[i]
            ||| 'A' <= s[i] <= 'Z' && prefix[i] as int == s[i] as int + 32
            ||| 'A' <= prefix[i] <= 'Z' && s[i] as int == prefix[i] as int + 32
        } by {
            assert(ascii_lower(s[i]) == ascii_lower(prefix[i]));
        }
    }
}

proof fn lemma_same_letter(c: char, d: char)
    ensures
        ascii_lower(c) == ascii_lower(d) <==> {
            ||| c == d
            ||| 'A' <= c <= 'Z' && d as int == c as int + 32
            ||| 'A' <= d <= 'Z' && c as int == d as int + 32
        },
{
    assert(c as u32 as int == c as int);
    assert(d as u32 as int == d as int);
}

/// Nothing is blank but white space: the empty text is, a text is where both
/// its halves are, and one character is where Unicode counts it as white space.
pub proof fn law_blank_text(a: Seq<char>, b: Seq<char>, c: char)
    ensures
        is_blank(Seq::empty()),
        is_blank(a + b) <==> is_blank(a) && is_blank(b),
        is_blank(seq![c]) <==> {
            ||| '\u{9}' <= c <= '\u{d}'
            ||| c == ' '
            ||| c == '\u{85}'
            ||| c == '\u{a0}'
            ||| c == '\u{1680}'
            ||| '\u{2000}' <= c <= '\u{200a}'
            ||| c == '\u{2028}'
            ||| c == '\u{2029}'
            ||| c == '\u{202f}'
            ||| c == '\u{205f}'
            ||| c == '\u{3000}'
        },
{
    let both = a + b;
    if is_blank(both) {
        assert forall|i: int| 0 <= i < a.len() implies is_white_space(#[trigger] a[i]) by {
            assert(both[i] == a[i]);
        }
        assert forall|i: int| 0 <= i < b.len() implies is_white_space(#[trigger] b[i]) by {
            assert(both[a.len() + i] == b[i]);
        }
    }
    let one = seq![c];
    assert(one[0] == c);
    assert(is_blank(one) <==> is_white_space(c));
    assert(c as u32 as int == c as int);
}

/// A text is not blank as soon as one of its characters is no white space,
/// wherever that stands.
pub proof fn law_one_character_is_not_blank(s: Seq<char>, i: int)
    requires
        0 <= i < s.len(),
        !is_blank(seq![s[i]]),
    ensures
        !is_blank(s),
{
    assert(s == s.take(i) + (seq![s[i]] + s.skip(i + 1)));
    law_blank_text(s.take(i), seq![s[i]] + s.skip(i + 1), s[i]);
    law_blank_text(seq![s[i]], s.skip(i + 1), s[i]);
}

proof fn lemma_letters(c: char, lower: char, upper: char)
    requires
        lower == upper && !('A' <= lower <= 'Z') && !('a' <= lower <= 'z') || 'A' <= upper <= 'Z' && lower as int
            == upper as int + 32,
    ensures
        ascii_lower(c) == ascii_lower(lower) <==> c == lower || c == upper,
{
    lemma_same_letter(c, lower);
}

proof fn lemma_data_prefix(url: Seq<char>)
    ensures
        has_prefix_ignoring_case(url, "data:"@) <==> url.len() >= 5 && forall|i: int|
            0 <= i < 5 ==> #[trigger] url[i] == "data:"@[i] || url[i] == "DATA:"@[i],
{
    reveal_strlit("data:");
    reveal_strlit("DATA:");
    let lower = "data:"@;
    let upper = "DATA:"@;
    assert(lower[0] == 'd' && lower[1] == 'a' && lower[2] == 't' && lower[3] == 'a' && lower[4] == ':');
    assert(upper[0] == 'D' && upper[1] == 'A' && upper[2] == 'T' && upper[3] == 'A' && upper[4] == ':');
    assert forall|i: int| 0 <= i < 5 implies (ascii_lower(#[trigger] url[i]) == ascii_lower(lower[i]) <==> url[i]
        == lower[i] || url[i] == upper[i]) by {
        assert(i == 0 || i == 1 || i == 2 || i == 3 || i == 4);
        lemma_letters(url[i], lower[i], upper[i]);
    }
    if has_prefix_ignoring_case(url, lower) {
        assert forall|i: int| 0 <= i < 5 implies #[trigger] url[i] == lower[i] || url[i] == upper[i] by {
            assert(ascii_lower(url[i]) == ascii_lower(lower[i]));
        }
    }
}

proof fn lemma_image_prefix(url: Seq<char>)
    ensures
        has_prefix_ignoring_case(url, "data:image/"@) <==> url.len() >= 11 && forall|i: int|
            0 <= i < 11 ==> #[trigger] url[i] == "data:image/"@[i] || url[i] == "DATA:IMAGE/"@[i],
{
    reveal_strlit("data:image/");
    reveal_strlit("DATA:IMAGE/");
    let lower = "data:image/"@;
    let upper = "DATA:IMAGE/"@;
    assert(lower == seq!['d', 'a', 't', 'a', ':', 'i', 'm', 'a', 'g', 'e', '/']);
    assert(upper == seq!['D', 'A', 'T', 'A', ':', 'I', 'M', 'A', 'G', 'E', '/']);
    assert forall|i: int| 0 <= i < 11 implies (ascii_lower(#[trigger] url[i]) == ascii_lower(lower[i]) <==> url[i]
        == lower[i] || url[i] == upper[i]) by {
        assert(i == 0 || i == 1 || i == 2 || i == 3 || i == 4 || i == 5 || i == 6 || i == 7 || i == 8 || i == 9
            || i == 10);
        lemma_letters(url[i], lower[i], upper[i]);
    }
    if has_prefix_ignoring_case(url, lower) {
        assert forall|i: int| 0 <= i < 11 implies #[trigger] url[i] == lower[i] || url[i] == upper[i] by {
            assert(ascii_lower(url[i]) == ascii_lower(lower[i]));
        }
    }
}

/// A data URL of any image type passes through: whatever follows `data:image/`,
/// in whatever case that is written, and whatever loading would give.
pub proof fn law_image_data_urls_pass_through<E>(
    image_url: Seq<char>,
    loaded: Result<Seq<char>, Seq<char>>,
)
    requires
        image_url.len() >= 11,
        forall|i: int| 0 <= i < 11 ==> #[trigger] image_url[i] == "data:image/"@[i] || image_url[i] == "DATA:IMAGE/"@[i],
    ensures
        !must_load(image_url),
        normalized::<E>(image_url, loaded) == Ok::<Seq<char>, VisionErrorView<E>>(image_url),
{
    lemma_image_prefix(image_url);
}

/// The same of the prefix as it is usually written.
pub proof fn law_image_types_pass_through<E>(rest: Seq<char>, loaded: Result<Seq<char>, Seq<char>>)
    ensures
        !must_load("data:image/"@ + rest),
        normalized::<E>("data:image/"@ + rest, loaded) == Ok::<Seq<char>, VisionErrorView<E>>("data:image/"@ + rest),
{
    reveal_strlit("data:image/");
    law_image_data_urls_pass_through::<E>("data:image/"@ + rest, loaded);
}

/// A URL that does not start with `data:`, in any case, passes through,
/// whatever loading would give.
pub proof fn law_remote_urls_pass_through<E>(image_url: Seq<char>, loaded: Result<Seq<char>, Seq<char>>)
    requires
        image_url.len() < 5 || exists|i: int|
            0 <= i < 5 && #[trigger] image_url[i] != "data:"@[i] && image_url[i] != "DATA:"@[i],
    ensures
        !must_load(image_url),
        normalized::<E>(image_url, loaded) == Ok::<Seq<char>, VisionErrorView<E>>(image_url),
{
    lemma_data_prefix(image_url);
}

/// Any other data URL is replaced by what it was loaded into, and is an invalid
/// request, with the reason, where it cannot be loaded.
pub proof fn law_other_data_urls_are_replaced<E>(
    image_url: Seq<char>,
    data_url: Seq<char>,
    reason: Seq<char>,
)
    requires
        image_url.len() >= 5,
        forall|i: int| 0 <= i < 5 ==> #[trigger] image_url[i] == "data:"@[i] || image_url[i] == "DATA:"@[i],
        image_url.len() < 11 || exists|i: int|
            0 <= i < 11 && #[trigger] image_url[i] != "data:image/"@[i] && image_url[i] != "DATA:IMAGE/"@[i],
    ensures
        must_load(image_url),
        normalized::<E>(image_url, Ok(data_url)) == Ok::<Seq<char>, VisionErrorView<E>>(data_url),
        normalized::<E>(image_url, Err(reason)) == Err::<Seq<char>, VisionErrorView<E>>(
            VisionErrorView::InvalidRequest("invalid image for vision provider: "@ + reason),
        ),
{
    lemma_data_prefix(image_url);
    lemma_image_prefix(image_url);
}

/// User input has images exactly where an item is an image, by URL or local.
pub proof fn law_user_images_are_detected<C>(input: Seq<UserInputView<C>>)
    ensures
        has_user_image(input) <==> exists|i: int|
            0 <= i < input.len() && ((#[trigger] input[i]) is Image || input[i] is LocalImage),
{
    if has_user_image(input) {
        let i = choose|i: int| 0 <= i < input.len() && is_user_image(#[trigger] input[i]);
        assert(input[i] is Image || input[i] is LocalImage);
    }
    if exists|i: int| 0 <= i < input.len() && ((#[trigger] input[i]) is Image || input[i] is LocalImage) {
        let i = choose|i: int|
            0 <= i < input.len() && ((#[trigger] input[i]) is Image || input[i] is LocalImage);
        assert(is_user_image(input[i]));
    }
}

/// A tool output that is a list carries an image exactly where one of its
/// content items is an image, whichever kind of tool it came from.
pub proof fn law_tool_images_are_detected<C>(
    item: ResponseItemView<C>,
    output: OutputPayloadView<C>,
    content: Seq<OutputItemView<C>>,
)
    requires
        output.body == OutputBodyView::ContentItems(content),
        match item {
            ResponseItemView::FunctionCallOutput { output: o, .. } => o == output,
            ResponseItemView::CustomToolCallOutput { output: o, .. } => o == output,
            _ => false,
        },
    ensures
        carries_image(item) <==> exists|j: int| 0 <= j < content.len() && (#[trigger] content[j]) is InputImage,
{
    if carries_image(item) {
        let j = choose|j: int| 0 <= j < content.len() && is_output_image(#[trigger] content[j]);
        assert(content[j] is InputImage);
    }
    if exists|j: int| 0 <= j < content.len() && (#[trigger] content[j]) is InputImage {
        let j = choose|j: int| 0 <= j < content.len() && (#[trigger] content[j]) is InputImage;
        assert(is_output_image(content[j]));
    }
}

/// What is no list of a tool's content items carries no image.
pub proof fn law_other_items_carry_none<C>(item: ResponseItemView<C>)
    requires
        match item {
            ResponseItemView::FunctionCallOutput { output, .. } => output.body is Text,
            ResponseItemView::CustomToolCallOutput { output, .. } => output.body is Text,
            _ => true,
        },
    ensures
        !carries_image(item),
{
}

/// The history has images exactly where one of its items carries one.
pub proof fn law_history_images_are_detected<C>(items: Seq<ResponseItemView<C>>)
    ensures
        has_response_image(items) <==> exists|i: int|
            0 <= i < items.len() && carries_image(#[trigger] items[i]),
{
}

proof fn lemma_local_count<C>(input: Seq<UserInputView<C>>)
    ensures
        local_image_count(input) == input.filter(|x: UserInputView<C>| x is LocalImage).len(),
    decreases input.len(),
{
    reveal(Seq::filter);
    if input.len() > 0 {
        lemma_local_count(input.drop_last());
    }
}

/// The paths are those of the local images, one for one and in order.
pub proof fn law_local_paths_are_all<C>(input: Seq<UserInputView<C>>)
    ensures
        local_image_count(input) == input.filter(|x: UserInputView<C>| x is LocalImage).len(),
        local_paths(input) == input.filter(|x: UserInputView<C>| x is LocalImage).map_values(
            |x: UserInputView<C>| x->LocalImage_path,
        ),
    decreases input.len(),
{
    lemma_local_count(input);
    reveal(Seq::filter);
    if input.len() > 0 {
        let front = input.drop_last();
        law_local_paths_are_all(front);
        let pred = |x: UserInputView<C>| x is LocalImage;
        let path = |x: UserInputView<C>| x->LocalImage_path;
        if input.last() is LocalImage {
            assert(input.filter(pred) == front.filter(pred).push(input.last()));
            assert(input.filter(pred).map_values(path) == front.filter(pred).map_values(path).push(
                path(input.last()),
            ));
        }
    } else {
        assert(local_paths(input) == input.filter(|x: UserInputView<C>| x is LocalImage).map_values(
            |x: UserInputView<C>| x->LocalImage_path,
        ));
    }
}

proof fn lemma_user_images<C>(input: Seq<UserInputView<C>>, loaded: Seq<Option<Seq<char>>>)
    requires
        input.filter(|x: UserInputView<C>| x is LocalImage).len() <= loaded.len(),
    ensures
        user_images(input, loaded).len() == input.filter(|x: UserInputView<C>| x is Image).len() + loaded.take(
            input.filter(|x: UserInputView<C>| x is LocalImage).len() as int,
        ).filter(|l: Option<Seq<char>>| l is Some).len(),
        forall|i: int|
            0 <= i < input.len() && (#[trigger] input[i]) is Image ==> {
                let locals = input.take(i).filter(|x: UserInputView<C>| x is LocalImage).len() as int;
                let rank = input.take(i).filter(|x: UserInputView<C>| x is Image).len() + loaded.take(
                    locals,
                ).filter(|l: Option<Seq<char>>| l is Some).len();
                &&& rank < user_images(input, loaded).len()
                &&& user_images(input, loaded)[rank as int] == (input[i]->Image_image_url, input[i]->Image_detail)
            },
        forall|i: int|
            0 <= i < input.len() && (#[trigger] input[i]) is LocalImage ==> {
                let locals = input.take(i).filter(|x: UserInputView<C>| x is LocalImage).len() as int;
                let rank = input.take(i).filter(|x: UserInputView<C>| x is Image).len() + loaded.take(
                    locals,
                ).filter(|l: Option<Seq<char>>| l is Some).len();
                &&& locals < loaded.len()
                &&& loaded[locals] is Some ==> {
                    &&& rank < user_images(input, loaded).len()
                    &&& user_images(input, loaded)[rank as int] == (loaded[locals]->0, input[i]->LocalImage_detail)
                }
            },
    decreases input.len(),
{
    reveal(Seq::filter);
    let is_local = |x: UserInputView<C>| x is LocalImage;
    let is_remote = |x: UserInputView<C>| x is Image;
    let is_read = |l: Option<Seq<char>>| l is Some;
    if input.len() == 0 {
        assert(loaded.take(0).filter(is_read).len() == 0);
    } else {
        let front = input.drop_last();
        let n = front.filter(is_local).len() as int;
        lemma_local_count(front);
        lemma_user_images(front, loaded);
        if input.last() is LocalImage {
            assert(loaded.take(n + 1).drop_last() == loaded.take(n));
            assert(loaded.take(n + 1).last() == loaded[n]);
        }
        assert forall|i: int| 0 <= i < input.len() && (#[trigger] input[i]) is Image implies {
            let locals = input.take(i).filter(is_local).len() as int;
            let rank = input.take(i).filter(is_remote).len() + loaded.take(locals).filter(is_read).len();
            &&& rank < user_images(input, loaded).len()
            &&& user_images(input, loaded)[rank as int] == (input[i]->Image_image_url, input[i]->Image_detail)
        } by {
            if i < front.len() {
                assert(input.take(i) == front.take(i));
                assert(front[i] == input[i]);
            } else {
                assert(input.take(i) == front);
            }
        }
        assert forall|i: int| 0 <= i < input.len() && (#[trigger] input[i]) is LocalImage implies {
            let locals = input.take(i).filter(is_local).len() as int;
            let rank = input.take(i).filter(is_remote).len() + loaded.take(locals).filter(is_read).len();
            &&& locals < loaded.len()
            &&& loaded[locals] is Some ==> {
                &&& rank < user_images(input, loaded).len()
                &&& user_images(input, loaded)[rank as int] == (loaded[locals]->0, input[i]->LocalImage_detail)
            }
        } by {
            if i < front.len() {
                assert(input.take(i) == front.take(i));
                assert(front[i] == input[i]);
            } else {
                assert(input.take(i) == front);
            }
        }
    }
}

/// Every image of the user that can be shown is collected, one for one and in
/// order: there are as many as there are images by URL and local images that
/// were read, and each stands, with its own detail, after as many as come
/// before it.
pub proof fn law_every_user_image_is_collected<C>(
    input: Seq<UserInputView<C>>,
    loaded: Seq<Option<Seq<char>>>,
)
    requires
        loaded.len() == input.filter(|x: UserInputView<C>| x is LocalImage).len(),
    ensures
        user_images(input, loaded).len() == input.filter(|x: UserInputView<C>| x is Image).len()
            + loaded.filter(|l: Option<Seq<char>>| l is Some).len(),
        forall|i: int|
            0 <= i < input.len() && (#[trigger] input[i]) is Image ==> {
                let locals = input.take(i).filter(|x: UserInputView<C>| x is LocalImage).len() as int;
                let rank = input.take(i).filter(|x: UserInputView<C>| x is Image).len() + loaded.take(
                    locals,
                ).filter(|l: Option<Seq<char>>| l is Some).len();
                &&& rank < user_images(input, loaded).len()
                &&& user_images(input, loaded)[rank as int] == (input[i]->Image_image_url, input[i]->Image_detail)
            },
        forall|i: int|
            0 <= i < input.len() && (#[trigger] input[i]) is LocalImage ==> {
                let locals = input.take(i).filter(|x: UserInputView<C>| x is LocalImage).len() as int;
                let rank = input.take(i).filter(|x: UserInputView<C>| x is Image).len() + loaded.take(
                    locals,
                ).filter(|l: Option<Seq<char>>| l is Some).len();
                &&& locals < loaded.len()
                &&& loaded[locals] is Some ==> {
                    &&& rank < user_images(input, loaded).len()
                    &&& user_images(input, loaded)[rank as int] == (loaded[locals]->0, input[i]->LocalImage_detail)
                }
            },
{
    lemma_user_images(input, loaded);
    assert(loaded.take(loaded.len() as int) == loaded);
}

/// There is something to show exactly where an image came by URL or a local one
/// was read.
pub proof fn law_something_to_show<C>(input: Seq<UserInputView<C>>, loaded: Seq<Option<Seq<char>>>)
    requires
        loaded.len() == input.filter(|x: UserInputView<C>| x is LocalImage).len(),
    ensures
        user_images(input, loaded).len() > 0 <==> (exists|i: int|
            0 <= i < input.len() && (#[trigger] input[i]) is Image) || (exists|j: int|
            0 <= j < loaded.len() && (#[trigger] loaded[j]) is Some),
{
    law_every_user_image_is_collected(input, loaded);
    let remote = |x: UserInputView<C>| x is Image;
    let read = |l: Option<Seq<char>>| l is Some;
    lemma_filter_finds(input, remote);
    lemma_filter_finds(loaded, read);
    if exists|i: int| 0 <= i < input.len() && (#[trigger] input[i]) is Image {
        let i = choose|i: int| 0 <= i < input.len() && (#[trigger] input[i]) is Image;
        assert(remote(input[i]));
    }
    if exists|j: int| 0 <= j < loaded.len() && (#[trigger] loaded[j]) is Some {
        let j = choose|j: int| 0 <= j < loaded.len() && (#[trigger] loaded[j]) is Some;
        assert(read(loaded[j]));
    }
}

proof fn lemma_filter_finds<T>(s: Seq<T>, pred: spec_fn(T) -> bool)
    ensures
        s.filter(pred).len() > 0 <==> exists|i: int| 0 <= i < s.len() && pred(#[trigger] s[i]),
    decreases s.len(),
{
    reveal(Seq::filter);
    if s.len() > 0 {
        let front = s.drop_last();
        lemma_filter_finds(front, pred);
        if exists|i: int| 0 <= i < front.len() && pred(#[trigger] front[i]) {
            let i = choose|i: int| 0 <= i < front.len() && pred(#[trigger] front[i]);
            assert(pred(s[i]));
        }
        if pred(s.last()) {
            assert(pred(s[s.len() - 1]));
        }
        if exists|i: int| 0 <= i < s.len() && pred(#[trigger] s[i]) {
            let i = choose|i: int| 0 <= i < s.len() && pred(#[trigger] s[i]);
            if i < front.len() {
                assert(pred(front[i]));
            }
        }
    }
}

/// The images collected from the content of a tool output are all of its
/// images, one for one and in order, each with its URL and its detail.
pub proof fn law_every_output_image_is_collected<C>(content: Seq<OutputItemView<C>>)
    ensures
        output_images(content) == content.filter(|x: OutputItemView<C>| x is InputImage).map_values(
            |x: OutputItemView<C>| (x->InputImage_image_url, x->InputImage_detail),
        ),
        forall|i: int|
            0 <= i < content.len() && (#[trigger] content[i]) is InputImage ==> {
                let rank = content.take(i).filter(|x: OutputItemView<C>| x is InputImage).len();
                &&& rank < output_images(content).len()
                &&& output_images(content)[rank as int] == (
                    content[i]->InputImage_image_url,
                    content[i]->InputImage_detail,
                )
            },
    decreases content.len(),
{
    reveal(Seq::filter);
    let image = |x: OutputItemView<C>| x is InputImage;
    let shown = |x: OutputItemView<C>| (x->InputImage_image_url, x->InputImage_detail);
    if content.len() == 0 {
        assert(output_images(content) == content.filter(image).map_values(shown));
    } else {
        let front = content.drop_last();
        law_every_output_image_is_collected(front);
        if content.last() is InputImage {
            assert(content.filter(image) == front.filter(image).push(content.last()));
            assert(content.filter(image).map_values(shown) == front.filter(image).map_values(shown).push(
                shown(content.last()),
            ));
        }
        assert forall|i: int| 0 <= i < content.len() && (#[trigger] content[i]) is InputImage implies {
            let rank = content.take(i).filter(image).len();
            &&& rank < output_images(content).len()
            &&& output_images(content)[rank as int] == (
                content[i]->InputImage_image_url,
                content[i]->InputImage_detail,
            )
        } by {
            if i < front.len() {
                assert(content.take(i) == front.take(i));
                assert(front[i] == content[i]);
            } else {
                assert(content.take(i) == front);
            }
        }
    }
}

/// The images of a history are those of its parts, in order.
pub proof fn law_history_images_add_up<C>(first: Seq<ResponseItemView<C>>, second: Seq<ResponseItemView<C>>)
    ensures
        response_images(first + second) == response_images(first) + response_images(second),
    decreases second.len(),
{
    if second.len() == 0 {
        assert(first + second == first);
    } else {
        law_history_images_add_up(first, second.drop_last());
        assert((first + second).drop_last() == first + second.drop_last());
        assert((first + second).last() == second.last());
    }
}

/// The images of one item of the history are all the images in its content
/// items, where it is the output of a function or of a custom tool, and none
/// otherwise.
pub proof fn law_item_images_are_its_content_images<C>(item: ResponseItemView<C>)
    ensures
        response_images(seq![item]) == (match item {
            ResponseItemView::FunctionCallOutput {
                output: OutputPayloadView { body: OutputBodyView::ContentItems(content), .. },
                ..
            } => content.filter(|x: OutputItemView<C>| x is InputImage).map_values(
                |x: OutputItemView<C>| (x->InputImage_image_url, x->InputImage_detail),
            ),
            ResponseItemView::CustomToolCallOutput {
                output: OutputPayloadView { body: OutputBodyView::ContentItems(content), .. },
                ..
            } => content.filter(|x: OutputItemView<C>| x is InputImage).map_values(
                |x: OutputItemView<C>| (x->InputImage_image_url, x->InputImage_detail),
            ),
            _ => Seq::empty(),
        }),
{
    let one = seq![item];
    assert(one.drop_last() == Seq::<ResponseItemView<C>>::empty());
    assert(one.last() == item);
    assert(response_images(one.drop_last()) == Seq::<ImageRefView>::empty());
    match item {
        ResponseItemView::FunctionCallOutput {
            output: OutputPayloadView { body: OutputBodyView::ContentItems(content), .. },
            ..
        } => {
            law_every_output_image_is_collected(content);
        },
        ResponseItemView::CustomToolCallOutput {
            output: OutputPayloadView { body: OutputBodyView::ContentItems(content), .. },
            ..
        } => {
            law_every_output_image_is_collected(content);
        },
        _ => {},
    }
}

/// The text of a description is the marker, a line break and the whole
/// description.
pub proof fn law_description_is_whole(description: Seq<char>)
    ensures
        described(description) == VISION_DESCRIPTION_PREFIX@ + "\n"@ + description,
{
    reveal_strlit("\n");
    assert("\n"@ == seq!['\n']);
}

/// The description goes in whole, directly after the first image: everything up
/// to that image stays in front of it, everything else behind it, and the item
/// between is plain text without elements.
pub proof fn law_description_follows_first_user_image<C>(
    input: Seq<UserInputView<C>>,
    description: Seq<char>,
    at: int,
)
    requires
        0 <= at < input.len(),
        input[at] is Image || input[at] is LocalImage,
        forall|j: int| 0 <= j < at ==> !((#[trigger] input[j]) is Image) && !(input[j] is LocalImage),
    ensures
        ({
            let out = with_user_description(input, description);
            &&& out.len() == input.len() + 1
            &&& out.take(at + 1) == input.take(at + 1)
            &&& out.skip(at + 2) == input.skip(at + 1)
            &&& out[at + 1] is Text
            &&& out[at + 1]->Text_text == VISION_DESCRIPTION_PREFIX@ + "\n"@ + description
            &&& out[at + 1]->Text_text_elements.len() == 0
            &&& out[at + 1]->Text_text.skip(VISION_DESCRIPTION_PREFIX@.len() as int + 1) == description
        }),
{
    law_description_is_whole(description);
    reveal_strlit("\n");
    lemma_first_user_image(input);
    let first = first_user_image(input);
    if first < at {
        assert(is_user_image(input[first]));
    } else if first > at {
        assert(!is_user_image(input[at]));
    }
    let out = with_user_description(input, description);
    assert(out.take(at + 1) == input.take(at + 1));
    assert(out.skip(at + 2) == input.skip(at + 1));
    assert((VISION_DESCRIPTION_PREFIX@ + "\n"@ + description).skip(VISION_DESCRIPTION_PREFIX@.len() as int + 1)
        == description);
}

/// Without an image, by URL or local, user input stays as it is.
pub proof fn law_input_without_images_stays<C>(input: Seq<UserInputView<C>>, description: Seq<char>)
    requires
        forall|j: int| 0 <= j < input.len() ==> !((#[trigger] input[j]) is Image) && !(input[j] is LocalImage),
    ensures
        with_user_description(input, description) == input,
{
    lemma_first_user_image(input);
    if first_user_image(input) < input.len() {
        assert(is_user_image(input[first_user_image(input)]));
    }
}

/// In a tool output, too, the description goes in whole, directly after the
/// first image, and everything else stays in order around it.
pub proof fn law_description_follows_first_output_image<C>(
    content: Seq<OutputItemView<C>>,
    description: Seq<char>,
    at: int,
)
    requires
        0 <= at < content.len(),
        content[at] is InputImage,
        forall|j: int| 0 <= j < at ==> !((#[trigger] content[j]) is InputImage),
    ensures
        ({
            let out = with_content_description(content, description);
            &&& out.len() == content.len() + 1
            &&& out.take(at + 1) == content.take(at + 1)
            &&& out.skip(at + 2) == content.skip(at + 1)
            &&& out[at + 1] is InputText
            &&& out[at + 1]->InputText_text == VISION_DESCRIPTION_PREFIX@ + "\n"@ + description
            &&& out[at + 1]->InputText_text.skip(VISION_DESCRIPTION_PREFIX@.len() as int + 1) == description
        }),
{
    law_description_is_whole(description);
    reveal_strlit("\n");
    lemma_first_output_image(content);
    let first = first_output_image(content);
    if first < at {
        assert(is_output_image(content[first]));
    } else if first > at {
        assert(!is_output_image(content[at]));
    }
    let out = with_content_description(content, description);
    assert(out.take(at + 1) == content.take(at + 1));
    assert(out.skip(at + 2) == content.skip(at + 1));
    assert((VISION_DESCRIPTION_PREFIX@ + "\n"@ + description).skip(VISION_DESCRIPTION_PREFIX@.len() as int + 1)
        == description);
}

/// Content without an image stays as it is.
pub proof fn law_content_without_images_stays<C>(content: Seq<OutputItemView<C>>, description: Seq<char>)
    requires
        forall|j: int| 0 <= j < content.len() ==> !((#[trigger] content[j]) is InputImage),
    ensures
        with_content_description(content, description) == content,
{
    lemma_first_output_image(content);
    if first_output_image(content) < content.len() {
        assert(is_output_image(content[first_output_image(content)]));
    }
}

/// Attaching to the history goes item by item. Of the output of a function or
/// of a custom tool, the content items alone may change; a plain text output
/// and every other kind of item stay as they are.
pub proof fn law_history_is_attached_item_by_item<C>(
    items: Seq<ResponseItemView<C>>,
    description: Seq<char>,
    i: int,
)
    requires
        0 <= i < items.len(),
    ensures
        with_response_description(items, description).len() == items.len(),
        match (items[i], with_response_description(items, description)[i]) {
            (
                ResponseItemView::FunctionCallOutput {
                    id,
                    call_id,
                    output,
                    internal_chat_message_metadata_passthrough: passed,
                },
                ResponseItemView::FunctionCallOutput {
                    id: id2,
                    call_id: call_id2,
                    output: output2,
                    internal_chat_message_metadata_passthrough: passed2,
                },
            ) => {
                &&& id2 == id && call_id2 == call_id && passed2 == passed
                &&& output2.success == output.success
                &&& match output.body {
                    OutputBodyView::Text(_) => output2.body == output.body,
                    OutputBodyView::ContentItems(content) => output2.body == OutputBodyView::ContentItems(
                        with_content_description(content, description),
                    ),
                }
            },
            (
                ResponseItemView::CustomToolCallOutput { output, rest },
                ResponseItemView::CustomToolCallOutput { output: output2, rest: rest2 },
            ) => {
                &&& rest2 == rest
                &&& output2.success == output.success
                &&& match output.body {
                    OutputBodyView::Text(_) => output2.body == output.body,
                    OutputBodyView::ContentItems(content) => output2.body == OutputBodyView::ContentItems(
                        with_content_description(content, description),
                    ),
                }
            },
            (ResponseItemView::FunctionCallOutput { .. }, _) => false,
            (ResponseItemView::CustomToolCallOutput { .. }, _) => false,
            (item, out) => out == item,
        },
{
    assert(with_response_description(items, description)[i] == with_item_description(items[i], description));
}

} // verus!
