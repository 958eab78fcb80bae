//! Text: the fixed wording of the bridge, and the tests on strings that its
//! decisions rest on.

use vstd::prelude::*;
use vstd::utf8::{encode_scalar, encode_utf8, is_ascii_chars, leading_byte_width_1};

verus! {

/// Instructions sent alongside the images to the vision provider.
///
/// The provider is asked to describe each image separately, so that one request
/// for several images still gives a section for each of them.
pub const VISION_DESCRIPTION_INSTRUCTIONS: &'static str = "\
Describe each image for a coding agent. Be precise about visible text, error \
messages, terminal output, filenames, UI state, controls, and spatial \
relationships. Number each description as [Image 1], [Image 2], and so on. \
Do not speculate about information that is not visible.";

/// Marker in front of every generated description, which tells it from the
/// user's own text in later turns.
pub const VISION_DESCRIPTION_PREFIX: &'static str = "[Image described by vision model]";

/// What is attached when the vision provider fails, so that the text-only model
/// never believes that it saw the image.
pub const VISION_BRIDGE_FAILURE_MESSAGE: &'static str =
    "Unable to analyze the attached image with the configured vision provider.";

/// The media type under which the bytes of a local image file are put into a
/// data URL: what kind of image they hold is found out when it is loaded.
pub const LOCAL_IMAGE_MEDIA_TYPE: &'static str = "application/octet-stream";

/// The code point of `c`, with `A` to `Z` taken to lower case.
pub open spec fn ascii_lower(c: char) -> u32 {
    if 'A' <= c <= 'Z' {
        (c as u32 + 32) as u32
    } else {
        c as u32
    }
}

/// `s` starts with `prefix` when the case of ASCII letters is ignored.
pub open spec fn has_prefix_ignoring_case(s: Seq<char>, prefix: Seq<char>) -> bool {
    &&& prefix.len() <= s.len()
    &&& forall|i: int| 0 <= i < prefix.len() ==> ascii_lower(#[trigger] s[i]) == ascii_lower(prefix[i])
}

/// A character of the Unicode property `White_Space`.
pub open spec fn is_white_space(c: char) -> bool {
    let u = c as u32;
    ||| 0x09 <= u <= 0x0d
    ||| u == 0x20
    ||| u == 0x85
    ||| u == 0xa0
    ||| u == 0x1680
    ||| 0x2000 <= u <= 0x200a
    ||| 0x2028 <= u <= 0x2029
    ||| u == 0x202f
    ||| u == 0x205f
    ||| u == 0x3000
}

/// Nothing is left of `s` when white space is trimmed off.
pub open spec fn is_blank(s: Seq<char>) -> bool {
    forall|i: int| 0 <= i < s.len() ==> is_white_space(#[trigger] s[i])
}

fn lower_code(c: char) -> (code: u32)
    ensures
        code == ascii_lower(c),
{
    if 'A' <= c && c <= 'Z' {
        c as u32 + 32
    } else {
        c as u32
    }
}

/// Whether `s` starts with `prefix`, with the case of ASCII letters ignored.
pub fn starts_with_ignoring_case(s: &str, prefix: &str) -> (r: bool)
    ensures
        r == has_prefix_ignoring_case(s@, prefix@),
{
    let mut rest = s.chars();
    for p in it: prefix.chars()
        invariant
            it.seq() == prefix@,
            it.index() <= s@.len(),
            vstd::std_specs::iter::IteratorSpec::remaining(&rest) == s@.skip(it.index() as int),
            forall|i: int| 0 <= i < it.index() ==> ascii_lower(#[trigger] s@[i]) == ascii_lower(prefix@[i]),
    {
        match rest.next() {
            None => {
                return false;
            },
            Some(c) => {
                if lower_code(c) != lower_code(p) {
                    return false;
                }
            },
        }
    }
    true
}

/// Whether `s` holds nothing but white space.
pub fn blank(s: &str) -> (r: bool)
    ensures
        r == is_blank(s@),
{
    for c in it: s.chars()
        invariant
            it.seq() == s@,
            forall|i: int| 0 <= i < it.index() ==> is_white_space(#[trigger] s@[i]),
    {
        let u: u32 = c as u32;
        let white: bool = (0x09 <= u && u <= 0x0d) || u == 0x20 || u == 0x85 || u == 0xa0 || u == 0x1680
            || (0x2000 <= u && u <= 0x200a) || u == 0x2028 || u == 0x2029 || u == 0x202f || u == 0x205f
            || u == 0x3000;
        if !white {
            return false;
        }
    }
    true
}

/// The code of a byte, with `A` to `Z` taken to lower case.
pub open spec fn ascii_lower_byte(b: u8) -> u32 {
    if 0x41 <= b <= 0x5a {
        (b + 32) as u32
    } else {
        b as u32
    }
}

proof fn lemma_char_code(c: char)
    ensures
        c as u32 as int == c as int,
        'A' <= c <= 'Z' <==> 0x41 <= c as u32 <= 0x5a,
{
}

/// Whether a string starts with an ASCII prefix, up to case, can be read off
/// its first bytes: they are there and agree with the prefix one by one.
pub proof fn law_prefix_shows_in_first_bytes(s: Seq<char>, prefix: Seq<char>)
    requires
        is_ascii_chars(prefix),
    ensures
        has_prefix_ignoring_case(s, prefix) <==> {
            &&& prefix.len() <= encode_utf8(s).len()
            &&& forall|i: int|
                0 <= i < prefix.len() ==> ascii_lower_byte(#[trigger] encode_utf8(s)[i]) == ascii_lower(prefix[i])
        },
    decreases prefix.len(),
{
    let bytes = encode_utf8(s);
    if prefix.len() > 0 && s.len() > 0 {
        let start: char = s[0];
        let c: u32 = start as u32;
        lemma_char_code(start);
        let first = encode_scalar(c);
        let rest = encode_utf8(s.drop_first());
        assert(bytes == first + rest);
        assert(bytes[0] == first[0]);
        assert(0 <= prefix[0] as u32 <= 0x7f);
        if c <= 0x7f {
            assert(leading_byte_width_1(c) == c as u8) by (bit_vector)
                requires
                    c <= 0x7f,
            ;
            assert(bytes[0] == c as u8);
            assert(bytes[0] as u32 == c);
            assert(ascii_lower_byte(bytes[0]) == ascii_lower(s[0]));
            law_prefix_shows_in_first_bytes(s.drop_first(), prefix.drop_first());
            if has_prefix_ignoring_case(s, prefix) {
                assert forall|i: int| 0 <= i < prefix.drop_first().len() implies ascii_lower(
                    #[trigger] s.drop_first()[i],
                ) == ascii_lower(prefix.drop_first()[i]) by {
                    assert(s.drop_first()[i] == s[i + 1]);
                }
                assert forall|i: int| 0 <= i < prefix.len() implies ascii_lower_byte(#[trigger] bytes[i])
                    == ascii_lower(prefix[i]) by {
                    if i == 0 {
                        assert(ascii_lower(s[0]) == ascii_lower(prefix[0]));
                    } else {
                        assert(bytes[i] == rest[i - 1]);
                        assert(prefix[i] == prefix.drop_first()[i - 1]);
                    }
                }
            }
            if prefix.len() <= bytes.len() && (forall|i: int|
                0 <= i < prefix.len() ==> ascii_lower_byte(#[trigger] bytes[i]) == ascii_lower(prefix[i])) {
                assert forall|i: int| 0 <= i < prefix.drop_first().len() implies ascii_lower_byte(
                    #[trigger] rest[i],
                ) == ascii_lower(prefix.drop_first()[i]) by {
                    assert(rest[i] == bytes[i + 1]);
                }
                assert forall|i: int| 0 <= i < prefix.len() implies ascii_lower(#[trigger] s[i]) == ascii_lower(
                    prefix[i],
                ) by {
                    if i == 0 {
                        assert(ascii_lower_byte(bytes[0]) == ascii_lower(prefix[0]));
                    } else {
                        assert(s[i] == s.drop_first()[i - 1]);
                        assert(prefix[i] == prefix.drop_first()[i - 1]);
                    }
                }
            }
        } else {
            assert(0xc0u8 | ((c >> 6) & 0x1f) as u8 >= 0x80 && 0xe0u8 | ((c >> 12) & 0x0f) as u8 >= 0x80 && 0xf0u8
                | ((c >> 18) & 0x7) as u8 >= 0x80) by (bit_vector);
            assert(first[0] >= 0x80);
            assert(ascii_lower_byte(bytes[0]) != ascii_lower(prefix[0]));
            assert(ascii_lower(s[0]) != ascii_lower(prefix[0]));
        }
    }
}

} // verus!
