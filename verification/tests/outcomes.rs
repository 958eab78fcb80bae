use std::path::PathBuf;
use vision_bridge::attach::{attach_vision_description, description_text};
use vision_bridge::bridge::{bridge_response_item_images, bridge_user_input_images};
use vision_bridge::error::VisionError;
use vision_bridge::image_url::{needs_loading, normalize_image_url};
use vision_bridge::images::{
    collect_response_item_images, collect_user_input_images, local_image_paths,
    response_items_have_images,
};
use vision_bridge::items::{
    ContentItem, FunctionCallOutputBody, FunctionCallOutputContentItem, FunctionCallOutputPayload,
    ImageDetail, ResponseItem, UserInput,
};
use vision_bridge::text::{
    blank, starts_with_ignoring_case, LOCAL_IMAGE_MEDIA_TYPE, VISION_BRIDGE_FAILURE_MESSAGE, VISION_DESCRIPTION_INSTRUCTIONS,
    VISION_DESCRIPTION_PREFIX,
};

type Input = UserInput<u8>;
type Item = ResponseItem<u8>;
type Content = FunctionCallOutputContentItem<u8>;

fn local(path: &str, detail: Option<ImageDetail>) -> Input {
    UserInput::LocalImage { path: PathBuf::from(path), detail }
}

fn remote(url: &str) -> Input {
    UserInput::Image { image_url: url.to_string(), detail: Some(ImageDetail::Low) }
}

fn text(text: &str) -> Input {
    UserInput::Text { text: text.to_string(), text_elements: Vec::new() }
}

fn failure() -> Result<String, VisionError<()>> {
    Err(VisionError::Host(()))
}

fn said(text: &str) -> Result<String, VisionError<()>> {
    Ok(text.to_string())
}

fn output_text(text: &str) -> Content {
    FunctionCallOutputContentItem::InputText { text: text.to_string() }
}

fn output_image(url: &str) -> Content {
    FunctionCallOutputContentItem::InputImage { image_url: url.to_string(), detail: None }
}

fn payload(content: Vec<Content>) -> FunctionCallOutputPayload<u8> {
    FunctionCallOutputPayload { body: FunctionCallOutputBody::ContentItems(content), success: None }
}

fn custom(content: Vec<Content>) -> Item {
    ResponseItem::CustomToolCallOutput { output: payload(content), rest: 9 }
}

fn function(content: Vec<Content>) -> Item {
    ResponseItem::FunctionCallOutput {
        id: Some("id".to_string()),
        call_id: "call".to_string(),
        output: payload(content),
        internal_chat_message_metadata_passthrough: Some(7),
    }
}

fn plain_output() -> Item {
    ResponseItem::FunctionCallOutput {
        id: None,
        call_id: "plain".to_string(),
        output: FunctionCallOutputPayload {
            body: FunctionCallOutputBody::Text("done".to_string()),
            success: Some(false),
        },
        internal_chat_message_metadata_passthrough: None,
    }
}

fn message_with_image() -> Item {
    ResponseItem::Message {
        id: None,
        role: "user".to_string(),
        content: vec![ContentItem::InputImage { image_url: "https://e.com/m".to_string(), detail: None }],
        phase: None,
        internal_chat_message_metadata_passthrough: None,
    }
}

#[test]
fn wording_is_fixed() {
    assert_eq!(
        VISION_DESCRIPTION_INSTRUCTIONS,
        "Describe each image for a coding agent. Be precise about visible text, error messages, \
         terminal output, filenames, UI state, controls, and spatial relationships. Number each \
         description as [Image 1], [Image 2], and so on. Do not speculate about information that \
         is not visible."
    );
    assert_eq!(VISION_DESCRIPTION_PREFIX, "[Image described by vision model]");
    assert_eq!(
        VISION_BRIDGE_FAILURE_MESSAGE,
        "Unable to analyze the attached image with the configured vision provider."
    );
    assert_eq!(description_text("a\nb"), "[Image described by vision model]\na\nb");
}

#[test]
fn white_space_is_that_of_trim() {
    for c in '\0'..=char::MAX {
        assert_eq!(blank(&c.to_string()), c.is_whitespace(), "{:?}", c);
    }
    for s in ["", " \t\r\n", "\u{3000}\u{2003} ", " x ", "\u{200b}", "\n."] {
        assert_eq!(blank(s), s.trim().is_empty(), "{:?}", s);
    }
}

#[test]
fn prefix_test_is_that_of_the_first_bytes() {
    let urls = [
        "", "data", "data:", "DaTa:x", "data;x", "dat\u{e4}:", "dat\u{e4}", "\u{1f600}data:", "data:image",
        "data:image/", "DATA:IMAGE/png", "data:imag\u{e9}/", "data: image/", "http://data:", "data:image\u{2f}gif",
        "\u{212a}ata:", "data\u{ff1a}x",
    ];
    for url in urls {
        for prefix in ["data:", "data:image/"] {
            let expected = url
                .get(..prefix.len())
                .is_some_and(|start| start.eq_ignore_ascii_case(prefix));
            assert_eq!(starts_with_ignoring_case(url, prefix), expected, "{:?} {:?}", url, prefix);
        }
    }
}

#[test]
fn only_unlabelled_data_needs_loading() {
    assert!(needs_loading("data:application/octet-stream;base64,abc"));
    assert!(needs_loading("DATA:,abc"));
    assert!(needs_loading("data:image"));
    assert!(!needs_loading("data:image/"));
    assert!(!needs_loading("Data:Image/webp;base64,abc"));
    assert!(!needs_loading("https://example.com/data:text/plain"));
    assert!(!needs_loading(""));
}

#[test]
fn local_images_need_loading() {
    assert_eq!(LOCAL_IMAGE_MEDIA_TYPE, "application/octet-stream");
    assert!(needs_loading(&format!("data:{LOCAL_IMAGE_MEDIA_TYPE};base64,abc")));
    assert!(needs_loading(&format!("data:{LOCAL_IMAGE_MEDIA_TYPE}")));
}

#[test]
fn normalizing_twice_changes_nothing_more() {
    let once = normalize_image_url::<()>("data:,x", Ok("data:image/gif;base64,eA==".to_string())).unwrap();
    assert_eq!(once, "data:image/gif;base64,eA==");
    assert_eq!(normalize_image_url::<()>(&once, Err("unused".to_string())), Ok(once.clone()));
    assert_eq!(
        normalize_image_url::<()>("data:,x", Err("no image".to_string())),
        Err(VisionError::InvalidRequest("invalid image for vision provider: no image".to_string()))
    );
}

#[test]
fn unreadable_local_images_are_left_out() {
    let input = vec![
        local("/a.png", Some(ImageDetail::High)),
        text("between"),
        remote("https://e.com/b"),
        local("/c.png", None),
        UserInput::Other(1),
        local("/d.png", None),
    ];
    assert_eq!(
        local_image_paths(&input),
        vec![&PathBuf::from("/a.png"), &PathBuf::from("/c.png"), &PathBuf::from("/d.png")]
    );
    let loaded = vec![Some("data:,a".to_string()), None, Some("data:,d".to_string())];
    assert_eq!(
        collect_user_input_images(&input, &loaded),
        vec![
            ("data:,a".to_string(), Some(ImageDetail::High)),
            ("https://e.com/b".to_string(), Some(ImageDetail::Low)),
            ("data:,d".to_string(), None),
        ]
    );
}

#[test]
fn input_stays_where_no_image_could_be_read() {
    let mut input = vec![text("look:"), local("/gone.png", None)];
    bridge_user_input_images(&mut input, &[None], failure());
    assert_eq!(input, vec![text("look:"), local("/gone.png", None)]);

    let mut input = vec![text("no image"), UserInput::Other(3)];
    bridge_user_input_images(&mut input, &[], said("unasked"));
    assert_eq!(input, vec![text("no image"), UserInput::Other(3)]);
}

#[test]
fn description_follows_the_first_image_though_that_one_was_unreadable() {
    let mut input = vec![local("/gone.png", None), remote("https://e.com/b"), text("?")];
    bridge_user_input_images(&mut input, &[None], said("a cat"));
    assert_eq!(
        input,
        vec![
            local("/gone.png", None),
            text("[Image described by vision model]\na cat"),
            remote("https://e.com/b"),
            text("?"),
        ]
    );
}

#[test]
fn blank_description_changes_nothing() {
    let mut input = vec![remote("https://e.com/b")];
    bridge_user_input_images(&mut input, &[], said(" \u{2003}\n"));
    assert_eq!(input, vec![remote("https://e.com/b")]);

    let mut items = vec![custom(vec![output_image("https://e.com/b")])];
    bridge_response_item_images(&mut items, said(""));
    assert_eq!(items, vec![custom(vec![output_image("https://e.com/b")])]);
}

#[test]
fn description_is_kept_with_its_white_space() {
    let mut input = vec![remote("https://e.com/b")];
    bridge_user_input_images(&mut input, &[], said("  a cat\n"));
    assert_eq!(
        input,
        vec![remote("https://e.com/b"), text("[Image described by vision model]\n  a cat\n")]
    );
}

#[test]
fn newer_description_stands_first() {
    let mut input = vec![remote("https://e.com/b"), text("?")];
    attach_vision_description(&mut input, "older");
    attach_vision_description(&mut input, "newer");
    assert_eq!(
        input,
        vec![
            remote("https://e.com/b"),
            text("[Image described by vision model]\nnewer"),
            text("[Image described by vision model]\nolder"),
            text("?"),
        ]
    );
    assert_eq!(
        collect_user_input_images(&input, &[]),
        vec![("https://e.com/b".to_string(), Some(ImageDetail::Low))]
    );
}

#[test]
fn images_of_all_tool_outputs_are_collected() {
    let items = vec![
        message_with_image(),
        function(vec![output_text("x"), output_image("u1"), output_image("u2")]),
        plain_output(),
        ResponseItem::Other(5),
        custom(vec![FunctionCallOutputContentItem::Other(2), output_image("u3")]),
    ];
    let urls: Vec<String> = collect_response_item_images(&items).into_iter().map(|i| i.0).collect();
    assert_eq!(urls, vec!["u1", "u2", "u3"]);
    assert!(response_items_have_images(&items));
    assert!(!response_items_have_images(&[message_with_image(), plain_output(), ResponseItem::Other(5)]));
    assert!(!response_items_have_images(&[custom(vec![output_text("x")])]));
}

#[test]
fn each_tool_output_with_an_image_gets_the_text() {
    let items = || {
        vec![
            message_with_image(),
            function(vec![output_text("x"), output_image("u1"), output_image("u2")]),
            plain_output(),
            custom(vec![output_text("only text")]),
            custom(vec![output_image("u3")]),
        ]
    };
    let expected = |line: &str| {
        let attached = format!("[Image described by vision model]\n{line}");
        vec![
            message_with_image(),
            function(vec![output_text("x"), output_image("u1"), output_text(&attached), output_image("u2")]),
            plain_output(),
            custom(vec![output_text("only text")]),
            custom(vec![output_image("u3"), output_text(&attached)]),
        ]
    };
    let mut described = items();
    bridge_response_item_images(&mut described, said("two cats"));
    assert_eq!(described, expected("two cats"));
    assert_eq!(collect_response_item_images(&described), collect_response_item_images(&items()));

    let mut failed = items();
    bridge_response_item_images(&mut failed, failure());
    assert_eq!(failed, expected(VISION_BRIDGE_FAILURE_MESSAGE));
}

#[test]
fn history_without_images_stays() {
    let mut items = vec![message_with_image(), plain_output()];
    bridge_response_item_images(&mut items, failure());
    assert_eq!(items, vec![message_with_image(), plain_output()]);
}
