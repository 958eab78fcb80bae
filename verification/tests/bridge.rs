use std::path::Path;
use vision_bridge::attach::{attach_response_item_description, attach_vision_description};
use vision_bridge::bridge::{bridge_user_input_images, VisionBridge};
use vision_bridge::describe::{ResponseEvent, Step};
use vision_bridge::error::VisionError;
use vision_bridge::image_url::{needs_loading, normalize_image_url};
use vision_bridge::images::{
    collect_user_input_images, response_items_have_images, user_input_has_images,
};
use vision_bridge::items::{
    ContentItem, FunctionCallOutputBody, FunctionCallOutputContentItem, FunctionCallOutputPayload,
    ImageDetail, ResponseItem, UserInput,
};
use vision_bridge::text::{VISION_BRIDGE_FAILURE_MESSAGE, VISION_DESCRIPTION_PREFIX};

type Input = UserInput<String>;
type Item = ResponseItem<String>;

const TINY_PNG_BASE64: &str = "iVBORw0KGgoAAAANSUhEUgAAAAEAAAABCAYAAAAfFcSJAAAADUlEQVR42mP8z8BQDwAEhQGAhKmMIQAAAABJRU5ErkJggg==";

fn text_item(text: &str) -> Input {
    UserInput::Text {
        text: text.to_string(),
        text_elements: Vec::new(),
    }
}

fn image_item(image_url: &str) -> Input {
    UserInput::Image {
        image_url: image_url.to_string(),
        detail: Some(ImageDetail::High),
    }
}

fn local_image_item(path: &Path) -> Input {
    UserInput::LocalImage {
        path: path.to_path_buf(),
        detail: None,
    }
}

fn function_call_output_with_images() -> Item {
    ResponseItem::FunctionCallOutput {
        id: None,
        call_id: "call-1".to_string(),
        output: FunctionCallOutputPayload {
            body: FunctionCallOutputBody::ContentItems(vec![
                FunctionCallOutputContentItem::InputImage {
                    image_url: "data:image/png;base64,abc".to_string(),
                    detail: Some(ImageDetail::High),
                },
                FunctionCallOutputContentItem::InputImage {
                    image_url: "data:image/png;base64,def".to_string(),
                    detail: None,
                },
                FunctionCallOutputContentItem::InputText {
                    text: "tail text".to_string(),
                },
            ]),
            success: Some(true),
        },
        internal_chat_message_metadata_passthrough: None,
    }
}

#[test]
fn normalizes_octet_stream_data_url_to_image_mime() {
    let octet_stream_url = format!("data:application/octet-stream;base64,{TINY_PNG_BASE64}");
    assert!(needs_loading(&octet_stream_url));
    let loaded = format!("data:image/png;base64,{TINY_PNG_BASE64}");
    let normalized = normalize_image_url::<()>(&octet_stream_url, Ok(loaded.clone()))
        .expect("octet-stream data URL should be normalized");
    assert!(
        normalized.starts_with("data:image/png;base64,"),
        "expected an image/png data URL, got: {normalized}"
    );
    assert_eq!(normalized, loaded);
}

#[test]
fn leaves_supported_image_urls_unchanged() {
    let unused = || Err("must not be looked at".to_string());
    assert_eq!(
        normalize_image_url::<()>("data:image/png;base64,abc", unused())
            .expect("png data URL should pass through"),
        "data:image/png;base64,abc"
    );
    assert_eq!(
        normalize_image_url::<()>("https://example.com/screenshot.png", unused())
            .expect("remote URL should pass through"),
        "https://example.com/screenshot.png"
    );
}

#[test]
fn detects_images() {
    assert!(!user_input_has_images(&[text_item("hello")]));
    assert!(user_input_has_images(&[image_item("data:image/png;base64,abc")]));
    assert!(user_input_has_images(&[
        text_item("hello"),
        local_image_item(Path::new("/tmp/x.png")),
    ]));
}

#[test]
fn keeps_images_and_attaches_description() {
    let mut input = vec![
        text_item("here is the screenshot:"),
        image_item("data:image/png;base64,abc"),
        text_item("what went wrong?"),
        image_item("data:image/png;base64,def"),
    ];
    attach_vision_description(&mut input, "terminal shows a compile error");

    assert_eq!(
        input,
        vec![
            text_item("here is the screenshot:"),
            image_item("data:image/png;base64,abc"),
            text_item("[Image described by vision model]\nterminal shows a compile error"),
            text_item("what went wrong?"),
            image_item("data:image/png;base64,def"),
        ]
    );
}

#[test]
fn leaves_input_untouched_without_images() {
    let mut input = vec![text_item("plain text")];
    attach_vision_description(&mut input, "description");
    assert_eq!(input, vec![text_item("plain text")]);
}

#[test]
fn detects_response_item_images() {
    let message: Item = ResponseItem::Message {
        id: None,
        role: "user".to_string(),
        content: vec![ContentItem::InputText {
            text: "no image".to_string(),
        }],
        phase: None,
        internal_chat_message_metadata_passthrough: None,
    };
    assert!(!response_items_have_images(&[message]));
    assert!(response_items_have_images(&[function_call_output_with_images()]));
}

#[test]
fn keeps_tool_images_and_attaches_description() {
    let mut items = vec![function_call_output_with_images()];
    attach_response_item_description(&mut items, "a terminal with a compile error");

    let ResponseItem::FunctionCallOutput { output, .. } = &items[0] else {
        panic!("expected function call output");
    };
    let content = output.content_items().expect("content items");
    assert_eq!(content.len(), 4);
    assert_eq!(
        content[0],
        FunctionCallOutputContentItem::InputImage {
            image_url: "data:image/png;base64,abc".to_string(),
            detail: Some(ImageDetail::High),
        }
    );
    assert_eq!(
        content[1],
        FunctionCallOutputContentItem::InputText {
            text: "[Image described by vision model]\na terminal with a compile error".to_string(),
        }
    );
    assert_eq!(
        content[2],
        FunctionCallOutputContentItem::InputImage {
            image_url: "data:image/png;base64,def".to_string(),
            detail: None,
        }
    );
    assert_eq!(
        content[3],
        FunctionCallOutputContentItem::InputText {
            text: "tail text".to_string(),
        }
    );
}

/// One image is described, with every answer of the provider a good one.
#[test]
fn describes_image_through_configured_provider_without_deepseek() {
    let description = "terminal shows a compile error";
    let vision = VisionBridge::new("Luna".to_string(), "gpt-5.6-luna".to_string());
    let mut events = vec![
        ResponseEvent::Other,
        ResponseEvent::OutputTextDelta(description.to_string()),
        ResponseEvent::Completed,
    ]
    .into_iter();

    let mut step: Step<String, String> = vision.describe_images(
        vec![("data:image/png;base64,abc".to_string(), None)],
        ImageDetail::High,
    );
    let mut requests: usize = 0;
    let result = loop {
        step = match step {
            Step::ResolveProvider(pending) => pending.resume(Ok(())),
            Step::ResolveAuth(pending) => pending.resume(Ok(())),
            Step::LoadImage(_) => panic!("a labelled image needs no loading"),
            Step::SendRequest { request, pending } => {
                requests += 1;
                assert_eq!(request.model, "gpt-5.6-luna");
                pending.resume(Ok(()))
            }
            Step::PollStream(pending) => pending.resume(events.next().map(Ok)),
            Step::Finished(outcome) => break outcome,
        };
    };
    assert_eq!(requests, 1);
    assert_eq!(result.expect("vision bridge should describe the image"), description);
}

/// A failed vision call must attach an explicit error message, so that the
/// text-only model never believes that it saw the image.
#[test]
fn failed_vision_call_attaches_explicit_error_message() {
    let vision = VisionBridge::new("Luna".to_string(), "gpt-5.6-luna".to_string());
    let mut input = vec![
        text_item("here is the screenshot:"),
        image_item("data:image/png;base64,abc"),
    ];
    let images = collect_user_input_images(&input, &[]);
    let mut step: Step<String, String> = vision.describe_images(images, ImageDetail::High);
    let outcome = loop {
        step = match step {
            Step::ResolveProvider(pending) => pending.resume(Ok(())),
            Step::ResolveAuth(pending) => pending.resume(Ok(())),
            Step::SendRequest { pending, .. } => pending.resume(Err("http 500".to_string())),
            Step::Finished(outcome) => break outcome,
            _ => panic!("unexpected step"),
        };
    };
    assert_eq!(
        outcome,
        Err(VisionError::Stream("vision request failed: http 500".to_string()))
    );
    bridge_user_input_images(&mut input, &[], outcome);

    assert_eq!(
        input,
        vec![
            text_item("here is the screenshot:"),
            image_item("data:image/png;base64,abc"),
            text_item(&format!(
                "{VISION_DESCRIPTION_PREFIX}\n{VISION_BRIDGE_FAILURE_MESSAGE}"
            )),
        ]
    );
}
