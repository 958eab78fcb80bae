use vision_bridge::bridge::{vision_bridge_from_config, VisionBridge, VisionConfig};
use vision_bridge::describe::{describe_images, ResponseEvent, Step};
use vision_bridge::error::VisionError;
use vision_bridge::items::{ContentItem, ImageDetail, ImageRef, ResponseItem};
use vision_bridge::request::ResponsesApiRequest;
use vision_bridge::text::VISION_DESCRIPTION_INSTRUCTIONS;

type Outcome = Result<String, VisionError<String>>;
type Request = ResponsesApiRequest<String>;

struct Answers {
    provider: Result<(), String>,
    auth: Result<(), String>,
    loads: Vec<Result<String, String>>,
    sent: Result<(), String>,
    stream: Vec<Result<ResponseEvent, String>>,
}

fn good() -> Answers {
    Answers {
        provider: Ok(()),
        auth: Ok(()),
        loads: Vec::new(),
        sent: Ok(()),
        stream: vec![delta("text"), Ok(ResponseEvent::Completed)],
    }
}

fn delta(text: &str) -> Result<ResponseEvent, String> {
    Ok(ResponseEvent::OutputTextDelta(text.to_string()))
}

fn image(url: &str, detail: Option<ImageDetail>) -> ImageRef {
    (url.to_string(), detail)
}

/// Answers every step; gives the URLs loaded, the requests sent and the outcome.
fn run(images: Vec<ImageRef>, answers: Answers) -> (Vec<String>, Vec<Request>, Outcome) {
    let mut loaded: Vec<String> = Vec::new();
    let mut requests: Vec<Request> = Vec::new();
    let mut loads = answers.loads.into_iter();
    let mut stream = answers.stream.into_iter();
    let mut step: Step<String, String> = describe_images("eyes".to_string(), ImageDetail::Low, images);
    loop {
        step = match step {
            Step::ResolveProvider(pending) => pending.resume(answers.provider.clone()),
            Step::ResolveAuth(pending) => pending.resume(answers.auth.clone()),
            Step::LoadImage(pending) => {
                loaded.push(pending.image_url.clone());
                pending.resume(loads.next().expect("one load for each image that needs it"))
            }
            Step::SendRequest { request, pending } => {
                requests.push(request);
                pending.resume(answers.sent.clone())
            }
            Step::PollStream(pending) => pending.resume(stream.next()),
            Step::Finished(outcome) => return (loaded, requests, outcome),
        };
    }
}

#[test]
fn without_images_nobody_is_asked() {
    let answers = Answers { provider: Err("down".to_string()), ..good() };
    let (loaded, requests, outcome) = run(Vec::new(), answers);
    assert!(loaded.is_empty());
    assert!(requests.is_empty());
    assert_eq!(outcome, Ok(String::new()));
}

#[test]
fn one_request_carries_every_image_in_order() {
    let images = vec![
        image("https://example.com/a.png", None),
        image("data:application/octet-stream;base64,b", Some(ImageDetail::High)),
        image("DATA:IMAGE/PNG;base64,c", Some(ImageDetail::Original)),
        image("Data:text/plain,d", None),
    ];
    let answers = Answers {
        loads: vec![Ok("data:image/png;base64,B".to_string()), Ok("data:image/png;base64,D".to_string())],
        ..good()
    };
    let (loaded, requests, outcome) = run(images, answers);
    assert_eq!(loaded, vec!["data:application/octet-stream;base64,b", "Data:text/plain,d"]);
    assert_eq!(outcome, Ok("text".to_string()));

    let item = |url: &str, detail: ImageDetail| ContentItem::InputImage {
        image_url: url.to_string(),
        detail: Some(detail),
    };
    assert_eq!(
        requests,
        vec![ResponsesApiRequest {
            model: "eyes".to_string(),
            instructions: String::new(),
            input: vec![ResponseItem::Message {
                id: None,
                role: "user".to_string(),
                content: vec![
                    ContentItem::InputText { text: VISION_DESCRIPTION_INSTRUCTIONS.to_string() },
                    item("https://example.com/a.png", ImageDetail::Low),
                    item("data:image/png;base64,B", ImageDetail::High),
                    item("DATA:IMAGE/PNG;base64,c", ImageDetail::Original),
                    item("data:image/png;base64,D", ImageDetail::Low),
                ],
                phase: None,
                internal_chat_message_metadata_passthrough: None,
            }],
            tools: None,
            tool_choice: "none".to_string(),
            parallel_tool_calls: false,
            reasoning: None,
            store: false,
            stream: true,
            stream_options: None,
            included: Vec::new(),
            service_tier: None,
            prompt_cache_key: None,
            text: None,
            client_metadata: None,
        }]
    );
}

#[test]
fn errors_of_the_host_come_back_as_they_are() {
    let images = || vec![image("data:text/plain,a", None)];
    let both = Answers {
        provider: Err("no endpoint".to_string()),
        auth: Err("no token".to_string()),
        ..good()
    };
    let (loaded, requests, outcome) = run(images(), both);
    assert!(loaded.is_empty() && requests.is_empty());
    assert_eq!(outcome, Err(VisionError::Host("no endpoint".to_string())));

    let auth = Answers { auth: Err("no token".to_string()), ..good() };
    let (loaded, requests, outcome) = run(images(), auth);
    assert!(loaded.is_empty() && requests.is_empty());
    assert_eq!(outcome, Err(VisionError::Host("no token".to_string())));
}

#[test]
fn first_image_that_cannot_be_loaded_ends_the_run() {
    let images = vec![
        image("data:text/plain,a", None),
        image("data:text/plain,b", None),
        image("data:text/plain,c", None),
    ];
    let answers = Answers {
        loads: vec![Ok("data:image/png;base64,A".to_string()), Err("bad bytes".to_string())],
        ..good()
    };
    let (loaded, requests, outcome) = run(images, answers);
    assert_eq!(loaded, vec!["data:text/plain,a", "data:text/plain,b"]);
    assert!(requests.is_empty());
    assert_eq!(
        outcome,
        Err(VisionError::InvalidRequest(
            "invalid image for vision provider: bad bytes".to_string()
        ))
    );
}

#[test]
fn refused_request_is_a_stream_error() {
    let answers = Answers { sent: Err("500".to_string()), ..good() };
    let (_, requests, outcome) = run(vec![image("https://e.com/a", None)], answers);
    assert_eq!(requests.len(), 1);
    assert_eq!(outcome, Err(VisionError::Stream("vision request failed: 500".to_string())));
}

#[test]
fn pieces_are_joined_up_to_completion() {
    let stream = vec![
        Ok(ResponseEvent::Other),
        delta("one "),
        Ok(ResponseEvent::Other),
        delta("two"),
        Ok(ResponseEvent::Completed),
        delta("never read"),
    ];
    let (_, _, outcome) = run(vec![image("https://e.com/a", None)], Answers { stream, ..good() });
    assert_eq!(outcome, Ok("one two".to_string()));
}

#[test]
fn end_of_the_stream_keeps_what_came() {
    let stream = vec![delta("half an ans")];
    let (_, _, outcome) = run(vec![image("https://e.com/a", None)], Answers { stream, ..good() });
    assert_eq!(outcome, Ok("half an ans".to_string()));
}

#[test]
fn error_in_the_stream_discards_what_came() {
    let stream = vec![delta("one"), Err("reset".to_string()), Ok(ResponseEvent::Completed)];
    let (_, _, outcome) = run(vec![image("https://e.com/a", None)], Answers { stream, ..good() });
    assert_eq!(outcome, Err(VisionError::Stream("vision stream failed: reset".to_string())));
}

#[test]
fn bridge_takes_a_provider_and_a_model() {
    let config = |provider: Option<&str>, model: Option<&str>| VisionConfig {
        vision_provider: provider.map(str::to_string),
        vision_model: model.map(str::to_string),
    };
    assert_eq!(
        vision_bridge_from_config(&config(Some("luna"), Some("gpt-5.6-luna"))),
        Some(VisionBridge { provider: "luna".to_string(), model: "gpt-5.6-luna".to_string() })
    );
    assert_eq!(vision_bridge_from_config(&config(Some("luna"), None)), None);
    assert_eq!(vision_bridge_from_config(&config(None, Some("gpt-5.6-luna"))), None);
    assert_eq!(vision_bridge_from_config(&config(None, None)), None);
    let bridge = VisionBridge::new("luna".to_string(), "eyes".to_string());
    assert_eq!(bridge.clone(), bridge);
}
