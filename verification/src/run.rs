//! Whole runs: what comes of describing a batch of images, for every way in
//! which the host and the provider may answer.

use vstd::prelude::*;

use crate::describe::{
    after_auth, after_load, after_provider, after_send, after_stream_item, assembled, first_step,
    BatchView, EventView, StepView,
};
use crate::error::VisionErrorView;
use crate::image_url::must_load;
use crate::items::{ContentItemView, ImageDetail, ImageRefView};
use crate::request::{image_item, instruction_item, vision_request, RequestView};

verus! {

/// The answers that a run meets: of the provider's endpoint and credentials, of
/// each image that is loaded, of the request, and the stream of the answer up
/// to its end.
#[verifier::ext_equal]
pub struct Answers<E> {
    pub provider: Result<(), E>,
    pub auth: Result<(), E>,
    pub loads: Seq<Result<Seq<char>, Seq<char>>>,
    pub sent: Result<(), Seq<char>>,
    pub stream: Seq<Result<EventView, Seq<char>>>,
}

/// What a run comes to: the requests that were sent, and the outcome.
#[verifier::ext_equal]
pub struct Run<C, E> {
    pub requests: Seq<RequestView<C>>,
    pub outcome: Result<Seq<char>, VisionErrorView<E>>,
}

pub open spec fn steps_left<C, E>(step: StepView<C, E>) -> nat {
    match step {
        StepView::ResolveProvider(_) => 5,
        StepView::ResolveAuth(_) => 4,
        StepView::LoadImage(_) => 3,
        StepView::SendRequest(_) => 2,
        StepView::PollStream(_) => 1,
        StepView::Finished(_) => 0,
    }
}

pub open spec fn size_left<C, E>(step: StepView<C, E>, answers: Answers<E>) -> nat {
    match step {
        StepView::LoadImage(pending) => pending.rest.len(),
        StepView::PollStream(_) => answers.stream.len(),
        _ => 0,
    }
}

/// What the stream gives next.
pub open spec fn next_item(stream: Seq<Result<EventView, Seq<char>>>) -> Option<
    Result<EventView, Seq<char>>,
> {
    if stream.len() == 0 {
        None
    } else {
        Some(stream[0])
    }
}

/// The step after `step`, when it is answered from `answers`.
pub open spec fn next_step<C, E>(step: StepView<C, E>, answers: Answers<E>) -> StepView<C, E> {
    match step {
        StepView::ResolveProvider(batch) => after_provider(batch, answers.provider),
        StepView::ResolveAuth(batch) => after_auth(batch, answers.auth),
        StepView::LoadImage(pending) => after_load(pending, answers.loads[0]),
        StepView::SendRequest(_) => after_send(answers.sent),
        StepView::PollStream(description) => after_stream_item(description, next_item(answers.stream)),
        StepView::Finished(_) => step,
    }
}

/// The answers that are left after `step` was answered.
pub open spec fn answers_left<C, E>(step: StepView<C, E>, answers: Answers<E>) -> Answers<E> {
    match step {
        StepView::LoadImage(_) => Answers { loads: answers.loads.drop_first(), ..answers },
        StepView::PollStream(_) => Answers { stream: answers.stream.drop_first(), ..answers },
        _ => answers,
    }
}

/// The run from `step` on: each step is answered until the work is finished.
pub open spec fn follow<C, E>(step: StepView<C, E>, answers: Answers<E>) -> Run<C, E>
    decreases steps_left(step), size_left(step, answers),
{
    match step {
        StepView::Finished(outcome) => Run { requests: Seq::empty(), outcome },
        _ => {
            proof {
                lemma_steps_get_fewer(step, answers);
            }
            let run = follow(next_step(step, answers), answers_left(step, answers));
            match step {
                StepView::SendRequest(request) => Run { requests: seq![request] + run.requests, ..run },
                _ => run,
            }
        },
    }
}

/// Putting a request together ends in the request, or in the load of an image
/// that has to be loaded and has fewer images after it.
pub proof fn lemma_assembled<C, E>(
    model: Seq<char>,
    default_detail: ImageDetail,
    content: Seq<ContentItemView<C>>,
    images: Seq<ImageRefView>,
)
    ensures
        match assembled::<C, E>(model, default_detail, content, images) {
            StepView::SendRequest(_) => true,
            StepView::LoadImage(pending) => must_load(pending.image_url) && pending.rest.len() < images.len(),
            _ => false,
        },
    decreases images.len(),
{
    if images.len() > 0 && !must_load(images[0].0) {
        lemma_assembled::<C, E>(
            model,
            default_detail,
            content.push(image_item(images[0].0, images[0].1, default_detail)),
            images.drop_first(),
        );
    }
}

pub proof fn lemma_steps_get_fewer<C, E>(step: StepView<C, E>, answers: Answers<E>)
    requires
        !(step is Finished),
    ensures
        ({
            let next = next_step(step, answers);
            let left = answers_left(step, answers);
            steps_left(next) < steps_left(step) || (steps_left(next) == steps_left(step) && size_left(next, left)
                < size_left(step, answers))
        }),
{
    match step {
        StepView::ResolveAuth(batch) => {
            lemma_assembled::<C, E>(
                batch.model,
                batch.default_detail,
                seq![instruction_item()],
                batch.images,
            );
        },
        StepView::LoadImage(pending) => {
            match after_load::<C, E>(pending, answers.loads[0]) {
                StepView::Finished(_) => {},
                _ => {
                    let image_url = if must_load(pending.image_url) {
                        answers.loads[0]->Ok_0
                    } else {
                        pending.image_url
                    };
                    lemma_assembled::<C, E>(
                        pending.model,
                        pending.default_detail,
                        pending.content.push(
                            image_item(image_url, pending.detail, pending.default_detail),
                        ),
                        pending.rest,
                    );
                },
            }
        },
        _ => {},
    }
}

/// How many of the images have to be loaded.
pub open spec fn load_count(images: Seq<ImageRefView>) -> nat
    decreases images.len(),
{
    if images.len() == 0 {
        0
    } else {
        (if must_load(images[0].0) { 1nat } else { 0nat }) + load_count(images.drop_first())
    }
}

/// The content items for `images`, in order: each with its own URL or, where
/// it has to be loaded, with what it was loaded into.
pub open spec fn image_items<C>(
    images: Seq<ImageRefView>,
    default_detail: ImageDetail,
    loads: Seq<Result<Seq<char>, Seq<char>>>,
) -> Seq<ContentItemView<C>>
    decreases images.len(),
{
    if images.len() == 0 {
        Seq::empty()
    } else {
        let (image_url, detail) = images[0];
        let rest = images.drop_first();
        if must_load(image_url) {
            seq![image_item(loads[0]->Ok_0, detail, default_detail)] + image_items(
                rest,
                default_detail,
                loads.drop_first(),
            )
        } else {
            seq![image_item(image_url, detail, default_detail)] + image_items(rest, default_detail, loads)
        }
    }
}

/// The reason of the first load that failed, if any did.
pub open spec fn first_failed_load(loads: Seq<Result<Seq<char>, Seq<char>>>) -> Option<Seq<char>>
    decreases loads.len(),
{
    if loads.len() == 0 {
        None
    } else {
        match loads[0] {
            Err(reason) => Some(reason),
            Ok(_) => first_failed_load(loads.drop_first()),
        }
    }
}

/// Where the stream ends the work: at the first error or completion, and at its
/// end where there is neither.
pub open spec fn stream_end(stream: Seq<Result<EventView, Seq<char>>>) -> int
    decreases stream.len(),
{
    if stream.len() == 0 || stream[0] is Err || stream[0]->Ok_0 is Completed {
        0
    } else {
        1 + stream_end(stream.drop_first())
    }
}

/// The pieces of text in a stream, joined in order.
pub open spec fn joined_text(stream: Seq<Result<EventView, Seq<char>>>) -> Seq<char>
    decreases stream.len(),
{
    if stream.len() == 0 {
        Seq::empty()
    } else {
        (match stream[0] {
            Ok(EventView::OutputTextDelta(delta)) => delta,
            _ => Seq::empty(),
        }) + joined_text(stream.drop_first())
    }
}

/// What a stream comes to: the joined text up to its completion or end, or the
/// error that came before.
pub open spec fn stream_outcome<E>(stream: Seq<Result<EventView, Seq<char>>>) -> Result<
    Seq<char>,
    VisionErrorView<E>,
> {
    let end = stream_end(stream);
    if end < stream.len() && stream[end] is Err {
        Err(VisionErrorView::Stream("vision stream failed: "@ + stream[end]->Err_0))
    } else {
        Ok(joined_text(stream.take(end)))
    }
}

/// What a run for `batch` comes to under `answers`.
pub open spec fn batch_run<C, E>(batch: BatchView, answers: Answers<E>) -> Run<C, E> {
    if batch.images.len() == 0 {
        Run { requests: Seq::empty(), outcome: Ok(Seq::empty()) }
    } else if answers.provider is Err {
        Run { requests: Seq::empty(), outcome: Err(VisionErrorView::Host(answers.provider->Err_0)) }
    } else if answers.auth is Err {
        Run { requests: Seq::empty(), outcome: Err(VisionErrorView::Host(answers.auth->Err_0)) }
    } else if first_failed_load(answers.loads) is Some {
        Run {
            requests: Seq::empty(),
            outcome: Err(
                VisionErrorView::InvalidRequest(
                    "invalid image for vision provider: "@ + first_failed_load(answers.loads)->0,
                ),
            ),
        }
    } else {
        let content = seq![instruction_item()] + image_items(
            batch.images,
            batch.default_detail,
            answers.loads,
        );
        Run {
            requests: seq![vision_request(batch.model, content)],
            outcome: match answers.sent {
                Err(reason) => Err(VisionErrorView::Stream("vision request failed: "@ + reason)),
                Ok(_) => stream_outcome(answers.stream),
            },
        }
    }
}

proof fn lemma_stream_end(stream: Seq<Result<EventView, Seq<char>>>)
    ensures
        0 <= stream_end(stream) <= stream.len(),
    decreases stream.len(),
{
    if stream.len() > 0 {
        lemma_stream_end(stream.drop_first());
    }
}

/// A stream that is polled until the work ends gives, after what came before,
/// what the stream comes to.
proof fn lemma_follow_stream<C, E>(description: Seq<char>, answers: Answers<E>)
    ensures
        follow::<C, E>(StepView::PollStream(description), answers) == (Run::<C, E> {
            requests: Seq::empty(),
            outcome: match stream_outcome::<E>(answers.stream) {
                Ok(text) => Ok(description + text),
                Err(error) => Err(error),
            },
        }),
    decreases answers.stream.len(),
{
    let step = StepView::<C, E>::PollStream(description);
    let stream = answers.stream;
    let left = answers_left(step, answers);
    reveal_with_fuel(follow, 2);
    if stream.len() == 0 || stream[0] is Err || stream[0]->Ok_0 is Completed {
        assert(stream.take(0) == Seq::<Result<EventView, Seq<char>>>::empty());
        assert(description + Seq::<char>::empty() == description);
    } else {
        let rest = stream.drop_first();
        let end = stream_end(stream);
        lemma_stream_end(rest);
        assert(stream.take(end).drop_first() == rest.take(end - 1));
        assert(end < stream.len() ==> stream[end] == rest[end - 1]);
        match stream[0] {
            Ok(EventView::OutputTextDelta(delta)) => {
                lemma_follow_stream::<C, E>(description + delta, left);
                assert(description + delta + joined_text(rest.take(end - 1)) == description + (delta
                    + joined_text(rest.take(end - 1))));
            },
            _ => {
                lemma_follow_stream::<C, E>(description, left);
                assert(Seq::<char>::empty() + joined_text(rest.take(end - 1)) == joined_text(
                    rest.take(end - 1),
                ));
            },
        }
    }
}

/// Putting a request together from `images` takes one load for each that has to
/// be loaded, and sends them all together, or stops at the first that fails.
proof fn lemma_follow_assembly<C, E>(
    model: Seq<char>,
    default_detail: ImageDetail,
    content: Seq<ContentItemView<C>>,
    images: Seq<ImageRefView>,
    answers: Answers<E>,
)
    requires
        answers.loads.len() == load_count(images),
    ensures
        follow::<C, E>(assembled(model, default_detail, content, images), answers) == (match first_failed_load(
            answers.loads,
        ) {
            Some(reason) => Run::<C, E> {
                requests: Seq::empty(),
                outcome: Err(
                    VisionErrorView::InvalidRequest("invalid image for vision provider: "@ + reason),
                ),
            },
            None => follow(
                StepView::SendRequest(
                    vision_request(model, content + image_items(images, default_detail, answers.loads)),
                ),
                Answers { loads: Seq::empty(), ..answers },
            ),
        }),
    decreases images.len(),
{
    if images.len() == 0 {
        assert(content + image_items::<C>(images, default_detail, answers.loads) == content);
        assert(answers.loads == Seq::<Result<Seq<char>, Seq<char>>>::empty());
    } else {
        let (image_url, detail) = images[0];
        let rest = images.drop_first();
        if must_load(image_url) {
            let left = Answers { loads: answers.loads.drop_first(), ..answers };
            reveal_with_fuel(follow, 2);
            match answers.loads[0] {
                Ok(data_url) => {
                    let item = image_item(data_url, detail, default_detail);
                    lemma_follow_assembly(model, default_detail, content.push(item), rest, left);
                    assert(content.push(item) + image_items(rest, default_detail, left.loads) == content
                        + image_items(images, default_detail, answers.loads));
                },
                Err(_) => {},
            }
        } else {
            let item = image_item(image_url, detail, default_detail);
            lemma_follow_assembly(model, default_detail, content.push(item), rest, answers);
            assert(content.push(item) + image_items(rest, default_detail, answers.loads) == content
                + image_items(images, default_detail, answers.loads));
        }
    }
}

/// Whatever the answers, a run for a batch of images comes to what `batch_run`
/// says. Without images nobody is asked. Else there is at most one request, and
/// it carries the instructions and then every image of the batch in order; the
/// outcome is the text of the answer, or the first error on the way: of the
/// endpoint, of the credentials, of an image, of the request or of the stream.
pub proof fn law_run<C, E>(batch: BatchView, answers: Answers<E>)
    requires
        answers.loads.len() == load_count(batch.images),
    ensures
        follow::<C, E>(first_step(batch), answers) == batch_run::<C, E>(batch, answers),
{
    reveal_with_fuel(follow, 3);
    if batch.images.len() > 0 && answers.provider is Ok && answers.auth is Ok {
        lemma_follow_assembly::<C, E>(
            batch.model,
            batch.default_detail,
            seq![instruction_item()],
            batch.images,
            answers,
        );
        if first_failed_load(answers.loads) is None {
            let after = Answers { loads: Seq::empty(), ..answers };
            lemma_follow_stream::<C, E>(Seq::empty(), after);
            let content = seq![instruction_item::<C>()] + image_items(
                batch.images,
                batch.default_detail,
                answers.loads,
            );
            let request = vision_request(batch.model, content);
            match stream_outcome::<E>(answers.stream) {
                Ok(text) => {
                    assert(Seq::<char>::empty() + text == text);
                },
                Err(_) => {},
            }
            assert(seq![request] + Seq::<RequestView<C>>::empty() == seq![request]);
        }
    }
}

} // verus!
