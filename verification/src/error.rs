//! What can go wrong while images are described.

use vstd::prelude::*;

verus! {

/// Why the vision provider gave no description.
#[derive(Debug, PartialEq, Eq)]
pub enum VisionError<E> {
    /// An image cannot be sent to the vision provider.
    InvalidRequest(String),
    /// The request, or the stream of the answer, failed.
    Stream(String),
    /// An error of the host, passed on as it came.
    Host(E),
}

pub enum VisionErrorView<E> {
    InvalidRequest(Seq<char>),
    Stream(Seq<char>),
    Host(E),
}

impl<E> DeepView for VisionError<E> {
    type V = VisionErrorView<E>;

    open spec fn deep_view(&self) -> VisionErrorView<E> {
        match *self {
            VisionError::InvalidRequest(message) => VisionErrorView::InvalidRequest(message@),
            VisionError::Stream(message) => VisionErrorView::Stream(message@),
            VisionError::Host(error) => VisionErrorView::Host(error),
        }
    }
}

/// The view of a result whose value is text.
pub open spec fn outcome_view<E>(outcome: Result<String, VisionError<E>>) -> Result<
    Seq<char>,
    VisionErrorView<E>,
> {
    match outcome {
        Ok(text) => Ok(text@),
        Err(error) => Err(error.deep_view()),
    }
}

/// The view of a result that is text either way.
pub open spec fn text_view(r: Result<String, String>) -> Result<Seq<char>, Seq<char>> {
    match r {
        Ok(text) => Ok(text@),
        Err(message) => Err(message@),
    }
}

} // verus!
