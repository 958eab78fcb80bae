//! A vision bridge: it lets a text-only model work with images by having a
//! second, vision-capable model describe them.
//!
//! The library decides what is sent to the vision model, what its answer means
//! and where the description goes. The input and output around those decisions
//! (reading files, loading images, talking to the provider) belong to the
//! caller.
//!
//! - [`text`]: the fixed wording, and tests on strings
//! - [`items`]: the items of a conversation
//! - [`images`]: which images there are to describe
//! - [`attach`]: where a description goes
//! - [`image_url`], [`request`]: what is sent
//! - [`describe`]: the steps from a batch of images to its description
//! - [`bridge`]: the configured bridge, and what an outcome changes
//! - [`run`], [`laws`]: what holds of whole runs and of the bridge
//! - [`effects`], [`answers`]: what the operations do, said of items and fields

pub mod answers;
pub mod attach;
pub mod bridge;
pub mod describe;
pub mod effects;
pub mod error;
pub mod image_url;
pub mod images;
pub mod items;
pub mod laws;
pub mod request;
pub mod run;
pub mod text;
