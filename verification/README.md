# vision_bridge

Lets a text-only model work with images: a second, vision-capable model
describes them, and the description is attached next to the images.

- `src/` holds the decisions, verified with Verus: which images there are, what
  is sent to the vision model and in which order, what its answer means, and
  where the description goes. `src/laws.rs` and `src/run.rs` state what holds of
  the whole: no image is lost, a failure is never silent, one request carries
  every image.
- `app/` does the input and output that the decisions ask for: it reads files,
  loads images and talks to the provider.
- `tests/` runs the library on concrete values.
