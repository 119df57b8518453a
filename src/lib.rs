//! A four-lane strip-chart model for a serial sample stream: decoding of
//! two-byte frames, the mapping from samples to pixels, and the state
//! machines that decide what the acquisition and render loops do next.
pub mod codec;
pub mod mapping;
pub mod producer;
pub mod view;
