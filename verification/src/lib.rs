//! Client-side logic for a hosted large-language-model service: request
//! construction, response interpretation, and the submit-then-poll protocol of
//! its asynchronous embedding backend.
//!
//! Nothing here performs I/O. Each operation is split into a function that
//! says what to send and a function that says what an answer means, so that a
//! thin caller can carry the bytes.

pub mod error;
pub mod http;
pub mod transport;
pub mod poller;
pub mod poller_laws;
pub mod embeddings;
pub mod number;
pub mod steerlm;
pub mod models;
pub mod completion;
pub mod summary;
pub mod text;
pub mod wire;
