//! Orchestration of an inference session: token batches, the ownership of a
//! session's native state and model, and the decode/sample/accept protocol that
//! drives text generation.
pub mod batch;
pub mod generation;
pub mod session;

pub use batch::SessionBatch;
pub use generation::{Action, Event, Generation, Phase};
pub use session::Session;
