//! The verified core of a spoken-conversation loop: sample-buffer handling for
//! capture and playback, the conversation and its prompt, and the state machine
//! that drives a language model token by token.
//!
//! Nothing here touches a device, a model or a clock. A driver performs that
//! work and feeds the outcomes back in; every decision is taken here.

pub mod audio;
pub mod error;
pub mod generation;
pub mod llm;
pub mod stt;
