//! The failures of the pipeline.

use vstd::prelude::*;

verus! {

/// Everything that can go wrong between the microphone and the reply.
#[derive(Debug, Clone, Copy, PartialEq, Eq, Structural)]
pub enum DuckError {
    /// No audio device of the requested direction is present.
    DeviceUnavailable,
    /// The device refused to open a stream.
    StreamInitFailed,
    /// A recording without a single sample was handed to transcription.
    EmptyAudioInput,
    /// A channel count other than one or two.
    UnsupportedChannelLayout,
    /// The model could not turn the prompt into tokens.
    TokenizeFailed,
    /// The model rejected a batch.
    DecodeFailed,
    /// The bytes of a reply are not well-formed UTF-8.
    InvalidOutputEncoding,
    /// The model file could not be loaded.
    ModelLoadFailed,
}

impl DuckError {
    /// Whether the process has to give up: true of the failures that can only
    /// happen while the pipeline is being set up.
    pub open spec fn fatal(self) -> bool {
        self == DuckError::ModelLoadFailed || self == DuckError::DeviceUnavailable
    }

    /// Computes [`DuckError::fatal`].
    pub fn is_fatal(&self) -> (fatal: bool)
        ensures
            fatal == self.fatal(),
    {
        match self {
            DuckError::ModelLoadFailed | DuckError::DeviceUnavailable => true,
            _ => false,
        }
    }

    /// The text shown to the user for this failure.
    pub open spec fn spec_message(self) -> Seq<char> {
        match self {
            DuckError::DeviceUnavailable => "no audio device available"@,
            DuckError::StreamInitFailed => "failed to open the audio stream"@,
            DuckError::EmptyAudioInput => "Audio data is empty"@,
            DuckError::UnsupportedChannelLayout => "unsupported channel layout"@,
            DuckError::TokenizeFailed => "failed to tokenize"@,
            DuckError::DecodeFailed => "llama_decode() failed"@,
            DuckError::InvalidOutputEncoding => "failed to convert token to string"@,
            DuckError::ModelLoadFailed => "unable to load model"@,
        }
    }

    /// Returns [`DuckError::spec_message`].
    pub fn message(&self) -> (text: &'static str)
        ensures
            text@ == self.spec_message(),
    {
        match self {
            DuckError::DeviceUnavailable => "no audio device available",
            DuckError::StreamInitFailed => "failed to open the audio stream",
            DuckError::EmptyAudioInput => "Audio data is empty",
            DuckError::UnsupportedChannelLayout => "unsupported channel layout",
            DuckError::TokenizeFailed => "failed to tokenize",
            DuckError::DecodeFailed => "llama_decode() failed",
            DuckError::InvalidOutputEncoding => "failed to convert token to string",
            DuckError::ModelLoadFailed => "unable to load model",
        }
    }
}

} // verus!
