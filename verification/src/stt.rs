//! What surrounds a call of the speech recognition engine: the check that is
//! made before it, the settings it is given, and the text made of what it
//! returns.

use crate::error::DuckError;
use vstd::prelude::*;

verus! {

/// The settings of one transcription.
#[derive(Debug, Clone, Copy, PartialEq, Eq, Structural)]
pub struct TranscriptionSettings {
    /// The number of candidates that greedy decoding keeps.
    pub best_of: i32,
    /// The number of threads that the engine may use.
    pub n_threads: i32,
    pub print_special: bool,
    pub print_progress: bool,
    pub print_realtime: bool,
    pub print_timestamps: bool,
}

/// The settings that every transcription runs with: greedy decoding of a
/// single candidate on one thread, and nothing printed by the engine.
pub open spec fn quiet_greedy() -> TranscriptionSettings {
    TranscriptionSettings {
        best_of: 1,
        n_threads: 1,
        print_special: false,
        print_progress: false,
        print_realtime: false,
        print_timestamps: false,
    }
}

/// Decides whether a recording goes to the engine, and with which settings.
/// A recording without samples is refused here, so that the engine is never
/// called on it.
pub fn prepare<T>(audio: &[T]) -> (r: Result<TranscriptionSettings, DuckError>)
    ensures
        audio@.len() == 0 ==> r is Err && r->Err_0 == DuckError::EmptyAudioInput,
        audio@.len() > 0 ==> r is Ok && r->Ok_0 == quiet_greedy(),
{
    if audio.len() == 0 {
        Err(DuckError::EmptyAudioInput)
    } else {
        Ok(
            TranscriptionSettings {
                best_of: 1,
                n_threads: 1,
                print_special: false,
                print_progress: false,
                print_realtime: false,
                print_timestamps: false,
            },
        )
    }
}

/// The texts of `segments`, one after the other, with nothing in between.
pub open spec fn joined(segments: Seq<Seq<char>>) -> Seq<char>
    decreases segments.len(),
{
    if segments.len() == 0 {
        Seq::empty()
    } else {
        joined(segments.drop_last()) + segments.last()
    }
}

/// The characters of each segment.
pub open spec fn texts(segments: Seq<String>) -> Seq<Seq<char>> {
    segments.map_values(|s: String| s@)
}

/// Makes the transcript of the segments that the engine returned, in the
/// order in which it returned them.
pub fn join_segments(segments: &[String]) -> (text: String)
    ensures
        text@ == joined(texts(segments@)),
{
    let mut text = String::new();
    let mut i: usize = 0;
    while i < segments.len()
        invariant
            i <= segments@.len(),
            text@ == joined(texts(segments@).take(i as int)),
        decreases segments@.len() - i,
    {
        text.append(segments[i].as_str());
        proof {
            let next = texts(segments@).take(i + 1);
            assert(next.drop_last() =~= texts(segments@).take(i as int));
            assert(next.last() == segments@[i as int]@);
        }
        i += 1;
    }
    assert(texts(segments@).take(i as int) =~= texts(segments@));
    text
}

} // verus!
