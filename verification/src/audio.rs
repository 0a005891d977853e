//! Sample buffers on their way from the microphone and to the speaker.
//!
//! Everything here is generic in the sample type: samples are moved, copied
//! and counted, never computed with. Where two samples have to be averaged,
//! the caller supplies the function that averages.

use crate::error::DuckError;
use vstd::prelude::*;
use vstd::slice::slice_to_vec;

verus! {

/// The sample rate, in hertz, that speech recognition expects.
pub const TARGET_SAMPLE_RATE: u32 = 16000;

/// How long, in milliseconds, to sleep between two looks at the finished
/// flag of a playback.
pub const POLL_INTERVAL_MS: u64 = 10;

/// How long, in milliseconds, to let the hardware drain its buffers after a
/// playback has finished. A guess, not a guarantee: the right value depends
/// on the device and its driver.
pub const GRACE_PERIOD_MS: u64 = 100;

/// Each sample of `mono` twice in a row: one copy for the left channel, one
/// for the right.
pub open spec fn duplicated<T>(mono: Seq<T>) -> Seq<T> {
    Seq::new(2 * mono.len(), |i: int| mono[i / 2])
}

/// Whether `mono` is a mix of the interleaved stereo samples `stereo` under
/// `mix`: sample `i` is what `mix` made of the `i`-th pair.
pub open spec fn is_mix_of<T, F: Fn(T, T) -> T>(mono: Seq<T>, stereo: Seq<T>, mix: F) -> bool {
    &&& 2 * mono.len() == stereo.len()
    &&& forall|i: int|
        0 <= i < mono.len() ==> call_ensures(
            mix,
            (#[trigger] stereo[2 * i], stereo[2 * i + 1]),
            mono[i],
        )
}

/// Expands mono samples to interleaved stereo.
pub fn mono_to_stereo<T: Copy>(mono: &[T]) -> (stereo: Vec<T>)
    ensures
        stereo@ == duplicated(mono@),
{
    let n: usize = mono.len();
    let mut stereo: Vec<T> = Vec::new();
    let mut i: usize = 0;
    while i < n
        invariant
            n == mono@.len(),
            i <= n,
            stereo@.len() == 2 * i,
            forall|k: int| 0 <= k < 2 * i ==> stereo@[k] == mono@[k / 2],
        decreases n - i,
    {
        let sample = mono[i];
        stereo.push(sample);
        stereo.push(sample);
        i += 1;
    }
    assert(stereo@ =~= duplicated(mono@));
    stereo
}

/// Reduces interleaved stereo samples to mono: each pair of samples becomes
/// what `mix` makes of it. The samples must come in pairs.
pub fn stereo_to_mono<T: Copy, F: Fn(T, T) -> T>(stereo: &[T], mix: F) -> (mono: Vec<T>)
    requires
        stereo@.len() % 2 == 0,
        forall|i: int|
            0 <= i < stereo@.len() / 2 ==> call_requires(
                mix,
                (#[trigger] stereo@[2 * i], stereo@[2 * i + 1]),
            ),
    ensures
        is_mix_of(mono@, stereo@, mix),
{
    let pairs: usize = stereo.len() / 2;
    let mut mono: Vec<T> = Vec::with_capacity(pairs);
    let mut i: usize = 0;
    while i < pairs
        invariant
            stereo@.len() == 2 * pairs,
            i <= pairs,
            mono@.len() == i,
            forall|k: int|
                0 <= k < pairs ==> call_requires(
                    mix,
                    (#[trigger] stereo@[2 * k], stereo@[2 * k + 1]),
                ),
            forall|k: int|
                0 <= k < i ==> call_ensures(
                    mix,
                    (#[trigger] stereo@[2 * k], stereo@[2 * k + 1]),
                    mono@[k],
                ),
        decreases pairs - i,
    {
        let left = stereo[2 * i];
        let right = stereo[2 * i + 1];
        assert(call_requires(mix, (stereo@[2 * (i as int)], stereo@[2 * (i as int) + 1])));
        let mixed = mix(left, right);
        mono.push(mixed);
        i += 1;
    }
    mono
}

/// Brings a recording with `channels` interleaved channels down to mono.
/// One channel is kept as it is, two are mixed pair by pair; any other
/// count is refused.
pub fn to_mono<T: Copy, F: Fn(T, T) -> T>(samples: Vec<T>, channels: u16, mix: F) -> (r: Result<
    Vec<T>,
    DuckError,
>)
    requires
        channels == 2 ==> samples@.len() % 2 == 0,
        channels == 2 ==> forall|i: int|
            0 <= i < samples@.len() / 2 ==> call_requires(
                mix,
                (#[trigger] samples@[2 * i], samples@[2 * i + 1]),
            ),
    ensures
        channels == 1 ==> r is Ok && r->Ok_0@ == samples@,
        channels == 2 ==> r is Ok && is_mix_of(r->Ok_0@, samples@, mix),
        channels != 1 && channels != 2 ==> r is Err && r->Err_0
            == DuckError::UnsupportedChannelLayout,
{
    if channels == 1 {
        Ok(samples)
    } else if channels == 2 {
        Ok(stereo_to_mono(samples.as_slice(), mix))
    } else {
        Err(DuckError::UnsupportedChannelLayout)
    }
}

/// Lays mono samples out for a device with `channels` channels: as they are
/// for one channel, each sample twice for two; any other count is refused.
pub fn to_device_layout<T: Copy>(mono: &[T], channels: u16) -> (r: Result<Vec<T>, DuckError>)
    ensures
        channels == 1 ==> r is Ok && r->Ok_0@ == mono@,
        channels == 2 ==> r is Ok && r->Ok_0@ == duplicated(mono@),
        channels != 1 && channels != 2 ==> r is Err && r->Err_0
            == DuckError::UnsupportedChannelLayout,
{
    if channels == 1 {
        Ok(slice_to_vec(mono))
    } else if channels == 2 {
        Ok(mono_to_stereo(mono))
    } else {
        Err(DuckError::UnsupportedChannelLayout)
    }
}

/// Expanding to stereo gives two identical channels, each equal to the mono
/// buffer.
pub proof fn lemma_duplicated_channels<T>(mono: Seq<T>)
    ensures
        duplicated(mono).len() == 2 * mono.len(),
        forall|i: int|
            0 <= i < mono.len() ==> #[trigger] duplicated(mono)[2 * i] == mono[i] && duplicated(
                mono,
            )[2 * i + 1] == mono[i],
{
    assert forall|i: int| 0 <= i < mono.len() implies #[trigger] duplicated(mono)[2 * i] == mono[i]
        && duplicated(mono)[2 * i + 1] == mono[i] by {
        assert((2 * i) / 2 == i);
        assert((2 * i + 1) / 2 == i);
    }
}

/// A stereo buffer whose two channels are identical comes out of a mix that
/// returns a sample mixed with itself unchanged as one of its channels, and
/// expanding that mono buffer gives the stereo buffer back.
pub proof fn lemma_mix_round_trip<T, F: Fn(T, T) -> T>(stereo: Seq<T>, mono: Seq<T>, mix: F)
    requires
        is_mix_of(mono, stereo, mix),
        forall|i: int| 0 <= i < mono.len() ==> #[trigger] stereo[2 * i] == stereo[2 * i + 1],
        forall|a: T, b: T| #[trigger] call_ensures(mix, (a, a), b) ==> b == a,
    ensures
        forall|i: int| 0 <= i < mono.len() ==> mono[i] == #[trigger] stereo[2 * i],
        duplicated(mono) == stereo,
{
    assert forall|i: int| 0 <= i < mono.len() implies mono[i] == #[trigger] stereo[2 * i] by {
        assert(stereo[2 * i] == stereo[2 * i + 1]);
        assert(call_ensures(mix, (stereo[2 * i], stereo[2 * i + 1]), mono[i]));
    }
    assert forall|k: int| 0 <= k < stereo.len() implies duplicated(mono)[k] == stereo[k] by {
        let i = k / 2;
        assert(mono[i] == stereo[2 * i]);
        assert(stereo[2 * i] == stereo[2 * i + 1]);
    }
    assert(duplicated(mono) =~= stereo);
}

/// The two samples between which a resampler interpolates for a source
/// position whose whole part is `floor`, in a buffer of `len` samples: the
/// sample at `floor` and the one after it, which at the end of the buffer is
/// the last sample once more. A position at or beyond the end has none, and
/// gives no output.
pub fn neighbors(len: usize, floor: usize) -> (pair: Option<(usize, usize)>)
    ensures
        pair is Some <==> floor < len,
        match pair {
            Some((low, high)) => low == floor && high == if floor + 1 < len {
                floor + 1
            } else {
                len - 1
            },
            None => true,
        },
{
    if floor >= len {
        None
    } else if floor + 1 < len {
        Some((floor, floor + 1))
    } else {
        Some((floor, len - 1))
    }
}

/// Takes one chunk from the input device: while recording, the chunk joins
/// the end of the buffer; afterwards it is dropped. Nothing that the buffer
/// already holds is touched.
pub fn capture_chunk<T: Copy>(buffer: &mut Vec<T>, recording: bool, chunk: &[T])
    ensures
        recording ==> final(buffer)@ == old(buffer)@ + chunk@,
        !recording ==> final(buffer)@ == old(buffer)@,
{
    if recording {
        let n: usize = chunk.len();
        let mut i: usize = 0;
        while i < n
            invariant
                n == chunk@.len(),
                i <= n,
                buffer@ == old(buffer)@ + chunk@.take(i as int),
            decreases n - i,
        {
            buffer.push(chunk[i]);
            assert(buffer@ =~= old(buffer)@ + chunk@.take(i + 1));
            i += 1;
        }
        assert(chunk@.take(n as int) =~= chunk@);
    } else {
        assert(buffer@ =~= old(buffer)@);
    }
}

/// A playback as contracts see it: the samples to play and how many of them
/// the device has taken.
pub struct PlaybackView<T> {
    pub samples: Seq<T>,
    pub consumed: nat,
}

/// What one call of the output device's callback writes into a chunk of
/// `len` samples: the next samples in order, then silence.
pub open spec fn filled<T>(p: PlaybackView<T>, len: nat, silence: T) -> Seq<T> {
    Seq::new(
        len,
        |k: int|
            if p.consumed + k < p.samples.len() {
                p.samples[p.consumed + k]
            } else {
                silence
            },
    )
}

/// The number of samples consumed after a chunk of `len` samples was filled.
pub open spec fn advanced<T>(p: PlaybackView<T>, len: nat) -> nat {
    if p.consumed + len <= p.samples.len() {
        p.consumed + len
    } else {
        p.samples.len()
    }
}

/// Whether a chunk of `len` samples asks for more samples than are left, so
/// that silence is written and the playback is reported as finished.
pub open spec fn runs_dry<T>(p: PlaybackView<T>, len: nat) -> bool {
    p.consumed + len > p.samples.len()
}

/// The playback after a chunk of `len` samples was filled.
pub open spec fn after_fill<T>(p: PlaybackView<T>, len: nat) -> PlaybackView<T> {
    PlaybackView { samples: p.samples, consumed: advanced(p, len) }
}

/// How the device cuts its requests into chunks makes no difference: two
/// chunks in a row receive what one chunk of their joint length would have
/// received, and leave the playback where that one would have left it. So
/// every sample is handed out once, in order, and silence only follows the
/// last of them.
pub proof fn lemma_fill_in_two_chunks<T>(p: PlaybackView<T>, first: nat, second: nat, silence: T)
    requires
        p.consumed <= p.samples.len(),
    ensures
        filled(p, first, silence) + filled(after_fill(p, first), second, silence) == filled(
            p,
            first + second,
            silence,
        ),
        after_fill(after_fill(p, first), second) == after_fill(p, first + second),
{
    assert(filled(p, first, silence) + filled(after_fill(p, first), second, silence) =~= filled(
        p,
        first + second,
        silence,
    ));
}

/// A playback is reported as finished by the first chunk that asks for more
/// than is left, and by none before: a chunk that does not run dry holds
/// samples only, and one that does leaves every sample consumed.
pub proof fn lemma_finished_after_last_sample<T>(p: PlaybackView<T>, len: nat, silence: T)
    requires
        p.consumed <= p.samples.len(),
    ensures
        !runs_dry(p, len) ==> filled(p, len, silence) == p.samples.subrange(
            p.consumed as int,
            (p.consumed + len) as int,
        ),
        runs_dry(p, len) ==> after_fill(p, len).consumed == p.samples.len(),
        runs_dry(p, len) ==> filled(p, len, silence).last() == silence,
{
    if !runs_dry(p, len) {
        assert(filled(p, len, silence) =~= p.samples.subrange(
            p.consumed as int,
            (p.consumed + len) as int,
        ));
    }
}

/// The samples of a playback and the read cursor into them.
pub struct PlaybackCursor<T> {
    samples: Vec<T>,
    consumed: usize,
}

impl<T> View for PlaybackCursor<T> {
    type V = PlaybackView<T>;

    closed spec fn view(&self) -> PlaybackView<T> {
        PlaybackView { samples: self.samples@, consumed: self.consumed as nat }
    }
}

impl<T> PlaybackCursor<T> {
    #[verifier::type_invariant]
    spec fn inv(&self) -> bool {
        self.consumed <= self.samples@.len()
    }
}

impl<T: Copy> PlaybackCursor<T> {
    /// A playback of `samples` of which nothing has been played yet.
    pub fn new(samples: Vec<T>) -> (cursor: Self)
        ensures
            cursor@ == (PlaybackView { samples: samples@, consumed: 0 }),
    {
        PlaybackCursor { samples, consumed: 0 }
    }

    /// How many samples the device has taken.
    pub fn consumed(&self) -> (n: usize)
        ensures
            n == self@.consumed,
            n <= self@.samples.len(),
    {
        proof {
            use_type_invariant(self);
        }
        self.consumed
    }

    /// How many samples are left to play.
    pub fn remaining(&self) -> (n: usize)
        ensures
            n == self@.samples.len() - self@.consumed,
    {
        proof {
            use_type_invariant(self);
        }
        self.samples.len() - self.consumed
    }

    /// Serves one call of the output device's callback: fills `output` with
    /// the next samples, each exactly once and in order, and with `silence`
    /// where the samples have run out. Returns whether silence was written,
    /// which is when the playback is to be flagged as finished: never before
    /// every sample has been consumed.
    pub fn fill(&mut self, output: &mut [T], silence: T) -> (finished: bool)
        ensures
            final(output)@ == filled(old(self)@, old(output)@.len(), silence),
            final(self)@ == after_fill(old(self)@, old(output)@.len()),
            finished == runs_dry(old(self)@, old(output)@.len()),
            finished ==> final(self)@.consumed == final(self)@.samples.len(),
    {
        proof {
            use_type_invariant(&*self);
        }
        let n: usize = output.len();
        let total: usize = self.samples.len();
        let start: usize = self.consumed;
        let mut finished = false;
        let mut k: usize = 0;
        while k < n
            invariant
                n == output@.len(),
                n == old(output)@.len(),
                total == self.samples@.len(),
                self.samples@ == old(self).samples@,
                start == old(self).consumed,
                start <= total,
                k <= n,
                self.consumed == if start + k <= total {
                    start + k
                } else {
                    total as int
                },
                finished <==> start + k > total,
                forall|j: int|
                    0 <= j < k ==> output@[j] == if start + j < total {
                        self.samples@[start + j]
                    } else {
                        silence
                    },
            decreases n - k,
        {
            if self.consumed < total {
                output[k] = self.samples[self.consumed];
                self.consumed = self.consumed + 1;
            } else {
                output[k] = silence;
                finished = true;
            }
            k += 1;
        }
        assert(output@ =~= filled(old(self)@, old(output)@.len(), silence));
        finished
    }
}

/// What a caller that waits for a playback does next.
#[derive(Debug, Clone, Copy, PartialEq, Eq, Structural)]
pub enum WaitStep {
    /// The playback has not finished: sleep this many milliseconds, then
    /// look at the finished flag again.
    Poll { millis: u64 },
    /// The playback has finished: sleep this many milliseconds to let the
    /// hardware drain, then return.
    Drain { millis: u64 },
}

/// Decides the next step of waiting for a playback from its finished flag.
pub fn wait_step(finished: bool) -> (step: WaitStep)
    ensures
        finished ==> step == (WaitStep::Drain { millis: GRACE_PERIOD_MS }),
        !finished ==> step == (WaitStep::Poll { millis: POLL_INTERVAL_MS }),
{
    if finished {
        WaitStep::Drain { millis: GRACE_PERIOD_MS }
    } else {
        WaitStep::Poll { millis: POLL_INTERVAL_MS }
    }
}

} // verus!
