//! The token stream generator: a state machine that tells its driver what to
//! ask of the language model next and takes the model's answers.
//!
//! The machine never calls the model. Each transition consumes the session and
//! an answer and returns the next session together with the next [`Action`].
//! An answer that the session did not ask for changes nothing: the same action
//! comes back.

use crate::error::DuckError;
use crate::llm::{Message, MessageRole, MessageView};
use vstd::prelude::*;
use vstd::slice::slice_to_vec;
use vstd::utf8::{decode_utf8, valid_utf8};

verus! {

/// The number of tokens that one batch can hold.
pub const BATCH_CAPACITY: usize = 2048;

/// The longest reply, in tokens, of a chat turn.
pub const MAX_RESPONSE_LENGTH: i32 = 256;

/// One token of a batch: where it stands in the sequence, which sequence it
/// belongs to, and whether the model is to produce logits for it.
#[derive(Debug, Clone, Copy, PartialEq, Eq, Structural)]
pub struct BatchEntry {
    pub token: i32,
    pub position: i32,
    pub sequence: i32,
    pub logits: bool,
}

/// The batch that submits a whole prompt at once: token `i` at position `i`,
/// all in sequence 0, logits for the last token only.
pub open spec fn prefill_batch(tokens: Seq<i32>) -> Seq<BatchEntry> {
    Seq::new(
        tokens.len(),
        |i: int|
            BatchEntry {
                token: tokens[i],
                position: i as i32,
                sequence: 0,
                logits: i == tokens.len() - 1,
            },
    )
}

/// The batch that submits one generated token at `position`, with logits.
pub open spec fn step_batch(token: i32, position: int) -> Seq<BatchEntry> {
    seq![BatchEntry { token, position: position as i32, sequence: 0, logits: true }]
}

fn prefill_entries(tokens: &[i32]) -> (batch: Vec<BatchEntry>)
    requires
        tokens@.len() <= BATCH_CAPACITY,
    ensures
        batch@ == prefill_batch(tokens@),
{
    let n: usize = tokens.len();
    let mut batch: Vec<BatchEntry> = Vec::with_capacity(n);
    let mut i: usize = 0;
    while i < n
        invariant
            n == tokens@.len(),
            n <= BATCH_CAPACITY,
            i <= n,
            batch@ == prefill_batch(tokens@).take(i as int),
        decreases n - i,
    {
        let entry = BatchEntry {
            token: tokens[i],
            position: i as i32,
            sequence: 0,
            logits: i + 1 == n,
        };
        batch.push(entry);
        assert(batch@ =~= prefill_batch(tokens@).take(i + 1));
        i += 1;
    }
    assert(batch@ =~= prefill_batch(tokens@));
    batch
}

/// Lays out the prompt's tokens as one batch. A prompt longer than
/// [`BATCH_CAPACITY`] does not fit and is refused.
pub fn build_batch(tokens: &[i32]) -> (r: Result<Vec<BatchEntry>, DuckError>)
    ensures
        tokens@.len() <= BATCH_CAPACITY ==> r is Ok && r->Ok_0@ == prefill_batch(tokens@),
        tokens@.len() > BATCH_CAPACITY ==> r is Err && r->Err_0 == DuckError::DecodeFailed,
{
    if tokens.len() > BATCH_CAPACITY {
        Err(DuckError::DecodeFailed)
    } else {
        Ok(prefill_entries(tokens))
    }
}

/// Where a session stands.
#[derive(Debug, Clone, Copy, PartialEq, Eq, Structural)]
pub enum Phase {
    /// The prompt's text is with the model, to be turned into tokens.
    Tokenizing,
    /// The prompt's tokens are with the model, as one batch.
    Prefilling,
    /// The model is to pick the next token.
    Sampling,
    /// The model is to give the bytes of the token just picked.
    Detokenizing,
    /// The token just picked is with the model, as a batch of one.
    Decoding,
    /// The reply is complete, or the turn has failed.
    Done,
}

/// A session as contracts see it.
pub struct SessionView {
    pub phase: Phase,
    /// The rendered prompt.
    pub prompt_text: Seq<char>,
    /// The prompt's tokens, once the model has given them.
    pub prompt: Seq<i32>,
    /// The model's end-of-sequence token.
    pub eos: i32,
    /// The largest number of tokens that the reply may have.
    pub limit: int,
    /// The tokens accepted into the reply so far.
    pub generated: Seq<i32>,
    /// The bytes of the token accepted last.
    pub piece: Seq<u8>,
    /// The bytes of the reply so far.
    pub output: Seq<u8>,
    /// Why the turn failed, if it did.
    pub failure: Option<DuckError>,
}

/// What the driver is asked to do, as contracts see it.
pub enum ActionView {
    Tokenize { text: Seq<char> },
    Decode { batch: Seq<BatchEntry> },
    Sample { logits_index: i32 },
    Detokenize { token: i32 },
    EmitAndDecode { bytes: Seq<u8>, batch: Seq<BatchEntry> },
    Finish { outcome: Result<MessageView, DuckError> },
}

/// What the driver is asked to do.
#[derive(Debug)]
pub enum Action {
    /// Turn `text` into tokens, with a beginning-of-sequence token in front,
    /// and answer with [`GenerationSession::on_tokenized`].
    Tokenize { text: String },
    /// Decode `batch` in a fresh context and answer with
    /// [`GenerationSession::on_decoded`].
    Decode { batch: Vec<BatchEntry> },
    /// Pick the most probable token from the logits at `logits_index` of the
    /// batch decoded last and answer with [`GenerationSession::on_sampled`].
    Sample { logits_index: i32 },
    /// Give the bytes of `token` and answer with
    /// [`GenerationSession::on_piece`].
    Detokenize { token: i32 },
    /// Write `bytes` to the output and flush it, then decode `batch` and
    /// answer with [`GenerationSession::on_decoded`].
    EmitAndDecode { bytes: Vec<u8>, batch: Vec<BatchEntry> },
    /// Nothing more: the turn has ended with `outcome`.
    Finish { outcome: Result<Message, DuckError> },
}

impl View for Action {
    type V = ActionView;

    open spec fn view(&self) -> ActionView {
        match self {
            Action::Tokenize { text } => ActionView::Tokenize { text: text@ },
            Action::Decode { batch } => ActionView::Decode { batch: batch@ },
            Action::Sample { logits_index } => ActionView::Sample { logits_index: *logits_index },
            Action::Detokenize { token } => ActionView::Detokenize { token: *token },
            Action::EmitAndDecode { bytes, batch } => ActionView::EmitAndDecode {
                bytes: bytes@,
                batch: batch@,
            },
            Action::Finish { outcome } => ActionView::Finish {
                outcome: match outcome {
                    Ok(m) => Ok(m@),
                    Err(e) => Err(*e),
                },
            },
        }
    }
}

/// The largest number of tokens that a session with this limit will accept.
pub open spec fn capacity(limit: int) -> int {
    if limit < 0 {
        0
    } else {
        limit
    }
}

/// What holds of every session: the prompt fits one batch, every position
/// fits the model's position type, the reply never exceeds its limit, and
/// the phase agrees with the number of tokens accepted.
pub open spec fn well_formed(s: SessionView) -> bool {
    &&& s.prompt.len() <= BATCH_CAPACITY
    &&& s.limit <= i32::MAX - BATCH_CAPACITY
    &&& s.generated.len() <= capacity(s.limit)
    &&& (s.phase == Phase::Tokenizing || s.phase == Phase::Prefilling) ==> s.generated.len() == 0
        && s.output.len() == 0
    &&& s.phase == Phase::Sampling ==> s.generated.len() < s.limit
    &&& (s.phase == Phase::Detokenizing || s.phase == Phase::Decoding) ==> s.generated.len() > 0
    &&& s.failure is Some ==> s.phase == Phase::Done
}

/// The session that a turn starts with.
pub open spec fn started(prompt_text: Seq<char>, eos: i32, limit: int) -> SessionView {
    SessionView {
        phase: Phase::Tokenizing,
        prompt_text,
        prompt: Seq::empty(),
        eos,
        limit,
        generated: Seq::empty(),
        piece: Seq::empty(),
        output: Seq::empty(),
        failure: None,
    }
}

/// The session once it has failed with `error`.
pub open spec fn failed(s: SessionView, error: DuckError) -> SessionView {
    SessionView { phase: Phase::Done, failure: Some(error), ..s }
}

/// How a turn ends: with the failure, if there was one; else with the reply's
/// bytes read as UTF-8, if they are well formed.
pub open spec fn outcome(s: SessionView) -> Result<MessageView, DuckError> {
    match s.failure {
        Some(error) => Err(error),
        None => if valid_utf8(s.output) {
            Ok(MessageView { role: MessageRole::Assistant, content: decode_utf8(s.output) })
        } else {
            Err(DuckError::InvalidOutputEncoding)
        },
    }
}

/// The index, in the batch decoded last, of the logits to sample from: the
/// prompt's last token before anything was generated, the only token of the
/// batch afterwards.
pub open spec fn logits_index(s: SessionView) -> i32 {
    if s.generated.len() == 0 {
        (s.prompt.len() - 1) as i32
    } else {
        0
    }
}

/// What a session asks of the driver.
pub open spec fn awaited(s: SessionView) -> ActionView {
    match s.phase {
        Phase::Tokenizing => ActionView::Tokenize { text: s.prompt_text },
        Phase::Prefilling => ActionView::Decode { batch: prefill_batch(s.prompt) },
        Phase::Sampling => ActionView::Sample { logits_index: logits_index(s) },
        Phase::Detokenizing => ActionView::Detokenize { token: s.generated.last() },
        Phase::Decoding => ActionView::EmitAndDecode {
            bytes: s.piece,
            batch: step_batch(s.generated.last(), s.prompt.len() + s.generated.len() - 1),
        },
        Phase::Done => ActionView::Finish { outcome: outcome(s) },
    }
}

/// The session after the model has answered a request for tokens: `None`
/// when it could not tokenize. Tokens that do not fit one batch fail the
/// prefill.
pub open spec fn after_tokenized(s: SessionView, tokens: Option<Seq<i32>>) -> SessionView {
    if s.phase != Phase::Tokenizing {
        s
    } else {
        match tokens {
            None => failed(s, DuckError::TokenizeFailed),
            Some(t) => if t.len() > BATCH_CAPACITY {
                failed(s, DuckError::DecodeFailed)
            } else {
                SessionView { phase: Phase::Prefilling, prompt: t, ..s }
            },
        }
    }
}

/// The session after the model has decoded a batch, or failed to: it goes on
/// sampling while the reply is under its limit.
pub open spec fn after_decoded(s: SessionView, decoded: bool) -> SessionView {
    if s.phase != Phase::Prefilling && s.phase != Phase::Decoding {
        s
    } else if !decoded {
        failed(s, DuckError::DecodeFailed)
    } else if s.generated.len() < s.limit {
        SessionView { phase: Phase::Sampling, ..s }
    } else {
        SessionView { phase: Phase::Done, ..s }
    }
}

/// The session after the model has picked `token`: the end-of-sequence token
/// ends the reply and is not part of it; any other token is accepted.
pub open spec fn after_sampled(s: SessionView, token: i32) -> SessionView {
    if s.phase != Phase::Sampling {
        s
    } else if token == s.eos {
        SessionView { phase: Phase::Done, ..s }
    } else {
        SessionView { phase: Phase::Detokenizing, generated: s.generated.push(token), ..s }
    }
}

/// The session after the model has given the bytes of the token accepted
/// last, or failed to: the bytes join the reply.
pub open spec fn after_piece(s: SessionView, bytes: Option<Seq<u8>>) -> SessionView {
    if s.phase != Phase::Detokenizing {
        s
    } else {
        match bytes {
            None => failed(s, DuckError::InvalidOutputEncoding),
            Some(b) => SessionView { phase: Phase::Decoding, piece: b, output: s.output + b, ..s },
        }
    }
}

/// An answer of the model to a request of a session.
pub enum Answer {
    Tokenized { tokens: Option<Seq<i32>> },
    Decoded { decoded: bool },
    Sampled { token: i32 },
    Piece { bytes: Option<Seq<u8>> },
}

/// Whether `answer` is of the kind that the session has asked for.
pub open spec fn awaits(s: SessionView, answer: Answer) -> bool {
    match answer {
        Answer::Tokenized { .. } => s.phase == Phase::Tokenizing,
        Answer::Decoded { .. } => s.phase == Phase::Prefilling || s.phase == Phase::Decoding,
        Answer::Sampled { .. } => s.phase == Phase::Sampling,
        Answer::Piece { .. } => s.phase == Phase::Detokenizing,
    }
}

/// The session after `answer`.
pub open spec fn after(s: SessionView, answer: Answer) -> SessionView {
    match answer {
        Answer::Tokenized { tokens } => after_tokenized(s, tokens),
        Answer::Decoded { decoded } => after_decoded(s, decoded),
        Answer::Sampled { token } => after_sampled(s, token),
        Answer::Piece { bytes } => after_piece(s, bytes),
    }
}

/// The session after all of `answers`, taken in order.
pub open spec fn replay(s: SessionView, answers: Seq<Answer>) -> SessionView
    decreases answers.len(),
{
    if answers.len() == 0 {
        s
    } else {
        replay(after(s, answers.first()), answers.drop_first())
    }
}

/// Whether each of `answers`, taken in order, is of the kind that the
/// session has asked for when it arrives.
pub open spec fn all_awaited(s: SessionView, answers: Seq<Answer>) -> bool
    decreases answers.len(),
{
    answers.len() == 0 || (awaits(s, answers.first()) && all_awaited(
        after(s, answers.first()),
        answers.drop_first(),
    ))
}

/// An upper bound on the number of requests that a session can still make
/// before it is done: three for each token that the reply may still take,
/// and what the current phase adds.
pub open spec fn budget(s: SessionView) -> nat {
    let open = (capacity(s.limit) - s.generated.len()) as nat;
    match s.phase {
        Phase::Tokenizing => 3 * open + 2,
        Phase::Prefilling => 3 * open + 1,
        Phase::Sampling => 3 * open,
        Phase::Detokenizing => 3 * open + 2,
        Phase::Decoding => 3 * open + 1,
        Phase::Done => 0,
    }
}

/// No answer takes a session out of the well-formed ones.
pub proof fn lemma_answer_keeps_well_formed(s: SessionView, answer: Answer)
    requires
        well_formed(s),
    ensures
        well_formed(after(s, answer)),
{
}

/// An answer that the session has not asked for changes nothing.
pub proof fn lemma_stray_answer_is_ignored(s: SessionView, answer: Answer)
    requires
        !awaits(s, answer),
    ensures
        after(s, answer) == s,
{
}

/// Every answer that the session has asked for brings it closer to the end.
pub proof fn lemma_answer_spends_budget(s: SessionView, answer: Answer)
    requires
        well_formed(s),
        awaits(s, answer),
    ensures
        budget(after(s, answer)) < budget(s),
{
}

/// A turn ends: whatever the model answers, and whether or not it ever picks
/// the end-of-sequence token, a session makes no more requests than its
/// budget, which at the start is three per token of the limit and two more.
/// Then it is done, with no more tokens in the reply than the limit.
pub proof fn lemma_generation_terminates(s: SessionView, answers: Seq<Answer>)
    requires
        well_formed(s),
        all_awaited(s, answers),
    ensures
        answers.len() <= budget(s),
        answers.len() == budget(s) ==> replay(s, answers).phase == Phase::Done,
        well_formed(replay(s, answers)),
        replay(s, answers).generated.len() <= capacity(s.limit),
    decreases answers.len(),
{
    if answers.len() > 0 {
        let next = after(s, answers.first());
        lemma_answer_keeps_well_formed(s, answers.first());
        lemma_answer_spends_budget(s, answers.first());
        lemma_generation_terminates(next, answers.drop_first());
        assert(next.limit == s.limit);
    }
}

/// A turn is a function of its start and of the model's answers: two turns
/// on the same prompt, with the same end-of-sequence token and limit, to
/// which the model gives the same answers, ask the same of the driver at
/// every point and end with the same bytes and the same outcome.
pub proof fn lemma_same_answers_same_reply(
    prompt_text: Seq<char>,
    eos: i32,
    limit: int,
    first: Seq<Answer>,
    second: Seq<Answer>,
)
    requires
        first =~= second,
    ensures
        replay(started(prompt_text, eos, limit), first) == replay(
            started(prompt_text, eos, limit),
            second,
        ),
        replay(started(prompt_text, eos, limit), first).output == replay(
            started(prompt_text, eos, limit),
            second,
        ).output,
        awaited(replay(started(prompt_text, eos, limit), first)) == awaited(
            replay(started(prompt_text, eos, limit), second),
        ),
{
}

/// The budget of a session that has just started.
pub proof fn lemma_budget_at_start(prompt_text: Seq<char>, eos: i32, limit: int)
    ensures
        budget(started(prompt_text, eos, limit)) == 3 * capacity(limit) + 2,
{
}

/// The reply grows only at its end, and only by the bytes that the model
/// gave for the token accepted last.
pub proof fn lemma_output_grows_by_pieces(s: SessionView, answer: Answer)
    ensures
        after(s, answer).output == s.output || (answer matches Answer::Piece { bytes: Some(b) }
            && after(s, answer).output == s.output + b),
        s.output.is_prefix_of(after(s, answer).output),
{
    match answer {
        Answer::Piece { bytes: Some(b) } => {
            assert(s.output.is_prefix_of(s.output + b));
        },
        _ => {},
    }
}

/// Decoding is incremental: after the prefill every batch holds exactly the
/// token accepted last, at the position that follows the one before it.
pub proof fn lemma_decoding_is_incremental(s: SessionView, token: i32, bytes: Seq<u8>)
    requires
        well_formed(s),
        s.phase == Phase::Sampling,
        token != s.eos,
    ensures
        awaited(
            after_piece(after_sampled(s, token), Some(bytes)),
        ) == (ActionView::EmitAndDecode {
            bytes,
            batch: step_batch(token, (s.prompt.len() + s.generated.len()) as int),
        }),
{
}

/// `String::from_utf8` of the standard library: the bytes as a string when
/// they are well-formed UTF-8, nothing otherwise.
#[verifier::external_body]
fn string_from_utf8(bytes: Vec<u8>) -> (text: Option<String>)
    ensures
        text is Some <==> valid_utf8(bytes@),
        text is Some ==> text->0@ == decode_utf8(bytes@),
{
    String::from_utf8(bytes).ok()
}

/// The state of one reply in the making.
pub struct GenerationSession {
    phase: Phase,
    prompt_text: String,
    prompt: Vec<i32>,
    eos: i32,
    limit: i32,
    generated: Vec<i32>,
    piece: Vec<u8>,
    output: Vec<u8>,
    failure: Option<DuckError>,
}

impl View for GenerationSession {
    type V = SessionView;

    closed spec fn view(&self) -> SessionView {
        SessionView {
            phase: self.phase,
            prompt_text: self.prompt_text@,
            prompt: self.prompt@,
            eos: self.eos,
            limit: self.limit as int,
            generated: self.generated@,
            piece: self.piece@,
            output: self.output@,
            failure: self.failure,
        }
    }
}

impl GenerationSession {
    #[verifier::type_invariant]
    spec fn inv(&self) -> bool {
        well_formed(self@)
    }

    /// Starts a turn on the rendered prompt. `eos` is the model's
    /// end-of-sequence token and `max_response_length` the largest number of
    /// tokens in the reply; a limit of zero or less gives the empty reply.
    pub fn start(prompt_text: String, eos: i32, max_response_length: i32) -> (r: (Self, Action))
        requires
            max_response_length <= i32::MAX - BATCH_CAPACITY,
        ensures
            r.0@ == started(prompt_text@, eos, max_response_length as int),
            r.1@ == awaited(r.0@),
            well_formed(r.0@),
    {
        let session = GenerationSession {
            phase: Phase::Tokenizing,
            prompt_text,
            prompt: Vec::new(),
            eos,
            limit: max_response_length,
            generated: Vec::new(),
            piece: Vec::new(),
            output: Vec::new(),
            failure: None,
        };
        let action = session.action();
        (session, action)
    }

    /// The phase that the session is in.
    pub fn phase(&self) -> (phase: Phase)
        ensures
            phase == self@.phase,
    {
        self.phase
    }

    /// The tokens accepted into the reply so far.
    pub fn generated(&self) -> (tokens: &Vec<i32>)
        ensures
            tokens@ == self@.generated,
    {
        &self.generated
    }

    /// The bytes of the reply so far.
    pub fn output(&self) -> (bytes: &Vec<u8>)
        ensures
            bytes@ == self@.output,
    {
        &self.output
    }

    /// What the session asks of the driver.
    pub fn action(&self) -> (action: Action)
        ensures
            action@ == awaited(self@),
            well_formed(self@),
    {
        proof {
            use_type_invariant(self);
        }
        match self.phase {
            Phase::Tokenizing => Action::Tokenize { text: self.prompt_text.clone() },
            Phase::Prefilling => Action::Decode { batch: prefill_entries(self.prompt.as_slice()) },
            Phase::Sampling => {
                let logits_index: i32 = if self.generated.len() == 0 {
                    self.prompt.len() as i32 - 1
                } else {
                    0
                };
                Action::Sample { logits_index }
            },
            Phase::Detokenizing => {
                Action::Detokenize { token: self.generated[self.generated.len() - 1] }
            },
            Phase::Decoding => {
                let token: i32 = self.generated[self.generated.len() - 1];
                let position: i32 = (self.prompt.len() + self.generated.len() - 1) as i32;
                let mut batch: Vec<BatchEntry> = Vec::with_capacity(1);
                batch.push(BatchEntry { token, position, sequence: 0, logits: true });
                assert(batch@ =~= step_batch(
                    self@.generated.last(),
                    self@.prompt.len() + self@.generated.len() - 1,
                ));
                Action::EmitAndDecode { bytes: slice_to_vec(self.piece.as_slice()), batch }
            },
            Phase::Done => {
                let outcome = match self.failure {
                    Some(error) => Err(error),
                    None => match string_from_utf8(slice_to_vec(self.output.as_slice())) {
                        Some(content) => Ok(Message { role: MessageRole::Assistant, content }),
                        None => Err(DuckError::InvalidOutputEncoding),
                    },
                };
                Action::Finish { outcome }
            },
        }
    }

    fn fail(self, error: DuckError) -> (next: Self)
        ensures
            next@ == failed(self@, error),
    {
        proof {
            use_type_invariant(&self);
        }
        GenerationSession {
            phase: Phase::Done,
            prompt_text: self.prompt_text,
            prompt: self.prompt,
            eos: self.eos,
            limit: self.limit,
            generated: self.generated,
            piece: self.piece,
            output: self.output,
            failure: Some(error),
        }
    }

    fn enter(self, phase: Phase) -> (next: Self)
        requires
            well_formed(SessionView { phase, ..self@ }),
        ensures
            next@ == (SessionView { phase, ..self@ }),
    {
        GenerationSession {
            phase,
            prompt_text: self.prompt_text,
            prompt: self.prompt,
            eos: self.eos,
            limit: self.limit,
            generated: self.generated,
            piece: self.piece,
            output: self.output,
            failure: self.failure,
        }
    }

    /// Takes the model's answer to [`Action::Tokenize`]: the prompt's tokens,
    /// or `None` when it could not tokenize.
    pub fn on_tokenized(self, tokens: Option<Vec<i32>>) -> (r: (Self, Action))
        ensures
            r.0@ == after_tokenized(
                self@,
                match tokens {
                    Some(t) => Some(t@),
                    None => None,
                },
            ),
            r.1@ == awaited(r.0@),
            well_formed(r.0@),
    {
        proof {
            use_type_invariant(&self);
        }
        let next = if self.phase != Phase::Tokenizing {
            self
        } else {
            match tokens {
                None => self.fail(DuckError::TokenizeFailed),
                Some(t) => {
                    if t.len() > BATCH_CAPACITY {
                        self.fail(DuckError::DecodeFailed)
                    } else {
                        GenerationSession {
                            phase: Phase::Prefilling,
                            prompt_text: self.prompt_text,
                            prompt: t,
                            eos: self.eos,
                            limit: self.limit,
                            generated: self.generated,
                            piece: self.piece,
                            output: self.output,
                            failure: self.failure,
                        }
                    }
                },
            }
        };
        let action = next.action();
        (next, action)
    }

    /// Takes the model's answer to [`Action::Decode`] or
    /// [`Action::EmitAndDecode`]: whether it decoded the batch.
    pub fn on_decoded(self, decoded: bool) -> (r: (Self, Action))
        ensures
            r.0@ == after_decoded(self@, decoded),
            r.1@ == awaited(r.0@),
            well_formed(r.0@),
    {
        proof {
            use_type_invariant(&self);
        }
        let next = if self.phase != Phase::Prefilling && self.phase != Phase::Decoding {
            self
        } else if !decoded {
            self.fail(DuckError::DecodeFailed)
        } else if self.limit > 0 && self.generated.len() < self.limit as usize {
            self.enter(Phase::Sampling)
        } else {
            self.enter(Phase::Done)
        };
        let action = next.action();
        (next, action)
    }

    /// Takes the model's answer to [`Action::Sample`]: the token it picked.
    pub fn on_sampled(self, token: i32) -> (r: (Self, Action))
        ensures
            r.0@ == after_sampled(self@, token),
            r.1@ == awaited(r.0@),
            well_formed(r.0@),
    {
        proof {
            use_type_invariant(&self);
        }
        let next = if self.phase != Phase::Sampling {
            self
        } else if token == self.eos {
            self.enter(Phase::Done)
        } else {
            let mut generated = self.generated;
            generated.push(token);
            GenerationSession {
                phase: Phase::Detokenizing,
                prompt_text: self.prompt_text,
                prompt: self.prompt,
                eos: self.eos,
                limit: self.limit,
                generated,
                piece: self.piece,
                output: self.output,
                failure: self.failure,
            }
        };
        let action = next.action();
        (next, action)
    }

    /// Takes the model's answer to [`Action::Detokenize`]: the token's bytes,
    /// or `None` when it could not give them.
    pub fn on_piece(self, bytes: Option<Vec<u8>>) -> (r: (Self, Action))
        ensures
            r.0@ == after_piece(
                self@,
                match bytes {
                    Some(b) => Some(b@),
                    None => None,
                },
            ),
            r.1@ == awaited(r.0@),
            well_formed(r.0@),
    {
        proof {
            use_type_invariant(&self);
        }
        let next = if self.phase != Phase::Detokenizing {
            self
        } else {
            match bytes {
                None => self.fail(DuckError::InvalidOutputEncoding),
                Some(b) => {
                    let mut output = self.output;
                    let mut copy = slice_to_vec(b.as_slice());
                    output.append(&mut copy);
                    GenerationSession {
                        phase: Phase::Decoding,
                        prompt_text: self.prompt_text,
                        prompt: self.prompt,
                        eos: self.eos,
                        limit: self.limit,
                        generated: self.generated,
                        piece: b,
                        output,
                        failure: self.failure,
                    }
                },
            }
        };
        let action = next.action();
        (next, action)
    }
}

} // verus!
