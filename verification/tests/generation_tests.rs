use rubber_duck::error::DuckError;
use rubber_duck::generation::{
    build_batch, Action, BatchEntry, GenerationSession, Phase, BATCH_CAPACITY,
};
use rubber_duck::llm::{Conversation, MessageRole};

const EOS: i32 = 2;

/// A model that answers from a script: the prompt's tokens, the tokens it
/// picks one after the other, and the bytes of each token.
struct Script {
    prompt: Option<Vec<i32>>,
    picks: Vec<i32>,
    next_pick: usize,
    fail_decode_at: Option<usize>,
    decodes: usize,
    requests: usize,
    sink: Vec<u8>,
    batches: Vec<Vec<BatchEntry>>,
    sample_indices: Vec<i32>,
}

fn script(prompt: Option<Vec<i32>>, picks: Vec<i32>) -> Script {
    Script {
        prompt,
        picks,
        next_pick: 0,
        fail_decode_at: None,
        decodes: 0,
        requests: 0,
        sink: Vec::new(),
        batches: Vec::new(),
        sample_indices: Vec::new(),
    }
}

fn piece_of(token: i32) -> Option<Vec<u8>> {
    match token {
        72 => Some(b"H".to_vec()),
        105 => Some(b"i".to_vec()),
        33 => Some(b"!".to_vec()),
        // The two bytes of one character, split over two tokens.
        1001 => Some(vec![0xC3]),
        1002 => Some(vec![0xA9]),
        // A byte that never occurs in UTF-8.
        1003 => Some(vec![0xFF]),
        // A token without bytes.
        1004 => Some(Vec::new()),
        // A token that the model cannot render.
        1005 => None,
        other => Some(format!("<{}>", other).into_bytes()),
    }
}

fn decode(model: &mut Script, batch: Vec<BatchEntry>) -> bool {
    let ok = model.fail_decode_at != Some(model.decodes);
    model.decodes += 1;
    model.batches.push(batch);
    ok
}

fn drive(
    model: &mut Script,
    start: (GenerationSession, Action),
) -> (GenerationSession, Result<String, DuckError>) {
    let (mut session, mut action) = start;
    loop {
        let next = match action {
            Action::Tokenize { .. } => {
                model.requests += 1;
                session.on_tokenized(model.prompt.clone())
            }
            Action::Decode { batch } => {
                model.requests += 1;
                let ok = decode(model, batch);
                session.on_decoded(ok)
            }
            Action::Sample { logits_index } => {
                model.requests += 1;
                model.sample_indices.push(logits_index);
                let token = if model.next_pick < model.picks.len() {
                    model.picks[model.next_pick]
                } else {
                    // A model that never ends on its own.
                    72
                };
                model.next_pick += 1;
                session.on_sampled(token)
            }
            Action::Detokenize { token } => {
                model.requests += 1;
                session.on_piece(piece_of(token))
            }
            Action::EmitAndDecode { bytes, batch } => {
                model.requests += 1;
                model.sink.extend_from_slice(&bytes);
                let ok = decode(model, batch);
                session.on_decoded(ok)
            }
            Action::Finish { outcome } => {
                return (session, outcome.map(|m| {
                    assert_eq!(m.role, MessageRole::Assistant);
                    m.content
                }));
            }
        };
        session = next.0;
        action = next.1;
    }
}

fn entry(token: i32, position: i32, logits: bool) -> BatchEntry {
    BatchEntry { token, position, sequence: 0, logits }
}

#[test]
fn batch_numbers_positions_and_asks_logits_for_the_last_token_only() {
    assert_eq!(
        build_batch(&[11, 12, 13]),
        Ok(vec![entry(11, 0, false), entry(12, 1, false), entry(13, 2, true)])
    );
    assert_eq!(build_batch(&[7]), Ok(vec![entry(7, 0, true)]));
    assert_eq!(build_batch(&[]), Ok(Vec::new()));
}

#[test]
fn batch_holds_at_most_its_capacity() {
    assert_eq!(BATCH_CAPACITY, 2048);
    let full = vec![5i32; 2048];
    let batch = build_batch(&full).unwrap();
    assert_eq!(batch.len(), 2048);
    assert_eq!(batch[2047], entry(5, 2047, true));
    assert_eq!(batch[2046], entry(5, 2046, false));
    let over = vec![5i32; 2049];
    assert_eq!(build_batch(&over), Err(DuckError::DecodeFailed));
}

#[test]
fn reply_streams_until_end_of_sequence() {
    let mut model = script(Some(vec![1, 20, 30]), vec![72, 105, 33, EOS]);
    let start = GenerationSession::start("prompt".to_string(), EOS, 256);
    let (session, outcome) = drive(&mut model, start);
    assert_eq!(outcome, Ok("Hi!".to_string()));
    assert_eq!(model.sink, b"Hi!");
    assert_eq!(session.phase(), Phase::Done);
    assert_eq!(session.generated(), &vec![72, 105, 33]);
    assert_eq!(session.output(), &b"Hi!".to_vec());
    // One batch for the prompt, then one token per batch at the next position.
    assert_eq!(
        model.batches,
        vec![
            vec![entry(1, 0, false), entry(20, 1, false), entry(30, 2, true)],
            vec![entry(72, 3, true)],
            vec![entry(105, 4, true)],
            vec![entry(33, 5, true)],
        ]
    );
    // Logits of the prompt's last token first, of the only token afterwards.
    assert_eq!(model.sample_indices, vec![2, 0, 0, 0]);
}

#[test]
fn end_of_sequence_token_is_not_emitted() {
    let mut model = script(Some(vec![1]), vec![EOS]);
    let start = GenerationSession::start("p".to_string(), EOS, 256);
    let (session, outcome) = drive(&mut model, start);
    assert_eq!(outcome, Ok(String::new()));
    assert!(model.sink.is_empty());
    assert!(session.generated().is_empty());
    assert_eq!(model.batches.len(), 1);
}

#[test]
fn reply_stops_at_the_limit_without_end_of_sequence() {
    let mut model = script(Some(vec![1, 9]), Vec::new());
    let start = GenerationSession::start("p".to_string(), EOS, 3);
    let (session, outcome) = drive(&mut model, start);
    assert_eq!(outcome, Ok("HHH".to_string()));
    assert_eq!(session.generated().len(), 3);
    assert_eq!(model.sample_indices.len(), 3);
    // Three requests per token, and two for the prompt.
    assert_eq!(model.requests, 3 * 3 + 2);
    assert_eq!(model.batches.last().unwrap(), &vec![entry(72, 4, true)]);
}

#[test]
fn chat_turn_is_bounded_by_the_maximum_response_length() {
    let mut model = script(Some(vec![1]), Vec::new());
    let conversation = Conversation::new();
    let start = conversation.begin_turn("Hello", EOS);
    let (session, outcome) = drive(&mut model, start);
    assert_eq!(outcome.unwrap().len(), 256);
    assert_eq!(session.generated().len(), 256);
    assert_eq!(model.requests, 3 * 256 + 2);
}

#[test]
fn limit_of_zero_or_less_gives_the_empty_reply() {
    for limit in [0, -1, i32::MIN] {
        let mut model = script(Some(vec![1, 9]), vec![72]);
        let start = GenerationSession::start("p".to_string(), EOS, limit);
        let (_, outcome) = drive(&mut model, start);
        assert_eq!(outcome, Ok(String::new()));
        assert!(model.sample_indices.is_empty());
        assert_eq!(model.batches.len(), 1);
    }
}

#[test]
fn same_answers_give_the_same_bytes() {
    let run = || {
        let mut model = script(Some(vec![1, 20]), vec![72, 1001, 1002, 105, EOS]);
        let start = GenerationSession::start("p".to_string(), EOS, 256);
        let (_, outcome) = drive(&mut model, start);
        (outcome, model.sink, model.batches)
    };
    let first = run();
    let second = run();
    assert_eq!(first, second);
    assert_eq!(first.0, Ok("H\u{e9}i".to_string()));
}

#[test]
fn character_split_over_two_tokens_is_read_whole() {
    let mut model = script(Some(vec![1]), vec![1001, 1002, EOS]);
    let start = GenerationSession::start("p".to_string(), EOS, 256);
    let (session, outcome) = drive(&mut model, start);
    assert_eq!(outcome, Ok("\u{e9}".to_string()));
    assert_eq!(session.output(), &vec![0xC3, 0xA9]);
    assert_eq!(model.sink, vec![0xC3, 0xA9]);
}

#[test]
fn token_without_bytes_is_still_decoded() {
    let mut model = script(Some(vec![1]), vec![1004, 72, EOS]);
    let start = GenerationSession::start("p".to_string(), EOS, 256);
    let (_, outcome) = drive(&mut model, start);
    assert_eq!(outcome, Ok("H".to_string()));
    assert_eq!(model.batches[1], vec![entry(1004, 1, true)]);
    assert_eq!(model.batches[2], vec![entry(72, 2, true)]);
}

#[test]
fn tokenize_failure_aborts_the_turn() {
    let mut model = script(None, vec![72]);
    let start = GenerationSession::start("p".to_string(), EOS, 256);
    let (session, outcome) = drive(&mut model, start);
    assert_eq!(outcome, Err(DuckError::TokenizeFailed));
    assert_eq!(session.phase(), Phase::Done);
    assert!(model.batches.is_empty());
}

#[test]
fn prompt_that_does_not_fit_a_batch_fails_the_prefill() {
    let mut model = script(Some(vec![3; 2049]), vec![72]);
    let start = GenerationSession::start("p".to_string(), EOS, 256);
    let (_, outcome) = drive(&mut model, start);
    assert_eq!(outcome, Err(DuckError::DecodeFailed));
    assert!(model.batches.is_empty());
}

#[test]
fn prefill_failure_aborts_the_turn() {
    let mut model = script(Some(vec![1, 20]), vec![72]);
    model.fail_decode_at = Some(0);
    let start = GenerationSession::start("p".to_string(), EOS, 256);
    let (_, outcome) = drive(&mut model, start);
    assert_eq!(outcome, Err(DuckError::DecodeFailed));
    assert!(model.sample_indices.is_empty());
}

#[test]
fn decode_failure_in_mid_reply_aborts_the_turn() {
    let mut model = script(Some(vec![1, 20]), vec![72, 105, EOS]);
    model.fail_decode_at = Some(2);
    let start = GenerationSession::start("p".to_string(), EOS, 256);
    let (_, outcome) = drive(&mut model, start);
    assert_eq!(outcome, Err(DuckError::DecodeFailed));
    // What was written before the failure stays written.
    assert_eq!(model.sink, b"Hi");
}

#[test]
fn token_without_rendering_aborts_the_turn() {
    let mut model = script(Some(vec![1]), vec![72, 1005, 105, EOS]);
    let start = GenerationSession::start("p".to_string(), EOS, 256);
    let (_, outcome) = drive(&mut model, start);
    assert_eq!(outcome, Err(DuckError::InvalidOutputEncoding));
    assert_eq!(model.sink, b"H");
}

#[test]
fn malformed_bytes_are_not_made_a_message() {
    let mut model = script(Some(vec![1]), vec![72, 1003, EOS]);
    let start = GenerationSession::start("p".to_string(), EOS, 256);
    let (_, outcome) = drive(&mut model, start);
    assert_eq!(outcome, Err(DuckError::InvalidOutputEncoding));
    let mut model = script(Some(vec![1]), vec![1001, EOS]);
    let start = GenerationSession::start("p".to_string(), EOS, 256);
    let (_, outcome) = drive(&mut model, start);
    assert_eq!(outcome, Err(DuckError::InvalidOutputEncoding));
}

#[test]
fn answers_that_were_not_asked_for_change_nothing() {
    let (session, action) = GenerationSession::start("p".to_string(), EOS, 4);
    assert!(matches!(action, Action::Tokenize { .. }));
    let (session, action) = session.on_decoded(true);
    assert!(matches!(action, Action::Tokenize { .. }));
    let (session, action) = session.on_sampled(72);
    assert!(matches!(action, Action::Tokenize { .. }));
    let (session, action) = session.on_piece(Some(b"x".to_vec()));
    match action {
        Action::Tokenize { text } => assert_eq!(text, "p"),
        other => panic!("unexpected action {:?}", other),
    }
    assert_eq!(session.phase(), Phase::Tokenizing);

    let (session, _) = session.on_tokenized(Some(vec![1, 20]));
    let (session, action) = session.on_tokenized(Some(vec![9]));
    match action {
        Action::Decode { batch } => assert_eq!(batch, vec![entry(1, 0, false), entry(20, 1, true)]),
        other => panic!("unexpected action {:?}", other),
    }
    let (session, _) = session.on_decoded(true);
    let (session, action) = session.on_decoded(false);
    assert!(matches!(action, Action::Sample { logits_index: 1 }));
    let (session, action) = session.on_sampled(72);
    assert!(matches!(action, Action::Detokenize { token: 72 }));
    let (session, action) = session.on_sampled(105);
    assert!(matches!(action, Action::Detokenize { token: 72 }));
    let (session, _) = session.on_piece(Some(b"H".to_vec()));
    let (session, action) = session.on_piece(Some(b"zzz".to_vec()));
    match action {
        Action::EmitAndDecode { bytes, batch } => {
            assert_eq!(bytes, b"H");
            assert_eq!(batch, vec![entry(72, 2, true)]);
        }
        other => panic!("unexpected action {:?}", other),
    }
    assert_eq!(session.output(), &b"H".to_vec());
    let (session, _) = session.on_decoded(true);
    let (session, action) = session.on_sampled(EOS);
    assert!(matches!(action, Action::Finish { .. }));
    // A finished session stays finished.
    let (session, action) = session.on_sampled(72);
    match action {
        Action::Finish { outcome } => assert_eq!(outcome.unwrap().content, "H"),
        other => panic!("unexpected action {:?}", other),
    }
    let (session, _) = session.on_decoded(false);
    assert_eq!(session.phase(), Phase::Done);
    assert_eq!(session.generated(), &vec![72]);
}

#[test]
fn empty_prompt_samples_from_the_last_logits() {
    let (session, _) = GenerationSession::start("".to_string(), EOS, 4);
    let (session, action) = session.on_tokenized(Some(Vec::new()));
    match action {
        Action::Decode { batch } => assert!(batch.is_empty()),
        other => panic!("unexpected action {:?}", other),
    }
    let (_, action) = session.on_decoded(true);
    assert!(matches!(action, Action::Sample { logits_index: -1 }));
}

#[test]
fn turn_of_a_conversation_from_text_to_stored_reply() {
    let mut conversation = Conversation::new();
    let mut model = script(Some(vec![1, 20, 30]), vec![72, 105, EOS]);
    let start = conversation.begin_turn("Hello\n", EOS);
    let (_, outcome) = drive(&mut model, start);
    assert!(model.sink.len() > 0);
    let reply = outcome.map(|content| rubber_duck::llm::Message::assistant(&content));
    assert_eq!(conversation.finish_turn("Hello\n", reply), Ok(()));
    assert_eq!(conversation.len(), 3);
    assert_eq!(conversation.get(1).unwrap().content, "Hello\n");
    assert_eq!(conversation.get(2).unwrap().content, "Hi");

    // A failed turn leaves the conversation as it was.
    let mut model = script(None, Vec::new());
    let start = conversation.begin_turn("again", EOS);
    let (_, outcome) = drive(&mut model, start);
    let reply = outcome.map(|content| rubber_duck::llm::Message::assistant(&content));
    assert_eq!(conversation.finish_turn("again", reply), Err(DuckError::TokenizeFailed));
    assert_eq!(conversation.len(), 3);
}
