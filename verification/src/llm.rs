//! Messages, the conversation they form, and the prompt rendered from it.

use crate::error::DuckError;
use crate::generation::{awaited, started, well_formed};
use crate::generation::{Action, GenerationSession, MAX_RESPONSE_LENGTH};
use vstd::prelude::*;

verus! {

/// The instruction that opens every conversation.
pub const SYSTEM_PROMPT: &'static str =
    "\nYou are a rubber duck. Listen to the user's problem and help them solve it by asking questions.\nYou are not allowed to answer the user's question directly.\n";

/// Who is speaking in a message.
#[derive(Debug, Clone, Copy, PartialEq, Eq, Structural)]
pub enum MessageRole {
    User,
    Assistant,
    System,
}

impl MessageRole {
    /// The role's name as the prompt template spells it.
    pub open spec fn name(self) -> Seq<char> {
        match self {
            MessageRole::User => "user"@,
            MessageRole::Assistant => "assistant"@,
            MessageRole::System => "system"@,
        }
    }

    /// Returns [`MessageRole::name`].
    pub fn to_str(&self) -> (name: &'static str)
        ensures
            name@ == self.name(),
    {
        match self {
            MessageRole::User => "user",
            MessageRole::Assistant => "assistant",
            MessageRole::System => "system",
        }
    }
}

/// What a [`Message`] is to a contract: its role and the characters of its
/// content.
pub struct MessageView {
    pub role: MessageRole,
    pub content: Seq<char>,
}

/// One turn of the conversation.
#[derive(Debug)]
pub struct Message {
    pub role: MessageRole,
    pub content: String,
}

impl View for Message {
    type V = MessageView;

    open spec fn view(&self) -> MessageView {
        MessageView { role: self.role, content: self.content@ }
    }
}

impl Clone for Message {
    fn clone(&self) -> (copy: Self)
        ensures
            copy == *self,
    {
        Message { role: self.role, content: self.content.clone() }
    }
}

/// The block that the prompt template makes of one message: a header naming
/// the role, the content, and the end-of-turn mark.
pub open spec fn formatted(m: MessageView) -> Seq<char> {
    "<|start_header_id|>"@ + m.role.name() + "<|end_header_id|>\n\n"@ + m.content + "<|eot_id|>\n"@
}

impl Message {
    /// A message spoken by the system.
    pub fn system(content: &str) -> (m: Self)
        ensures
            m@ == (MessageView { role: MessageRole::System, content: content@ }),
    {
        Message { role: MessageRole::System, content: String::from_str(content) }
    }

    /// A message spoken by the user.
    pub fn user(content: &str) -> (m: Self)
        ensures
            m@ == (MessageView { role: MessageRole::User, content: content@ }),
    {
        Message { role: MessageRole::User, content: String::from_str(content) }
    }

    /// A message spoken by the assistant.
    pub fn assistant(content: &str) -> (m: Self)
        ensures
            m@ == (MessageView { role: MessageRole::Assistant, content: content@ }),
    {
        Message { role: MessageRole::Assistant, content: String::from_str(content) }
    }

    /// Renders the message as one block of the prompt.
    pub fn format(&self) -> (block: String)
        ensures
            block@ == formatted(self@),
    {
        let mut block = String::from_str("<|start_header_id|>");
        block.append(self.role.to_str());
        block.append("<|end_header_id|>\n\n");
        block.append(self.content.as_str());
        block.append("<|eot_id|>\n");
        block
    }
}

/// The marker that opens every prompt.
pub open spec fn prompt_opening() -> Seq<char> {
    "<|begin_of_text|>"@
}

/// The header that closes every prompt: it opens the assistant's turn, which
/// the model is to complete.
pub open spec fn assistant_opening() -> Seq<char> {
    "<|start_header_id|>assistant<|end_header_id|>\n\n"@
}

/// The blocks of `history`, one after the other, in conversation order.
pub open spec fn rendered_history(history: Seq<MessageView>) -> Seq<char>
    decreases history.len(),
{
    if history.len() == 0 {
        Seq::empty()
    } else {
        rendered_history(history.drop_last()) + formatted(history.last())
    }
}

/// The prompt for a conversation so far and the user's text that is about to
/// join it.
pub open spec fn rendered_prompt(history: Seq<MessageView>, pending: Seq<char>) -> Seq<char> {
    prompt_opening() + rendered_history(
        history.push(MessageView { role: MessageRole::User, content: pending }),
    ) + assistant_opening()
}

/// The message that every conversation starts with.
pub open spec fn system_message() -> MessageView {
    MessageView { role: MessageRole::System, content: SYSTEM_PROMPT@ }
}

/// Whether a history starts with the system message, as every conversation
/// does.
pub open spec fn opens_with_system(history: Seq<MessageView>) -> bool {
    history.len() > 0 && history[0] == system_message()
}

/// The messages exchanged so far, oldest first. Messages are only ever added
/// at the end.
pub struct Conversation {
    messages: Vec<Message>,
}

impl View for Conversation {
    type V = Seq<MessageView>;

    closed spec fn view(&self) -> Seq<MessageView> {
        self.messages@.map_values(|m: Message| m@)
    }
}

impl Conversation {
    /// A conversation that holds the system message and nothing else.
    pub fn new() -> (c: Self)
        ensures
            c@ == seq![system_message()],
            opens_with_system(c@),
    {
        let mut messages: Vec<Message> = Vec::new();
        messages.push(Message::system(SYSTEM_PROMPT));
        assert(messages@.map_values(|m: Message| m@) =~= seq![system_message()]);
        Conversation { messages }
    }

    /// The number of messages.
    pub fn len(&self) -> (n: usize)
        ensures
            n == self@.len(),
    {
        self.messages.len()
    }

    /// The message at `index`, counted from the oldest.
    pub fn get(&self, index: usize) -> (m: Option<&Message>)
        ensures
            index < self@.len() ==> m is Some && m->0@ == self@[index as int],
            index >= self@.len() ==> m is None,
    {
        if index < self.messages.len() {
            Some(&self.messages[index])
        } else {
            None
        }
    }

    /// Adds a message at the end. Any content is accepted, the empty one too.
    pub fn append(&mut self, role: MessageRole, content: &str)
        ensures
            final(self)@ == old(self)@.push(MessageView { role, content: content@ }),
            opens_with_system(old(self)@) ==> opens_with_system(final(self)@),
    {
        let message = Message { role, content: String::from_str(content) };
        self.messages.push(message);
        assert(self.messages@.map_values(|m: Message| m@) =~= old(self)@.push(
            MessageView { role, content: content@ },
        ));
    }

    /// Renders the prompt for the conversation so far followed by the user's
    /// `pending` text. The conversation itself is left as it is.
    pub fn render_prompt(&self, pending: &str) -> (prompt: String)
        ensures
            prompt@ == rendered_prompt(self@, pending@),
    {
        let mut prompt = String::from_str("<|begin_of_text|>");
        let mut i: usize = 0;
        while i < self.messages.len()
            invariant
                i <= self.messages.len(),
                prompt@ == prompt_opening() + rendered_history(self@.take(i as int)),
            decreases self.messages.len() - i,
        {
            let block = self.messages[i].format();
            prompt.append(block.as_str());
            proof {
                let next = self@.take(i + 1);
                assert(next.drop_last() =~= self@.take(i as int));
                assert(next.last() == self.messages[i as int]@);
            }
            i += 1;
        }
        let user = Message::user(pending);
        let block = user.format();
        prompt.append(block.as_str());
        prompt.append("<|start_header_id|>assistant<|end_header_id|>\n\n");
        proof {
            let all = self@.push(user@);
            assert(self@.take(i as int) =~= self@);
            assert(all.drop_last() =~= self@);
            assert(all.last() == user@);
        }
        prompt
    }

    /// Opens a turn on the user's text: renders the prompt and starts the
    /// session that will generate the reply, of at most
    /// [`MAX_RESPONSE_LENGTH`] tokens. `eos` is the model's end-of-sequence
    /// token. The conversation is left as it is until the turn has ended.
    pub fn begin_turn(&self, user_text: &str, eos: i32) -> (r: (GenerationSession, Action))
        ensures
            r.0@ == started(rendered_prompt(self@, user_text@), eos, MAX_RESPONSE_LENGTH as int),
            r.1@ == awaited(r.0@),
            well_formed(r.0@),
    {
        GenerationSession::start(self.render_prompt(user_text), eos, MAX_RESPONSE_LENGTH)
    }

    /// Closes a turn with the outcome that its session finished with. A
    /// reply joins the conversation behind the user's text that it answers;
    /// a failure is handed on and leaves the conversation as it was.
    pub fn finish_turn(&mut self, user_text: &str, outcome: Result<Message, DuckError>) -> (r:
        Result<(), DuckError>)
        ensures
            match outcome {
                Ok(reply) => r is Ok && final(self)@ == old(self)@.push(
                    MessageView { role: MessageRole::User, content: user_text@ },
                ).push(reply@),
                Err(error) => r is Err && r->Err_0 == error && final(self)@ == old(self)@,
            },
            opens_with_system(old(self)@) ==> opens_with_system(final(self)@),
    {
        match outcome {
            Ok(reply) => {
                self.messages.push(Message::user(user_text));
                self.messages.push(reply);
                assert(self.messages@.map_values(|m: Message| m@) =~= old(self)@.push(
                    MessageView { role: MessageRole::User, content: user_text@ },
                ).push(reply@));
                Ok(())
            },
            Err(error) => Err(error),
        }
    }
}

/// Rendering keeps conversation order: the blocks of a history that
/// continues another follow the blocks of that other.
pub proof fn lemma_rendered_history_concat(earlier: Seq<MessageView>, later: Seq<MessageView>)
    ensures
        rendered_history(earlier + later) == rendered_history(earlier) + rendered_history(later),
    decreases later.len(),
{
    if later.len() == 0 {
        assert(earlier + later =~= earlier);
        assert(rendered_history(earlier) + rendered_history(later) =~= rendered_history(earlier));
    } else {
        lemma_rendered_history_concat(earlier, later.drop_last());
        assert((earlier + later).drop_last() =~= earlier + later.drop_last());
        assert((earlier + later).last() == later.last());
        assert(rendered_history(earlier) + (rendered_history(later.drop_last()) + formatted(
            later.last(),
        )) =~= (rendered_history(earlier) + rendered_history(later.drop_last())) + formatted(
            later.last(),
        ));
    }
}

/// The prompt of a conversation begins with the opening marker
/// and the system message's block, goes on with the blocks of the messages
/// that followed, then the block of the user's pending text, and ends with
/// the header that opens the assistant's turn.
pub proof fn lemma_prompt_shape(history: Seq<MessageView>, pending: Seq<char>)
    requires
        opens_with_system(history),
    ensures
        rendered_prompt(history, pending) == prompt_opening() + formatted(system_message())
            + rendered_history(history.drop_first()) + formatted(
            MessageView { role: MessageRole::User, content: pending },
        ) + assistant_opening(),
{
    let user = MessageView { role: MessageRole::User, content: pending };
    let head = seq![system_message()];
    assert(history.push(user) =~= head + history.drop_first() + seq![user]);
    lemma_rendered_history_concat(head + history.drop_first(), seq![user]);
    lemma_rendered_history_concat(head, history.drop_first());
    assert(rendered_history(head) =~= formatted(system_message())) by {
        assert(head.drop_last() =~= Seq::<MessageView>::empty());
        assert(rendered_history(head.drop_last()) =~= Seq::<char>::empty());
    }
    assert(rendered_history(seq![user]) =~= formatted(user)) by {
        assert(seq![user].drop_last() =~= Seq::<MessageView>::empty());
        assert(rendered_history(seq![user].drop_last()) =~= Seq::<char>::empty());
    }
}

} // verus!
