use vstd::prelude::*;
use vstd::string::*;

use crate::text::{has_content, trimmed, trim_text};

verus! {

/// Who wrote a message of the conversation.
#[derive(Clone, Copy, Debug, PartialEq, Eq, Structural)]
pub enum Role {
    System,
    User,
    Assistant,
}

/// The name of a role on the wire.
pub open spec fn role_name(r: Role) -> Seq<char> {
    match r {
        Role::System => "system"@,
        Role::User => "user"@,
        Role::Assistant => "assistant"@,
    }
}

impl Role {
    /// The name of the role on the wire: `system`, `user` or `assistant`.
    pub fn as_str(&self) -> (r: &'static str)
        ensures
            r@ == role_name(*self),
    {
        match self {
            Role::System => "system",
            Role::User => "user",
            Role::Assistant => "assistant",
        }
    }
}

/// One message of a conversation.
#[derive(Debug)]
pub struct Message {
    pub role: Role,
    pub content: String,
}

impl View for Message {
    type V = (Role, Seq<char>);

    open spec fn view(&self) -> (Role, Seq<char>) {
        (self.role, self.content@)
    }
}

impl Message {
    pub fn new(role: Role, content: &str) -> (r: Message)
        ensures
            r@ == (role, content@),
    {
        Message { role, content: String::from_str(content) }
    }

    /// A copy of this message.
    pub fn duplicate(&self) -> (r: Message)
        ensures
            r@ == self@,
    {
        Message { role: self.role, content: self.content.clone() }
    }
}

/// The view of a vector of messages.
pub open spec fn messages_view(v: Seq<Message>) -> Seq<(Role, Seq<char>)> {
    v.map_values(|m: Message| m@)
}

/// A copy of a vector of messages.
pub fn duplicate_messages(v: &Vec<Message>) -> (r: Vec<Message>)
    ensures
        messages_view(r@) == messages_view(v@),
{
    let mut r: Vec<Message> = Vec::new();
    let mut i: usize = 0;
    while i < v.len()
        invariant
            i <= v@.len(),
            r@.len() == i,
            forall|j: int| 0 <= j < i ==> (#[trigger] r@[j])@ == v@[j]@,
        decreases v@.len() - i,
    {
        let m = v[i].duplicate();
        r.push(m);
        i = i + 1;
    }
    proof {
        assert(messages_view(r@) =~= messages_view(v@));
    }
    r
}

/// The log that a conversation starts with: the system prompt, if it is not empty.
pub open spec fn initial_log(prompt: Seq<char>) -> Seq<(Role, Seq<char>)> {
    if prompt.len() == 0 {
        seq![]
    } else {
        seq![(Role::System, prompt)]
    }
}

/// The log after a line of user input: the trimmed input is appended as a user
/// message, unless it is blank.
pub open spec fn after_user_input(log: Seq<(Role, Seq<char>)>, input: Seq<char>) -> Seq<
    (Role, Seq<char>),
> {
    if trimmed(input).len() == 0 {
        log
    } else {
        log.push((Role::User, trimmed(input)))
    }
}

/// The log after a reply: the reply is appended as an assistant message, unless
/// it is blank.
pub open spec fn after_reply(log: Seq<(Role, Seq<char>)>, reply: Seq<char>) -> Seq<
    (Role, Seq<char>),
> {
    if trimmed(reply).len() == 0 {
        log
    } else {
        log.push((Role::Assistant, reply))
    }
}

/// Over one turn the log grows by exactly one message after input that is not
/// blank, and by exactly one more after a reply that is not blank; blank input
/// or a blank reply adds nothing. Earlier messages stay as they were.
pub proof fn law_log_growth(log: Seq<(Role, Seq<char>)>, input: Seq<char>, reply: Seq<char>)
    ensures
        after_user_input(log, input).len() == log.len() + if trimmed(input).len() > 0 {
            1int
        } else {
            0int
        },
        after_reply(after_user_input(log, input), reply).len() == after_user_input(
            log,
            input,
        ).len() + if trimmed(reply).len() > 0 {
            1int
        } else {
            0int
        },
        after_user_input(log, input).subrange(0, log.len() as int) == log,
        after_reply(log, reply).subrange(0, log.len() as int) == log,
{
    assert(log.push((Role::User, trimmed(input))).subrange(0, log.len() as int) =~= log);
    assert(log.push((Role::Assistant, reply)).subrange(0, log.len() as int) =~= log);
}

/// A log is well formed when only its first message may be a system message.
pub open spec fn log_wf(log: Seq<(Role, Seq<char>)>) -> bool {
    forall|i: int| 0 < i < log.len() ==> (#[trigger] log[i]).0 != Role::System
}

/// The ordered messages of one session, in the order sent to the service.
#[derive(Debug)]
pub struct ConversationLog {
    messages: Vec<Message>,
}

impl View for ConversationLog {
    type V = Seq<(Role, Seq<char>)>;

    closed spec fn view(&self) -> Seq<(Role, Seq<char>)> {
        messages_view(self.messages@)
    }
}

impl ConversationLog {
    pub open spec fn wf(&self) -> bool {
        log_wf(self@)
    }

    /// A log that starts with `prompt` as its system message, or empty when
    /// `prompt` is empty.
    pub fn new(prompt: &str) -> (r: ConversationLog)
        ensures
            r@ == initial_log(prompt@),
            r.wf(),
    {
        let mut messages: Vec<Message> = Vec::new();
        if !prompt.is_empty() {
            messages.push(Message::new(Role::System, prompt));
        }
        let r = ConversationLog { messages };
        proof {
            assert(r@ =~= initial_log(prompt@));
        }
        r
    }

    pub fn len(&self) -> (r: usize)
        ensures
            r == self@.len(),
    {
        self.messages.len()
    }

    /// The messages in order.
    pub fn messages(&self) -> (r: &Vec<Message>)
        ensures
            messages_view(r@) == self@,
    {
        &self.messages
    }

    fn push(&mut self, m: Message)
        ensures
            final(self)@ == old(self)@.push(m@),
    {
        self.messages.push(m);
        proof {
            assert(final(self)@ =~= old(self)@.push(m@));
        }
    }

    /// Records a line of user input; returns whether a message was appended.
    pub fn record_user_input(&mut self, input: &str) -> (appended: bool)
        requires
            old(self).wf(),
        ensures
            final(self).wf(),
            final(self)@ == after_user_input(old(self)@, input@),
            appended == (trimmed(input@).len() > 0),
    {
        let t = trim_text(input);
        if t.is_empty() {
            false
        } else {
            self.push(Message::new(Role::User, t));
            true
        }
    }

    /// Records the assistant's reply; returns whether a message was appended.
    pub fn record_reply(&mut self, reply: &str) -> (appended: bool)
        requires
            old(self).wf(),
        ensures
            final(self).wf(),
            final(self)@ == after_reply(old(self)@, reply@),
            appended == (trimmed(reply@).len() > 0),
    {
        if has_content(reply) {
            self.push(Message::new(Role::Assistant, reply));
            true
        } else {
            false
        }
    }
}

} // verus!
