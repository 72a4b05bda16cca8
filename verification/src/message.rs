//! The messages of a conversation.

use vstd::prelude::*;

verus! {

/// Who speaks in a message.
#[derive(Debug, Clone, Copy, PartialEq, Eq, Structural)]
pub enum Role {
    /// Sets the behaviour of the assistant.
    System,
    /// Carries the query.
    User,
}

impl Role {
    /// The name of the role on the wire.
    pub open spec fn name(self) -> Seq<char> {
        match self {
            Role::System => "system"@,
            Role::User => "user"@,
        }
    }

    /// The name of the role on the wire.
    pub fn as_str(self) -> (name: &'static str)
        ensures
            name@ == self.name(),
    {
        match self {
            Role::System => "system",
            Role::User => "user",
        }
    }
}

/// One message of a conversation.
#[derive(Debug, PartialEq, Eq)]
pub struct Message {
    pub role: Role,
    pub content: String,
}

/// A message as mathematics sees it.
pub struct MessageView {
    pub role: Role,
    pub content: Seq<char>,
}

impl View for Message {
    type V = MessageView;

    open spec fn view(&self) -> MessageView {
        MessageView { role: self.role, content: self.content@ }
    }
}

/// The views of a sequence of messages, in order.
pub open spec fn message_views(messages: Seq<Message>) -> Seq<MessageView> {
    messages.map_values(|m: Message| m@)
}

/// The conversation that an invocation sends: the system prompt, then the
/// user's input.
pub open spec fn conversation_of(prompt: Seq<char>, input: Seq<char>) -> Seq<MessageView> {
    seq![
        MessageView { role: Role::System, content: prompt },
        MessageView { role: Role::User, content: input },
    ]
}

impl Message {
    /// A message of the system.
    pub fn system(content: String) -> (message: Message)
        ensures
            message@ == (MessageView { role: Role::System, content: content@ }),
    {
        Message { role: Role::System, content }
    }

    /// A message of the user.
    pub fn user(content: String) -> (message: Message)
        ensures
            message@ == (MessageView { role: Role::User, content: content@ }),
    {
        Message { role: Role::User, content }
    }
}

/// The two messages of an invocation, the system's first.
pub fn conversation(prompt: String, input: String) -> (messages: Vec<Message>)
    ensures
        message_views(messages@) == conversation_of(prompt@, input@),
{
    let mut messages: Vec<Message> = Vec::new();
    messages.push(Message::system(prompt));
    messages.push(Message::user(input));
    assert(message_views(messages@) =~= conversation_of(prompt@, input@));
    messages
}

} // verus!
