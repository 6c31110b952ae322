use vstd::prelude::*;

verus! {

/// Who produced a chat message.
#[derive(Debug, Clone, Copy, PartialEq, Eq, Structural)]
pub enum Role {
    User,
    System,
    Assistant,
}

/// One turn of the chat conversation sent to the completion service.
#[derive(Debug)]
pub struct Message {
    pub role: Role,
    pub content: String,
}

impl Message {
    /// A message spoken by the user.
    pub fn user(content: String) -> (m: Message)
        ensures
            m.role == Role::User,
            m.content == content,
    {
        Message { role: Role::User, content }
    }

    /// A message spoken by the assistant.
    pub fn assistant(content: String) -> (m: Message)
        ensures
            m.role == Role::Assistant,
            m.content == content,
    {
        Message { role: Role::Assistant, content }
    }
}

/// The payload of one completion request: a model name and the conversation
/// so far.
#[derive(Debug)]
pub struct RequestData {
    pub model: String,
    pub messages: Vec<Message>,
}

impl RequestData {
    /// A request against the turbo model.
    pub fn turbo(conversation: Vec<Message>) -> (r: RequestData)
        ensures
            r.model@ == "gpt-3.5-turbo"@,
            r.messages == conversation,
    {
        RequestData { model: "gpt-3.5-turbo".to_owned(), messages: conversation }
    }
}

} // verus!
