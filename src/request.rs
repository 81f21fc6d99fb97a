use vstd::prelude::*;
use vstd::string::*;

use crate::message::{duplicate_messages, messages_view, ConversationLog, Message, Role};

verus! {

/// The model that answers the conversation.
pub open spec fn chat_model() -> Seq<char> {
    "gpt-3.5-turbo"@
}

/// The model that revises the user profile.
pub open spec fn profile_model() -> Seq<char> {
    "gpt-3.5-turbo-0125"@
}

/// The fixed exchange sent to ask for a revised profile.
pub open spec fn profile_exchange() -> Seq<(Role, Seq<char>)> {
    seq![(Role::System, "Profile_check"@), (Role::User, "user_chat_log_content"@)]
}

/// The token limit of a profile revision.
pub const PROFILE_MAX_TOKENS: u32 = 4000;

/// A completion request: a model and an ordered list of messages, with the
/// optional sampling temperature and token limit.
#[derive(Debug)]
pub struct CompletionRequest {
    pub model: String,
    pub messages: Vec<Message>,
    pub temperature: Option<u32>,
    pub max_tokens: Option<u32>,
}

/// The request for the next reply: the whole log, with the chat model and the
/// service's defaults.
pub fn chat_request(log: &ConversationLog) -> (r: CompletionRequest)
    ensures
        r.model@ == chat_model(),
        messages_view(r.messages@) == log@,
        r.temperature is None,
        r.max_tokens is None,
{
    CompletionRequest {
        model: String::from_str("gpt-3.5-turbo"),
        messages: duplicate_messages(log.messages()),
        temperature: None,
        max_tokens: None,
    }
}

/// The request for a revised profile: the fixed exchange, at temperature 0 and
/// at most `PROFILE_MAX_TOKENS` tokens.
pub fn profile_request() -> (r: CompletionRequest)
    ensures
        r.model@ == profile_model(),
        messages_view(r.messages@) == profile_exchange(),
        r.temperature == Some(0u32),
        r.max_tokens == Some(PROFILE_MAX_TOKENS),
{
    let mut messages: Vec<Message> = Vec::new();
    messages.push(Message::new(Role::System, "Profile_check"));
    messages.push(Message::new(Role::User, "user_chat_log_content"));
    proof {
        assert(messages_view(messages@) =~= profile_exchange());
    }
    CompletionRequest {
        model: String::from_str("gpt-3.5-turbo-0125"),
        messages,
        temperature: Some(0),
        max_tokens: Some(PROFILE_MAX_TOKENS),
    }
}

/// One candidate of a completion response: the text content of its message,
/// when the message has one.
#[derive(Debug)]
pub struct Choice {
    pub content: Option<String>,
}

/// A completion response: its candidates in order.
#[derive(Debug)]
pub struct CompletionReply {
    pub choices: Vec<Choice>,
}

/// The text of a reply: the content of the first candidate, or nothing.
pub open spec fn reply_text_spec(choices: Seq<Choice>) -> Seq<char> {
    if choices.len() > 0 && choices[0].content is Some {
        choices[0].content->0@
    } else {
        Seq::empty()
    }
}

/// The text of a reply: the content of the first candidate, or the empty
/// string when there is none.
pub fn reply_text(reply: &CompletionReply) -> (r: String)
    ensures
        r@ == reply_text_spec(reply.choices@),
{
    if reply.choices.len() > 0 {
        match &reply.choices[0].content {
            Some(c) => c.clone(),
            None => String::new(),
        }
    } else {
        String::new()
    }
}

/// Why a turn failed.
#[derive(Debug)]
pub enum ChatError {
    /// The service answered with a status outside 200..=299; the body it sent.
    Api(String),
    /// The request could not be sent or its answer not read.
    Transport(String),
    /// A profile file could not be read or written.
    Storage(String),
}

/// What a failure says.
pub open spec fn error_message(e: ChatError) -> Seq<char> {
    match e {
        ChatError::Api(body) => "API call failed: "@ + body@,
        ChatError::Transport(d) => d@,
        ChatError::Storage(d) => d@,
    }
}

impl ChatError {
    /// What the failure says; for a status failure, `API call failed: ` and the body.
    pub fn message(&self) -> (r: String)
        ensures
            r@ == error_message(*self),
    {
        match self {
            ChatError::Api(body) => {
                let mut m = String::from_str("API call failed: ");
                m.append(body.as_str());
                m
            },
            ChatError::Transport(d) => d.clone(),
            ChatError::Storage(d) => d.clone(),
        }
    }
}

/// Whether a status code reports success.
pub open spec fn is_success_status(status: u16) -> bool {
    200 <= status && status <= 299
}

/// The body of an answer when its status reports success, else the failure
/// that carries the body.
pub fn check_status(status: u16, body: String) -> (r: Result<String, ChatError>)
    ensures
        is_success_status(status) ==> r == Ok::<String, ChatError>(body),
        !is_success_status(status) ==> r == Err::<String, ChatError>(ChatError::Api(body)),
{
    if 200 <= status && status <= 299 {
        Ok(body)
    } else {
        Err(ChatError::Api(body))
    }
}

} // verus!
