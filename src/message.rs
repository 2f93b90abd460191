use vstd::prelude::*;
use crate::json::{Json, JsonValue};

verus! {

/// What a message carries: exactly one of a call, the response to a call,
/// or an error.
pub enum MessageContent {
    FunctionCall { name: String, arguments: JsonValue },
    FunctionResponse { result: JsonValue },
    Error { message: String },
}

/// A message of the protocol: its correlation id and what it carries.
pub struct Message {
    pub id: String,
    pub content: MessageContent,
}

/// The model of what a message carries.
pub enum Content {
    Call { name: Seq<char>, arguments: Json },
    Response { result: Json },
    Failure { message: Seq<char> },
}

/// The model of a message.
pub struct Envelope {
    pub id: Seq<char>,
    pub content: Content,
}

impl MessageContent {
    pub open spec fn view(&self) -> Content {
        match self {
            MessageContent::FunctionCall { name, arguments } => Content::Call {
                name: name@,
                arguments: arguments@,
            },
            MessageContent::FunctionResponse { result } => Content::Response { result: result@ },
            MessageContent::Error { message } => Content::Failure { message: message@ },
        }
    }
}

impl Message {
    pub open spec fn view(&self) -> Envelope {
        Envelope { id: self.id@, content: self.content@ }
    }

    /// A response that carries `result`.
    pub fn response(id: String, result: JsonValue) -> (r: Message)
        ensures
            r@ == (Envelope { id: id@, content: Content::Response { result: result@ } }),
    {
        Message { id, content: MessageContent::FunctionResponse { result } }
    }

    /// A response that reports `message`.
    pub fn error(id: String, message: String) -> (r: Message)
        ensures
            r@ == (Envelope { id: id@, content: Content::Failure { message: message@ } }),
    {
        Message { id, content: MessageContent::Error { message } }
    }
}

} // verus!
