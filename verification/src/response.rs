//! The envelope in which every handler answers.

use vstd::prelude::*;
use vstd::string::StringExecFns;

verus! {

/// The HTTP status of a reply.
#[derive(Clone, Copy, Debug, PartialEq, Eq, Structural)]
pub enum Status {
    Success,
    BadRequest,
    Unauthorized,
    NotFound,
    InternalServerError,
}

impl Status {
    pub open spec fn code_spec(self) -> u16 {
        match self {
            Status::Success => 200,
            Status::BadRequest => 400,
            Status::Unauthorized => 401,
            Status::NotFound => 404,
            Status::InternalServerError => 500,
        }
    }

    /// The numeric status code.
    pub fn code(&self) -> (c: u16)
        ensures
            c == self.code_spec(),
    {
        match self {
            Status::Success => 200,
            Status::BadRequest => 400,
            Status::Unauthorized => 401,
            Status::NotFound => 404,
            Status::InternalServerError => 500,
        }
    }
}

/// The body of a reply: a success with or without a payload, or a failure with
/// its message.
#[derive(Debug, PartialEq, Eq)]
pub enum Body<T> {
    /// `success: true` with a payload and an optional message.
    Data { message: Option<String>, data: T },
    /// `success: true` without a payload.
    Done { message: Option<String> },
    /// `success: false` with the error's text.
    Error { error: String },
}

/// A handler's answer: the status and the envelope.
#[derive(Debug, PartialEq, Eq)]
pub struct Reply<T> {
    pub status: Status,
    pub body: Body<T>,
}

/// An optional text has the given content.
pub open spec fn text_is(text: Option<String>, content: Option<Seq<char>>) -> bool {
    match (text, content) {
        (Some(t), Some(c)) => t@ == c,
        (None, None) => true,
        _ => false,
    }
}

impl<T> Reply<T> {
    /// The reply is a success (status 200) carrying `data` and the message `message`.
    pub open spec fn is_data(self, message: Option<Seq<char>>, data: T) -> bool {
        &&& self.status == Status::Success
        &&& self.body matches Body::Data { message: m, data: d }
        &&& text_is(m, message)
        &&& d == data
    }

    /// The reply is a success (status 200) that carries a payload and the
    /// message `message`.
    pub open spec fn has_data(self, message: Option<Seq<char>>) -> bool {
        &&& self.status == Status::Success
        &&& self.body matches Body::Data { message: m, data: _ }
        &&& text_is(m, message)
    }

    /// The payload of a reply that carries one.
    pub open spec fn payload(self) -> T
        recommends
            self.body is Data,
    {
        self.body->data
    }

    /// The reply is a success (status 200) without a payload.
    pub open spec fn is_done(self, message: Option<Seq<char>>) -> bool {
        &&& self.status == Status::Success
        &&& self.body matches Body::Done { message: m }
        &&& text_is(m, message)
    }

    /// The reply is a failure with the given status and error text.
    pub open spec fn is_error(self, status: Status, error: Seq<char>) -> bool {
        &&& self.status == status
        &&& status != Status::Success
        &&& self.body matches Body::Error { error: e }
        &&& e@ == error
    }

    /// Whether the envelope's success flag is set.
    pub open spec fn success_spec(self) -> bool {
        !(self.body is Error)
    }

    pub fn success(&self) -> (b: bool)
        ensures
            b == self.success_spec(),
    {
        match &self.body {
            Body::Error { .. } => false,
            _ => true,
        }
    }

    /// A success with a payload and no message.
    pub fn data(data: T) -> (r: Reply<T>)
        ensures
            r.is_data(None, data),
    {
        Reply { status: Status::Success, body: Body::Data { message: None, data } }
    }

    /// A success with a payload and a message.
    pub fn data_with(message: &str, data: T) -> (r: Reply<T>)
        ensures
            r.is_data(Some(message@), data),
    {
        Reply {
            status: Status::Success,
            body: Body::Data { message: Some(String::from_str(message)), data },
        }
    }

    /// A success without a payload and without a message.
    pub fn done() -> (r: Reply<T>)
        ensures
            r.is_done(None),
    {
        Reply { status: Status::Success, body: Body::Done { message: None } }
    }

    /// A success without a payload, with a message.
    pub fn done_with(message: &str) -> (r: Reply<T>)
        ensures
            r.is_done(Some(message@)),
    {
        Reply { status: Status::Success, body: Body::Done { message: Some(String::from_str(message)) } }
    }

    /// A failure with status 400.
    pub fn bad_request(error: String) -> (r: Reply<T>)
        ensures
            r.is_error(Status::BadRequest, error@),
    {
        Reply { status: Status::BadRequest, body: Body::Error { error } }
    }

    /// A failure with status 401.
    pub fn unauthorized(error: &str) -> (r: Reply<T>)
        ensures
            r.is_error(Status::Unauthorized, error@),
    {
        Reply { status: Status::Unauthorized, body: Body::Error { error: String::from_str(error) } }
    }

    /// A failure with status 404.
    pub fn not_found(error: &str) -> (r: Reply<T>)
        ensures
            r.is_error(Status::NotFound, error@),
    {
        Reply { status: Status::NotFound, body: Body::Error { error: String::from_str(error) } }
    }

    /// A failure with status 500.
    pub fn server_error(error: String) -> (r: Reply<T>)
        ensures
            r.is_error(Status::InternalServerError, error@),
    {
        Reply { status: Status::InternalServerError, body: Body::Error { error } }
    }
}

} // verus!
