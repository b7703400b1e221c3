//! One error type for every way a command can fail.
use vstd::prelude::*;
use vstd::string::to_string_from_display_ensures;
use crate::codec::DecodeError;
use crate::response::{message_of, outcome_of, Response};

verus! {

#[derive(Debug)]
pub enum ClientError {
    /// The server answered with a code other than success.
    ResponseError { code: String, message: String },
    /// The request could not be sent, or its answer could not be read.
    HTTPError(reqwest::Error),
    /// The credential file could not be read or written.
    IO(std::io::Error),
    /// No credential is stored: the user has to log in first.
    UnAuth,
    /// The server reported success but left out data the client needs.
    ServiceError,
    /// The stored credential is not a valid record.
    Credential(DecodeError),
}

impl From<std::io::Error> for ClientError {
    fn from(value: std::io::Error) -> (r: ClientError) {
        ClientError::IO(value)
    }
}

impl vstd::std_specs::convert::FromSpecImpl<std::io::Error> for ClientError {
    open spec fn obeys_from_spec() -> bool {
        true
    }

    open spec fn from_spec(v: std::io::Error) -> ClientError {
        ClientError::IO(v)
    }
}

impl From<reqwest::Error> for ClientError {
    fn from(value: reqwest::Error) -> (r: ClientError) {
        ClientError::HTTPError(value)
    }
}

impl vstd::std_specs::convert::FromSpecImpl<reqwest::Error> for ClientError {
    open spec fn obeys_from_spec() -> bool {
        true
    }

    open spec fn from_spec(v: reqwest::Error) -> ClientError {
        ClientError::HTTPError(v)
    }
}

/// `e` is the rejection of a call answered with `code`: it carries the code
/// and the code's message.
pub open spec fn is_rejection(e: ClientError, code: Seq<char>) -> bool {
    match e {
        ClientError::ResponseError { code: c, message } => c@ == code && message@ == message_of(
            outcome_of(code),
        ),
        _ => false,
    }
}

impl ClientError {
    /// The rejection that a non-success envelope stands for: its code and
    /// that code's message.
    pub fn from_response<T>(resp: &Response<T>) -> (r: ClientError)
        ensures
            is_rejection(r, resp.code_view()),
    {
        ClientError::ResponseError { code: resp.code(), message: resp.message() }
    }

    /// The text shown to the user for this error.
    pub fn message(&self) -> (r: String)
        ensures
            match self {
                ClientError::ResponseError { message, .. } => r@ == message@,
                ClientError::HTTPError(e) => exists|t: String|
                    #[trigger] to_string_from_display_ensures::<reqwest::Error>(e, t) && r@
                        == "HTTP request error:"@ + t@,
                ClientError::IO(e) => exists|t: String|
                    #[trigger] to_string_from_display_ensures::<std::io::Error>(e, t) && r@
                        == "io error: "@ + t@,
                ClientError::UnAuth => r@ == "You must login first.\n"@,
                ClientError::ServiceError => r@
                    == "The api response is OK, but the response header lacks necessary data."@,
                ClientError::Credential(_) => r@
                    == "The stored credential is unreadable. Please login again."@,
            },
    {
        match self {
            ClientError::ResponseError { message, .. } => message.clone(),
            ClientError::HTTPError(e) => {
                let t = e.to_string();
                let mut r = "HTTP request error:".to_owned();
                r.append(t.as_str());
                r
            },
            ClientError::IO(e) => {
                let t = e.to_string();
                let mut r = "io error: ".to_owned();
                r.append(t.as_str());
                r
            },
            ClientError::UnAuth => "You must login first.\n".to_owned(),
            ClientError::ServiceError => "The api response is OK, but the response header lacks necessary data.".to_owned(),
            ClientError::Credential(_) => "The stored credential is unreadable. Please login again.".to_owned(),
        }
    }
}

} // verus!
