//! The `{code, data}` envelope that every API call returns, and the closed
//! set of application codes it may carry.
use vstd::prelude::*;

verus! {

/// What an application code says about the call that returned it.
#[derive(Debug, Clone, Copy, PartialEq, Eq, Structural)]
pub enum Outcome {
    Success,
    Unimplemented,
    Unauthorised,
    InternalServiceError,
    InvalidParameters,
    InvalidAction,
    ResourceNotExist,
    /// A code outside the known set; never a success.
    Unknown,
}

/// The outcome that a code names.
pub open spec fn outcome_of(code: Seq<char>) -> Outcome {
    if code == "OK"@ {
        Outcome::Success
    } else if code == "UNIMPLEMENTED"@ {
        Outcome::Unimplemented
    } else if code == "UNAUTHORISED"@ {
        Outcome::Unauthorised
    } else if code == "INTERNAL_SERVICE_ERROR"@ {
        Outcome::InternalServiceError
    } else if code == "INVALID_PARAMETERS"@ {
        Outcome::InvalidParameters
    } else if code == "INVALID_ACTION"@ {
        Outcome::InvalidAction
    } else if code == "RESOURCE_NOT_EXIST"@ {
        Outcome::ResourceNotExist
    } else {
        Outcome::Unknown
    }
}

/// The fixed human-readable message of each outcome.
pub open spec fn message_of(o: Outcome) -> Seq<char> {
    match o {
        Outcome::Success => "OK"@,
        Outcome::Unimplemented => "This feature has not been implemented yet, and the operation is not supported."@,
        Outcome::Unauthorised => "The user is not authorized to perform this action."@,
        Outcome::InternalServiceError => "An internal system error occurred. Please try again later."@,
        Outcome::InvalidParameters => "The request contains invalid parameters."@,
        Outcome::InvalidAction => "The action is invalid or unsupported."@,
        Outcome::ResourceNotExist => "The requested resource does not exist."@,
        Outcome::Unknown => Seq::<char>::empty(),
    }
}

fn is_code(code: &String, tag: &str) -> (r: bool)
    ensures
        r == (code@ == tag@),
{
    *code == tag.to_owned()
}

/// Sorts a code into the known set.
pub fn classify(code: &String) -> (r: Outcome)
    ensures
        r == outcome_of(code@),
{
    if is_code(code, "OK") {
        Outcome::Success
    } else if is_code(code, "UNIMPLEMENTED") {
        Outcome::Unimplemented
    } else if is_code(code, "UNAUTHORISED") {
        Outcome::Unauthorised
    } else if is_code(code, "INTERNAL_SERVICE_ERROR") {
        Outcome::InternalServiceError
    } else if is_code(code, "INVALID_PARAMETERS") {
        Outcome::InvalidParameters
    } else if is_code(code, "INVALID_ACTION") {
        Outcome::InvalidAction
    } else if is_code(code, "RESOURCE_NOT_EXIST") {
        Outcome::ResourceNotExist
    } else {
        Outcome::Unknown
    }
}

/// The message of an outcome, as text.
pub fn outcome_message(o: Outcome) -> (r: String)
    ensures
        r@ == message_of(o),
{
    match o {
        Outcome::Success => "OK".to_owned(),
        Outcome::Unimplemented => "This feature has not been implemented yet, and the operation is not supported.".to_owned(),
        Outcome::Unauthorised => "The user is not authorized to perform this action.".to_owned(),
        Outcome::InternalServiceError => "An internal system error occurred. Please try again later.".to_owned(),
        Outcome::InvalidParameters => "The request contains invalid parameters.".to_owned(),
        Outcome::InvalidAction => "The action is invalid or unsupported.".to_owned(),
        Outcome::ResourceNotExist => "The requested resource does not exist.".to_owned(),
        Outcome::Unknown => String::new(),
    }
}

/// The code `OK` and no other is a success, and its message is `OK`; a code
/// outside the known set is a failure with an empty message.
pub proof fn lemma_outcomes(code: Seq<char>)
    ensures
        outcome_of(code) == Outcome::Success <==> code == "OK"@,
        outcome_of("OK"@) == Outcome::Success && message_of(Outcome::Success) == "OK"@,
        outcome_of(code) == Outcome::Unknown ==> message_of(outcome_of(code)).len() == 0,
{
}

/// A response envelope: an application code and, for calls that return
/// something, the data.
#[derive(Debug)]
pub struct Response<D> {
    code: String,
    data: Option<D>,
}

impl<D> Response<D> {
    pub closed spec fn code_view(&self) -> Seq<char> {
        self.code@
    }

    pub closed spec fn data_view(&self) -> Option<D> {
        self.data
    }

    pub fn new(code: String, data: Option<D>) -> (r: Response<D>)
        ensures
            r.code_view() == code@,
            r.data_view() == data,
    {
        Response { code, data }
    }

    /// The fixed message of this envelope's code; empty for an unknown code.
    pub fn message(&self) -> (r: String)
        ensures
            r@ == message_of(outcome_of(self.code_view())),
    {
        outcome_message(classify(&self.code))
    }

    pub fn code(&self) -> (r: String)
        ensures
            r@ == self.code_view(),
    {
        self.code.clone()
    }

    pub fn data(&self) -> (r: &Option<D>)
        ensures
            *r == self.data_view(),
    {
        &self.data
    }

    pub fn outcome(&self) -> (r: Outcome)
        ensures
            r == outcome_of(self.code_view()),
    {
        classify(&self.code)
    }

    /// Hands the data out, consuming the envelope.
    pub fn into_data(self) -> (r: Option<D>)
        ensures
            r == self.data_view(),
    {
        self.data
    }
}

} // verus!
