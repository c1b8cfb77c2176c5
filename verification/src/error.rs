//! The errors that an HTTP request is answered with.

use vstd::prelude::*;

verus! {

/// What went wrong with a request.
#[derive(Clone, Copy, PartialEq, Eq, Structural, Debug)]
pub enum HttpError {
    /// The content type of the audio is not supported.
    ContentType,
    /// The request to a callback could not be given its body.
    CallbackBody,
    /// The request to a callback could not be sent, or was not answered.
    CallbackSend,
}

/// The status code of an error.
pub open spec fn status_of(e: HttpError) -> u16 {
    match e {
        HttpError::ContentType => 400,
        HttpError::CallbackBody => 500,
        HttpError::CallbackSend => 500,
    }
}

/// What an error says.
pub open spec fn message_of(e: HttpError) -> Seq<char> {
    match e {
        HttpError::ContentType => "Failed to parse content-type."@,
        HttpError::CallbackBody => "Failed to set callback request body."@,
        HttpError::CallbackSend => "Failed to sent callback request."@,
    }
}

impl HttpError {
    /// The status code: 400 where the client is at fault, 500 otherwise.
    pub fn status(&self) -> (code: u16)
        ensures
            code == status_of(*self),
            code == 400 <==> *self == HttpError::ContentType,
            code == 500 <==> *self != HttpError::ContentType,
    {
        match *self {
            HttpError::ContentType => 400,
            HttpError::CallbackBody => 500,
            HttpError::CallbackSend => 500,
        }
    }

    /// What the error says.
    pub fn message(&self) -> (text: &'static str)
        ensures
            text@ == message_of(*self),
            *self == HttpError::ContentType ==> text@ == "Failed to parse content-type."@,
            *self == HttpError::CallbackBody ==> text@ == "Failed to set callback request body."@,
            *self == HttpError::CallbackSend ==> text@ == "Failed to sent callback request."@,
    {
        match *self {
            HttpError::ContentType => "Failed to parse content-type.",
            HttpError::CallbackBody => "Failed to set callback request body.",
            HttpError::CallbackSend => "Failed to sent callback request.",
        }
    }
}

/// Only a content type is the fault of the client: all other errors are those
/// of the server.
pub proof fn the_client_answers_for_the_content_type(e: HttpError)
    ensures
        status_of(e) == 400 || status_of(e) == 500,
        status_of(e) == 400 <==> e == HttpError::ContentType,
{
}

} // verus!
