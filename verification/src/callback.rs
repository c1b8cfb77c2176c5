//! Posting results to the callback of a session.

use crate::basic_auth::{
    header_fits, header_of, reads_back, the_header_is_the_encoded_text, BasicAuthentication,
    Credentials,
};
use crate::encoding::base64_of;
use crate::error::HttpError;
use crate::message::{copy_text, seen, SendToCallback, SendToCallbackView};
use vstd::prelude::*;
use vstd::utf8::encode_utf8;

verus! {

/// A parsed callback address.
#[derive(PartialEq, Eq, Debug)]
pub struct CallbackUrl {
    /// The whole address.
    pub href: String,
    /// The user name in it, percent-encoded; empty if there is none.
    pub username: String,
    /// The password in it, percent-encoded.
    pub password: Option<String>,
}

/// What a `CallbackUrl` stands for.
pub struct CallbackUrlView {
    pub href: Seq<char>,
    pub username: Seq<char>,
    pub password: Option<Seq<char>>,
}

impl View for CallbackUrl {
    type V = CallbackUrlView;

    open spec fn view(&self) -> CallbackUrlView {
        CallbackUrlView {
            href: self.href@,
            username: self.username@,
            password: seen(self.password),
        }
    }
}

/// What `url::Url::parse` makes of the text: the serialization of the address,
/// its user name and its password.
pub uninterp spec fn parsed_url(text: Seq<char>) -> Option<
    (Seq<char>, Seq<char>, Option<Seq<char>>),
>;

/// The callback address that a text stands for.
pub open spec fn callback_of(text: Seq<char>) -> Option<CallbackUrlView> {
    match parsed_url(text) {
        Some((href, username, password)) => Some(CallbackUrlView { href, username, password }),
        None => None,
    }
}

/// `url::Url::parse`, with the result taken by `as_str`, `username` and
/// `password`. Claimed of it: whether the text is an absolute address, and if
/// so these parts of it, depend on the text alone.
#[verifier::external_body]
fn url_parse(text: &str) -> (url: Option<CallbackUrl>)
    ensures
        match url {
            Some(u) => parsed_url(text@) == Some((u.href@, u.username@, seen(u.password))),
            None => parsed_url(text@) is None,
        },
{
    match url::Url::parse(text) {
        Ok(u) => Some(
            CallbackUrl {
                href: u.as_str().to_string(),
                username: u.username().to_string(),
                password: u.password().map(String::from),
            },
        ),
        Err(_) => None,
    }
}

impl CallbackUrl {
    /// Parses an absolute address.
    pub fn parse(text: &str) -> (url: Option<CallbackUrl>)
        ensures
            seen(url) == callback_of(text@),
            match url {
                Some(u) => parsed_url(text@) == Some((u.href@, u.username@, seen(u.password))),
                None => parsed_url(text@) is None,
            },
    {
        url_parse(text)
    }
}

impl Clone for CallbackUrl {
    fn clone(&self) -> (copy: Self)
        ensures
            copy@ == self@,
    {
        CallbackUrl {
            href: self.href.clone(),
            username: self.username.clone(),
            password: copy_text(&self.password),
        }
    }
}

/// The credentials in an address: there are some if the user name is not empty
/// and there is a password.
pub open spec fn url_credentials(url: CallbackUrlView) -> Option<Credentials> {
    match url.password {
        Some(password) if url.username.len() > 0 => Some(
            Credentials { username: url.username, password },
        ),
        _ => None,
    }
}

/// The seconds after which a request is given up.
pub const CALLBACK_TIMEOUT_SECS: u64 = 600;

/// A request to a callback, by the method POST.
#[derive(PartialEq, Eq, Debug)]
pub struct CallbackRequest {
    pub url: String,
    /// The value of the `Authorization` header, if there is to be one.
    pub authorization: Option<String>,
    /// The seconds after which the request is given up.
    pub timeout_secs: u64,
    pub body: Vec<u8>,
}

/// What a `CallbackRequest` stands for.
pub struct CallbackRequestView {
    pub url: Seq<char>,
    pub authorization: Option<Seq<char>>,
    pub timeout_secs: u64,
    pub body: Seq<u8>,
}

impl View for CallbackRequest {
    type V = CallbackRequestView;

    open spec fn view(&self) -> CallbackRequestView {
        CallbackRequestView {
            url: self.url@,
            authorization: seen(self.authorization),
            timeout_secs: self.timeout_secs,
            body: self.body@,
        }
    }
}

/// The request that posts `body` to `url`.
pub open spec fn request_for(
    url: CallbackUrlView,
    authorization: Option<Seq<char>>,
    body: Seq<u8>,
) -> CallbackRequestView {
    CallbackRequestView {
        url: url.href,
        authorization,
        timeout_secs: CALLBACK_TIMEOUT_SECS,
        body,
    }
}

/// The `Authorization` header for an address.
pub open spec fn url_authorization(url: CallbackUrlView) -> Option<Seq<char>> {
    match url_credentials(url) {
        Some(c) => Some(header_of(c)),
        None => None,
    }
}

/// The request that sends a result to a callback. If the address has a user
/// name and a password, they make an authorization header, from which they can
/// be read back.
pub fn send_to_callback(callback_url: CallbackUrl, response_body: Vec<u8>) -> (request:
    CallbackRequest)
    requires
        url_credentials(callback_url@) matches Some(c) ==> header_fits(c),
    ensures
        request@ == request_for(
            callback_url@,
            url_authorization(callback_url@),
            response_body@,
        ),
        request.url == callback_url.href,
        request.timeout_secs == 600,
        request.body == response_body,
        url_credentials(callback_url@) matches Some(c) ==> reads_back(c),
{
    let authorization = match &callback_url.password {
        Some(password) if !callback_url.username.as_str().is_empty() => {
            let auth = BasicAuthentication::from(
                (callback_url.username.as_str(), password.as_str()),
            );
            Some(auth.to_string())
        },
        _ => None,
    };
    callback_request(callback_url, authorization, response_body)
}

/// The request that posts a result, with the given authorization header.
pub fn callback_request(
    callback_url: CallbackUrl,
    authorization: Option<String>,
    response_body: Vec<u8>,
) -> (request: CallbackRequest)
    ensures
        request@ == request_for(callback_url@, seen(authorization), response_body@),
        request.url == callback_url.href,
        request.authorization == authorization,
        request.timeout_secs == 600,
        request.body == response_body,
{
    CallbackRequest {
        url: callback_url.href,
        authorization,
        timeout_secs: CALLBACK_TIMEOUT_SECS,
        body: response_body,
    }
}

/// How a request to a callback ended.
#[derive(Clone, Copy, PartialEq, Eq, Structural, Debug)]
pub enum CallbackOutcome {
    /// The request could not be built.
    BodyRejected,
    /// The request could not be sent, or was not answered in time.
    SendFailed,
    /// The callback answered, whatever the status.
    Answered,
}

/// What an attempt to send a result comes to.
pub fn callback_result(outcome: CallbackOutcome) -> (result: Result<(), HttpError>)
    ensures
        result == match outcome {
            CallbackOutcome::BodyRejected => Err(HttpError::CallbackBody),
            CallbackOutcome::SendFailed => Err(HttpError::CallbackSend),
            CallbackOutcome::Answered => Ok(()),
        },
{
    match outcome {
        CallbackOutcome::BodyRejected => Err(HttpError::CallbackBody),
        CallbackOutcome::SendFailed => Err(HttpError::CallbackSend),
        CallbackOutcome::Answered => Ok(()),
    }
}

/// Takes results from sessions and sends them to their callbacks.
pub struct Sender;

/// The request that a result is sent with.
pub open spec fn request_of(message: SendToCallbackView) -> CallbackRequestView {
    request_for(
        message.callback_url,
        url_authorization(message.callback_url),
        message.body,
    )
}

impl Sender {
    /// The request that sends a result.
    pub fn handle(&self, message: SendToCallback) -> (request: CallbackRequest)
        requires
            url_credentials(message.callback_url@) matches Some(c) ==> header_fits(c),
        ensures
            request@ == request_of(message@),
            request.url == message.callback_url.href,
            request.timeout_secs == 600,
            request.body == message.body,
            url_credentials(message.callback_url@) matches Some(c) ==> reads_back(c),
    {
        send_to_callback(message.callback_url, message.body)
    }
}

/// The request for a result goes to the whole address, carries the result as it
/// is and is given up after ten minutes. Where the address has a user name that
/// is not empty and a password, the authorization is the scheme and a space,
/// then the base64 of user name, colon and password; otherwise there is none.
pub proof fn requests_carry_the_credentials_of_the_address(message: SendToCallbackView)
    ensures
        ({
            let request = request_of(message);
            let url = message.callback_url;
            &&& request.url == url.href
            &&& request.body == message.body
            &&& request.timeout_secs == 600
            &&& url.username.len() > 0 && url.password is Some ==> request.authorization == Some(
                "Basic "@ + base64_of(encode_utf8(url.username + ":"@ + url.password->0)),
            )
            &&& url.username.len() == 0 || url.password is None ==> request.authorization is None
        }),
{
    let url = message.callback_url;
    if url.username.len() > 0 && url.password is Some {
        the_header_is_the_encoded_text(
            Credentials { username: url.username, password: url.password->0 },
        );
    }
}

/// A request with a given header differs from that of the address in the header
/// alone.
pub proof fn requests_differ_in_the_header_alone(
    url: CallbackUrlView,
    authorization: Option<Seq<char>>,
    body: Seq<u8>,
)
    ensures
        request_for(url, authorization, body).authorization == authorization,
        request_for(url, authorization, body).url == url.href,
        request_for(url, authorization, body).body == body,
        request_for(url, authorization, body).timeout_secs == 600,
        request_for(url, url_authorization(url), body) == request_of(
            SendToCallbackView { callback_url: url, body },
        ),
{
}

/// An address has credentials exactly if its user name is not empty and it has
/// a password, and they are these two as they stand in it. Only a header that
/// does not fit in memory keeps a request from being made.
pub proof fn credentials_are_those_of_the_address(url: CallbackUrlView)
    ensures
        url_credentials(url) is Some <==> url.username.len() > 0 && url.password is Some,
        url_credentials(url) matches Some(c) ==> {
            &&& c.username == url.username
            &&& Some(c.password) == url.password
            &&& header_fits(c) <==> (encode_utf8(url.username + ":"@ + url.password->0).len() + 2)
                / 3 * 4 <= isize::MAX
        },
{
    if url_credentials(url) is Some {
        the_header_is_the_encoded_text(url_credentials(url)->0);
    }
}

/// A text is a callback address exactly if it can be parsed, and the parts of
/// the address are those that were parsed.
pub proof fn addresses_keep_their_parts(text: Seq<char>)
    ensures
        callback_of(text) is Some <==> parsed_url(text) is Some,
        callback_of(text) matches Some(url) ==> parsed_url(text) == Some(
            (url.href, url.username, url.password),
        ),
{
}

/// Addresses and requests are seen by all their fields.
pub proof fn addresses_and_requests_are_seen_whole(url: CallbackUrl, request: CallbackRequest)
    ensures
        url@.href == url.href@,
        url@.username == url.username@,
        url.password matches Some(password) ==> url@.password == Some(password@),
        url.password is None ==> url@.password is None,
        request@.url == request.url@,
        request.authorization matches Some(header) ==> request@.authorization == Some(header@),
        request.authorization is None ==> request@.authorization is None,
        request@.timeout_secs == request.timeout_secs,
        request@.body == request.body@,
{
}

} // verus!
