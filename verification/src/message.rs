//! What travels over the two websocket connections, and what is done about it.

use crate::callback::{CallbackUrl, CallbackUrlView};
use vstd::prelude::*;

verus! {

/// The view of an optional value.
pub open spec fn seen<T: View>(value: Option<T>) -> Option<T::V> {
    match value {
        Some(v) => Some(v@),
        None => None,
    }
}

/// A copy of an optional text.
pub fn copy_text(text: &Option<String>) -> (copy: Option<String>)
    ensures
        seen(copy) == seen(*text),
{
    match text {
        Some(t) => Some(t.clone()),
        None => None,
    }
}

/// Why a websocket connection is closed.
#[derive(Clone, Copy, PartialEq, Eq, Structural, Debug)]
pub enum CloseCode {
    Normal,
    Away,
    Protocol,
    Unsupported,
    Abnormal,
    Invalid,
    Policy,
    Size,
    Extension,
    Error,
    Restart,
    Again,
    Tls,
    Other(u16),
}

/// What a close message says.
#[derive(PartialEq, Eq, Debug)]
pub struct CloseReason {
    pub code: CloseCode,
    pub description: Option<String>,
}

/// What a `CloseReason` stands for.
pub struct CloseReasonView {
    pub code: CloseCode,
    pub description: Option<Seq<char>>,
}

impl View for CloseReason {
    type V = CloseReasonView;

    open spec fn view(&self) -> CloseReasonView {
        CloseReasonView { code: self.code, description: seen(self.description) }
    }
}

impl Clone for CloseReason {
    fn clone(&self) -> (copy: Self)
        ensures
            copy@ == self@,
    {
        CloseReason { code: self.code, description: copy_text(&self.description) }
    }
}

/// A copy of an optional reason.
pub fn copy_reason(reason: &Option<CloseReason>) -> (copy: Option<CloseReason>)
    ensures
        seen(copy) == seen(*reason),
{
    match reason {
        Some(r) => Some(r.clone()),
        None => None,
    }
}

/// The object that a client opens a session with.
#[derive(PartialEq, Eq, Debug)]
pub struct InitialMessage {
    /// Where the results are to be posted.
    pub callback: String,
    /// The format of the audio, or nothing for a file.
    pub content_type: String,
    /// Credentials for the recognition service.
    pub username: Option<String>,
    pub password: Option<String>,
}

/// What an `InitialMessage` stands for.
pub struct InitialMessageView {
    pub callback: Seq<char>,
    pub content_type: Seq<char>,
    pub username: Option<Seq<char>>,
    pub password: Option<Seq<char>>,
}

impl View for InitialMessage {
    type V = InitialMessageView;

    open spec fn view(&self) -> InitialMessageView {
        InitialMessageView {
            callback: self.callback@,
            content_type: self.content_type@,
            username: seen(self.username),
            password: seen(self.password),
        }
    }
}

/// A message from the client.
#[derive(PartialEq, Eq, Debug)]
pub enum ClientMessage {
    /// Text, as the object that it encodes; `None` if it encodes no such
    /// object.
    Text(Option<InitialMessage>),
    Binary(Vec<u8>),
    Ping(String),
    Pong(String),
    Close(Option<CloseReason>),
}

/// What a `ClientMessage` stands for.
pub enum ClientMessageView {
    Text(Option<InitialMessageView>),
    Binary(Seq<u8>),
    Ping(Seq<char>),
    Pong(Seq<char>),
    Close(Option<CloseReasonView>),
}

impl View for ClientMessage {
    type V = ClientMessageView;

    open spec fn view(&self) -> ClientMessageView {
        match *self {
            ClientMessage::Text(m) => ClientMessageView::Text(seen(m)),
            ClientMessage::Binary(b) => ClientMessageView::Binary(b@),
            ClientMessage::Ping(p) => ClientMessageView::Ping(p@),
            ClientMessage::Pong(p) => ClientMessageView::Pong(p@),
            ClientMessage::Close(r) => ClientMessageView::Close(seen(r)),
        }
    }
}

/// A websocket message.
#[derive(PartialEq, Eq, Debug)]
pub enum Message {
    Text(String),
    Binary(Vec<u8>),
    Ping(String),
    Pong(String),
    Close(Option<CloseReason>),
}

/// What a `Message` stands for.
pub enum MessageView {
    Text(Seq<char>),
    Binary(Seq<u8>),
    Ping(Seq<char>),
    Pong(Seq<char>),
    Close(Option<CloseReasonView>),
}

impl View for Message {
    type V = MessageView;

    open spec fn view(&self) -> MessageView {
        match *self {
            Message::Text(t) => MessageView::Text(t@),
            Message::Binary(b) => MessageView::Binary(b@),
            Message::Ping(p) => MessageView::Ping(p@),
            Message::Pong(p) => MessageView::Pong(p@),
            Message::Close(r) => MessageView::Close(seen(r)),
        }
    }
}

/// A message from the recognition service.
#[derive(PartialEq, Eq, Debug)]
pub struct FromStem(pub Message);

impl FromStem {
    /// The message itself.
    pub fn into_inner(self) -> (message: Message)
        ensures
            message == self.0,
    {
        self.0
    }
}

/// The opening handshake with the recognition service.
#[derive(PartialEq, Eq, Debug)]
pub struct StemHandshake {
    pub url: String,
    /// The value of the `Authorization` header.
    pub authorization: String,
}

/// What a `StemHandshake` stands for.
pub struct StemHandshakeView {
    pub url: Seq<char>,
    pub authorization: Seq<char>,
}

impl View for StemHandshake {
    type V = StemHandshakeView;

    open spec fn view(&self) -> StemHandshakeView {
        StemHandshakeView { url: self.url@, authorization: self.authorization@ }
    }
}

/// A result on its way to the callback of a session.
#[derive(PartialEq, Eq, Debug)]
pub struct SendToCallback {
    pub callback_url: CallbackUrl,
    pub body: Vec<u8>,
}

/// What a `SendToCallback` stands for.
pub struct SendToCallbackView {
    pub callback_url: CallbackUrlView,
    pub body: Seq<u8>,
}

impl View for SendToCallback {
    type V = SendToCallbackView;

    open spec fn view(&self) -> SendToCallbackView {
        SendToCallbackView { callback_url: self.callback_url@, body: self.body@ }
    }
}

/// What the forwarder wants done.
#[derive(PartialEq, Eq, Debug)]
pub enum Action {
    /// Send a close message to the client.
    CloseClient(Option<CloseReason>),
    /// End the session.
    Stop,
    /// Answer a ping of the client.
    PongClient(String),
    /// Connect to the recognition service, and report the outcome before any
    /// other event is handled.
    ConnectStem(StemHandshake),
    /// Start listening to the service on the connection just made.
    ListenToStem,
    /// Send audio to the service.
    BinaryToStem(Vec<u8>),
    /// Answer a ping of the service.
    PongStem(String),
    /// Send a close message to the service.
    CloseStem(Option<CloseReason>),
    /// Hand a result to the sender.
    Send(SendToCallback),
}

/// What an `Action` stands for.
pub enum ActionView {
    CloseClient(Option<CloseReasonView>),
    Stop,
    PongClient(Seq<char>),
    ConnectStem(StemHandshakeView),
    ListenToStem,
    BinaryToStem(Seq<u8>),
    PongStem(Seq<char>),
    CloseStem(Option<CloseReasonView>),
    Send(SendToCallbackView),
}

impl View for Action {
    type V = ActionView;

    open spec fn view(&self) -> ActionView {
        match *self {
            Action::CloseClient(r) => ActionView::CloseClient(seen(r)),
            Action::Stop => ActionView::Stop,
            Action::PongClient(p) => ActionView::PongClient(p@),
            Action::ConnectStem(h) => ActionView::ConnectStem(h@),
            Action::ListenToStem => ActionView::ListenToStem,
            Action::BinaryToStem(b) => ActionView::BinaryToStem(b@),
            Action::PongStem(p) => ActionView::PongStem(p@),
            Action::CloseStem(r) => ActionView::CloseStem(seen(r)),
            Action::Send(s) => ActionView::Send(s@),
        }
    }
}

/// The views of a list of actions.
pub open spec fn shown(actions: Seq<Action>) -> Seq<ActionView> {
    actions.map_values(|a: Action| a@)
}

/// Whether a stream is listened to further.
#[derive(Clone, Copy, PartialEq, Eq, Structural, Debug)]
pub enum Running {
    Stop,
    Continue,
}

/// Reasons and initial messages are seen by all their fields.
pub proof fn reasons_and_initial_messages_are_seen_whole(r: CloseReason, m: InitialMessage)
    ensures
        r@.code == r.code,
        r.description matches Some(text) ==> r@.description == Some(text@),
        r.description is None ==> r@.description is None,
        m@.callback == m.callback@,
        m@.content_type == m.content_type@,
        m.username matches Some(username) ==> m@.username == Some(username@),
        m.username is None ==> m@.username is None,
        m.password matches Some(password) ==> m@.password == Some(password@),
        m.password is None ==> m@.password is None,
{
}

/// Messages are seen as what they are and with all that they hold.
pub proof fn messages_are_seen_whole(
    m: InitialMessage,
    text: String,
    data: Vec<u8>,
    reason: CloseReason,
)
    ensures
        ClientMessage::Text(Some(m))@ == ClientMessageView::Text(Some(m@)),
        ClientMessage::Text(None)@ == ClientMessageView::Text(None),
        ClientMessage::Binary(data)@ == ClientMessageView::Binary(data@),
        ClientMessage::Ping(text)@ == ClientMessageView::Ping(text@),
        ClientMessage::Pong(text)@ == ClientMessageView::Pong(text@),
        ClientMessage::Close(Some(reason))@ == ClientMessageView::Close(Some(reason@)),
        ClientMessage::Close(None)@ == ClientMessageView::Close(None),
        Message::Text(text)@ == MessageView::Text(text@),
        Message::Binary(data)@ == MessageView::Binary(data@),
        Message::Ping(text)@ == MessageView::Ping(text@),
        Message::Pong(text)@ == MessageView::Pong(text@),
        Message::Close(Some(reason))@ == MessageView::Close(Some(reason@)),
        Message::Close(None)@ == MessageView::Close(None),
{
}

/// Actions are seen as what they are and with all that they hold.
pub proof fn actions_are_seen_whole(
    text: String,
    data: Vec<u8>,
    reason: CloseReason,
    handshake: StemHandshake,
    result: SendToCallback,
)
    ensures
        Action::CloseClient(Some(reason))@ == ActionView::CloseClient(Some(reason@)),
        Action::CloseClient(None)@ == ActionView::CloseClient(None),
        Action::Stop@ == ActionView::Stop,
        Action::PongClient(text)@ == ActionView::PongClient(text@),
        Action::ConnectStem(handshake)@ == ActionView::ConnectStem(handshake@),
        handshake@.url == handshake.url@,
        handshake@.authorization == handshake.authorization@,
        Action::ListenToStem@ == ActionView::ListenToStem,
        Action::BinaryToStem(data)@ == ActionView::BinaryToStem(data@),
        Action::PongStem(text)@ == ActionView::PongStem(text@),
        Action::CloseStem(Some(reason))@ == ActionView::CloseStem(Some(reason@)),
        Action::CloseStem(None)@ == ActionView::CloseStem(None),
        Action::Send(result)@ == ActionView::Send(result@),
        result@.callback_url == result.callback_url@,
        result@.body == result.body@,
{
}

/// A list of actions is seen action by action, in order.
pub proof fn lists_are_seen_in_order(actions: Seq<Action>)
    ensures
        shown(actions).len() == actions.len(),
        forall|i: int| 0 <= i < actions.len() ==> #[trigger] shown(actions)[i] == actions[i]@,
{
}

/// An optional value is seen as what the value stands for, or as none.
pub proof fn options_are_seen_through<T: View>(value: T)
    ensures
        seen(Some(value)) == Some(value@),
        seen(None::<T>) is None,
{
}

} // verus!
