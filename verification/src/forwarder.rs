//! The session of one client: a state, and what each event makes of it.

use crate::basic_auth::{
    header_fits, header_of, reads_back, the_header_is_the_encoded_text, BasicAuthentication,
    Credentials,
};
use crate::callback::{callback_of, parsed_url, CallbackUrl, CallbackUrlView};
use crate::content_type::{parse_content_type, query_string, the_query_carries_the_rate};
use crate::encoding::base64_of;
use crate::error::HttpError;
use crate::message::{
    copy_reason, seen, shown, Action, ActionView, ClientMessage, ClientMessageView, CloseCode,
    CloseReason, CloseReasonView, FromStem, InitialMessageView, Message,
    MessageView, Running, SendToCallback, SendToCallbackView, StemHandshake, StemHandshakeView,
};
use vstd::prelude::*;
use vstd::utf8::encode_utf8;

verus! {

/// The state of a session.
///
/// The callback address and the connection to the recognition service are
/// there only after the first text message of the client.
pub struct Forwarder {
    callback_url: Option<CallbackUrl>,
    connected: bool,
    stem_url: String,
    bauth: String,
}

/// What a `Forwarder` stands for.
pub struct ForwarderView {
    /// Where results are posted.
    pub callback_url: Option<CallbackUrlView>,
    /// Whether there is a connection to send to the service on.
    pub connected: bool,
    /// The address of the service, with its query strings.
    pub stem_url: Seq<char>,
    /// The authorization header for the service.
    pub bauth: Seq<char>,
}

impl View for Forwarder {
    type V = ForwarderView;

    closed spec fn view(&self) -> ForwarderView {
        ForwarderView {
            callback_url: seen(self.callback_url),
            connected: self.connected,
            stem_url: self.stem_url@,
            bauth: self.bauth@,
        }
    }
}

/// The state that a session starts in.
pub open spec fn fresh(stem_url: Seq<char>, bauth: Seq<char>) -> ForwarderView {
    ForwarderView { callback_url: None, connected: false, stem_url, bauth }
}

/// How a client is refused: the connection is closed as a protocol violation,
/// with a description, and the session ends.
pub open spec fn refusal(description: Seq<char>) -> Seq<ActionView> {
    seq![
        ActionView::CloseClient(
            Some(
                CloseReasonView { code: CloseCode::Protocol, description: Some(description) },
            ),
        ),
        ActionView::Stop,
    ]
}

/// How a close message from either side is dealt with: it is passed on to the
/// service, if connected, and to the client, and the session ends.
pub open spec fn closing(
    state: ForwarderView,
    reason: Option<CloseReasonView>,
) -> Seq<ActionView> {
    let client = seq![ActionView::CloseClient(reason), ActionView::Stop];
    if state.connected {
        seq![ActionView::CloseStem(reason)] + client
    } else {
        client
    }
}

/// Connecting to the service at the address and with the header of the state.
pub open spec fn connecting(state: ForwarderView) -> ActionView {
    ActionView::ConnectStem(
        StemHandshakeView { url: state.stem_url, authorization: state.bauth },
    )
}

/// The credentials for the service in an initial message: both parts, or none.
pub open spec fn given_credentials(message: InitialMessageView) -> Option<Credentials> {
    match (message.username, message.password) {
        (Some(username), Some(password)) => Some(Credentials { username, password }),
        _ => None,
    }
}

/// The authorization header for the service that an initial message asks for.
pub open spec fn given_authorization(message: InitialMessageView) -> Option<Seq<char>> {
    match given_credentials(message) {
        Some(c) => Some(header_of(c)),
        None => None,
    }
}

/// What an initial message makes of the state and has done, given the
/// authorization header that it asks for and the callback address in it.
///
/// A content type that is not supported is refused, but the rest of the message
/// is acted on all the same.
pub open spec fn opened(
    state: ForwarderView,
    content_type: Seq<char>,
    authorization: Option<Seq<char>>,
    callback: Option<CallbackUrlView>,
) -> (ForwarderView, Seq<ActionView>) {
    let format = query_string(content_type);
    let next = ForwarderView {
        callback_url: if callback is Some {
            callback
        } else {
            state.callback_url
        },
        stem_url: match format {
            Ok(query) => state.stem_url + query,
            Err(_) => state.stem_url,
        },
        bauth: match authorization {
            Some(header) => header,
            None => state.bauth,
        },
        ..state
    };
    let refused = if format is Err {
        refusal("Failed to parse content-type."@)
    } else {
        seq![]
    };
    let rest = if callback is Some {
        seq![connecting(next)]
    } else {
        refusal("Failed to parse callback url."@)
    };
    (next, refused + rest)
}

/// What a message of the client makes of the state and has done.
pub open spec fn client_step(
    state: ForwarderView,
    message: ClientMessageView,
) -> (ForwarderView, Seq<ActionView>) {
    match message {
        ClientMessageView::Text(None) => (
            state,
            refusal("Failed to parse websockets text as json."@),
        ),
        ClientMessageView::Text(Some(m)) => opened(
            state,
            m.content_type,
            given_authorization(m),
            callback_of(m.callback),
        ),
        ClientMessageView::Binary(data) => (
            state,
            if data.len() > 0 && state.connected {
                seq![ActionView::BinaryToStem(data)]
            } else {
                seq![]
            },
        ),
        ClientMessageView::Ping(payload) => (state, seq![ActionView::PongClient(payload)]),
        ClientMessageView::Pong(_) => (state, seq![]),
        ClientMessageView::Close(reason) => (state, closing(state, reason)),
    }
}

/// What a message of the service has done. The state stays as it is.
pub open spec fn stem_actions(state: ForwarderView, message: MessageView) -> Seq<ActionView> {
    match message {
        MessageView::Text(text) => match state.callback_url {
            Some(callback_url) => seq![
                ActionView::Send(SendToCallbackView { callback_url, body: encode_utf8(text) }),
            ],
            None => seq![],
        },
        MessageView::Binary(_) => seq![],
        MessageView::Close(reason) => closing(state, reason),
        MessageView::Ping(payload) => if state.connected {
            seq![ActionView::PongStem(payload)]
        } else {
            seq![]
        },
        MessageView::Pong(_) => seq![],
    }
}

/// What the outcome of a handshake makes of the state and has done.
pub open spec fn handshake_step(state: ForwarderView, succeeded: bool) -> (
    ForwarderView,
    Seq<ActionView>,
) {
    if succeeded {
        (ForwarderView { connected: true, ..state }, seq![ActionView::ListenToStem])
    } else {
        (state, refusal("Failed to connect to stem."@))
    }
}

/// Whether the credentials in a message, if it has any, fit in a header.
pub open spec fn message_fits(message: ClientMessageView) -> bool {
    message matches ClientMessageView::Text(Some(m)) ==> (given_credentials(m) matches Some(c)
        ==> header_fits(c))
}

/// Closes the connection to the client as a protocol violation.
fn refuse(actions: &mut Vec<Action>, description: &str)
    ensures
        shown(final(actions)@) == shown(old(actions)@) + refusal(description@),
        shown(final(actions)@) == shown(old(actions)@) + seq![
            ActionView::CloseClient(
                Some(
                    CloseReasonView { code: CloseCode::Protocol, description: Some(description@) },
                ),
            ),
            ActionView::Stop,
        ],
{
    actions.push(
        Action::CloseClient(
            Some(
                CloseReason {
                    code: CloseCode::Protocol,
                    description: Some(description.to_owned()),
                },
            ),
        ),
    );
    actions.push(Action::Stop);
    assert(shown(actions@) =~= shown(old(actions)@) + refusal(description@));
}

/// The opening handshake with the recognition service.
pub fn connect_to_stem(stem_url: String, bauth: String) -> (handshake: StemHandshake)
    ensures
        handshake@ == (StemHandshakeView { url: stem_url@, authorization: bauth@ }),
{
    StemHandshake { url: stem_url, authorization: bauth }
}

/// Connecting to the recognition service. The forwarder is told the outcome by
/// `Forwarder::stem_connected`.
pub fn connect_to_stem_act(stem_url: String, bauth: String) -> (action: Action)
    ensures
        action@ == ActionView::ConnectStem(
            StemHandshakeView { url: stem_url@, authorization: bauth@ },
        ),
{
    Action::ConnectStem(connect_to_stem(stem_url, bauth))
}

/// The longest message that a client may send, in bytes: ten mebibytes.
pub const MAX_MESSAGE_SIZE: usize = 10_485_760;

/// A session about to start.
pub struct Session {
    pub forwarder: Forwarder,
    /// The longest message that the client may send, in bytes.
    pub max_size: usize,
}

/// The session that a request of a client starts.
pub fn ws_index(stem_url: String, default_bauth: String) -> (result: Result<Session, HttpError>)
    ensures
        result matches Ok(session) && session.forwarder@ == fresh(stem_url@, default_bauth@)
            && session.max_size == 10 * 1024 * 1024,
        result matches Ok(session) && session.forwarder@ == (ForwarderView {
            callback_url: None,
            connected: false,
            stem_url: stem_url@,
            bauth: default_bauth@,
        }),
{
    match Forwarder::with_request(stem_url, default_bauth) {
        Ok(forwarder) => Ok(Session { forwarder, max_size: MAX_MESSAGE_SIZE }),
        Err(e) => Err(e),
    }
}

impl Forwarder {
    /// The state of a new session with the recognition service at `stem_url`,
    /// and the header to use unless the client brings credentials.
    pub fn with_request(stem_url: String, default_bauth: String) -> (result: Result<
        Self,
        HttpError,
    >)
        ensures
            result matches Ok(forwarder) && forwarder@ == fresh(stem_url@, default_bauth@),
            result matches Ok(forwarder) && forwarder@ == (ForwarderView {
                callback_url: None,
                connected: false,
                stem_url: stem_url@,
                bauth: default_bauth@,
            }),
    {
        Ok(Forwarder { callback_url: None, connected: false, stem_url, bauth: default_bauth })
    }

    /// Handles a message of the client. Credentials in it can be read back from
    /// the header that the service is sent.
    pub fn handle_client(&mut self, message: ClientMessage) -> (actions: Vec<Action>)
        requires
            message_fits(message@),
        ensures
            (final(self)@, shown(actions@)) == client_step(old(self)@, message@),
            message@ matches ClientMessageView::Text(Some(m)) ==> (
                given_credentials(m) matches Some(c) ==> reads_back(c)
            ),
    {
        let mut actions: Vec<Action> = Vec::new();
        match message {
            ClientMessage::Text(Some(initial)) => {
                let authorization = match (initial.username, initial.password) {
                    (Some(username), Some(password)) => Some(
                        BasicAuthentication::from((username, password)).to_string(),
                    ),
                    _ => None,
                };
                let callback = CallbackUrl::parse(initial.callback.as_str());
                return self.open(initial.content_type, authorization, callback);
            },
            ClientMessage::Text(None) => {
                refuse(&mut actions, "Failed to parse websockets text as json.");
            },
            ClientMessage::Binary(data) => {
                if data.len() > 0 && self.connected {
                    actions.push(Action::BinaryToStem(data));
                }
            },
            ClientMessage::Ping(payload) => {
                actions.push(Action::PongClient(payload));
            },
            ClientMessage::Pong(_) => {},
            ClientMessage::Close(reason) => {
                return self.close(reason);
            },
        }
        assert(shown(actions@) =~= client_step(old(self)@, message@).1);
        actions
    }

    /// Acts on an initial message, given the authorization header that it asks
    /// for and the callback address in it.
    pub fn open(
        &mut self,
        content_type: String,
        authorization: Option<String>,
        callback: Option<CallbackUrl>,
    ) -> (actions: Vec<Action>)
        ensures
            (final(self)@, shown(actions@)) == opened(
                old(self)@,
                content_type@,
                seen(authorization),
                seen(callback),
            ),
    {
        let mut actions: Vec<Action> = Vec::new();
        match parse_content_type(content_type) {
            Ok(query) => {
                self.stem_url.append(query.as_str());
            },
            Err(_) => {
                refuse(&mut actions, "Failed to parse content-type.");
            },
        }
        if let Some(header) = authorization {
            self.bauth = header;
        }
        let ghost refused = shown(actions@);
        match callback {
            Some(url) => {
                self.callback_url = Some(url);
                actions.push(connect_to_stem_act(self.stem_url.clone(), self.bauth.clone()));
                assert(shown(actions@) =~= refused + seq![connecting(self@)]);
            },
            None => {
                refuse(&mut actions, "Failed to parse callback url.");
            },
        }
        actions
    }

    /// Passes a close message on to both sides and ends the session.
    fn close(&self, reason: Option<CloseReason>) -> (actions: Vec<Action>)
        ensures
            shown(actions@) == closing(self@, seen(reason)),
            self@.connected ==> shown(actions@) == seq![
                ActionView::CloseStem(seen(reason)),
                ActionView::CloseClient(seen(reason)),
                ActionView::Stop,
            ],
            !self@.connected ==> shown(actions@) == seq![
                ActionView::CloseClient(seen(reason)),
                ActionView::Stop,
            ],
    {
        let mut actions: Vec<Action> = Vec::new();
        if self.connected {
            actions.push(Action::CloseStem(copy_reason(&reason)));
        }
        actions.push(Action::CloseClient(reason));
        actions.push(Action::Stop);
        assert(shown(actions@) =~= closing(self@, seen(reason)));
        actions
    }

    /// Handles an error on the connection to the client: it is not listened to
    /// further.
    pub fn client_error(&self) -> (running: Running)
        ensures
            running == Running::Stop,
    {
        Running::Stop
    }

    /// Handles the end of the messages of the client: the session ends.
    pub fn client_finished(&self) -> (actions: Vec<Action>)
        ensures
            shown(actions@) == seq![ActionView::Stop],
    {
        let mut actions: Vec<Action> = Vec::new();
        actions.push(Action::Stop);
        assert(shown(actions@) =~= seq![ActionView::Stop]);
        actions
    }

    /// Handles a message of the recognition service.
    pub fn handle_stem(&self, message: FromStem) -> (actions: Vec<Action>)
        ensures
            shown(actions@) == stem_actions(self@, message.0@),
    {
        let mut actions: Vec<Action> = Vec::new();
        match message.into_inner() {
            Message::Text(text) => {
                if let Some(url) = &self.callback_url {
                    actions.push(
                        Action::Send(
                            SendToCallback {
                                callback_url: url.clone(),
                                body: text.as_str().as_bytes_vec(),
                            },
                        ),
                    );
                }
            },
            Message::Binary(_) => {},
            Message::Close(reason) => {
                return self.close(reason);
            },
            Message::Ping(payload) => {
                if self.connected {
                    actions.push(Action::PongStem(payload));
                }
            },
            Message::Pong(_) => {},
        }
        assert(shown(actions@) =~= stem_actions(self@, message.0@));
        actions
    }

    /// Handles an error on the connection to the recognition service: a new one
    /// is tried, and the old one is not listened to further.
    pub fn stem_error(&self) -> (result: (Vec<Action>, Running))
        ensures
            shown(result.0@) == seq![connecting(self@)],
            shown(result.0@) == seq![
                ActionView::ConnectStem(
                    StemHandshakeView { url: self@.stem_url, authorization: self@.bauth },
                ),
            ],
            result.1 == Running::Stop,
    {
        let mut actions: Vec<Action> = Vec::new();
        actions.push(connect_to_stem_act(self.stem_url.clone(), self.bauth.clone()));
        assert(shown(actions@) =~= seq![connecting(self@)]);
        (actions, Running::Stop)
    }

    /// Handles the outcome of a handshake with the recognition service.
    pub fn stem_connected(&mut self, succeeded: bool) -> (actions: Vec<Action>)
        ensures
            (final(self)@, shown(actions@)) == handshake_step(old(self)@, succeeded),
    {
        let mut actions: Vec<Action> = Vec::new();
        if succeeded {
            self.connected = true;
            actions.push(Action::ListenToStem);
        } else {
            refuse(&mut actions, "Failed to connect to stem.");
        }
        assert(shown(actions@) =~= handshake_step(old(self)@, succeeded).1);
        actions
    }

    /// Handles a request to end the session: it is granted.
    pub fn stopping(&self) -> (running: Running)
        ensures
            running == Running::Stop,
    {
        Running::Stop
    }
}

/// A session starts at the given address and with the given header, without a
/// callback address and without a connection.
pub proof fn sessions_start_unconnected(stem_url: Seq<char>, bauth: Seq<char>)
    ensures
        fresh(stem_url, bauth).callback_url is None,
        !fresh(stem_url, bauth).connected,
        fresh(stem_url, bauth).stem_url == stem_url,
        fresh(stem_url, bauth).bauth == bauth,
{
}

/// What an initial message does, whatever header it asks for: a given header and
/// a callback address replace those that were there, the query string goes
/// behind the address, and the connection stays. A handshake is made exactly if
/// there is a callback address; each part that cannot be parsed has the client
/// refused with words of its own.
pub proof fn each_part_of_a_message_is_acted_on(
    state: ForwarderView,
    content_type: Seq<char>,
    authorization: Option<Seq<char>>,
    callback: Option<CallbackUrlView>,
)
    ensures
        ({
            let (next, actions) = opened(state, content_type, authorization, callback);
            let query = query_string(content_type);
            let bad_format = ActionView::CloseClient(
                Some(
                    CloseReasonView {
                        code: CloseCode::Protocol,
                        description: Some("Failed to parse content-type."@),
                    },
                ),
            );
            let bad_callback = ActionView::CloseClient(
                Some(
                    CloseReasonView {
                        code: CloseCode::Protocol,
                        description: Some("Failed to parse callback url."@),
                    },
                ),
            );
            let handshake = ActionView::ConnectStem(
                StemHandshakeView { url: next.stem_url, authorization: next.bauth },
            );
            &&& next.connected == state.connected
            &&& callback is Some ==> next.callback_url == callback
            &&& callback is None ==> next.callback_url == state.callback_url
            &&& query is Ok ==> next.stem_url == state.stem_url + query->Ok_0
            &&& query is Err ==> next.stem_url == state.stem_url
            &&& authorization is Some ==> next.bauth == authorization->0
            &&& authorization is None ==> next.bauth == state.bauth
            &&& query is Ok && callback is Some ==> actions == seq![handshake]
            &&& query is Ok && callback is None ==> actions == seq![bad_callback, ActionView::Stop]
            &&& query is Err && callback is Some ==> actions == seq![
                bad_format,
                ActionView::Stop,
                handshake,
            ]
            &&& query is Err && callback is None ==> actions == seq![
                bad_format,
                ActionView::Stop,
                bad_callback,
                ActionView::Stop,
            ]
        }),
{
    let (next, actions) = opened(state, content_type, authorization, callback);
    if query_string(content_type) is Ok {
        if callback is Some {
            assert(actions =~= seq![actions[0]]);
        } else {
            assert(actions =~= seq![actions[0], actions[1]]);
        }
    } else {
        if callback is Some {
            assert(actions =~= seq![actions[0], actions[1], actions[2]]);
        } else {
            assert(actions =~= seq![actions[0], actions[1], actions[2], actions[3]]);
        }
    }
}

/// A user name and a password in an initial message make the header from then
/// on: the scheme and a space, then the base64 of user name, colon and password,
/// whatever else the message says. The handshake that the message has made
/// carries it.
pub proof fn given_credentials_make_the_header(
    state: ForwarderView,
    m: InitialMessageView,
    username: Seq<char>,
    password: Seq<char>,
)
    requires
        m.username == Some(username),
        m.password == Some(password),
    ensures
        ({
            let (next, actions) = client_step(state, ClientMessageView::Text(Some(m)));
            let header = "Basic "@ + base64_of(encode_utf8(username + ":"@ + password));
            &&& next.bauth == header
            &&& forall|i: int|
                0 <= i < actions.len() && actions[i] is ConnectStem ==> #[trigger] actions[i]
                    == ActionView::ConnectStem(
                    StemHandshakeView { url: next.stem_url, authorization: header },
                )
        }),
{
    the_header_is_the_encoded_text(Credentials { username, password });
}

/// Where an initial message lacks the user name or the password, the header is
/// the one from before, and the handshake that the message has made carries it.
pub proof fn half_credentials_leave_the_header(state: ForwarderView, m: InitialMessageView)
    requires
        m.username is None || m.password is None,
    ensures
        ({
            let (next, actions) = client_step(state, ClientMessageView::Text(Some(m)));
            &&& next.bauth == state.bauth
            &&& forall|i: int|
                0 <= i < actions.len() && actions[i] is ConnectStem ==> #[trigger] actions[i]
                    == ActionView::ConnectStem(
                    StemHandshakeView { url: next.stem_url, authorization: state.bauth },
                )
        }),
{
}

/// The query string of an initial message goes behind the address. Its callback
/// address becomes that of the session, in all its parts, and one handshake is
/// made, last of all; a text that is no address leaves the session with the one
/// it had, and has the client refused. A content type that is not supported has
/// the client refused first, and the rest is done all the same.
pub proof fn the_callback_decides_on_the_handshake(state: ForwarderView, m: InitialMessageView)
    ensures
        ({
            let (next, actions) = client_step(state, ClientMessageView::Text(Some(m)));
            let query = query_string(m.content_type);
            let before = if query is Ok {
                0
            } else {
                2int
            };
            &&& next.connected == state.connected
            &&& query is Ok ==> next.stem_url == state.stem_url + query->Ok_0
            &&& query is Err ==> {
                &&& next.stem_url == state.stem_url
                &&& actions[0] == ActionView::CloseClient(
                    Some(
                        CloseReasonView {
                            code: CloseCode::Protocol,
                            description: Some("Failed to parse content-type."@),
                        },
                    ),
                )
                &&& actions[1] == ActionView::Stop
            }
            &&& parsed_url(m.callback) matches Some((href, username, password)) ==> {
                &&& next.callback_url == Some(CallbackUrlView { href, username, password })
                &&& actions.len() == before + 1
                &&& actions[before] == ActionView::ConnectStem(
                    StemHandshakeView { url: next.stem_url, authorization: next.bauth },
                )
            }
            &&& parsed_url(m.callback) is None ==> {
                &&& next.callback_url == state.callback_url
                &&& actions.len() == before + 2
                &&& actions[before] == ActionView::CloseClient(
                    Some(
                        CloseReasonView {
                            code: CloseCode::Protocol,
                            description: Some("Failed to parse callback url."@),
                        },
                    ),
                )
                &&& actions[before + 1] == ActionView::Stop
            }
        }),
{
}

/// The address after an initial message with the content type
/// `kind/l16;name=rate` is the one before, the encoding, the rate and the one
/// channel.
pub proof fn the_rate_goes_behind_the_address(
    state: ForwarderView,
    m: InitialMessageView,
    kind: Seq<char>,
    name: Seq<char>,
    rate: Seq<char>,
)
    requires
        m.content_type == kind + "/l16;"@ + name + "="@ + rate,
        !kind.contains('/') && !kind.contains(';'),
        !name.contains('=') && !name.contains(';'),
        !rate.contains('=') && !rate.contains(';'),
    ensures
        client_step(state, ClientMessageView::Text(Some(m))).0.stem_url == state.stem_url
            + "?encoding=linear16&sample_rate="@ + rate + "&channels=1"@,
{
    the_query_carries_the_rate(kind, name, rate);
    assert(state.stem_url + ("?encoding=linear16&sample_rate="@ + rate + "&channels=1"@)
        =~= state.stem_url + "?encoding=linear16&sample_rate="@ + rate + "&channels=1"@);
}

/// Text that is no initial message has the client refused, and changes nothing.
pub proof fn other_text_is_refused(state: ForwarderView)
    ensures
        client_step(state, ClientMessageView::Text(None)) == (
            state,
            seq![
                ActionView::CloseClient(
                    Some(
                        CloseReasonView {
                            code: CloseCode::Protocol,
                            description: Some("Failed to parse websockets text as json."@),
                        },
                    ),
                ),
                ActionView::Stop,
            ],
        ),
{
}

/// Audio is sent to the service unchanged, and nothing else is done about it;
/// it is dropped where it is empty or there is no connection.
pub proof fn audio_goes_to_the_service(state: ForwarderView, data: Seq<u8>)
    ensures
        state.connected && data.len() > 0 ==> client_step(state, ClientMessageView::Binary(data))
            == (state, seq![ActionView::BinaryToStem(data)]),
        !state.connected || data.len() == 0 ==> client_step(state, ClientMessageView::Binary(data))
            == (state, Seq::<ActionView>::empty()),
{
}

/// A ping is answered on the side that it came from with its own payload; the
/// service is answered only where there is a connection. A pong is ignored.
pub proof fn pings_are_answered_in_kind(state: ForwarderView, payload: Seq<char>)
    ensures
        client_step(state, ClientMessageView::Ping(payload)) == (
            state,
            seq![ActionView::PongClient(payload)],
        ),
        state.connected ==> stem_actions(state, MessageView::Ping(payload)) == seq![
            ActionView::PongStem(payload),
        ],
        !state.connected ==> stem_actions(state, MessageView::Ping(payload)) == Seq::<
            ActionView,
        >::empty(),
        client_step(state, ClientMessageView::Pong(payload)) == (
            state,
            Seq::<ActionView>::empty(),
        ),
        stem_actions(state, MessageView::Pong(payload)) == Seq::<ActionView>::empty(),
{
}

/// A text of the service is handed on with the callback address of the session
/// and the UTF-8 of the text, or dropped where there is no such address. Other
/// data of the service is dropped.
pub proof fn results_go_to_the_callback(state: ForwarderView, text: Seq<char>, data: Seq<u8>)
    ensures
        state.callback_url matches Some(callback_url) ==> stem_actions(
            state,
            MessageView::Text(text),
        ) == seq![
            ActionView::Send(SendToCallbackView { callback_url, body: encode_utf8(text) }),
        ],
        state.callback_url is None ==> stem_actions(state, MessageView::Text(text)) == Seq::<
            ActionView,
        >::empty(),
        stem_actions(state, MessageView::Binary(data)) == Seq::<ActionView>::empty(),
{
}

/// On a connected session, a close message from either side goes to the service
/// and to the client with the reason that came with it, if any, and the session
/// ends; without a connection it goes to the client only.
pub proof fn closing_reaches_both_sides(state: ForwarderView, reason: Option<CloseReasonView>)
    ensures
        state.connected ==> {
            let actions = seq![
                ActionView::CloseStem(reason),
                ActionView::CloseClient(reason),
                ActionView::Stop,
            ];
            &&& client_step(state, ClientMessageView::Close(reason)) == (state, actions)
            &&& stem_actions(state, MessageView::Close(reason)) == actions
        },
        !state.connected ==> {
            let actions = seq![ActionView::CloseClient(reason), ActionView::Stop];
            &&& client_step(state, ClientMessageView::Close(reason)) == (state, actions)
            &&& stem_actions(state, MessageView::Close(reason)) == actions
        },
{
    if state.connected {
        assert(closing(state, reason) =~= seq![
            ActionView::CloseStem(reason),
            ActionView::CloseClient(reason),
            ActionView::Stop,
        ]);
    }
}

/// A handshake that succeeds makes the session connected, changes nothing else
/// and has the service listened to; one that fails has the client refused, and
/// changes nothing.
pub proof fn handshakes_connect_or_refuse(state: ForwarderView)
    ensures
        ({
            let (next, actions) = handshake_step(state, true);
            &&& next.connected
            &&& next.callback_url == state.callback_url
            &&& next.stem_url == state.stem_url
            &&& next.bauth == state.bauth
            &&& actions == seq![ActionView::ListenToStem]
        }),
        handshake_step(state, false) == (
            state,
            seq![
                ActionView::CloseClient(
                    Some(
                        CloseReasonView {
                            code: CloseCode::Protocol,
                            description: Some("Failed to connect to stem."@),
                        },
                    ),
                ),
                ActionView::Stop,
            ],
        ),
{
}

/// Every message can be handled but an initial message with a user name and a
/// password whose header would not fit in memory.
pub proof fn only_huge_credentials_do_not_fit(message: ClientMessageView, m: InitialMessageView)
    ensures
        !(message is Text) ==> message_fits(message),
        message_fits(ClientMessageView::Text(None)),
        m.username is None || m.password is None ==> message_fits(
            ClientMessageView::Text(Some(m)),
        ),
        m.username is Some && m.password is Some ==> (message_fits(
            ClientMessageView::Text(Some(m)),
        ) <==> (encode_utf8(m.username->0 + ":"@ + m.password->0).len() + 2) / 3 * 4
            <= isize::MAX),
{
    if m.username is Some && m.password is Some {
        the_header_is_the_encoded_text(
            Credentials { username: m.username->0, password: m.password->0 },
        );
    }
}

} // verus!
