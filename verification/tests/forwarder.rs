use wsforwarder::callback::CallbackUrl;
use wsforwarder::forwarder::{connect_to_stem, connect_to_stem_act, ws_index, Forwarder};
use wsforwarder::message::{
    Action, ClientMessage, CloseCode, CloseReason, FromStem, InitialMessage, Message, Running,
    SendToCallback, StemHandshake,
};

fn forwarder() -> Forwarder {
    Forwarder::with_request("ws://stem/listen".to_string(), "Basic default".to_string()).unwrap()
}

fn initial(callback: &str, content_type: &str) -> InitialMessage {
    InitialMessage {
        callback: callback.to_string(),
        content_type: content_type.to_string(),
        username: None,
        password: None,
    }
}

fn text(message: InitialMessage) -> ClientMessage {
    ClientMessage::Text(Some(message))
}

fn handshake(url: &str, authorization: &str) -> Action {
    Action::ConnectStem(StemHandshake {
        url: url.to_string(),
        authorization: authorization.to_string(),
    })
}

fn refusal(description: &str) -> Vec<Action> {
    vec![
        Action::CloseClient(Some(CloseReason {
            code: CloseCode::Protocol,
            description: Some(description.to_string()),
        })),
        Action::Stop,
    ]
}

fn connected() -> Forwarder {
    let mut forwarder = forwarder();
    forwarder.handle_client(text(initial("http://example.com/r", "")));
    assert_eq!(forwarder.stem_connected(true), vec![Action::ListenToStem]);
    forwarder
}

fn away() -> Option<CloseReason> {
    Some(CloseReason {
        code: CloseCode::Away,
        description: Some("bye".to_string()),
    })
}

#[test]
fn a_request_starts_a_session() {
    let session = ws_index("ws://stem/listen".to_string(), "Basic default".to_string()).unwrap();
    assert_eq!(session.max_size, 10 * (1 << 20));
    assert_eq!(
        session.forwarder.stem_error(),
        (
            vec![handshake("ws://stem/listen", "Basic default")],
            Running::Stop
        )
    );
}

#[test]
fn an_initial_message_connects_to_the_service() {
    assert_eq!(
        forwarder().handle_client(text(initial("http://example.com/", "audio/l16;rate=16000"))),
        vec![handshake(
            "ws://stem/listen?encoding=linear16&sample_rate=16000&channels=1",
            "Basic default"
        )]
    );
    assert_eq!(
        forwarder().handle_client(text(initial("http://example.com/", ""))),
        vec![handshake("ws://stem/listen", "Basic default")]
    );
}

#[test]
fn credentials_replace_the_default_header() {
    let mut message = initial("http://example.com/", "");
    message.username = Some("user".to_string());
    message.password = Some("pass".to_string());
    assert_eq!(
        forwarder().handle_client(text(message)),
        vec![handshake("ws://stem/listen", "Basic dXNlcjpwYXNz")]
    );

    let mut half = initial("http://example.com/", "");
    half.username = Some("user".to_string());
    assert_eq!(
        forwarder().handle_client(text(half)),
        vec![handshake("ws://stem/listen", "Basic default")]
    );

    let mut other_half = initial("http://example.com/", "");
    other_half.password = Some("pass".to_string());
    assert_eq!(
        forwarder().handle_client(text(other_half)),
        vec![handshake("ws://stem/listen", "Basic default")]
    );
}

#[test]
fn text_that_is_no_object_is_refused() {
    assert_eq!(
        forwarder().handle_client(ClientMessage::Text(None)),
        refusal("Failed to parse websockets text as json.")
    );
}

#[test]
fn a_callback_that_is_no_address_is_refused() {
    let mut forwarder = forwarder();
    assert_eq!(
        forwarder.handle_client(text(initial("nowhere", "audio/l16;rate=8000"))),
        refusal("Failed to parse callback url.")
    );
    // the query string has been taken over all the same
    assert_eq!(
        forwarder.handle_client(text(initial("http://example.com/", ""))),
        vec![handshake(
            "ws://stem/listen?encoding=linear16&sample_rate=8000&channels=1",
            "Basic default"
        )]
    );
}

#[test]
fn a_content_type_that_is_not_supported_is_refused() {
    let mut expected = refusal("Failed to parse content-type.");
    expected.push(handshake("ws://stem/listen", "Basic default"));
    assert_eq!(
        forwarder().handle_client(text(initial("http://example.com/", "audio/wav"))),
        expected
    );

    let mut both = refusal("Failed to parse content-type.");
    both.extend(refusal("Failed to parse callback url."));
    assert_eq!(
        forwarder().handle_client(text(initial("nowhere", "audio/wav"))),
        both
    );
}

#[test]
fn opening_uses_the_given_header_and_address() {
    let mut forwarder = forwarder();
    let url = CallbackUrl {
        href: "http://example.com/".to_string(),
        username: String::new(),
        password: None,
    };
    assert_eq!(
        forwarder.open(String::new(), Some("Basic x".to_string()), Some(url)),
        vec![handshake("ws://stem/listen", "Basic x")]
    );
    assert_eq!(
        forwarder.open(String::new(), None, None),
        refusal("Failed to parse callback url.")
    );
    assert_eq!(
        forwarder.stem_error().0,
        vec![handshake("ws://stem/listen", "Basic x")]
    );
}

#[test]
fn every_text_extends_the_address() {
    let mut forwarder = forwarder();
    forwarder.handle_client(text(initial("http://example.com/", "a/l16;b=1")));
    assert_eq!(
        forwarder.handle_client(text(initial("http://example.com/", "a/l16;b=2"))),
        vec![handshake(
            "ws://stem/listen?encoding=linear16&sample_rate=1&channels=1\
             ?encoding=linear16&sample_rate=2&channels=1",
            "Basic default"
        )]
    );
}

#[test]
fn audio_is_relayed_once_connected() {
    let mut before = forwarder();
    assert_eq!(before.handle_client(ClientMessage::Binary(vec![1])), vec![]);

    let mut after = connected();
    assert_eq!(
        after.handle_client(ClientMessage::Binary(vec![1, 2])),
        vec![Action::BinaryToStem(vec![1, 2])]
    );
    assert_eq!(after.handle_client(ClientMessage::Binary(vec![])), vec![]);
    assert_eq!(
        after.handle_client(ClientMessage::Binary(vec![3])),
        vec![Action::BinaryToStem(vec![3])]
    );
}

#[test]
fn pings_are_answered_and_pongs_ignored() {
    let mut forwarder = connected();
    assert_eq!(
        forwarder.handle_client(ClientMessage::Ping("p".to_string())),
        vec![Action::PongClient("p".to_string())]
    );
    assert_eq!(
        forwarder.handle_client(ClientMessage::Pong("p".to_string())),
        vec![]
    );
    assert_eq!(
        forwarder.handle_stem(FromStem(Message::Ping("q".to_string()))),
        vec![Action::PongStem("q".to_string())]
    );
    assert_eq!(
        forwarder.handle_stem(FromStem(Message::Pong("q".to_string()))),
        vec![]
    );
}

#[test]
fn a_close_message_is_passed_to_both_sides() {
    let expected = || {
        vec![
            Action::CloseStem(away()),
            Action::CloseClient(away()),
            Action::Stop,
        ]
    };
    assert_eq!(
        connected().handle_client(ClientMessage::Close(away())),
        expected()
    );
    assert_eq!(
        connected().handle_stem(FromStem(Message::Close(away()))),
        expected()
    );
    assert_eq!(
        forwarder().handle_client(ClientMessage::Close(None)),
        vec![Action::CloseClient(None), Action::Stop]
    );
}

#[test]
fn text_of_the_service_goes_to_the_callback() {
    assert_eq!(
        connected().handle_stem(FromStem(Message::Text("r\u{e9}sultat".to_string()))),
        vec![Action::Send(SendToCallback {
            callback_url: CallbackUrl::parse("http://example.com/r").unwrap(),
            body: "r\u{e9}sultat".as_bytes().to_vec(),
        })]
    );
    assert_eq!(
        connected().handle_stem(FromStem(Message::Binary(vec![1]))),
        vec![]
    );
    assert_eq!(
        forwarder().handle_stem(FromStem(Message::Text("early".to_string()))),
        vec![]
    );
    assert_eq!(
        forwarder().handle_stem(FromStem(Message::Ping("early".to_string()))),
        vec![]
    );
}

#[test]
fn a_failed_handshake_is_refused() {
    let mut forwarder = forwarder();
    assert_eq!(
        forwarder.stem_connected(false),
        refusal("Failed to connect to stem.")
    );
    assert_eq!(forwarder.handle_client(ClientMessage::Binary(vec![1])), vec![]);
}

#[test]
fn streams_end_as_they_should() {
    let forwarder = connected();
    assert_eq!(forwarder.client_error(), Running::Stop);
    assert_eq!(forwarder.client_finished(), vec![Action::Stop]);
    assert_eq!(forwarder.stopping(), Running::Stop);
    assert_eq!(
        forwarder.stem_error(),
        (
            vec![handshake("ws://stem/listen", "Basic default")],
            Running::Stop
        )
    );
}

#[test]
fn a_handshake_carries_address_and_header() {
    assert_eq!(
        Action::ConnectStem(connect_to_stem("u".to_string(), "h".to_string())),
        connect_to_stem_act("u".to_string(), "h".to_string())
    );
    assert_eq!(
        connect_to_stem_act("u".to_string(), "h".to_string()),
        handshake("u", "h")
    );
}

#[test]
fn a_message_of_the_service_can_be_unwrapped() {
    assert_eq!(
        FromStem(Message::Text("t".to_string())).into_inner(),
        Message::Text("t".to_string())
    );
}
