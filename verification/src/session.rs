//! What holds of a session over any sequence of events.

use crate::callback::{callback_of, CallbackUrlView};
use crate::content_type::query_string;
use crate::encoding::base64_of;
use crate::forwarder::{
    client_step, closing, closing_reaches_both_sides, connecting, fresh, given_authorization,
    given_credentials_make_the_header, half_credentials_leave_the_header, handshake_step, opened,
    stem_actions, ForwarderView,
};
use crate::message::{
    ActionView, ClientMessageView, CloseReasonView, InitialMessageView, MessageView,
    SendToCallbackView, StemHandshakeView,
};
use vstd::prelude::*;
use vstd::utf8::encode_utf8;

verus! {

/// Something that happens to a session.
pub enum EventView {
    /// A message of the client.
    Client(ClientMessageView),
    /// The end of the messages of the client, after an error or not.
    ClientFinished,
    /// A message of the recognition service.
    Stem(MessageView),
    /// An error on a stream of the service, which ends it.
    StemError,
    /// The end of a stream of the service without an error.
    StemFinished,
    /// The outcome of a handshake with the service.
    Handshake(bool),
}

/// A session: the state of the forwarder, whether the client is still listened
/// to, how many handshakes are under way, and how many streams of the service
/// are listened to. There is more than one stream if the client sends a second
/// initial message.
pub struct SessionView {
    pub forwarder: ForwarderView,
    pub client: bool,
    pub handshakes: nat,
    pub streams: nat,
}

/// A session that has just started.
pub open spec fn started(stem_url: Seq<char>, bauth: Seq<char>) -> SessionView {
    SessionView { forwarder: fresh(stem_url, bauth), client: true, handshakes: 0, streams: 0 }
}

/// What an event makes of the state of the forwarder and has done.
pub open spec fn step(state: ForwarderView, event: EventView) -> (ForwarderView, Seq<ActionView>) {
    match event {
        EventView::Client(message) => client_step(state, message),
        EventView::ClientFinished => (state, seq![ActionView::Stop]),
        EventView::Stem(message) => (state, stem_actions(state, message)),
        EventView::StemError => (state, seq![connecting(state)]),
        EventView::StemFinished => (state, seq![]),
        EventView::Handshake(succeeded) => handshake_step(state, succeeded),
    }
}

/// Whether an event can happen to a session: the client is heard until its
/// messages end, the service while a stream of it is listened to, and a
/// handshake ends only if one is under way. A session that has been told to stop
/// may still be handed what had arrived before.
pub open spec fn possible(session: SessionView, event: EventView) -> bool {
    match event {
        EventView::Client(_) => session.client,
        EventView::ClientFinished => session.client,
        EventView::Stem(_) => session.streams > 0,
        EventView::StemError => session.streams > 0,
        EventView::StemFinished => session.streams > 0,
        EventView::Handshake(_) => session.handshakes > 0,
    }
}

/// Whether a handshake is among the actions.
pub open spec fn connects(actions: Seq<ActionView>) -> bool {
    exists|i: int| 0 <= i < actions.len() && #[trigger] actions[i] is ConnectStem
}

/// One where the condition holds, otherwise none.
pub open spec fn one_if(condition: bool) -> int {
    if condition {
        1
    } else {
        0
    }
}

/// What a possible event makes of a session. No event has more than one
/// handshake made.
pub open spec fn advance(session: SessionView, event: EventView) -> SessionView {
    let (forwarder, actions) = step(session.forwarder, event);
    SessionView {
        forwarder,
        client: session.client && !(event is ClientFinished),
        handshakes: (session.handshakes - one_if(event is Handshake) + one_if(
            connects(actions),
        )) as nat,
        streams: (session.streams - one_if(event is StemError || event is StemFinished) + one_if(
            actions.contains(ActionView::ListenToStem),
        )) as nat,
    }
}

/// What a sequence of events makes of a session.
pub open spec fn run(session: SessionView, events: Seq<EventView>) -> SessionView
    decreases events.len(),
{
    if events.len() == 0 {
        session
    } else {
        advance(run(session, events.drop_last()), events.last())
    }
}

/// Whether a sequence of events can happen to a session.
pub open spec fn possible_run(session: SessionView, events: Seq<EventView>) -> bool
    decreases events.len(),
{
    events.len() == 0 || {
        &&& possible_run(session, events.drop_last())
        &&& possible(run(session, events.drop_last()), events.last())
    }
}

/// All that a sequence of events has done, in order.
pub open spec fn done(session: SessionView, events: Seq<EventView>) -> Seq<ActionView>
    decreases events.len(),
{
    if events.len() == 0 {
        seq![]
    } else {
        done(session, events.drop_last()) + step(
            run(session, events.drop_last()).forwarder,
            events.last(),
        ).1
    }
}

/// What holds of every session: the service is listened to only if there is a
/// connection to send on, and there is a callback address as soon as a handshake
/// has been started.
pub open spec fn sound(session: SessionView) -> bool {
    &&& session.streams > 0 ==> session.forwarder.connected
    &&& session.handshakes > 0 || session.forwarder.connected
        ==> session.forwarder.callback_url is Some
}

proof fn lemma_opened(
    state: ForwarderView,
    content_type: Seq<char>,
    authorization: Option<Seq<char>>,
    callback: Option<CallbackUrlView>,
)
    ensures
        ({
            let (next, actions) = opened(state, content_type, authorization, callback);
            &&& !actions.contains(ActionView::ListenToStem)
            &&& next.connected == state.connected
            &&& state.callback_url is Some ==> next.callback_url is Some
            &&& connects(actions) ==> next.callback_url is Some
            &&& forall|i: int|
                0 <= i < actions.len() && actions[i] is ConnectStem ==> #[trigger] actions[i]
                    == connecting(next)
        }),
{
}

proof fn lemma_step(state: ForwarderView, event: EventView)
    ensures
        ({
            let (next, actions) = step(state, event);
            &&& actions.contains(ActionView::ListenToStem) == (event == EventView::Handshake(true))
            &&& next.connected == (state.connected || event == EventView::Handshake(true))
            &&& state.callback_url is Some ==> next.callback_url is Some
            &&& connects(actions) && event is Client ==> next.callback_url is Some
            &&& connects(actions) ==> event is Client || event is StemError
        }),
{
    let (next, actions) = step(state, event);
    match event {
        EventView::Client(ClientMessageView::Text(Some(m))) => {
            lemma_opened(
                state,
                m.content_type,
                given_authorization(m),
                callback_of(m.callback),
            );
        },
        EventView::Handshake(succeeded) => {
            if succeeded {
                assert(actions[0] == ActionView::ListenToStem);
            }
        },
        _ => {},
    }
}

/// Every possible run keeps a session sound.
pub proof fn sessions_stay_sound(session: SessionView, events: Seq<EventView>)
    requires
        sound(session),
        possible_run(session, events),
    ensures
        sound(run(session, events)),
    decreases events.len(),
{
    if events.len() > 0 {
        let front = events.drop_last();
        sessions_stay_sound(session, front);
        lemma_step(run(session, front).forwarder, events.last());
    }
}

/// Whatever has happened to a session, a text that the service sends is posted
/// to the callback address, unchanged, and nothing else is done about it: a
/// session never listens to the service without a callback address.
pub proof fn stem_text_reaches_the_callback(
    stem_url: Seq<char>,
    bauth: Seq<char>,
    events: Seq<EventView>,
    text: Seq<char>,
)
    requires
        possible_run(
            started(stem_url, bauth),
            events.push(EventView::Stem(MessageView::Text(text))),
        ),
    ensures
        ({
            let state = run(started(stem_url, bauth), events).forwarder;
            &&& state.callback_url is Some
            &&& stem_actions(state, MessageView::Text(text)) == seq![
                ActionView::Send(
                    SendToCallbackView {
                        callback_url: state.callback_url->0,
                        body: encode_utf8(text),
                    },
                ),
            ]
        }),
{
    let all = events.push(EventView::Stem(MessageView::Text(text)));
    assert(all.drop_last() =~= events);
    sessions_stay_sound(started(stem_url, bauth), events);
}

/// Every handshake is made at the address and with the header that the state
/// holds once the event has been handled.
pub proof fn handshakes_use_the_current_state(state: ForwarderView, event: EventView, i: int)
    requires
        0 <= i < step(state, event).1.len(),
        step(state, event).1[i] is ConnectStem,
    ensures
        step(state, event).1[i] == connecting(step(state, event).0),
{
    if let EventView::Client(ClientMessageView::Text(Some(m))) = event {
        lemma_opened(
            state,
            m.content_type,
            given_authorization(m),
            callback_of(m.callback),
        );
    }
}

/// Nothing is sent to the service before there is a connection to it.
pub proof fn nothing_goes_to_an_absent_service(state: ForwarderView, event: EventView, i: int)
    requires
        !state.connected,
        0 <= i < step(state, event).1.len(),
    ensures
        !(step(state, event).1[i] is BinaryToStem),
        !(step(state, event).1[i] is PongStem),
        !(step(state, event).1[i] is CloseStem),
{
}

/// Whenever the client is sent a close message, the session ends right after.
pub proof fn closing_the_client_ends_the_session(state: ForwarderView, event: EventView, i: int)
    requires
        0 <= i < step(state, event).1.len(),
        step(state, event).1[i] is CloseClient,
    ensures
        i + 1 < step(state, event).1.len(),
        step(state, event).1[i + 1] == ActionView::Stop,
{
}

/// No event has more than one handshake made.
pub proof fn handshakes_are_made_one_at_a_time(
    state: ForwarderView,
    event: EventView,
    i: int,
    j: int,
)
    requires
        0 <= i < step(state, event).1.len(),
        0 <= j < step(state, event).1.len(),
        step(state, event).1[i] is ConnectStem,
        step(state, event).1[j] is ConnectStem,
    ensures
        i == j,
{
}

/// When the only stream of the service fails, one more handshake is under way,
/// and no message of the service can follow.
pub proof fn an_error_silences_the_service(session: SessionView, message: MessageView)
    requires
        session.streams == 1,
    ensures
        advance(session, EventView::StemError).handshakes == session.handshakes + 1,
        advance(session, EventView::StemError).streams == 0,
        !possible(advance(session, EventView::StemError), EventView::Stem(message)),
{
    let actions = step(session.forwarder, EventView::StemError).1;
    assert(actions[0] is ConnectStem);
    lemma_step(session.forwarder, EventView::StemError);
}

/// The query string that an event brings: that of the content type in an initial
/// message, if it is supported.
pub open spec fn query_in(event: EventView) -> Seq<char> {
    match event {
        EventView::Client(ClientMessageView::Text(Some(m))) => match query_string(m.content_type) {
            Ok(query) => query,
            Err(_) => seq![],
        },
        _ => seq![],
    }
}

/// The query strings that events bring, one after the other.
pub open spec fn queries_in(events: Seq<EventView>) -> Seq<char>
    decreases events.len(),
{
    if events.len() == 0 {
        seq![]
    } else {
        queries_in(events.drop_last()) + query_in(events.last())
    }
}

/// The address of the service is the one that the session started with, followed
/// by the query strings of all initial messages in order: each is appended, and
/// none replaces an earlier one.
pub proof fn the_address_collects_the_queries(session: SessionView, events: Seq<EventView>)
    ensures
        run(session, events).forwarder.stem_url == session.forwarder.stem_url + queries_in(events),
    decreases events.len(),
{
    if events.len() == 0 {
        assert(session.forwarder.stem_url + queries_in(events) =~= session.forwarder.stem_url);
    } else {
        let front = events.drop_last();
        the_address_collects_the_queries(session, front);
        assert(run(session, events).forwarder.stem_url =~= session.forwarder.stem_url + queries_in(
            events,
        ));
    }
}

/// Two initial messages in turn append both their query strings; one with an
/// empty content type leaves the address as it was.
pub proof fn two_messages_append_both_queries(
    state: ForwarderView,
    first: InitialMessageView,
    second: InitialMessageView,
)
    requires
        query_string(first.content_type) is Ok,
        query_string(second.content_type) is Ok,
    ensures
        ({
            let once = client_step(state, ClientMessageView::Text(Some(first))).0;
            let twice = client_step(once, ClientMessageView::Text(Some(second))).0;
            &&& twice.stem_url == state.stem_url + query_string(first.content_type)->Ok_0
                + query_string(second.content_type)->Ok_0
            &&& first.content_type.len() == 0 ==> once.stem_url == state.stem_url
        }),
{
    let once = client_step(state, ClientMessageView::Text(Some(first))).0;
    if first.content_type.len() == 0 {
        assert(once.stem_url =~= state.stem_url);
    }
}

/// The frames that hold any data.
pub open spec fn filled(frames: Seq<Seq<u8>>) -> Seq<Seq<u8>>
    decreases frames.len(),
{
    if frames.len() == 0 {
        seq![]
    } else if frames.last().len() > 0 {
        filled(frames.drop_last()).push(frames.last())
    } else {
        filled(frames.drop_last())
    }
}

/// The events in which the client sends the frames.
pub open spec fn audio(frames: Seq<Seq<u8>>) -> Seq<EventView> {
    frames.map_values(|data: Seq<u8>| EventView::Client(ClientMessageView::Binary(data)))
}

/// The actions that send the frames to the service.
pub open spec fn relayed(frames: Seq<Seq<u8>>) -> Seq<ActionView> {
    frames.map_values(|data: Seq<u8>| ActionView::BinaryToStem(data))
}

/// On a connected session, audio goes to the service frame by frame, in order
/// and unchanged, without the empty frames; the state stays as it is.
pub proof fn audio_is_relayed_in_order(session: SessionView, frames: Seq<Seq<u8>>)
    requires
        session.forwarder.connected,
    ensures
        done(session, audio(frames)) == relayed(filled(frames)),
        run(session, audio(frames)).forwarder == session.forwarder,
    decreases frames.len(),
{
    if frames.len() == 0 {
        assert(done(session, audio(frames)) =~= relayed(filled(frames)));
    } else {
        let front = frames.drop_last();
        audio_is_relayed_in_order(session, front);
        assert(audio(frames).drop_last() =~= audio(front));
        assert(audio(frames).last() == EventView::Client(
            ClientMessageView::Binary(frames.last()),
        ));
        assert(done(session, audio(frames)) =~= relayed(filled(frames)));
    }
}

/// Whoever closes, the answer is the same.
pub proof fn closing_is_symmetric(
    state: ForwarderView,
    reason: Option<CloseReasonView>,
)
    ensures
        step(state, EventView::Client(ClientMessageView::Close(reason))) == (
            state,
            closing(state, reason),
        ),
        step(state, EventView::Stem(MessageView::Close(reason))) == (state, closing(state, reason)),
{
}

/// Whatever the event, each handshake that it has made names the address and
/// the header of the state that it leaves, connected or not.
pub proof fn handshakes_name_the_address_and_the_header(
    state: ForwarderView,
    event: EventView,
    i: int,
)
    requires
        0 <= i < step(state, event).1.len(),
        step(state, event).1[i] is ConnectStem,
    ensures
        step(state, event).1[i] == ActionView::ConnectStem(
            StemHandshakeView {
                url: step(state, event).0.stem_url,
                authorization: step(state, event).0.bauth,
            },
        ),
{
    handshakes_use_the_current_state(state, event, i);
}

/// The header for the service after events, where `bauth` was the one before:
/// made of the last user name and password that came together in an initial
/// message, if any did.
pub open spec fn header_after(bauth: Seq<char>, events: Seq<EventView>) -> Seq<char>
    decreases events.len(),
{
    if events.len() == 0 {
        bauth
    } else {
        match events.last() {
            EventView::Client(ClientMessageView::Text(Some(m))) => match (m.username, m.password) {
                (Some(username), Some(password)) => "Basic "@ + base64_of(
                    encode_utf8(username + ":"@ + password),
                ),
                _ => header_after(bauth, events.drop_last()),
            },
            _ => header_after(bauth, events.drop_last()),
        }
    }
}

/// The header for the service is made of the credentials that came last, or is
/// the one that the session started with.
pub proof fn the_last_credentials_make_the_header(session: SessionView, events: Seq<EventView>)
    ensures
        run(session, events).forwarder.bauth == header_after(session.forwarder.bauth, events),
    decreases events.len(),
{
    if events.len() > 0 {
        let front = events.drop_last();
        let state = run(session, front).forwarder;
        the_last_credentials_make_the_header(session, front);
        if let EventView::Client(ClientMessageView::Text(Some(m))) = events.last() {
            match (m.username, m.password) {
                (Some(username), Some(password)) => {
                    given_credentials_make_the_header(state, m, username, password);
                },
                _ => {
                    half_credentials_leave_the_header(state, m);
                },
            }
        }
    }
}

/// When a stream of the service fails, the only thing done is a new handshake:
/// at the address that the session started with, followed by all the query
/// strings collected so far, and with the header made of the credentials that
/// came last.
pub proof fn a_failed_stream_is_made_anew_at_the_collected_address(
    session: SessionView,
    events: Seq<EventView>,
)
    ensures
        ({
            let state = run(session, events).forwarder;
            step(state, EventView::StemError) == (
                state,
                seq![
                    ActionView::ConnectStem(
                        StemHandshakeView {
                            url: session.forwarder.stem_url + queries_in(events),
                            authorization: header_after(session.forwarder.bauth, events),
                        },
                    ),
                ],
            )
        }),
{
    the_address_collects_the_queries(session, events);
    the_last_credentials_make_the_header(session, events);
}

/// Whatever has happened to a session, a close message from either side is
/// passed on with its reason: to the service and the client where the session
/// is connected, to the client alone where it is not. Then the session ends.
pub proof fn sessions_close_with_the_reason_given(
    session: SessionView,
    events: Seq<EventView>,
    reason: Option<CloseReasonView>,
)
    ensures
        ({
            let state = run(session, events).forwarder;
            let by_client = step(state, EventView::Client(ClientMessageView::Close(reason)));
            let by_stem = step(state, EventView::Stem(MessageView::Close(reason)));
            let actions = if state.connected {
                seq![
                    ActionView::CloseStem(reason),
                    ActionView::CloseClient(reason),
                    ActionView::Stop,
                ]
            } else {
                seq![ActionView::CloseClient(reason), ActionView::Stop]
            };
            &&& by_client == (state, actions)
            &&& by_stem == (state, actions)
        }),
{
    closing_reaches_both_sides(run(session, events).forwarder, reason);
}

/// The end of the messages of the client ends the session; that of a stream of
/// the service has nothing done. Neither changes the state.
pub proof fn only_the_client_ends_the_session_by_leaving(state: ForwarderView)
    ensures
        step(state, EventView::ClientFinished) == (state, seq![ActionView::Stop]),
        step(state, EventView::StemFinished) == (state, Seq::<ActionView>::empty()),
{
}

} // verus!
