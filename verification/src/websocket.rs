//! The EventSub websocket session: what each frame from Twitch changes and
//! asks for.
//!
//! The connection itself, the token and the listener task are kept by the
//! caller; [`WebsocketClient`] holds the URL to connect to, the session id
//! and the streamers a new listener starts with, and decides what each
//! frame means.

use twitch_api::eventsub::{Event, EventsubWebsocketData as Data, Message, Payload};
use vstd::prelude::*;

use self::ServerEvent::{Keepalive, Notification, Reconnect, Revocation, Unknown, Welcome};

use crate::names::names_of;

verus! {

/// A frame read from the websocket.
pub enum Frame {
    /// A text frame.
    Text(String),
    /// The server closed the connection.
    Close,
    /// The connection was reset without a closing handshake.
    Reset,
    /// Any other frame (binary, ping, pong).
    Other,
}

/// What a text frame from EventSub says, as far as this bot reads it.
pub enum ServerEvent {
    /// A welcome message: the session id and, maybe, the URL to reconnect to.
    Welcome(String, Option<String>),
    /// A reconnect message: the session id and, maybe, the URL to reconnect to.
    Reconnect(String, Option<String>),
    /// A keepalive message.
    Keepalive,
    /// A notification: its subscription type (such as `stream.online`),
    /// whether its message is a notification (rather than a revocation or a
    /// verification request), and, for a `stream.online` notification, the
    /// broadcaster's display name.
    Notification(String, bool, Option<String>),
    /// A subscription was revoked.
    Revocation,
    /// A kind of message this bot does not know.
    Unknown,
}

/// The abstract value of a [`ServerEvent`].
pub enum ServerEventView {
    Welcome(Seq<char>, Option<Seq<char>>),
    Reconnect(Seq<char>, Option<Seq<char>>),
    Keepalive,
    Notification(Seq<char>, bool, Option<Seq<char>>),
    Revocation,
    Unknown,
}

impl View for ServerEvent {
    type V = ServerEventView;

    open spec fn view(&self) -> ServerEventView {
        match self {
            ServerEvent::Welcome(id, url) => ServerEventView::Welcome(id@, text_view(*url)),
            ServerEvent::Reconnect(id, url) => ServerEventView::Reconnect(id@, text_view(*url)),
            ServerEvent::Keepalive => ServerEventView::Keepalive,
            ServerEvent::Notification(kind, is_notification, name) => ServerEventView::Notification(
                kind@,
                *is_notification,
                text_view(*name),
            ),
            ServerEvent::Revocation => ServerEventView::Revocation,
            ServerEvent::Unknown => ServerEventView::Unknown,
        }
    }
}

/// The abstract value of an optional event.
pub open spec fn event_view(event: Option<ServerEvent>) -> Option<ServerEventView> {
    match event {
        Some(e) => Some(e@),
        None => None,
    }
}

/// The abstract value of an optional string.
pub open spec fn text_view(text: Option<String>) -> Option<Seq<char>> {
    match text {
        Some(t) => Some(t@),
        None => None,
    }
}

/// What `twitch_api`'s `Event::parse_websocket` makes of a text frame, as
/// a [`ServerEventView`]; `None` when it reports an error.
pub uninterp spec fn parsed_event(frame: Seq<char>) -> Option<ServerEventView>;

/// What `url::Url::parse` makes of a string, as the parsed URL's text;
/// `None` when it reports an error.
pub uninterp spec fn parsed_url(text: Seq<char>) -> Option<Seq<char>>;

/// Calls `twitch_api::eventsub::Event::parse_websocket` and converts its
/// result, one arm per message kind: the session data of a welcome or a
/// reconnect; for a notification its subscription type (`EventType::to_str`),
/// whether its message is a notification (`Event::is_notification`) and,
/// when it is a `stream.online` notification, the broadcaster's display
/// name. Trusted: the result is the named parse of the frame; nothing is
/// claimed of what that parse is.
#[verifier::external_body]
fn parse_event(frame: &str) -> (event: Option<ServerEvent>)
    ensures
        event_view(event) == parsed_event(frame@),
{
    let data = Event::parse_websocket(frame).ok()?;
    Some(match data {
        Data::Welcome { payload: w, .. } => Welcome(w.session.id.into(), w.session.reconnect_url.map(Into::into)),
        Data::Reconnect { payload: r, .. } => Reconnect(r.session.id.into(), r.session.reconnect_url.map(Into::into)),
        Data::Keepalive { .. } => Keepalive,
        Data::Notification { metadata: m, payload: p } => Notification(m.subscription_type.to_str().into(), p.is_notification(), match p {
            Event::StreamOnlineV1(Payload { message: Message::Notification(n), .. }) => Some(n.broadcaster_user_name.take()),
            _ => None,
        }),
        Data::Revocation { .. } => Revocation,
        _ => Unknown,
    })
}

/// Calls `url::Url::parse` and keeps the parsed URL's text. Trusted: the
/// result is the named parse of the text; nothing is claimed of it.
#[verifier::external_body]
fn parse_url(text: &str) -> (url: Option<String>)
    ensures
        text_view(url) == parsed_url(text@),
{
    match url::Url::parse(text) {
        Ok(url) => Some(url.into()),
        Err(_) => None,
    }
}


/// Why a frame could not be handled.
#[derive(Clone, Copy, PartialEq, Eq, Structural, Debug)]
pub enum ProcessError {
    /// The text frame is not an EventSub message that `twitch_api` can read.
    Parse,
    /// The reconnect URL of a welcome message is not a valid URL.
    InvalidReconnectUrl,
}

/// What the caller does after a frame was handled.
pub enum Outcome {
    /// A (new) session started: start a subscription listener with
    /// [`WebsocketClient::init_streamers`].
    StartListener,
    /// Announce that this streamer went live.
    Live(String),
    /// A subscription was revoked (only worth a log line).
    Revoked,
    /// The connection was reset: tell the listener to stop.
    AbortListener,
    /// Nothing to do.
    Ignored,
}

/// The abstract value of an [`Outcome`].
pub enum OutcomeView {
    StartListener,
    Live(Seq<char>),
    Revoked,
    AbortListener,
    Ignored,
}

impl View for Outcome {
    type V = OutcomeView;

    open spec fn view(&self) -> OutcomeView {
        match self {
            Outcome::StartListener => OutcomeView::StartListener,
            Outcome::Live(name) => OutcomeView::Live(name@),
            Outcome::Revoked => OutcomeView::Revoked,
            Outcome::AbortListener => OutcomeView::AbortListener,
            Outcome::Ignored => OutcomeView::Ignored,
        }
    }
}

/// The abstract value of a handled frame's result.
pub open spec fn result_view(result: Result<Outcome, ProcessError>) -> Result<OutcomeView, ProcessError> {
    match result {
        Ok(outcome) => Ok(outcome@),
        Err(e) => Err(e),
    }
}

/// The abstract value of a [`WebsocketClient`].
pub struct ClientView {
    /// The URL the next connection goes to.
    pub connect_url: Seq<char>,
    /// The id of the current session, once one was welcomed.
    pub session_id: Option<Seq<char>>,
    /// The streamers a new subscription listener starts with.
    pub init_streamers: Seq<Seq<char>>,
}

/// A welcome (or reconnect) message with session `id`: the session id is
/// recorded; a reconnect URL, when there is one, becomes the URL to
/// connect to, or is an error when it does not parse (the session id is
/// recorded all the same).
pub open spec fn after_welcome(
    client: ClientView,
    id: Seq<char>,
    reconnect_url: Option<Seq<char>>,
) -> (ClientView, Result<(), ProcessError>) {
    let welcomed = ClientView { session_id: Some(id), ..client };
    match reconnect_url {
        None => (welcomed, Ok(())),
        Some(url) => match parsed_url(url) {
            Some(parsed) => (ClientView { connect_url: parsed, ..welcomed }, Ok(())),
            None => (welcomed, Err(ProcessError::InvalidReconnectUrl)),
        },
    }
}

/// The streamer a notification announces: the broadcaster of a
/// `stream.online` notification message.
pub open spec fn announced(
    subscription_type: Seq<char>,
    is_notification: bool,
    broadcaster: Option<Seq<char>>,
) -> Option<Seq<char>> {
    if subscription_type == "stream.online"@ && is_notification {
        broadcaster
    } else {
        None
    }
}

/// What a welcome or reconnect message does: see [`after_welcome`]; the
/// caller then starts a subscription listener.
pub open spec fn after_session(
    client: ClientView,
    id: Seq<char>,
    reconnect_url: Option<Seq<char>>,
) -> (ClientView, Result<OutcomeView, ProcessError>) {
    let (welcomed, result) = after_welcome(client, id, reconnect_url);
    match result {
        Ok(_) => (welcomed, Ok(OutcomeView::StartListener)),
        Err(e) => (welcomed, Err(e)),
    }
}

/// What an EventSub message does to the client and asks for: welcome and
/// reconnect messages are handled alike; a `stream.online` notification
/// announces its broadcaster; a revocation is reported; everything else is
/// ignored.
pub open spec fn after_event(client: ClientView, event: ServerEventView) -> (
    ClientView,
    Result<OutcomeView, ProcessError>,
) {
    match event {
        ServerEventView::Welcome(id, url) => after_session(client, id, url),
        ServerEventView::Reconnect(id, url) => after_session(client, id, url),
        ServerEventView::Notification(kind, is_notification, broadcaster) => match announced(
            kind,
            is_notification,
            broadcaster,
        ) {
            Some(name) => (client, Ok(OutcomeView::Live(name))),
            None => (client, Ok(OutcomeView::Ignored)),
        },
        ServerEventView::Revocation => (client, Ok(OutcomeView::Revoked)),
        ServerEventView::Keepalive => (client, Ok(OutcomeView::Ignored)),
        ServerEventView::Unknown => (client, Ok(OutcomeView::Ignored)),
    }
}

/// The decision state of one websocket connection to EventSub.
pub struct WebsocketClient {
    connect_url: String,
    session_id: Option<String>,
    init_streamers: Vec<String>,
}

impl View for WebsocketClient {
    type V = ClientView;

    closed spec fn view(&self) -> ClientView {
        ClientView {
            connect_url: self.connect_url@,
            session_id: text_view(self.session_id),
            init_streamers: names_of(self.init_streamers@),
        }
    }
}

impl WebsocketClient {
    /// A client that connects to `connect_url`, with no streamers yet.
    pub fn new(connect_url: String, session_id: Option<String>) -> (client: WebsocketClient)
        ensures
            client@ == (ClientView {
                connect_url: connect_url@,
                session_id: text_view(session_id),
                init_streamers: Seq::empty(),
            }),
    {
        let client = WebsocketClient { connect_url, session_id, init_streamers: Vec::new() };
        assert(client@.init_streamers =~= Seq::<Seq<char>>::empty());
        client
    }

    /// The URL the next connection goes to.
    pub fn connect_url(&self) -> (url: &String)
        ensures
            url@ == self@.connect_url,
    {
        &self.connect_url
    }

    /// The id of the current session, once one was welcomed.
    pub fn session_id(&self) -> (id: &Option<String>)
        ensures
            text_view(*id) == self@.session_id,
    {
        &self.session_id
    }

    /// The streamers a new subscription listener starts with.
    pub fn init_streamers(&self) -> (streamers: &Vec<String>)
        ensures
            names_of(streamers@) == self@.init_streamers,
    {
        &self.init_streamers
    }

    /// Starts the run for `streamer`: the first listener follows it alone.
    pub fn start(&mut self, streamer: String)
        ensures
            final(self)@ == (ClientView { init_streamers: seq![streamer@], ..old(self)@ }),
    {
        let mut streamers: Vec<String> = Vec::new();
        streamers.push(streamer);
        self.init_streamers = streamers;
        assert(self@.init_streamers =~= seq![streamer@]);
    }

    /// Handles the session data of a welcome (or reconnect) message.
    pub fn process_welcome_message(&mut self, id: String, reconnect_url: Option<String>) -> (result:
        Result<(), ProcessError>)
        ensures
            (final(self)@, result) == after_welcome(old(self)@, id@, text_view(reconnect_url)),
    {
        self.session_id = Some(id);
        match reconnect_url {
            Some(url) => match parse_url(url.as_str()) {
                Some(parsed) => {
                    self.connect_url = parsed;
                    Ok(())
                },
                None => Err(ProcessError::InvalidReconnectUrl),
            },
            None => Ok(()),
        }
    }

    /// Handles one EventSub message; see [`after_event`].
    pub fn handle_event(&mut self, event: ServerEvent) -> (result: Result<Outcome, ProcessError>)
        ensures
            (final(self)@, result_view(result)) == after_event(old(self)@, event@),
    {
        match event {
            ServerEvent::Welcome(id, url) | ServerEvent::Reconnect(id, url) => {
                match self.process_welcome_message(id, url) {
                    Ok(()) => Ok(Outcome::StartListener),
                    Err(e) => Err(e),
                }
            },
            ServerEvent::Notification(kind, is_notification, broadcaster) => {
                let online = "stream.online".to_owned();
                if kind == online && is_notification {
                    match broadcaster {
                        Some(name) => Ok(Outcome::Live(name)),
                        None => Ok(Outcome::Ignored),
                    }
                } else {
                    Ok(Outcome::Ignored)
                }
            },
            ServerEvent::Revocation => Ok(Outcome::Revoked),
            ServerEvent::Keepalive => Ok(Outcome::Ignored),
            ServerEvent::Unknown => Ok(Outcome::Ignored),
        }
    }

    /// Handles one frame from the websocket. A text frame is read as an
    /// EventSub message (an error when it cannot be) and handled; a reset
    /// connection asks the listener to stop; other frames are ignored. A
    /// closing frame is not handled here: the connection is over.
    pub fn process_message(&mut self, frame: Frame) -> (result: Result<Outcome, ProcessError>)
        requires
            !(frame is Close),
        ensures
            match frame {
                Frame::Text(text) => match parsed_event(text@) {
                    Some(event) => (final(self)@, result_view(result)) == after_event(
                        old(self)@,
                        event,
                    ),
                    None => final(self)@ == old(self)@ && result == Err::<Outcome, ProcessError>(
                        ProcessError::Parse,
                    ),
                },
                Frame::Reset => final(self)@ == old(self)@ && result_view(result) == Ok::<
                    OutcomeView,
                    ProcessError,
                >(OutcomeView::AbortListener),
                _ => final(self)@ == old(self)@ && result_view(result) == Ok::<
                    OutcomeView,
                    ProcessError,
                >(OutcomeView::Ignored),
            },
    {
        match frame {
            Frame::Text(text) => match parse_event(text.as_str()) {
                Some(event) => self.handle_event(event),
                None => Err(ProcessError::Parse),
            },
            Frame::Reset => Ok(Outcome::AbortListener),
            _ => Ok(Outcome::Ignored),
        }
    }

    /// A subscription listener ended with the streamers it still followed
    /// (`Some`) or with an error (`None`). With streamers left the client
    /// reconnects and the next listener starts with them (`true`);
    /// otherwise the connection is closed (`false`).
    pub fn listener_finished(&mut self, result: Option<Vec<String>>) -> (reconnect: bool)
        ensures
            match result {
                Some(streamers) => if streamers@.len() > 0 {
                    reconnect && final(self)@ == (ClientView {
                        init_streamers: names_of(streamers@),
                        ..old(self)@
                    })
                } else {
                    !reconnect && final(self)@ == old(self)@
                },
                None => !reconnect && final(self)@ == old(self)@,
            },
    {
        match result {
            Some(streamers) => {
                if streamers.len() == 0 {
                    false
                } else {
                    self.init_streamers = streamers;
                    true
                }
            },
            None => false,
        }
    }
}

} // verus!
