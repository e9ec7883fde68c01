//! One connection to one plugin: which address to dial next, what to do
//! with each thing that happens on the socket, and the frames that carry
//! events to the plugin.

use vstd::prelude::*;
use std::sync::Arc;
use crate::error::{RCError, RCResult};
use crate::idl::pbbot::frame::{Data, FrameType};
use crate::idl::pbbot::Frame;
use crate::plugin::Plugin;
use crate::util::text::{chars_of, decimal, decimal_string, push_decimal, push_str, string_of};

verus! {

/// `rand::rngs::ThreadRng`, handed from where it is made to where it is
/// used.
#[verifier::external_type_specification]
#[verifier::external_body]
pub struct ExThreadRng(rand::rngs::ThreadRng);

/// `rand::thread_rng`: the random number generator of the current thread.
#[verifier::external_body]
fn thread_rng() -> rand::rngs::ThreadRng {
    rand::thread_rng()
}

/// `rand::seq::SliceRandom::shuffle`: puts the entries of `urls` in a
/// random order. Which order depends on `rng`; the entries are the same.
#[verifier::external_body]
fn shuffle(urls: &mut Vec<String>, rng: &mut rand::rngs::ThreadRng)
    ensures
        final(urls).deep_view().to_multiset() == old(urls).deep_view().to_multiset(),
{
    rand::seq::SliceRandom::shuffle(urls.as_mut_slice(), rng)
}

/// `Arc::clone` of the standard library: one more handle to the same
/// value.
#[verifier::external_body]
fn share(data: &Arc<Data>) -> (shared: Arc<Data>)
    ensures
        *shared == **data,
{
    Arc::clone(data)
}

/// The parts of a URI that decide where to connect.
#[derive(Clone, Debug, PartialEq, Eq)]
pub struct UriParts {
    pub host: Option<String>,
    pub port: Option<u16>,
}

/// The host and the port that `uri` names, each where it names one; `None`
/// where `uri` is no URI.
pub uninterp spec fn uri_parts(uri: Seq<char>) -> Option<(Option<Seq<char>>, Option<u16>)>;

/// `http::Uri::from_str`, and `host` and `port_u16` on what it gives: reads
/// `uri` and picks its host and its port. The empty string is no URI.
#[verifier::external_body]
fn parse_uri(uri: &str) -> (r: Result<
    UriParts,
    tokio_tungstenite::tungstenite::http::uri::InvalidUri,
>)
    ensures
        match r {
            Ok(p) => uri_parts(uri@) == Some((p.host.deep_view(), p.port)),
            Err(_) => uri_parts(uri@) is None,
        },
        uri@.len() == 0 ==> r is Err,
{
    let parsed: tokio_tungstenite::tungstenite::http::Uri = uri.parse()?;
    Ok(UriParts { host: parsed.host().map(|h| h.to_string()), port: parsed.port_u16() })
}

/// A message on a WebSocket.
#[derive(Clone, Debug, PartialEq, Eq)]
pub enum Message {
    Text(String),
    Binary(Vec<u8>),
    Ping(Vec<u8>),
    Pong(Vec<u8>),
    Close,
    /// Any other kind of message.
    Frame,
}

/// Something that happens while a connection is up.
#[derive(Debug)]
pub enum ConnEvent {
    /// Five seconds have passed without anything else.
    Tick,
    /// The outbound queue handed over a message, or failed with this reason.
    Outbound(Result<Message, String>),
    /// The socket handed over a message, failed with this reason, or ended.
    Inbound(Option<Result<Message, String>>),
    /// The connection was told to stop.
    Stop,
}

/// What to do about it.
#[derive(Debug)]
pub enum ConnAction {
    /// Put the message into the outbound queue.
    Enqueue(Message),
    /// Write the message to the socket.
    Write(Message),
    /// Decode these bytes as a request frame, handle it apart from this
    /// connection's loop, and put the response into the outbound queue.
    Handle(Vec<u8>),
    /// Go on with the next event.
    Nothing,
    /// Leave the loop with this reason.
    Exit(RCError),
}

/// What the supervisor of a connection does when the connection has ended.
#[derive(Clone, Copy, Debug, PartialEq, Eq, Structural)]
pub enum Supervision {
    /// Wait this many seconds, then connect again.
    Retry { seconds: u64 },
    /// Give up the connection.
    Exit,
}

/// Where to connect: the address of the plugin as it was configured, the
/// host and port to open the socket to, and the account number to announce
/// in the `x-self-id` header of the handshake.
#[derive(Clone, Debug, PartialEq, Eq)]
pub struct Dial {
    pub uri: String,
    pub addr: String,
    pub self_id: i64,
}

/// How long the supervisor waits before it connects again.
/// One event, framed for one plugin. The payload is shared among the
/// frames of all plugins that get the event.
#[derive(Clone, Debug)]
pub struct EventFrame {
    /// The name of the plugin the frame is for.
    pub plugin: String,
    pub bot_id: i64,
    pub frame_type: i32,
    pub echo: String,
    pub ok: bool,
    pub data: Arc<Data>,
}

pub const RECONNECT_SECONDS: u64 = 5;

/// After how long a quiet connection sends a ping.
pub const PING_SECONDS: u64 = 5;

/// The port of a plugin whose address names none.
pub const DEFAULT_PORT: u16 = 8081;

/// How many messages the outbound queue of a connection holds.
pub const OUT_CHANNEL_CAPACITY: usize = 128;

/// Where a connection stands in its cycle: it is down, it is being set up,
/// or it is up. A connection that is up or being set up goes down when it
/// ends, and from there it is set up again.
#[derive(Clone, Copy, Debug, PartialEq, Eq, Structural)]
pub enum ConnState {
    Disconnected,
    Connecting,
    Connected,
}

/// The name of the header in which the handshake announces the account.
pub const SELF_ID_HEADER: &'static str = "x-self-id";

/// The state of the connection to one plugin.
#[derive(Debug)]
pub struct PluginConnection {
    pub plugin: Plugin,
    pub state: ConnState,
    /// How many connection attempts have been started.
    pub url_index: u32,
    /// How many events have been framed.
    pub event_seq: u32,
    /// Whether the connection was told to stop.
    pub stopped: bool,
}

/// The address that is tried at the attempt number `index`: the addresses
/// take turns; with no address at all it is the empty string.
pub open spec fn url_at(urls: Seq<Seq<char>>, index: u32) -> Seq<char> {
    if urls.len() == 0 {
        Seq::empty()
    } else {
        urls[(index as int) % (urls.len() as int)]
    }
}

/// The host and port to open the socket to: the host of the URI, or
/// `localhost`; a colon; the port of the URI, or 8081.
pub open spec fn socket_addr(host: Option<Seq<char>>, port: Option<u16>) -> Seq<char> {
    (match host {
        Some(h) => h,
        None => "localhost"@,
    }) + seq![':'] + decimal(
        match port {
            Some(p) => p as int,
            None => DEFAULT_PORT as int,
        },
    )
}

/// The payload of the keep-alive ping.
pub open spec fn ping_payload() -> Seq<u8> {
    seq![112u8, 105u8, 110u8, 103u8]
}

/// The number of events framed after one more was framed.
pub open spec fn next_seq(seq: u32) -> u32 {
    if seq == u32::MAX {
        0u32
    } else {
        (seq + 1) as u32
    }
}

/// Whether `frame` is the frame that carries `event` from the bot `bot_id`
/// over the connection `before`, and `after` is the connection after that:
/// the frame names the plugin, its type follows the kind of event, its echo
/// is the number of events framed before, it is ok and carries the event;
/// the connection has counted one more event and is otherwise the same.
pub open spec fn event_framed(
    before: PluginConnection,
    after: PluginConnection,
    bot_id: i64,
    event: Data,
    frame: EventFrame,
) -> bool {
    &&& frame.plugin@ == before.plugin.name@
    &&& frame.bot_id == bot_id
    &&& frame.frame_type == FrameType::spec_of_event(event).spec_code()
    &&& frame.echo@ == decimal(before.event_seq as int)
    &&& frame.ok
    &&& *frame.data == event
    &&& after.event_seq == next_seq(before.event_seq)
    &&& after.plugin == before.plugin
    &&& after.state == before.state
    &&& after.url_index == before.url_index
    &&& after.stopped == before.stopped
}

impl PluginConnection {
    /// A connection for `plugin` that has not been tried yet. The addresses
    /// of the plugin are put in a random order, in which they then take
    /// turns.
    pub fn new(plugin: Plugin) -> (c: Self)
        ensures
            c.plugin.name == plugin.name,
            c.plugin.disabled == plugin.disabled,
            c.plugin.urls.deep_view().to_multiset() == plugin.urls.deep_view().to_multiset(),
            c.state == ConnState::Disconnected,
            c.url_index == 0,
            c.event_seq == 0,
            !c.stopped,
    {
        let mut plugin = plugin;
        let mut rng = thread_rng();
        shuffle(&mut plugin.urls, &mut rng);
        PluginConnection {
            plugin,
            state: ConnState::Disconnected,
            url_index: 0,
            event_seq: 0,
            stopped: false,
        }
    }

    /// Tells the connection to stop: its loop ends and its supervisor does
    /// not connect again.
    pub fn stop(&mut self)
        ensures
            final(self).stopped,
            final(self).plugin == old(self).plugin,
            final(self).state == old(self).state,
            final(self).url_index == old(self).url_index,
            final(self).event_seq == old(self).event_seq,
    {
        self.stopped = true;
    }

    /// Starts one connection attempt for the bot `uin`: counts the attempt,
    /// picks the address whose turn it is and says where to connect; the
    /// connection is then being set up. Fails with `InvalidUri` where the
    /// address is no URI, as the empty string that stands for "no address"
    /// is not; the connection is then down.
    pub fn start(&mut self, uin: i64) -> (r: RCResult<Dial>)
        ensures
            final(self).url_index == if old(self).url_index == u32::MAX {
                0u32
            } else {
                (old(self).url_index + 1) as u32
            },
            final(self).plugin == old(self).plugin,
            final(self).event_seq == old(self).event_seq,
            final(self).stopped == old(self).stopped,
            final(self).state == if r is Ok {
                ConnState::Connecting
            } else {
                ConnState::Disconnected
            },
            match uri_parts(url_at(old(self).plugin.urls.deep_view(), old(self).url_index)) {
                Some((host, port)) => r matches Ok(dial) && dial.uri@ == url_at(
                    old(self).plugin.urls.deep_view(),
                    old(self).url_index,
                ) && dial.addr@ == socket_addr(host, port) && dial.self_id == uin,
                None => r matches Err(e) && e is InvalidUri,
            },
            old(self).plugin.urls@.len() == 0 ==> r is Err,
    {
        let index: u32 = self.url_index;
        self.url_index = if index == u32::MAX {
            0
        } else {
            index + 1
        };
        let uri: String = if self.plugin.urls.len() == 0 {
            String::new()
        } else {
            self.plugin.urls[index as usize % self.plugin.urls.len()].clone()
        };
        match parse_uri(uri.as_str()) {
            Err(e) => {
                self.state = ConnState::Disconnected;
                Err(RCError::InvalidUri(e))
            },
            Ok(parts) => {
                self.state = ConnState::Connecting;
                let mut addr: Vec<char> = match parts.host {
                    Some(h) => chars_of(h.as_str()),
                    None => chars_of("localhost"),
                };
                addr.push(':');
                let port: u16 = match parts.port {
                    Some(p) => p,
                    None => DEFAULT_PORT,
                };
                push_decimal(&mut addr, port as i64);
                Ok(Dial { uri, addr: string_of(&addr), self_id: uin })
            },
        }
    }

    /// Takes note that the handshake has succeeded: a connection that was
    /// being set up is up now.
    pub fn connected(&mut self)
        ensures
            final(self).state == if old(self).state == ConnState::Connecting {
                ConnState::Connected
            } else {
                old(self).state
            },
            final(self).plugin == old(self).plugin,
            final(self).url_index == old(self).url_index,
            final(self).event_seq == old(self).event_seq,
            final(self).stopped == old(self).stopped,
    {
        match self.state {
            ConnState::Connecting => {
                self.state = ConnState::Connected;
            },
            _ => {},
        }
    }

    /// Takes note that an attempt has ended, for whatever reason, and
    /// decides what the supervisor does: the connection is down; where it
    /// was stopped it is given up, otherwise it is tried again after five
    /// seconds.
    pub fn after_disconnect(&mut self) -> (s: Supervision)
        ensures
            s == if old(self).stopped {
                Supervision::Exit
            } else {
                Supervision::Retry { seconds: RECONNECT_SECONDS }
            },
            final(self).state == ConnState::Disconnected,
            final(self).plugin == old(self).plugin,
            final(self).url_index == old(self).url_index,
            final(self).event_seq == old(self).event_seq,
            final(self).stopped == old(self).stopped,
    {
        self.state = ConnState::Disconnected;
        if self.stopped {
            Supervision::Exit
        } else {
            Supervision::Retry { seconds: RECONNECT_SECONDS }
        }
    }

    /// Frames an event whose payload is shared with the frames for other
    /// plugins; in all else as `handle_event` does.
    pub fn frame_event(&mut self, bot_id: i64, event: &Arc<Data>) -> (frame: EventFrame)
        ensures
            event_framed(*old(self), *final(self), bot_id, **event, frame),
    {
        let seq: u32 = self.event_seq;
        self.event_seq = if seq == u32::MAX {
            0
        } else {
            seq + 1
        };
        EventFrame {
            plugin: self.plugin.name.clone(),
            bot_id,
            frame_type: FrameType::of_event(&**event).code(),
            echo: decimal_string(seq as i64),
            ok: true,
            data: share(event),
        }
    }

    /// Frames an event for the plugin: the frame type follows the kind of
    /// event, the echo is the number of events framed before this one, and
    /// that number goes up by one.
    pub fn handle_event(&mut self, bot_id: i64, event: Data) -> (frame: Frame)
        ensures
            frame.bot_id == bot_id,
            frame.frame_type == FrameType::spec_of_event(event).spec_code(),
            frame.echo@ == decimal(old(self).event_seq as int),
            frame.ok,
            frame.data == Some(event),
            frame.extra@.len() == 0,
            final(self).event_seq == if old(self).event_seq == u32::MAX {
                0u32
            } else {
                (old(self).event_seq + 1) as u32
            },
            final(self).plugin == old(self).plugin,
            final(self).state == old(self).state,
            final(self).url_index == old(self).url_index,
            final(self).stopped == old(self).stopped,
    {
        let seq: u32 = self.event_seq;
        self.event_seq = if seq == u32::MAX {
            0
        } else {
            seq + 1
        };
        let frame_type: i32 = FrameType::of_event(&event).code();
        Frame {
            bot_id,
            frame_type,
            echo: decimal_string(seq as i64),
            ok: true,
            data: Some(event),
            extra: Vec::new(),
        }
    }
}

/// The reason with which the loop ends when the outbound queue fails.
pub open spec fn outbound_failure(reason: Seq<char>) -> Seq<char> {
    "failed to recv out_message "@ + reason
}

/// What the loop of a connection does about `event`.
///
/// A tick sends the keep-alive ping. A message from the outbound queue is
/// written to the socket. A binary message from the plugin is handled as a
/// request, a ping is answered by a pong with the same payload, a close
/// ends the loop, and so do the end of the stream, a failure of the socket
/// or of the queue, and the stop signal. Anything else is passed over.
pub open spec fn conn_step(event: ConnEvent, action: ConnAction) -> bool {
    match event {
        ConnEvent::Tick => action matches ConnAction::Enqueue(Message::Ping(p)) && p@
            == ping_payload(),
        ConnEvent::Outbound(Ok(m)) => action == ConnAction::Write(m),
        ConnEvent::Outbound(Err(reason)) => action matches ConnAction::Exit(RCError::Other(text))
            && text@ == outbound_failure(reason@),
        ConnEvent::Inbound(None) => action matches ConnAction::Exit(RCError::Other(text)) && text@
            == "failed to recv ws in_message"@,
        ConnEvent::Inbound(Some(Err(reason))) => action matches ConnAction::Exit(
            RCError::WS(text),
        ) && text == reason,
        ConnEvent::Inbound(Some(Ok(Message::Binary(bytes)))) => action == ConnAction::Handle(
            bytes,
        ),
        ConnEvent::Inbound(Some(Ok(Message::Ping(payload)))) => action == ConnAction::Enqueue(
            Message::Pong(payload),
        ),
        ConnEvent::Inbound(Some(Ok(Message::Close))) => action matches ConnAction::Exit(
            RCError::Other(text),
        ) && text@ == "connection is closed"@,
        ConnEvent::Inbound(Some(Ok(_))) => action is Nothing,
        ConnEvent::Stop => action matches ConnAction::Exit(RCError::Other(text)) && text@
            == "plugin is stopped"@,
    }
}

/// Decides what the loop of a connection does about `event`.
pub fn on_conn_event(event: ConnEvent) -> (action: ConnAction)
    ensures
        conn_step(event, action),
{
    match event {
        ConnEvent::Tick => {
            let mut p: Vec<u8> = Vec::new();
            p.push(112u8);
            p.push(105u8);
            p.push(110u8);
            p.push(103u8);
            assert(p@ =~= ping_payload());
            ConnAction::Enqueue(Message::Ping(p))
        },
        ConnEvent::Outbound(Ok(m)) => ConnAction::Write(m),
        ConnEvent::Outbound(Err(reason)) => {
            let mut text = chars_of("failed to recv out_message ");
            push_str(&mut text, reason.as_str());
            ConnAction::Exit(RCError::Other(string_of(&text)))
        },
        ConnEvent::Inbound(None) => ConnAction::Exit(
            RCError::Other("failed to recv ws in_message".to_string()),
        ),
        ConnEvent::Inbound(Some(Err(reason))) => ConnAction::Exit(RCError::WS(reason)),
        ConnEvent::Inbound(Some(Ok(m))) => match m {
            Message::Binary(bytes) => ConnAction::Handle(bytes),
            Message::Ping(payload) => ConnAction::Enqueue(Message::Pong(payload)),
            Message::Close => ConnAction::Exit(RCError::Other("connection is closed".to_string())),
            _ => ConnAction::Nothing,
        },
        ConnEvent::Stop => ConnAction::Exit(RCError::Other("plugin is stopped".to_string())),
    }
}

} // verus!
