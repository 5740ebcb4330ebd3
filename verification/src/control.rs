//! The decisions of a WebSocket control connection: what each socket event leads to,
//! when a silent peer is given up, how reconnection backs off, and the events reported
//! to the user interface.
use vstd::prelude::*;

use crate::device::Device;
use crate::session::{WsConnectionChangedEvent, WsConnectionChangedEventView};
use crate::text::{decimal, decimal_string, str_eq};

verus! {

broadcast use vstd::string::group_string_axioms;

/// Time between two heartbeats, in milliseconds.
pub const HEARTBEAT_INTERVAL_MILLIS: u64 = 5000;

/// A peer not heard from for longer than this, in milliseconds, is given up.
pub const HEARTBEAT_TIMEOUT_MILLIS: i64 = 15000;

/// `a - b`, clamped to the range of `i64` (`i64::saturating_sub`).
pub open spec fn saturating_sub(a: i64, b: i64) -> i64 {
    let d = a - b;
    if d > i64::MAX {
        i64::MAX
    } else if d < i64::MIN {
        i64::MIN
    } else {
        d as i64
    }
}

/// `a - b`, clamped to the range of `i64`.
pub fn saturating_sub_i64(a: i64, b: i64) -> (r: i64)
    ensures
        r == saturating_sub(a, b),
{
    let d = a as i128 - b as i128;
    if d > i64::MAX as i128 {
        i64::MAX
    } else if d < i64::MIN as i128 {
        i64::MIN
    } else {
        d as i64
    }
}

/// Whether a peer last heard from at `last_seen` is given up at `now`.
pub fn heartbeat_expired(now: i64, last_seen: i64) -> (b: bool)
    ensures
        b == (saturating_sub(now, last_seen) > HEARTBEAT_TIMEOUT_MILLIS),
{
    saturating_sub_i64(now, last_seen) > HEARTBEAT_TIMEOUT_MILLIS
}

/// Something that happened on a control connection.
#[derive(Clone, Debug)]
pub enum SocketEvent {
    /// A text frame arrived.
    Text,
    /// A ping or pong frame arrived.
    PingOrPong,
    /// A binary or raw frame arrived.
    Binary,
    /// The peer closed the socket, or the stream ended.
    Closed,
    /// Reading from the socket failed, with this description.
    ReadFailed(String),
    /// Writing to the socket failed, with this description.
    WriteFailed(String),
    /// A heartbeat could not be handed to the socket, with this error.
    HeartbeatFailed(String),
    /// The heartbeat timer fired.
    HeartbeatTick,
    /// A frame queued for this peer is ready to be written.
    Outbound,
    /// The queue of frames for this peer was closed.
    OutboundClosed,
}

/// What the connection does in answer to a [`SocketEvent`].
#[derive(Clone, Debug)]
pub enum SocketAction {
    /// Hand the text to the control-event handler.
    HandleText,
    /// Record that the peer was heard from.
    MarkEvent,
    /// Do nothing.
    Ignore,
    /// Send a heartbeat event.
    SendHeartbeat,
    /// Write the queued frame to the socket.
    Forward,
    /// End the connection, closing its session with this error, if any.
    Stop(Option<String>),
}

/// The mathematical value of a [`SocketAction`].
pub ghost enum SocketActionView {
    HandleText,
    MarkEvent,
    Ignore,
    SendHeartbeat,
    Forward,
    Stop(Option<Seq<char>>),
}

impl View for SocketAction {
    type V = SocketActionView;

    open spec fn view(&self) -> SocketActionView {
        match self {
            SocketAction::HandleText => SocketActionView::HandleText,
            SocketAction::MarkEvent => SocketActionView::MarkEvent,
            SocketAction::Ignore => SocketActionView::Ignore,
            SocketAction::SendHeartbeat => SocketActionView::SendHeartbeat,
            SocketAction::Forward => SocketActionView::Forward,
            SocketAction::Stop(e) => SocketActionView::Stop(e.deep_view()),
        }
    }
}

/// The next "last heard from" time and the action, for `event` at `now` on a connection
/// whose peer was last heard from at `last_seen`.
pub open spec fn socket_transition(last_seen: i64, now: i64, event: SocketEvent) -> (
    i64,
    SocketActionView,
) {
    match event {
        SocketEvent::Text => (now, SocketActionView::HandleText),
        SocketEvent::PingOrPong => (now, SocketActionView::MarkEvent),
        SocketEvent::Binary => (last_seen, SocketActionView::Ignore),
        SocketEvent::Closed => (last_seen, SocketActionView::Stop(None)),
        SocketEvent::ReadFailed(d) => (
            last_seen,
            SocketActionView::Stop(Some("WebSocket 读取失败: "@ + d@)),
        ),
        SocketEvent::WriteFailed(d) => (
            last_seen,
            SocketActionView::Stop(Some("WebSocket 写入失败: "@ + d@)),
        ),
        SocketEvent::HeartbeatFailed(e) => (last_seen, SocketActionView::Stop(Some(e@))),
        SocketEvent::HeartbeatTick => if saturating_sub(now, last_seen) > HEARTBEAT_TIMEOUT_MILLIS {
            (last_seen, SocketActionView::Stop(Some("WebSocket 心跳超时"@)))
        } else {
            (last_seen, SocketActionView::SendHeartbeat)
        },
        SocketEvent::Outbound => (last_seen, SocketActionView::Forward),
        SocketEvent::OutboundClosed => (last_seen, SocketActionView::Stop(None)),
    }
}

/// One step of a control connection: the new "last heard from" time and what to do.
pub fn socket_step(last_seen: i64, now: i64, event: SocketEvent) -> (r: (i64, SocketAction))
    ensures
        (r.0, r.1@) == socket_transition(last_seen, now, event),
{
    match event {
        SocketEvent::Text => (now, SocketAction::HandleText),
        SocketEvent::PingOrPong => (now, SocketAction::MarkEvent),
        SocketEvent::Binary => (last_seen, SocketAction::Ignore),
        SocketEvent::Closed => (last_seen, SocketAction::Stop(None)),
        SocketEvent::ReadFailed(d) => (
            last_seen,
            SocketAction::Stop(Some("WebSocket 读取失败: ".to_owned().concat(d.as_str()))),
        ),
        SocketEvent::WriteFailed(d) => (
            last_seen,
            SocketAction::Stop(Some("WebSocket 写入失败: ".to_owned().concat(d.as_str()))),
        ),
        SocketEvent::HeartbeatFailed(e) => (last_seen, SocketAction::Stop(Some(e))),
        SocketEvent::HeartbeatTick => if heartbeat_expired(now, last_seen) {
            (last_seen, SocketAction::Stop(Some("WebSocket 心跳超时".to_owned())))
        } else {
            (last_seen, SocketAction::SendHeartbeat)
        },
        SocketEvent::Outbound => (last_seen, SocketAction::Forward),
        SocketEvent::OutboundClosed => (last_seen, SocketAction::Stop(None)),
    }
}

/// A peer heard from (a text, ping or pong frame) at `heard_at` is not given up by a
/// heartbeat at any later time within the timeout; the heartbeat is sent instead.
pub proof fn lemma_heard_peer_is_kept(last_seen: i64, heard_at: i64, now: i64, event: SocketEvent)
    requires
        event is Text || event is PingOrPong,
        heard_at <= now,
        now - heard_at <= HEARTBEAT_TIMEOUT_MILLIS,
    ensures
        socket_transition(socket_transition(last_seen, heard_at, event).0, now, SocketEvent::HeartbeatTick)
            == (heard_at, SocketActionView::SendHeartbeat),
{
}

/// Only hearing from the peer (a text, ping or pong frame) moves the time it was last
/// heard from, to the time of the frame; every other event, our own outbound frames and
/// heartbeats among them, leaves that time as it was.
pub proof fn lemma_only_hearing_moves_last_seen(last_seen: i64, now: i64, event: SocketEvent)
    ensures
        (event is Text || event is PingOrPong) ==> socket_transition(last_seen, now, event).0
            == now,
        !(event is Text || event is PingOrPong) ==> socket_transition(last_seen, now, event).0
            == last_seen,
{
}

/// A peer silent since `last_seen` is given up at a heartbeat more than the timeout
/// later, whatever we did in between that was not hearing from it (writing a queued
/// frame, sending a heartbeat, ignoring a binary frame).
pub proof fn lemma_our_frames_do_not_keep_a_silent_peer(
    last_seen: i64,
    at: i64,
    event: SocketEvent,
    now: i64,
)
    requires
        !(event is Text || event is PingOrPong),
        now - last_seen > HEARTBEAT_TIMEOUT_MILLIS,
    ensures
        socket_transition(socket_transition(last_seen, at, event).0, now, SocketEvent::HeartbeatTick)
            == (last_seen, SocketActionView::Stop(Some("WebSocket 心跳超时"@))),
{
}

/// A peer silent for longer than the timeout is given up at the next heartbeat.
pub proof fn lemma_silent_peer_is_given_up(last_seen: i64, now: i64)
    requires
        now - last_seen > HEARTBEAT_TIMEOUT_MILLIS,
    ensures
        socket_transition(last_seen, now, SocketEvent::HeartbeatTick).1 == SocketActionView::Stop(
            Some("WebSocket 心跳超时"@),
        ),
{
}

/// How a received control event is reported.
#[derive(Clone, Copy, Debug, PartialEq, Eq, Structural)]
pub enum PeerEventKind {
    /// The peer says hello or announces itself online.
    Online,
    /// The peer announces itself offline.
    Offline,
    /// Heartbeats and unknown events are not reported.
    Silent,
}

/// The kind of report for a control event of type `t`.
pub open spec fn peer_event_kind(t: Seq<char>) -> PeerEventKind {
    if t == "hello"@ || t == "deviceOnline"@ {
        PeerEventKind::Online
    } else if t == "deviceOffline"@ {
        PeerEventKind::Offline
    } else {
        PeerEventKind::Silent
    }
}

/// The kind of report for a control event of type `event_type`.
pub fn classify_peer_event(event_type: &str) -> (k: PeerEventKind)
    ensures
        k == peer_event_kind(event_type@),
{
    if str_eq(event_type, "hello") || str_eq(event_type, "deviceOnline") {
        PeerEventKind::Online
    } else if str_eq(event_type, "deviceOffline") {
        PeerEventKind::Offline
    } else {
        PeerEventKind::Silent
    }
}

/// Seconds to wait before reconnection attempt number `attempt + 1`: 1, then 3, then 10
/// for every later attempt.
pub open spec fn backoff_secs(attempt: nat) -> u64 {
    if attempt == 0 {
        1
    } else if attempt == 1 {
        3
    } else {
        10
    }
}

/// Seconds to wait after failed attempt number `attempt`, counted from 0.
pub fn reconnect_delay_secs(attempt: usize) -> (s: u64)
    ensures
        s == backoff_secs(attempt as nat),
{
    let backoffs: [u64; 3] = [1, 3, 10];
    let i = if attempt < 2 {
        attempt
    } else {
        2
    };
    backoffs[i]
}

/// The attempt counter after a connection attempt: back to 0 after a connection that
/// ended normally, one more (saturating) after a failure.
pub fn next_attempt(attempt: usize, failed: bool) -> (n: usize)
    ensures
        !failed ==> n == 0,
        failed ==> n == if attempt < usize::MAX {
            attempt + 1
        } else {
            attempt as int
        },
{
    if failed {
        attempt.saturating_add(1)
    } else {
        0
    }
}

/// The wait between reconnection attempts never shrinks as failures pile up, and never
/// exceeds ten seconds.
pub proof fn lemma_backoff_monotone(a: nat, b: nat)
    requires
        a <= b,
    ensures
        backoff_secs(a) <= backoff_secs(b) <= 10,
        backoff_secs(a) >= 1,
{
}

/// Whether a connection to `device` should be started: never to this device itself, and
/// not while a session with it is live.
pub fn should_connect(device_id: &str, local_device_id: &str, already_connected: bool) -> (b: bool)
    ensures
        b == (device_id@ != local_device_id@ && !already_connected),
{
    !str_eq(device_id, local_device_id) && !already_connected
}

/// The address the control connection to a saved device dials.
pub fn ws_connect_url(device: &Device, local_device_id: &str) -> (u: String)
    ensures
        u@ == "ws://"@ + device.ip@ + ":"@ + decimal(device.port as nat) + "/api/ws?deviceId="@
            + local_device_id@,
{
    let port = decimal_string(device.port as u64);
    "ws://".to_owned().concat(device.ip.as_str()).concat(":").concat(port.as_str()).concat(
        "/api/ws?deviceId=",
    ).concat(local_device_id)
}

/// The report of a control connection that just came up.
pub fn connected_event(peer_device_id: String, peer_device_name: Option<String>, at: i64) -> (e:
    WsConnectionChangedEvent)
    ensures
        e@ == (WsConnectionChangedEventView {
            peer_device_id: peer_device_id@,
            peer_device_name: peer_device_name.deep_view(),
            connected: true,
            state: "connected"@,
            last_event_at: Some(at),
            error: None,
        }),
{
    WsConnectionChangedEvent {
        peer_device_id,
        peer_device_name,
        connected: true,
        state: "connected".to_owned(),
        last_event_at: Some(at),
        error: None,
    }
}

/// The report of a control connection that just went down, with its error, if any.
pub fn disconnected_event(
    peer_device_id: String,
    peer_device_name: Option<String>,
    at: i64,
    error: Option<String>,
) -> (e: WsConnectionChangedEvent)
    ensures
        e@ == (WsConnectionChangedEventView {
            peer_device_id: peer_device_id@,
            peer_device_name: peer_device_name.deep_view(),
            connected: false,
            state: "disconnected"@,
            last_event_at: Some(at),
            error: error.deep_view(),
        }),
{
    WsConnectionChangedEvent {
        peer_device_id,
        peer_device_name,
        connected: false,
        state: "disconnected".to_owned(),
        last_event_at: Some(at),
        error,
    }
}

/// The report of a failed connection attempt that will be retried.
pub fn reconnecting_event(device: &Device, at: i64, error: String) -> (e: WsConnectionChangedEvent)
    ensures
        e@ == (WsConnectionChangedEventView {
            peer_device_id: device.id@,
            peer_device_name: Some(device.name@),
            connected: false,
            state: "reconnecting"@,
            last_event_at: Some(at),
            error: Some(error@),
        }),
{
    WsConnectionChangedEvent {
        peer_device_id: device.id.clone(),
        peer_device_name: Some(device.name.clone()),
        connected: false,
        state: "reconnecting".to_owned(),
        last_event_at: Some(at),
        error: Some(error),
    }
}

} // verus!
