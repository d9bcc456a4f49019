//! The realtime WebSocket link: the authentication message and the
//! decisions of the connection loop (connect, authenticate, listen,
//! reconnect after a delay, stop when cancelled).
//!
//! The surrounding program performs the network work that each step asks
//! for and reports what happened as the next event.

use vstd::prelude::*;

use crate::action::Action;
use crate::json::{json_quoted, parsed_json, quote_json};
use crate::notify::{decode_notification, decodes_to};

verus! {

/// The realtime server.
pub const WS_URL: &'static str = "wss://realtime.artifactsmmo.com";

/// Delay before reconnecting after the link drops (ms).
pub const RECONNECT_DELAY_MS: u64 = 5000;

/// Interval between keep-alive pings (ms).
pub const PING_INTERVAL_MS: u64 = 30000;

/// The authentication message sent after connecting: `{"token":<token>}`
/// with the token as a JSON string.
pub fn auth_message(token: &str) -> (r: String)
    ensures
        r@ == "{\"token\":"@ + json_quoted(token@) + "}"@,
{
    let mut m = String::from_str("{\"token\":");
    let q = quote_json(token);
    m.append(q.as_str());
    m.append("}");
    m
}

/// Where the link is in its loop.
#[derive(Clone, Copy, Debug, PartialEq, Eq, Structural)]
pub enum WsPhase {
    /// About to connect (loop start).
    Idle,
    /// A connection attempt is under way.
    Connecting,
    /// The authentication message is being sent.
    Authenticating,
    /// Connected and authenticated, receiving notifications.
    Listening,
    /// Waiting before the next connection attempt.
    Waiting,
    /// Cancelled: the loop is over.
    Stopped,
}

/// What happened, reported by the surrounding program.
pub enum WsEvent {
    /// The loop should go on (start, or the reconnect delay elapsed).
    Proceed,
    /// Shutdown was requested.
    Cancelled,
    /// The connection was established.
    Connected,
    /// The connection attempt failed.
    ConnectFailed,
    /// The authentication message was sent.
    AuthSent,
    /// Sending the authentication message failed.
    AuthFailed,
    /// Sending a keep-alive ping failed.
    PingFailed,
    /// A text message arrived.
    Text(String),
    /// A frame that needs no handling arrived (pong, binary, ...).
    Ignored,
    /// The server closed the connection, the stream failed or ended.
    Dropped,
}

/// What the surrounding program is to do next.
#[derive(Clone, Copy, Debug, PartialEq, Eq, Structural)]
pub enum WsCommand {
    /// Connect to `WS_URL`.
    Connect,
    /// Send the authentication message.
    Authenticate,
    /// Wait for the next message, ping or cancellation.
    Listen,
    /// Wait `RECONNECT_DELAY_MS` (or until cancelled), then proceed.
    Sleep,
    /// Start the next round at once (unless cancelled).
    Restart,
    /// Close the connection and stop.
    Close,
    /// Stop.
    Stop,
}

/// The WebSocket link loop.
pub struct WsLink {
    pub phase: WsPhase,
}

/// The phase and command after `event` in `phase`: cancellation stops
/// (closing an open connection); a new round announces itself and
/// connects; a connection authenticates; a sent authentication listens; a
/// failed authentication starts a new round at once; a failed connection, a
/// failed ping or a dropped stream waits before reconnecting; messages
/// keep listening. A round starts when the program proceeds (after the
/// delay, or at once after a failed authentication) unless cancelled.
pub open spec fn ws_next(phase: WsPhase, event: WsEvent) -> (WsPhase, WsCommand) {
    match event {
        WsEvent::Cancelled => (
            WsPhase::Stopped,
            if phase == WsPhase::Listening {
                WsCommand::Close
            } else {
                WsCommand::Stop
            },
        ),
        WsEvent::Proceed => (WsPhase::Connecting, WsCommand::Connect),
        WsEvent::Connected => (WsPhase::Authenticating, WsCommand::Authenticate),
        WsEvent::AuthSent => (WsPhase::Listening, WsCommand::Listen),
        WsEvent::AuthFailed => (WsPhase::Idle, WsCommand::Restart),
        WsEvent::ConnectFailed | WsEvent::PingFailed | WsEvent::Dropped => (
            WsPhase::Waiting,
            WsCommand::Sleep,
        ),
        WsEvent::Text(_) | WsEvent::Ignored => (WsPhase::Listening, WsCommand::Listen),
    }
}

/// Whether `acts` are the actions the link emits for `event`: the attempt
/// to connect, the connection, the reasons of a disconnection, and for a
/// text message the raw message followed by the action that the JSON
/// document parsed from it decodes to (nothing more when it is not JSON).
pub open spec fn ws_actions(event: WsEvent, acts: Seq<Action>) -> bool {
    match event {
        WsEvent::Proceed => acts == seq![Action::WsConnect],
        WsEvent::AuthFailed => acts.len() == 1 && (acts[0] matches Action::WsDisconnected(m) && m@
            == "auth failed"@),
        WsEvent::AuthSent => acts == seq![Action::WsConnected],
        WsEvent::ConnectFailed | WsEvent::PingFailed | WsEvent::Dropped => acts.len() == 1 && (
        acts[0] matches Action::WsDisconnected(m) && m@ == "connection lost"@),
        WsEvent::Text(raw) => acts.len() >= 1 && (acts[0] matches Action::RawWsMessage(m)
            && m@ == raw@) && match parsed_json(raw@) {
            None => acts.len() == 1,
            Some(v) => (acts.len() == 1 && decodes_to(v, raw@, None)) || (acts.len() == 2
                && decodes_to(v, raw@, Some(acts[1]))),
        },
        _ => acts.len() == 0,
    }
}

/// The link never gives up and always obeys shutdown: cancellation stops
/// it from every phase (closing an open connection), every failure leads
/// back to a new connection attempt (after the delay, or at once after a
/// failed authentication), and a connection that authenticates listens.
pub proof fn reconnect_law(phase: WsPhase)
    ensures
        ws_next(phase, WsEvent::Cancelled).0 == WsPhase::Stopped,
        ws_next(phase, WsEvent::Cancelled).1 == (if phase == WsPhase::Listening {
            WsCommand::Close
        } else {
            WsCommand::Stop
        }),
        ws_next(phase, WsEvent::ConnectFailed) == (WsPhase::Waiting, WsCommand::Sleep),
        ws_next(phase, WsEvent::PingFailed) == (WsPhase::Waiting, WsCommand::Sleep),
        ws_next(phase, WsEvent::Dropped) == (WsPhase::Waiting, WsCommand::Sleep),
        ws_next(WsPhase::Waiting, WsEvent::Proceed) == (WsPhase::Connecting, WsCommand::Connect),
        ws_next(phase, WsEvent::AuthFailed) == (WsPhase::Idle, WsCommand::Restart),
        ws_next(WsPhase::Idle, WsEvent::Proceed) == (WsPhase::Connecting, WsCommand::Connect),
        ws_next(WsPhase::Connecting, WsEvent::Connected) == (WsPhase::Authenticating, WsCommand::Authenticate),
        ws_next(WsPhase::Authenticating, WsEvent::AuthSent) == (WsPhase::Listening, WsCommand::Listen),
{
}

impl WsLink {
    /// A link at the start of its loop.
    pub fn new() -> (r: WsLink)
        ensures
            r.phase == WsPhase::Idle,
    {
        WsLink { phase: WsPhase::Idle }
    }

    /// Takes one event: returns the actions to dispatch and the next thing
    /// to do (see [`ws_next`] and [`ws_actions`]).
    pub fn step(&mut self, event: WsEvent) -> (r: (Vec<Action>, WsCommand))
        ensures
            (final(self).phase, r.1) == ws_next(old(self).phase, event),
            ws_actions(event, r.0@),
    {
        let ghost ev = event;
        let mut acts: Vec<Action> = Vec::new();
        let cmd = match event {
            WsEvent::Cancelled => {
                let c = if self.phase == WsPhase::Listening {
                    WsCommand::Close
                } else {
                    WsCommand::Stop
                };
                self.phase = WsPhase::Stopped;
                c
            },
            WsEvent::Proceed => {
                acts.push(Action::WsConnect);
                self.phase = WsPhase::Connecting;
                WsCommand::Connect
            },
            WsEvent::Connected => {
                self.phase = WsPhase::Authenticating;
                WsCommand::Authenticate
            },
            WsEvent::AuthSent => {
                acts.push(Action::WsConnected);
                self.phase = WsPhase::Listening;
                WsCommand::Listen
            },
            WsEvent::AuthFailed => {
                acts.push(Action::WsDisconnected(String::from_str("auth failed")));
                self.phase = WsPhase::Idle;
                WsCommand::Restart
            },
            WsEvent::ConnectFailed | WsEvent::PingFailed | WsEvent::Dropped => {
                acts.push(Action::WsDisconnected(String::from_str("connection lost")));
                self.phase = WsPhase::Waiting;
                WsCommand::Sleep
            },
            WsEvent::Text(raw) => {
                acts.push(Action::RawWsMessage(raw.clone()));
                match decode_notification(raw.as_str()) {
                    Some(a) => acts.push(a),
                    None => {},
                }
                self.phase = WsPhase::Listening;
                WsCommand::Listen
            },
            WsEvent::Ignored => {
                self.phase = WsPhase::Listening;
                WsCommand::Listen
            },
        };
        assert(ws_actions(ev, acts@));
        (acts, cmd)
    }
}

} // verus!
