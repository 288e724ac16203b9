//! The connection session state machine.
//!
//! A session is created when a connection-upgrade request names a game the
//! registry knows; it subscribes to that game's bus first, then starts two
//! cooperatively scheduled sub-tasks against its own state: the liveness
//! monitor ([`crate::heartbeat::Heartbeat`]) and the event forwarder
//! ([`crate::event_listener::EventListener`]). Inbound frames update the
//! last-activity timestamp and drive the state machine
//! `Starting -> Active -> Stopping -> Stopped`; the connection glue owns
//! the socket, the timer and the clock, performs the returned actions and
//! cancels both sub-tasks on teardown (both are cancel-safe: neither holds
//! state that must be flushed).

use vstd::prelude::*;

use crate::event_listener::EventListener;
use crate::game::Subscription;
use crate::heartbeat::Heartbeat;
use crate::manager::GamesManager;

verus! {

/// The liveness monitor's period.
pub const HEARTBEAT_INTERVAL_MS: u64 = 29000;

/// How far past the period the monitor still tolerates silence.
pub const HEARTBEAT_LENIENCY_MS: u64 = 1000;

/// Where a session stands in its lifecycle.
#[derive(Debug, Clone, Copy, PartialEq, Eq, Structural)]
pub enum SessionState {
    /// Created, sub-tasks not yet started.
    Starting,
    /// Both sub-tasks running; inbound frames are dispatched.
    Active,
    /// Teardown requested; sub-tasks are to be cancelled.
    Stopping,
    /// Both sub-tasks cancelled, subscription released.
    Stopped,
}

/// An inbound frame, as the connection glue hands it over.
#[derive(Debug)]
pub enum Frame {
    /// A text frame, carrying a client-originated event.
    Text(String),
    /// The client closed the connection.
    Close,
    /// Any other well-formed frame (ping, pong, binary, continuation).
    Other,
    /// A frame the protocol layer could not parse.
    Invalid,
}

/// What the connection glue must do after a frame was handled.
#[derive(Debug, Clone, Copy, PartialEq, Eq, Structural)]
pub enum FrameAction {
    /// Keep the connection open.
    Continue,
    /// Tear the session down.
    Stop,
}

/// Query parameters of a connection-upgrade request.
#[derive(Debug, Clone, Copy, PartialEq, Eq, Structural)]
pub struct WsParams {
    /// the identifier of the game the client wishes to monitor
    pub game: u128,
}

/// Why a connection-upgrade request was rejected.
#[derive(Debug, Clone, Copy, PartialEq, Eq, Structural)]
pub enum WsRequestError {
    /// there is no such game
    NoSuchGame,
}

impl WsRequestError {
    /// A rejected upgrade is the client's fault: HTTP 400.
    pub fn status_code(&self) -> (c: u16)
        ensures
            c == 400,
    {
        400
    }

    /// The human-readable description of this rejection.
    pub fn message(&self) -> (m: String)
        ensures
            m@ == "there is no such game"@,
    {
        String::from_str("there is no such game")
    }
}

/// The state owned by one live connection.
#[derive(Debug)]
pub struct Session {
    state: SessionState,
    last_message_ms: u64,
    game: u128,
    listener: Option<Subscription>,
}

/// Builds the session for an upgrade request naming `game_id`: looks the
/// game up and subscribes to its bus. When the registry does not know the
/// identifier the upgrade is rejected and no session ever exists.
pub fn open_session(manager: &GamesManager, game_id: u128, now_ms: u64) -> (r: Result<
    Session,
    WsRequestError,
>)
    ensures
        r is Ok <==> manager.spec_games().contains_key(game_id),
        match r {
            Ok(s) => {
                &&& s.spec_state() is Starting
                &&& s.spec_last_activity_ms() == now_ms
                &&& s.spec_game_id() == game_id
                &&& match s.spec_listener() {
                    Some(sub) => {
                        &&& sub.spec_game_id() == manager.spec_games()[game_id].spec_id()
                        &&& sub.spec_cursor() == manager.spec_games()[game_id].spec_history().len()
                    },
                    None => false,
                }
            },
            Err(e) => e is NoSuchGame,
        },
{
    match manager.get_game(game_id) {
        Some(game) => {
            let sub = game.subscribe_to();
            Ok(
                Session {
                    state: SessionState::Starting,
                    last_message_ms: now_ms,
                    game: game_id,
                    listener: Some(sub),
                },
            )
        },
        None => Err(WsRequestError::NoSuchGame),
    }
}

impl Session {
    pub closed spec fn spec_state(&self) -> SessionState {
        self.state
    }

    /// When the client was last heard from, in milliseconds on the
    /// connection glue's monotonic clock.
    pub closed spec fn spec_last_activity_ms(&self) -> u64 {
        self.last_message_ms
    }

    pub closed spec fn spec_game_id(&self) -> u128 {
        self.game
    }

    /// The subscription held while the forwarder has not started yet.
    pub closed spec fn spec_listener(&self) -> Option<Subscription> {
        self.listener
    }

    /// The session's state, for the connection glue.
    pub fn state(&self) -> (s: SessionState)
        ensures
            s == self.spec_state(),
    {
        self.state
    }

    /// The last-activity timestamp the liveness monitor reads.
    pub fn last_activity_ms(&self) -> (t: u64)
        ensures
            t == self.spec_last_activity_ms(),
    {
        self.last_message_ms
    }

    /// Starts the two sub-tasks: hands back the liveness monitor and the
    /// event forwarder (built over the session's subscription) for the
    /// connection glue to schedule, and becomes `Active`.
    pub fn start(&mut self) -> (tasks: (Heartbeat, EventListener))
        requires
            old(self).spec_state() is Starting,
            old(self).spec_listener() is Some,
        ensures
            final(self).spec_state() is Active,
            final(self).spec_listener() is None,
            final(self).spec_last_activity_ms() == old(self).spec_last_activity_ms(),
            final(self).spec_game_id() == old(self).spec_game_id(),
            tasks.0.spec_interval_ms() == HEARTBEAT_INTERVAL_MS,
            tasks.0.spec_leniency_ms() == HEARTBEAT_LENIENCY_MS,
            tasks.0.wf(),
            tasks.1.spec_rx() == old(self).spec_listener().unwrap(),
    {
        let sub = self.listener.take().unwrap();
        self.state = SessionState::Active;
        (Heartbeat::new(HEARTBEAT_INTERVAL_MS, HEARTBEAT_LENIENCY_MS), EventListener::new(sub))
    }

    /// Dispatches one inbound frame. Every frame, whatever its kind,
    /// counts as client activity. A close frame begins teardown. A text
    /// frame carries a client event, but the client-event set is still
    /// empty, so nothing decodes: the frame is logged by the glue and
    /// ignored here, and a malformed frame is treated the same way rather
    /// than crashing the session. Everything else is ignored.
    pub fn handle_frame(&mut self, frame: &Frame, now_ms: u64) -> (act: FrameAction)
        requires
            old(self).spec_state() is Active,
        ensures
            final(self).spec_last_activity_ms() == now_ms,
            final(self).spec_game_id() == old(self).spec_game_id(),
            final(self).spec_listener() == old(self).spec_listener(),
            frame is Close ==> act is Stop && final(self).spec_state() is Stopping,
            !(frame is Close) ==> act is Continue && final(self).spec_state() == old(
                self,
            ).spec_state(),
    {
        self.last_message_ms = now_ms;
        match frame {
            Frame::Close => {
                self.state = SessionState::Stopping;
                FrameAction::Stop
            },
            _ => FrameAction::Continue,
        }
    }

    /// The forwarder's bus closed under it (its game value dropped, or the
    /// real channel lagged out): the whole session is torn down, not just
    /// the forwarder task, so the connection never lingers with no further
    /// events.
    pub fn on_forwarder_closed(&mut self)
        requires
            old(self).spec_state() is Active,
        ensures
            final(self).spec_state() is Stopping,
            final(self).spec_last_activity_ms() == old(self).spec_last_activity_ms(),
            final(self).spec_game_id() == old(self).spec_game_id(),
            final(self).spec_listener() == old(self).spec_listener(),
    {
        self.state = SessionState::Stopping;
    }

    /// Final teardown: after the glue has cancelled both sub-tasks (safe
    /// at any suspension point) and released the socket, the session is
    /// `Stopped`.
    pub fn stop(&mut self)
        ensures
            final(self).spec_state() is Stopped,
            final(self).spec_last_activity_ms() == old(self).spec_last_activity_ms(),
            final(self).spec_game_id() == old(self).spec_game_id(),
            final(self).spec_listener() == old(self).spec_listener(),
    {
        self.state = SessionState::Stopped;
    }
}

} // verus!
