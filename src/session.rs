use vstd::prelude::*;
use crate::classify::UpdateRecord;
use crate::wire::{
    encode_message, message_json, records_view, update_json, EncodeError, HmrMessage,
};

verus! {

/// Where a client connection stands.
#[derive(Clone, Copy, Debug, PartialEq, Eq, Structural)]
pub enum SessionState {
    Upgrading,
    Connected,
    Streaming,
    Closed,
}

/// What the connection loop observed since the last action.
#[derive(Clone, Debug)]
pub enum SessionEvent {
    /// The connection upgrade succeeded.
    Upgraded,
    /// The last message was written.
    Sent,
    /// Writing the last message failed: the peer is gone or the transport broke.
    SendFailed,
    /// A batch of records arrived from the hub.
    Batch(Vec<UpdateRecord>),
    /// This session fell behind and the hub dropped messages from its queue.
    Lagged,
    /// The hub is gone: no further batch can arrive.
    HubClosed,
    /// The peer closed the connection.
    PeerClosed,
}

/// What the connection loop does next.
#[derive(Clone, Debug)]
pub enum SessionAction {
    /// Write this text to the connection, then report `Sent` or `SendFailed`.
    Send(String),
    /// Wait for the next batch from the hub.
    AwaitBatch,
    /// A batch could not be written as JSON; it is dropped and the session
    /// waits for the next one. Not produced while the encoder accepts every
    /// string, as serde_json does.
    Dropped(EncodeError),
    /// The event does not apply in this state; nothing changes.
    Ignore,
    /// The session is over: release the subscription and end.
    End,
}

pub open spec fn next_state(s: SessionState, e: SessionEvent) -> SessionState {
    match e {
        SessionEvent::SendFailed | SessionEvent::HubClosed | SessionEvent::PeerClosed => {
            SessionState::Closed
        },
        SessionEvent::Upgraded => if s == SessionState::Upgrading {
            SessionState::Connected
        } else {
            s
        },
        SessionEvent::Sent => if s == SessionState::Connected {
            SessionState::Streaming
        } else {
            s
        },
        SessionEvent::Batch(_) | SessionEvent::Lagged => s,
    }
}

/// The action that the session takes on `e` in state `s`.
pub open spec fn action_for(s: SessionState, e: SessionEvent, a: SessionAction) -> bool {
    if next_state(s, e) == SessionState::Closed {
        a is End
    } else {
        match e {
            SessionEvent::Upgraded => if s == SessionState::Upgrading {
                match a {
                    SessionAction::Send(t) => t@ == message_json(HmrMessage::Connected),
                    _ => false,
                }
            } else {
                a is Ignore
            },
            SessionEvent::Sent => if s == SessionState::Connected || s == SessionState::Streaming {
                a is AwaitBatch
            } else {
                a is Ignore
            },
            SessionEvent::Lagged => if s == SessionState::Streaming {
                a is AwaitBatch
            } else {
                a is Ignore
            },
            SessionEvent::Batch(rs) => if s == SessionState::Streaming {
                match a {
                    SessionAction::Send(t) => t@ == message_json(HmrMessage::Update(rs)),
                    _ => false,
                }
            } else {
                a is Ignore
            },
            _ => a is Ignore,
        }
    }
}

/// A new session sends nothing before the handshake: whatever arrives
/// while the connection is being upgraded, the only text it sends from that
/// state is the `connected` message, and only on the upgrade itself.
pub proof fn lemma_handshake_first(e: SessionEvent, a: SessionAction)
    requires
        action_for(SessionState::Upgrading, e, a),
    ensures
        a matches SessionAction::Send(t) ==> e is Upgraded && t@ == message_json(
            HmrMessage::Connected,
        ),
        e is Batch ==> a is Ignore,
{
}

/// A streaming session forwards every batch that reaches it, unchanged, as
/// one update message, and stays streaming; falling behind the hub does not
/// end it. Only a failed write, the peer's close or the hub's end close it.
pub proof fn lemma_streaming_session_delivers(rs: Vec<UpdateRecord>, a: SessionAction)
    requires
        action_for(SessionState::Streaming, SessionEvent::Batch(rs), a),
    ensures
        a matches SessionAction::Send(t) && t@ == update_json(records_view(rs@)),
        next_state(SessionState::Streaming, SessionEvent::Batch(rs)) == SessionState::Streaming,
        next_state(SessionState::Streaming, SessionEvent::Lagged) == SessionState::Streaming,
        next_state(SessionState::Streaming, SessionEvent::Sent) == SessionState::Streaming,
{
}

/// One client connection's decisions, from upgrade to close.
pub struct ConnectionSession {
    state: SessionState,
}

impl ConnectionSession {
    pub closed spec fn spec_state(&self) -> SessionState {
        self.state
    }

    /// A session waiting for its connection upgrade.
    pub fn new() -> (r: Self)
        ensures
            r.spec_state() == SessionState::Upgrading,
    {
        ConnectionSession { state: SessionState::Upgrading }
    }

    pub fn state(&self) -> (r: SessionState)
        ensures
            r == self.spec_state(),
    {
        self.state
    }

    /// Takes in what the connection loop observed and decides the next action.
    pub fn handle(&mut self, event: SessionEvent) -> (r: SessionAction)
        ensures
            final(self).spec_state() == next_state(old(self).spec_state(), event),
            action_for(old(self).spec_state(), event, r),
    {
        let s = self.state;
        let r = match event {
            SessionEvent::SendFailed | SessionEvent::HubClosed | SessionEvent::PeerClosed => {
                self.state = SessionState::Closed;
                SessionAction::End
            },
            _ => {
                if s == SessionState::Closed {
                    SessionAction::End
                } else {
                    match event {
                        SessionEvent::Upgraded => {
                            if s == SessionState::Upgrading {
                                self.state = SessionState::Connected;
                                match encode_message(&HmrMessage::Connected) {
                                    Ok(t) => SessionAction::Send(t),
                                    Err(e) => SessionAction::Dropped(e),
                                }
                            } else {
                                SessionAction::Ignore
                            }
                        },
                        SessionEvent::Sent => {
                            if s == SessionState::Connected {
                                self.state = SessionState::Streaming;
                                SessionAction::AwaitBatch
                            } else if s == SessionState::Streaming {
                                SessionAction::AwaitBatch
                            } else {
                                SessionAction::Ignore
                            }
                        },
                        SessionEvent::Lagged => {
                            if s == SessionState::Streaming {
                                SessionAction::AwaitBatch
                            } else {
                                SessionAction::Ignore
                            }
                        },
                        SessionEvent::Batch(rs) => {
                            if s == SessionState::Streaming {
                                match encode_message(&HmrMessage::Update(rs)) {
                                    Ok(t) => SessionAction::Send(t),
                                    Err(e) => SessionAction::Dropped(e),
                                }
                            } else {
                                SessionAction::Ignore
                            }
                        },
                        _ => SessionAction::Ignore,
                    }
                }
            },
        };
        r
    }
}

} // verus!
