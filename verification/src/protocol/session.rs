//! Protocol sessions: state, authentication and the queue of messages sent
//! through a session.

use vstd::prelude::*;
use crate::kvm_core::types::{epoch_nanos, NetworkAddress, Timestamp};
use crate::protocol::messages::{
    ErrorPayload, GoodbyePayload, HeartbeatPayload, MessagePayload, MessageType, ProtocolMessage,
    session_message,
};
use crate::protocol::{ProtocolConfig, ProtocolError, ProtocolResult};
use crate::text::string_from;

verus! {

/// Peer information for a session, and when the peer was last seen.
#[derive(Debug, Clone)]
pub struct PeerInfo {
    pub peer_id: String,
    pub peer_name: String,
    pub address: NetworkAddress,
    pub capabilities: Vec<String>,
    pub authenticated: bool,
    pub last_seen: Timestamp,
}

/// Session states.
#[derive(Debug, Clone, Copy, PartialEq, Eq, Structural)]
pub enum SessionState {
    Connecting,
    Authenticating,
    Active,
    Suspended,
    Closing,
    Closed,
}

/// What a session is, as its contracts speak of it.
pub struct SessionView {
    pub session_id: Seq<char>,
    pub peer: PeerInfo,
    pub config: ProtocolConfig,
    pub state: SessionState,
    /// Messages sent through the session and not yet received, oldest first.
    pub pending: Seq<ProtocolMessage>,
    /// Whether the receiving end is still open.
    pub receiving: bool,
    pub last_activity: Timestamp,
    pub heartbeat_sequence: u64,
}

/// How a send through a session ends.
pub enum SendOutcome {
    /// The session is not authenticated and the message is neither `Hello`
    /// nor `AuthRequest`.
    Unauthenticated,
    /// The receiving end is closed.
    ChannelClosed,
    /// The message joins the queue.
    Delivered,
}

/// How sending a message of type `t` through a session in state `v` ends.
pub open spec fn send_outcome(v: SessionView, t: MessageType) -> SendOutcome {
    if !v.peer.authenticated && !(t == MessageType::Hello || t == MessageType::AuthRequest) {
        SendOutcome::Unauthenticated
    } else if !v.receiving {
        SendOutcome::ChannelClosed
    } else {
        SendOutcome::Delivered
    }
}

/// The session after `m` joined its queue at time `now`.
pub open spec fn after_delivery(v: SessionView, m: ProtocolMessage, now: Timestamp) -> SessionView {
    SessionView { pending: v.pending.push(m), last_activity: now, ..v }
}

/// The session after its oldest pending message was received at time `now`.
pub open spec fn after_receipt(v: SessionView, now: Timestamp) -> SessionView {
    SessionView { pending: v.pending.drop_first(), last_activity: now, ..v }
}

/// One heartbeat sent from a session in state `old`: the sequence number
/// goes up by one, `m` is the heartbeat of the session with that number,
/// and sending it has its effect (`new`, `r`) whatever the outcome.
pub open spec fn heartbeat_step(old: SessionView, new: SessionView, m: ProtocolMessage, r: ProtocolResult<()>) -> bool {
    &&& session_message(
        m,
        MessageType::Heartbeat,
        MessagePayload::Heartbeat(HeartbeatPayload { sequence_number: (old.heartbeat_sequence + 1) as u64 }),
        old.session_id,
    )
    &&& send_effect(SessionView { heartbeat_sequence: (old.heartbeat_sequence + 1) as u64, ..old }, new, m, r)
}

/// What sending `m` does to the session and what it returns.
pub open spec fn send_effect(
    old: SessionView,
    new: SessionView,
    m: ProtocolMessage,
    r: ProtocolResult<()>,
) -> bool {
    match send_outcome(old, m.header.message_type) {
        SendOutcome::Unauthenticated => new == old && (r matches Err(
            ProtocolError::Authentication(e),
        ) && e@ == "Session not authenticated"@),
        SendOutcome::ChannelClosed => new == old && (r matches Err(ProtocolError::Transport(e))
            && e@ == "Failed to send message: channel closed"@),
        SendOutcome::Delivered => new == after_delivery(old, m, new.last_activity) && r is Ok,
    }
}

/// Session statistics.
#[derive(Debug, Clone)]
pub struct SessionStats {
    pub session_id: String,
    pub state: SessionState,
    pub peer_id: String,
    pub last_activity: Timestamp,
    pub is_authenticated: bool,
    pub message_queue_size: usize,
}

/// Whether more than the session timeout has passed between the last
/// activity and `now`.
pub open spec fn timed_out_at(v: SessionView, now: Timestamp) -> bool {
    epoch_nanos(now) - epoch_nanos(v.last_activity) > v.config.session_timeout * 1_000_000_000
}

/// A protocol session.
pub struct ProtocolSession {
    session_id: String,
    peer_info: PeerInfo,
    config: ProtocolConfig,
    state: SessionState,
    queue: Vec<ProtocolMessage>,
    receiving: bool,
    last_activity: Timestamp,
    heartbeat_sequence: u64,
}

impl View for ProtocolSession {
    type V = SessionView;

    closed spec fn view(&self) -> SessionView {
        SessionView {
            session_id: self.session_id@,
            peer: self.peer_info,
            config: self.config,
            state: self.state,
            pending: self.queue@,
            receiving: self.receiving,
            last_activity: self.last_activity,
            heartbeat_sequence: self.heartbeat_sequence,
        }
    }
}

impl ProtocolSession {
    /// A new session, connecting, with an empty queue and an open
    /// receiving end.
    pub fn new(session_id: String, peer_info: PeerInfo, config: ProtocolConfig) -> (r: Self)
        ensures
            r@.session_id == session_id@,
            r@.peer == peer_info,
            r@.config == config,
            r@.state == SessionState::Connecting,
            r@.pending == Seq::<ProtocolMessage>::empty(),
            r@.receiving,
            r@.heartbeat_sequence == 0,
    {
        ProtocolSession {
            session_id,
            peer_info,
            config,
            state: SessionState::Connecting,
            queue: Vec::new(),
            receiving: true,
            last_activity: Timestamp::now(),
            heartbeat_sequence: 0,
        }
    }

    /// The session id.
    pub fn session_id(&self) -> (r: &str)
        ensures
            r@ == self@.session_id,
    {
        self.session_id.as_str()
    }

    /// The peer information.
    pub fn peer_info(&self) -> (r: &PeerInfo)
        ensures
            *r == self@.peer,
    {
        &self.peer_info
    }

    /// The configuration the session was made with.
    pub fn config(&self) -> (r: &ProtocolConfig)
        ensures
            *r == self@.config,
    {
        &self.config
    }

    /// The current state.
    pub fn state(&self) -> (r: SessionState)
        ensures
            r == self@.state,
    {
        self.state
    }

    /// Sets the state.
    pub fn set_state(&mut self, state: SessionState)
        ensures
            final(self)@ == (SessionView { state, ..old(self)@ }),
    {
        self.state = state;
    }

    /// Whether the session is active.
    pub fn is_active(&self) -> (r: bool)
        ensures
            r == (self@.state == SessionState::Active),
    {
        self.state == SessionState::Active
    }

    /// Whether the peer is authenticated.
    pub fn is_authenticated(&self) -> (r: bool)
        ensures
            r == self@.peer.authenticated,
    {
        self.peer_info.authenticated
    }

    /// Sets whether the peer is authenticated.
    pub fn set_authenticated(&mut self, authenticated: bool)
        ensures
            final(self)@ == (SessionView {
                peer: PeerInfo { authenticated, ..old(self)@.peer },
                ..old(self)@
            }),
    {
        self.peer_info.authenticated = authenticated;
    }

    /// Records activity now.
    pub fn update_activity(&mut self)
        ensures
            final(self)@ == (SessionView { last_activity: final(self)@.last_activity, ..old(self)@ }),
    {
        self.last_activity = Timestamp::now();
    }

    /// The time of the last activity.
    pub fn last_activity(&self) -> (r: Timestamp)
        ensures
            r == self@.last_activity,
    {
        self.last_activity
    }

    /// Whether more than the session timeout has passed between the last
    /// activity and `now`. The timeout must be one that chrono's
    /// `Duration::seconds` takes (a signed 64-bit count of milliseconds
    /// holds it).
    pub fn is_timed_out_at(&self, now: Timestamp) -> (r: bool)
        requires
            self@.config.session_timeout <= i64::MAX / 1000,
        ensures
            r == timed_out_at(self@, now),
    {
        let elapsed: i128 = now.nanos_since(&self.last_activity);
        elapsed > (self.config.session_timeout as i128) * 1_000_000_000
    }

    /// Whether the session has timed out now.
    pub fn is_timed_out(&self) -> (r: bool)
        requires
            self@.config.session_timeout <= i64::MAX / 1000,
        ensures
            exists|now: Timestamp| r == timed_out_at(self@, now),
    {
        let now = Timestamp::now();
        self.is_timed_out_at(now)
    }

    /// Sends a message through the session. An unauthenticated session
    /// only lets `Hello` and `AuthRequest` through.
    pub fn send_message(&mut self, message: ProtocolMessage) -> (r: ProtocolResult<()>)
        ensures
            send_effect(old(self)@, final(self)@, message, r),
    {
        let t = message.header.message_type;
        if !self.peer_info.authenticated && !(t == MessageType::Hello || t
            == MessageType::AuthRequest) {
            return Err(ProtocolError::Authentication(string_from("Session not authenticated")));
        }
        if !self.receiving {
            return Err(
                ProtocolError::Transport(string_from("Failed to send message: channel closed")),
            );
        }
        self.queue.push(message);
        self.update_activity();
        Ok(())
    }

    /// Takes the oldest pending message, if the receiving end is open and a
    /// message is waiting.
    pub fn try_receive_message(&mut self) -> (r: Option<ProtocolMessage>)
        ensures
            old(self)@.receiving && old(self)@.pending.len() > 0 ==> r == Some(
                old(self)@.pending[0],
            ) && final(self)@ == after_receipt(old(self)@, final(self)@.last_activity),
            !(old(self)@.receiving && old(self)@.pending.len() > 0) ==> r is None && final(self)@
                == old(self)@,
    {
        if !self.receiving || self.queue.len() == 0 {
            return None;
        }
        let m = self.queue.remove(0);
        self.update_activity();
        assert(self.queue@ =~= old(self)@.pending.drop_first());
        Some(m)
    }

    /// Sends the next heartbeat: the sequence number goes up by one whatever
    /// happens to the message.
    pub fn send_heartbeat(&mut self) -> (r: ProtocolResult<()>)
        requires
            old(self)@.heartbeat_sequence < u64::MAX,
        ensures
            exists|m: ProtocolMessage| #[trigger] heartbeat_step(old(self)@, final(self)@, m, r),
    {
        self.heartbeat_sequence = self.heartbeat_sequence + 1;
        let payload = MessagePayload::Heartbeat(
            HeartbeatPayload { sequence_number: self.heartbeat_sequence },
        );
        let message = ProtocolMessage::for_session(
            MessageType::Heartbeat,
            payload,
            self.session_id.clone(),
        );
        let ghost mg = message;
        assert(self@ == SessionView {
            heartbeat_sequence: (old(self)@.heartbeat_sequence + 1) as u64,
            ..old(self)@
        });
        let r = self.send_message(message);
        assert(session_message(
            mg,
            MessageType::Heartbeat,
            MessagePayload::Heartbeat(
                HeartbeatPayload { sequence_number: (old(self)@.heartbeat_sequence + 1) as u64 },
            ),
            old(self)@.session_id,
        ));
        assert(heartbeat_step(old(self)@, self@, mg, r));
        r
    }

    /// Answers a heartbeat: records activity, then sends a `Pong`.
    pub fn handle_heartbeat(&mut self, sequence: u64) -> (r: ProtocolResult<()>)
        ensures
            exists|m: ProtocolMessage|
                {
                    &&& #[trigger] session_message(
                        m,
                        MessageType::Pong,
                        MessagePayload::Pong,
                        old(self)@.session_id,
                    )
                    &&& send_effect(
                        SessionView { last_activity: final(self)@.last_activity, ..old(self)@ },
                        final(self)@,
                        m,
                        r,
                    )
                },
    {
        self.update_activity();
        let message = ProtocolMessage::for_session(
            MessageType::Pong,
            MessagePayload::Pong,
            self.session_id.clone(),
        );
        self.send_message(message)
    }

    /// Sends an error message with the given code and text.
    pub fn send_error(&mut self, error_code: u32, error_message: String) -> (r: ProtocolResult<()>)
        ensures
            exists|m: ProtocolMessage|
                {
                    &&& #[trigger] session_message(
                        m,
                        MessageType::Error,
                        MessagePayload::Error(
                            ErrorPayload { error_code, error_message, details: None },
                        ),
                        old(self)@.session_id,
                    )
                    &&& send_effect(old(self)@, final(self)@, m, r)
                },
    {
        let payload = MessagePayload::Error(ErrorPayload { error_code, error_message, details: None });
        let message = ProtocolMessage::for_session(MessageType::Error, payload, self.session_id.clone());
        self.send_message(message)
    }

    /// Closes the session: sends a `Goodbye` (code 1000, "Session closed by
    /// server") if it can, then closes the receiving end, dropping whatever
    /// was pending, and ends in the `Closed` state.
    pub fn close(&mut self) -> (r: ProtocolResult<()>)
        ensures
            r is Ok,
            final(self)@.state == SessionState::Closed,
            !final(self)@.receiving,
            final(self)@.pending == Seq::<ProtocolMessage>::empty(),
            final(self)@.session_id == old(self)@.session_id,
            final(self)@.peer == old(self)@.peer,
            final(self)@.config == old(self)@.config,
            final(self)@.heartbeat_sequence == old(self)@.heartbeat_sequence,
    {
        let payload = MessagePayload::Goodbye(
            GoodbyePayload { reason: string_from("Session closed by server"), code: 1000 },
        );
        let message = ProtocolMessage::for_session(
            MessageType::Goodbye,
            payload,
            self.session_id.clone(),
        );
        let _ = self.send_message(message);
        self.set_state(SessionState::Closing);
        self.receiving = false;
        self.queue = Vec::new();
        self.set_state(SessionState::Closed);
        Ok(())
    }

    /// Statistics of the session. The queue size is always reported as 0.
    pub fn stats(&self) -> (r: SessionStats)
        ensures
            r.session_id@ == self@.session_id,
            r.state == self@.state,
            r.peer_id@ == self@.peer.peer_id@,
            r.last_activity == self@.last_activity,
            r.is_authenticated == self@.peer.authenticated,
            r.message_queue_size == 0,
    {
        SessionStats {
            session_id: self.session_id.clone(),
            state: self.state,
            peer_id: self.peer_info.peer_id.clone(),
            last_activity: self.last_activity,
            is_authenticated: self.peer_info.authenticated,
            message_queue_size: 0,
        }
    }
}

} // verus!

verus! {

/// A session's queue is first in, first out. Two messages sent into
/// an empty queue come out in the order they were sent.
pub proof fn session_delivers_in_send_order(
    v: SessionView,
    m1: ProtocolMessage,
    m2: ProtocolMessage,
    t1: Timestamp,
    t2: Timestamp,
    t3: Timestamp,
)
    requires
        v.pending.len() == 0,
    ensures
        after_delivery(after_delivery(v, m1, t1), m2, t2).pending[0] == m1,
        after_receipt(after_delivery(after_delivery(v, m1, t1), m2, t2), t3).pending[0] == m2,
        after_receipt(after_delivery(after_delivery(v, m1, t1), m2, t2), t3).pending.len() == 1,
{
}

/// once the receiving end of a session is closed, no message is
/// delivered through it.
pub proof fn closed_session_delivers_nothing(v: SessionView, t: MessageType)
    requires
        !v.receiving,
    ensures
        !(send_outcome(v, t) is Delivered),
{
}

/// an unauthenticated session refuses every message but `Hello` and
/// `AuthRequest`, and lets those through while it is open.
pub proof fn unauthenticated_session_admits_only_handshake(v: SessionView, t: MessageType)
    requires
        !v.peer.authenticated,
    ensures
        (t != MessageType::Hello && t != MessageType::AuthRequest) ==> send_outcome(v, t) is Unauthenticated,
        (t == MessageType::Hello || t == MessageType::AuthRequest) && v.receiving ==> send_outcome(v, t) is Delivered,
{
}

proof fn lemma_heartbeat_count(
    views: Seq<SessionView>,
    msgs: Seq<ProtocolMessage>,
    results: Seq<ProtocolResult<()>>,
    i: int,
)
    requires
        views.len() == msgs.len() + 1,
        results.len() == msgs.len(),
        views[0].heartbeat_sequence == 0,
        views.len() <= u64::MAX,
        forall|j: int| 0 <= j < msgs.len() ==> #[trigger] heartbeat_step(views[j], views[j + 1], msgs[j], results[j]),
        0 <= i < views.len(),
    ensures
        views[i].heartbeat_sequence == i,
        views[i].session_id == views[0].session_id,
    decreases i,
{
    if i > 0 {
        lemma_heartbeat_count(views, msgs, results, i - 1);
        assert(heartbeat_step(views[i - 1], views[i], msgs[i - 1], results[i - 1]));
    }
}

/// Heartbeats are numbered one by one from a fresh session: the `k`-th
/// heartbeat sent carries the number `k` and the session's id, whether or
/// not its send succeeded.
pub proof fn heartbeats_are_numbered(
    views: Seq<SessionView>,
    msgs: Seq<ProtocolMessage>,
    results: Seq<ProtocolResult<()>>,
)
    requires
        views.len() == msgs.len() + 1,
        results.len() == msgs.len(),
        views[0].heartbeat_sequence == 0,
        views.len() <= u64::MAX,
        forall|j: int| 0 <= j < msgs.len() ==> #[trigger] heartbeat_step(views[j], views[j + 1], msgs[j], results[j]),
    ensures
        forall|k: int|
            1 <= k <= msgs.len() ==> #[trigger] session_message(
                msgs[k - 1],
                MessageType::Heartbeat,
                MessagePayload::Heartbeat(HeartbeatPayload { sequence_number: k as u64 }),
                views[0].session_id,
            ),
        forall|k: int| 0 <= k < views.len() ==> #[trigger] views[k].heartbeat_sequence == k,
{
    assert forall|k: int| 0 <= k < views.len() implies #[trigger] views[k].heartbeat_sequence == k by {
        lemma_heartbeat_count(views, msgs, results, k);
    }
    assert forall|k: int| 1 <= k <= msgs.len() implies #[trigger] session_message(
        msgs[k - 1],
        MessageType::Heartbeat,
        MessagePayload::Heartbeat(HeartbeatPayload { sequence_number: k as u64 }),
        views[0].session_id,
    ) by {
        lemma_heartbeat_count(views, msgs, results, k - 1);
        assert(heartbeat_step(views[k - 1], views[k], msgs[k - 1], results[k - 1]));
    }
}

/// An authenticated session whose receiving end is open delivers every
/// message, whatever its type: the send succeeds and the message joins the
/// end of the queue.
pub proof fn authenticated_open_session_delivers_everything(
    old: SessionView,
    new: SessionView,
    m: ProtocolMessage,
    r: ProtocolResult<()>,
)
    requires
        old.peer.authenticated,
        old.receiving,
        send_effect(old, new, m, r),
    ensures
        send_outcome(old, m.header.message_type) is Delivered,
        r is Ok,
        new.pending == old.pending.push(m),
{
}

} // verus!
