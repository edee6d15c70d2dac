//! The per-connection session: `Connecting → Active → Closing → Closed`,
//! heartbeat liveness, tenant-filtered forwarding of hub events, and the
//! portfolio snapshot timer.

use crate::hub::{Event, Hub, HubRead, Subscription};
use crate::identity::{effective_tenant_of, session_tenant, uuid_value, Identity, Role};
use vstd::prelude::*;

verus! {

/// Time units between two liveness probes sent by the server.
pub const HEARTBEAT_INTERVAL: u64 = 5;

/// Time units of silence after which a session is closed.
pub const CLIENT_TIMEOUT: u64 = 10;

/// Lifecycle of a session.
#[derive(Clone, Copy, Debug, PartialEq, Eq, Structural)]
pub enum Phase {
    Connecting,
    Active,
    Closing,
    Closed,
}

/// Why a session ended.
#[derive(Clone, Copy, Debug, PartialEq, Eq, Structural)]
pub enum CloseReason {
    /// The credential of the handshake could not be resolved.
    Unauthorized,
    /// The client closed the connection.
    ClientClosed,
    /// No liveness response came within `CLIENT_TIMEOUT`.
    HeartbeatTimeout,
    /// The hub's stream ended.
    HubEnded,
}

/// Why a handshake was refused.
#[derive(Clone, Copy, Debug, PartialEq, Eq, Structural)]
pub enum SessionError {
    Unauthorized,
}

/// A frame received from the client.
#[derive(Clone, Copy, Debug, PartialEq, Eq, Structural)]
pub enum ClientFrame {
    Ping,
    Pong,
    Close,
    /// Text, binary or anything else, which the session ignores.
    Other,
}

/// What to send back to the client after a frame.
#[derive(Clone, Copy, Debug, PartialEq, Eq, Structural)]
pub enum FrameReply {
    Nothing,
    Pong,
    Close,
}

/// What the heartbeat timer asks for.
#[derive(Clone, Copy, Debug, PartialEq, Eq, Structural)]
pub enum HeartbeatAction {
    /// The session is not active: the timer has nothing to do.
    Idle,
    /// Send a liveness probe.
    Ping,
    /// The client went silent: the session is closed, terminate the
    /// connection.
    Terminate,
}

/// What becomes of one hub read.
#[derive(Clone, Debug, PartialEq, Eq)]
pub enum Routing {
    /// Send the event to the client.
    Deliver(Event),
    /// The event belongs to another tenant, or the session is not active.
    Discard,
    /// Events were lost to lag; reading goes on.
    Lagged(u64),
    /// Nothing to read for now.
    Idle,
    /// The hub is gone.
    Ended,
}

/// What a session is, seen from outside.
pub struct SessionView {
    pub phase: Phase,
    pub tenant: u128,
    pub caller: u128,
    pub role: Role,
    pub last_heartbeat: u64,
    pub subscribed: bool,
    pub close_reason: Option<CloseReason>,
}

/// The state of one client connection.
pub struct Session {
    phase: Phase,
    tenant: u128,
    caller: u128,
    role: Role,
    last_heartbeat: u64,
    subscription: Option<Subscription>,
    close_reason: Option<CloseReason>,
}

/// The session has heard nothing for longer than `CLIENT_TIMEOUT` at `now`.
pub open spec fn timed_out(last_heartbeat: u64, now: u64) -> bool {
    now > last_heartbeat && now - last_heartbeat > CLIENT_TIMEOUT
}

/// Where a session in phase `phase` stands once closed for `reason`.
pub open spec fn closed_view(v: SessionView, reason: CloseReason) -> SessionView {
    SessionView {
        phase: Phase::Closed,
        subscribed: false,
        close_reason: if v.phase == Phase::Closed {
            v.close_reason
        } else {
            Some(reason)
        },
        ..v
    }
}

/// What a hub read becomes for a session of `tenant` in phase `phase`.
pub open spec fn routing_of(phase: Phase, tenant: u128, read: HubRead) -> Routing {
    if phase != Phase::Active {
        Routing::Discard
    } else {
        match read {
            HubRead::Event(e) => if e.tenant == tenant {
                Routing::Deliver(e)
            } else {
                Routing::Discard
            },
            HubRead::Lagged(n) => Routing::Lagged(n),
            HubRead::Empty => Routing::Idle,
            HubRead::Closed => Routing::Ended,
        }
    }
}

impl View for Session {
    type V = SessionView;

    closed spec fn view(&self) -> SessionView {
        SessionView {
            phase: self.phase,
            tenant: self.tenant,
            caller: self.caller,
            role: self.role,
            last_heartbeat: self.last_heartbeat,
            subscribed: self.subscription is Some,
            close_reason: self.close_reason,
        }
    }
}

/// What one bounded poll of the hub produced.
pub struct HubPoll {
    /// Events of the session's tenant, in the order the hub gave them.
    pub delivered: Vec<Event>,
    /// Events lost to lag during the poll (saturating).
    pub lagged: u64,
    /// The hub's stream ended and the session is closed.
    pub ended: bool,
    /// The reads taken from the hub, in order.
    pub reads: Ghost<Seq<HubRead>>,
}

/// A read after which polling goes on.
pub open spec fn continues(read: HubRead) -> bool {
    read is Event || read is Lagged
}

/// The events of `tenant` among `reads`, in read order.
pub open spec fn delivered_of(tenant: u128, reads: Seq<HubRead>) -> Seq<Event>
    decreases reads.len(),
{
    if reads.len() == 0 {
        Seq::empty()
    } else {
        let prev = delivered_of(tenant, reads.drop_last());
        match reads.last() {
            HubRead::Event(e) => if e.tenant == tenant {
                prev.push(e)
            } else {
                prev
            },
            _ => prev,
        }
    }
}

/// The events lost to lag over `reads`, added with saturation.
pub open spec fn lag_of(reads: Seq<HubRead>) -> u64
    decreases reads.len(),
{
    if reads.len() == 0 {
        0
    } else {
        let prev = lag_of(reads.drop_last());
        match reads.last() {
            HubRead::Lagged(n) => prev.saturating_add(n),
            _ => prev,
        }
    }
}

impl Session {
    /// A session holds its hub subscription exactly while it is active or
    /// closing, and has a close reason exactly once closed.
    pub open spec fn wf(&self) -> bool {
        &&& self@.subscribed <==> (self@.phase == Phase::Active || self@.phase == Phase::Closing)
        &&& self@.close_reason is Some <==> self@.phase == Phase::Closed
    }

    /// The reads taken from the session's hub subscription, while it holds
    /// one.
    pub closed spec fn hub_log(&self) -> Seq<HubRead> {
        match self.subscription {
            Some(sub) => sub.log(),
            None => Seq::empty(),
        }
    }

    /// A connection whose handshake has not been resolved yet.
    pub fn new(now: u64) -> (r: Session)
        ensures
            r.wf(),
            r@.phase == Phase::Connecting,
            r@.last_heartbeat == now,
    {
        Session {
            phase: Phase::Connecting,
            tenant: 0,
            caller: 0,
            role: Role::Member,
            last_heartbeat: now,
            subscription: None,
            close_reason: None,
        }
    }

    pub fn phase(&self) -> (r: Phase)
        ensures
            r == self@.phase,
    {
        self.phase
    }

    pub fn tenant(&self) -> (r: u128)
        ensures
            r == self@.tenant,
    {
        self.tenant
    }

    pub fn is_subscribed(&self) -> (r: bool)
        ensures
            r == self@.subscribed,
    {
        self.subscription.is_some()
    }

    pub fn close_reason(&self) -> (r: Option<CloseReason>)
        ensures
            r == self@.close_reason,
    {
        self.close_reason
    }

    /// Resolves the handshake. Without an identity the session is closed
    /// before it was ever active, and the hub is not touched. Otherwise its
    /// tenant is fixed, once, as the impersonation rules give it, and it
    /// subscribes to the hub.
    pub fn handshake(
        &mut self,
        identity: Option<Identity>,
        directive: Option<&str>,
        hub: &Hub,
        now: u64,
    ) -> (r: Result<u128, SessionError>)
        requires
            old(self).wf(),
            old(self)@.phase == Phase::Connecting,
        ensures
            final(self).wf(),
            match identity {
                None => {
                    &&& r == Err::<u128, SessionError>(SessionError::Unauthorized)
                    &&& final(self)@ == closed_view(old(self)@, CloseReason::Unauthorized)
                },
                Some(id) => {
                    let t = effective_tenant_of(
                        id,
                        match directive {
                            Some(d) => uuid_value(d@),
                            None => None,
                        },
                    );
                    &&& r == Ok::<u128, SessionError>(t)
                    &&& final(self)@.phase == Phase::Active
                    &&& final(self)@.tenant == t
                    &&& final(self)@.caller == id.caller
                    &&& final(self)@.role == id.role
                    &&& final(self)@.last_heartbeat == now
                    &&& final(self)@.subscribed
                    &&& final(self).hub_log() == Seq::<HubRead>::empty()
                    &&& final(self)@.close_reason is None
                },
            },
    {
        match identity {
            None => {
                self.close(CloseReason::Unauthorized);
                Err(SessionError::Unauthorized)
            },
            Some(id) => {
                let t = session_tenant(&id, directive);
                self.tenant = t;
                self.caller = id.caller;
                self.role = id.role;
                self.last_heartbeat = now;
                self.subscription = Some(hub.subscribe());
                self.phase = Phase::Active;
                Ok(t)
            },
        }
    }

    /// Stops forwarding; the subscription is still held until
    /// `finish_close`.
    pub fn begin_close(&mut self)
        requires
            old(self).wf(),
            old(self)@.phase == Phase::Active,
        ensures
            final(self).wf(),
            final(self)@ == (SessionView { phase: Phase::Closing, ..old(self)@ }),
    {
        self.phase = Phase::Closing;
    }

    /// Releases the subscription and ends the session.
    pub fn finish_close(&mut self, reason: CloseReason)
        requires
            old(self).wf(),
            old(self)@.phase == Phase::Closing,
        ensures
            final(self).wf(),
            final(self)@ == closed_view(old(self)@, reason),
    {
        self.subscription = None;
        self.close_reason = Some(reason);
        self.phase = Phase::Closed;
    }

    /// Closes the session from any phase, releasing its subscription; a
    /// closed session stays as it is.
    pub fn close(&mut self, reason: CloseReason)
        requires
            old(self).wf(),
        ensures
            final(self).wf(),
            final(self)@ == closed_view(old(self)@, reason),
    {
        match self.phase {
            Phase::Closed => {},
            Phase::Connecting => {
                self.close_reason = Some(reason);
                self.phase = Phase::Closed;
            },
            Phase::Active => {
                self.begin_close();
                self.finish_close(reason);
            },
            Phase::Closing => {
                self.finish_close(reason);
            },
        }
    }

    /// The heartbeat timer fired at `now`: a silent client is timed out and
    /// its session closed, with the hub subscription released; otherwise a
    /// probe is due. A session that is not active does nothing.
    pub fn on_heartbeat(&mut self, now: u64) -> (r: HeartbeatAction)
        requires
            old(self).wf(),
        ensures
            final(self).wf(),
            old(self)@.phase != Phase::Active ==> r == HeartbeatAction::Idle && final(self)@
                == old(self)@,
            old(self)@.phase == Phase::Active && timed_out(old(self)@.last_heartbeat, now) ==> {
                &&& r == HeartbeatAction::Terminate
                &&& final(self)@ == closed_view(old(self)@, CloseReason::HeartbeatTimeout)
                &&& final(self)@.phase == Phase::Closed
                &&& !final(self)@.subscribed
            },
            old(self)@.phase == Phase::Active && !timed_out(old(self)@.last_heartbeat, now) ==> r
                == HeartbeatAction::Ping && final(self)@ == old(self)@,
    {
        if self.phase != Phase::Active {
            return HeartbeatAction::Idle;
        }
        if now > self.last_heartbeat && now - self.last_heartbeat > CLIENT_TIMEOUT {
            self.close(CloseReason::HeartbeatTimeout);
            HeartbeatAction::Terminate
        } else {
            HeartbeatAction::Ping
        }
    }

    /// A frame came from the client at `now`: a ping or pong proves liveness,
    /// a ping is answered, and a close ends the session.
    pub fn on_client_frame(&mut self, frame: ClientFrame, now: u64) -> (r: FrameReply)
        requires
            old(self).wf(),
        ensures
            final(self).wf(),
            old(self)@.phase != Phase::Active ==> r == FrameReply::Nothing && final(self)@
                == old(self)@,
            old(self)@.phase == Phase::Active ==> match frame {
                ClientFrame::Ping => r == FrameReply::Pong && final(self)@ == (SessionView {
                    last_heartbeat: now,
                    ..old(self)@
                }),
                ClientFrame::Pong => r == FrameReply::Nothing && final(self)@ == (SessionView {
                    last_heartbeat: now,
                    ..old(self)@
                }),
                ClientFrame::Close => r == FrameReply::Close && final(self)@ == closed_view(
                    old(self)@,
                    CloseReason::ClientClosed,
                ),
                ClientFrame::Other => r == FrameReply::Nothing && final(self)@ == old(self)@,
            },
    {
        if self.phase != Phase::Active {
            return FrameReply::Nothing;
        }
        match frame {
            ClientFrame::Ping => {
                self.last_heartbeat = now;
                FrameReply::Pong
            },
            ClientFrame::Pong => {
                self.last_heartbeat = now;
                FrameReply::Nothing
            },
            ClientFrame::Close => {
                self.close(CloseReason::ClientClosed);
                FrameReply::Close
            },
            ClientFrame::Other => FrameReply::Nothing,
        }
    }

    /// What a hub read becomes for this session: only an event of its own
    /// tenant is delivered.
    pub fn route(&self, read: HubRead) -> (r: Routing)
        ensures
            r == routing_of(self@.phase, self@.tenant, read),
    {
        if self.phase != Phase::Active {
            return Routing::Discard;
        }
        match read {
            HubRead::Event(e) => if e.tenant == self.tenant {
                Routing::Deliver(e)
            } else {
                Routing::Discard
            },
            HubRead::Lagged(n) => Routing::Lagged(n),
            HubRead::Empty => Routing::Idle,
            HubRead::Closed => Routing::Ended,
        }
    }

    /// Takes one hub read into `poll`: an event of the session's tenant is
    /// delivered, lag is added up, `Empty` stops the poll and `Closed` closes
    /// the session.
    pub fn absorb(&mut self, poll: &mut HubPoll, read: HubRead) -> (more: bool)
        requires
            old(self).wf(),
            old(self)@.phase == Phase::Active,
        ensures
            final(self).wf(),
            final(poll).reads == old(poll).reads,
            more == continues(read),
            !(read is Closed) ==> final(self).hub_log() == old(self).hub_log(),
            match routing_of(old(self)@.phase, old(self)@.tenant, read) {
                Routing::Deliver(e) => {
                    &&& final(poll).delivered@ == old(poll).delivered@.push(e)
                    &&& final(poll).lagged == old(poll).lagged
                    &&& final(poll).ended == old(poll).ended
                    &&& final(self)@ == old(self)@
                },
                Routing::Lagged(n) => {
                    &&& final(poll).delivered@ == old(poll).delivered@
                    &&& final(poll).lagged == old(poll).lagged.saturating_add(n)
                    &&& final(poll).ended == old(poll).ended
                    &&& final(self)@ == old(self)@
                },
                Routing::Ended => {
                    &&& final(poll).delivered@ == old(poll).delivered@
                    &&& final(poll).lagged == old(poll).lagged
                    &&& final(poll).ended
                    &&& final(self)@ == closed_view(old(self)@, CloseReason::HubEnded)
                },
                _ => {
                    &&& final(poll).delivered@ == old(poll).delivered@
                    &&& final(poll).lagged == old(poll).lagged
                    &&& final(poll).ended == old(poll).ended
                    &&& final(self)@ == old(self)@
                },
            },
    {
        match self.route(read) {
            Routing::Deliver(e) => {
                poll.delivered.push(e);
                true
            },
            Routing::Discard => true,
            Routing::Lagged(n) => {
                poll.lagged = poll.lagged.saturating_add(n);
                true
            },
            Routing::Idle => false,
            Routing::Ended => {
                self.close(CloseReason::HubEnded);
                poll.ended = true;
                false
            },
        }
    }

    /// Reads up to `budget` hub events without waiting. The delivered events
    /// are exactly those of the session's tenant among the reads, in read
    /// order; lag is added up and reading goes on; the poll stops at the first
    /// `Empty` or `Closed`, and only `Closed` closes the session.
    pub fn poll_hub(&mut self, budget: usize) -> (r: HubPoll)
        requires
            old(self).wf(),
        ensures
            final(self).wf(),
            r.reads@.len() <= budget,
            r.delivered@ == delivered_of(old(self)@.tenant, r.reads@),
            r.lagged == lag_of(r.reads@),
            forall|i: int|
                0 <= i < r.delivered@.len() ==> (#[trigger] r.delivered@[i]).tenant == old(self)@.tenant,
            old(self)@.phase != Phase::Active ==> r.reads@.len() == 0,
            old(self)@.phase == Phase::Active && budget > 0 ==> r.reads@.len() > 0,
            forall|i: int| 0 <= i < r.reads@.len() - 1 ==> continues(#[trigger] r.reads@[i]),
            r.reads@.len() < budget && r.reads@.len() > 0 ==> !continues(r.reads@.last()),
            r.ended <==> (r.reads@.len() > 0 && r.reads@.last() is Closed),
            r.ended ==> old(self)@.phase == Phase::Active && final(self)@ == closed_view(
                old(self)@,
                CloseReason::HubEnded,
            ),
            !r.ended ==> final(self)@ == old(self)@,
            !r.ended ==> final(self).hub_log() == old(self).hub_log() + r.reads@,
            budget == 0 ==> r.delivered@.len() == 0 && r.lagged == 0 && !r.ended && final(self)@
                == old(self)@,
    {
        let mut poll = HubPoll {
            delivered: Vec::new(),
            lagged: 0,
            ended: false,
            reads: Ghost(Seq::empty()),
        };
        if self.phase != Phase::Active {
            return poll;
        }
        let ghost tenant = self@.tenant;
        let mut k: usize = 0;
        while k < budget
            invariant
                self.wf(),
                self@ == old(self)@,
                self@.phase == Phase::Active,
                tenant == self@.tenant,
                k <= budget,
                poll.reads@.len() == k,
                poll.delivered@ == delivered_of(tenant, poll.reads@),
                poll.lagged == lag_of(poll.reads@),
                self.hub_log() == old(self).hub_log() + poll.reads@,
                !poll.ended,
                forall|i: int| 0 <= i < poll.reads@.len() ==> continues(#[trigger] poll.reads@[i]),
            decreases budget - k,
        {
            let read = match &mut self.subscription {
                Some(sub) => sub.read(),
                None => HubRead::Closed,
            };
            let ghost before = poll.reads@;
            poll.reads = Ghost(poll.reads@.push(read));
            proof {
                assert(poll.reads@.drop_last() == before);
                assert(self.hub_log() == old(self).hub_log() + poll.reads@);
            }
            let more = self.absorb(&mut poll, read);
            if !more {
                proof {
                    assert(tenant == old(self)@.tenant);
                    assert(poll.delivered@ == delivered_of(tenant, poll.reads@));
                    lemma_delivered_tenant(tenant, poll.reads@);
                }
                return poll;
            }
            k = k + 1;
        }
        proof {
            lemma_delivered_tenant(tenant, poll.reads@);
        }
        poll
    }

    /// The tenant whose portfolio snapshot is due, while the session is
    /// active; a session that is not active takes no more snapshots.
    pub fn snapshot_tenant(&self) -> (r: Option<u128>)
        ensures
            r == (if self@.phase == Phase::Active {
                Some(self@.tenant)
            } else {
                None::<u128>
            }),
    {
        if self.phase == Phase::Active {
            Some(self.tenant)
        } else {
            None
        }
    }
}

/// Tenant isolation over a poll: every event delivered from `reads` belongs
/// to `tenant`.
pub proof fn lemma_delivered_tenant(tenant: u128, reads: Seq<HubRead>)
    ensures
        forall|i: int|
            0 <= i < delivered_of(tenant, reads).len() ==> (#[trigger] delivered_of(tenant, reads)[i]).tenant
                == tenant,
    decreases reads.len(),
{
    if reads.len() > 0 {
        let prev = delivered_of(tenant, reads.drop_last());
        lemma_delivered_tenant(tenant, reads.drop_last());
        let d = delivered_of(tenant, reads);
        assert forall|i: int| 0 <= i < d.len() implies (#[trigger] d[i]).tenant == tenant by {
            if i < prev.len() {
                assert(d[i] == prev[i]);
            }
        }
    }
}

/// Tenant isolation: a hub event reaches a session only when it belongs to
/// the session's tenant, whatever the phase.
pub proof fn law_tenant_isolation(phase: Phase, tenant: u128, event: Event)
    requires
        event.tenant != tenant,
    ensures
        routing_of(phase, tenant, HubRead::Event(event)) == Routing::Discard,
{
}

} // verus!
