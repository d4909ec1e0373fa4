//! Per-tick lifecycle management for one network connection.
//!
//! The transport delivers each connection's events through that
//! connection's private reader cursor; the codec collaborator decodes
//! packet bytes before they reach this core, so a packet arrives here with
//! its decode outcome as a plain value. Each tick the manager drains the
//! pending events into the shared inbound-message queue, decides whether a
//! keepalive ping is due, and flags the connection for removal when a
//! disconnect was observed — removal is deferred past draining so no event
//! of the same batch is missed.

use vstd::prelude::*;

use crate::NetIdentifier;
use crate::components::NetConnectionModel;

verus! {

/// How long (milliseconds) a connection may go unpinged before a keepalive
/// is sent.
pub const PING_INTERVAL_MS: u64 = 1000;

/// A message decoded from a peer's packet.
///
/// `Ping` is the keepalive probe; `Pong` answers it, reporting the frame
/// the peer was simulating. `ActionUpdate` schedules a gameplay action for
/// a target frame; its content is decoded and owned by the gameplay
/// collaborator, which this core sees only as an opaque `payload` handle.
#[derive(Clone, Copy, PartialEq, Eq, Structural, Debug)]
pub enum InboundMessage {
    Ping,
    Pong { ping_id: NetIdentifier, frame_number: u64 },
    ActionUpdate { update_id: NetIdentifier, target_frame: u64, payload: u64 },
}

impl InboundMessage {
    /// Whether this is the keepalive probe, which carries no gameplay data
    /// and is not handed to gameplay systems.
    pub fn is_ping_message(&self) -> (r: bool)
        ensures
            r == (*self is Ping),
    {
        match self {
            InboundMessage::Ping => true,
            _ => false,
        }
    }
}

/// One event drained from the transport for one connection, in the order
/// the transport observed it. A `Packet` carries its decode outcome:
/// `None` for a malformed or foreign packet, which is discarded without
/// affecting the connection or the session.
#[derive(Clone, Copy, PartialEq, Eq, Structural, Debug)]
pub enum TransportEvent {
    Connected,
    Disconnected,
    Packet { decoded: Option<InboundMessage> },
}

/// The decoded non-keepalive messages of an event batch, in arrival order:
/// what one drain appends to the shared inbound-message queue.
pub open spec fn decoded_messages(events: Seq<TransportEvent>) -> Seq<InboundMessage>
    decreases events.len(),
{
    if events.len() == 0 {
        Seq::empty()
    } else {
        let rest = decoded_messages(events.drop_last());
        match events.last() {
            TransportEvent::Packet { decoded: Some(m) } => if !(m is Ping) {
                rest.push(m)
            } else {
                rest
            },
            _ => rest,
        }
    }
}

/// Whether the batch contains a disconnect event for this connection.
pub open spec fn observes_disconnect(events: Seq<TransportEvent>) -> bool
    decreases events.len(),
{
    if events.len() == 0 {
        false
    } else {
        observes_disconnect(events.drop_last()) || events.last() is Disconnected
    }
}

/// Whether more than the keepalive interval has elapsed since the
/// connection was last pinged.
pub open spec fn ping_due(last_pinged_at_ms: u64, now_ms: u64) -> bool {
    now_ms > last_pinged_at_ms + PING_INTERVAL_MS
}

/// The manager's record book: exactly one `NetConnectionModel` per active
/// peer id at any time — no duplicates, and no orphaned record after a
/// disconnect (the tick a disconnect is observed, the driver takes the
/// record out and releases it).
pub struct ConnectionRegistry {
    records: Vec<NetConnectionModel>,
}

impl ConnectionRegistry {
    /// The records, in registration order.
    pub closed spec fn records_seq(self) -> Seq<NetConnectionModel> {
        self.records@
    }

    /// Whether a record for `id` exists.
    pub open spec fn contains_id(self, id: NetIdentifier) -> bool {
        exists|i: int|
            0 <= i < self.records_seq().len() && (#[trigger] self.records_seq()[i]).id == id
    }

    /// At most one record exists per peer id.
    pub open spec fn wf(self) -> bool {
        forall|i: int, j: int|
            0 <= i < j < self.records_seq().len() ==> (#[trigger] self.records_seq()[i]).id != (
            #[trigger] self.records_seq()[j]).id
    }

    pub fn new() -> (r: Self)
        ensures
            r.wf(),
            r.records_seq().len() == 0,
    {
        ConnectionRegistry { records: Vec::new() }
    }

    pub fn len(&self) -> (r: usize)
        ensures
            r == self.records_seq().len(),
    {
        self.records.len()
    }

    #[verifier::loop_isolation(false)]
    pub fn contains(&self, id: NetIdentifier) -> (r: bool)
        ensures
            r == self.contains_id(id),
    {
        let mut i: usize = 0;
        while i < self.records.len()
            invariant
                i <= self.records@.len(),
                forall|j: int| 0 <= j < i ==> (#[trigger] self.records@[j]).id != id,
            decreases self.records@.len() - i,
        {
            if self.records[i].id == id {
                return true;
            }
            i = i + 1;
        }
        false
    }

    /// Creates the record for a peer first observed now — its lifecycle
    /// just left `Unknown` — unless one already exists, and reports
    /// whether it did. A fresh record starts with its private reader at
    /// `reader_cursor`, nothing acknowledged, an empty latency window and
    /// the keepalive timer at `now_ms`.
    #[verifier::loop_isolation(false)]
    pub fn ensure_record(&mut self, id: NetIdentifier, reader_cursor: u64, now_ms: u64) -> (created:
        bool)
        requires
            old(self).wf(),
        ensures
            final(self).wf(),
            final(self).contains_id(id),
            created == !old(self).contains_id(id),
            !created ==> final(self).records_seq() == old(self).records_seq(),
            created ==> final(self).records_seq().drop_last() == old(self).records_seq() && {
                let fresh = final(self).records_seq().last();
                &&& fresh.id == id
                &&& fresh.reader_cursor == reader_cursor
                &&& fresh.created_at_ms == now_ms
                &&& fresh.last_pinged_at_ms == now_ms
                &&& fresh.last_acknowledged_update is None
                &&& fresh.ping_pong_data.wf()
                &&& fresh.ping_pong_data.samples().len() == 0
            },
    {
        if self.contains(id) {
            return false;
        }
        let ghost s0 = self.records@;
        self.records.push(NetConnectionModel::new(id, reader_cursor, now_ms));
        proof {
            assert(self.records@.drop_last() =~= s0);
            assert forall|a: int, b: int|
                0 <= a < b < self.records@.len() implies (#[trigger] self.records@[a]).id != (
            #[trigger] self.records@[b]).id by {
                if b < self.records@.len() - 1 {
                    assert(s0[a].id != s0[b].id);
                } else {
                    assert(s0[a].id != id);
                }
            }
            assert(self.records@[self.records@.len() - 1].id == id);
        }
        true
    }

    /// Takes the record for `id` out of the registry, or `None` when the
    /// peer has none. The tick a disconnect is observed, the driver takes
    /// the record and releases it, leaving no orphan; a record taken for
    /// processing goes back through `put_record`.
    #[verifier::loop_isolation(false)]
    pub fn take_record(&mut self, id: NetIdentifier) -> (r: Option<NetConnectionModel>)
        requires
            old(self).wf(),
        ensures
            final(self).wf(),
            !final(self).contains_id(id),
            (r is Some) == old(self).contains_id(id),
            r is None ==> final(self).records_seq() == old(self).records_seq(),
            forall|i: int|
                (0 <= i < old(self).records_seq().len()
                    && (#[trigger] old(self).records_seq()[i]).id == id) ==> r === Some(
                    old(self).records_seq()[i],
                ) && final(self).records_seq() == old(self).records_seq().remove(i),
    {
        let ghost s0 = self.records@;
        let mut i: usize = 0;
        while i < self.records.len()
            invariant
                self.records@ == s0,
                i <= s0.len(),
                forall|j: int| 0 <= j < i ==> (#[trigger] s0[j]).id != id,
            decreases s0.len() - i,
        {
            if self.records[i].id == id {
                let taken = self.records.remove(i);
                proof {
                    assert forall|k: int|
                        (0 <= k < s0.len() && (#[trigger] s0[k]).id == id) implies k == i as int by {
                        if k < i as int {
                            assert(s0[k].id != id);
                        }
                        if k > i as int {
                            assert(s0[i as int].id != s0[k].id);
                        }
                    }
                    assert(self.records@ =~= s0.remove(i as int));
                    assert forall|j: int|
                        0 <= j < self.records@.len() implies (#[trigger] self.records@[j]).id
                        != id by {
                        if j < i as int {
                            assert(self.records@[j] == s0[j]);
                            assert(s0[j].id != id);
                        } else {
                            assert(self.records@[j] == s0[j + 1]);
                            assert(s0[i as int].id != s0[j + 1].id);
                        }
                    }
                    assert forall|a: int, b: int|
                        0 <= a < b < self.records@.len() implies (#[trigger] self.records@[a]).id
                        != (#[trigger] self.records@[b]).id by {
                        let a0 = if a < i as int {
                            a
                        } else {
                            a + 1
                        };
                        let b0 = if b < i as int {
                            b
                        } else {
                            b + 1
                        };
                        assert(self.records@[a] == s0[a0]);
                        assert(self.records@[b] == s0[b0]);
                        assert(s0[a0].id != s0[b0].id);
                    }
                }
                return Some(taken);
            }
            i = i + 1;
        }
        None
    }

    /// Returns a taken record to the registry. Only one record per peer
    /// may ever exist, so the registry must not already hold one for the
    /// record's id.
    pub fn put_record(&mut self, record: NetConnectionModel)
        requires
            old(self).wf(),
            !old(self).contains_id(record.id),
        ensures
            final(self).wf(),
            final(self).contains_id(record.id),
            final(self).records_seq() == old(self).records_seq().push(record),
    {
        let ghost s0 = self.records@;
        let ghost rid = record.id;
        self.records.push(record);
        proof {
            assert forall|a: int, b: int|
                0 <= a < b < self.records@.len() implies (#[trigger] self.records@[a]).id != (
            #[trigger] self.records@[b]).id by {
                if b < self.records@.len() - 1 {
                    assert(s0[a].id != s0[b].id);
                } else {
                    assert(s0[a].id != rid);
                }
            }
            assert(self.records@[self.records@.len() - 1].id == rid);
        }
    }
}

/// Lifecycle of one peer. `Unknown` is a peer never observed; the first
/// observed transport event (a connect, or any packet) makes it `Active`
/// and creates its record; an observed disconnect makes it `Dropped`,
/// which is terminal: an operation on a dropped connection is a no-op, as
/// a disconnect race is expected.
#[derive(Clone, Copy, PartialEq, Eq, Structural, Debug)]
pub enum ConnectionState {
    Unknown,
    Active,
    Dropped,
}

/// Where one tick's event batch moves a peer's lifecycle. `Dropped` is
/// terminal — no batch revives a dropped connection, so no further event
/// of that peer is ever processed.
pub open spec fn spec_next_connection_state(
    state: ConnectionState,
    events: Seq<TransportEvent>,
) -> ConnectionState {
    match state {
        ConnectionState::Unknown => if events.len() == 0 {
            ConnectionState::Unknown
        } else if observes_disconnect(events) {
            ConnectionState::Dropped
        } else {
            ConnectionState::Active
        },
        ConnectionState::Active => if observes_disconnect(events) {
            ConnectionState::Dropped
        } else {
            ConnectionState::Active
        },
        ConnectionState::Dropped => ConnectionState::Dropped,
    }
}

/// Advances a peer's lifecycle over one tick's drained event batch.
#[verifier::loop_isolation(false)]
pub fn next_connection_state(state: ConnectionState, events: &Vec<TransportEvent>) -> (r:
    ConnectionState)
    ensures
        r == spec_next_connection_state(state, events@),
{
    match state {
        ConnectionState::Dropped => ConnectionState::Dropped,
        _ => {
            if events.len() == 0 {
                return state;
            }
            let mut saw_disconnect = false;
            let mut i: usize = 0;
            while i < events.len()
                invariant
                    i <= events@.len(),
                    saw_disconnect == observes_disconnect(events@.take(i as int)),
                decreases events@.len() - i,
            {
                match &events[i] {
                    TransportEvent::Disconnected => {
                        saw_disconnect = true;
                    },
                    _ => {},
                }
                i = i + 1;
                proof {
                    assert(events@.take(i as int).drop_last() =~= events@.take(i - 1));
                    assert(events@.take(i as int).last() == events@[i - 1]);
                }
            }
            proof {
                assert(events@.take(events@.len() as int) =~= events@);
            }
            if saw_disconnect {
                ConnectionState::Dropped
            } else {
                ConnectionState::Active
            }
        },
    }
}

/// Law: `Dropped` is terminal. Once a peer's disconnect was observed, no
/// batch of further transport events is processed for it — its lifecycle
/// never leaves `Dropped`.
pub proof fn lemma_dropped_is_terminal(events: Seq<TransportEvent>)
    ensures
        spec_next_connection_state(ConnectionState::Dropped, events) == ConnectionState::Dropped,
{
}

/// What one tick of lifecycle management decided for one connection. The
/// caller performs the decisions: it sends the keepalive packet when
/// `send_ping` holds, and deletes the connection's record — after the whole
/// batch was drained — when `disconnected` holds; no further event of a
/// removed connection is processed.
pub struct ConnectionTickOutcome {
    pub send_ping: bool,
    pub disconnected: bool,
    pub messages_appended: usize,
}

/// The system draining transport events into the inbound-message queue and
/// keeping each connection alive or tearing it down.
pub struct NetConnectionManagerSystem;

impl NetConnectionManagerSystem {
    pub fn new() -> (r: Self) {
        NetConnectionManagerSystem
    }

    /// One tick for one active connection.
    ///
    /// Drains `events` in order: every successfully decoded non-keepalive
    /// message is appended to `incoming_messages` (a malformed packet is
    /// discarded and never fatal), a disconnect only flags the connection so
    /// the whole batch is still drained first, and the reader cursor moves
    /// past every drained event so none is double-processed. A keepalive is
    /// requested, and the ping timer reset, exactly when the interval has
    /// elapsed.
    #[verifier::loop_isolation(false)]
    pub fn process_connection(
        &self,
        connection: &mut NetConnectionModel,
        events: &Vec<TransportEvent>,
        now_ms: u64,
        incoming_messages: &mut Vec<InboundMessage>,
    ) -> (r: ConnectionTickOutcome)
        requires
            old(connection).reader_cursor + events@.len() <= u64::MAX,
        ensures
            final(connection).reader_cursor == old(connection).reader_cursor + events@.len(),
            final(incoming_messages)@ == old(incoming_messages)@ + decoded_messages(events@),
            r.messages_appended == decoded_messages(events@).len(),
            r.disconnected == observes_disconnect(events@),
            r.send_ping == ping_due(old(connection).last_pinged_at_ms, now_ms),
            final(connection).last_pinged_at_ms == if r.send_ping {
                now_ms
            } else {
                old(connection).last_pinged_at_ms
            },
            final(connection).id == old(connection).id,
            final(connection).created_at_ms == old(connection).created_at_ms,
            final(connection).last_acknowledged_update == old(
                connection,
            ).last_acknowledged_update,
            final(connection).ping_pong_data == old(connection).ping_pong_data,
    {
        let ghost evs = events@;
        let mut appended: usize = 0;
        let mut client_disconnected = false;
        let mut i: usize = 0;
        while i < events.len()
            invariant
                i <= evs.len(),
                incoming_messages@ == old(incoming_messages)@ + decoded_messages(
                    evs.take(i as int),
                ),
                appended <= i,
                appended == decoded_messages(evs.take(i as int)).len(),
                client_disconnected == observes_disconnect(evs.take(i as int)),
            decreases evs.len() - i,
        {
            match &events[i] {
                TransportEvent::Packet { decoded } => {
                    match decoded {
                        Some(message) => {
                            if !message.is_ping_message() {
                                incoming_messages.push(*message);
                                appended = appended + 1;
                            }
                        },
                        None => {},
                    }
                },
                TransportEvent::Connected => {},
                TransportEvent::Disconnected => {
                    client_disconnected = true;
                },
            }
            i = i + 1;
            proof {
                assert(evs.take(i as int).drop_last() =~= evs.take(i - 1));
                assert(evs.take(i as int).last() == evs[i - 1]);
            }
        }
        proof {
            assert(evs.take(evs.len() as int) =~= evs);
        }
        connection.reader_cursor = connection.reader_cursor + events.len() as u64;
        let send_ping = PING_INTERVAL_MS < now_ms && now_ms - PING_INTERVAL_MS
            > connection.last_pinged_at_ms;
        if send_ping {
            connection.last_pinged_at_ms = now_ms;
        }
        ConnectionTickOutcome { send_ping, disconnected: client_disconnected, messages_appended: appended }
    }
}

} // verus!
