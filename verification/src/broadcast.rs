//! Ordering and deduplication of action updates, and the decision of which
//! frame span to (re)send to each client.
//!
//! Action updates are tagged with monotonically increasing ids at creation,
//! so a receiver can drop transport-level retransmissions by remembering
//! the highest id it has acknowledged. When broadcasting world state, a
//! lagging client must receive a contiguous catch-up range — the newest
//! frame alone could not be applied across a gap — and a client whose
//! needed range already expired from the ring buffer is resynchronized
//! through a full-state snapshot instead of stalling forever.

use vstd::prelude::*;

use crate::NetIdentifier;
use crate::components::NetConnectionModel;

verus! {

/// Mints session-wide unique ids for outbound action updates.
pub struct ActionUpdateIdProvider {
    next_id: NetIdentifier,
}

impl ActionUpdateIdProvider {
    /// The id the next call will issue; every id already issued is below
    /// it, which is what makes issued ids unique and increasing.
    pub closed spec fn counter(self) -> NetIdentifier {
        self.next_id
    }

    pub fn new() -> (r: Self)
        ensures
            r.counter() == 0,
    {
        ActionUpdateIdProvider { next_id: 0 }
    }

    /// Issues the next id. Ids are never reused within a session; the
    /// counter reaching the numeric bound would be a fatal configuration
    /// error no real session meets, so callers keep it below the bound.
    pub fn next_update_id(&mut self) -> (r: NetIdentifier)
        requires
            old(self).counter() < u64::MAX,
        ensures
            r == old(self).counter(),
            final(self).counter() == old(self).counter() + 1,
    {
        let id = self.next_id;
        self.next_id = self.next_id + 1;
        id
    }
}

impl Default for ActionUpdateIdProvider {
    fn default() -> (r: Self)
        ensures
            r.counter() == 0,
    {
        ActionUpdateIdProvider { next_id: 0 }
    }
}

/// Whether `update_id` has not been acknowledged yet: ids are issued in
/// increasing order, so anything at or below the highest acknowledged id
/// is a duplicate delivery.
pub open spec fn update_is_fresh(
    last_acknowledged: Option<NetIdentifier>,
    update_id: NetIdentifier,
) -> bool {
    match last_acknowledged {
        Option::None => true,
        Option::Some(highest) => update_id > highest,
    }
}

/// The acknowledgement state after `update_id` was offered: a fresh id
/// becomes the highest acknowledged one, a duplicate changes nothing.
pub open spec fn acknowledged_after(
    last_acknowledged: Option<NetIdentifier>,
    update_id: NetIdentifier,
) -> Option<NetIdentifier> {
    if update_is_fresh(last_acknowledged, update_id) {
        Option::Some(update_id)
    } else {
        last_acknowledged
    }
}

impl NetConnectionModel {
    /// Registers receipt of action update `update_id` from this peer.
    /// Returns whether the update is fresh — to be applied — or a duplicate
    /// delivery (e.g. retransmitted by the transport) to drop.
    pub fn acknowledge_update(&mut self, update_id: NetIdentifier) -> (fresh: bool)
        ensures
            fresh == update_is_fresh(old(self).last_acknowledged_update, update_id),
            final(self).last_acknowledged_update == acknowledged_after(
                old(self).last_acknowledged_update,
                update_id,
            ),
            final(self).id == old(self).id,
            final(self).reader_cursor == old(self).reader_cursor,
            final(self).created_at_ms == old(self).created_at_ms,
            final(self).last_pinged_at_ms == old(self).last_pinged_at_ms,
            final(self).ping_pong_data == old(self).ping_pong_data,
    {
        let fresh = match self.last_acknowledged_update {
            Option::None => true,
            Option::Some(highest) => update_id > highest,
        };
        if fresh {
            self.last_acknowledged_update = Some(update_id);
        }
        fresh
    }
}

/// Law: re-sending an already-offered id is a no-op. Once an id has been
/// offered to `acknowledge_update`, the same id is never fresh again, and
/// offering it again leaves the acknowledgement state unchanged.
pub proof fn lemma_duplicate_update_is_noop(
    last_acknowledged: Option<NetIdentifier>,
    update_id: NetIdentifier,
)
    ensures
        !update_is_fresh(acknowledged_after(last_acknowledged, update_id), update_id),
        acknowledged_after(acknowledged_after(last_acknowledged, update_id), update_id)
            == acknowledged_after(last_acknowledged, update_id),
{
}

/// The contiguous frame range to (re)send to one client, and whether the
/// client additionally needs a full-state snapshot because part of the
/// range it lacks has already expired from the ring buffer.
#[derive(Clone, Copy, PartialEq, Eq, Structural, Debug)]
pub struct BroadcastSpan {
    pub first_frame: u64,
    pub last_frame: u64,
    pub needs_snapshot: bool,
}

/// Where a client's catch-up range would ideally start: right after the
/// last frame broadcast to it, but no earlier than where the latency
/// estimator places the client now (frames the client has already
/// simulated past need not be resent from that far back).
pub open spec fn desired_span_start(last_broadcasted_frame: u64, estimated_peer_frame: u64) -> int {
    if last_broadcasted_frame + 1 >= estimated_peer_frame {
        last_broadcasted_frame + 1
    } else {
        estimated_peer_frame as int
    }
}

/// Decides which frames to (re)send to a client that was last sent
/// `last_broadcasted_frame`, given where the latency estimator places the
/// client and which frames the ring buffer still retains
/// (`oldest_retained_frame ..= current_frame`).
///
/// Returns `None` when the client is already up to date. Otherwise the
/// span runs from the desired start — clamped into the retained range —
/// up to the current frame, and `needs_snapshot` reports that the desired
/// start had already expired from the buffer, so the client must be
/// resynchronized from a snapshot rather than stall forever.
pub fn frames_to_broadcast(
    last_broadcasted_frame: u64,
    estimated_peer_frame: u64,
    current_frame: u64,
    oldest_retained_frame: u64,
) -> (r: Option<BroadcastSpan>)
    requires
        oldest_retained_frame <= current_frame,
    ensures
        (r is None) == (last_broadcasted_frame >= current_frame),
        r is Some ==> {
            let desired = desired_span_start(last_broadcasted_frame, estimated_peer_frame);
            &&& r.unwrap().last_frame == current_frame
            &&& r.unwrap().needs_snapshot == (desired < oldest_retained_frame)
            &&& r.unwrap().first_frame == if desired < oldest_retained_frame {
                oldest_retained_frame as int
            } else if desired > current_frame {
                current_frame as int
            } else {
                desired
            }
            &&& oldest_retained_frame <= r.unwrap().first_frame <= current_frame
        },
{
    if last_broadcasted_frame >= current_frame {
        return None;
    }
    let desired = if estimated_peer_frame <= last_broadcasted_frame + 1 {
        last_broadcasted_frame + 1
    } else {
        estimated_peer_frame
    };
    let needs_snapshot = desired < oldest_retained_frame;
    let first_frame = if desired < oldest_retained_frame {
        oldest_retained_frame
    } else if desired > current_frame {
        current_frame
    } else {
        desired
    };
    Some(BroadcastSpan { first_frame, last_frame: current_frame, needs_snapshot })
}

} // verus!
