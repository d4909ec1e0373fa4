//! Per-entity records attached by the simulation: marker components,
//! network metadata and the per-peer connection record.
//!
//! Wall-clock instants and the transport's reader handle are owned by the
//! runtime around this core; here they appear as plain values (milliseconds
//! since session start, and a cursor offset into the connection's event
//! stream).

use vstd::prelude::*;

use crate::NetIdentifier;
use crate::latency::PingPongData;

verus! {

/// Marker attached to an entity whose death has been decided but whose
/// record still awaits cleanup.
#[derive(Clone, Copy, Default)]
pub struct Dead;

/// Network identity of a replicated entity: the id under which peers know
/// it, and the frame at which it was spawned.
#[derive(Clone, Copy)]
pub struct EntityNetMetadata {
    pub id: NetIdentifier,
    pub spawned_frame_number: u64,
}

/// When (milliseconds of level time) the player last cast each spell.
pub struct PlayerLastCastedSpells {
    pub missile_ms: u64,
}

impl Default for PlayerLastCastedSpells {
    fn default() -> (r: Self)
        ensures
            r.missile_ms == 0,
    {
        PlayerLastCastedSpells { missile_ms: 0 }
    }
}

/// Session state for one live network peer.
///
/// `reader_cursor` is this record's private position in the transport's
/// event stream for the connection; advancing it is how the record consumes
/// events, so no event is ever double-processed. Exactly one record exists
/// per peer id at a time; the record is destroyed the tick a disconnect is
/// observed.
pub struct NetConnectionModel {
    pub id: NetIdentifier,
    pub reader_cursor: u64,
    pub created_at_ms: u64,
    pub last_pinged_at_ms: u64,
    pub last_acknowledged_update: Option<u64>,
    pub ping_pong_data: PingPongData,
}

impl NetConnectionModel {
    /// A record for a peer first observed now: nothing acknowledged yet, an
    /// empty latency window, and the keepalive timer started at `now_ms`.
    pub fn new(id: NetIdentifier, reader_cursor: u64, now_ms: u64) -> (r: Self)
        ensures
            r.id == id,
            r.reader_cursor == reader_cursor,
            r.created_at_ms == now_ms,
            r.last_pinged_at_ms == now_ms,
            r.last_acknowledged_update is None,
            r.ping_pong_data.wf(),
            r.ping_pong_data.samples().len() == 0,
    {
        NetConnectionModel {
            id,
            reader_cursor,
            created_at_ms: now_ms,
            last_pinged_at_ms: now_ms,
            last_acknowledged_update: None,
            ping_pong_data: PingPongData::new(),
        }
    }
}

} // verus!
