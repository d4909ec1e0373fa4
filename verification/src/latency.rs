//! Per-connection latency estimation from a sliding window of ping/pong
//! round-trip samples.
//!
//! A ping alone cannot anchor the peer's clock; only a resolved round trip
//! (its pong observed) relates the peer's frame counter to the local frame
//! timeline. The window keeps the most recent samples so the estimate always
//! reflects current network conditions.

use vstd::prelude::*;

use crate::NetIdentifier;

verus! {

/// Maximum number of ping/pong samples a window retains.
pub const PING_PONG_STORAGE_LIMIT: usize = 20;

/// One ping/pong round-trip sample.
///
/// `received_pong_frame` and `estimated_peer_frame_number` are set together
/// when the matching pong arrives, and stay `None` while the round trip is
/// unresolved.
#[derive(Clone, Copy)]
pub struct PingPong {
    pub ping_id: NetIdentifier,
    pub sent_ping_frame: u64,
    pub received_pong_frame: Option<u64>,
    pub estimated_peer_frame_number: Option<u64>,
}

/// `a - b`, stopping at `0`: local and peer frame counters may disagree in
/// surprising ways under reordering, and an anomalous sample must not panic.
pub open spec fn sat_sub(a: u64, b: u64) -> u64 {
    if a >= b {
        (a - b) as u64
    } else {
        0
    }
}

/// `a + b`, stopping at `u64::MAX`.
pub open spec fn sat_add(a: u64, b: u64) -> u64 {
    if a + b <= u64::MAX {
        (a + b) as u64
    } else {
        u64::MAX
    }
}

/// Whether the sample's round trip has resolved (its pong was observed).
pub open spec fn sample_resolved(p: PingPong) -> bool {
    p.received_pong_frame is Some && p.estimated_peer_frame_number is Some
}

/// How many frames the peer lags behind what this sample observed locally.
pub open spec fn sample_lag(p: PingPong) -> u64
    recommends
        sample_resolved(p),
{
    sat_sub(p.received_pong_frame.unwrap(), p.estimated_peer_frame_number.unwrap())
}

/// Number of resolved samples in `s`.
pub open spec fn resolved_count(s: Seq<PingPong>) -> int
    decreases s.len(),
{
    if s.len() == 0 {
        0
    } else {
        resolved_count(s.drop_last()) + if sample_resolved(s.last()) {
            1 as int
        } else {
            0 as int
        }
    }
}

/// Sum of `sample_lag` over the resolved samples in `s`.
pub open spec fn lag_sum(s: Seq<PingPong>) -> int
    decreases s.len(),
{
    if s.len() == 0 {
        0
    } else {
        lag_sum(s.drop_last()) + if sample_resolved(s.last()) {
            sample_lag(s.last()) as int
        } else {
            0 as int
        }
    }
}

/// The sample `add_ping` appends: sent now, round trip still unresolved.
pub open spec fn fresh_sample(ping_id: NetIdentifier, frame_number: u64) -> PingPong {
    PingPong {
        ping_id,
        sent_ping_frame: frame_number,
        received_pong_frame: None,
        estimated_peer_frame_number: None,
    }
}

/// The sample after its matching pong, reported from the peer's frame
/// `peer_frame_number` and observed at local frame `frame_number`, is
/// applied: one-way latency is half the (saturating) round-trip frame span,
/// and the peer is estimated to have advanced that far past what it
/// reported.
pub open spec fn pong_applied(p: PingPong, peer_frame_number: u64, frame_number: u64) -> PingPong {
    PingPong {
        ping_id: p.ping_id,
        sent_ping_frame: p.sent_ping_frame,
        received_pong_frame: Some(frame_number),
        estimated_peer_frame_number: Some(
            sat_add(peer_frame_number, sat_sub(frame_number, p.sent_ping_frame) / 2),
        ),
    }
}

/// `i` is the position of the oldest sample in `s` carrying `ping_id`.
pub open spec fn is_first_match(s: Seq<PingPong>, ping_id: NetIdentifier, i: int) -> bool {
    &&& 0 <= i < s.len()
    &&& s[i].ping_id == ping_id
    &&& forall|j: int| 0 <= j < i ==> (#[trigger] s[j]).ping_id != ping_id
}

/// The estimate carried by the most recent resolved sample of `s`, if any
/// round trip has resolved at all.
pub open spec fn spec_latest_estimate(s: Seq<PingPong>) -> Option<u64>
    decreases s.len(),
{
    if s.len() == 0 {
        Option::None
    } else if sample_resolved(s.last()) {
        s.last().estimated_peer_frame_number
    } else {
        spec_latest_estimate(s.drop_last())
    }
}

/// Bounded FIFO window of the most recent ping/pong round-trip samples for
/// one connection.
pub struct PingPongData {
    data: Vec<PingPong>,
}

impl PingPongData {
    /// The retained samples, oldest first.
    pub closed spec fn samples(self) -> Seq<PingPong> {
        self.data@
    }

    /// The window never exceeds its capacity, a sample's two resolution
    /// fields are always set together, and `ping_id` is unique among the
    /// retained samples (a reused id evicts the older entry before being
    /// matched).
    pub open spec fn wf(self) -> bool {
        &&& self.samples().len() <= PING_PONG_STORAGE_LIMIT
        &&& forall|i: int|
            0 <= i < self.samples().len() ==> ((#[trigger] self.samples()[i]).received_pong_frame
                is Some <==> self.samples()[i].estimated_peer_frame_number is Some)
        &&& forall|i: int, j: int|
            0 <= i < j < self.samples().len() ==> (#[trigger] self.samples()[i]).ping_id != (
            #[trigger] self.samples()[j]).ping_id
    }

    /// The average, over resolved samples, of how far the peer lags behind;
    /// `0` while the window is still filling with nothing resolved, and the
    /// maximum sentinel ("lag unknown, assume worst") once the window should
    /// have had real data but no sample resolved.
    pub open spec fn spec_average_lag(self) -> u64 {
        if resolved_count(self.samples()) == 0 {
            if self.samples().len() < PING_PONG_STORAGE_LIMIT / 2 {
                0
            } else {
                u64::MAX
            }
        } else {
            (lag_sum(self.samples()) / resolved_count(self.samples())) as u64
        }
    }

    pub fn new() -> (r: Self)
        ensures
            r.wf(),
            r.samples().len() == 0,
    {
        PingPongData { data: Vec::with_capacity(PING_PONG_STORAGE_LIMIT) }
    }

    /// Records that a ping carrying `ping_id` was sent at local frame
    /// `frame_number`. An older sample reusing the same id is evicted
    /// first, keeping `ping_id` unique in the window; otherwise a full
    /// window evicts its oldest sample (FIFO), so coverage always reflects
    /// the most recent round trips.
    #[verifier::loop_isolation(false)]
    pub fn add_ping(&mut self, ping_id: NetIdentifier, frame_number: u64)
        requires
            old(self).wf(),
        ensures
            final(self).wf(),
            (forall|j: int|
                0 <= j < old(self).samples().len() ==> (#[trigger] old(self).samples()[j]).ping_id
                    != ping_id) ==> final(self).samples() =~= (if old(self).samples().len()
                == PING_PONG_STORAGE_LIMIT {
                old(self).samples().drop_first()
            } else {
                old(self).samples()
            }).push(fresh_sample(ping_id, frame_number)),
            forall|i: int|
                #[trigger] is_first_match(old(self).samples(), ping_id, i) ==> final(self).samples()
                    =~= old(self).samples().remove(i).push(fresh_sample(ping_id, frame_number)),
    {
        let ghost s0 = self.data@;
        let mut i: usize = 0;
        while i < self.data.len()
            invariant
                self.data@ == s0,
                i <= s0.len(),
                forall|j: int| 0 <= j < i ==> (#[trigger] s0[j]).ping_id != ping_id,
            decreases s0.len() - i,
        {
            if self.data[i].ping_id == ping_id {
                self.data.remove(i);
                self.data.push(
                    PingPong {
                        ping_id,
                        sent_ping_frame: frame_number,
                        received_pong_frame: None,
                        estimated_peer_frame_number: None,
                    },
                );
                proof {
                    assert(is_first_match(s0, ping_id, i as int));
                    assert forall|k: int| #[trigger] is_first_match(s0, ping_id, k) implies k
                        == i as int by {
                        if k < i as int {
                            assert(s0[k].ping_id != ping_id);
                        }
                        if k > i as int {
                            assert(s0[i as int].ping_id != ping_id);
                        }
                    }
                    assert(self.data@ =~= s0.remove(i as int).push(
                        fresh_sample(ping_id, frame_number),
                    ));
                    assert forall|j: int|
                        0 <= j < s0.remove(i as int).len() implies (#[trigger] s0.remove(
                        i as int,
                    )[j]).ping_id != ping_id by {
                        if j < i as int {
                            assert(s0.remove(i as int)[j] == s0[j]);
                        } else {
                            assert(s0.remove(i as int)[j] == s0[j + 1]);
                        }
                    }
                }
                return;
            }
            i = i + 1;
        }
        if self.data.len() == PING_PONG_STORAGE_LIMIT {
            self.data.remove(0);
        }
        self.data.push(
            PingPong {
                ping_id,
                sent_ping_frame: frame_number,
                received_pong_frame: None,
                estimated_peer_frame_number: None,
            },
        );
    }

    /// Resolves the retained sample carrying `ping_id` (unique in a
    /// well-formed window) with a pong reported from the peer's frame
    /// `peer_frame_number` and observed at local frame `frame_number`. A
    /// pong whose ping already aged out of the window is ignored: peer
    /// latency cannot be guessed from it.
    #[verifier::loop_isolation(false)]
    pub fn add_pong(&mut self, ping_id: NetIdentifier, peer_frame_number: u64, frame_number: u64)
        requires
            old(self).wf(),
        ensures
            final(self).wf(),
            final(self).samples().len() == old(self).samples().len(),
            (forall|j: int|
                0 <= j < old(self).samples().len() ==> (#[trigger] old(self).samples()[j]).ping_id
                    != ping_id) ==> final(self).samples() =~= old(self).samples(),
            forall|i: int|
                #[trigger] is_first_match(old(self).samples(), ping_id, i) ==> final(self).samples()
                    =~= old(self).samples().update(
                    i,
                    pong_applied(old(self).samples()[i], peer_frame_number, frame_number),
                ),
    {
        let ghost s0 = self.data@;
        let mut i: usize = 0;
        while i < self.data.len()
            invariant
                self.data@ == s0,
                i <= s0.len(),
                forall|j: int| 0 <= j < i ==> (#[trigger] s0[j]).ping_id != ping_id,
            decreases s0.len() - i,
        {
            if self.data[i].ping_id == ping_id {
                let sent = self.data[i].sent_ping_frame;
                let oneway = (if frame_number >= sent {
                    frame_number - sent
                } else {
                    0
                }) / 2;
                let estimated = if peer_frame_number <= u64::MAX - oneway {
                    peer_frame_number + oneway
                } else {
                    u64::MAX
                };
                let mut updated = self.data[i];
                updated.received_pong_frame = Some(frame_number);
                updated.estimated_peer_frame_number = Some(estimated);
                self.data[i] = updated;
                proof {
                    assert(is_first_match(s0, ping_id, i as int));
                    assert(updated == pong_applied(s0[i as int], peer_frame_number, frame_number));
                    assert forall|k: int| #[trigger] is_first_match(s0, ping_id, k) implies k
                        == i as int by {
                        if k < i as int {
                            assert(s0[k].ping_id != ping_id);
                        }
                        if k > i as int {
                            assert(s0[i as int].ping_id != ping_id);
                        }
                    }
                }
                return;
            }
            i = i + 1;
        }
    }

    /// Where the latency estimator currently places the peer: the
    /// estimate of the most recently resolved round trip, or `None` while
    /// no round trip has resolved. The broadcast coordinator consults this
    /// to decide how far back a client's catch-up range must reach.
    #[verifier::loop_isolation(false)]
    pub fn latest_estimated_peer_frame(&self) -> (r: Option<u64>)
        ensures
            r == spec_latest_estimate(self.samples()),
    {
        let mut i: usize = self.data.len();
        proof {
            assert(self.data@.take(self.data@.len() as int) =~= self.data@);
        }
        while i > 0
            invariant
                i <= self.data@.len(),
                spec_latest_estimate(self.data@) == spec_latest_estimate(self.data@.take(i as int)),
            decreases i,
        {
            i = i - 1;
            let p = self.data[i];
            proof {
                assert(self.data@.take(i + 1).drop_last() =~= self.data@.take(i as int));
                assert(self.data@.take(i + 1).last() == self.data@[i as int]);
            }
            if p.estimated_peer_frame_number.is_some() && p.received_pong_frame.is_some() {
                return p.estimated_peer_frame_number;
            }
        }
        None
    }

    /// The running lag estimate for this connection: the integer mean of
    /// per-sample lag over resolved samples; `0` while fewer than half the
    /// window's capacity is filled and nothing has resolved (a level just
    /// started); the maximum sentinel when the window should have had real
    /// data but every sample failed to resolve (a disconnect in progress).
    pub fn average_lagging_behind(&self) -> (r: u64)
        requires
            self.wf(),
        ensures
            r == self.spec_average_lag(),
    {
        let mut pongs_count: usize = 0;
        let mut lagging_sum: u128 = 0;
        let mut i: usize = 0;
        while i < self.data.len()
            invariant
                self.wf(),
                i <= self.data@.len(),
                pongs_count == resolved_count(self.data@.take(i as int)),
                lagging_sum == lag_sum(self.data@.take(i as int)),
                pongs_count <= i,
                lagging_sum <= (pongs_count as int) * (u64::MAX as int),
            decreases self.data@.len() - i,
        {
            let p = self.data[i];
            proof {
                assert(self.samples()[i as int] == p);
            }
            if p.estimated_peer_frame_number.is_some() {
                assert(p.received_pong_frame is Some);
                let est = p.estimated_peer_frame_number.unwrap();
                let rec = p.received_pong_frame.unwrap();
                let lag: u64 = if rec >= est {
                    rec - est
                } else {
                    0
                };
                pongs_count = pongs_count + 1;
                lagging_sum = lagging_sum + lag as u128;
            }
            i = i + 1;
            proof {
                assert(self.data@.take(i as int).drop_last() =~= self.data@.take(i - 1));
                assert(self.data@.take(i as int).last() == self.data@[i - 1]);
            }
        }
        proof {
            assert(self.data@.take(self.data@.len() as int) =~= self.data@);
        }
        if pongs_count == 0 {
            if self.data.len() < PING_PONG_STORAGE_LIMIT / 2 {
                0
            } else {
                u64::MAX
            }
        } else {
            proof {
                assert((lag_sum(self.data@) / resolved_count(self.data@)) <= u64::MAX as int)
                    by (nonlinear_arith)
                    requires
                        lag_sum(self.data@) <= resolved_count(self.data@) * (u64::MAX as int),
                        resolved_count(self.data@) >= 1,
                        lag_sum(self.data@) >= 0,
                ;
            }
            (lagging_sum / (pongs_count as u128)) as u64
        }
    }
}

} // verus!
