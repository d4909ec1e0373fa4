use gv_net::latency::{PingPongData, PING_PONG_STORAGE_LIMIT};

#[test]
fn pong_estimates_peer_frame_from_half_round_trip() {
    // Ping sent at local frame 100, pong received at local frame 110
    // reporting peer frame 50: one-way latency 5, estimated peer frame 55.
    let mut window = PingPongData::new();
    window.add_ping(1, 100);
    window.add_pong(1, 50, 110);
    assert_eq!(window.latest_estimated_peer_frame(), Some(55));
    assert_eq!(window.average_lagging_behind(), 55);
}

#[test]
fn unmatched_pong_is_ignored() {
    let mut window = PingPongData::new();
    window.add_ping(1, 100);
    window.add_pong(2, 50, 110);
    assert_eq!(window.latest_estimated_peer_frame(), None);
    assert_eq!(window.average_lagging_behind(), 0);
}

#[test]
fn average_lag_is_zero_while_window_is_filling_unresolved() {
    let mut window = PingPongData::new();
    assert_eq!(window.average_lagging_behind(), 0);
    for id in 0..(PING_PONG_STORAGE_LIMIT / 2 - 1) as u64 {
        window.add_ping(id, id);
    }
    assert_eq!(window.average_lagging_behind(), 0);
}

#[test]
fn average_lag_is_sentinel_once_window_should_have_data() {
    let mut window = PingPongData::new();
    for id in 0..(PING_PONG_STORAGE_LIMIT / 2) as u64 {
        window.add_ping(id, id);
    }
    assert_eq!(window.average_lagging_behind(), u64::MAX);
    for id in 0..PING_PONG_STORAGE_LIMIT as u64 {
        window.add_ping(100 + id, id);
    }
    assert_eq!(window.average_lagging_behind(), u64::MAX);
}

#[test]
fn average_lag_is_integer_mean_over_resolved_samples() {
    let mut window = PingPongData::new();
    window.add_ping(1, 100);
    window.add_ping(2, 100);
    window.add_ping(3, 100);
    // Sample 1: one-way (110-100)/2 = 5, estimate 55, lag 110-55 = 55.
    window.add_pong(1, 50, 110);
    // Sample 2: one-way (120-100)/2 = 10, estimate 50, lag 120-50 = 70.
    window.add_pong(2, 40, 120);
    // Sample 3 stays unresolved and does not enter the mean.
    assert_eq!(window.average_lagging_behind(), (55 + 70) / 2);
    assert_eq!(window.latest_estimated_peer_frame(), Some(50));
}

#[test]
fn full_window_evicts_oldest_sample_first() {
    let mut window = PingPongData::new();
    for id in 0..PING_PONG_STORAGE_LIMIT as u64 {
        window.add_ping(id, 100);
    }
    // One more ping evicts the sample with id 0.
    window.add_ping(1000, 100);
    // A pong for the evicted ping is unmatched and changes nothing.
    window.add_pong(0, 50, 110);
    assert_eq!(window.latest_estimated_peer_frame(), None);
    assert_eq!(window.average_lagging_behind(), u64::MAX);
    // A pong for a sample still in the window resolves it.
    window.add_pong(5, 50, 110);
    assert_eq!(window.latest_estimated_peer_frame(), Some(55));
    assert_eq!(window.average_lagging_behind(), 55);
}

#[test]
fn reused_ping_id_evicts_the_older_sample_first() {
    let mut window = PingPongData::new();
    window.add_ping(7, 100);
    window.add_ping(7, 200);
    // Only the newer sample (sent at frame 200) remains; the pong resolves
    // it: estimate 50 + (210-200)/2 = 55. Had the older sample survived,
    // the pong would have matched it instead, estimating 50 + (210-100)/2.
    window.add_pong(7, 50, 210);
    assert_eq!(window.latest_estimated_peer_frame(), Some(55));
    assert_eq!(window.average_lagging_behind(), 210 - 55);
}

#[test]
fn estimate_saturates_at_the_frame_counter_bound() {
    let mut window = PingPongData::new();
    window.add_ping(1, 0);
    window.add_pong(1, u64::MAX - 2, 10);
    assert_eq!(window.latest_estimated_peer_frame(), Some(u64::MAX));
    // The peer is estimated ahead of the local frame, so its lag is 0.
    assert_eq!(window.average_lagging_behind(), 0);
}

#[test]
fn fully_resolved_window_averages_all_samples() {
    let mut window = PingPongData::new();
    for id in 0..PING_PONG_STORAGE_LIMIT as u64 {
        window.add_ping(id, 100);
        // Each round trip resolves with one-way latency 2 and a lag of
        // id frames: estimate id + 2, observed at local frame 104.
        window.add_pong(id, 102 - id, 104);
    }
    let expected: u64 = (0..PING_PONG_STORAGE_LIMIT as u64).sum::<u64>()
        / PING_PONG_STORAGE_LIMIT as u64;
    assert_eq!(window.average_lagging_behind(), expected);
}

#[test]
fn anomalous_pong_saturates_instead_of_panicking() {
    let mut window = PingPongData::new();
    // Pong observed at a local frame before the ping was sent: one-way
    // latency saturates to 0 and the estimate is the reported frame.
    window.add_ping(3, 100);
    window.add_pong(3, 42, 90);
    assert_eq!(window.latest_estimated_peer_frame(), Some(42));
    assert_eq!(window.average_lagging_behind(), 90 - 42);
}
