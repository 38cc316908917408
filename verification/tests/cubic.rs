use tcp_cong::cubic::{CubicState, CUBE_FACTOR};
use tcp_cong::math::cubic_root;
use tcp_cong::sock::{AckSample, Event, Sock, State, Pacing};

fn sock_for_cubic(cwnd: u32, ssthresh: u32) -> Sock {
    Sock {
        snd_cwnd: cwnd,
        snd_ssthresh: ssthresh,
        snd_cwnd_cnt: 0,
        snd_cwnd_clamp: u32::MAX,
        prior_cwnd: 0,
        snd_una: 0,
        snd_nxt: 1_000_000,
        tcp_mstamp: 0,
        lsndtime: 0,
        is_cwnd_limited: true,
        pacing_rate: 0,
        pacing_status: Pacing::Off,
        gso_max_size: 0,
        ca_state: State::Open,
    }
}

#[test]
fn cubic_loss_then_update_opens_epoch() {
    // Loss at a window of 20: W_max becomes 20 and the new threshold is
    // 20*717/1024 = 14, at least 2.
    let mut c = CubicState::default();
    let th = c.ssthresh(20);
    assert_eq!(c.last_max_cwnd, 20);
    assert_eq!(th, 14);
    assert_eq!(c.epoch_start, None);
    // The first update of the new epoch, at the reduced window, pins the
    // epoch start, computes K from the distance to W_max and puts the
    // curve's plateau at W_max.
    c.update(13, 1, 50);
    assert_eq!(c.epoch_start, Some(50));
    assert_eq!(c.K, cubic_root(CUBE_FACTOR * 7));
    assert_eq!(c.K, 2595);
    assert_eq!(c.origin_point, 20);
    assert_eq!(c.tcp_cwnd, 13);
    assert_eq!(c.ack_cnt, 1);
}

#[test]
fn cubic_update_divisor_on_curve() {
    let mut c = CubicState::default();
    c.ssthresh(20);
    c.hystart_state.delay_min = Some(3000);
    // t = 0 + 3 ms, so the curve sits 6 packets below its plateau of 20:
    // the target is 14 and the divisor 13/(14-13) = 13.
    let cnt = c.update(13, 1, 50);
    assert_eq!(cnt, 13);
    assert_eq!(c.cnt, 13);
}

#[test]
fn cubic_update_divisor_is_at_least_two() {
    for cwnd in [1u32, 2, 16, 100, 1024] {
        for lmc in [0u32, 8, 200, 4096] {
            let mut c = CubicState::default();
            c.last_max_cwnd = lmc;
            c.hystart_state.delay_min = Some(500);
            let cnt = c.update(cwnd, 1, 99);
            assert!(cnt >= 2, "cwnd={cwnd} lmc={lmc} cnt={cnt}");
        }
    }
}

#[test]
fn cubic_rate_limiting_touches_only_ack_count() {
    let mut c = CubicState::default();
    c.hystart_state.delay_min = Some(500);
    c.update(100, 2, 1000);
    let snap = c;
    // Same window, 31 ms later: the same divisor comes back and only the
    // acknowledged-packet account moves.
    let cnt = c.update(100, 5, 1031);
    assert_eq!(cnt, snap.cnt);
    assert_eq!(c.ack_cnt, snap.ack_cnt + 5);
    assert_eq!(CubicState { ack_cnt: snap.ack_cnt, ..c }, snap);
}

#[test]
fn cubic_update_without_delay_floor_keeps_divisor() {
    // Until a delay sample arrives the update pins the epoch but hands
    // the cached divisor back.
    let mut c = CubicState::default();
    let cnt = c.update(100, 1, 42);
    assert_eq!(cnt, 1);
    assert_eq!(c.epoch_start, Some(42));
}

#[test]
fn cubic_reset_restores_default() {
    let mut c = CubicState::default();
    c.ssthresh(100);
    c.hystart_state.delay_min = Some(77);
    c.update(70, 3, 9);
    c.reset();
    assert_eq!(c, CubicState::default());
}

#[test]
fn cubic_found_survives_updates_until_loss() {
    let mut c = CubicState::default();
    c.hystart_state.found = true;
    c.hystart_state.delay_min = Some(500);
    let mut sk = sock_for_cubic(20, 100);
    for i in 0..5u32 {
        c.update(20 + i, 1, 100 + 40 * i);
        c.pkts_acked(&mut sk, &AckSample::new(1, 600), 100 + 40 * i);
        assert!(c.hystart_state.found);
    }
    c.set_state(&sk, State::Recovery);
    assert!(c.hystart_state.found);
    c.set_state(&sk, State::Loss);
    assert!(!c.hystart_state.found);
}

#[test]
fn cubic_pkts_acked_tracks_delay_floor() {
    let mut c = CubicState::default();
    let mut sk = sock_for_cubic(10, 100);
    // A sample without an RTT is ignored.
    c.pkts_acked(&mut sk, &AckSample::new(1, -1), 50);
    assert_eq!(c.hystart_state.delay_min, None);
    // The first reading sets the floor, later ones only lower it.
    c.pkts_acked(&mut sk, &AckSample::new(1, 5000), 50);
    assert_eq!(c.hystart_state.delay_min, Some(5000));
    c.pkts_acked(&mut sk, &AckSample::new(1, 3000), 50);
    assert_eq!(c.hystart_state.delay_min, Some(3000));
    c.pkts_acked(&mut sk, &AckSample::new(1, 4000), 50);
    assert_eq!(c.hystart_state.delay_min, Some(3000));
    // A zero RTT reading counts as one microsecond.
    let mut c2 = CubicState::default();
    c2.pkts_acked(&mut sk, &AckSample::new(1, 0), 50);
    assert_eq!(c2.hystart_state.delay_min, Some(1));
}

#[test]
fn cubic_pkts_acked_settles_after_epoch_start() {
    // Within one second of the epoch start the samples are ignored.
    let mut c = CubicState::default();
    c.epoch_start = Some(1000);
    let mut sk = sock_for_cubic(10, 100);
    c.pkts_acked(&mut sk, &AckSample::new(1, 5000), 1999);
    assert_eq!(c.hystart_state.delay_min, None);
    c.pkts_acked(&mut sk, &AckSample::new(1, 5000), 2000);
    assert_eq!(c.hystart_state.delay_min, Some(5000));
}

#[test]
fn cubic_cwnd_event_shifts_epoch_for_idle_time() {
    let mut c = CubicState::default();
    c.epoch_start = Some(100);
    let mut sk = sock_for_cubic(10, 100);
    sk.lsndtime = 0;
    // 50 idle jiffies push the epoch start 50 ms forward, but never past
    // the present.
    c.cwnd_event(&sk, Event::TxStart, 50, 500);
    assert_eq!(c.epoch_start, Some(150));
    c.cwnd_event(&sk, Event::TxStart, 50, 120);
    assert_eq!(c.epoch_start, Some(120));
    // Other events leave the epoch alone.
    c.epoch_start = Some(100);
    c.cwnd_event(&sk, Event::CompleteCwr, 50, 500);
    assert_eq!(c.epoch_start, Some(100));
    // Not in an epoch: nothing to shift.
    c.epoch_start = None;
    c.cwnd_event(&sk, Event::TxStart, 50, 500);
    assert_eq!(c.epoch_start, None);
}

#[test]
fn cubic_cong_avoid_slow_start_then_curve() {
    let mut c = CubicState::default();
    c.hystart_state.delay_min = Some(500);
    let mut sk = sock_for_cubic(10, 14);
    // 10 acknowledged packets: 4 feed slow start up to the threshold,
    // the remaining 6 feed the cubic policy.
    c.cong_avoid(&mut sk, 0, 10, 77);
    assert!(sk.snd_cwnd >= 14);
    assert!(c.cnt >= 2);
    assert_eq!(c.epoch_start, Some(77));
}

#[test]
fn cubic_tcp_friendliness_catches_up_with_reno() {
    let mut c = CubicState::default();
    // Standard TCP would be at 12 while cubic sits at 10: the Reno
    // estimate gains one window per drained account and the divisor
    // drops to cwnd/(tcp_cwnd - cwnd) = 10/2 = 5.
    c.tcp_cwnd = 12;
    c.ack_cnt = 3;
    let r = c.tcp_friendliness(1000, 10);
    assert_eq!(r, 5);
    // The account drains toward the estimate: 40 acknowledged packets at
    // delta = 10*15/8 = 18 credit two more Reno windows.
    let mut c2 = CubicState::default();
    c2.tcp_cwnd = 1;
    c2.ack_cnt = 40;
    let r2 = c2.tcp_friendliness(7, 10);
    assert_eq!(c2.tcp_cwnd, 3);
    assert_eq!(c2.ack_cnt, 4);
    assert_eq!(r2, 7);
}
