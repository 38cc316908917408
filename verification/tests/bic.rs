use tcp_cong::bic::BicState;
use tcp_cong::sock::{AckSample, Sock, State, Pacing};

fn sock_for_bic(cwnd: u32, ssthresh: u32) -> Sock {
    Sock {
        snd_cwnd: cwnd,
        snd_ssthresh: ssthresh,
        snd_cwnd_cnt: 0,
        snd_cwnd_clamp: u32::MAX,
        prior_cwnd: 0,
        snd_una: 0,
        snd_nxt: 0,
        tcp_mstamp: 0,
        lsndtime: 0,
        is_cwnd_limited: true,
        pacing_rate: 0,
        pacing_status: Pacing::Off,
        gso_max_size: 0,
        ca_state: State::Open,
    }
}

#[test]
fn bic_low_window_update_is_linear() {
    // At or below the low-window bound the divisor is the window itself.
    let mut s = BicState::default();
    let cnt = s.update(10, 100);
    assert_eq!(cnt, 10);
    assert_eq!(s.cnt, 10);
    assert_eq!(s.epoch_start, 100);
    // A window of zero still yields a divisor of at least one.
    let mut s = BicState::default();
    let cnt = s.update(0, 100);
    assert_eq!(cnt, 1);
}

#[test]
fn bic_fresh_update_caps_growth() {
    // Before any loss the divisor is capped and scaled by the
    // delayed-ACK estimate: 100/16 = 6, then 6*16/32 = 3.
    let mut s = BicState::default();
    let cnt = s.update(100, 1000);
    assert_eq!(cnt, 3);
}

#[test]
fn bic_rate_limiting_keeps_state() {
    let mut s = BicState::default();
    s.update(100, 1000);
    let snap = s;
    let c1 = s.cnt;
    // Same window, 30 ms later: nothing may change.
    let c2 = s.update(100, 1030);
    assert_eq!(c1, c2);
    assert_eq!(s, snap);
    // 32 ms later the state is recomputed and the clock advances.
    s.update(100, 1032);
    assert_eq!(s.last_time, 1032);
}

#[test]
fn bic_rate_limit_survives_clock_wrap() {
    // The 31 ms spacing is judged with wrapping subtraction, so a clock
    // that rolls over between two calls still counts as close.
    let mut s = BicState::default();
    s.update(100, u32::MAX - 5);
    let snap = s;
    let cnt = s.update(100, 10);  // 16 ms later, across the wrap
    assert_eq!(cnt, snap.cnt);
    assert_eq!(s, snap);
    s.update(100, 40);  // 46 ms later: recomputed
    assert_eq!(s.last_time, 40);
}

#[test]
fn bic_ssthresh_records_w_max() {
    let mut s = BicState::default();
    // First loss at a window of 100: W_max is the window itself and the
    // returned threshold is 100*819/1024 = 79.
    let th = s.ssthresh(100);
    assert_eq!(s.last_max_cwnd, 100);
    assert_eq!(th, 79);
    assert_eq!(s.epoch_start, 0);
    // A loss at a smaller window engages fast convergence:
    // 50*(1024+819)/2048 = 44.
    let th = s.ssthresh(50);
    assert_eq!(s.last_max_cwnd, 44);
    assert_eq!(th, 39);
    // Below the low window the threshold is a plain halving.
    let th = s.ssthresh(10);
    assert_eq!(th, 5);
    // ... but never below 2.
    let th = s.ssthresh(2);
    assert_eq!(th, 2);
}

#[test]
fn bic_ssthresh_then_update_never_divides_by_zero() {
    // Threshold and update back to back, over awkward windows and W_max
    // values: every division in the policy is guarded.
    let values: [u32; 9] = [0, 1, 2, 14, 15, 16, 17, 1000, u32::MAX];
    for &cwnd in values.iter() {
        for &lmc in values.iter() {
            let mut s = BicState::default();
            s.last_max_cwnd = lmc;
            let th = s.ssthresh(cwnd);
            assert!(th >= 2);
            let cnt = s.update(cwnd, 77);
            assert!(cnt >= 1);
        }
    }
}

#[test]
fn bic_update_divisor_is_positive() {
    for cwnd in [1u32, 13, 14, 15, 16, 63, 64, 1024, 1 << 20] {
        for lmc in [0u32, 1, 20, 1 << 16] {
            let mut s = BicState::default();
            s.last_max_cwnd = lmc;
            assert!(s.update(cwnd, 5) >= 1);
        }
    }
}

#[test]
fn bic_binary_search_branches() {
    // Window below W_max: the divisor comes from the binary search
    // toward W_max. dist = (1000-100)/4 = 225 > 16, additive increase:
    // 100/16 = 6, scaled 6*16/32 = 3.
    let mut s = BicState::default();
    s.last_max_cwnd = 1000;
    assert_eq!(s.update(100, 9), 3);
    // dist = (104-100)/4 = 1, careful increase: 100*20/4 = 500,
    // scaled 500*16/32 = 250.
    let mut s = BicState::default();
    s.last_max_cwnd = 104;
    assert_eq!(s.update(100, 9), 250);
    // dist = (140-100)/4 = 10, binary search: 100/10 = 10, scaled 5.
    let mut s = BicState::default();
    s.last_max_cwnd = 140;
    assert_eq!(s.update(100, 9), 5);
}

#[test]
fn bic_pkts_acked_tracks_ratio_only_when_open() {
    let mut s = BicState::default();
    s.pkts_acked(&AckSample::new(4, 100), State::Open);
    // 32 - 32/16 + 4 = 34
    assert_eq!(s.delayed_ack, 34);
    let before = s.delayed_ack;
    s.pkts_acked(&AckSample::new(4, 100), State::Recovery);
    assert_eq!(s.delayed_ack, before);
}

#[test]
fn bic_reset_restores_default() {
    let mut s = BicState::default();
    s.ssthresh(1000);
    s.update(900, 123);
    s.pkts_acked(&AckSample::new(3, 1), State::Open);
    s.reset();
    assert_eq!(s, BicState::default());
}

#[test]
fn bic_set_state_resets_only_on_loss() {
    let mut s = BicState::default();
    s.update(100, 55);
    let snap = s;
    s.set_state(State::Recovery);
    assert_eq!(s, snap);
    s.set_state(State::Loss);
    assert_eq!(s, BicState::default());
}

#[test]
fn bic_cong_avoid_grows_window() {
    let mut s = BicState::default();
    let mut sk = sock_for_bic(10, 1000);
    // In slow start each acknowledged packet grows the window.
    s.cong_avoid(&mut sk, 0, 4, 7);
    assert_eq!(sk.snd_cwnd, 14);
    // Not window-limited: nothing happens.
    let mut sk2 = sock_for_bic(10, 1000);
    sk2.is_cwnd_limited = false;
    let mut s2 = BicState::default();
    s2.cong_avoid(&mut sk2, 0, 4, 7);
    assert_eq!(sk2.snd_cwnd, 10);
}

#[test]
fn bic_undo_cwnd_takes_larger_window() {
    let s = BicState::default();
    let mut sk = sock_for_bic(10, 1000);
    sk.prior_cwnd = 25;
    assert_eq!(s.undo_cwnd(&sk), 25);
    sk.snd_cwnd = 30;
    assert_eq!(s.undo_cwnd(&sk), 30);
}
