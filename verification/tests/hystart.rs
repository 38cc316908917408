use tcp_cong::hystart::{HyStart, HyStartState, HystartDetect};
use tcp_cong::sock::{Sock, State, Pacing};

fn sock_for_hystart(now_us: u64, cwnd: u32) -> Sock {
    Sock {
        snd_cwnd: cwnd,
        snd_ssthresh: 1_000_000,
        snd_cwnd_cnt: 0,
        snd_cwnd_clamp: u32::MAX,
        prior_cwnd: 0,
        snd_una: 0,
        snd_nxt: 5000,
        tcp_mstamp: now_us,
        lsndtime: 0,
        is_cwnd_limited: true,
        pacing_rate: 0,
        pacing_status: Pacing::Off,
        gso_max_size: 0,
        ca_state: State::Open,
    }
}

fn round_state(round_start: u32, last_ack: u32) -> HyStartState {
    HyStartState {
        sample_cnt: 0,
        found: false,
        round_start,
        end_seq: 100_000,
        last_ack,
        curr_rtt: u32::MAX,
        delay_min: Some(1000),
    }
}

#[test]
fn hystart_defaults_match_cubic() {
    let cfg = HyStart::default();
    assert!(matches!(cfg.detect, HystartDetect::Both));
    assert_eq!(cfg.low_window, 16);
    assert_eq!(cfg.ack_delta, 2000);
    assert_eq!(cfg.min_samples, 8);
    assert_eq!(cfg.delay_min_thresh, 4000);
    assert_eq!(cfg.delay_max_thresh, 16000);
}

#[test]
fn hystart_in_hystart_needs_window_and_no_find() {
    let cfg = HyStart::default();
    let mut hy = HyStartState::default();
    assert!(!hy.in_hystart(&cfg, 15));
    assert!(hy.in_hystart(&cfg, 16));
    hy.found = true;
    assert!(!hy.in_hystart(&cfg, 16));
}

#[test]
fn hystart_delay_thresh_clamps() {
    let cfg = HyStart::default();
    assert_eq!(cfg.delay_thresh(1000), 4000);
    assert_eq!(cfg.delay_thresh(64_000), 8000);
    assert_eq!(cfg.delay_thresh(1_000_000), 16000);
}

#[test]
fn hystart_ack_delay_follows_pacing() {
    let mut sk = sock_for_hystart(0, 10);
    assert_eq!(HyStart::ack_delay(&sk), 0);
    sk.pacing_rate = 1_000_000;
    sk.gso_max_size = 65536;
    // 65536 * 4 * 1e6 / 1e6 = 262144 us, clipped at one millisecond.
    assert_eq!(HyStart::ack_delay(&sk), 1000);
    sk.pacing_rate = 1_000_000_000;
    // 65536 * 4 * 1e6 / 1e9 = 262 us.
    assert_eq!(HyStart::ack_delay(&sk), 262);
}

#[test]
fn hystart_reset_starts_round() {
    let cfg = HyStart::default();
    let sk = sock_for_hystart(123_456, 20);
    let mut hy = HyStartState::default();
    hy.found = true;
    hy.delay_min = Some(42);
    cfg.reset(&mut hy, &sk);
    assert_eq!(hy.round_start, 123_456);
    assert_eq!(hy.last_ack, 123_456);
    assert_eq!(hy.end_seq, 5000);
    assert_eq!(hy.curr_rtt, u32::MAX);
    assert_eq!(hy.sample_cnt, 0);
    // The exit flag and the delay floor survive a round change.
    assert!(hy.found);
    assert_eq!(hy.delay_min, Some(42));
}

#[test]
fn hystart_ack_train_boundary_is_inclusive() {
    let cfg = HyStart::default();
    // The previous ACK came exactly ACK_DELTA microseconds ago: the
    // train continues, its span of 3000 us beats the threshold of
    // 1000/2 us, and slow start ends at the current window.
    let now: u32 = 50_000;
    let mut hy = round_state(now - 3000, now - 2000);
    let mut sk = sock_for_hystart(now as u64, 64);
    cfg.update(&mut hy, &mut sk, 30_000);
    assert!(hy.found);
    assert_eq!(sk.snd_ssthresh, 64);
    assert_eq!(hy.last_ack, now);
    // One microsecond beyond the spacing the ACK is not part of a train.
    let mut hy = round_state(now - 3000, now - 2001);
    let mut sk = sock_for_hystart(now as u64, 64);
    cfg.update(&mut hy, &mut sk, 30_000);
    assert!(!hy.found);
    assert_eq!(sk.snd_ssthresh, 1_000_000);
    assert_eq!(hy.last_ack, now - 2001);
}

#[test]
fn hystart_delay_detector_waits_for_samples() {
    let cfg = HyStart::default();
    let now: u32 = 50_000;
    // Eight samples are collected first; the delay reading is far above
    // the floor but nothing fires yet.
    let mut hy = round_state(now - 100, now - 3000);
    let mut sk = sock_for_hystart(now as u64, 64);
    for i in 0..8u8 {
        assert_eq!(hy.sample_cnt, i);
        cfg.update(&mut hy, &mut sk, 30_000);
        assert!(!hy.found);
    }
    // The ninth look compares the round's minimum RTT of 30000 us with
    // 1000 + 4000 us and ends slow start.
    cfg.update(&mut hy, &mut sk, 30_000);
    assert!(hy.found);
    assert_eq!(sk.snd_ssthresh, 64);
}

#[test]
fn hystart_update_starts_new_round_when_window_acked() {
    let cfg = HyStart::default();
    let now: u32 = 50_000;
    let mut hy = round_state(10, 20);
    hy.end_seq = 4000;
    hy.sample_cnt = 5;
    let mut sk = sock_for_hystart(now as u64, 64);
    sk.snd_una = 4500;  // past the round's end
    cfg.update(&mut hy, &mut sk, 600);
    // The round restarted at the present before the ACK was examined.
    assert_eq!(hy.round_start, now);
    assert_eq!(hy.end_seq, 5000);
    assert_eq!(hy.sample_cnt, 1);
    assert_eq!(hy.curr_rtt, 600);
    assert!(!hy.found);
}

#[test]
fn hystart_update_without_floor_does_nothing() {
    let cfg = HyStart::default();
    let now: u32 = 50_000;
    let mut hy = round_state(now - 3000, now - 1000);
    hy.delay_min = None;
    let mut sk = sock_for_hystart(now as u64, 64);
    let before = hy;
    cfg.update(&mut hy, &mut sk, 30_000);
    assert_eq!(hy, before);
    assert_eq!(sk.snd_ssthresh, 1_000_000);
}
