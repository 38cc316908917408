use tcp_cong::cca::Cca;
use tcp_cong::sock::{after, AckSample, Event, Sock, State, Pacing};

fn sock_plain(cwnd: u32, ssthresh: u32) -> Sock {
    Sock {
        snd_cwnd: cwnd,
        snd_ssthresh: ssthresh,
        snd_cwnd_cnt: 0,
        snd_cwnd_clamp: u32::MAX,
        prior_cwnd: 0,
        snd_una: 0,
        snd_nxt: 0,
        tcp_mstamp: 0,
        lsndtime: 0,
        is_cwnd_limited: true,
        pacing_rate: 0,
        pacing_status: Pacing::Off,
        gso_max_size: 0,
        ca_state: State::Open,
    }
}

#[test]
fn after_is_wraparound_aware() {
    assert!(after(2, 1));
    assert!(!after(1, 2));
    assert!(!after(5, 5));
    // Right after the sequence space wraps, small numbers come after
    // large ones.
    assert!(after(0, u32::MAX));
    assert!(!after(u32::MAX, 0));
}

#[test]
fn slow_start_stops_at_threshold() {
    let mut sk = sock_plain(10, 14);
    let left = sk.slow_start(10);
    assert_eq!(sk.snd_cwnd, 14);
    assert_eq!(left, 6);
    // Below the threshold everything is consumed.
    let mut sk = sock_plain(10, 100);
    let left = sk.slow_start(10);
    assert_eq!(sk.snd_cwnd, 20);
    assert_eq!(left, 0);
    // The clamp caps the window.
    let mut sk = sock_plain(10, 100);
    sk.snd_cwnd_clamp = 15;
    sk.slow_start(10);
    assert_eq!(sk.snd_cwnd, 15);
}

#[test]
fn cong_avoid_ai_grows_once_per_w_acks() {
    let mut sk = sock_plain(10, 5);
    sk.cong_avoid_ai(3, 7);
    // 7 acknowledged at one growth step per 3: two steps, one left over.
    assert_eq!(sk.snd_cwnd, 12);
    assert_eq!(sk.snd_cwnd_cnt, 1);
    // A full accumulator grows the window before counting.
    let mut sk = sock_plain(10, 5);
    sk.snd_cwnd_cnt = 3;
    sk.cong_avoid_ai(3, 0);
    assert_eq!(sk.snd_cwnd, 11);
    assert_eq!(sk.snd_cwnd_cnt, 0);
}

#[test]
fn ack_sample_encodes_missing_rtt_as_negative() {
    let s = AckSample::new(3, -1);
    assert_eq!(s.pkts_acked(), 3);
    assert_eq!(s.rtt_us(), None);
    let s = AckSample::new(3, 250);
    assert_eq!(s.rtt_us(), Some(250));
    let s = AckSample::new(3, 0);
    assert_eq!(s.rtt_us(), Some(0));
}

#[test]
fn cca_dispatches_to_both_policies() {
    // The same driver calls work for either algorithm.
    let mut sk = sock_plain(100, 14);
    let mut cca = Cca::new_bic();
    cca.init(&sk);
    cca.cwnd_event(&sk, Event::TxStart, 9, 60);  // ignored by this policy
    let th = cca.ssthresh(&sk);
    assert_eq!(th, 79);
    cca.pkts_acked(&mut sk, &AckSample::new(2, 700), 5);
    assert_eq!(cca.undo_cwnd(&sk), 100);
    cca.cong_avoid(&mut sk, 0, 3, 50);
    // Just after the loss the divisor is large, so 3 ACKs only feed the
    // accumulator.
    assert_eq!(sk.snd_cwnd, 100);
    assert_eq!(sk.snd_cwnd_cnt, 3);
    cca.set_state(&sk, State::Loss);

    let mut sk = sock_plain(100, 14);
    let mut cca = Cca::new_cubic();
    cca.init(&sk);
    let th = cca.ssthresh(&sk);
    assert_eq!(th, 70);
    cca.pkts_acked(&mut sk, &AckSample::new(2, 700), 5);
    cca.cong_avoid(&mut sk, 0, 3, 50);
    assert_eq!(sk.snd_cwnd, 100);
    cca.cwnd_event(&sk, Event::TxStart, 9, 60);
    assert_eq!(cca.undo_cwnd(&sk), 100);
    cca.set_state(&sk, State::Loss);
}
