use vstd::prelude::*;

verus! {

use crate::sock::{Sock, Pacing, spec_after, after};

/// The heuristic that is used to find the exit point for slow start.
#[derive(Clone, Copy, PartialEq, Eq, Structural, Debug)]
pub enum HystartDetect {
    /// Exit slow start when the length of so-called ACK-trains becomes equal
    /// to the estimated minimum forward-path one-way delay.
    AckTrain,
    /// Exit slow start when the estimated RTT increase between two
    /// consecutive rounds exceeds a threshold based on the last RTT.
    Delay,
    /// Combine both heuristics.
    Both,
}

/// Per-connection state of the hybrid slow-start heuristic.
#[derive(Clone, Copy, PartialEq, Eq, Debug)]
pub struct HyStartState {
    /// Number of ACKs already sampled to determine the RTT of this round.
    pub sample_cnt: u8,
    /// Whether the slow-start exit point was found. Once true, the
    /// heuristic stays silent until a full reset of the connection state.
    pub found: bool,
    /// Time when the current round started, in microseconds.
    pub round_start: u32,
    /// Sequence number of the byte that marks the end of the current round.
    pub end_seq: u32,
    /// Time when the last ACK was received in this round, in microseconds.
    pub last_ack: u32,
    /// The minimum RTT of the current round, in microseconds.
    pub curr_rtt: u32,
    /// Estimate of the minimum forward-path one-way delay of the link, in
    /// microseconds; absent until the first usable RTT sample.
    pub delay_min: Option<u32>,
}

impl HyStartState {
    /// The state of a freshly created connection.
    pub open spec fn initial() -> HyStartState {
        HyStartState {
            sample_cnt: 0,
            found: false,
            round_start: 0,
            end_seq: 0,
            last_ack: 0,
            curr_rtt: 0,
            delay_min: None,
        }
    }

    /// Returns true iff hybrid slow start is still watching this
    /// connection: no exit point found yet and the window has reached the
    /// configured lower bound.
    pub fn in_hystart(&self, cfg: &HyStart, cwnd: u32) -> (r: bool)
        ensures
            r == (!self.found && cwnd >= cfg.low_window),
    {
        !self.found && cwnd >= cfg.low_window
    }
}

impl Default for HyStartState {
    /// Fresh per-connection state: nothing sampled, nothing found.
    fn default() -> (r: Self)
        ensures
            r == HyStartState::initial(),
    {
        HyStartState {
            sample_cnt: 0,
            found: false,
            round_start: 0,
            end_seq: 0,
            last_ack: 0,
            curr_rtt: 0,
            delay_min: None,
        }
    }
}

/// Implemented by the private data of an algorithm that embeds hybrid slow
/// start.
pub trait HasHyStartState {
    /// The embedded heuristic state, for contracts.
    spec fn spec_hy(&self) -> HyStartState;

    /// Returns the embedded heuristic state.
    fn hy(&self) -> (r: &HyStartState)
        ensures
            *r == self.spec_hy(),
    ;
}

/// Configuration of the hybrid slow-start heuristic: which detectors run
/// and their thresholds. The default values are the ones the CUBIC
/// algorithm ships with.
#[derive(Clone, Copy, PartialEq, Eq, Structural, Debug)]
pub struct HyStart {
    /// Which heuristic decides when it is time to exit slow start.
    pub detect: HystartDetect,
    /// Lower bound for cwnd during hybrid slow start.
    pub low_window: u32,
    /// Max spacing between ACKs in an ACK-train, in microseconds.
    pub ack_delta: u32,
    /// Number of ACKs to sample at the beginning of each round to estimate
    /// the RTT of this round.
    pub min_samples: u8,
    /// Lower bound on the round-to-round RTT increase that triggers an
    /// exit from slow start, in microseconds.
    pub delay_min_thresh: u32,
    /// Upper bound on the round-to-round RTT increase that triggers an
    /// exit from slow start, in microseconds.
    pub delay_max_thresh: u32,
}

impl HyStart {
    /// The configuration CUBIC uses: both detectors, a window floor of 16,
    /// a 2 ms ACK-train spacing, 8 samples per round and a 4-16 ms delay
    /// band.
    pub open spec fn initial() -> HyStart {
        HyStart {
            detect: HystartDetect::Both,
            low_window: 16,
            ack_delta: 2000,
            min_samples: 8,
            delay_min_thresh: 4000,
            delay_max_thresh: 16000,
        }
    }
}

impl Default for HyStart {
    /// The configuration CUBIC ships with.
    fn default() -> (r: Self)
        ensures
            r == HyStart::initial(),
    {
        HyStart {
            detect: HystartDetect::Both,
            low_window: 16,
            ack_delta: 2000,
            min_samples: 8,
            delay_min_thresh: 4000,
            delay_max_thresh: 16000,
        }
    }
}

/// The round-bookkeeping fields after the start of a new round: the round
/// clock restarts at the time of the most recent ACK and the round runs to
/// the highest sequence number sent so far. The exit flag and the delay
/// floor survive.
pub open spec fn spec_hystart_reset(hy: HyStartState, sk: Sock) -> HyStartState {
    HyStartState {
        round_start: sk.tcp_mstamp as u32,
        last_ack: sk.tcp_mstamp as u32,
        end_seq: sk.snd_nxt,
        curr_rtt: u32::MAX,
        sample_cnt: 0,
        ..hy
    }
}

/// The threshold on RTT increase that ends slow start, given the RTT `t`
/// of the last round: an eighth of it, clamped to the configured band.
pub open spec fn spec_delay_thresh(cfg: HyStart, t: u32) -> int {
    if t / 8 < cfg.delay_min_thresh {
        cfg.delay_min_thresh as int
    } else if t / 8 > cfg.delay_max_thresh {
        cfg.delay_max_thresh as int
    } else {
        (t / 8) as int
    }
}

/// The extra ACK spacing expected from segmentation offload under pacing:
/// the time four maximum-size bursts take at the pacing rate, at most one
/// millisecond, and zero when the pacing rate is unknown.
pub open spec fn spec_ack_delay(sk: Sock) -> int {
    if sk.pacing_rate == 0 {
        0
    } else if (sk.gso_max_size * 4 * 1_000_000) / (sk.pacing_rate as int) < 1000 {
        (sk.gso_max_size * 4 * 1_000_000) / (sk.pacing_rate as int)
    } else {
        1000
    }
}

/// State of the heuristic and the socket after one ACK with one-way delay
/// `delay` was examined in slow start.
pub open spec fn spec_hystart_update(
    cfg: HyStart,
    hy: HyStartState,
    sk: Sock,
    delay: u32,
) -> (HyStartState, Sock) {
    let hy1 = if spec_after(sk.snd_una, hy.end_seq) {
        spec_hystart_reset(hy, sk)
    } else {
        hy
    };
    match hy1.delay_min {
        None => (hy1, sk),
        Some(dm) => {
            let now: int = sk.tcp_mstamp as u32 as int;
            let train = cfg.detect is Both || cfg.detect is AckTrain;
            let in_train = train && (now - hy1.last_ack) % 0x1_0000_0000 <= cfg.ack_delta;
            let threshold: int = if sk.pacing_status is Off {
                (dm + spec_ack_delay(sk)) / 2
            } else {
                dm + spec_ack_delay(sk)
            };
            let fires = in_train && (now - hy1.round_start) % 0x1_0000_0000 > threshold;
            let hy2 = if in_train {
                HyStartState {
                    found: hy1.found || fires,
                    last_ack: now as u32,
                    ..hy1
                }
            } else {
                hy1
            };
            let sk2 = if fires {
                Sock { snd_ssthresh: sk.snd_cwnd, ..sk }
            } else {
                sk
            };
            let probe = cfg.detect is Both || cfg.detect is Delay;
            if probe {
                let curr: u32 = if hy2.curr_rtt <= delay {
                    hy2.curr_rtt
                } else {
                    delay
                };
                if hy2.sample_cnt < cfg.min_samples {
                    (
                        HyStartState {
                            curr_rtt: curr,
                            sample_cnt: (hy2.sample_cnt + 1) as u8,
                            ..hy2
                        },
                        sk2,
                    )
                } else if curr > dm + spec_delay_thresh(cfg, dm) {
                    (
                        HyStartState { curr_rtt: curr, found: true, ..hy2 },
                        Sock { snd_ssthresh: sk2.snd_cwnd, ..sk2 },
                    )
                } else {
                    (HyStartState { curr_rtt: curr, ..hy2 }, sk2)
                }
            } else {
                (hy2, sk2)
            }
        },
    }
}

impl HyStart {
    /// The threshold on RTT increase that ends slow start, given the RTT
    /// `t` of the last round.
    pub fn delay_thresh(&self, t: u32) -> (r: u32)
        ensures
            r == spec_delay_thresh(*self, t),
    {
        let t8: u32 = t >> 3;
        proof {
            vstd::bits::lemma_u32_shr_is_div(t, 3);
            vstd::arithmetic::power2::lemma2_to64();
        }
        if t8 < self.delay_min_thresh {
            self.delay_min_thresh
        } else if t8 > self.delay_max_thresh {
            self.delay_max_thresh
        } else {
            t8
        }
    }

    /// The extra ACK spacing expected from segmentation offload under
    /// pacing.
    pub fn ack_delay(sk: &Sock) -> (r: u32)
        ensures
            r == spec_ack_delay(*sk),
    {
        if sk.pacing_rate == 0 {
            return 0;
        }
        let spacing: u64 = (sk.gso_max_size as u64) * 4 * 1_000_000 / sk.pacing_rate;
        if spacing < 1000 {
            spacing as u32
        } else {
            1000
        }
    }

    /// Starts a new slow-start round: called at the beginning of each new
    /// round of incoming ACKs.
    pub fn reset(&self, hy: &mut HyStartState, sk: &Sock)
        ensures
            *final(hy) == spec_hystart_reset(*old(hy), *sk),
    {
        let now: u32 = #[verifier::truncate] (sk.tcp_mstamp as u32);
        hy.round_start = now;
        hy.last_ack = now;
        hy.end_seq = sk.snd_nxt;
        hy.curr_rtt = u32::MAX;
        hy.sample_cnt = 0;
    }

    /// Examines one ACK during slow start and decides whether it is time
    /// to leave it. When a detector fires, the slow-start threshold drops
    /// to the current window and `found` is set; `found` never goes back
    /// from true to false here.
    pub fn update(&self, hy: &mut HyStartState, sk: &mut Sock, delay: u32)
        ensures
            (*final(hy), *final(sk)) == spec_hystart_update(*self, *old(hy), *old(sk), delay),
            old(hy).found ==> final(hy).found,
    {
        // A new round starts when the whole window outstanding at the
        // previous round start has been acknowledged.
        if after(sk.snd_una, hy.end_seq) {
            self.reset(hy, sk);
        }
        let dm: u32 = match hy.delay_min {
            None => {
                return ;
            },
            Some(dm) => dm,
        };
        let now: u32 = #[verifier::truncate] (sk.tcp_mstamp as u32);
        if matches!(self.detect, HystartDetect::Both | HystartDetect::AckTrain) {
            // Is this ACK part of a train? The comparison is inclusive
            // and deliberately wraps with the 32-bit timestamp.
            if now.wrapping_sub(hy.last_ack) <= self.ack_delta {
                let ad: u32 = Self::ack_delay(sk);
                let sum: u64 = (dm as u64) + (ad as u64);
                proof {
                    vstd::bits::lemma_u64_shr_is_div(sum, 1);
                    vstd::arithmetic::power2::lemma2_to64();
                }
                let threshold: u64 = if matches!(sk.pacing_status, Pacing::Off) {
                    sum >> 1
                } else {
                    sum
                };
                // Does the length of this ACK-train say it is time to exit
                // slow start?
                if (now.wrapping_sub(hy.round_start) as u64) > threshold {
                    sk.snd_ssthresh = sk.snd_cwnd;
                    hy.found = true;
                }
                hy.last_ack = now;
            }
        }
        if matches!(self.detect, HystartDetect::Both | HystartDetect::Delay) {
            if hy.curr_rtt > delay {
                hy.curr_rtt = delay;
            }
            if hy.sample_cnt < self.min_samples {
                hy.sample_cnt = hy.sample_cnt + 1;
            } else {
                // Does the increase in RTT say it is time to exit slow
                // start?
                let thresh: u32 = self.delay_thresh(dm);
                if (hy.curr_rtt as u64) > (dm as u64) + (thresh as u64) {
                    hy.found = true;
                    sk.snd_ssthresh = sk.snd_cwnd;
                }
            }
        }
    }
}

} // verus!
