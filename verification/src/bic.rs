use vstd::prelude::*;

verus! {

use crate::sock::{Sock, State, AckSample, sat32, wrap_sub32, spec_slow_start, spec_cong_avoid_ai};

broadcast use vstd::arithmetic::div_mod::lemma_div_nonincreasing;


/// Shift of the fixed-point packets-per-ACK estimate.
pub const ACK_RATIO_SHIFT: u32 = 4;

/// If cwnd is larger than this threshold, BIC engages; otherwise normal TCP
/// increase/decrease is performed.
pub const LOW_WINDOW: u32 = 14;

/// In binary search, go to point: `cwnd + (W_max - cwnd) / BICTCP_B`.
pub const BICTCP_B: u32 = 4;

/// The maximum increment, i.e., `S_max`, used during additive increase.
pub const MAX_INCREMENT: u32 = 16;

/// The number of RTTs it takes to get from `W_max - BICTCP_B` to `W_max`
/// (and from `W_max` to `W_max + BICTCP_B`), giving a slow additive
/// increase across `W_max`.
pub const SMOOTH_PART: u32 = 20;

/// Whether to use fast convergence: release bandwidth early so that flows
/// converge faster when a new flow joins the link.
pub const FAST_CONVERGENCE: bool = true;

/// Factor for multiplicative decrease, scaled by `BETA_SCALE`.
pub const BETA: u32 = 819;

/// Scale used to express `beta` in `[0, 1]` with integer arithmetic.
pub const BETA_SCALE: u32 = 1024;

/// The minimum time in milliseconds that has to pass between two updates
/// of the cwnd.
pub const MIN_UPDATE_INTERVAL: u32 = 1000 / 32;

/// Internal state of one BIC connection.
#[derive(Clone, Copy, PartialEq, Eq, Structural, Debug)]
pub struct BicState {
    /// During congestion avoidance, cwnd is increased at most every `cnt`
    /// acknowledged packets: the average increase per acknowledged packet
    /// is proportional to `1 / cnt`. Never zero, since the window growth
    /// helper divides by it.
    pub cnt: u32,
    /// Last maximum `snd_cwnd`, i.e., `W_max`.
    pub last_max_cwnd: u32,
    /// The last `snd_cwnd`.
    pub last_cwnd: u32,
    /// Time when `last_cwnd` was updated, in milliseconds.
    pub last_time: u32,
    /// Beginning of the current epoch, in milliseconds; 0 means that no
    /// epoch has started.
    pub epoch_start: u32,
    /// Estimate of `packets/ACK << 4`, used to adjust cwnd per packet when
    /// a receiver acknowledges several packets with a single ACK.
    pub delayed_ack: u32,
}

impl BicState {
    /// The state of a freshly initialised connection.
    pub open spec fn initial() -> BicState {
        BicState {
            cnt: 1,
            last_max_cwnd: 0,
            last_cwnd: 0,
            last_time: 0,
            epoch_start: 0,
            delayed_ack: 32,  // 2 << ACK_RATIO_SHIFT
        }
    }

    /// The state invariant: the two divisors the algorithm keeps are never
    /// zero.
    pub open spec fn wf(self) -> bool {
        self.cnt >= 1 && self.delayed_ack >= 1
    }
}

impl Default for BicState {
    /// Fresh per-connection state.
    fn default() -> (r: Self)
        ensures
            r == BicState::initial(),
            r.wf(),
    {
        BicState {
            cnt: 1,
            last_max_cwnd: 0,
            last_cwnd: 0,
            last_time: 0,
            epoch_start: 0,
            delayed_ack: 32,  // 2 << ACK_RATIO_SHIFT
        }
    }
}

/// State and return value of the slow-start threshold computation on a
/// loss event: the epoch ends, `W_max` is recorded (shrunk to about 0.9
/// of the window under fast convergence), and the new threshold is the
/// window scaled by `beta` (a plain halving below the low-window bound),
/// but never less than 2.
pub open spec fn spec_bic_ssthresh(s: BicState, cwnd: u32) -> (BicState, int) {
    let lmc: int = if cwnd < s.last_max_cwnd && FAST_CONVERGENCE {
        (cwnd * (BETA_SCALE + BETA)) / (2 * BETA_SCALE)
    } else {
        cwnd as int
    };
    let s2 = BicState { epoch_start: 0, last_max_cwnd: lmc as u32, ..s };
    let r: int = if cwnd <= LOW_WINDOW {
        if cwnd / 2 >= 2 {
            cwnd as int / 2
        } else {
            2
        }
    } else {
        if (cwnd * BETA) / (BETA_SCALE as int) >= 2 {
            (cwnd * BETA) / (BETA_SCALE as int)
        } else {
            2
        }
    };
    (s2, r)
}

/// The new `cnt` divisor and bookkeeping after one recomputation of the
/// congestion window policy, at window `cwnd` and time `now`. All the
/// branch structure of the binary-increase search is here: binary search
/// toward `W_max` below it, careful additive increase around it,
/// slow-start-like then linear growth above it.
pub open spec fn spec_bic_update(s: BicState, cwnd: u32, now: u32) -> BicState {
    if s.last_cwnd == cwnd && wrap_sub32(now, s.last_time) <= MIN_UPDATE_INTERVAL {
        s
    } else {
        let es: u32 = if s.epoch_start == 0 {
            now
        } else {
            s.epoch_start
        };
        let base = BicState { last_cwnd: cwnd, last_time: now, epoch_start: es, ..s };
        if cwnd <= LOW_WINDOW {
            BicState { cnt: if cwnd == 0 { 1u32 } else { cwnd }, ..base }
        } else {
            let raw: int = if cwnd < s.last_max_cwnd {
                let dist: int = (s.last_max_cwnd - cwnd) / (BICTCP_B as int);
                if dist > MAX_INCREMENT {
                    // additive increase
                    cwnd as int / (MAX_INCREMENT as int)
                } else if dist <= 1 {
                    // careful additive increase
                    (cwnd * SMOOTH_PART) / (BICTCP_B as int)
                } else {
                    // binary search
                    cwnd as int / dist
                }
            } else {
                if cwnd < s.last_max_cwnd + BICTCP_B {
                    // careful additive increase
                    (cwnd * SMOOTH_PART) / (BICTCP_B as int)
                } else if cwnd < s.last_max_cwnd + MAX_INCREMENT * (BICTCP_B - 1) {
                    // slow-start-like growth away from W_max
                    (cwnd * (BICTCP_B - 1)) / (cwnd - s.last_max_cwnd)
                } else {
                    // linear increase
                    cwnd as int / (MAX_INCREMENT as int)
                }
            };
            // before the first loss, grow at a minimum rate
            let capped: int = if s.last_max_cwnd == 0 && raw > 20 {
                20
            } else {
                raw
            };
            // account for the estimated packets per ACK
            let scaled: int = (capped * 16) / (s.delayed_ack as int);
            let cnt: int = if scaled < 1 {
                1
            } else {
                sat32(scaled)
            };
            BicState { cnt: cnt as u32, ..base }
        }
    }
}

/// The delayed-ACK ratio after one sample in the Open state: a sliding
/// window update `ratio += pkts - ratio/16`, held inside the 32-bit range.
pub open spec fn spec_bic_pkts_acked(s: BicState, pkts: u32, ca_state: State) -> BicState {
    if ca_state is Open {
        BicState {
            delayed_ack: sat32(s.delayed_ack - s.delayed_ack / 16 + pkts) as u32,
            ..s
        }
    } else {
        s
    }
}

/// State of the algorithm and the socket after one ACK ran through the
/// congestion-avoidance driver: nothing happens unless the send rate is
/// window-limited; in slow start the window first grows exponentially, and
/// any acknowledged packets beyond the threshold feed the
/// binary-increase policy and the linear-growth helper.
pub open spec fn spec_bic_cong_avoid(
    s: BicState,
    sk: Sock,
    acked: u32,
    now: u32,
) -> (BicState, Sock) {
    if !sk.is_cwnd_limited {
        (s, sk)
    } else {
        let ss = sk.snd_cwnd < sk.snd_ssthresh;
        let (sk1, acked1) = if ss {
            spec_slow_start(sk, acked)
        } else {
            (sk, acked)
        };
        if ss && acked1 == 0 {
            (s, sk1)
        } else {
            let s2 = spec_bic_update(s, sk1.snd_cwnd, now);
            (s2, spec_cong_avoid_ai(sk1, s2.cnt, acked1))
        }
    }
}

impl BicState {
    /// Called on entering loss recovery: ends the epoch, records `W_max`
    /// and returns the new slow-start threshold, which is always at
    /// least 2.
    pub fn ssthresh(&mut self, cwnd: u32) -> (r: u32)
        ensures
            (*final(self), r as int) == spec_bic_ssthresh(*old(self), cwnd),
            r >= 2,
            final(self).wf() == old(self).wf(),
    {
        self.epoch_start = 0;
        self.last_max_cwnd = if cwnd < self.last_max_cwnd && FAST_CONVERGENCE {
            let shrunk: u64 = (cwnd as u64) * 1843 / 2048;  // (BETA_SCALE + BETA) / (2 * BETA_SCALE)
            proof {
                assert((cwnd as int) * 1843 < 0x1_0000_0000 * 2048) by (nonlinear_arith)
                    requires
                        cwnd < 0x1_0000_0000,
                ;
                vstd::arithmetic::div_mod::lemma_div_by_multiple_is_strongly_ordered(
                    (cwnd as int) * 1843,
                    0x1_0000_0000int * 2048,
                    0x1_0000_0000,
                    2048,
                );
                vstd::arithmetic::div_mod::lemma_div_by_multiple(0x1_0000_0000int, 2048);
            }
            shrunk as u32
        } else {
            cwnd
        };
        if cwnd <= LOW_WINDOW {
            // act like normal TCP
            let half: u32 = cwnd >> 1;
            proof {
                vstd::bits::lemma_u32_shr_is_div(cwnd, 1);
                vstd::arithmetic::power2::lemma2_to64();
            }
            if half >= 2 {
                half
            } else {
                2
            }
        } else {
            let scaled: u64 = (cwnd as u64) * 819 / 1024;  // BETA / BETA_SCALE
            proof {
                assert((cwnd as int) * 819 < 0x1_0000_0000 * 1024) by (nonlinear_arith)
                    requires
                        cwnd < 0x1_0000_0000,
                ;
                vstd::arithmetic::div_mod::lemma_div_by_multiple_is_strongly_ordered(
                    (cwnd as int) * 819,
                    0x1_0000_0000int * 1024,
                    0x1_0000_0000,
                    1024,
                );
                vstd::arithmetic::div_mod::lemma_div_by_multiple(0x1_0000_0000int, 1024);
            }
            if scaled >= 2 {
                scaled as u32
            } else {
                2
            }
        }
    }

    /// Computes the congestion window divisor to use: returns the new
    /// `cnt`, which is always at least 1. Recomputation is skipped, with
    /// the state untouched, when the window is unchanged and the last
    /// recomputation is less than about 31 ms old.
    pub fn update(&mut self, cwnd: u32, now: u32) -> (cnt: u32)
        requires
            old(self).wf(),
        ensures
            *final(self) == spec_bic_update(*old(self), cwnd, now),
            cnt == final(self).cnt,
            cnt >= 1,
            final(self).wf(),
            old(self).last_cwnd == cwnd && wrap_sub32(now, old(self).last_time)
                <= MIN_UPDATE_INTERVAL ==> *final(self) == *old(self),
    {
        // do nothing if we are invoked too frequently
        if self.last_cwnd == cwnd && now.wrapping_sub(self.last_time) <= MIN_UPDATE_INTERVAL {
            return self.cnt;
        }
        self.last_cwnd = cwnd;
        self.last_time = now;
        // record the beginning of an epoch
        if self.epoch_start == 0 {
            self.epoch_start = now;
        }
        // start off like normal TCP
        if cwnd <= LOW_WINDOW {
            self.cnt = if cwnd == 0 {
                1
            } else {
                cwnd
            };
            return self.cnt;
        }
        let raw: u64 = if cwnd < self.last_max_cwnd {
            // binary increase
            let dist: u32 = (self.last_max_cwnd - cwnd) / BICTCP_B;
            if dist > MAX_INCREMENT {
                // additive increase
                (cwnd / MAX_INCREMENT) as u64
            } else if dist <= 1 {
                // careful additive increase
                (cwnd as u64) * 20 / 4  // SMOOTH_PART / BICTCP_B
            } else {
                // binary search
                (cwnd / dist) as u64
            }
        } else {
            if (cwnd as u64) < (self.last_max_cwnd as u64) + 4 {
                // careful additive increase
                (cwnd as u64) * 20 / 4  // SMOOTH_PART / BICTCP_B
            } else if (cwnd as u64) < (self.last_max_cwnd as u64) + 48 {
                // slow start, 48 being MAX_INCREMENT * (BICTCP_B - 1)
                (cwnd as u64) * 3 / ((cwnd - self.last_max_cwnd) as u64)
            } else {
                // linear increase
                (cwnd / MAX_INCREMENT) as u64
            }
        };
        // if in initial slow start or link utilization is very low
        let capped: u64 = if self.last_max_cwnd == 0 && raw > 20 {
            20
        } else {
            raw
        };
        // account for estimated packets/ACK to ensure that we increase per
        // packet
        let scaled: u64 = (capped << ACK_RATIO_SHIFT) / (self.delayed_ack as u64);
        proof {
            vstd::arithmetic::power2::lemma2_to64();
            vstd::bits::lemma_u64_shl_is_mul(capped, 4);
        }
        self.cnt = if scaled < 1 {
            1
        } else if scaled > (u32::MAX as u64) {
            u32::MAX
        } else {
            scaled as u32
        };
        self.cnt
    }

    /// Tracks the delayed-acknowledgment ratio with a sliding window,
    /// `ratio = (15*ratio + sample) / 16`, only while the connection is in
    /// the Open state.
    pub fn pkts_acked(&mut self, sample: &AckSample, ca_state: State)
        requires
            old(self).wf(),
        ensures
            *final(self) == spec_bic_pkts_acked(*old(self), sample.spec_pkts(), ca_state),
            final(self).wf(),
    {
        if matches!(ca_state, State::Open) {
            let da: u32 = self.delayed_ack;
            let grown: u64 = ((da - da / 16) as u64) + (sample.pkts_acked() as u64);
            self.delayed_ack = if grown > (u32::MAX as u64) {
                u32::MAX
            } else {
                grown as u32
            };
        }
    }

    /// Reinitialises the state, as on a retransmission timeout.
    pub fn reset(&mut self)
        ensures
            *final(self) == BicState::initial(),
            final(self).wf(),
    {
        *self = BicState::default();
    }

    /// Called on a congestion-state transition: only entering Loss resets
    /// the state.
    pub fn set_state(&mut self, new_state: State)
        ensures
            new_state is Loss ==> *final(self) == BicState::initial(),
            !(new_state is Loss) ==> *final(self) == *old(self),
    {
        if matches!(new_state, State::Loss) {
            self.reset();
        }
    }

    /// Reverses an unnecessary cwnd reduction: the standard policy of
    /// returning the larger of the current and the prior window.
    pub fn undo_cwnd(&self, sk: &Sock) -> (r: u32)
        ensures
            r == if sk.snd_cwnd >= sk.prior_cwnd {
                sk.snd_cwnd
            } else {
                sk.prior_cwnd
            },
    {
        sk.reno_undo_cwnd()
    }

    /// Grows the congestion window for one incoming ACK: slow start until
    /// the threshold, then the binary-increase policy through the standard
    /// linear-growth helper.
    pub fn cong_avoid(&mut self, sk: &mut Sock, _ack: u32, acked: u32, now: u32)
        requires
            old(self).wf(),
        ensures
            (*final(self), *final(sk)) == spec_bic_cong_avoid(
                *old(self),
                *old(sk),
                acked,
                now,
            ),
            final(self).wf(),
    {
        if !sk.is_cwnd_limited {
            return ;
        }
        let mut acked: u32 = acked;
        if sk.in_slow_start() {
            acked = sk.slow_start(acked);
            if acked == 0 {
                return ;
            }
        }
        let cwnd: u32 = sk.snd_cwnd;
        let cnt: u32 = self.update(cwnd, now);
        sk.cong_avoid_ai(cnt, acked);
    }
}

} // verus!
