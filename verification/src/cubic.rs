use vstd::prelude::*;

verus! {

use crate::sock::{Sock, State, Event, AckSample, sat32, wrap_sub32, spec_slow_start,
    spec_cong_avoid_ai, spec_after, after, jiffies_to_msecs};
use crate::hystart::{HyStart, HyStartState, HasHyStartState, spec_hystart_update,
    spec_hystart_reset};
use crate::math::spec_cubic_root;
use crate::math::cubic_root;
use vstd::wrapping::u32_specs;
use vstd::wrapping::u64_specs;

broadcast use vstd::arithmetic::div_mod::lemma_div_nonincreasing;

/// Scale used to express `beta` in `[0, 1]` with integer arithmetic.
pub const BICTCP_BETA_SCALE: u32 = 1024;

/// Whether to use fast convergence: release bandwidth early so that flows
/// converge faster when a new flow joins the link.
pub const FAST_CONVERGENCE: bool = true;

/// The factor for multiplicative decrease of cwnd upon a loss event,
/// divided by `BICTCP_BETA_SCALE`: approximately 0.7.
pub const BETA: u32 = 717;

/// The parameter `C` that scales the cubic term, defined as
/// `BIC_SCALE / 2^10` per second squared.
pub const BIC_SCALE: u32 = 41;

/// In environments where CUBIC grows cwnd less aggressively than normal
/// TCP, behave like normal TCP instead.
pub const TCP_FRIENDLINESS: bool = true;

/// Whether to run the hybrid slow-start heuristic.
pub const HYSTART: bool = true;

/// Factor of `8/3 * (1 + beta) / (1 - beta)` used by the TCP-friendliness
/// estimate: `((8 * (1024 + 717)) / 3) / (1024 - 717)`.
pub const BETA_SCALE: u32 = 15;

/// Factor of `2^10 * C / SRTT` where `SRTT = 100ms`, per second cubed.
pub const CUBE_RTT_SCALE: u32 = 410;  // BIC_SCALE * 10

/// Factor of `SRTT / C` where `SRTT = 100ms`, in cubic milliseconds:
/// `10^9 * 2^10 / CUBE_RTT_SCALE`.
pub const CUBE_FACTOR: u64 = 1_000_000_000 * 1024 / 410;

/// The minimum time in milliseconds that has to pass between two updates
/// of the cwnd.
pub const MIN_UPDATE_INTERVAL: u32 = 1000 / 32;

/// Internal state of one CUBIC connection.
#[allow(non_snake_case)]
#[derive(Clone, Copy, PartialEq, Eq, Debug)]
pub struct CubicState {
    /// Increase cwnd by one step after `cnt` ACKs. Never zero.
    pub cnt: u32,
    /// `W_max`: the window where the last loss happened.
    pub last_max_cwnd: u32,
    /// Value of cwnd when it was updated the last time.
    pub last_cwnd: u32,
    /// Time when `last_cwnd` was updated, in milliseconds.
    pub last_time: u32,
    /// Value of cwnd where the plateau of the cubic function is located.
    pub origin_point: u32,
    /// Time it takes to reach `origin_point`, measured in milliseconds
    /// from the beginning of an epoch.
    pub K: u32,
    /// Time when the current epoch started; `None` when not in congestion
    /// avoidance.
    pub epoch_start: Option<u32>,
    /// Number of packets that have been ACKed in the current epoch.
    pub ack_cnt: u32,
    /// Estimate for the cwnd of standard Reno-style TCP.
    pub tcp_cwnd: u32,
    /// State of the hybrid slow-start heuristic.
    pub hystart_state: HyStartState,
    /// Configuration of the hybrid slow-start heuristic.
    pub hystart: HyStart,
}

impl CubicState {
    /// The state of a freshly initialised connection.
    pub open spec fn initial() -> CubicState {
        CubicState {
            cnt: 1,
            last_max_cwnd: 0,
            last_cwnd: 0,
            last_time: 0,
            origin_point: 0,
            K: 0,
            epoch_start: None,
            ack_cnt: 0,
            tcp_cwnd: 0,
            hystart_state: HyStartState::initial(),
            hystart: HyStart::initial(),
        }
    }

    /// The state invariant: the divisor the algorithm hands out is never
    /// zero.
    pub open spec fn wf(self) -> bool {
        self.cnt >= 1
    }
}

impl Default for CubicState {
    /// Fresh per-connection state.
    fn default() -> (r: Self)
        ensures
            r == CubicState::initial(),
            r.wf(),
    {
        CubicState {
            cnt: 1,
            last_max_cwnd: 0,
            last_cwnd: 0,
            last_time: 0,
            origin_point: 0,
            K: 0,
            epoch_start: None,
            ack_cnt: 0,
            tcp_cwnd: 0,
            hystart_state: HyStartState::default(),
            hystart: HyStart::default(),
        }
    }
}

impl HasHyStartState for CubicState {
    open spec fn spec_hy(&self) -> HyStartState {
        self.hystart_state
    }

    fn hy(&self) -> (r: &HyStartState) {
        &self.hystart_state
    }
}

/// The Reno-cwnd catch-up bookkeeping: while the acknowledged-packet
/// account exceeds `delta`, one packet of standard-TCP growth is credited.
/// The credit column never grows past the 32-bit maximum.
pub open spec fn spec_drain(ack_cnt: int, delta: int, tcp_cwnd: int) -> (int, int)
    decreases ack_cnt,
    when delta >= 1 && ack_cnt >= 0
{
    if ack_cnt > delta {
        spec_drain(
            ack_cnt - delta,
            delta,
            if tcp_cwnd < u32::MAX {
                tcp_cwnd + 1
            } else {
                u32::MAX as int
            },
        )
    } else {
        (ack_cnt, tcp_cwnd)
    }
}

/// State and divisor after the TCP-friendliness check: an estimate of the
/// window standard TCP would have reached grows out of the acknowledged
/// packets, and when it is ahead of cwnd the divisor drops so that CUBIC
/// keeps up with it.
pub open spec fn spec_tcp_friendliness(s: CubicState, cnt: u32, cwnd: u32) -> (CubicState, int) {
    if !TCP_FRIENDLINESS {
        (s, cnt as int)
    } else {
        let delta: int = (cwnd * BETA_SCALE) / 8;
        let (ack2, tcw2) = spec_drain(s.ack_cnt as int, delta, s.tcp_cwnd as int);
        let s2 = CubicState { ack_cnt: ack2 as u32, tcp_cwnd: tcw2 as u32, ..s };
        let r: int = if tcw2 > cwnd {
            if cnt as int <= cwnd as int / (tcw2 - cwnd) {
                cnt as int
            } else {
                cwnd as int / (tcw2 - cwnd)
            }
        } else {
            cnt as int
        };
        (s2, r)
    }
}

/// The cubic-curve displacement `(C/rtt) * |t - K|^3`, in wrapping 64-bit
/// arithmetic with the unit change to seconds at the end.
pub open spec fn spec_cube_delta(offs: u32) -> int {
    let c1 = u64_specs::wrapping_mul(CUBE_RTT_SCALE as u64, offs as u64);
    let c2 = u64_specs::wrapping_mul(c1, offs as u64);
    let c3 = u64_specs::wrapping_mul(c2, offs as u64);
    ((c3 / 1024) / 1_000_000_000) as int
}

/// The state after one recomputation of the CUBIC window policy at window
/// `cwnd`, with `acked` newly acknowledged packets, at time `now` in
/// milliseconds. The returned divisor is the state's `cnt` field.
pub open spec fn spec_cubic_update(s: CubicState, cwnd: u32, acked: u32, now: u32) -> CubicState {
    let s1 = CubicState { ack_cnt: sat32(s.ack_cnt + acked) as u32, ..s };
    if s.last_cwnd == cwnd && wrap_sub32(now, s.last_time) <= MIN_UPDATE_INTERVAL {
        s1
    } else if s.epoch_start is Some && now == s.last_time {
        // the cubic function moves at most once every millisecond; apply
        // only the TCP-friendliness correction
        let (s2, c) = spec_tcp_friendliness(s1, s.cnt, cwnd);
        CubicState { cnt: if c >= 2 { c as u32 } else { 2u32 }, ..s2 }
    } else {
        let s2 = CubicState { last_cwnd: cwnd, last_time: now, ..s1 };
        let s3 = if s.epoch_start is None {
            if s.last_max_cwnd <= cwnd {
                CubicState {
                    epoch_start: Some(now),
                    ack_cnt: acked,
                    tcp_cwnd: cwnd,
                    K: 0,
                    origin_point: cwnd,
                    ..s2
                }
            } else {
                CubicState {
                    epoch_start: Some(now),
                    ack_cnt: acked,
                    tcp_cwnd: cwnd,
                    K: spec_cubic_root(
                        (CUBE_FACTOR * (s.last_max_cwnd - cwnd)) as u64,
                    ) as u32,
                    origin_point: s.last_max_cwnd,
                    ..s2
                }
            }
        } else {
            s2
        };
        match s3.hystart_state.delay_min {
            None => s3,
            Some(dm) => {
                let es: u32 = match s3.epoch_start {
                    Some(es) => es,
                    None => 0u32,
                };
                let t: u32 = u32_specs::wrapping_add(wrap_sub32(now, es), dm / 1000);
                let offs: u32 = if t < s3.K {
                    (s3.K - t) as u32
                } else {
                    (t - s3.K) as u32
                };
                let delta: u32 = spec_cube_delta(offs) as u32;
                let target: u32 = if t < s3.K {
                    u32_specs::wrapping_sub(s3.origin_point, delta)
                } else {
                    u32_specs::wrapping_add(s3.origin_point, delta)
                };
                let raw: int = if target > cwnd {
                    cwnd as int / (target - cwnd)
                } else {
                    // effectively keeps cwnd constant for the next RTT
                    100 * cwnd
                };
                // in the initial epoch or after a timeout, grow at a
                // minimum rate
                let capped: int = if s.last_max_cwnd == 0 && raw > 20 {
                    20
                } else {
                    raw
                };
                let (s4, c) = spec_tcp_friendliness(s3, sat32(capped) as u32, cwnd);
                CubicState { cnt: if c >= 2 { c as u32 } else { 2u32 }, ..s4 }
            },
        }
    }
}

/// State and return value of the slow-start threshold computation on a
/// loss event: the epoch ends, `W_max` is recorded (shrunk to about 0.9 of
/// the window under fast convergence), and the new threshold is about 0.7
/// of the window, never less than 2.
pub open spec fn spec_cubic_ssthresh(s: CubicState, cwnd: u32) -> (CubicState, int) {
    let lmc: int = if cwnd < s.last_max_cwnd && FAST_CONVERGENCE {
        (cwnd * (BICTCP_BETA_SCALE + BETA)) / (2 * BICTCP_BETA_SCALE)
    } else {
        cwnd as int
    };
    let s2 = CubicState { epoch_start: None, last_max_cwnd: lmc as u32, ..s };
    let r: int = if (cwnd * BETA) / (BICTCP_BETA_SCALE as int) >= 2 {
        (cwnd * BETA) / (BICTCP_BETA_SCALE as int)
    } else {
        2
    };
    (s2, r)
}

impl CubicState {
    /// Checks if the current CUBIC increase is less aggressive than normal
    /// TCP, i.e., if we are in the TCP-friendly region. If so, returns a
    /// `cnt` that increases at the speed of normal TCP.
    pub fn tcp_friendliness(&mut self, cnt: u32, cwnd: u32) -> (r: u32)
        requires
            cwnd >= 1,
        ensures
            (*final(self), r as int) == spec_tcp_friendliness(*old(self), cnt, cwnd),
            r <= cnt,
    {
        // estimate the cwnd of normal TCP: cwnd/3 * (1 + BETA)/(1 - BETA)
        let delta64: u64 = (cwnd as u64) * 15 / 8;  // BETA_SCALE, then >> 3
        let ghost delta: int = delta64 as int;
        let ghost s0 = *self;
        // W_tcp(t) = W_tcp(t_0) + (acks(t) - acks(t_0)) / delta
        while (self.ack_cnt as u64) > delta64
            invariant
                delta == delta64,
                delta >= 1,
                spec_drain(s0.ack_cnt as int, delta, s0.tcp_cwnd as int) == spec_drain(
                    self.ack_cnt as int,
                    delta,
                    self.tcp_cwnd as int,
                ),
                *self == (CubicState { ack_cnt: self.ack_cnt, tcp_cwnd: self.tcp_cwnd, ..s0 }),
            decreases self.ack_cnt,
        {
            self.ack_cnt = self.ack_cnt - (delta64 as u32);
            if self.tcp_cwnd < u32::MAX {
                self.tcp_cwnd = self.tcp_cwnd + 1;
            }
        }
        // we are slower than normal TCP
        if self.tcp_cwnd > cwnd {
            let catchup: u32 = cwnd / (self.tcp_cwnd - cwnd);
            if cnt <= catchup {
                cnt
            } else {
                catchup
            }
        } else {
            cnt
        }
    }

    /// Returns the new value of `cnt` that keeps the window growing along
    /// the cubic curve. Outside the rate-limited fast path the result is
    /// at least 2; the heuristic slow-start state is never touched.
    pub fn update(&mut self, cwnd: u32, acked: u32, now: u32) -> (cnt: u32)
        requires
            old(self).wf(),
            cwnd >= 1,
        ensures
            *final(self) == spec_cubic_update(*old(self), cwnd, acked, now),
            cnt == final(self).cnt,
            final(self).wf(),
            final(self).hystart_state == old(self).hystart_state,
            old(self).hystart_state.found ==> final(self).hystart_state.found,
            old(self).last_cwnd == cwnd && wrap_sub32(now, old(self).last_time)
                <= MIN_UPDATE_INTERVAL ==> cnt == old(self).cnt && *final(self) == (CubicState {
                ack_cnt: final(self).ack_cnt,
                ..*old(self)
            }),
    {
        self.ack_cnt = if acked <= u32::MAX - self.ack_cnt {
            self.ack_cnt + acked
        } else {
            u32::MAX
        };
        if self.last_cwnd == cwnd && now.wrapping_sub(self.last_time) <= MIN_UPDATE_INTERVAL {
            return self.cnt;
        }
        // the CUBIC function moves at most once every millisecond
        if self.epoch_start.is_some() && now == self.last_time {
            let c: u32 = self.tcp_friendliness(self.cnt, cwnd);
            self.cnt = if c >= 2 {
                c
            } else {
                2
            };
            return self.cnt;
        }
        self.last_cwnd = cwnd;
        self.last_time = now;
        if self.epoch_start.is_none() {
            self.epoch_start = Some(now);
            self.ack_cnt = acked;
            self.tcp_cwnd = cwnd;
            if self.last_max_cwnd <= cwnd {
                self.K = 0;
                self.origin_point = cwnd;
            } else {
                // K = (SRTT/C * (W_max - cwnd))^1/3
                let dist: u64 = (self.last_max_cwnd - cwnd) as u64;
                proof {
                    assert(2_497_560_975 * (dist as int) <= u64::MAX) by (nonlinear_arith)
                        requires
                            dist <= 0xFFFF_FFFFu64,
                    ;
                }
                let root: u32 = cubic_root(CUBE_FACTOR * dist);
                self.K = root;
                self.origin_point = self.last_max_cwnd;
            }
        }
        let es: u32 = match self.epoch_start {
            Some(es) => es,
            None => 0,
        };
        let dm: u32 = match self.hystart_state.delay_min {
            Some(dm) => dm,
            None => {
                return self.cnt;
            },
        };
        // elapsed time since the epoch started, shifted by the propagation
        // delay; the addition wraps like the 32-bit counters it works on
        let t: u32 = now.wrapping_sub(es).wrapping_add(dm / 1000);
        let offs: u32 = if t < self.K {
            self.K - t
        } else {
            t - self.K
        };
        // calculate c/rtt * (t - K)^3 and change the units to seconds
        let c1: u64 = (CUBE_RTT_SCALE as u64).wrapping_mul(offs as u64);
        let c2: u64 = c1.wrapping_mul(offs as u64);
        let c3: u64 = c2.wrapping_mul(offs as u64);
        proof {
            vstd::bits::lemma_u64_shr_is_div(c3, 10);
            vstd::arithmetic::power2::lemma2_to64();
        }
        let delta: u32 = ((c3 >> 10) / 1_000_000_000) as u32;
        // the full cubic function c/rtt * (t - K)^3 + W_max
        let target: u32 = if t < self.K {
            self.origin_point.wrapping_sub(delta)
        } else {
            self.origin_point.wrapping_add(delta)
        };
        let raw: u64 = if target > cwnd {
            (cwnd / (target - cwnd)) as u64
        } else {
            // effectively keeps cwnd constant for the next RTT
            100 * (cwnd as u64)
        };
        // in the initial epoch or after a timeout, grow at a minimum rate
        let capped: u64 = if self.last_max_cwnd == 0 && raw > 20 {
            20
        } else {
            raw
        };
        let bounded: u32 = if capped > (u32::MAX as u64) {
            u32::MAX
        } else {
            capped as u32
        };
        let c: u32 = self.tcp_friendliness(bounded, cwnd);
        self.cnt = if c >= 2 {
            c
        } else {
            2
        };
        self.cnt
    }

    /// Called on entering loss recovery: ends the epoch, records `W_max`
    /// and returns the new slow-start threshold, which is always at
    /// least 2.
    pub fn ssthresh(&mut self, cwnd: u32) -> (r: u32)
        ensures
            (*final(self), r as int) == spec_cubic_ssthresh(*old(self), cwnd),
            r >= 2,
            final(self).wf() == old(self).wf(),
    {
        // the epoch has ended
        self.epoch_start = None;
        self.last_max_cwnd = if cwnd < self.last_max_cwnd && FAST_CONVERGENCE {
            let shrunk: u64 = (cwnd as u64) * 1741 / 2048;  // (SCALE + BETA) / (2 * SCALE)
            proof {
                assert((cwnd as int) * 1741 < 0x1_0000_0000int * 2048) by (nonlinear_arith)
                    requires
                        cwnd < 0x1_0000_0000,
                ;
                vstd::arithmetic::div_mod::lemma_div_by_multiple_is_strongly_ordered(
                    (cwnd as int) * 1741,
                    0x1_0000_0000int * 2048,
                    0x1_0000_0000int,
                    2048,
                );
                vstd::arithmetic::div_mod::lemma_div_by_multiple(0x1_0000_0000int, 2048);
            }
            shrunk as u32
        } else {
            cwnd
        };
        let scaled: u64 = (cwnd as u64) * 717 / 1024;  // BETA / BICTCP_BETA_SCALE
        proof {
            assert((cwnd as int) * 717 < 0x1_0000_0000int * 1024) by (nonlinear_arith)
                requires
                    cwnd < 0x1_0000_0000,
            ;
            vstd::arithmetic::div_mod::lemma_div_by_multiple_is_strongly_ordered(
                (cwnd as int) * 717,
                0x1_0000_0000int * 1024,
                0x1_0000_0000int,
                1024,
            );
            vstd::arithmetic::div_mod::lemma_div_by_multiple(0x1_0000_0000int, 1024);
        }
        if scaled >= 2 {
            scaled as u32
        } else {
            2
        }
    }

    /// Reinitialises the state, as on a retransmission timeout.
    pub fn reset(&mut self)
        ensures
            *final(self) == CubicState::initial(),
            final(self).wf(),
    {
        *self = CubicState::default();
    }

    /// Starts the connection: opens the first slow-start round of the
    /// hybrid heuristic.
    pub fn init(&mut self, sk: &Sock)
        ensures
            *final(self) == (CubicState {
                hystart_state: spec_hystart_reset(old(self).hystart_state, *sk),
                ..*old(self)
            }),
    {
        let cfg = self.hystart;
        cfg.reset(&mut self.hystart_state, sk);
    }

    /// Called on a congestion-state transition: only entering Loss resets
    /// the state, after which a new heuristic round starts at once.
    pub fn set_state(&mut self, sk: &Sock, new_state: State)
        ensures
            new_state is Loss ==> *final(self) == (CubicState {
                hystart_state: spec_hystart_reset(HyStartState::initial(), *sk),
                ..CubicState::initial()
            }),
            !(new_state is Loss) ==> *final(self) == *old(self),
            old(self).wf() ==> final(self).wf(),
    {
        if matches!(new_state, State::Loss) {
            self.reset();
            self.init(sk);
        }
    }

    /// Reverses an unnecessary cwnd reduction: the standard policy of
    /// returning the larger of the current and the prior window.
    pub fn undo_cwnd(&self, sk: &Sock) -> (r: u32)
        ensures
            r == if sk.snd_cwnd >= sk.prior_cwnd {
                sk.snd_cwnd
            } else {
                sk.prior_cwnd
            },
    {
        sk.reno_undo_cwnd()
    }

    /// A connection was idle and starts transmitting again: shifts the
    /// epoch start forward by the idle time, clamped to the present, so
    /// that the idle period does not count as cubic-curve growth.
    pub fn cwnd_event(&mut self, sk: &Sock, ev: Event, now_jiffies: u32, now_ms: u32)
        ensures
            *final(self) == spec_cubic_cwnd_event(*old(self), *sk, ev, now_jiffies, now_ms),
            final(self).hystart_state == old(self).hystart_state,
    {
        if matches!(ev, Event::TxStart) {
            let delta_j: u32 = now_jiffies.wrapping_sub(sk.lsndtime);
            if delta_j == 0 || delta_j >= 0x8000_0000 {
                return ;
            }
            let delta_ms: u32 = jiffies_to_msecs(delta_j);
            // if we are in congestion avoidance, shift `epoch_start` by
            // the idle time to keep cwnd growth on the cubic curve
            match self.epoch_start {
                None => {},
                Some(es) => {
                    let shifted: u32 = es.wrapping_add(delta_ms);
                    self.epoch_start = if after(shifted, now_ms) {
                        Some(now_ms)
                    } else {
                        Some(shifted)
                    };
                },
            }
        }
    }

    /// Feeds one acknowledgment sample to the delay estimator and, while
    /// the connection is in slow start, to the hybrid slow-start
    /// heuristic. Samples without an RTT, and samples taken within one
    /// second of the epoch start, are ignored.
    pub fn pkts_acked(&mut self, sk: &mut Sock, sample: &AckSample, now_ms: u32)
        ensures
            (*final(self), *final(sk)) == spec_cubic_pkts_acked(
                *old(self),
                *old(sk),
                sample.spec_rtt(),
                now_ms,
            ),
            old(self).hystart_state.found ==> final(self).hystart_state.found,
    {
        // some samples do not include RTTs
        let rtt_us: u32 = match sample.rtt_us() {
            None => {
                return ;
            },
            Some(rtt_us) => rtt_us,
        };
        // for some time after exiting fast recovery the samples might
        // still be inaccurate
        match self.epoch_start {
            Some(es) => {
                if now_ms.wrapping_sub(es) < 1000 {
                    return ;
                }
            },
            None => {},
        }
        let delay: u32 = if rtt_us == 0 {
            1
        } else {
            rtt_us
        };
        let cwnd: u32 = sk.snd_cwnd;
        let in_slow_start: bool = sk.in_slow_start();
        // first call after a reset, or the delay decreased
        let keep: bool = match self.hystart_state.delay_min {
            None => false,
            Some(dm) => dm <= delay,
        };
        if !keep {
            self.hystart_state.delay_min = Some(delay);
        }
        if in_slow_start && HYSTART && self.hystart_state.in_hystart(&self.hystart, cwnd) {
            let cfg = self.hystart;
            cfg.update(&mut self.hystart_state, sk, delay);
        }
    }

    /// Grows the congestion window for one incoming ACK: slow start until
    /// the threshold, then the cubic-curve policy through the standard
    /// linear-growth helper.
    pub fn cong_avoid(&mut self, sk: &mut Sock, _ack: u32, acked: u32, now: u32)
        requires
            old(self).wf(),
            old(sk).snd_cwnd >= 1,
            old(sk).snd_cwnd_clamp >= 1,
        ensures
            (*final(self), *final(sk)) == spec_cubic_cong_avoid(
                *old(self),
                *old(sk),
                acked,
                now,
            ),
            final(self).wf(),
    {
        if !sk.is_cwnd_limited {
            return ;
        }
        let mut acked: u32 = acked;
        if sk.in_slow_start() {
            acked = sk.slow_start(acked);
            if acked == 0 {
                return ;
            }
        }
        let cwnd: u32 = sk.snd_cwnd;
        let cnt: u32 = self.update(cwnd, acked, now);
        sk.cong_avoid_ai(cnt, acked);
    }
}

/// Whenever the cubic policy actually recomputes its divisor - the call
/// is not rate-limited away, and a delay floor is known where one is
/// needed - the divisor it stores and returns is at least 2.
pub proof fn lemma_cubic_cnt_floor(s: CubicState, cwnd: u32, acked: u32, now: u32)
    requires
        s.wf(),
        !(s.last_cwnd == cwnd && wrap_sub32(now, s.last_time) <= MIN_UPDATE_INTERVAL),
        (s.epoch_start is Some && now == s.last_time) || s.hystart_state.delay_min is Some,
    ensures
        spec_cubic_update(s, cwnd, acked, now).cnt >= 2,
{
}

/// The epoch start after an idle period ended by a transmission: pushed
/// forward by the idle time, but never past the present.
pub open spec fn spec_cubic_cwnd_event(
    s: CubicState,
    sk: Sock,
    ev: Event,
    now_jiffies: u32,
    now_ms: u32,
) -> CubicState {
    if ev is TxStart {
        let delta_j: u32 = wrap_sub32(now_jiffies, sk.lsndtime);
        if delta_j == 0 || delta_j >= 0x8000_0000 {
            s
        } else {
            match s.epoch_start {
                None => s,
                Some(es) => {
                    let shifted: u32 = u32_specs::wrapping_add(es, (delta_j * (1000u32 / crate::sock::HZ)) as u32);
                    let es2: u32 = if spec_after(shifted, now_ms) {
                        now_ms
                    } else {
                        shifted
                    };
                    CubicState { epoch_start: Some(es2), ..s }
                },
            }
        }
    } else {
        s
    }
}

/// The state after one acknowledgment sample: the delay floor falls to the
/// sample if it is lower, and in slow start the sample feeds the hybrid
/// slow-start heuristic. Samples without an RTT, and samples within one
/// second of the epoch start, change nothing.
pub open spec fn spec_cubic_pkts_acked(
    s: CubicState,
    sk: Sock,
    rtt: i32,
    now_ms: u32,
) -> (CubicState, Sock) {
    if rtt < 0 {
        (s, sk)
    } else if match s.epoch_start {
        Some(es) => wrap_sub32(now_ms, es) < 1000,
        None => false,
    } {
        (s, sk)
    } else {
        let delay: u32 = if rtt == 0 {
            1u32
        } else {
            rtt as u32
        };
        let keep: bool = match s.hystart_state.delay_min {
            None => false,
            Some(dm) => dm <= delay,
        };
        let s1 = if keep {
            s
        } else {
            CubicState {
                hystart_state: HyStartState { delay_min: Some(delay), ..s.hystart_state },
                ..s
            }
        };
        if sk.snd_cwnd < sk.snd_ssthresh && HYSTART && !s1.hystart_state.found && sk.snd_cwnd
            >= s.hystart.low_window {
            let (h2, sk2) = spec_hystart_update(s.hystart, s1.hystart_state, sk, delay);
            (CubicState { hystart_state: h2, ..s1 }, sk2)
        } else {
            (s1, sk)
        }
    }
}

/// State of the algorithm and the socket after one ACK ran through the
/// congestion-avoidance driver: nothing happens unless the send rate is
/// window-limited; in slow start the window first grows exponentially, and
/// any acknowledged packets beyond the threshold feed the cubic-curve
/// policy and the linear-growth helper.
pub open spec fn spec_cubic_cong_avoid(
    s: CubicState,
    sk: Sock,
    acked: u32,
    now: u32,
) -> (CubicState, Sock) {
    if !sk.is_cwnd_limited {
        (s, sk)
    } else {
        let ss = sk.snd_cwnd < sk.snd_ssthresh;
        let (sk1, acked1) = if ss {
            spec_slow_start(sk, acked)
        } else {
            (sk, acked)
        };
        if ss && acked1 == 0 {
            (s, sk1)
        } else {
            let s2 = spec_cubic_update(s, sk1.snd_cwnd, acked1, now);
            (s2, spec_cong_avoid_ai(sk1, s2.cnt, acked1))
        }
    }
}

} // verus!
