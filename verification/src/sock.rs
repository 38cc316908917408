use vstd::prelude::*;

verus! {

/// States of the TCP sender's congestion state machine.
#[derive(Clone, Copy, PartialEq, Eq, Structural, Debug)]
pub enum State {
    /// Nothing bad has been observed recently. No apparent reordering, packet
    /// loss, or ECN marks.
    Open,
    /// DUPACKs or SACKs were received in the last round of packets sent;
    /// possibly loss or reordering.
    Disorder,
    /// Congestion window reduction is in progress after ECN-ECE marks or
    /// local congestion.
    Cwr,
    /// Fast recovery: lost packets are being retransmitted.
    Recovery,
    /// Loss recovery after a retransmission timeout.
    Loss,
}

/// Events passed to the congestion-control interface.
#[derive(Clone, Copy, PartialEq, Eq, Structural, Debug)]
pub enum Event {
    /// First transmit when no packets are in flight.
    TxStart,
    /// Congestion window restart.
    CwndRestart,
    /// End of congestion recovery.
    CompleteCwr,
    /// Loss timeout.
    Loss,
    /// ECT set, but not CE marked.
    EcnNoCe,
    /// Received a CE-marked IP packet.
    EcnIsCe,
}

/// The socket's pacing status.
#[derive(Clone, Copy, PartialEq, Eq, Structural, Debug)]
pub enum Pacing {
    /// No pacing is applied.
    Off,
    /// Pacing is requested but performed by the stack itself.
    Needed,
    /// Pacing is delegated to the FQ packet scheduler.
    Fq,
}

/// One acknowledgment sample handed to `pkts_acked`: how many packets left
/// the retransmission queue and, when available, the round-trip time they
/// measured. A negative `rtt` encodes an absent measurement.
#[derive(Clone, Copy, PartialEq, Eq, Structural, Debug)]
pub struct AckSample {
    pkts: u32,
    rtt: i32,
}

impl AckSample {
    /// Builds a sample from a packet count and a signed round-trip reading
    /// in microseconds, negative when the ACK carried no usable timing.
    pub fn new(pkts: u32, rtt: i32) -> (r: AckSample)
        ensures
            r.spec_pkts() == pkts,
            r.spec_rtt() == rtt,
    {
        AckSample { pkts, rtt }
    }

    /// Returns the number of packets that were ACKed.
    pub fn pkts_acked(&self) -> (r: u32)
        ensures
            r == self.spec_pkts(),
    {
        self.pkts
    }

    /// Returns the RTT measurement of this sample, if it carries one.
    pub fn rtt_us(&self) -> (r: Option<u32>)
        ensures
            self.spec_rtt() < 0 ==> r is None,
            self.spec_rtt() >= 0 ==> r == Some(self.spec_rtt() as u32),
    {
        if self.rtt < 0 {
            None
        } else {
            Some(self.rtt as u32)
        }
    }

    /// The sample's packet count, for contracts.
    pub closed spec fn spec_pkts(self) -> u32 {
        self.pkts
    }

    /// The sample's RTT reading, for contracts.
    pub closed spec fn spec_rtt(self) -> i32 {
        self.rtt
    }
}

/// Tests if sequence number `sqn_1` comes after `sqn_2`, under the modular
/// comparison TCP uses for 32-bit sequence numbers.
pub open spec fn spec_after(sqn_1: u32, sqn_2: u32) -> bool {
    (sqn_2 - sqn_1) % 0x1_0000_0000 >= 0x8000_0000
}

/// Tests if `sqn_1` comes after `sqn_2`.
pub fn after(sqn_1: u32, sqn_2: u32) -> (r: bool)
    ensures
        r == spec_after(sqn_1, sqn_2),
{
    sqn_2.wrapping_sub(sqn_1) >= 0x8000_0000
}

/// The connection-level values the congestion-control callbacks read and
/// write. The transport stack owns one of these per connection and hands it
/// to every callback; callbacks for one connection never run concurrently.
#[derive(Clone, Copy, PartialEq, Eq, Structural, Debug)]
pub struct Sock {
    /// Congestion window, in segments.
    pub snd_cwnd: u32,
    /// Slow-start threshold, in segments.
    pub snd_ssthresh: u32,
    /// Linear-increase accumulator: packets acknowledged since the window
    /// last grew.
    pub snd_cwnd_cnt: u32,
    /// Upper bound the stack imposes on the congestion window.
    pub snd_cwnd_clamp: u32,
    /// Congestion window before the last reduction.
    pub prior_cwnd: u32,
    /// First unacknowledged sequence number.
    pub snd_una: u32,
    /// Next sequence number to send.
    pub snd_nxt: u32,
    /// Timestamp of the most recent ACK, in microseconds.
    pub tcp_mstamp: u64,
    /// Timestamp of the last data transmission, in jiffies.
    pub lsndtime: u32,
    /// Whether the sending rate is limited by the congestion window.
    pub is_cwnd_limited: bool,
    /// Pacing rate in bytes per second; 0 when unknown.
    pub pacing_rate: u64,
    /// Pacing status of the socket.
    pub pacing_status: Pacing,
    /// Maximum GSO segment size the socket builds.
    pub gso_max_size: u32,
    /// The sender's congestion state.
    pub ca_state: State,
}

/// State of `sk` after the standard slow-start growth on `acked` segments:
/// the window grows by the acknowledged packets, stopping at the slow-start
/// threshold and at the clamp; the unconsumed packets are handed back.
pub open spec fn spec_slow_start(sk: Sock, acked: u32) -> (Sock, u32) {
    let grown: int = if sk.snd_cwnd + acked <= sk.snd_ssthresh {
        sk.snd_cwnd + acked
    } else {
        sk.snd_ssthresh as int
    };
    let left: int = acked - (grown - sk.snd_cwnd);
    let clamped: int = if grown <= sk.snd_cwnd_clamp {
        grown
    } else {
        sk.snd_cwnd_clamp as int
    };
    (Sock { snd_cwnd: clamped as u32, ..sk }, left as u32)
}

/// State of `sk` after the standard congestion-avoidance growth: the window
/// grows by one segment for every `w` packets acknowledged, counted through
/// `snd_cwnd_cnt`, and never beyond the clamp. Additions that no 32-bit
/// counter could hold stop at the counter's maximum.
pub open spec fn spec_cong_avoid_ai(sk: Sock, w: u32, acked: u32) -> Sock {
    let (cwnd0, cnt0) = if sk.snd_cwnd_cnt >= w {
        (sat32(sk.snd_cwnd + 1), 0int)
    } else {
        (sk.snd_cwnd as int, sk.snd_cwnd_cnt as int)
    };
    let cnt1: int = sat32(cnt0 + acked);
    let (cwnd2, cnt2) = if cnt1 >= w {
        (sat32(cwnd0 + cnt1 / (w as int)), cnt1 % (w as int))
    } else {
        (cwnd0, cnt1)
    };
    let cwnd3: int = if cwnd2 <= sk.snd_cwnd_clamp {
        cwnd2
    } else {
        sk.snd_cwnd_clamp as int
    };
    Sock { snd_cwnd: cwnd3 as u32, snd_cwnd_cnt: cnt2 as u32, ..sk }
}

/// The model's timer tick rate: one jiffy is one millisecond.
pub const HZ: u32 = 1000;

/// Converts a duration in jiffies to milliseconds. At the model's tick
/// rate of 1000 ticks per second the two units coincide.
pub fn jiffies_to_msecs(j: u32) -> (r: u32)
    ensures
        r == j * (1000u32 / HZ),
{
    j * (1000 / HZ)
}

/// Subtraction of 32-bit counters that wraps around, as the kernel's
/// timestamp and sequence arithmetic does.
pub open spec fn wrap_sub32(x: u32, y: u32) -> u32 {
    if x - y < 0 {
        (x - y + 0x1_0000_0000) as u32
    } else {
        (x - y) as u32
    }
}

/// Clips a mathematical value to the largest 32-bit value.
pub open spec fn sat32(x: int) -> int {
    if x > u32::MAX {
        u32::MAX as int
    } else {
        x
    }
}

impl Sock {
    /// Returns true iff the connection is in slow start, that is
    /// `snd_cwnd < snd_ssthresh`.
    pub fn in_slow_start(&self) -> (r: bool)
        ensures
            r == (self.snd_cwnd < self.snd_ssthresh),
    {
        self.snd_cwnd < self.snd_ssthresh
    }

    /// Performs the standard slow-start increment of cwnd.
    ///
    /// If this causes the socket to exit slow start, any leftover ACKs are
    /// returned.
    pub fn slow_start(&mut self, acked: u32) -> (left: u32)
        requires
            old(self).snd_cwnd < old(self).snd_ssthresh,
        ensures
            (*final(self), left) == spec_slow_start(*old(self), acked),
            left <= acked,
    {
        let grown: u32 = if acked <= u32::MAX - self.snd_cwnd
            && self.snd_cwnd + acked <= self.snd_ssthresh {
            self.snd_cwnd + acked
        } else {
            self.snd_ssthresh
        };
        let left: u32 = acked - (grown - self.snd_cwnd);
        self.snd_cwnd = if grown <= self.snd_cwnd_clamp {
            grown
        } else {
            self.snd_cwnd_clamp
        };
        left
    }

    /// Performs the standard increase of cwnd during congestion avoidance:
    /// one extra segment for every `w` acknowledged packets.
    pub fn cong_avoid_ai(&mut self, w: u32, acked: u32)
        requires
            w >= 1,
        ensures
            *final(self) == spec_cong_avoid_ai(*old(self), w, acked),
    {
        if self.snd_cwnd_cnt >= w {
            self.snd_cwnd_cnt = 0;
            if self.snd_cwnd < u32::MAX {
                self.snd_cwnd = self.snd_cwnd + 1;
            }
        }
        if acked <= u32::MAX - self.snd_cwnd_cnt {
            self.snd_cwnd_cnt = self.snd_cwnd_cnt + acked;
        } else {
            self.snd_cwnd_cnt = u32::MAX;
        }
        if self.snd_cwnd_cnt >= w {
            let delta: u32 = self.snd_cwnd_cnt / w;
            self.snd_cwnd_cnt = self.snd_cwnd_cnt % w;
            if delta <= u32::MAX - self.snd_cwnd {
                self.snd_cwnd = self.snd_cwnd + delta;
            } else {
                self.snd_cwnd = u32::MAX;
            }
        }
        if self.snd_cwnd > self.snd_cwnd_clamp {
            self.snd_cwnd = self.snd_cwnd_clamp;
        }
    }

    /// The standard undo of a cwnd reduction that turned out to be
    /// unnecessary: back to the larger of the current window and the window
    /// before the reduction.
    pub fn reno_undo_cwnd(&self) -> (r: u32)
        ensures
            r == if self.snd_cwnd >= self.prior_cwnd {
                self.snd_cwnd
            } else {
                self.prior_cwnd
            },
    {
        if self.snd_cwnd >= self.prior_cwnd {
            self.snd_cwnd
        } else {
            self.prior_cwnd
        }
    }
}

} // verus!
