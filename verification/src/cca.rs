use vstd::prelude::*;

verus! {

use crate::sock::{Sock, State, Event, AckSample};
use crate::bic::{BicState, spec_bic_ssthresh, spec_bic_cong_avoid, spec_bic_pkts_acked};
use crate::cubic::{CubicState, spec_cubic_ssthresh, spec_cubic_cong_avoid,
    spec_cubic_pkts_acked, spec_cubic_cwnd_event};
use crate::hystart::{HyStartState, spec_hystart_reset};

/// One congestion-control algorithm instance: the per-connection state of
/// either the binary-increase or the cubic-curve policy, behind the one
/// set of callbacks the transport stack drives. Every callback for one
/// connection runs on the same value, strictly sequentially.
#[derive(Clone, Copy, Debug)]
pub enum Cca {
    /// Binary Increase Congestion control.
    Bic(BicState),
    /// The CUBIC congestion-control algorithm.
    Cubic(CubicState),
}

impl Cca {
    /// The invariant of the wrapped state.
    pub open spec fn wf(self) -> bool {
        match self {
            Cca::Bic(b) => b.wf(),
            Cca::Cubic(c) => c.wf(),
        }
    }

    /// A fresh connection under the binary-increase policy.
    pub fn new_bic() -> (r: Cca)
        ensures
            r == Cca::Bic(BicState::initial()),
            r.wf(),
    {
        Cca::Bic(BicState::default())
    }

    /// A fresh connection under the cubic-curve policy.
    pub fn new_cubic() -> (r: Cca)
        ensures
            r == Cca::Cubic(CubicState::initial()),
            r.wf(),
    {
        Cca::Cubic(CubicState::default())
    }

    /// Called once when a connection adopts the algorithm: CUBIC opens the
    /// first round of its slow-start heuristic; BIC starts as it is.
    pub fn init(&mut self, sk: &Sock)
        ensures
            *old(self) matches Cca::Bic(b) ==> *final(self) == Cca::Bic(b),
            *old(self) matches Cca::Cubic(c) ==> *final(self) == Cca::Cubic(
                CubicState { hystart_state: spec_hystart_reset(c.hystart_state, *sk), ..c },
            ),
            old(self).wf() ==> final(self).wf(),
    {
        match self {
            Cca::Bic(_) => {},
            Cca::Cubic(c) => c.init(sk),
        }
    }

    /// Called when entering CWR, Recovery or Loss from Open or Disorder:
    /// returns the new slow-start threshold, never less than 2.
    pub fn ssthresh(&mut self, sk: &Sock) -> (r: u32)
        ensures
            *old(self) matches Cca::Bic(b) ==> (Cca::Bic(
                spec_bic_ssthresh(b, sk.snd_cwnd).0,
            ), spec_bic_ssthresh(b, sk.snd_cwnd).1) == (*final(self), r as int),
            *old(self) matches Cca::Cubic(c) ==> (Cca::Cubic(
                spec_cubic_ssthresh(c, sk.snd_cwnd).0,
            ), spec_cubic_ssthresh(c, sk.snd_cwnd).1) == (*final(self), r as int),
            r >= 2,
            old(self).wf() ==> final(self).wf(),
    {
        match self {
            Cca::Bic(b) => b.ssthresh(sk.snd_cwnd),
            Cca::Cubic(c) => c.ssthresh(sk.snd_cwnd),
        }
    }

    /// Called on every ACK that may grow the window.
    pub fn cong_avoid(&mut self, sk: &mut Sock, ack: u32, acked: u32, now_ms: u32)
        requires
            old(self).wf(),
            old(sk).snd_cwnd >= 1,
            old(sk).snd_cwnd_clamp >= 1,
        ensures
            *old(self) matches Cca::Bic(b) ==> {
                let (b2, sk2) = spec_bic_cong_avoid(b, *old(sk), acked, now_ms);
                (*final(self), *final(sk)) == (Cca::Bic(b2), sk2)
            },
            *old(self) matches Cca::Cubic(c) ==> {
                let (c2, sk2) = spec_cubic_cong_avoid(c, *old(sk), acked, now_ms);
                (*final(self), *final(sk)) == (Cca::Cubic(c2), sk2)
            },
            final(self).wf(),
    {
        match self {
            Cca::Bic(b) => b.cong_avoid(sk, ack, acked, now_ms),
            Cca::Cubic(c) => c.cong_avoid(sk, ack, acked, now_ms),
        }
    }

    /// Called when packets leave the retransmission queue, with one
    /// acknowledgment sample.
    pub fn pkts_acked(&mut self, sk: &mut Sock, sample: &AckSample, now_ms: u32)
        requires
            old(self).wf(),
        ensures
            *old(self) matches Cca::Bic(b) ==> (*final(self), *final(sk)) == (Cca::Bic(
                spec_bic_pkts_acked(b, sample.spec_pkts(), old(sk).ca_state),
            ), *old(sk)),
            *old(self) matches Cca::Cubic(c) ==> {
                let (c2, sk2) = spec_cubic_pkts_acked(c, *old(sk), sample.spec_rtt(), now_ms);
                (*final(self), *final(sk)) == (Cca::Cubic(c2), sk2)
            },
            final(self).wf(),
    {
        match self {
            Cca::Bic(b) => b.pkts_acked(sample, sk.ca_state),
            Cca::Cubic(c) => c.pkts_acked(sk, sample, now_ms),
        }
    }

    /// Called before the sender's congestion state changes: only entering
    /// Loss resets the algorithm.
    pub fn set_state(&mut self, sk: &Sock, new_state: State)
        ensures
            *old(self) matches Cca::Bic(b) ==> *final(self) == Cca::Bic(
                if new_state is Loss {
                    BicState::initial()
                } else {
                    b
                },
            ),
            *old(self) matches Cca::Cubic(c) ==> *final(self) == Cca::Cubic(
                if new_state is Loss {
                    CubicState {
                        hystart_state: spec_hystart_reset(HyStartState::initial(), *sk),
                        ..CubicState::initial()
                    }
                } else {
                    c
                },
            ),
            old(self).wf() ==> final(self).wf(),
    {
        match self {
            Cca::Bic(b) => b.set_state(new_state),
            Cca::Cubic(c) => c.set_state(sk, new_state),
        }
    }

    /// Called when one of the connection-level events occurs: only CUBIC
    /// reacts, and only to the start of a transmission after idleness.
    pub fn cwnd_event(&mut self, sk: &Sock, ev: Event, now_jiffies: u32, now_ms: u32)
        ensures
            *old(self) matches Cca::Bic(b) ==> *final(self) == Cca::Bic(b),
            *old(self) matches Cca::Cubic(c) ==> *final(self) == Cca::Cubic(
                spec_cubic_cwnd_event(c, *sk, ev, now_jiffies, now_ms),
            ),
            old(self).wf() ==> final(self).wf(),
    {
        match self {
            Cca::Bic(_) => {},
            Cca::Cubic(c) => c.cwnd_event(sk, ev, now_jiffies, now_ms),
        }
    }

    /// Called to reverse a cwnd reduction that turned out to be
    /// unnecessary: both policies delegate to the standard rule.
    pub fn undo_cwnd(&self, sk: &Sock) -> (r: u32)
        ensures
            r == if sk.snd_cwnd >= sk.prior_cwnd {
                sk.snd_cwnd
            } else {
                sk.prior_cwnd
            },
    {
        match self {
            Cca::Bic(b) => b.undo_cwnd(sk),
            Cca::Cubic(c) => c.undo_cwnd(sk),
        }
    }
}

} // verus!
