use vstd::prelude::*;

verus! {

/// Result of handing a received buffer to the generic receive offload
/// layer.
#[derive(Clone, Copy, PartialEq, Eq, Structural, Debug)]
pub enum GroResult {
    /// Merged but not freed.
    Merged,
    /// Merged and freed.
    MergedFree,
    /// Held.
    Held,
    /// Normal.
    Normal,
    /// Consumed.
    Consumed,
}

/// State bits of a polling context.
#[derive(Clone, Copy, PartialEq, Eq, Structural, Debug)]
pub enum NapiState {
    /// Poll is scheduled.
    Sched,
    /// Rescheduling.
    Missed,
    /// Disable is pending.
    Disable,
    /// Netpoll: do not dequeue from the poll list.
    Npsvc,
    /// Added to the system list.
    Listed,
    /// Do not add to the hash, no busy polling.
    NoBusyPoll,
    /// A busy loop owns this context.
    InBusyPoll,
    /// Prefer busy polling over softirq processing.
    PreferBusyPoll,
    /// The poll runs inside its own thread.
    Threaded,
    /// Currently scheduled in threaded mode.
    SchedThreaded,
}

impl NapiState {
    /// The position of this state's bit in the state word.
    pub fn bit(self) -> (r: u32)
        ensures
            r == (match self {
                NapiState::Sched => 0u32,
                NapiState::Missed => 1u32,
                NapiState::Disable => 2u32,
                NapiState::Npsvc => 3u32,
                NapiState::Listed => 4u32,
                NapiState::NoBusyPoll => 5u32,
                NapiState::InBusyPoll => 6u32,
                NapiState::PreferBusyPoll => 7u32,
                NapiState::Threaded => 8u32,
                NapiState::SchedThreaded => 9u32,
            }),
{
        match self {
            NapiState::Sched => 0,
            NapiState::Missed => 1,
            NapiState::Disable => 2,
            NapiState::Npsvc => 3,
            NapiState::Listed => 4,
            NapiState::NoBusyPoll => 5,
            NapiState::InBusyPoll => 6,
            NapiState::PreferBusyPoll => 7,
            NapiState::Threaded => 8,
            NapiState::SchedThreaded => 9,
        }
    }
}

} // verus!
