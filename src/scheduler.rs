use vstd::prelude::*;
use crate::envelope::EnvState;

verus! {

/// One of the two heart sounds.
#[derive(Debug, Clone, Copy, PartialEq, Eq, Structural)]
pub enum Side {
    /// First heart sound.
    Lub,
    /// Second heart sound.
    Dub,
}

/// What the synthesizer is to do on this sample.
#[derive(Debug, Clone, Copy, PartialEq, Eq, Structural)]
pub enum Beat {
    /// Fire the lub envelope.
    Lub,
    /// Fire the dub envelope.
    Dub,
    /// Draw a new jitter offset for the trigger windows.
    Rearm,
    /// Nothing to do.
    Quiet,
}

/// A trigger that was skipped because the previous trigger was on the same side.
#[derive(Debug, Clone, Copy, PartialEq, Eq, Structural)]
pub struct Anomaly {
    /// Side of the skipped trigger.
    pub side: Side,
    /// Sample index at which it was skipped.
    pub sample: u64,
}

/// No two consecutive entries are on the same side.
pub open spec fn alternates(h: Seq<Side>) -> bool {
    forall|i: int| 0 <= i && i + 1 < h.len() ==> #[trigger] h[i] != h[i + 1]
}

/// The most recent trigger, if any.
pub open spec fn last_of(h: Seq<Side>) -> Option<Side> {
    if h.len() == 0 {
        None
    } else {
        Some(h.last())
    }
}

/// The decision for one sample: `Ok` with the action, or `Err` with the side
/// of a trigger that the alternation guard skipped. A lub window takes
/// precedence over a dub window; the jitter is re-armed only on a sample with
/// no window, right after the dub envelope went from Decaying to Idle.
pub open spec fn decide(
    last: Option<Side>,
    prev_dub: EnvState,
    in_lub: bool,
    in_dub: bool,
    dub_state: EnvState,
) -> Result<Beat, Side> {
    if in_lub {
        if last == Some(Side::Lub) {
            Err(Side::Lub)
        } else {
            Ok(Beat::Lub)
        }
    } else if in_dub {
        if last == Some(Side::Dub) {
            Err(Side::Dub)
        } else {
            Ok(Beat::Dub)
        }
    } else if dub_state == EnvState::Idle && prev_dub == EnvState::Decaying {
        Ok(Beat::Rearm)
    } else {
        Ok(Beat::Quiet)
    }
}

/// The side fired by a decision, if any.
pub open spec fn fired(d: Result<Beat, Side>) -> Option<Side> {
    match d {
        Ok(Beat::Lub) => Some(Side::Lub),
        Ok(Beat::Dub) => Some(Side::Dub),
        _ => None,
    }
}

/// Trigger history after a decision.
pub open spec fn record(h: Seq<Side>, d: Result<Beat, Side>) -> Seq<Side> {
    match fired(d) {
        Some(s) => h.push(s),
        None => h,
    }
}

/// Phase of the dub envelope once this sample's trigger is applied.
pub open spec fn dub_after(d: Result<Beat, Side>, dub_state: EnvState) -> EnvState {
    if d == Ok::<Beat, Side>(Beat::Dub) {
        EnvState::Attacking
    } else {
        dub_state
    }
}

/// Tracks the sample index, the side of the last trigger and the dub
/// envelope's phase on the previous sample, and decides each sample's trigger.
pub struct HeartbeatScheduler {
    sample_counter: u64,
    last: Option<Side>,
    prev_dub_state: EnvState,
    history: Ghost<Seq<Side>>,
}

impl HeartbeatScheduler {
    /// Index of the next sample.
    pub closed spec fn counter(&self) -> nat {
        self.sample_counter as nat
    }

    /// Side of the last trigger, if any.
    pub closed spec fn last_side(&self) -> Option<Side> {
        self.last
    }

    /// Phase of the dub envelope recorded on the previous sample.
    pub closed spec fn prev_dub(&self) -> EnvState {
        self.prev_dub_state
    }

    /// Every trigger of the session, oldest first.
    pub closed spec fn history(&self) -> Seq<Side> {
        self.history@
    }

    /// The history alternates and its last entry is the recorded last side.
    pub closed spec fn wf(&self) -> bool {
        alternates(self.history@) && self.last == last_of(self.history@)
    }

    /// A scheduler at sample zero with no trigger yet.
    pub fn new() -> (r: HeartbeatScheduler)
        ensures
            r.wf(),
            alternates(r.history()),
            r.counter() == 0,
            r.last_side() == None::<Side>,
            r.prev_dub() == EnvState::Idle,
            r.history() == Seq::<Side>::empty(),
    {
        HeartbeatScheduler {
            sample_counter: 0,
            last: None,
            prev_dub_state: EnvState::Idle,
            history: Ghost(Seq::empty()),
        }
    }

    /// Index of the next sample.
    pub fn sample_index(&self) -> (r: u64)
        ensures
            r as nat == self.counter(),
    {
        self.sample_counter
    }

    /// Side of the last trigger, if any.
    pub fn last_trigger(&self) -> (r: Option<Side>)
        ensures
            r == self.last_side(),
    {
        self.last
    }

    /// Decides the current sample, given whether its beat position lies in the
    /// lub window and in the dub window, and the dub envelope's phase before
    /// this sample's trigger; then moves on to the next sample.
    pub fn tick(&mut self, in_lub: bool, in_dub: bool, dub_state: EnvState) -> (r: Result<
        Beat,
        Anomaly,
    >)
        requires
            old(self).wf(),
            old(self).counter() < u64::MAX,
        ensures
            final(self).wf(),
            alternates(final(self).history()),
            final(self).last_side() == last_of(final(self).history()),
            ({
                let d = decide(old(self).last_side(), old(self).prev_dub(), in_lub, in_dub, dub_state);
                &&& match r {
                    Ok(b) => d == Ok::<Beat, Side>(b),
                    Err(a) => d == Err::<Beat, Side>(a.side) && a.sample as nat == old(self).counter(),
                }
                &&& final(self).counter() == old(self).counter() + 1
                &&& final(self).history() == record(old(self).history(), d)
                &&& final(self).last_side() == match fired(d) {
                    Some(s) => Some(s),
                    None => old(self).last_side(),
                }
                &&& final(self).prev_dub() == dub_after(d, dub_state)
            }),
    {
        let sample = self.sample_counter;
        let r: Result<Beat, Anomaly> = if in_lub {
            if self.last == Some(Side::Lub) {
                Err(Anomaly { side: Side::Lub, sample })
            } else {
                Ok(Beat::Lub)
            }
        } else if in_dub {
            if self.last == Some(Side::Dub) {
                Err(Anomaly { side: Side::Dub, sample })
            } else {
                Ok(Beat::Dub)
            }
        } else if dub_state == EnvState::Idle && self.prev_dub_state == EnvState::Decaying {
            Ok(Beat::Rearm)
        } else {
            Ok(Beat::Quiet)
        };
        match r {
            Ok(Beat::Lub) => {
                self.last = Some(Side::Lub);
                self.history = Ghost(self.history@.push(Side::Lub));
                self.prev_dub_state = dub_state;
            },
            Ok(Beat::Dub) => {
                self.last = Some(Side::Dub);
                self.history = Ghost(self.history@.push(Side::Dub));
                self.prev_dub_state = EnvState::Attacking;
            },
            _ => {
                self.prev_dub_state = dub_state;
            },
        }
        self.sample_counter = sample + 1;
        r
    }
}

} // verus!
