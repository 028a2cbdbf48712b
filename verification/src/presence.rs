use vstd::prelude::*;

verus! {

/// Follows the sensor's readings and tells when presence changed.
/// It starts out as if no presence had been seen.
#[derive(Debug)]
pub struct PresenceTracker {
    pub last_state: bool,
}

/// Whether a reading differs from the last one seen, and so must be reported.
pub open spec fn is_change(last_state: bool, reading: bool) -> bool {
    reading != last_state
}

impl PresenceTracker {
    /// A tracker that has seen no presence yet.
    pub fn new() -> (tracker: PresenceTracker)
        ensures
            !tracker.last_state,
    {
        PresenceTracker { last_state: false }
    }

    /// Records a reading; the result tells whether presence changed with
    /// it, in which case the change is to be reported.
    pub fn observe(&mut self, reading: bool) -> (changed: bool)
        ensures
            changed == is_change(old(self).last_state, reading),
            final(self).last_state == reading,
    {
        let changed = reading != self.last_state;
        if changed {
            self.last_state = reading;
        }
        changed
    }
}

/// Two `observe` calls with the same reading report it at most once: the
/// first leaves `last_state` equal to the reading (its `ensures`), and from
/// that state the same reading is no change, so the second call returns
/// `false`. A reading that differs from the state is always reported.
pub proof fn lemma_observe_twice_reports_once(last_state: bool, reading: bool)
    ensures
        is_change(last_state, reading) == (reading != last_state),
        !is_change(reading, reading),
{
}

/// Which edges of the input signal raise an interrupt.
#[derive(Debug, Clone, Copy, PartialEq, Eq)]
pub enum EdgeTrigger {
    Disabled,
    RisingEdge,
    FallingEdge,
    Both,
}

/// What an interrupt on edge `edge` says of presence.
pub open spec fn presence_of_edge(edge: EdgeTrigger) -> Option<bool> {
    match edge {
        EdgeTrigger::RisingEdge => Some(true),
        EdgeTrigger::FallingEdge => Some(false),
        _ => None,
    }
}

/// A rising edge means presence, a falling edge its end; any other trigger
/// tells nothing.
pub fn presence_from_edge(edge: EdgeTrigger) -> (presence: Option<bool>)
    ensures
        presence == presence_of_edge(edge),
        edge == EdgeTrigger::RisingEdge ==> presence == Some(true),
        edge == EdgeTrigger::FallingEdge ==> presence == Some(false),
        edge == EdgeTrigger::Disabled || edge == EdgeTrigger::Both ==> presence is None,
{
    match edge {
        EdgeTrigger::RisingEdge => Some(true),
        EdgeTrigger::FallingEdge => Some(false),
        _ => None,
    }
}

} // verus!
