//! The availability poller: a two-state machine that re-queries the catalog
//! for one requested type at a fixed interval until a region with spare
//! capacity appears.

use vstd::prelude::*;
use crate::model::CatalogEntry;
use crate::model::Region;

verus! {

/// The poller's two states: it searches until the first capacity hit, which
/// is terminal.
#[derive(Clone, Copy, PartialEq, Eq, Structural, Debug)]
pub enum PollState {
    Searching,
    Found,
}

/// A capacity hit: the catalog query returned the requested type and its
/// region list is non-empty. A missing type counts as no capacity, so the
/// search goes on.
pub open spec fn tick_hit(entry: Option<&CatalogEntry>) -> bool {
    entry matches Some(e) && e.regions@.len() > 0
}

/// The region a hit selects: always the first of the entry's list, the
/// named first-in-list tie-break.
pub open spec fn tick_region(entry: Option<&CatalogEntry>) -> Region
    recommends
        tick_hit(entry),
{
    entry->0.regions@[0]
}

/// One status record per fruitless tick, handed to the reporter.
#[derive(PartialEq, Eq, Debug)]
pub struct PollStatus {
    /// When the tick ran, already rendered by the caller's clock.
    pub checked_at: String,
    /// Seconds until the next tick.
    pub next_check_in_secs: u64,
}

pub struct AvailabilityPoller {
    pub state: PollState,
}

impl AvailabilityPoller {
    /// A fresh poller starts searching.
    pub fn new() -> (r: Self)
        ensures
            r.state is Searching,
    {
        AvailabilityPoller { state: PollState::Searching }
    }

    /// One poll tick, fed the catalog's answer for the requested type.
    /// The poller reaches Found exactly on a capacity hit, and then returns
    /// the first region of the list; on anything else it stays in Searching
    /// and returns nothing, so no launch can follow from that tick.
    pub fn tick(&mut self, entry: Option<&CatalogEntry>) -> (r: Option<Region>)
        requires
            old(self).state is Searching,
        ensures
            final(self).state is Found <==> tick_hit(entry),
            r is Some <==> tick_hit(entry),
            tick_hit(entry) ==> r == Some(tick_region(entry)),
            !tick_hit(entry) ==> final(self).state is Searching,
    {
        match entry {
            Some(e) => {
                if e.regions.len() > 0 {
                    self.state = PollState::Found;
                    Some(e.regions[0].clone())
                } else {
                    None
                }
            },
            None => None,
        }
    }
}

/// Seconds to sleep before the next tick: the configured interval less the
/// tick's own processing time, clamped at zero so successive ticks are
/// spaced by the interval, never by more, and the sleep is never negative.
pub fn next_check_in(interval_secs: u64, elapsed_secs: u64) -> (r: u64)
    ensures
        elapsed_secs <= interval_secs ==> r == interval_secs - elapsed_secs,
        elapsed_secs > interval_secs ==> r == 0,
        r <= interval_secs,
{
    if elapsed_secs <= interval_secs {
        interval_secs - elapsed_secs
    } else {
        0
    }
}

/// Packs the status record a fruitless tick emits.
pub fn make_poll_status(checked_at: String, next_check_in_secs: u64) -> (r: PollStatus)
    ensures
        r.checked_at == checked_at,
        r.next_check_in_secs == next_check_in_secs,
{
    PollStatus { checked_at, next_check_in_secs }
}

} // verus!
