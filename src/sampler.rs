use vstd::prelude::*;

use crate::hub::{after_publish, Hub};
use crate::snapshot::Snapshot;

verus! {

/// How many times the measurement floor the sampler waits between ticks.
pub const FLOOR_MULTIPLE: u64 = 5;

/// Relies on sysinfo's `SystemExt::MINIMUM_CPU_UPDATE_INTERVAL`: the shortest
/// spacing of CPU refreshes that still gives meaningful readings. sysinfo sets
/// it per OS, to 0, 100 or 200 milliseconds.
#[verifier::external_body]
fn minimum_update_interval_ms() -> (r: u64)
    ensures
        r <= 200,
{
    <sysinfo::System as sysinfo::SystemExt>::MINIMUM_CPU_UPDATE_INTERVAL.as_millis() as u64
}

/// The pause between ticks for a measurement floor of `floor_ms`
/// milliseconds, saturating at the largest `u64`.
pub open spec fn interval_for_floor(floor_ms: u64) -> u64 {
    if FLOOR_MULTIPLE * floor_ms <= u64::MAX {
        (FLOOR_MULTIPLE * floor_ms) as u64
    } else {
        u64::MAX
    }
}

/// Milliseconds to wait between ticks, given the measurement floor.
pub fn sampling_interval_for(floor_ms: u64) -> (r: u64)
    ensures
        r == interval_for_floor(floor_ms),
{
    match floor_ms.checked_mul(FLOOR_MULTIPLE) {
        Some(v) => v,
        None => u64::MAX,
    }
}

/// Milliseconds to wait between ticks on this host: a fixed multiple of the
/// floor that the measurement facility needs between refreshes.
pub fn sampling_interval_ms() -> (r: u64)
    ensures
        exists|floor: u64| floor <= 200 && r == interval_for_floor(floor),
        r <= FLOOR_MULTIPLE * 200,
{
    let floor = minimum_update_interval_ms();
    sampling_interval_for(floor)
}

/// What one tick did.
#[derive(PartialEq, Eq, Structural, Debug, Clone, Copy)]
pub enum TickOutcome {
    /// The reading went out as a snapshot.
    Published,
    /// The facility gave no reading this time; nothing went out.
    NoReading,
    /// The reading covered another number of cores than the earlier ones, so
    /// its order could not match theirs; nothing went out.
    CoreCountChanged,
}

/// The outcome of a tick, given the core count fixed so far (if any) and the
/// reading the facility gave (if any). An empty reading counts as none: every
/// host has at least one core.
pub open spec fn tick_outcome(cores: Option<usize>, reading: Option<Seq<u32>>) -> TickOutcome {
    match reading {
        None => TickOutcome::NoReading,
        Some(v) => if v.len() == 0 {
            TickOutcome::NoReading
        } else {
            match cores {
                Some(n) => if v.len() == n {
                    TickOutcome::Published
                } else {
                    TickOutcome::CoreCountChanged
                },
                None => TickOutcome::Published,
            }
        },
    }
}

/// The core count after a tick: fixed by the first reading published.
pub open spec fn cores_after(cores: Option<usize>, reading: Option<Seq<u32>>) -> Option<usize> {
    if tick_outcome(cores, reading) == TickOutcome::Published {
        Some(reading.unwrap().len() as usize)
    } else {
        cores
    }
}

/// The view of an optional reading.
pub open spec fn reading_view(reading: Option<Vec<u32>>) -> Option<Seq<u32>> {
    match reading {
        Some(v) => Some(v@),
        None => None,
    }
}

/// Turns measurements into snapshots for a hub, keeping one core order for
/// its whole life.
pub struct Sampler {
    cores: Option<usize>,
}

impl Sampler {
    /// The number of cores fixed by the first snapshot published, if any.
    pub closed spec fn cores(&self) -> Option<usize> {
        self.cores
    }

    /// A sampler that has published nothing yet.
    pub fn new() -> (r: Sampler)
        ensures
            r.cores() is None,
    {
        Sampler { cores: None }
    }

    /// The number of cores fixed so far.
    pub fn core_count(&self) -> (r: Option<usize>)
        ensures
            r == self.cores(),
    {
        self.cores
    }

    /// One tick: takes the facility's reading (`None` where it could not
    /// report) and publishes it to `hub` as a snapshot, unchanged and in the
    /// same core order, unless the tick is skipped as `tick_outcome` says.
    /// A skipped tick changes nothing; the next tick tries again.
    pub fn tick(&mut self, hub: &mut Hub, reading: Option<Vec<u32>>) -> (r: TickOutcome)
        requires
            old(hub).wf(),
        ensures
            final(hub).wf(),
            r == tick_outcome(old(self).cores(), reading_view(reading)),
            final(self).cores() == cores_after(old(self).cores(), reading_view(reading)),
            r == TickOutcome::Published ==> {
                &&& final(hub).slots() == after_publish(old(hub).slots(), reading.unwrap()@)
                &&& final(hub).history() == old(hub).history().push(reading.unwrap()@)
                &&& final(hub).joined() == old(hub).joined()
                &&& final(hub).next_id() == old(hub).next_id()
            },
            r != TickOutcome::Published ==> *final(hub) == *old(hub),
    {
        match reading {
            None => TickOutcome::NoReading,
            Some(v) => {
                if v.len() == 0 {
                    return TickOutcome::NoReading;
                }
                match self.cores {
                    Some(n) => {
                        if v.len() != n {
                            return TickOutcome::CoreCountChanged;
                        }
                    },
                    None => {},
                }
                self.cores = Some(v.len());
                let snapshot = Snapshot::new(v);
                hub.publish(&snapshot);
                TickOutcome::Published
            },
        }
    }
}

} // verus!
