use vstd::prelude::*;

verus! {

/// One measurement of the host: a reading per logical core, in the host's
/// stable core order.
///
/// Each reading is the bit pattern of the core's utilization percentage as an
/// IEEE-754 single-precision number. The library carries readings and never
/// interprets them; converting to and from numbers happens at the edges.
pub struct Snapshot {
    pub readings: Vec<u32>,
}

impl View for Snapshot {
    type V = Seq<u32>;

    open spec fn view(&self) -> Seq<u32> {
        self.readings@
    }
}

impl Snapshot {
    /// Wraps the readings of one measurement, in core order.
    pub fn new(readings: Vec<u32>) -> (r: Snapshot)
        ensures
            r@ == readings@,
    {
        Snapshot { readings }
    }

    /// Number of cores measured.
    pub fn core_count(&self) -> (r: usize)
        ensures
            r == self@.len(),
    {
        self.readings.len()
    }

    /// The reading of core `core`, if the snapshot has one.
    pub fn reading(&self, core: usize) -> (r: Option<u32>)
        ensures
            core < self@.len() ==> r == Some(self@[core as int]),
            core >= self@.len() ==> r.is_none(),
    {
        if core < self.readings.len() {
            Some(self.readings[core])
        } else {
            None
        }
    }

    /// An independent copy holding the same readings in the same order.
    pub fn duplicate(&self) -> (r: Snapshot)
        ensures
            r@ == self@,
    {
        let mut out: Vec<u32> = Vec::with_capacity(self.readings.len());
        let mut i: usize = 0;
        while i < self.readings.len()
            invariant
                i <= self.readings@.len(),
                out@ == self.readings@.subrange(0, i as int),
            decreases self.readings@.len() - i,
        {
            out.push(self.readings[i]);
            i = i + 1;
        }
        assert(out@ == self.readings@);
        Snapshot { readings: out }
    }

    /// The readings, in core order.
    pub fn into_readings(self) -> (r: Vec<u32>)
        ensures
            r@ == self@,
    {
        self.readings
    }
}

} // verus!
