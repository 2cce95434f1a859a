use vstd::prelude::*;

use crate::entry::EntryOutcome;

verus! {

/// How many of `outcomes` are `o`.
pub open spec fn count_of(outcomes: Seq<EntryOutcome>, o: EntryOutcome) -> nat
    decreases outcomes.len(),
{
    if outcomes.len() == 0 {
        0
    } else {
        count_of(outcomes.drop_last(), o) + if outcomes.last() == o {
            1nat
        } else {
            0nat
        }
    }
}

/// The outcome of each entry of one extraction run, in the order looked at.
pub struct ExtractionReport {
    outcomes: Vec<EntryOutcome>,
}

impl View for ExtractionReport {
    type V = Seq<EntryOutcome>;

    closed spec fn view(&self) -> Seq<EntryOutcome> {
        self.outcomes@
    }
}

impl ExtractionReport {
    /// A report of a run that has looked at no entry yet.
    pub fn new() -> (r: ExtractionReport)
        ensures
            r@ == Seq::<EntryOutcome>::empty(),
    {
        ExtractionReport { outcomes: Vec::new() }
    }

    /// Adds the outcome of the next entry.
    pub fn record(&mut self, o: EntryOutcome)
        ensures
            final(self)@ == old(self)@.push(o),
    {
        self.outcomes.push(o);
    }

    /// The number of entries looked at.
    pub fn len(&self) -> (r: usize)
        ensures
            r == self@.len(),
    {
        self.outcomes.len()
    }

    /// The number of entries whose outcome is `o`.
    pub fn count(&self, o: EntryOutcome) -> (r: usize)
        ensures
            r == count_of(self@, o),
    {
        let mut n: usize = 0;
        let mut i: usize = 0;
        while i < self.outcomes.len()
            invariant
                i <= self.outcomes.len(),
                n == count_of(self@.subrange(0, i as int), o),
                n <= i,
            decreases self.outcomes.len() - i,
        {
            assert(self@.subrange(0, i + 1).drop_last() =~= self@.subrange(0, i as int));
            if self.outcomes[i] == o {
                n = n + 1;
            }
            i = i + 1;
        }
        assert(self@.subrange(0, i as int) =~= self@);
        n
    }
}

} // verus!
