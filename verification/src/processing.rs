use vstd::prelude::*;

verus! {

/// Counts the background jobs (track imports) that are still running.
#[derive(Debug, Clone, Copy)]
pub struct ProcessingContext {
    processing_tracks: usize,
}

impl View for ProcessingContext {
    type V = nat;

    closed spec fn view(&self) -> nat {
        self.processing_tracks as nat
    }
}

impl Default for ProcessingContext {
    fn default() -> (ctx: Self)
        ensures
            ctx@ == 0,
    {
        ProcessingContext { processing_tracks: 0 }
    }
}

impl ProcessingContext {
    /// Number of tracks that are still being processed.
    pub fn processing_tracks(&self) -> (count: usize)
        ensures
            count == self@,
    {
        self.processing_tracks
    }

    /// Replaces the number of tracks being processed.
    pub fn set_processing_tracks(&mut self, processing: usize)
        ensures
            final(self)@ == processing,
    {
        self.processing_tracks = processing;
    }

    /// One track finished processing; the count never goes below zero.
    pub fn finished_processing_track(&mut self)
        ensures
            final(self)@ == if old(self)@ == 0 { 0 } else { (old(self)@ - 1) as nat },
            final(self)@ == after_finished(old(self)@, 1),
    {
        proof {
            reveal_with_fuel(after_finished, 2);
        }
        self.processing_tracks = self.processing_tracks.saturating_sub(1);
    }

    /// More tracks started processing; the count stops at the largest `usize`.
    pub fn add_processing_tracks(&mut self, count: usize)
        ensures
            final(self)@ == if old(self)@ + count > usize::MAX {
                usize::MAX as nat
            } else {
                (old(self)@ + count) as nat
            },
    {
        self.processing_tracks = self.processing_tracks.saturating_add(count);
    }
}

/// The count after `k` tracks finished processing, starting from `count`.
pub open spec fn after_finished(count: nat, k: nat) -> nat
    decreases k,
{
    if k == 0 {
        count
    } else {
        let rest = after_finished(count, (k - 1) as nat);
        if rest == 0 { 0 } else { (rest - 1) as nat }
    }
}

/// Once each of `added` tracks that started processing has finished, the
/// count is back where it was.
pub proof fn lemma_processing_settles(count: nat, added: nat)
    ensures
        after_finished(count + added, added) == count,
    decreases added,
{
    if added > 0 {
        lemma_processing_settles(count + 1, (added - 1) as nat);
        assert(count + 1 + (added - 1) == count + added);
    }
}

/// `k` finished tracks lower the count by `k`, stopping at zero: the count
/// after them is the saturating difference.
pub proof fn lemma_after_finished_saturates(count: nat, k: nat)
    ensures
        after_finished(count, k) == if count >= k { (count - k) as nat } else { 0 },
    decreases k,
{
    if k > 0 {
        lemma_after_finished_saturates(count, (k - 1) as nat);
    }
}

} // verus!
