//! Bounded histories of render latencies, newest first.
use vstd::prelude::*;
use std::collections::VecDeque;
use std::time::Duration;

verus! {

/// How many latency records are kept.
pub const MAX_LATENCY_RECORD_COUNT: usize = 1000;

/// The history after recording `latency`: it goes in front, and only the
/// newest `max_length` records are kept.
pub open spec fn record_latency(history: Seq<Duration>, latency: Duration, max_length: nat) -> Seq<
    Duration,
> {
    let pushed = seq![latency] + history;
    if pushed.len() > max_length {
        pushed.take(max_length as int)
    } else {
        pushed
    }
}

/// Copies a history of durations.
fn copy_timings(timings: &VecDeque<Duration>) -> (copy: VecDeque<Duration>)
    ensures
        copy@ == timings@,
{
    let mut copy: VecDeque<Duration> = VecDeque::new();
    let mut i: usize = 0;
    while i < timings.len()
        invariant
            i <= timings@.len(),
            copy@ == timings@.take(i as int),
        decreases timings@.len() - i,
    {
        let d: Duration = timings[i];
        copy.push_back(d);
        assert(timings@.take(i + 1) == timings@.take(i as int).push(timings@[i as int]));
        i = i + 1;
    }
    assert(timings@.take(timings@.len() as int) == timings@);
    copy
}

/// Main thread render latencies, newest first, at most `max_length` of them.
#[derive(Debug)]
pub struct LatencyContext {
    timings: VecDeque<Duration>,
    max_length: usize,
}

impl LatencyContext {
    /// The recorded latencies, newest first.
    pub closed spec fn history(&self) -> Seq<Duration> {
        self.timings@
    }

    /// How many records are kept at most: always 1000.
    pub open spec fn capacity(&self) -> nat {
        MAX_LATENCY_RECORD_COUNT as nat
    }

    /// The limit is 1000 records, and the history never holds more.
    #[verifier::type_invariant]
    closed spec fn within_limit(&self) -> bool {
        &&& self.max_length == MAX_LATENCY_RECORD_COUNT
        &&& self.timings@.len() <= MAX_LATENCY_RECORD_COUNT
    }

    /// An empty history keeping up to 1000 records.
    pub fn new() -> (ctx: Self)
        ensures
            ctx.history() == Seq::<Duration>::empty(),
    {
        LatencyContext { timings: VecDeque::new(), max_length: MAX_LATENCY_RECORD_COUNT }
    }

    /// A copy of the recorded latencies, newest first; never more than 1000.
    pub fn timings(&self) -> (timings: VecDeque<Duration>)
        ensures
            timings@ == self.history(),
            timings@.len() <= MAX_LATENCY_RECORD_COUNT,
    {
        proof {
            use_type_invariant(self);
        }
        copy_timings(&self.timings)
    }

    /// Records a latency as the newest; once 1000 records are held, the oldest
    /// is dropped.
    pub fn add(&mut self, latency: Duration)
        ensures
            final(self).history() == record_latency(old(self).history(), latency, MAX_LATENCY_RECORD_COUNT as nat),
            final(self).history().len() <= MAX_LATENCY_RECORD_COUNT,
    {
        proof {
            use_type_invariant(&*self);
        }
        let mut timings: VecDeque<Duration> = VecDeque::new();
        std::mem::swap(&mut timings, &mut self.timings);
        timings.push_front(latency);
        timings.truncate(self.max_length);
        self.timings = timings;
    }
}

impl Clone for LatencyContext {
    fn clone(&self) -> (copy: Self)
        ensures
            copy.history() == self.history(),
    {
        proof {
            use_type_invariant(self);
        }
        LatencyContext { timings: copy_timings(&self.timings), max_length: self.max_length }
    }
}

impl Default for LatencyContext {
    fn default() -> (ctx: Self)
        ensures
            ctx.history() == Seq::<Duration>::empty(),
    {
        LatencyContext::new()
    }
}

/// Render latencies of the main thread, newest first, at most 1000 of them.
#[derive(Debug)]
pub struct RenderLatency {
    timings: VecDeque<Duration>,
    max_length: usize,
}

impl RenderLatency {
    /// The recorded latencies, newest first.
    pub closed spec fn history(&self) -> Seq<Duration> {
        self.timings@
    }

    /// How many records are kept at most: always 1000.
    pub open spec fn capacity(&self) -> nat {
        MAX_LATENCY_RECORD_COUNT as nat
    }

    /// The limit is 1000 records, and the history never holds more.
    #[verifier::type_invariant]
    closed spec fn within_limit(&self) -> bool {
        &&& self.max_length == MAX_LATENCY_RECORD_COUNT
        &&& self.timings@.len() <= MAX_LATENCY_RECORD_COUNT
    }

    /// An empty history keeping up to 1000 records.
    pub fn new() -> (latency: Self)
        ensures
            latency.history() == Seq::<Duration>::empty(),
    {
        RenderLatency { timings: VecDeque::new(), max_length: MAX_LATENCY_RECORD_COUNT }
    }

    /// A copy of the recorded latencies, newest first; never more than 1000.
    pub fn timings(&self) -> (timings: VecDeque<Duration>)
        ensures
            timings@ == self.history(),
            timings@.len() <= MAX_LATENCY_RECORD_COUNT,
    {
        proof {
            use_type_invariant(self);
        }
        copy_timings(&self.timings)
    }

    /// Records a latency as the newest; once 1000 records are held, the oldest
    /// is dropped.
    pub fn add(&mut self, latency: Duration)
        ensures
            final(self).history() == record_latency(old(self).history(), latency, MAX_LATENCY_RECORD_COUNT as nat),
            final(self).history().len() <= MAX_LATENCY_RECORD_COUNT,
    {
        proof {
            use_type_invariant(&*self);
        }
        let mut timings: VecDeque<Duration> = VecDeque::new();
        std::mem::swap(&mut timings, &mut self.timings);
        timings.push_front(latency);
        timings.truncate(self.max_length);
        self.timings = timings;
    }
}

impl Clone for RenderLatency {
    fn clone(&self) -> (copy: Self)
        ensures
            copy.history() == self.history(),
    {
        proof {
            use_type_invariant(self);
        }
        RenderLatency { timings: copy_timings(&self.timings), max_length: self.max_length }
    }
}

impl Default for RenderLatency {
    fn default() -> (latency: Self)
        ensures
            latency.history() == Seq::<Duration>::empty(),
    {
        RenderLatency::new()
    }
}

/// Performance measurements of the user interface.
#[derive(Debug, Clone)]
pub struct PerformanceMetricsContext {
    pub render_latency: RenderLatency,
}

impl PerformanceMetricsContext {
    pub fn new() -> (ctx: Self)
        ensures
            ctx.render_latency.history() == Seq::<Duration>::empty(),
    {
        PerformanceMetricsContext { render_latency: RenderLatency::new() }
    }

    /// A copy of the recorded render latencies, newest first; never more than 1000.
    pub fn render_latency(&self) -> (timings: VecDeque<Duration>)
        ensures
            timings@ == self.render_latency.history(),
            timings@.len() <= MAX_LATENCY_RECORD_COUNT,
    {
        self.render_latency.timings()
    }

    /// Records a render latency as the newest; once 1000 records are held, the
    /// oldest is dropped.
    pub fn add_render_latency(&mut self, latency: Duration)
        ensures
            final(self).render_latency.history() == record_latency(
                old(self).render_latency.history(),
                latency,
                MAX_LATENCY_RECORD_COUNT as nat,
            ),
            final(self).render_latency.history().len() <= MAX_LATENCY_RECORD_COUNT,
    {
        self.render_latency.add(latency);
    }
}

impl Default for PerformanceMetricsContext {
    fn default() -> (ctx: Self)
        ensures
            ctx.render_latency.history() == Seq::<Duration>::empty(),
    {
        PerformanceMetricsContext::new()
    }
}

/// The history never holds more than its capacity, however many latencies are
/// recorded, and the newest record is always in front.
pub proof fn lemma_record_latency_bounded(history: Seq<Duration>, latency: Duration, max_length: nat)
    ensures
        record_latency(history, latency, max_length).len() <= max_length,
        max_length > 0 ==> record_latency(history, latency, max_length)[0] == latency,
        forall|i: int|
            0 <= i < record_latency(history, latency, max_length).len() - 1 ==> #[trigger] record_latency(
                history,
                latency,
                max_length,
            )[i + 1] == history[i],
{
}

} // verus!
