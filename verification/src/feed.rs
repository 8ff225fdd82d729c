//! The state cache feed: the decision logic of the critical background task
//! that bridges the canonical-chain-update stream into the cache the Eth
//! API reads. The task has the cache's only writer; unexpected stream
//! termination must be escalated as a fatal fault, never swallowed, since
//! Eth API correctness depends on the cache not going silently stale.

use vstd::prelude::*;

verus! {

/// One observation on the canonical-chain-update stream.
#[derive(Clone, Copy, Debug, PartialEq, Eq, Structural)]
pub enum StreamEvent {
    /// A chain update to feed into the cache.
    Update(u64),
    /// The stream closed gracefully.
    Closed,
    /// The stream terminated with an error.
    Failed(u64),
}

/// What the feed does with one observation.
#[derive(Clone, Copy, Debug, PartialEq, Eq, Structural)]
pub enum FeedDirective {
    /// Feed the update into the cache and keep reading.
    Apply(u64),
    /// Stop: the stream is exhausted.
    Stop,
    /// Escalate through the task spawner's critical-task contract: the
    /// whole process must treat this as a fatal fault.
    EscalateCritical(u64),
}

/// How the stream ended.
#[derive(Clone, Copy, Debug, PartialEq, Eq, Structural)]
pub enum StreamTermination {
    /// Graceful close.
    Closed,
    /// Termination with an error.
    Failed(u64),
}

/// The feed task's verdict once its stream ended.
#[derive(Clone, Copy, Debug, PartialEq, Eq, Structural)]
pub enum FeedOutcome {
    /// The stream closed gracefully; the task winds down quietly.
    Completed,
    /// The stream died unexpectedly; the escalation path fires.
    CriticalFault(u64),
}

/// The cache contents as the feed maintains them: every update of the
/// stream, in order. The feed is the sole writer.
#[derive(Debug)]
pub struct CacheState {
    /// Updates applied so far, oldest first.
    pub applied: Vec<u64>,
}

impl CacheState {
    /// An empty cache, created before the Eth API builder runs.
    pub fn new() -> (c: Self)
        ensures
            c.applied@ == Seq::<u64>::empty(),
    {
        CacheState { applied: Vec::new() }
    }

    /// Feeds one update into the cache.
    pub fn apply(&mut self, update: u64)
        ensures
            final(self).applied@ == old(self).applied@.push(update),
    {
        self.applied.push(update);
    }
}

/// Decides what the feed does with one stream observation: updates are
/// applied, graceful close stops the task, and an erroneous termination is
/// escalated as a critical fault.
pub fn feed_step(event: StreamEvent) -> (d: FeedDirective)
    ensures
        event matches StreamEvent::Update(u) ==> d == FeedDirective::Apply(u),
        event is Closed ==> d == FeedDirective::Stop,
        event matches StreamEvent::Failed(code) ==> d == FeedDirective::EscalateCritical(code),
{
    match event {
        StreamEvent::Update(u) => FeedDirective::Apply(u),
        StreamEvent::Closed => FeedDirective::Stop,
        StreamEvent::Failed(code) => FeedDirective::EscalateCritical(code),
    }
}

/// Runs the whole feed over a stream that delivers `updates` and then ends
/// with `termination`: every update reaches the cache in order, and the
/// verdict escalates exactly the erroneous terminations.
pub fn run_feed(cache: &mut CacheState, updates: &Vec<u64>, termination: StreamTermination) -> (out:
    FeedOutcome)
    ensures
        final(cache).applied@ == old(cache).applied@ + updates@,
        termination is Closed ==> out == FeedOutcome::Completed,
        termination matches StreamTermination::Failed(code) ==> out == FeedOutcome::CriticalFault(
            code,
        ),
{
    let mut i: usize = 0;
    while i < updates.len()
        invariant
            i <= updates.len(),
            cache.applied@ == old(cache).applied@ + updates@.take(i as int),
        decreases updates.len() - i,
    {
        cache.apply(updates[i]);
        proof {
            assert(updates@.take(i as int + 1) =~= updates@.take(i as int).push(
                updates@[i as int],
            ));
        }
        i += 1;
    }
    proof {
        assert(updates@.take(updates@.len() as int) =~= updates@);
        assert(cache.applied@ =~= old(cache).applied@ + updates@);
    }
    match termination {
        StreamTermination::Closed => FeedOutcome::Completed,
        StreamTermination::Failed(code) => FeedOutcome::CriticalFault(code),
    }
}

} // verus!
