//! Deferred destruction of GPU objects.
//!
//! GPU objects may still be referenced by in-flight command buffers when the
//! code that created them is done with them, so destruction is recorded as a
//! [`DeletionCommand`] and performed only at an explicit teardown point.  The
//! queue holds tagged commands over raw 64-bit object handles rather than
//! opaque callbacks, so the pending work can be inspected and tested.
//!
//! Drain order is deliberately LIFO (reverse of enqueue order): a resource is
//! enqueued after the resources it depends on, so running the destructors in
//! reverse of enqueue order destroys every dependent object before the objects
//! it depends on, mirroring scoped-resource release.

use vstd::prelude::*;

verus! {

/// One deferred destruction of a GPU object, identified by its raw handle.
#[derive(Clone, Copy, Debug, PartialEq, Eq, Structural)]
pub enum DeletionCommand {
    DestroyImageView(u64),
    DestroyShaderModule(u64),
    DestroyPipelineLayout(u64),
    DestroyPipeline(u64),
    DestroyDescriptorPool(u64),
    DestroyDescriptorSetLayout(u64),
}

/// An ordered queue of deferred destructions.  Append-only during normal
/// operation; drained once, in LIFO order, at an explicit teardown call.
pub struct DeletionQueue {
    queue: Vec<DeletionCommand>,
}

impl View for DeletionQueue {
    type V = Seq<DeletionCommand>;

    closed spec fn view(&self) -> Seq<DeletionCommand> {
        self.queue@
    }
}

impl DeletionQueue {
    /// An empty queue: nothing is pending.
    pub fn new() -> (q: Self)
        ensures
            q@ == Seq::<DeletionCommand>::empty(),
    {
        DeletionQueue { queue: Vec::new() }
    }

    /// Record one deferred destruction; it runs only when the queue is drained.
    pub fn enqueue(&mut self, command: DeletionCommand)
        ensures
            final(self)@ == old(self)@.push(command),
    {
        self.queue.push(command);
    }

    /// How many destructions are pending.
    pub fn len(&self) -> (n: usize)
        ensures
            n == self@.len(),
    {
        self.queue.len()
    }

    /// Hand out every pending destruction, in reverse of enqueue order
    /// (LIFO), leaving the queue empty.  The caller performs the actual
    /// destroy calls, newest-enqueued first.
    pub fn drain(&mut self) -> (commands: Vec<DeletionCommand>)
        ensures
            commands@ == old(self)@.reverse(),
            final(self)@ == Seq::<DeletionCommand>::empty(),
    {
        let ghost initial = self@;
        let mut commands: Vec<DeletionCommand> = Vec::new();
        while self.queue.len() > 0
            invariant
                commands@.len() + self.queue@.len() == initial.len(),
                self.queue@ == initial.subrange(0, self.queue@.len() as int),
                forall|i: int|
                    0 <= i < commands@.len() ==> commands@[i] == initial[initial.len() - 1 - i],
            decreases self.queue@.len(),
        {
            match self.queue.pop() {
                Some(command) => {
                    commands.push(command);
                }
                None => {}
            }
        }
        proof {
            assert(commands@ =~= initial.reverse());
        }
        commands
    }
}

/// Drain order law: draining yields the reversal of what was enqueued, so
/// every enqueued command is handed out exactly once — the multiset of drained
/// commands equals the multiset of enqueued ones — and the order is the fixed,
/// deterministic LIFO order.
pub proof fn lemma_drain_each_exactly_once(enqueued: Seq<DeletionCommand>)
    ensures
        enqueued.reverse().to_multiset() == enqueued.to_multiset(),
        enqueued.reverse().len() == enqueued.len(),
        forall|i: int|
            0 <= i < enqueued.len() ==> enqueued.reverse()[i] == enqueued[enqueued.len() - 1 - i],
{
    enqueued.lemma_reverse_to_multiset();
}

} // verus!
