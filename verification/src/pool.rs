use vstd::prelude::*;
use crossbeam::queue::ArrayQueue;

verus! {

/// How many idle handles a pool may cache for one peer. The cap bounds idle
/// resources only; it never limits how many calls are in flight.
pub const POOL_CAPACITY: usize = 16;

/// crossbeam's bounded queue, declared so that its values can stand in
/// fields and signatures; the library reads it only through the trusted
/// functions below.
#[verifier::external_type_specification]
#[verifier::external_body]
#[verifier::reject_recursive_types(T)]
pub struct ExArrayQueue<T>(ArrayQueue<T>);

/// The handles an idle-handle queue holds, oldest first.
pub uninterp spec fn queue_handles(q: ArrayQueue<u64>) -> Seq<u64>;

/// The bound the queue was created with.
pub uninterp spec fn queue_capacity(q: ArrayQueue<u64>) -> usize;

/// Relies on crossbeam's `ArrayQueue::new`: a bounded queue, created empty,
/// with the given capacity. It panics on a capacity of zero or one too large
/// to address, which the precondition rules out.
#[verifier::external_body]
fn queue_new(cap: usize) -> (q: ArrayQueue<u64>)
    requires
        1 <= cap <= 65536,
    ensures
        queue_capacity(q) == cap,
        queue_handles(q) == Seq::<u64>::empty(),
{
    ArrayQueue::new(cap)
}

/// Relies on crossbeam's `ArrayQueue::push_mut`: appends the value when the
/// queue is below its capacity and hands it back when the queue is full.
#[verifier::external_body]
fn queue_push(q: &mut ArrayQueue<u64>, h: u64) -> (kept: bool)
    ensures
        queue_capacity(*final(q)) == queue_capacity(*old(q)),
        queue_handles(*old(q)).len() < queue_capacity(*old(q)) ==> kept && queue_handles(*final(q))
            == queue_handles(*old(q)).push(h),
        queue_handles(*old(q)).len() >= queue_capacity(*old(q)) ==> !kept && queue_handles(
            *final(q),
        ) == queue_handles(*old(q)),
{
    match q.push_mut(h) {
        Ok(()) => true,
        Err(_) => false,
    }
}

/// Relies on crossbeam's `ArrayQueue::pop_mut`: removes and returns the
/// oldest element, or returns nothing when the queue is empty.
#[verifier::external_body]
fn queue_pop(q: &mut ArrayQueue<u64>) -> (r: Option<u64>)
    ensures
        queue_capacity(*final(q)) == queue_capacity(*old(q)),
        queue_handles(*old(q)).len() == 0 ==> r is None && queue_handles(*final(q))
            == queue_handles(*old(q)),
        queue_handles(*old(q)).len() > 0 ==> r == Some(queue_handles(*old(q))[0])
            && queue_handles(*final(q)) == queue_handles(*old(q)).drop_first(),
{
    q.pop_mut()
}

/// Relies on crossbeam's `ArrayQueue::len`: the number of elements held.
#[verifier::external_body]
fn queue_len(q: &ArrayQueue<u64>) -> (r: usize)
    ensures
        r as nat == queue_handles(*q).len(),
{
    q.len()
}

/// A bounded cache of reusable outbound handles for one peer. The pool caps
/// *idle* handles, not concurrent calls: a caller that finds it empty opens a
/// fresh connection instead of waiting, and a handle returned to a full pool
/// is discarded instead of blocking.
pub struct ConnectionPool {
    idle: ArrayQueue<u64>,
}

impl ConnectionPool {
    /// The idle handles this pool holds, oldest first.
    pub closed spec fn idle_handles(self) -> Seq<u64> {
        queue_handles(self.idle)
    }

    /// Pool bound invariant: the idle store was created with the configured
    /// capacity and never holds more than `POOL_CAPACITY` handles.
    pub closed spec fn wf(self) -> bool {
        queue_capacity(self.idle) == POOL_CAPACITY && self.idle_handles().len() <= POOL_CAPACITY
    }

    /// Creates an empty pool.
    pub fn new() -> (p: ConnectionPool)
        ensures
            p.wf(),
            p.idle_handles() == Seq::<u64>::empty(),
    {
        ConnectionPool { idle: queue_new(POOL_CAPACITY) }
    }

    /// Pops the oldest idle handle if one is cached; when none is, the caller
    /// opens a fresh connection rather than waiting on the cap.
    pub fn acquire(&mut self) -> (r: Option<u64>)
        requires
            old(self).wf(),
        ensures
            final(self).wf(),
            old(self).idle_handles().len() == 0 ==> r is None
                && final(self).idle_handles() == old(self).idle_handles(),
            old(self).idle_handles().len() > 0 ==> r == Some(old(self).idle_handles()[0])
                && final(self).idle_handles() == old(self).idle_handles().drop_first(),
    {
        queue_pop(&mut self.idle)
    }

    /// Returns a handle to the pool after its call completes. At idle
    /// capacity the handle is discarded: releasing never blocks and never
    /// grows the pool past its bound.
    pub fn release(&mut self, h: u64) -> (kept: bool)
        requires
            old(self).wf(),
        ensures
            final(self).wf(),
            old(self).idle_handles().len() < POOL_CAPACITY ==> kept && final(self).idle_handles()
                == old(self).idle_handles().push(h),
            old(self).idle_handles().len() >= POOL_CAPACITY ==> !kept && final(self).idle_handles()
                == old(self).idle_handles(),
    {
        queue_push(&mut self.idle, h)
    }

    /// How many handles are idle right now.
    pub fn idle_len(&self) -> (r: usize)
        ensures
            r as nat == self.idle_handles().len(),
    {
        queue_len(&self.idle)
    }
}

/// Pool bound law: a well-formed pool never holds more idle handles than the
/// configured capacity, whatever sequence of acquires and releases built it.
pub proof fn lemma_pool_bound(p: ConnectionPool)
    requires
        p.wf(),
    ensures
        p.idle_handles().len() <= POOL_CAPACITY,
{
}

} // verus!
