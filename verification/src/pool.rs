//! A bounded pool of byte buffers, so that the buffers of one frame serve the
//! next.
use crossbeam_queue::ArrayQueue;
use vstd::prelude::*;

verus! {

/// The bounded queue of `crossbeam_queue`.
#[verifier::external_type_specification]
#[verifier::external_body]
#[verifier::reject_recursive_types(T)]
pub struct ExArrayQueue<T>(ArrayQueue<T>);

/// The buffers that wait in the queue, the one that leaves first at the
/// front, each as the bytes that it holds.
pub uninterp spec fn queue_items(queue: ArrayQueue<Vec<u8>>) -> Seq<Seq<u8>>;

/// The number of buffers that the queue was made to hold.
pub uninterp spec fn queue_limit(queue: ArrayQueue<Vec<u8>>) -> nat;

/// `ArrayQueue::new`: an empty queue that holds up to `limit` buffers. The
/// call panics for a limit of zero and for one so large that its next power
/// of two does not fit; the bound here keeps well away from both.
#[verifier::external_body]
fn queue_new(limit: usize) -> (queue: ArrayQueue<Vec<u8>>)
    requires
        0 < limit <= 0x1_0000,
    ensures
        queue_items(queue) == Seq::<Seq<u8>>::empty(),
        queue_limit(queue) == limit,
{
    ArrayQueue::new(limit)
}

/// `ArrayQueue::pop`, on a queue that no one else holds: takes the buffer at
/// the front, or gives `None` when the queue is empty.
#[verifier::external_body]
fn queue_pop(queue: &mut ArrayQueue<Vec<u8>>) -> (buf: Option<Vec<u8>>)
    ensures
        queue_limit(*final(queue)) == queue_limit(*old(queue)),
        match buf {
            Some(buf) => {
                &&& queue_items(*old(queue)).len() > 0
                &&& queue_items(*final(queue)) == queue_items(*old(queue)).skip(1)
                &&& buf@ == queue_items(*old(queue))[0]
            },
            None => {
                &&& queue_items(*old(queue)).len() == 0
                &&& queue_items(*final(queue)) == queue_items(*old(queue))
            },
        },
{
    queue.pop()
}

/// `ArrayQueue::push`, on a queue that no one else holds: puts the buffer at
/// the back, or hands it back when the queue holds as many as its limit.
#[verifier::external_body]
fn queue_push(queue: &mut ArrayQueue<Vec<u8>>, buf: Vec<u8>) -> (r: Result<(), Vec<u8>>)
    ensures
        queue_limit(*final(queue)) == queue_limit(*old(queue)),
        match r {
            Ok(_) => {
                &&& queue_items(*old(queue)).len() < queue_limit(*old(queue))
                &&& queue_items(*final(queue)) == queue_items(*old(queue)).push(buf@)
            },
            Err(back) => {
                &&& queue_items(*old(queue)).len() >= queue_limit(*old(queue))
                &&& queue_items(*final(queue)) == queue_items(*old(queue))
                &&& back@ == buf@
            },
        },
{
    queue.push(buf)
}

/// `Vec::capacity`: the number of bytes that the buffer can hold without
/// growing, which is at least what it holds.
#[verifier::external_body]
fn buffer_capacity(buf: &Vec<u8>) -> (capacity: usize)
    ensures
        capacity >= buf@.len(),
{
    buf.capacity()
}

/// The number of buffers that a pool keeps at most.
pub const POOL_SIZE: usize = 32;

/// A pool of byte buffers. It keeps up to `POOL_SIZE` buffers that were
/// handed back, and hands them out again, oldest first.
pub struct Pool {
    queue: ArrayQueue<Vec<u8>>,
}

impl Pool {
    /// The buffers that wait in the pool, the one that leaves first at the
    /// front.
    pub closed spec fn view(&self) -> Seq<Seq<u8>> {
        queue_items(self.queue)
    }

    /// The pool holds no more buffers than `POOL_SIZE`.
    pub closed spec fn wf(&self) -> bool {
        &&& queue_limit(self.queue) == POOL_SIZE
        &&& queue_items(self.queue).len() <= POOL_SIZE
    }

    /// A pool in order holds no more than `POOL_SIZE` buffers, whatever was
    /// handed back to it.
    pub proof fn lemma_bounded(&self)
        requires
            self.wf(),
        ensures
            self@.len() <= POOL_SIZE,
    {
    }

    /// A pool with no buffer in it.
    pub fn new() -> (pool: Pool)
        ensures
            pool.wf(),
            pool@.len() == 0,
    {
        Pool { queue: queue_new(POOL_SIZE) }
    }

    /// An empty buffer: the oldest of the pool, cleared, or a new one where
    /// the pool is empty.
    pub fn get(&mut self) -> (buf: Vec<u8>)
        requires
            old(self).wf(),
        ensures
            final(self).wf(),
            buf@.len() == 0,
            final(self)@ == if old(self)@.len() > 0 {
                old(self)@.skip(1)
            } else {
                old(self)@
            },
    {
        match queue_pop(&mut self.queue) {
            Some(mut buf) => {
                buf.clear();
                buf
            },
            None => Vec::new(),
        }
    }

    /// What `push` leaves in a pool that held `before`, for a buffer with
    /// the bytes `buf` and room for `capacity` bytes: the buffer joins the
    /// pool if it has room at all and the pool is not full.
    pub open spec fn after_push(before: Seq<Seq<u8>>, buf: Seq<u8>, capacity: int) -> Seq<Seq<u8>> {
        if capacity > 0 && before.len() < POOL_SIZE {
            before.push(buf)
        } else {
            before
        }
    }

    /// Hands a buffer back. The pool keeps it if it has room for bytes and
    /// the pool is not full, and drops it otherwise. A buffer that holds
    /// bytes has room for them, so a pool that is not full keeps it. How much
    /// room an empty buffer has is the allocator's business: of such a buffer
    /// this says that the pool took it or stayed as it was, and `push_sized`
    /// says which.
    pub fn push(&mut self, buf: Vec<u8>)
        requires
            old(self).wf(),
        ensures
            final(self).wf(),
            Pool::push_leaves(old(self)@, buf@, final(self)@),
    {
        let capacity = buffer_capacity(&buf);
        self.push_sized(buf, capacity)
    }

    /// Hands back a buffer that has room for `capacity` bytes.
    pub fn push_sized(&mut self, buf: Vec<u8>, capacity: usize)
        requires
            old(self).wf(),
        ensures
            final(self).wf(),
            final(self)@ == Pool::after_push(old(self)@, buf@, capacity as int),
    {
        if capacity > 0 {
            let _ = queue_push(&mut self.queue, buf);
        }
    }

    /// Whether `after` is what `push` may leave in a pool that held `before`,
    /// for a buffer with the bytes `buf`. A full pool stays as it was. A pool
    /// that is not full takes a buffer that holds bytes. It takes or drops a
    /// buffer that holds none, by the room that the buffer has.
    pub open spec fn push_leaves(before: Seq<Seq<u8>>, buf: Seq<u8>, after: Seq<Seq<u8>>) -> bool {
        if before.len() >= POOL_SIZE {
            after == before
        } else if buf.len() > 0 {
            after == before.push(buf)
        } else {
            after == before || after == before.push(buf)
        }
    }
}

} // verus!
