use vstd::prelude::*;

use crate::song::Song;
use limited_queue::LimitedQueue;

verus! {

/// Declares `limited_queue::LimitedQueue` so that it can stand in fields
/// and signatures.  Values of it are opaque to the verifier; everything the
/// library knows about one is said through `queue_seq` and `queue_cap` by
/// the trusted wrappers below.
#[verifier::external_type_specification]
#[verifier::external_body]
#[verifier::reject_recursive_types(T)]
pub struct ExLimitedQueue<T>(LimitedQueue<T>);

/// The songs a queue holds, oldest first.
pub uninterp spec fn queue_seq(q: LimitedQueue<Song>) -> Seq<Song>;

/// The fixed capacity the queue was created with.
pub uninterp spec fn queue_cap(q: LimitedQueue<Song>) -> nat;

/// Relies on `LimitedQueue::with_capacity`: builds an empty ring buffer of
/// exactly `cap` slots.  It panics on `cap == 0`, so that input is
/// required away.
#[verifier::external_body]
pub(crate) fn queue_with_capacity(cap: usize) -> (q: LimitedQueue<Song>)
    requires
        cap > 0,
    ensures
        queue_seq(q) == Seq::<Song>::empty(),
        queue_cap(q) == cap as nat,
{
    LimitedQueue::with_capacity(cap)
}

/// Relies on `LimitedQueue::push`: appends at the rear; when the queue is
/// already full it overwrites the slot holding the oldest entry, advances
/// the front, and hands that oldest entry back.
#[verifier::external_body]
pub(crate) fn queue_push(q: &mut LimitedQueue<Song>, song: Song) -> (evicted: Option<Song>)
    requires
        queue_cap(*old(q)) > 0,
    ensures
        queue_cap(*final(q)) == queue_cap(*old(q)),
        queue_seq(*old(q)).len() < queue_cap(*old(q)) ==> queue_seq(*final(q)) == queue_seq(
            *old(q),
        ).push(song),
        queue_seq(*old(q)).len() < queue_cap(*old(q)) ==> evicted is None,
        queue_seq(*old(q)).len() >= queue_cap(*old(q)) ==> queue_seq(*final(q)) == queue_seq(
            *old(q),
        ).drop_first().push(song),
        queue_seq(*old(q)).len() >= queue_cap(*old(q)) ==> evicted == Some(
            queue_seq(*old(q))[0],
        ),
{
    q.push(song)
}

/// Relies on `LimitedQueue::pop`: removes and returns the oldest entry, or
/// returns `None` and changes nothing when the queue is empty.
#[verifier::external_body]
pub(crate) fn queue_pop(q: &mut LimitedQueue<Song>) -> (r: Option<Song>)
    ensures
        queue_cap(*final(q)) == queue_cap(*old(q)),
        queue_seq(*old(q)).len() == 0 ==> r is None,
        queue_seq(*old(q)).len() == 0 ==> queue_seq(*final(q)) == queue_seq(*old(q)),
        queue_seq(*old(q)).len() > 0 ==> r == Some(queue_seq(*old(q))[0]),
        queue_seq(*old(q)).len() > 0 ==> queue_seq(*final(q)) == queue_seq(*old(q)).drop_first(),
{
    q.pop()
}

/// Relies on `LimitedQueue::clear`: afterwards the queue holds nothing;
/// the capacity is untouched.
#[verifier::external_body]
pub(crate) fn queue_clear(q: &mut LimitedQueue<Song>)
    ensures
        queue_cap(*final(q)) == queue_cap(*old(q)),
        queue_seq(*final(q)) == Seq::<Song>::empty(),
{
    q.clear()
}

/// Relies on `LimitedQueue::iter`: yields the entries oldest first.  Each
/// entry is cloned; a clone of a `String` equals its original, so the
/// copied songs equal the stored ones.
#[verifier::external_body]
pub(crate) fn queue_to_vec(q: &LimitedQueue<Song>) -> (r: Vec<Song>)
    ensures
        r@ == queue_seq(*q),
{
    q.iter().map(Clone::clone).collect()
}

} // verus!
