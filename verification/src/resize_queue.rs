//! The queue of deferred resize requests.
//!
//! Requests are pushed from user-interface callbacks and drained once per
//! frame; only the most recent one is honoured, so that a burst of requests
//! costs a single resize.

use vstd::prelude::*;

verus! {

/// The request that draining `queue` honours: its most recent entry, if any.
pub open spec fn spec_latest_resize(queue: Seq<(u32, u32)>) -> Option<(u32, u32)> {
    if queue.len() == 0 {
        None
    } else {
        Some(queue.last())
    }
}

/// The queue of a window just opened: nothing pending.
pub fn new_resize_queue() -> (queue: Vec<(u32, u32)>)
    ensures
        queue@ == Seq::<(u32, u32)>::empty(),
{
    Vec::new()
}

/// Queue a resize request (logical `width` x `height`) to be processed later.
pub fn queue_resize(queue: &mut Vec<(u32, u32)>, width: u32, height: u32)
    ensures
        final(queue)@ == old(queue)@.push((width, height)),
        final(queue)@.len() == old(queue)@.len() + 1,
        final(queue)@[old(queue)@.len() as int] == (width, height),
        forall|i: int| 0 <= i < old(queue)@.len() ==> final(queue)@[i] == old(queue)@[i],
{
    queue.push((width, height));
}

/// Drain the queue: hand back the most recent request and drop all the
/// older ones.
pub fn take_latest_resize(queue: &mut Vec<(u32, u32)>) -> (latest: Option<(u32, u32)>)
    ensures
        latest == spec_latest_resize(old(queue)@),
        old(queue)@.len() == 0 ==> latest is None,
        old(queue)@.len() > 0 ==> latest == Some(old(queue)@[old(queue)@.len() - 1]),
        final(queue)@.len() == 0,
        final(queue)@ == Seq::<(u32, u32)>::empty(),
{
    match queue.pop() {
        Some(size) => {
            queue.clear();
            Some(size)
        },
        None => None,
    }
}

/// Queueing a request and then draining the queue honours exactly that
/// request, whatever was queued before it.
pub proof fn lemma_latest_request_wins(queue: Seq<(u32, u32)>, width: u32, height: u32)
    ensures
        spec_latest_resize(queue.push((width, height))) == Some((width, height)),
{
}

/// Draining an empty queue honours nothing.
pub proof fn lemma_empty_queue_honours_nothing()
    ensures
        spec_latest_resize(Seq::<(u32, u32)>::empty()) == None::<(u32, u32)>,
{
}

} // verus!
