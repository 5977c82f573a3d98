//! First-in, first-out rules of the pending requests, on a queue that the
//! caller holds alone.

use crate::error::AuthorizationError;
use crate::values::Request;
use std::collections::VecDeque;
use vstd::prelude::*;

verus! {

/// The encodings of the requests of `items`, in the same order.
pub open spec fn encodings(items: Seq<Request>) -> Seq<Seq<u8>> {
    items.map_values(|r: Request| r@)
}

/// What `peek_front` and `take_front` hand out of a queue with the encodings `pending`.
pub open spec fn front_of(pending: Seq<Seq<u8>>) -> Result<Seq<u8>, AuthorizationError> {
    if pending.len() > 0 {
        Ok(pending[0])
    } else {
        Err(AuthorizationError::EmptyQueue)
    }
}

/// What is left of `pending` once its front has been taken.
pub open spec fn without_front(pending: Seq<Seq<u8>>) -> Seq<Seq<u8>> {
    if pending.len() > 0 {
        pending.drop_first()
    } else {
        pending
    }
}

/// What `request_at` hands out at position `index`.
pub open spec fn at_index(pending: Seq<Seq<u8>>, index: usize) -> Result<
    Seq<u8>,
    AuthorizationError,
> {
    if index < pending.len() {
        Ok(pending[index as int])
    } else {
        Err(AuthorizationError::IndexOutOfRange { index })
    }
}

/// The encoding that a result carries, or its error.
pub open spec fn encoded(res: Result<Request, AuthorizationError>) -> Result<
    Seq<u8>,
    AuthorizationError,
> {
    match res {
        Ok(r) => Ok(r@),
        Err(e) => Err(e),
    }
}

/// A queue that holds copies of `requests`, the first of them at the front.
pub fn from_batch(requests: &[Request]) -> (queue: VecDeque<Request>)
    ensures
        encodings(queue@) == encodings(requests@),
{
    let mut queue: VecDeque<Request> = VecDeque::new();
    let mut i: usize = 0;
    while i < requests.len()
        invariant
            i <= requests.len(),
            encodings(queue@) == encodings(requests@.take(i as int)),
        decreases requests.len() - i,
    {
        let ghost before = queue@;
        let copy = requests[i].clone();
        queue.push_back(copy);
        proof {
            let taken = requests@.take(i as int);
            assert(requests@.take(i + 1) =~= taken.push(requests@[i as int]));
            assert(encodings(taken.push(requests@[i as int])) =~= encodings(taken).push(
                requests@[i as int]@,
            ));
            assert(encodings(before.push(copy)) =~= encodings(before).push(copy@));
        }
        i = i + 1;
    }
    proof {
        assert(requests@.take(i as int) == requests@);
    }
    queue
}

/// A copy of the request at the front; the queue keeps it.
pub fn peek_front(queue: &VecDeque<Request>) -> (res: Result<Request, AuthorizationError>)
    ensures
        encoded(res) == front_of(encodings(queue@)),
{
    if queue.len() > 0 {
        Ok(queue[0].clone())
    } else {
        Err(AuthorizationError::EmptyQueue)
    }
}

/// Takes the request at the front out of the queue.
pub fn take_front(queue: &mut VecDeque<Request>) -> (res: Result<Request, AuthorizationError>)
    ensures
        encoded(res) == front_of(encodings(old(queue)@)),
        encodings(final(queue)@) == without_front(encodings(old(queue)@)),
        res is Ok ==> final(queue)@ == old(queue)@.drop_first(),
        res is Err ==> final(queue)@ == old(queue)@,
{
    match queue.pop_front() {
        Some(request) => Ok(request),
        None => Err(AuthorizationError::EmptyQueue),
    }
}

/// A copy of the request at position `index`, counted from the front.
pub fn request_at(queue: &VecDeque<Request>, index: usize) -> (res: Result<
    Request,
    AuthorizationError,
>)
    ensures
        encoded(res) == at_index(encodings(queue@), index),
{
    if index < queue.len() {
        Ok(queue[index].clone())
    } else {
        Err(AuthorizationError::IndexOutOfRange { index })
    }
}

/// The number of requests that the queue holds.
pub fn pending_count(queue: &VecDeque<Request>) -> (count: usize)
    ensures
        count == encodings(queue@).len(),
{
    queue.len()
}

/// Whether the queue holds no request.
pub fn none_pending(queue: &VecDeque<Request>) -> (none: bool)
    ensures
        none <==> encodings(queue@).len() == 0,
{
    queue.len() == 0
}

/// Puts `request` behind all the requests that the queue holds.
pub fn append(queue: &mut VecDeque<Request>, request: Request)
    ensures
        final(queue)@ == old(queue)@.push(request),
        encodings(final(queue)@) == encodings(old(queue)@).push(request@),
{
    queue.push_back(request);
}

/// A queue of its own that holds a copy of each request, in the same order.
pub fn snapshot(queue: &VecDeque<Request>) -> (copy: VecDeque<Request>)
    ensures
        encodings(copy@) == encodings(queue@),
{
    queue.clone()
}

} // verus!
