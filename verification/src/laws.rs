//! What holds of the queue and of the registry over several calls.

use crate::error::AuthorizationError;
use crate::queue::at_index;
use crate::queue::encodings;
use crate::queue::from_batch;
use crate::queue::front_of;
use crate::queue::snapshot;
use crate::queue::without_front;
use crate::registry::has_entry;
use crate::registry::lemma_with_entry_keeps_one_each;
use crate::registry::one_entry_each;
use crate::registry::place_of;
use crate::registry::with_entry;
use crate::values::Commitment;
use crate::values::Request;
use std::collections::VecDeque;
use vstd::prelude::*;

verus! {

/// The queue that `calls` successive calls of `take_front` leave of `pending`.
pub open spec fn after_takes(pending: Seq<Seq<u8>>, calls: nat) -> Seq<Seq<u8>>
    decreases calls,
{
    if calls == 0 {
        pending
    } else {
        after_takes(without_front(pending), (calls - 1) as nat)
    }
}

/// What the call of `take_front` hands out that comes after `earlier` such calls.
pub open spec fn nth_take(pending: Seq<Seq<u8>>, earlier: nat) -> Result<
    Seq<u8>,
    AuthorizationError,
> {
    front_of(after_takes(pending, earlier))
}

/// Taking from the front `calls` times removes the first `calls` requests,
/// or all of them where the queue holds fewer.
pub proof fn lemma_after_takes(pending: Seq<Seq<u8>>, calls: nat)
    ensures
        calls <= pending.len() ==> after_takes(pending, calls) == pending.skip(calls as int),
        calls >= pending.len() ==> after_takes(pending, calls) == Seq::<Seq<u8>>::empty(),
    decreases calls,
{
    if calls == 0 {
        assert(pending.skip(0) =~= pending);
        if pending.len() == 0 {
            assert(pending =~= Seq::<Seq<u8>>::empty());
        }
    } else {
        lemma_after_takes(without_front(pending), (calls - 1) as nat);
        if pending.len() > 0 {
            if calls <= pending.len() {
                assert(pending.drop_first().skip(calls - 1) =~= pending.skip(calls as int));
            }
        } else {
            assert(pending =~= Seq::<Seq<u8>>::empty());
        }
    }
}

/// A queue made from a batch lists that batch: what `snapshot` returns of
/// the queue that `from_batch` made holds the requests of the batch, in
/// their order.
pub proof fn law_fresh_queue_lists_its_batch(
    batch: &[Request],
    queue: VecDeque<Request>,
    listing: VecDeque<Request>,
)
    requires
        call_ensures(from_batch, (batch,), queue),
        call_ensures(snapshot, (&queue,), listing),
    ensures
        encodings(listing@) == encodings(batch@),
        listing@.len() == batch@.len(),
        forall|i: int| 0 <= i < batch@.len() ==> (#[trigger] listing@[i])@ == batch@[i]@,
{
    assert(encodings(listing@).len() == encodings(batch@).len());
    assert forall|i: int| 0 <= i < batch@.len() implies (#[trigger] listing@[i])@ == batch@[i]@ by {
        assert(encodings(listing@)[i] == encodings(batch@)[i]);
    }
}

/// As many takes as the queue holds requests hand them out from the front
/// to the back and leave the queue empty; the take after them fails with
/// `EmptyQueue`.
pub proof fn law_takes_drain_in_order(pending: Seq<Seq<u8>>)
    ensures
        forall|i: nat| i < pending.len() ==> #[trigger] nth_take(pending, i) == Ok::<
            Seq<u8>,
            AuthorizationError,
        >(pending[i as int]),
        after_takes(pending, pending.len()) == Seq::<Seq<u8>>::empty(),
        nth_take(pending, pending.len()) == Err::<Seq<u8>, AuthorizationError>(
            AuthorizationError::EmptyQueue,
        ),
{
    assert forall|i: nat| i < pending.len() implies #[trigger] nth_take(pending, i) == Ok::<
        Seq<u8>,
        AuthorizationError,
    >(pending[i as int]) by {
        lemma_after_takes(pending, i);
    }
    lemma_after_takes(pending, pending.len());
}

/// The request at a position that the queue holds is the one that the take
/// after `index` earlier takes hands out.
pub proof fn law_get_is_a_later_take(pending: Seq<Seq<u8>>, index: usize)
    requires
        index < pending.len(),
    ensures
        at_index(pending, index) == nth_take(pending, index as nat),
{
    lemma_after_takes(pending, index as nat);
}

/// Two state paths registered one after the other for one commitment leave
/// one entry for it, which holds the second; the first registration decides
/// the number of entries and the place.
pub proof fn law_second_path_replaces_first(
    listed: Seq<(Commitment, Seq<u8>)>,
    commitment: Commitment,
    first: Seq<u8>,
    second: Seq<u8>,
)
    requires
        one_entry_each(listed),
    ensures
        ({
            let once = with_entry(listed, commitment, first);
            let twice = with_entry(once, commitment, second);
            &&& twice.len() == once.len()
            &&& twice == with_entry(listed, commitment, second)
            &&& exists|i: int|
                {
                    &&& 0 <= i < twice.len()
                    &&& #[trigger] twice[i] == (commitment, second)
                    &&& forall|j: int|
                        0 <= j < twice.len() && (#[trigger] twice[j]).0 == commitment ==> j == i
                }
        }),
{
    let once = with_entry(listed, commitment, first);
    let twice = with_entry(once, commitment, second);
    lemma_with_entry_keeps_one_each(listed, commitment, first);
    lemma_with_entry_keeps_one_each(once, commitment, second);
    let at = place_of(once, commitment);
    assert(twice[at] == (commitment, second));
    if has_entry(listed, commitment) {
        let before = place_of(listed, commitment);
        assert(once[before].0 == commitment);
        assert(at == before);
        assert(twice =~= with_entry(listed, commitment, second));
    } else {
        assert(once[listed.len() as int].0 == commitment);
        assert(at == listed.len());
        assert(twice =~= with_entry(listed, commitment, second));
    }
}

} // verus!
