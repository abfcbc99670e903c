//! The enumeration protocol: the same query is sent with index 0, 1, 2, ...
//! until the device refuses one. A refusal at index 0 means the query is not
//! supported (or, for formats, that there is nothing to list); a refusal
//! later means the list is complete.
use vstd::prelude::*;

use crate::control::ControlRequest;

verus! {

/// What one exchange with the device produced.
#[derive(Clone, Copy, Debug, PartialEq, Eq)]
pub enum Reply<T, E> {
    /// The device refused the request.
    Failed(E),
    /// The device answered, but the record does not decode to an item.
    Rejected(E),
    /// The device answered and the record decoded to this item.
    Decoded(T),
}

/// What a refusal at index 0 means.
#[derive(Clone, Copy, Debug, PartialEq, Eq, Structural)]
pub enum FirstFailure {
    /// The query is unsupported: the refusal is returned as the error.
    Propagate,
    /// Nothing to list: the enumeration succeeds with no items.
    Empty,
}

/// The device answered (whether or not the record decoded).
pub open spec fn answered<T, E>(r: Reply<T, E>) -> bool {
    !(r is Failed)
}

/// Every exchange in `replies` was answered by the device.
pub open spec fn all_answered<T, E>(replies: Seq<Reply<T, E>>) -> bool {
    forall|i: int| 0 <= i < replies.len() ==> answered(#[trigger] replies[i])
}

/// The decoded items of `replies`, in the order they came.
pub open spec fn decoded<T, E>(replies: Seq<Reply<T, E>>) -> Seq<T>
    decreases replies.len(),
{
    if replies.len() == 0 {
        Seq::empty()
    } else {
        let rest = decoded(replies.drop_last());
        match replies.last() {
            Reply::Decoded(t) => rest.push(t),
            _ => rest,
        }
    }
}

/// The positions in `replies` at which an item was decoded, in order.
pub open spec fn decoded_indices<T, E>(replies: Seq<Reply<T, E>>) -> Seq<int>
    decreases replies.len(),
{
    if replies.len() == 0 {
        Seq::empty()
    } else {
        let rest = decoded_indices(replies.drop_last());
        match replies.last() {
            Reply::Decoded(_) => rest.push(replies.len() - 1),
            _ => rest,
        }
    }
}

/// The number of answered records that decoded to an item.
pub open spec fn decoded_count<T, E>(replies: Seq<Reply<T, E>>) -> nat {
    replies.filter(|r: Reply<T, E>| r is Decoded).len()
}

/// Result of an enumeration whose requests at indices `0..answered.len()`
/// were answered with `answered`, and whose next request was refused with `e`.
pub open spec fn enumeration_result<T, E>(
    policy: FirstFailure,
    answered: Seq<Reply<T, E>>,
    e: E,
) -> Result<Seq<T>, E> {
    if answered.len() == 0 {
        match policy {
            FirstFailure::Propagate => Err(e),
            FirstFailure::Empty => Ok(Seq::empty()),
        }
    } else {
        Ok(decoded(answered))
    }
}

/// An enumeration in progress: the request to send next, and what the
/// answered requests so far have yielded.
pub struct Enumeration<T, E> {
    /// The record for the next exchange; its index is the next position.
    pub request: ControlRequest,
    pub policy: FirstFailure,
    pub items: Vec<T>,
    /// The replies received so far, one per index below `request.index`.
    pub history: Ghost<Seq<Reply<T, E>>>,
}

/// What to do after a reply.
pub enum Step<T, E> {
    /// Send the enumeration's next request.
    Continue(Enumeration<T, E>),
    /// The enumeration is over, with this result.
    Finished(Result<Vec<T>, E>),
}

impl<T, E> Step<T, E> {
    /// The step ends the enumeration with `res`.
    pub open spec fn finishes_with(&self, res: Result<Seq<T>, E>) -> bool {
        match self {
            Step::Finished(Ok(v)) => res == Ok::<Seq<T>, E>(v@),
            Step::Finished(Err(e)) => res == Err::<Seq<T>, E>(*e),
            Step::Continue(_) => false,
        }
    }
}

impl<T, E> Enumeration<T, E> {
    /// Every reply so far was answered, one per index, and the items are
    /// the decoded ones among them.
    pub open spec fn wf(&self) -> bool {
        &&& self.history@.len() == self.request.index
        &&& all_answered(self.history@)
        &&& self.items@ == decoded(self.history@)
    }

    /// A fresh enumeration of `seed`, starting at index 0.
    pub fn new(seed: ControlRequest, policy: FirstFailure) -> (r: Enumeration<T, E>)
        ensures
            r.wf(),
            r.request == (ControlRequest { index: 0, ..seed }),
            r.policy == policy,
            r.history@ == Seq::<Reply<T, E>>::empty(),
    {
        let r = Enumeration {
            request: seed.with_index(0),
            policy,
            items: Vec::new(),
            history: Ghost(Seq::empty()),
        };
        assert(r.items@ =~= decoded(r.history@));
        r
    }

    /// The record to send next.
    pub fn request(&self) -> (r: ControlRequest)
        ensures
            r == self.request,
    {
        self.request
    }

    /// Takes the reply to `self.request()` and says what comes next.
    ///
    /// A refusal ends the enumeration with `enumeration_result`. An answer
    /// moves on to the next index; an answer at the largest index a record
    /// can carry ends the enumeration with every decoded item.
    pub fn feed(self, reply: Reply<T, E>) -> (r: Step<T, E>)
        requires
            self.wf(),
        ensures
            match reply {
                Reply::Failed(e) => r.finishes_with(
                    enumeration_result(self.policy, self.history@, e),
                ),
                _ => {
                    let h = self.history@.push(reply);
                    if self.request.index == u32::MAX {
                        r.finishes_with(Ok(decoded(h)))
                    } else {
                        match r {
                            Step::Continue(n) => {
                                &&& n.wf()
                                &&& n.request == (ControlRequest {
                                    index: (self.request.index + 1) as u32,
                                    ..self.request
                                })
                                &&& n.policy == self.policy
                                &&& n.history@ == h
                            },
                            Step::Finished(_) => false,
                        }
                    }
                },
            },
    {
        let Enumeration { request, policy, mut items, history } = self;
        let ghost h = history@.push(reply);
        match reply {
            Reply::Failed(e) => {
                if request.index == 0 {
                    match policy {
                        FirstFailure::Propagate => Step::Finished(Err(e)),
                        FirstFailure::Empty => {
                            let v: Vec<T> = Vec::new();
                            assert(v@ =~= Seq::<T>::empty());
                            Step::Finished(Ok(v))
                        },
                    }
                } else {
                    Step::Finished(Ok(items))
                }
            },
            Reply::Rejected(_) => {
                assert(h.drop_last() =~= history@);
                assert(all_answered(h));
                if request.index == u32::MAX {
                    Step::Finished(Ok(items))
                } else {
                    let next = request.with_index(request.index + 1);
                    Step::Continue(Enumeration { request: next, policy, items, history: Ghost(h) })
                }
            },
            Reply::Decoded(t) => {
                assert(h.drop_last() =~= history@);
                assert(all_answered(h));
                items.push(t);
                if request.index == u32::MAX {
                    Step::Finished(Ok(items))
                } else {
                    let next = request.with_index(request.index + 1);
                    Step::Continue(Enumeration { request: next, policy, items, history: Ghost(h) })
                }
            },
        }
    }
}

/// One more reply adds its item, if it decoded, after those before it.
pub proof fn lemma_decoded_push<T, E>(replies: Seq<Reply<T, E>>, reply: Reply<T, E>)
    ensures
        decoded(replies.push(reply)) == match reply {
            Reply::Decoded(t) => decoded(replies).push(t),
            _ => decoded(replies),
        },
{
    assert(replies.push(reply).drop_last() =~= replies);
}

/// Items are listed in the order they were discovered, once each: the
/// positions they were decoded at strictly increase, and the item at each
/// place of the result is the one decoded at the matching position.
pub proof fn lemma_discovery_order<T, E>(replies: Seq<Reply<T, E>>)
    ensures
        decoded_indices(replies).len() == decoded(replies).len(),
        forall|j: int|
            0 <= j < decoded_indices(replies).len() ==> {
                let i = #[trigger] decoded_indices(replies)[j];
                &&& 0 <= i < replies.len()
                &&& replies[i] == Reply::<T, E>::Decoded(decoded(replies)[j])
            },
        forall|j: int, k: int|
            0 <= j < k < decoded_indices(replies).len() ==> #[trigger] decoded_indices(replies)[j]
                < #[trigger] decoded_indices(replies)[k],
    decreases replies.len(),
{
    if replies.len() > 0 {
        let rest = replies.drop_last();
        lemma_discovery_order(rest);
        assert forall|j: int|
            0 <= j < decoded_indices(rest).len() implies rest[decoded_indices(rest)[j]]
            == replies[decoded_indices(rest)[j]] by {}
    }
}

/// The result of a finished enumeration is ordered by discovery and holds
/// no item twice.
pub proof fn lemma_result_in_discovery_order<T, E>(
    policy: FirstFailure,
    answered: Seq<Reply<T, E>>,
    e: E,
    items: Seq<T>,
)
    requires
        enumeration_result(policy, answered, e) == Ok::<Seq<T>, E>(items),
    ensures
        decoded_indices(answered).len() == items.len(),
        forall|j: int|
            0 <= j < items.len() ==> {
                let i = #[trigger] decoded_indices(answered)[j];
                &&& 0 <= i < answered.len()
                &&& answered[i] == Reply::<T, E>::Decoded(items[j])
            },
        forall|j: int, k: int|
            0 <= j < k < items.len() ==> #[trigger] decoded_indices(answered)[j]
                < #[trigger] decoded_indices(answered)[k],
{
    lemma_discovery_order(answered);
    if answered.len() == 0 {
        assert(decoded_indices(answered) =~= Seq::<int>::empty());
    }
}

/// An unsupported query: when the very first request is refused and the
/// policy propagates, the refusal is the result, not an empty list.
pub proof fn lemma_first_refusal_propagates<T, E>(e: E)
    ensures
        enumeration_result(FirstFailure::Propagate, Seq::<Reply<T, E>>::empty(), e) == Err::<
            Seq<T>,
            E,
        >(e),
{
}

/// An empty list: when the very first request is refused and the policy is
/// `Empty`, the result is an empty list, not a failure.
pub proof fn lemma_first_refusal_lists_nothing<T, E>(e: E)
    ensures
        enumeration_result(FirstFailure::Empty, Seq::<Reply<T, E>>::empty(), e) == Ok::<
            Seq<T>,
            E,
        >(Seq::empty()),
{
}

/// The items decoded from `replies` number as many as the replies that
/// decoded, and never more than the replies.
pub proof fn lemma_decoded_len<T, E>(replies: Seq<Reply<T, E>>)
    ensures
        decoded(replies).len() == decoded_count(replies),
        decoded(replies).len() <= replies.len(),
    decreases replies.len(),
{
    reveal(Seq::filter);
    if replies.len() > 0 {
        lemma_decoded_len(replies.drop_last());
    }
}

/// When the requests at indices `0..k` are answered and the one at `k >= 1`
/// is refused, the enumeration succeeds with at most `k` items: exactly as
/// many as the answers that decoded, and `k` when all of them did.
pub proof fn lemma_refusal_after_answers<T, E>(
    policy: FirstFailure,
    answered: Seq<Reply<T, E>>,
    e: E,
)
    requires
        answered.len() >= 1,
        all_answered(answered),
    ensures
        enumeration_result(policy, answered, e) is Ok,
        enumeration_result(policy, answered, e)->Ok_0 == decoded(answered),
        decoded(answered).len() == decoded_count(answered),
        decoded(answered).len() <= answered.len(),
        (forall|i: int| 0 <= i < answered.len() ==> #[trigger] answered[i] is Decoded)
            ==> decoded(answered).len() == answered.len(),
{
    lemma_decoded_len(answered);
    if forall|i: int| 0 <= i < answered.len() ==> #[trigger] answered[i] is Decoded {
        lemma_all_decoded_len(answered);
    }
}

proof fn lemma_all_decoded_len<T, E>(replies: Seq<Reply<T, E>>)
    requires
        forall|i: int| 0 <= i < replies.len() ==> #[trigger] replies[i] is Decoded,
    ensures
        decoded(replies).len() == replies.len(),
    decreases replies.len(),
{
    if replies.len() > 0 {
        lemma_all_decoded_len(replies.drop_last());
    }
}

} // verus!
