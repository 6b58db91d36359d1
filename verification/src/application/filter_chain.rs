//! The chain of message filters.

use vstd::prelude::*;

use crate::domain::message_filter::{IncomingMessage, MessageFilter};

verus! {

/// Evaluates several `MessageFilter`s in order.
pub struct MessageFilterChain<F> {
    filters: Vec<F>,
}

impl<F: MessageFilter> MessageFilterChain<F> {
    /// The filters, in order.
    pub closed spec fn filters(&self) -> Seq<F> {
        self.filters@
    }

    /// A chain of `filters`.
    pub fn new(filters: Vec<F>) -> (c: Self)
        ensures
            c.filters() == filters@,
    {
        MessageFilterChain { filters }
    }

    /// Whether the chain holds no filter.
    pub fn is_empty(&self) -> (r: bool)
        ensures
            r == (self.filters().len() == 0),
    {
        self.filters.len() == 0
    }

    /// Evaluates every filter: `false` (skip) as soon as one refuses.
    pub fn evaluate(&self, message: &IncomingMessage) -> (r: bool)
        ensures
            r == forall|i: int| 0 <= i < self.filters().len() ==> #[trigger] self.filters()[i].allows(
                *message,
            ),
    {
        let n = self.filters.len();
        for i in 0..n
            invariant
                n == self.filters@.len(),
                forall|j: int| 0 <= j < i ==> #[trigger] self.filters@[j].allows(*message),
        {
            if !self.filters[i].allow(message) {
                assert(!self.filters()[i as int].allows(*message));
                return false;
            }
        }
        true
    }
}

} // verus!

verus! {

/// A chain without filters lets every message through.
pub proof fn lemma_empty_chain_allows_all<F: MessageFilter>(filters: Seq<F>, message: IncomingMessage)
    requires
        filters.len() == 0,
    ensures
        forall|i: int| 0 <= i < filters.len() ==> #[trigger] filters[i].allows(message),
{
}

/// A chain lets a message through exactly when each of its filters does; one
/// refusing filter is enough to skip it.
pub proof fn lemma_one_refusal_skips<F: MessageFilter>(filters: Seq<F>, message: IncomingMessage, k: int)
    requires
        0 <= k < filters.len(),
        !filters[k].allows(message),
    ensures
        !(forall|i: int| 0 <= i < filters.len() ==> #[trigger] filters[i].allows(message)),
{
}

} // verus!
