//! The use case that updates a user's voice settings.

use vstd::prelude::*;

verus! {

/// Stores a user's voice settings (the store is shared, such as an `Arc`).
pub struct SetVoiceUseCase<S> {
    store: S,
}

impl<S> SetVoiceUseCase<S> {
    /// The store the settings go to.
    pub closed spec fn store_spec(&self) -> S {
        self.store
    }

    /// A use case over `store`.
    pub fn new(store: S) -> (r: Self)
        ensures
            r.store_spec() == store,
    {
        SetVoiceUseCase { store }
    }

    /// The store the settings go to.
    pub fn store(&self) -> (r: &S)
        ensures
            *r == self.store_spec(),
    {
        &self.store
    }
}

} // verus!
