use vstd::prelude::*;
use std::sync::Arc;

verus! {

/// Loads wrappers through the client it holds.
pub struct FFILoader<C> {
    inner_client: Arc<C>,
}

impl<C> FFILoader<C> {
    /// The client the loader goes through.
    pub closed spec fn spec_client(&self) -> Arc<C> {
        self.inner_client
    }

    /// A loader that goes through `client`.
    pub fn new(client: Arc<C>) -> (res: FFILoader<C>)
        ensures
            res.spec_client() == client,
    {
        FFILoader { inner_client: client }
    }
}

} // verus!
