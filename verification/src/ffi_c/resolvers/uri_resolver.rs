use vstd::prelude::*;

verus! {

/// The tag of a resolver passed through the C interface.
#[derive(Clone, Copy, Debug, PartialEq, Eq, Structural)]
pub enum SafeUriResolversType {
    Static,
    Recursive,
}

} // verus!
