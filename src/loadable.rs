use vstd::prelude::*;

use crate::result::Result;

verus! {

/// Content decoded from the bytes of a file.
pub trait Loadable: Sized {
    /// Whether `r` is what loading from `bytes` gives.
    spec fn loaded(bytes: Seq<u8>, r: Result<Self>) -> bool;

    fn load(bytes: &[u8]) -> (r: Result<Self>)
        ensures
            Self::loaded(bytes@, r),
    ;
}

} // verus!
