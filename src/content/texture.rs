
use vstd::prelude::*;

use crate::content::Loadable;

verus! {

/// A texture placeholder; loading it always succeeds.
#[derive(Debug)]
pub struct Texture;

impl Loadable for Texture {
    open spec fn loaded(r: Result<Self, ()>) -> bool {
        r is Ok
    }

    fn load(_path: &str) -> (r: Result<Self, ()>) {
        Ok(Texture)
    }
}

} // verus!
