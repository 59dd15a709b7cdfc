
use vstd::prelude::*;

verus! {

/// A texture slot; texture data is not read yet, so loading always succeeds.
#[derive(Debug)]
pub struct Texture;

impl Texture {
    pub fn _load(_path: &str) -> (r: Result<Self, ()>)
        ensures
            r is Ok,
    {
        Ok(Texture)
    }
}

} // verus!
