use std::sync::Arc;

use vstd::prelude::*;

use crate::loadable::Loadable;
use crate::result::Result;

verus! {

/// The encoded bytes of a sound file, shared between every playback of it.
pub struct Sound(Arc<Vec<u8>>);

impl View for Sound {
    type V = Seq<u8>;

    closed spec fn view(&self) -> Seq<u8> {
        self.0@
    }
}

impl Sound {
    /// The encoded bytes, as read from the file.
    pub fn as_bytes(&self) -> (r: &[u8])
        ensures
            r@ == self@,
    {
        self.0.as_slice()
    }

    /// Another handle on the same bytes.
    pub fn share(&self) -> (r: Sound)
        ensures
            r@ == self@,
    {
        Sound(Arc::clone(&self.0))
    }
}

impl Loadable for Sound {
    /// A sound keeps the file's bytes as they are; decoding happens on playback.
    open spec fn loaded(bytes: Seq<u8>, r: Result<Self>) -> bool {
        r matches Ok(s) && s@ == bytes
    }

    fn load(bytes: &[u8]) -> (r: Result<Self>) {
        Ok(Sound(Arc::new(vstd::slice::slice_to_vec(bytes))))
    }
}

} // verus!
