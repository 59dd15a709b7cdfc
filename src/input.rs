use vstd::prelude::*;

verus! {

/// Input state handed to the application with each input event.
#[derive(Debug)]
pub struct Input;

impl Input {
    pub fn new() -> Self {
        Input
    }
}

} // verus!
