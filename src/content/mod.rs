pub mod sound;
pub mod texture;

use std::rc::Rc;

use vstd::prelude::*;

verus! {

/// Content that can be read from a path.
pub trait Loadable: Sized {
    /// Whether `r` is an outcome `load` may have.
    spec fn loaded(r: Result<Self, ()>) -> bool;

    fn load(path: &str) -> (r: Result<Self, ()>)
        ensures
            Self::loaded(r),
    ;
}

/// Loaded content, shared by reference count.
#[derive(Clone, Debug)]
pub struct Content<T: Loadable>(pub Rc<T>);

impl<T: Loadable> Content<T> {
    /// Loads `T` and shares it; fails exactly when `T` fails to load.
    pub fn load(path: &str) -> (r: Result<Self, ()>)
        ensures
            match r {
                Ok(c) => T::loaded(Ok(*c.0)),
                Err(e) => T::loaded(Err(e)),
            },
    {
        match T::load(path) {
            Ok(content) => Ok(Content(Rc::new(content))),
            Err(e) => Err(e),
        }
    }
}

pub type Model = crate::model::Model;

pub type Sound = sound::Sound;

pub type Texture = Content<texture::Texture>;

} // verus!
