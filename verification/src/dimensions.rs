//! Things that have a width and a height.
use vstd::prelude::*;

verus! {

/// An object with a width and a height. Typically these are rectangular,
/// though nothing requires it.
pub trait Dimensions2<T> {
    fn width(&self) -> T;

    fn height(&self) -> T;
}

/// An immutable rectangle.
#[derive(Clone, Copy)]
pub struct BasicDimensions2<T> {
    width: T,
    height: T,
}

impl<T> View for BasicDimensions2<T> {
    type V = (T, T);

    /// The rectangle as the pair of its width and its height.
    closed spec fn view(&self) -> (T, T) {
        (self.width, self.height)
    }
}

impl<T: Copy> BasicDimensions2<T> {
    /// The rectangle of the given width and height.
    pub fn new(width: T, height: T) -> (d: BasicDimensions2<T>)
        ensures
            d@ == (width, height),
    {
        BasicDimensions2 { width: width, height: height }
    }
}

impl<T: Copy> Dimensions2<T> for BasicDimensions2<T> {
    fn width(&self) -> (w: T)
        ensures
            w == self@.0,
    {
        self.width
    }

    fn height(&self) -> (h: T)
        ensures
            h == self@.1,
    {
        self.height
    }
}

} // verus!
