//! Scale factors that convert lengths from one unit to another.

use core::marker::PhantomData;

use vstd::prelude::*;

verus! {

/// A scale factor from the unit `Src` to the unit `Dst`.
#[derive(Copy, PartialEq, Eq, Debug)]
pub struct ScaleFactor<T, Src, Dst>(pub T, pub PhantomData<(Src, Dst)>);

impl<T: Copy, Src, Dst> Clone for ScaleFactor<T, Src, Dst> {
    fn clone(&self) -> (r: Self)
        ensures
            r == *self,
    {
        ScaleFactor(self.0, PhantomData)
    }
}

impl<T, Src, Dst> ScaleFactor<T, Src, Dst> {
    /// Creates the scale factor `x`.
    pub fn new(x: T) -> (r: Self)
        ensures
            r.0 == x,
    {
        ScaleFactor(x, PhantomData)
    }
}

impl<T: Copy, Src, Dst> ScaleFactor<T, Src, Dst> {
    /// The factor.
    pub fn get(&self) -> (r: T)
        ensures
            r == self.0,
    {
        self.0
    }
}

} // verus!
