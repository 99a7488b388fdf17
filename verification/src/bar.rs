//! Markers of the health and energy bars drawn over characters.
use std::marker::PhantomData;
use vstd::prelude::*;

verus! {

/// Tags the node that positions the bar of the quantity `T`.
pub struct BarMarker<T> {
    _marker: PhantomData<T>,
}

/// Tags the foreground of the bar of the quantity `T`, which is scaled to
/// show how full the quantity is.
pub struct BarChildMarker<T> {
    _marker: PhantomData<T>,
}

impl<T> BarMarker<T> {
    /// The marker; it carries no data.
    pub closed spec fn marker() -> Self {
        BarMarker { _marker: PhantomData }
    }
}

impl<T> BarChildMarker<T> {
    /// The marker; it carries no data.
    pub closed spec fn marker() -> Self {
        BarChildMarker { _marker: PhantomData }
    }
}

impl<T> Default for BarMarker<T> {
    fn default() -> (m: Self)
        ensures
            m == Self::marker(),
    {
        BarMarker { _marker: PhantomData }
    }
}

impl<T> Default for BarChildMarker<T> {
    fn default() -> (m: Self)
        ensures
            m == Self::marker(),
    {
        BarChildMarker { _marker: PhantomData }
    }
}

} // verus!
