//! The width and height of any structure.
use vstd::prelude::*;

use crate::model::SizeModel;

verus! {

/// Represents the `width` and `height` of any structure.
#[derive(Debug, Clone, Copy, PartialEq, Eq, PartialOrd, Ord)]
pub struct Size<N> {
    pub width: N,
    pub height: N,
}

impl<N: Copy> Size<N> {
    pub fn new(width: N, height: N) -> (r: Self)
        ensures
            r == (Size { width, height }),
    {
        Self { width, height }
    }

    /// A square size: the same measure on both axes.
    pub fn unit(value: N) -> (r: Self)
        ensures
            r == (Size { width: value, height: value }),
    {
        Self::new(value, value)
    }
}

impl View for Size<u64> {
    type V = SizeModel;

    open spec fn view(&self) -> SizeModel {
        SizeModel { width: self.width as int, height: self.height as int }
    }
}

} // verus!
