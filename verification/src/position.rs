//! The x and y position of any structure.
use vstd::prelude::*;

use crate::model::PositionModel;

verus! {

/// Represents the `x` and `y` position of any structure.
#[derive(Debug, Clone, Copy, PartialEq, Eq, PartialOrd, Ord)]
pub struct Position<N> {
    pub x: N,
    pub y: N,
}

impl<N> Position<N> {
    pub fn new(x: N, y: N) -> (r: Self)
        ensures
            r == (Position { x, y }),
    {
        Self { x, y }
    }
}

impl View for Position<u64> {
    type V = PositionModel;

    open spec fn view(&self) -> PositionModel {
        PositionModel { x: self.x as int, y: self.y as int }
    }
}

} // verus!
