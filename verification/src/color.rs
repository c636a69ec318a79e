//! Colors for rendering collaborators.
use vstd::prelude::*;

verus! {

/// An rgba color.
///
/// The alpha channel goes from 0-100.
#[derive(Debug, Clone, Copy, PartialEq, Eq, PartialOrd, Ord, Structural)]
pub struct Rgba(pub u8, pub u8, pub u8, pub u8);

/// A color in some color space.
#[derive(Debug, Clone, Copy, PartialEq, Eq, PartialOrd, Ord)]
pub struct Color<C>(pub C);

impl<C> Color<C> {
    /// A color from its four rgba channels.
    pub fn rgba(r: u8, g: u8, b: u8, a: u8) -> (c: Color<Rgba>)
        ensures
            c == (Color(Rgba(r, g, b, a))),
    {
        Color(Rgba(r, g, b, a))
    }
}

} // verus!
