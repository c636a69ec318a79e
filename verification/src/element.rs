//! The low-level render element: color, size and position, with a
//! horizontal spacing layout over its children.
use vstd::prelude::*;

use crate::color::{Color, Rgba};
use crate::model::cap;
use crate::position::Position;
use crate::size::Size;

verus! {

/// A low level object holding the color, size and position information a
/// renderer consumes.
#[derive(Debug)]
pub struct Element {
    pub padding: u32,
    pub spacing: u64,
    pub size: Size<u64>,
    pub position: Position<u64>,
    pub color: Color<Rgba>,
    pub children: Vec<Element>,
}

/// Where the spacing layout puts the `i`-th child: the first child keeps
/// its x position, and each further child starts where the one before it
/// ended, plus the parent's spacing; the running measure saturates at the
/// measure limit.
pub open spec fn spaced_x(s: Seq<Element>, spacing: int, i: int) -> int
    decreases i,
{
    if i <= 0 {
        s[0].position.x as int
    } else {
        cap(spaced_x(s, spacing, i - 1) + s[i - 1].size.width + spacing)
    }
}

/// One child of the spacing layout's result: the same element moved to
/// its spaced x position.
pub open spec fn spaced_child(s: Seq<Element>, spacing: int, i: int) -> Element {
    Element {
        padding: s[i].padding,
        spacing: s[i].spacing,
        size: s[i].size,
        position: Position { x: spaced_x(s, spacing, i) as u64, y: s[i].position.y },
        color: s[i].color,
        children: s[i].children,
    }
}

impl Element {
    /// An element with no measures, no color and no children.
    pub fn new() -> (r: Self)
        ensures
            r.padding == 0u32,
            r.spacing == 0u64,
            r.size == (Size { width: 0u64, height: 0u64 }),
            r.position == (Position { x: 0u64, y: 0u64 }),
            r.color == (Color(Rgba(0u8, 0u8, 0u8, 0u8))),
            r.children@ == Seq::<Element>::empty(),
    {
        Self {
            padding: 0,
            spacing: 0,
            size: Size::new(0, 0),
            position: Position::new(0, 0),
            color: Color::<Rgba>::rgba(0, 0, 0, 0),
            children: Vec::new(),
        }
    }

    /// Lays the element's children out.
    pub fn layout(&mut self)
        ensures
            final(self).children@.len() == old(self).children@.len(),
            forall|i: int| 0 <= i < old(self).children@.len()
                ==> final(self).children@[i]
                    == spaced_child(old(self).children@, old(self).spacing as int, i),
            final(self).padding == old(self).padding,
            final(self).spacing == old(self).spacing,
            final(self).size == old(self).size,
            final(self).position == old(self).position,
            final(self).color == old(self).color,
    {
        self.spacing();
    }

    /// Applies the spacing to the children, left to right: each child is
    /// moved to where the one before it ended plus the parent's spacing;
    /// the first child stays where it is.
    #[verifier::loop_isolation(false)]
    fn spacing(&mut self)
        ensures
            final(self).children@.len() == old(self).children@.len(),
            forall|i: int| 0 <= i < old(self).children@.len()
                ==> final(self).children@[i]
                    == spaced_child(old(self).children@, old(self).spacing as int, i),
            final(self).padding == old(self).padding,
            final(self).spacing == old(self).spacing,
            final(self).size == old(self).size,
            final(self).position == old(self).position,
            final(self).color == old(self).color,
    {
        if self.children.len() == 0 {
            return;
        }
        let ghost s = old(self).children@;
        let ghost sp = old(self).spacing as int;

        let spacing = self.spacing;
        let mut x = self.children[0].position.x;
        let n = self.children.len();
        let mut i: usize = 0;
        while i < n
            invariant
                i <= n,
                n == s.len(),
                self.children@.len() == n,
                x as int == spaced_x(s, sp, i as int),
                forall|j: int| 0 <= j < i ==> self.children@[j] == spaced_child(s, sp, j),
                forall|j: int| i <= j < n ==> self.children@[j] == s[j],
                self.padding == old(self).padding,
                self.spacing == old(self).spacing,
                self.size == old(self).size,
                self.position == old(self).position,
                self.color == old(self).color,
            decreases n - i,
        {
            self.children[i].position.x = x;
            proof {
                assert(self.children@[i as int] == spaced_child(s, sp, i as int));
            }
            x = x.saturating_add(self.children[i].size.width);
            x = x.saturating_add(spacing);
            proof {
                assert(cap(cap(spaced_x(s, sp, i as int) + s[i as int].size.width) + sp)
                    == cap(spaced_x(s, sp, i as int) + s[i as int].size.width + sp));
            }
            i = i + 1;
        }
    }
}

} // verus!
