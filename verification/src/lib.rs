//! A constraint-based layout engine.
//!
//! A tree of layout nodes, each annotated with a [`BoxSizing`] policy per
//! axis, is resolved to a concrete size for every node under a viewport
//! supplied by the caller. [`BoxConstraints`] carry the min and max sizing
//! a node is allowed to take; they are set by the parent and respected by
//! the node when the final size is computed.
use vstd::prelude::*;

pub mod block;
pub mod color;
pub mod element;
pub mod empty;
pub mod horizontal;
pub mod id;
pub mod laws;
pub mod model;
pub mod node;
pub mod position;
pub mod size;
pub mod widget;

pub use block::BlockLayout;
pub use color::{Color, Rgba};
pub use element::Element;
pub use empty::EmptyLayout;
pub use horizontal::HorizontalLayout;
pub use node::LayoutNode;
pub use id::{GlobalId, IdAllocator};
pub use position::Position;
pub use size::Size;
pub use widget::{WidgetId, WidgetState};

use crate::model::{
    lemma_after_max_ignores_own_max, lemma_after_min_with_max, ConstraintsModel, PaddingModel,
    SizingModel,
};

verus! {

/// Performs one full, deterministic layout pass over the whole tree under
/// the given viewport.
///
/// The root's max constraints are seeded from the viewport first, since
/// the root has no parent to set them: a fixed root takes its declared
/// measure, any other root the viewport's measure. The min-constraint
/// pass then runs bottom up before the max-constraint pass runs top down,
/// so that a fitting child's minimum is already solved when the max pass
/// reads it; the update-size pass resolves every node's size last. After
/// the call every node's size is authoritative; positions are left to the
/// caller.
pub fn solve_layout(layout: &mut node::LayoutNode, max_size: size::Size<u64>)
    ensures
        final(layout)@ == old(layout)@.laid_out(max_size@),
{
    let ghost t = old(layout)@;
    let ghost seed_w = t.seed_w(max_size@);
    let ghost seed_h = t.seed_h(max_size@);

    // Solve the max constraints for the root layout from the viewport.
    match layout.intrinsic_width() {
        BoxSizing::Fit | BoxSizing::Flex(_) => {
            layout.set_max_width(max_size.width);
        },
        BoxSizing::Fixed(width) => {
            layout.set_max_width(width);
        },
    }

    match layout.intrinsic_height() {
        BoxSizing::Fit | BoxSizing::Flex(_) => {
            layout.set_max_height(max_size.height);
        },
        BoxSizing::Fixed(height) => {
            layout.set_max_height(height);
        },
    }

    proof {
        assert(layout@ == t.with_max_width(seed_w).with_max_height(seed_h));
        lemma_after_min_with_max(t, seed_w, seed_h);
    }

    layout.solve_min_constraints();

    proof {
        assert(layout@ == t.after_min().with_max_width(seed_w).with_max_height(seed_h));
        assert(layout@.m_constraints().max_width == seed_w);
        assert(layout@.m_constraints().max_height == seed_h);
        lemma_after_max_ignores_own_max(t.after_min(), seed_w, seed_h, seed_w, seed_h);
    }

    layout.solve_max_constraints();
    layout.update_size();
}

/// Per-side inset a container applies between its own constraints and the
/// space it offers its child.
#[derive(Debug, Clone, Copy, PartialEq, Eq, Structural)]
pub struct Padding {
    pub left: u32,
    pub right: u32,
    pub top: u32,
    pub bottom: u32,
}

impl Padding {
    pub fn new(left: u32, right: u32, top: u32, bottom: u32) -> (r: Self)
        ensures
            r == (Padding { left, right, top, bottom }),
    {
        Self { left, right, top, bottom }
    }

    /// Equal insets on both horizontal sides and on both vertical sides.
    pub fn sides(x: u32, y: u32) -> (r: Self)
        ensures
            r == (Padding { left: x, right: x, top: y, bottom: y }),
    {
        Self { left: x, right: x, top: y, bottom: y }
    }
}

impl View for Padding {
    type V = PaddingModel;

    open spec fn view(&self) -> PaddingModel {
        PaddingModel {
            left: self.left as int,
            right: self.right as int,
            top: self.top as int,
            bottom: self.bottom as int,
        }
    }
}

impl Default for Padding {
    fn default() -> (r: Self)
        ensures
            r == (Padding { left: 0u32, right: 0u32, top: 0u32, bottom: 0u32 }),
    {
        Self { left: 0, right: 0, top: 0, bottom: 0 }
    }
}

/// The min and max bounding box a parent imposes on a node for one layout
/// pass.
#[derive(Debug, Clone, Copy, PartialEq, Eq, Structural)]
pub struct BoxConstraints {
    pub max_width: u64,
    pub max_height: u64,
    pub min_height: u64,
    pub min_width: u64,
}

impl BoxConstraints {
    pub fn new() -> (r: Self)
        ensures
            r == (BoxConstraints {
                max_width: 0u64,
                max_height: 0u64,
                min_height: 0u64,
                min_width: 0u64,
            }),
    {
        Self { max_width: 0, max_height: 0, min_height: 0, min_width: 0 }
    }
}

impl View for BoxConstraints {
    type V = ConstraintsModel;

    open spec fn view(&self) -> ConstraintsModel {
        ConstraintsModel {
            max_width: self.max_width as int,
            max_height: self.max_height as int,
            min_height: self.min_height as int,
            min_width: self.min_width as int,
        }
    }
}

impl Default for BoxConstraints {
    fn default() -> (r: Self)
        ensures
            r == (BoxConstraints {
                max_width: 0u64,
                max_height: 0u64,
                min_height: 0u64,
                min_width: 0u64,
            }),
    {
        Self { max_width: 0, max_height: 0, min_height: 0, min_width: 0 }
    }
}

/// Per-axis declaration of how a node sizes itself: an exact value, a share
/// of the available space, or shrink to the content's minimum.
#[derive(Debug, Clone, Copy, PartialEq, Eq, Structural)]
pub enum BoxSizing {
    /// Grow to a weighted share of the distributable space.
    Flex(u8),
    /// Shrink to the content's minimum size.
    Fit,
    /// Take exactly the given measure.
    Fixed(u64),
}

impl View for BoxSizing {
    type V = SizingModel;

    open spec fn view(&self) -> SizingModel {
        match *self {
            BoxSizing::Flex(f) => SizingModel::Flex(f as int),
            BoxSizing::Fit => SizingModel::Fit,
            BoxSizing::Fixed(v) => SizingModel::Fixed(v as int),
        }
    }
}

impl Default for BoxSizing {
    fn default() -> (r: Self)
        ensures
            r == BoxSizing::Fit,
    {
        BoxSizing::Fit
    }
}

/// How children are distributed along a container's main axis.
pub enum MainAxisAlignment {
    Start,
    Center,
    End,
    SpaceEvenly,
    SpaceBetween,
}

/// How children are aligned across a container's main axis.
pub enum CrossAxisAlignment {
    Start,
    Center,
    End,
}

} // verus!
