//! The single-child container.
use vstd::prelude::*;

use crate::model::{
    lemma_after_max_ignores_own_max, lemma_height_with_max_height, lemma_height_with_max_width,
    NodeModel,
};
use crate::node::LayoutNode;
use crate::position::Position;
use crate::size::Size;
use crate::{BoxConstraints, BoxSizing, Padding};
use crate::id::GlobalId;

verus! {

/// A container that wraps exactly one child, optionally applies padding,
/// forwards adjusted constraints down and aggregated minimums up.
#[derive(Debug)]
pub struct BlockLayout {
    pub id: GlobalId,
    pub intrinsic_width: BoxSizing,
    pub intrinsic_height: BoxSizing,
    pub padding: Padding,
    pub size: Size<u64>,
    pub position: Position<u64>,
    pub child: Box<LayoutNode>,
    pub constraints: BoxConstraints,
}

impl BlockLayout {
    /// The mathematical tree this container stands for.
    pub open spec fn model(self) -> NodeModel
        decreases self,
    {
        NodeModel::Block {
            id: self.id.value as int,
            intrinsic_width: self.intrinsic_width@,
            intrinsic_height: self.intrinsic_height@,
            padding: self.padding@,
            size: self.size@,
            position: self.position@,
            child: Box::new((*self.child).model()),
            constraints: self.constraints@,
        }
    }

    /// A container around the given child, with default policies and no
    /// padding.
    pub fn new(child: LayoutNode) -> (r: Self)
        ensures
            r.id == (GlobalId { value: 0u64 }),
            r.intrinsic_width == BoxSizing::Fit,
            r.intrinsic_height == BoxSizing::Fit,
            r.padding == (Padding { left: 0u32, right: 0u32, top: 0u32, bottom: 0u32 }),
            r.size == (Size { width: 0u64, height: 0u64 }),
            r.position == (Position { x: 0u64, y: 0u64 }),
            *r.child == child,
            r.constraints == (BoxConstraints {
                max_width: 0u64,
                max_height: 0u64,
                min_height: 0u64,
                min_width: 0u64,
            }),
    {
        Self {
            id: GlobalId::new(),
            intrinsic_width: BoxSizing::Fit,
            intrinsic_height: BoxSizing::Fit,
            padding: Padding::default(),
            size: Size::new(0, 0),
            position: Position::new(0, 0),
            child: Box::new(child),
            constraints: BoxConstraints::new(),
        }
    }

    /// A view of the wrapped child.
    pub fn child(&self) -> (r: &LayoutNode)
        ensures
            *r == *self.child,
    {
        &*self.child
    }
}

impl BlockLayout {
    /// The bottom-up step of the min-constraint pass: the child is solved
    /// first; the container then takes the child's need as its own when it
    /// is flexible, its declared width when fixed, or the child's need
    /// plus its own padding when it fits to content, and reports the
    /// resolved pair to its parent.
    pub fn solve_min_constraints(&mut self) -> (r: (u64, u64))
        ensures
            final(self)@ == old(self)@.after_min(),
            r.0 as int == old(self)@.min_report_w(),
            r.1 as int == old(self)@.min_report_h(),
        decreases *old(self), 0int,
    {
        let child_min = self.child.solve_min_constraints();

        match self.intrinsic_width {
            BoxSizing::Flex(_) => {
                self.constraints.min_width = child_min.0;
            },
            BoxSizing::Fixed(width) => {
                self.constraints.min_width = width;
            },
            BoxSizing::Fit => {
                let padding = (self.padding.left as u64) + (self.padding.right as u64);
                self.constraints.min_width = child_min.0.saturating_add(padding);
            },
        }

        match self.intrinsic_height {
            BoxSizing::Flex(_) => {
                self.constraints.min_height = child_min.1;
            },
            BoxSizing::Fixed(height) => {
                self.constraints.min_height = height;
            },
            BoxSizing::Fit => {
                let padding = (self.padding.top as u64) + (self.padding.bottom as u64);
                self.constraints.min_height = child_min.1.saturating_add(padding);
            },
        }

        (self.constraints.min_width, self.constraints.min_height)
    }

    /// The top-down step of the max-constraint pass: the child is offered
    /// its declared width when fixed, and otherwise the container's own
    /// max width less the horizontal padding, clamped at zero; mirrored
    /// for the height with the vertical padding. The child is then solved
    /// with what it was offered.
    pub fn solve_max_constraints(&mut self)
        ensures
            final(self)@ == old(self)@.after_max(
                old(self).constraints.max_width as int,
                old(self).constraints.max_height as int,
            ),
        decreases old(self)@.height(), 0int,
    {
        let ghost child_view = (*old(self).child)@;

        match self.child.intrinsic_width() {
            BoxSizing::Fixed(width) => {
                self.child.set_max_width(width);
            },
            BoxSizing::Fit | BoxSizing::Flex(_) => {
                let padding = (self.padding.left as u64) + (self.padding.right as u64);
                let width = self.constraints.max_width.saturating_sub(padding);
                self.child.set_max_width(width);
            },
        }

        match self.child.intrinsic_height() {
            BoxSizing::Fixed(height) => {
                self.child.set_max_height(height);
            },
            BoxSizing::Fit | BoxSizing::Flex(_) => {
                let padding = (self.padding.top as u64) + (self.padding.bottom as u64);
                let height = self.constraints.max_height.saturating_sub(padding);
                self.child.set_max_height(height);
            },
        }

        let ghost cmw = (*self.child)@.m_constraints().max_width;
        let ghost cmh = (*self.child)@.m_constraints().max_height;
        proof {
            lemma_height_with_max_width(child_view, cmw);
            lemma_height_with_max_height(child_view.with_max_width(cmw), cmh);
            assert((*self.child)@ == child_view.with_max_width(cmw).with_max_height(cmh));
            assert((*self.child)@.height() < old(self)@.height());
        }

        self.child.solve_max_constraints();

        proof {
            lemma_after_max_ignores_own_max(child_view, cmw, cmh, cmw, cmh);
            assert((*self).model() =~~= old(self).model().after_max(
                old(self).constraints.max_width as int,
                old(self).constraints.max_height as int,
            ));
        }
    }

    /// The final top-down step: the container resolves its own size from
    /// its policies against its solved constraints, then recurses into the
    /// child unconditionally.
    pub fn update_size(&mut self)
        ensures
            final(self)@ == old(self)@.after_update(),
        decreases *old(self), 0int,
    {
        match self.intrinsic_width {
            BoxSizing::Fit => {
                self.size.width = self.constraints.min_width;
            },
            BoxSizing::Fixed(width) => {
                self.size.width = width;
            },
            BoxSizing::Flex(_) => {
                self.size.width = self.constraints.max_width;
            },
        }

        match self.intrinsic_height {
            BoxSizing::Fit => {
                self.size.height = self.constraints.min_height;
            },
            BoxSizing::Fixed(height) => {
                self.size.height = height;
            },
            BoxSizing::Flex(_) => {
                self.size.height = self.constraints.max_height;
            },
        }

        self.child.update_size();
    }
}

impl BlockLayout {
    /// The node's identity.
    pub fn id(&self) -> (r: GlobalId)
        ensures
            r.value as int == self@.m_id(),
    {
        self.id
    }

    /// The node's current position.
    pub fn position(&self) -> (r: Position<u64>)
        ensures
            r@ == self@.m_position(),
    {
        self.position
    }

    /// The node's current size.
    pub fn size(&self) -> (r: Size<u64>)
        ensures
            r@ == self@.m_size(),
    {
        self.size
    }

    /// Moves the node.
    pub fn set_position(&mut self, position: Position<u64>)
        ensures
            final(self)@ == old(self)@.with_position(position@),
    {
        self.position = position;
    }

    /// Resizes the node.
    pub fn set_size(&mut self, size: Size<u64>)
        ensures
            final(self)@ == old(self)@.with_size(size@),
    {
        self.size = size;
    }

    /// The node's declared height policy.
    pub fn intrinsic_height(&self) -> (r: BoxSizing)
        ensures
            r@ == self@.m_intrinsic_height(),
    {
        self.intrinsic_height
    }

    /// The node's declared width policy.
    pub fn intrinsic_width(&self) -> (r: BoxSizing)
        ensures
            r@ == self@.m_intrinsic_width(),
    {
        self.intrinsic_width
    }

    /// Sets the node's max height constraint; the parent's move.
    pub fn set_max_height(&mut self, height: u64)
        ensures
            final(self)@ == old(self)@.with_max_height(height as int),
    {
        self.constraints.max_height = height;
    }

    /// Sets the node's max width constraint; the parent's move.
    pub fn set_max_width(&mut self, width: u64)
        ensures
            final(self)@ == old(self)@.with_max_width(width as int),
    {
        self.constraints.max_width = width;
    }

    /// Sets the node's min height constraint.
    pub fn set_min_height(&mut self, height: u64)
        ensures
            final(self)@ == old(self)@.with_min_height(height as int),
    {
        self.constraints.min_height = height;
    }

    /// Sets the node's min width constraint.
    pub fn set_min_width(&mut self, width: u64)
        ensures
            final(self)@ == old(self)@.with_min_width(width as int),
    {
        self.constraints.min_width = width;
    }

    /// The node's current box constraints.
    pub fn constraints(&self) -> (r: BoxConstraints)
        ensures
            r@ == self@.m_constraints(),
    {
        self.constraints
    }
}

impl View for BlockLayout {
    type V = NodeModel;

    open spec fn view(&self) -> NodeModel {
        self.model()
    }
}

} // verus!
