//! The childless layout node.
use vstd::prelude::*;

use crate::model::NodeModel;
use crate::position::Position;
use crate::size::Size;
use crate::{BoxConstraints, BoxSizing};
use crate::id::GlobalId;

verus! {

/// A layout node without children; it terminates the recursion at both
/// ends of every pass.
#[derive(Debug, Clone)]
pub struct EmptyLayout {
    pub id: GlobalId,
    pub size: Size<u64>,
    pub position: Position<u64>,
    pub constraints: BoxConstraints,
    pub intrinsic_width: BoxSizing,
    pub intrinsic_height: BoxSizing,
}

impl EmptyLayout {
    /// The mathematical tree this node stands for.
    pub open spec fn model(self) -> NodeModel {
        NodeModel::Empty {
            id: self.id.value as int,
            size: self.size@,
            position: self.position@,
            constraints: self.constraints@,
            intrinsic_width: self.intrinsic_width@,
            intrinsic_height: self.intrinsic_height@,
        }
    }

    /// A leaf with default policies: it fits to content on both axes.
    pub fn new() -> (r: Self)
        ensures
            r == (EmptyLayout {
                id: GlobalId { value: 0u64 },
                size: Size { width: 0u64, height: 0u64 },
                position: Position { x: 0u64, y: 0u64 },
                constraints: BoxConstraints {
                    max_width: 0u64,
                    max_height: 0u64,
                    min_height: 0u64,
                    min_width: 0u64,
                },
                intrinsic_width: BoxSizing::Fit,
                intrinsic_height: BoxSizing::Fit,
            }),
    {
        Self {
            id: GlobalId::new(),
            size: Size::new(0, 0),
            position: Position::new(0, 0),
            constraints: BoxConstraints::new(),
            intrinsic_width: BoxSizing::Fit,
            intrinsic_height: BoxSizing::Fit,
        }
    }
}

impl EmptyLayout {
    /// The bottom-up step of the min-constraint pass: a leaf needs its
    /// fixed measure on a fixed axis and nothing on any other, and reports
    /// that need to its parent.
    pub fn solve_min_constraints(&mut self) -> (r: (u64, u64))
        ensures
            final(self)@ == old(self)@.after_min(),
            r.0 as int == old(self)@.min_report_w(),
            r.1 as int == old(self)@.min_report_h(),
    {
        match self.intrinsic_width {
            BoxSizing::Fit | BoxSizing::Flex(_) => {
                self.constraints.min_width = 0;
            },
            BoxSizing::Fixed(width) => {
                self.constraints.min_width = width;
            },
        }

        match self.intrinsic_height {
            BoxSizing::Fit | BoxSizing::Flex(_) => {
                self.constraints.min_height = 0;
            },
            BoxSizing::Fixed(height) => {
                self.constraints.min_height = height;
            },
        }

        (self.constraints.min_width, self.constraints.min_height)
    }

    /// The top-down step of the max-constraint pass: a leaf has no
    /// children to constrain, so nothing happens.
    pub fn solve_max_constraints(&mut self)
        ensures
            final(self)@ == old(self)@.after_max(
                old(self).constraints.max_width as int,
                old(self).constraints.max_height as int,
            ),
    {
        proof {
            assert((*self).model() =~~= old(self).model().after_max(
                old(self).constraints.max_width as int,
                old(self).constraints.max_height as int,
            ));
        }
    }

    /// The final top-down step: the leaf resolves its own size from its
    /// policies against its solved constraints; there are no children to
    /// recurse into.
    pub fn update_size(&mut self)
        ensures
            final(self)@ == old(self)@.after_update(),
    {
        match self.intrinsic_width {
            BoxSizing::Fit => {
                self.size.width = self.constraints.min_width;
            },
            BoxSizing::Fixed(width) => {
                self.size.width = width;
            },
            BoxSizing::Flex(_) => {
                self.size.width = self.constraints.max_width;
            },
        }

        match self.intrinsic_height {
            BoxSizing::Fit => {
                self.size.height = self.constraints.min_height;
            },
            BoxSizing::Fixed(height) => {
                self.size.height = height;
            },
            BoxSizing::Flex(_) => {
                self.size.height = self.constraints.max_height;
            },
        }
    }
}

impl EmptyLayout {
    /// The node's identity.
    pub fn id(&self) -> (r: GlobalId)
        ensures
            r.value as int == self@.m_id(),
    {
        self.id
    }

    /// The node's current position.
    pub fn position(&self) -> (r: Position<u64>)
        ensures
            r@ == self@.m_position(),
    {
        self.position
    }

    /// The node's current size.
    pub fn size(&self) -> (r: Size<u64>)
        ensures
            r@ == self@.m_size(),
    {
        self.size
    }

    /// Moves the node.
    pub fn set_position(&mut self, position: Position<u64>)
        ensures
            final(self)@ == old(self)@.with_position(position@),
    {
        self.position = position;
    }

    /// Resizes the node.
    pub fn set_size(&mut self, size: Size<u64>)
        ensures
            final(self)@ == old(self)@.with_size(size@),
    {
        self.size = size;
    }

    /// The node's declared height policy.
    pub fn intrinsic_height(&self) -> (r: BoxSizing)
        ensures
            r@ == self@.m_intrinsic_height(),
    {
        self.intrinsic_height
    }

    /// The node's declared width policy.
    pub fn intrinsic_width(&self) -> (r: BoxSizing)
        ensures
            r@ == self@.m_intrinsic_width(),
    {
        self.intrinsic_width
    }

    /// Sets the node's max height constraint; the parent's move.
    pub fn set_max_height(&mut self, height: u64)
        ensures
            final(self)@ == old(self)@.with_max_height(height as int),
    {
        self.constraints.max_height = height;
    }

    /// Sets the node's max width constraint; the parent's move.
    pub fn set_max_width(&mut self, width: u64)
        ensures
            final(self)@ == old(self)@.with_max_width(width as int),
    {
        self.constraints.max_width = width;
    }

    /// Sets the node's min height constraint.
    pub fn set_min_height(&mut self, height: u64)
        ensures
            final(self)@ == old(self)@.with_min_height(height as int),
    {
        self.constraints.min_height = height;
    }

    /// Sets the node's min width constraint.
    pub fn set_min_width(&mut self, width: u64)
        ensures
            final(self)@ == old(self)@.with_min_width(width as int),
    {
        self.constraints.min_width = width;
    }

    /// The node's current box constraints.
    pub fn constraints(&self) -> (r: BoxConstraints)
        ensures
            r@ == self@.m_constraints(),
    {
        self.constraints
    }
}

impl View for EmptyLayout {
    type V = NodeModel;

    open spec fn view(&self) -> NodeModel {
        self.model()
    }
}

} // verus!
