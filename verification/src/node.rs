//! The closed set of layout node variants, dispatched through one type.
use vstd::prelude::*;

use crate::block::BlockLayout;
use crate::empty::EmptyLayout;
use crate::horizontal::HorizontalLayout;
use crate::id::GlobalId;
use crate::model::{flex_of, NodeModel};
use crate::position::Position;
use crate::size::Size;
use crate::{BoxConstraints, BoxSizing};

verus! {

/// A node of the layout tree: a leaf, a single-child container, or a
/// multi-child container for the horizontal axis. Every variant carries
/// the full capability set of the engine; the three solving passes differ
/// only in their bodies.
#[derive(Debug)]
pub enum LayoutNode {
    Empty(EmptyLayout),
    Block(BlockLayout),
    Horizontal(HorizontalLayout),
}

impl LayoutNode {
    /// The mathematical tree this node stands for.
    pub open spec fn model(self) -> NodeModel
        decreases self,
    {
        match self {
            LayoutNode::Empty(e) => e.model(),
            LayoutNode::Block(b) => b.model(),
            LayoutNode::Horizontal(h) => h.model(),
        }
    }
}

/// The mathematical trees a row of children stands for.
pub open spec fn view_children(s: Seq<LayoutNode>) -> Seq<NodeModel>
    decreases s,
{
    if s.len() == 0 {
        Seq::empty()
    } else {
        seq![s[0].model()] + view_children(s.drop_first())
    }
}

/// The view of each child is the child's own view.
pub proof fn lemma_view_children(s: Seq<LayoutNode>)
    ensures
        view_children(s).len() == s.len(),
        forall|i: int| 0 <= i < s.len() ==> view_children(s)[i] == #[trigger] s[i].model(),
    decreases s,
{
    if s.len() > 0 {
        lemma_view_children(s.drop_first());
        assert forall|i: int| 0 <= i < s.len() implies view_children(s)[i] == #[trigger] s[i].model() by {
            if i > 0 {
                assert(view_children(s)[i] == view_children(s.drop_first())[i - 1]);
                assert(s.drop_first()[i - 1] == s[i]);
            }
        }
    }
}

impl LayoutNode {
    /// The bottom-up step of the min-constraint pass: every child is
    /// solved first, the node aggregates what its children report by its
    /// own rules, sets its own min constraints and reports the resolved
    /// pair to its caller.
    pub fn solve_min_constraints(&mut self) -> (r: (u64, u64))
        ensures
            final(self)@ == old(self)@.after_min(),
            r.0 as int == old(self)@.min_report_w(),
            r.1 as int == old(self)@.min_report_h(),
        decreases *old(self), 1int,
    {
        match self {
            LayoutNode::Empty(e) => e.solve_min_constraints(),
            LayoutNode::Block(b) => b.solve_min_constraints(),
            LayoutNode::Horizontal(h) => h.solve_min_constraints(),
        }
    }

    /// The top-down step of the max-constraint pass: using this node's
    /// own already-set max constraints and its children's policies, the
    /// node computes and sets each child's max constraints, then recurses
    /// into each child.
    pub fn solve_max_constraints(&mut self)
        ensures
            final(self)@ == old(self)@.after_max(
                old(self)@.m_constraints().max_width,
                old(self)@.m_constraints().max_height,
            ),
        decreases old(self)@.height(), 1int,
    {
        match self {
            LayoutNode::Empty(e) => e.solve_max_constraints(),
            LayoutNode::Block(b) => b.solve_max_constraints(),
            LayoutNode::Horizontal(h) => h.solve_max_constraints(),
        }
    }

    /// The final top-down step: every node's size is resolved from its
    /// policies and its solved constraints.
    pub fn update_size(&mut self)
        ensures
            final(self)@ == old(self)@.after_update(),
        decreases *old(self), 1int,
    {
        match self {
            LayoutNode::Empty(e) => e.update_size(),
            LayoutNode::Block(b) => b.update_size(),
            LayoutNode::Horizontal(h) => h.update_size(),
        }
    }
}

impl LayoutNode {
    /// The node's identity.
    pub fn id(&self) -> (r: GlobalId)
        ensures
            r.value as int == self@.m_id(),
    {
        match self {
            LayoutNode::Empty(e) => e.id(),
            LayoutNode::Block(b) => b.id(),
            LayoutNode::Horizontal(h) => h.id(),
        }
    }

    /// The node's current position.
    pub fn position(&self) -> (r: Position<u64>)
        ensures
            r@ == self@.m_position(),
    {
        match self {
            LayoutNode::Empty(e) => e.position(),
            LayoutNode::Block(b) => b.position(),
            LayoutNode::Horizontal(h) => h.position(),
        }
    }

    /// The node's current size.
    pub fn size(&self) -> (r: Size<u64>)
        ensures
            r@ == self@.m_size(),
    {
        match self {
            LayoutNode::Empty(e) => e.size(),
            LayoutNode::Block(b) => b.size(),
            LayoutNode::Horizontal(h) => h.size(),
        }
    }

    /// Moves the node.
    pub fn set_position(&mut self, position: Position<u64>)
        ensures
            final(self)@ == old(self)@.with_position(position@),
    {
        match self {
            LayoutNode::Empty(e) => e.set_position(position),
            LayoutNode::Block(b) => b.set_position(position),
            LayoutNode::Horizontal(h) => h.set_position(position),
        }
    }

    /// Resizes the node.
    pub fn set_size(&mut self, size: Size<u64>)
        ensures
            final(self)@ == old(self)@.with_size(size@),
    {
        match self {
            LayoutNode::Empty(e) => e.set_size(size),
            LayoutNode::Block(b) => b.set_size(size),
            LayoutNode::Horizontal(h) => h.set_size(size),
        }
    }

    /// The node's declared height policy.
    pub fn intrinsic_height(&self) -> (r: BoxSizing)
        ensures
            r@ == self@.m_intrinsic_height(),
    {
        match self {
            LayoutNode::Empty(e) => e.intrinsic_height(),
            LayoutNode::Block(b) => b.intrinsic_height(),
            LayoutNode::Horizontal(h) => h.intrinsic_height(),
        }
    }

    /// The node's declared width policy.
    pub fn intrinsic_width(&self) -> (r: BoxSizing)
        ensures
            r@ == self@.m_intrinsic_width(),
    {
        match self {
            LayoutNode::Empty(e) => e.intrinsic_width(),
            LayoutNode::Block(b) => b.intrinsic_width(),
            LayoutNode::Horizontal(h) => h.intrinsic_width(),
        }
    }

    /// Sets the node's max height constraint; the parent's move.
    pub fn set_max_height(&mut self, height: u64)
        ensures
            final(self)@ == old(self)@.with_max_height(height as int),
    {
        match self {
            LayoutNode::Empty(e) => e.set_max_height(height),
            LayoutNode::Block(b) => b.set_max_height(height),
            LayoutNode::Horizontal(h) => h.set_max_height(height),
        }
    }

    /// Sets the node's max width constraint; the parent's move.
    pub fn set_max_width(&mut self, width: u64)
        ensures
            final(self)@ == old(self)@.with_max_width(width as int),
    {
        match self {
            LayoutNode::Empty(e) => e.set_max_width(width),
            LayoutNode::Block(b) => b.set_max_width(width),
            LayoutNode::Horizontal(h) => h.set_max_width(width),
        }
    }

    /// Sets the node's min height constraint.
    pub fn set_min_height(&mut self, height: u64)
        ensures
            final(self)@ == old(self)@.with_min_height(height as int),
    {
        match self {
            LayoutNode::Empty(e) => e.set_min_height(height),
            LayoutNode::Block(b) => b.set_min_height(height),
            LayoutNode::Horizontal(h) => h.set_min_height(height),
        }
    }

    /// Sets the node's min width constraint.
    pub fn set_min_width(&mut self, width: u64)
        ensures
            final(self)@ == old(self)@.with_min_width(width as int),
    {
        match self {
            LayoutNode::Empty(e) => e.set_min_width(width),
            LayoutNode::Block(b) => b.set_min_width(width),
            LayoutNode::Horizontal(h) => h.set_min_width(width),
        }
    }

    /// The node's current box constraints.
    pub fn constraints(&self) -> (r: BoxConstraints)
        ensures
            r@ == self@.m_constraints(),
    {
        match self {
            LayoutNode::Empty(e) => e.constraints(),
            LayoutNode::Block(b) => b.constraints(),
            LayoutNode::Horizontal(h) => h.constraints(),
        }
    }
}

/// A flex weight read from an executable node is never negative.
pub proof fn lemma_view_flex_nonneg(n: LayoutNode)
    ensures
        flex_of(n.model()) >= 0,
{
    match n {
        LayoutNode::Empty(_) => {},
        LayoutNode::Block(_) => {},
        LayoutNode::Horizontal(_) => {},
    }
}

impl View for LayoutNode {
    type V = NodeModel;

    open spec fn view(&self) -> NodeModel {
        self.model()
    }
}

} // verus!
