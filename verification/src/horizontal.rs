//! The multi-child container for the horizontal axis.
use vstd::prelude::*;

use crate::model::{
    after_max_seq, after_min_seq, after_update_seq, cap, child_max_h, child_max_w, clamp0,
    flex_of, lemma_after_max_ignores_own_max, lemma_after_max_seq_index, lemma_after_min_seq_index,
    lemma_after_update_seq_index, lemma_height_with_max_height, lemma_height_with_max_width,
    lemma_max_height_seq_ge, lemma_sum_fixed_w_push, lemma_sum_flex_ge_elem, lemma_sum_flex_push,
    lemma_sum_min_h_push, lemma_sum_min_w_push, max_height_seq, sum_fixed_w, sum_flex,
    sum_min_report_h, sum_min_report_w, NodeModel,
};
use crate::node::{lemma_view_children, lemma_view_flex_nonneg, view_children, LayoutNode};
use crate::position::Position;
use crate::size::Size;
use crate::{BoxConstraints, BoxSizing, Padding};
use crate::id::GlobalId;

verus! {

/// A container that arranges an ordered sequence of children along the
/// width axis, distributing the available width among them by policy.
#[derive(Debug)]
pub struct HorizontalLayout {
    pub id: GlobalId,
    pub size: Size<u64>,
    pub position: Position<u64>,
    pub children: Vec<LayoutNode>,
    pub spacing: u32,
    pub padding: Padding,
    pub intrinsic_width: BoxSizing,
    pub intrinsic_height: BoxSizing,
    pub constraints: BoxConstraints,
}

impl HorizontalLayout {
    /// The mathematical tree this container stands for.
    pub open spec fn model(self) -> NodeModel
        decreases self,
    {
        NodeModel::Horizontal {
            id: self.id.value as int,
            size: self.size@,
            position: self.position@,
            children: view_children(self.children@),
            spacing: self.spacing as int,
            padding: self.padding@,
            intrinsic_width: self.intrinsic_width@,
            intrinsic_height: self.intrinsic_height@,
            constraints: self.constraints@,
        }
    }

    /// A row with no children, default policies and no padding.
    pub fn new() -> (r: Self)
        ensures
            r.id == (GlobalId { value: 0u64 }),
            r.size == (Size { width: 0u64, height: 0u64 }),
            r.position == (Position { x: 0u64, y: 0u64 }),
            r.children@ == Seq::<LayoutNode>::empty(),
            r.spacing == 0u32,
            r.padding == (Padding { left: 0u32, right: 0u32, top: 0u32, bottom: 0u32 }),
            r.intrinsic_width == BoxSizing::Fit,
            r.intrinsic_height == BoxSizing::Fit,
            r.constraints == (BoxConstraints {
                max_width: 0u64,
                max_height: 0u64,
                min_height: 0u64,
                min_width: 0u64,
            }),
    {
        Self {
            id: GlobalId::new(),
            size: Size::new(0, 0),
            position: Position::new(0, 0),
            children: Vec::new(),
            spacing: 0,
            padding: Padding::default(),
            intrinsic_width: BoxSizing::Fit,
            intrinsic_height: BoxSizing::Fit,
            constraints: BoxConstraints::new(),
        }
    }

    /// A view of the row's children.
    pub fn children(&self) -> (r: &Vec<LayoutNode>)
        ensures
            *r == self.children,
    {
        &self.children
    }

    /// Adds one child at the end of the row.
    pub fn push(&mut self, child: LayoutNode)
        ensures
            final(self).children@ == old(self).children@.push(child),
            final(self).id == old(self).id,
            final(self).size == old(self).size,
            final(self).position == old(self).position,
            final(self).spacing == old(self).spacing,
            final(self).padding == old(self).padding,
            final(self).intrinsic_width == old(self).intrinsic_width,
            final(self).intrinsic_height == old(self).intrinsic_height,
            final(self).constraints == old(self).constraints,
    {
        self.children.push(child);
    }

    /// Appends a list of children at the end of the row, in order.
    pub fn append(&mut self, children: Vec<LayoutNode>)
        ensures
            final(self).children@ == old(self).children@ + children@,
            final(self).id == old(self).id,
            final(self).size == old(self).size,
            final(self).position == old(self).position,
            final(self).spacing == old(self).spacing,
            final(self).padding == old(self).padding,
            final(self).intrinsic_width == old(self).intrinsic_width,
            final(self).intrinsic_height == old(self).intrinsic_height,
            final(self).constraints == old(self).constraints,
    {
        let mut rest = children;
        let ghost all = rest@;
        let ghost done: int = 0;
        while rest.len() > 0
            invariant
                0 <= done <= all.len(),
                rest@ == all.skip(done),
                self.children@ == old(self).children@ + all.take(done),
                self.id == old(self).id,
                self.size == old(self).size,
                self.position == old(self).position,
                self.spacing == old(self).spacing,
                self.padding == old(self).padding,
                self.intrinsic_width == old(self).intrinsic_width,
                self.intrinsic_height == old(self).intrinsic_height,
                self.constraints == old(self).constraints,
            decreases rest.len(),
        {
            let child = rest.remove(0);
            self.children.push(child);
            proof {
                done = done + 1;
                assert(rest@ == all.skip(done));
                assert(all.take(done) == all.take(done - 1).push(all[done - 1]));
                assert(self.children@ == old(self).children@ + all.take(done));
            }
        }
        proof {
            assert(all.take(all.len() as int) == all);
        }
    }
}

impl HorizontalLayout {
    /// The bottom-up step of the min-constraint pass: every child is
    /// solved first and the children's needs are summed on both axes,
    /// saturating at the measure limit; the row then resolves its own min
    /// constraints from its own policies, adding its own padding when it
    /// fits to content, and reports the resolved pair.
    #[verifier::loop_isolation(false)]
    pub fn solve_min_constraints(&mut self) -> (r: (u64, u64))
        ensures
            final(self)@ == old(self)@.after_min(),
            r.0 as int == old(self)@.min_report_w(),
            r.1 as int == old(self)@.min_report_h(),
        decreases *old(self), 0int,
    {
        let ghost views = view_children(old(self).children@);
        proof {
            lemma_view_children(old(self).children@);
        }

        let mut min_width: u64 = 0;
        let mut min_height: u64 = 0;
        let n = self.children.len();
        let mut i: usize = 0;
        while i < n
            invariant
                i <= n,
                n == old(self).children@.len(),
                self.children@.len() == n,
                forall|j: int| 0 <= j < i ==> (#[trigger] self.children@[j])@ == views[j].after_min(),
                forall|j: int| i <= j < n ==> self.children@[j] == old(self).children@[j],
                min_width as int == cap(sum_min_report_w(views.take(i as int))),
                min_height as int == cap(sum_min_report_h(views.take(i as int))),
                self.id == old(self).id,
                self.size == old(self).size,
                self.position == old(self).position,
                self.spacing == old(self).spacing,
                self.padding == old(self).padding,
                self.intrinsic_width == old(self).intrinsic_width,
                self.intrinsic_height == old(self).intrinsic_height,
                self.constraints == old(self).constraints,
            decreases n - i,
        {
            proof {
                assert(self.children@[i as int] == old(self).children@[i as int]);
            }
            let child_min = self.children[i].solve_min_constraints();
            proof {
                assert(views.take(i + 1) =~= views.take(i as int).push(views[i as int]));
                lemma_sum_min_w_push(views.take(i as int), views[i as int]);
                lemma_sum_min_h_push(views.take(i as int), views[i as int]);
            }
            min_width = min_width.saturating_add(child_min.0);
            min_height = min_height.saturating_add(child_min.1);
            i = i + 1;
        }
        proof {
            assert(views.take(n as int) =~= views);
        }

        match self.intrinsic_width {
            BoxSizing::Flex(_) => {
                self.constraints.min_width = min_width;
            },
            BoxSizing::Fixed(width) => {
                self.constraints.min_width = width;
            },
            BoxSizing::Fit => {
                let padding = (self.padding.left as u64) + (self.padding.right as u64);
                self.constraints.min_width = min_width.saturating_add(padding);
            },
        }

        match self.intrinsic_height {
            BoxSizing::Flex(_) => {
                self.constraints.min_height = min_height;
            },
            BoxSizing::Fixed(height) => {
                self.constraints.min_height = height;
            },
            BoxSizing::Fit => {
                let padding = (self.padding.top as u64) + (self.padding.bottom as u64);
                self.constraints.min_height = min_height.saturating_add(padding);
            },
        }

        proof {
            lemma_after_min_seq_index(views);
            lemma_view_children(self.children@);
            assert forall|j: int| 0 <= j < n implies view_children(self.children@)[j]
                == after_min_seq(views)[j] by {
                assert(view_children(self.children@)[j] == self.children@[j].model());
                assert(after_min_seq(views)[j] == views[j].after_min());
            }
            assert(view_children(self.children@) =~= after_min_seq(views));
            assert((*self).model() =~~= old(self).model().after_min());
        }
        (self.constraints.min_width, self.constraints.min_height)
    }

    /// The total width of the children with a fixed intrinsic width,
    /// saturating at the measure limit.
    #[verifier::loop_isolation(false)]
    pub fn sum_fixed_width(&self) -> (r: u64)
        ensures
            r as int == cap(sum_fixed_w(view_children(self.children@))),
    {
        let ghost views = view_children(self.children@);
        proof {
            lemma_view_children(self.children@);
        }
        let mut sum: u64 = 0;
        let n = self.children.len();
        let mut i: usize = 0;
        while i < n
            invariant
                i <= n,
                n == self.children@.len(),
                sum as int == cap(sum_fixed_w(views.take(i as int))),
            decreases n - i,
        {
            proof {
                assert(views.take(i + 1) =~= views.take(i as int).push(views[i as int]));
                lemma_sum_fixed_w_push(views.take(i as int), views[i as int]);
            }
            match self.children[i].intrinsic_width() {
                BoxSizing::Fixed(width) => {
                    sum = sum.saturating_add(width);
                },
                _ => {},
            }
            i = i + 1;
        }
        proof {
            assert(views.take(n as int) =~= views);
        }
        sum
    }

    /// The total flex weight across all the children.
    #[verifier::loop_isolation(false)]
    fn flex_total(&self) -> (r: u128)
        ensures
            r as int == sum_flex(view_children(self.children@)),
    {
        let ghost views = view_children(self.children@);
        proof {
            lemma_view_children(self.children@);
        }
        let mut flex_total: u128 = 0;
        let n = self.children.len();
        let mut i: usize = 0;
        while i < n
            invariant
                i <= n,
                n == self.children@.len(),
                flex_total as int == sum_flex(views.take(i as int)),
                flex_total as int <= 255 * i,
            decreases n - i,
        {
            proof {
                assert(views.take(i + 1) =~= views.take(i as int).push(views[i as int]));
                lemma_sum_flex_push(views.take(i as int), views[i as int]);
            }
            match self.children[i].intrinsic_width() {
                BoxSizing::Flex(flex) => {
                    flex_total = flex_total + (flex as u128);
                },
                _ => {},
            }
            i = i + 1;
        }
        proof {
            assert(views.take(n as int) =~= views);
        }
        flex_total
    }

    /// The top-down step of the max-constraint pass: the fixed widths are
    /// subtracted from the row's own max width, clamped at zero, and what
    /// remains is divided among the flexible children in whole numbers by
    /// weight; a fixed child takes its declared measure, a fitting child
    /// is held to its own minimum. Heights are assigned independently:
    /// flexible children stretch to the row's own max height. Every child
    /// is then solved with what it was assigned.
    #[verifier::loop_isolation(false)]
    pub fn solve_max_constraints(&mut self)
        ensures
            final(self)@ == old(self)@.after_max(
                old(self).constraints.max_width as int,
                old(self).constraints.max_height as int,
            ),
        decreases old(self)@.height(), 0int,
    {
        let ghost views = view_children(old(self).children@);
        proof {
            lemma_view_children(old(self).children@);
            assert(old(self)@.height() == max_height_seq(views) + 1);
        }

        let flex_total = self.flex_total();
        let total_width = self.sum_fixed_width();
        let max_width = self.constraints.max_width.saturating_sub(total_width);

        let ghost d = clamp0(old(self).constraints.max_width as int - sum_fixed_w(views));
        let ghost ft = sum_flex(views);
        let ghost own_mh = old(self).constraints.max_height as int;
        proof {
            assert(max_width as int == d);
        }

        let own_max_height = self.constraints.max_height;
        let n = self.children.len();
        let mut i: usize = 0;
        while i < n
            invariant
                i <= n,
                n == old(self).children@.len(),
                self.children@.len() == n,
                forall|j: int| 0 <= j < i ==> (#[trigger] self.children@[j])@
                    == views[j].after_max(child_max_w(views[j], d, ft), child_max_h(views[j], own_mh)),
                forall|j: int| i <= j < n ==> self.children@[j] == old(self).children@[j],
                self.id == old(self).id,
                self.size == old(self).size,
                self.position == old(self).position,
                self.spacing == old(self).spacing,
                self.padding == old(self).padding,
                self.intrinsic_width == old(self).intrinsic_width,
                self.intrinsic_height == old(self).intrinsic_height,
                self.constraints == old(self).constraints,
            decreases n - i,
        {
            proof {
                assert(self.children@[i as int] == old(self).children@[i as int]);
            }

            let child_max_width: u64;
            match self.children[i].intrinsic_width() {
                BoxSizing::Fit => {
                    child_max_width = self.children[i].constraints().min_width;
                },
                BoxSizing::Flex(flex) => {
                    if flex_total == 0 {
                        child_max_width = 0;
                    } else {
                        proof {
                            assert forall|j: int| 0 <= j < views.len() implies flex_of(#[trigger] views[j]) >= 0 by {
                                lemma_view_flex_nonneg(old(self).children@[j]);
                                assert(views[j] == old(self).children@[j].model());
                            }
                            lemma_sum_flex_ge_elem(views, i as int);
                            assert(flex_of(views[i as int]) == flex as int);
                            assert((max_width as int) * (flex as int) / (ft as int) <= max_width as int) by (nonlinear_arith)
                                requires
                                    0 <= flex as int <= ft as int,
                                    0 < ft as int,
                                    0 <= max_width as int,
                            ;
                            assert((max_width as int) * (flex as int) <= (u64::MAX as int) * 255) by (nonlinear_arith)
                                requires
                                    0 <= max_width as int <= u64::MAX as int,
                                    0 <= flex as int <= 255,
                            ;
                        }
                        child_max_width = (((max_width as u128) * (flex as u128)) / flex_total) as u64;
                    }
                },
                BoxSizing::Fixed(width) => {
                    child_max_width = width;
                },
            }
            self.children[i].set_max_width(child_max_width);

            let child_max_height: u64;
            match self.children[i].intrinsic_height() {
                BoxSizing::Fit => {
                    child_max_height = self.children[i].constraints().min_height;
                },
                BoxSizing::Flex(_) => {
                    child_max_height = own_max_height;
                },
                BoxSizing::Fixed(height) => {
                    child_max_height = height;
                },
            }
            self.children[i].set_max_height(child_max_height);

            proof {
                assert(child_max_width as int == child_max_w(views[i as int], d, ft));
                assert(child_max_height as int == child_max_h(views[i as int], own_mh));
                assert(self.children@[i as int]@ == views[i as int]
                    .with_max_width(child_max_width as int)
                    .with_max_height(child_max_height as int));
                lemma_height_with_max_width(views[i as int], child_max_width as int);
                lemma_height_with_max_height(
                    views[i as int].with_max_width(child_max_width as int),
                    child_max_height as int,
                );
                lemma_max_height_seq_ge(views, i as int);
                assert(self.children@[i as int]@.height() < old(self)@.height());
            }

            self.children[i].solve_max_constraints();

            proof {
                lemma_after_max_ignores_own_max(
                    views[i as int],
                    child_max_width as int,
                    child_max_height as int,
                    child_max_width as int,
                    child_max_height as int,
                );
                assert(self.children@[i as int]@ == views[i as int]
                    .after_max(child_max_w(views[i as int], d, ft), child_max_h(views[i as int], own_mh)));
            }
            i = i + 1;
        }

        proof {
            lemma_after_max_seq_index(views, d, ft, own_mh);
            lemma_view_children(self.children@);
            assert forall|j: int| 0 <= j < n implies view_children(self.children@)[j]
                == after_max_seq(views, d, ft, own_mh)[j] by {
                assert(view_children(self.children@)[j] == self.children@[j].model());
                assert(after_max_seq(views, d, ft, own_mh)[j]
                    == views[j].after_max(child_max_w(views[j], d, ft), child_max_h(views[j], own_mh)));
            }
            assert(view_children(self.children@) =~= after_max_seq(views, d, ft, own_mh));
            assert((*self).model() =~~= old(self).model().after_max(
                old(self).constraints.max_width as int,
                old(self).constraints.max_height as int,
            ));
        }
    }

    /// The final top-down step: the row resolves its own size from its
    /// policies against its solved constraints, then recurses into every
    /// child unconditionally.
    #[verifier::loop_isolation(false)]
    pub fn update_size(&mut self)
        ensures
            final(self)@ == old(self)@.after_update(),
        decreases *old(self), 0int,
    {
        let ghost views = view_children(old(self).children@);
        proof {
            lemma_view_children(old(self).children@);
        }

        match self.intrinsic_width {
            BoxSizing::Fit => {
                self.size.width = self.constraints.min_width;
            },
            BoxSizing::Fixed(width) => {
                self.size.width = width;
            },
            BoxSizing::Flex(_) => {
                self.size.width = self.constraints.max_width;
            },
        }

        match self.intrinsic_height {
            BoxSizing::Fit => {
                self.size.height = self.constraints.min_height;
            },
            BoxSizing::Fixed(height) => {
                self.size.height = height;
            },
            BoxSizing::Flex(_) => {
                self.size.height = self.constraints.max_height;
            },
        }

        let n = self.children.len();
        let mut i: usize = 0;
        while i < n
            invariant
                i <= n,
                n == old(self).children@.len(),
                self.children@.len() == n,
                forall|j: int| 0 <= j < i ==> (#[trigger] self.children@[j])@ == views[j].after_update(),
                forall|j: int| i <= j < n ==> self.children@[j] == old(self).children@[j],
                self.id == old(self).id,
                self.size@ == old(self)@.resolved_size(),
                self.position == old(self).position,
                self.spacing == old(self).spacing,
                self.padding == old(self).padding,
                self.intrinsic_width == old(self).intrinsic_width,
                self.intrinsic_height == old(self).intrinsic_height,
                self.constraints == old(self).constraints,
            decreases n - i,
        {
            proof {
                assert(self.children@[i as int] == old(self).children@[i as int]);
            }
            self.children[i].update_size();
            i = i + 1;
        }

        proof {
            lemma_after_update_seq_index(views);
            lemma_view_children(self.children@);
            assert forall|j: int| 0 <= j < n implies view_children(self.children@)[j]
                == after_update_seq(views)[j] by {
                assert(view_children(self.children@)[j] == self.children@[j].model());
                assert(after_update_seq(views)[j] == views[j].after_update());
            }
            assert(view_children(self.children@) =~= after_update_seq(views));
            assert((*self).model() =~~= old(self).model().after_update());
        }
    }
}

impl HorizontalLayout {
    /// The node's identity.
    pub fn id(&self) -> (r: GlobalId)
        ensures
            r.value as int == self@.m_id(),
    {
        self.id
    }

    /// The node's current position.
    pub fn position(&self) -> (r: Position<u64>)
        ensures
            r@ == self@.m_position(),
    {
        self.position
    }

    /// The node's current size.
    pub fn size(&self) -> (r: Size<u64>)
        ensures
            r@ == self@.m_size(),
    {
        self.size
    }

    /// Moves the node.
    pub fn set_position(&mut self, position: Position<u64>)
        ensures
            final(self)@ == old(self)@.with_position(position@),
    {
        self.position = position;
    }

    /// Resizes the node.
    pub fn set_size(&mut self, size: Size<u64>)
        ensures
            final(self)@ == old(self)@.with_size(size@),
    {
        self.size = size;
    }

    /// The node's declared height policy.
    pub fn intrinsic_height(&self) -> (r: BoxSizing)
        ensures
            r@ == self@.m_intrinsic_height(),
    {
        self.intrinsic_height
    }

    /// The node's declared width policy.
    pub fn intrinsic_width(&self) -> (r: BoxSizing)
        ensures
            r@ == self@.m_intrinsic_width(),
    {
        self.intrinsic_width
    }

    /// Sets the node's max height constraint; the parent's move.
    pub fn set_max_height(&mut self, height: u64)
        ensures
            final(self)@ == old(self)@.with_max_height(height as int),
    {
        self.constraints.max_height = height;
    }

    /// Sets the node's max width constraint; the parent's move.
    pub fn set_max_width(&mut self, width: u64)
        ensures
            final(self)@ == old(self)@.with_max_width(width as int),
    {
        self.constraints.max_width = width;
    }

    /// Sets the node's min height constraint.
    pub fn set_min_height(&mut self, height: u64)
        ensures
            final(self)@ == old(self)@.with_min_height(height as int),
    {
        self.constraints.min_height = height;
    }

    /// Sets the node's min width constraint.
    pub fn set_min_width(&mut self, width: u64)
        ensures
            final(self)@ == old(self)@.with_min_width(width as int),
    {
        self.constraints.min_width = width;
    }

    /// The node's current box constraints.
    pub fn constraints(&self) -> (r: BoxConstraints)
        ensures
            r@ == self@.m_constraints(),
    {
        self.constraints
    }
}

impl View for HorizontalLayout {
    type V = NodeModel;

    open spec fn view(&self) -> NodeModel {
        self.model()
    }
}

} // verus!
