//! Mathematical model of the layout tree and of the three solving passes.
//!
//! The executable tree of [`crate::node::LayoutNode`] is abstracted, through
//! its view, into a [`NodeModel`] tree whose measures are unbounded integers.
//! Every pass of the engine is described here as a pure function on model
//! trees; the executable passes promise exactly these functions of their
//! input. The laws of the engine are stated and proved over the same
//! functions in [`crate::laws`].
use vstd::prelude::*;

verus! {

/// A width and height pair, as unbounded integers.
#[verifier::ext_equal]
pub ghost struct SizeModel {
    pub width: int,
    pub height: int,
}

/// An x and y pair, as unbounded integers.
#[verifier::ext_equal]
pub ghost struct PositionModel {
    pub x: int,
    pub y: int,
}

/// The four per-side insets of a container.
#[verifier::ext_equal]
pub ghost struct PaddingModel {
    pub left: int,
    pub right: int,
    pub top: int,
    pub bottom: int,
}

/// The min and max bounding box imposed on a node.
#[verifier::ext_equal]
pub ghost struct ConstraintsModel {
    pub max_width: int,
    pub max_height: int,
    pub min_height: int,
    pub min_width: int,
}

/// A per-axis sizing policy.
#[verifier::ext_equal]
pub ghost enum SizingModel {
    Flex(int),
    Fit,
    Fixed(int),
}

/// A layout tree: a childless leaf, a single-child container with padding,
/// or a multi-child container that stacks its children along the width axis.
#[verifier::ext_equal]
pub ghost enum NodeModel {
    Empty {
        id: int,
        size: SizeModel,
        position: PositionModel,
        constraints: ConstraintsModel,
        intrinsic_width: SizingModel,
        intrinsic_height: SizingModel,
    },
    Block {
        id: int,
        intrinsic_width: SizingModel,
        intrinsic_height: SizingModel,
        padding: PaddingModel,
        size: SizeModel,
        position: PositionModel,
        child: Box<NodeModel>,
        constraints: ConstraintsModel,
    },
    Horizontal {
        id: int,
        size: SizeModel,
        position: PositionModel,
        children: Seq<NodeModel>,
        spacing: int,
        padding: PaddingModel,
        intrinsic_width: SizingModel,
        intrinsic_height: SizingModel,
        constraints: ConstraintsModel,
    },
}

/// The largest value an executable measure can hold; additions of measures
/// saturate here.
pub open spec fn measure_limit() -> int {
    u64::MAX as int
}

/// Saturating addition truncates at the measure limit.
pub open spec fn cap(x: int) -> int {
    if x > measure_limit() {
        measure_limit()
    } else {
        x
    }
}

/// A difference that would be negative is clamped to zero; a constraint is
/// never negative.
pub open spec fn clamp0(x: int) -> int {
    if x < 0 {
        0
    } else {
        x
    }
}

impl NodeModel {
    /// The node's identity.
    pub open spec fn m_id(self) -> int {
        match self {
            NodeModel::Empty { id, .. } => id,
            NodeModel::Block { id, .. } => id,
            NodeModel::Horizontal { id, .. } => id,
        }
    }

    /// The node's current size.
    pub open spec fn m_size(self) -> SizeModel {
        match self {
            NodeModel::Empty { size, .. } => size,
            NodeModel::Block { size, .. } => size,
            NodeModel::Horizontal { size, .. } => size,
        }
    }

    /// The node's current position.
    pub open spec fn m_position(self) -> PositionModel {
        match self {
            NodeModel::Empty { position, .. } => position,
            NodeModel::Block { position, .. } => position,
            NodeModel::Horizontal { position, .. } => position,
        }
    }

    /// The node's current box constraints.
    pub open spec fn m_constraints(self) -> ConstraintsModel {
        match self {
            NodeModel::Empty { constraints, .. } => constraints,
            NodeModel::Block { constraints, .. } => constraints,
            NodeModel::Horizontal { constraints, .. } => constraints,
        }
    }

    /// The node's declared width policy.
    pub open spec fn m_intrinsic_width(self) -> SizingModel {
        match self {
            NodeModel::Empty { intrinsic_width, .. } => intrinsic_width,
            NodeModel::Block { intrinsic_width, .. } => intrinsic_width,
            NodeModel::Horizontal { intrinsic_width, .. } => intrinsic_width,
        }
    }

    /// The node's declared height policy.
    pub open spec fn m_intrinsic_height(self) -> SizingModel {
        match self {
            NodeModel::Empty { intrinsic_height, .. } => intrinsic_height,
            NodeModel::Block { intrinsic_height, .. } => intrinsic_height,
            NodeModel::Horizontal { intrinsic_height, .. } => intrinsic_height,
        }
    }

    /// The same node with its constraints replaced.
    pub open spec fn with_constraints(self, c: ConstraintsModel) -> NodeModel {
        match self {
            NodeModel::Empty { id, size, position, constraints, intrinsic_width, intrinsic_height } =>
                NodeModel::Empty { id, size, position, constraints: c, intrinsic_width, intrinsic_height },
            NodeModel::Block { id, intrinsic_width, intrinsic_height, padding, size, position, child, constraints } =>
                NodeModel::Block { id, intrinsic_width, intrinsic_height, padding, size, position, child, constraints: c },
            NodeModel::Horizontal { id, size, position, children, spacing, padding, intrinsic_width, intrinsic_height, constraints } =>
                NodeModel::Horizontal { id, size, position, children, spacing, padding, intrinsic_width, intrinsic_height, constraints: c },
        }
    }

    /// The same node with its size replaced.
    pub open spec fn with_size(self, s: SizeModel) -> NodeModel {
        match self {
            NodeModel::Empty { id, size, position, constraints, intrinsic_width, intrinsic_height } =>
                NodeModel::Empty { id, size: s, position, constraints, intrinsic_width, intrinsic_height },
            NodeModel::Block { id, intrinsic_width, intrinsic_height, padding, size, position, child, constraints } =>
                NodeModel::Block { id, intrinsic_width, intrinsic_height, padding, size: s, position, child, constraints },
            NodeModel::Horizontal { id, size, position, children, spacing, padding, intrinsic_width, intrinsic_height, constraints } =>
                NodeModel::Horizontal { id, size: s, position, children, spacing, padding, intrinsic_width, intrinsic_height, constraints },
        }
    }

    /// The same node with its position replaced.
    pub open spec fn with_position(self, p: PositionModel) -> NodeModel {
        match self {
            NodeModel::Empty { id, size, position, constraints, intrinsic_width, intrinsic_height } =>
                NodeModel::Empty { id, size, position: p, constraints, intrinsic_width, intrinsic_height },
            NodeModel::Block { id, intrinsic_width, intrinsic_height, padding, size, position, child, constraints } =>
                NodeModel::Block { id, intrinsic_width, intrinsic_height, padding, size, position: p, child, constraints },
            NodeModel::Horizontal { id, size, position, children, spacing, padding, intrinsic_width, intrinsic_height, constraints } =>
                NodeModel::Horizontal { id, size, position: p, children, spacing, padding, intrinsic_width, intrinsic_height, constraints },
        }
    }

    /// The same node with its max width constraint replaced.
    pub open spec fn with_max_width(self, w: int) -> NodeModel {
        self.with_constraints(ConstraintsModel {
            max_width: w,
            max_height: self.m_constraints().max_height,
            min_height: self.m_constraints().min_height,
            min_width: self.m_constraints().min_width,
        })
    }

    /// The same node with its max height constraint replaced.
    pub open spec fn with_max_height(self, h: int) -> NodeModel {
        self.with_constraints(ConstraintsModel {
            max_width: self.m_constraints().max_width,
            max_height: h,
            min_height: self.m_constraints().min_height,
            min_width: self.m_constraints().min_width,
        })
    }

    /// The same node with its min width constraint replaced.
    pub open spec fn with_min_width(self, w: int) -> NodeModel {
        self.with_constraints(ConstraintsModel {
            max_width: self.m_constraints().max_width,
            max_height: self.m_constraints().max_height,
            min_height: self.m_constraints().min_height,
            min_width: w,
        })
    }

    /// The same node with its min height constraint replaced.
    pub open spec fn with_min_height(self, h: int) -> NodeModel {
        self.with_constraints(ConstraintsModel {
            max_width: self.m_constraints().max_width,
            max_height: self.m_constraints().max_height,
            min_height: h,
            min_width: self.m_constraints().min_width,
        })
    }
}

// ---------------------------------------------------------------------------
// The min-constraint pass, bottom up.
// ---------------------------------------------------------------------------

impl NodeModel {
    /// The minimum width a node reports to its parent: a leaf needs its
    /// fixed width and nothing otherwise; a single-child container passes
    /// the child's need through, overridden by its own fixed width, plus
    /// its horizontal padding when it fits to content; a multi-child
    /// container sums its children's needs, plus its own horizontal
    /// padding when it fits to content, unless its own width is fixed.
    pub open spec fn min_report_w(self) -> int
        decreases self,
    {
        match self {
            NodeModel::Empty { intrinsic_width, .. } => match intrinsic_width {
                SizingModel::Fixed(w) => w,
                _ => 0,
            },
            NodeModel::Block { intrinsic_width, padding, child, .. } => match intrinsic_width {
                SizingModel::Fixed(w) => w,
                SizingModel::Flex(_) => child.min_report_w(),
                SizingModel::Fit => cap(child.min_report_w() + padding.left + padding.right),
            },
            NodeModel::Horizontal { intrinsic_width, padding, children, .. } => match intrinsic_width {
                SizingModel::Fixed(w) => w,
                SizingModel::Flex(_) => cap(sum_min_report_w(children)),
                SizingModel::Fit => cap(sum_min_report_w(children) + padding.left + padding.right),
            },
        }
    }

    /// The minimum height a node reports to its parent; the multi-child
    /// container sums heights as well, reading its row as a stack of rows.
    pub open spec fn min_report_h(self) -> int
        decreases self,
    {
        match self {
            NodeModel::Empty { intrinsic_height, .. } => match intrinsic_height {
                SizingModel::Fixed(h) => h,
                _ => 0,
            },
            NodeModel::Block { intrinsic_height, padding, child, .. } => match intrinsic_height {
                SizingModel::Fixed(h) => h,
                SizingModel::Flex(_) => child.min_report_h(),
                SizingModel::Fit => cap(child.min_report_h() + padding.top + padding.bottom),
            },
            NodeModel::Horizontal { intrinsic_height, padding, children, .. } => match intrinsic_height {
                SizingModel::Fixed(h) => h,
                SizingModel::Flex(_) => cap(sum_min_report_h(children)),
                SizingModel::Fit => cap(sum_min_report_h(children) + padding.top + padding.bottom),
            },
        }
    }

    /// The tree after the min-constraint pass: every node's min constraints
    /// hold what its subtree reports; nothing else changes.
    pub open spec fn after_min(self) -> NodeModel
        decreases self,
    {
        match self {
            NodeModel::Empty { .. } => self
                .with_min_width(self.min_report_w())
                .with_min_height(self.min_report_h()),
            NodeModel::Block { id, intrinsic_width, intrinsic_height, padding, size, position, child, constraints } => (
                NodeModel::Block {
                    id, intrinsic_width, intrinsic_height, padding, size, position,
                    child: Box::new(child.after_min()),
                    constraints,
                }
            )
                .with_min_width(self.min_report_w())
                .with_min_height(self.min_report_h()),
            NodeModel::Horizontal { id, size, position, children, spacing, padding, intrinsic_width, intrinsic_height, constraints } => (
                NodeModel::Horizontal {
                    id, size, position,
                    children: after_min_seq(children),
                    spacing, padding, intrinsic_width, intrinsic_height, constraints,
                }
            )
                .with_min_width(self.min_report_w())
                .with_min_height(self.min_report_h()),
        }
    }
}

/// The summed minimum widths of a row of children.
pub open spec fn sum_min_report_w(s: Seq<NodeModel>) -> int
    decreases s,
{
    if s.len() == 0 {
        0
    } else {
        s[0].min_report_w() + sum_min_report_w(s.drop_first())
    }
}

/// The summed minimum heights of a row of children.
pub open spec fn sum_min_report_h(s: Seq<NodeModel>) -> int
    decreases s,
{
    if s.len() == 0 {
        0
    } else {
        s[0].min_report_h() + sum_min_report_h(s.drop_first())
    }
}

/// Each child of a row after the min-constraint pass.
pub open spec fn after_min_seq(s: Seq<NodeModel>) -> Seq<NodeModel>
    decreases s,
{
    if s.len() == 0 {
        s
    } else {
        seq![s[0].after_min()] + after_min_seq(s.drop_first())
    }
}

// ---------------------------------------------------------------------------
// The max-constraint pass, top down.
// ---------------------------------------------------------------------------

/// The summed fixed widths of a row of children.
pub open spec fn sum_fixed_w(s: Seq<NodeModel>) -> int
    decreases s,
{
    if s.len() == 0 {
        0
    } else {
        (match s[0].m_intrinsic_width() {
            SizingModel::Fixed(w) => w,
            _ => 0,
        }) + sum_fixed_w(s.drop_first())
    }
}

/// The summed flex weights of a row of children.
pub open spec fn sum_flex(s: Seq<NodeModel>) -> int
    decreases s,
{
    if s.len() == 0 {
        0
    } else {
        (match s[0].m_intrinsic_width() {
            SizingModel::Flex(f) => f,
            _ => 0,
        }) + sum_flex(s.drop_first())
    }
}

/// The max width a row assigns one child: a fixed child takes its declared
/// width; a flexible child takes its weighted whole-number share of the
/// distributable width, or zero when no weight is present; a fitting child
/// is held to its own minimum width.
pub open spec fn child_max_w(c: NodeModel, distributable: int, flex_total: int) -> int {
    match c.m_intrinsic_width() {
        SizingModel::Fixed(w) => w,
        SizingModel::Flex(f) => if flex_total == 0 {
            0
        } else {
            distributable * f / flex_total
        },
        SizingModel::Fit => c.m_constraints().min_width,
    }
}

/// The max height a row assigns one child: fixed height, the row's own max
/// height for a flexible child, or the child's own minimum height.
pub open spec fn child_max_h(c: NodeModel, own_max_h: int) -> int {
    match c.m_intrinsic_height() {
        SizingModel::Fixed(h) => h,
        SizingModel::Flex(_) => own_max_h,
        SizingModel::Fit => c.m_constraints().min_height,
    }
}

impl NodeModel {
    /// The tree after the max-constraint pass, this node's own max
    /// constraints being `mw` and `mh`: a single-child container offers the
    /// child its own max less padding, clamped at zero, unless the child's
    /// axis is fixed; a multi-child container subtracts the fixed widths
    /// from its own max width, clamped at zero, and divides the rest among
    /// the flexible children by weight.
    pub open spec fn after_max(self, mw: int, mh: int) -> NodeModel
        decreases self,
    {
        match self {
            NodeModel::Empty { .. } => self.with_max_width(mw).with_max_height(mh),
            NodeModel::Block { id, intrinsic_width, intrinsic_height, padding, size, position, child, constraints } => {
                let cmw = match child.m_intrinsic_width() {
                    SizingModel::Fixed(w) => w,
                    _ => clamp0(mw - (padding.left + padding.right)),
                };
                let cmh = match child.m_intrinsic_height() {
                    SizingModel::Fixed(h) => h,
                    _ => clamp0(mh - (padding.top + padding.bottom)),
                };
                (NodeModel::Block {
                    id, intrinsic_width, intrinsic_height, padding, size, position,
                    child: Box::new(child.after_max(cmw, cmh)),
                    constraints,
                })
                    .with_max_width(mw)
                    .with_max_height(mh)
            },
            NodeModel::Horizontal { id, size, position, children, spacing, padding, intrinsic_width, intrinsic_height, constraints } => {
                let distributable = clamp0(mw - sum_fixed_w(children));
                let flex_total = sum_flex(children);
                (NodeModel::Horizontal {
                    id, size, position,
                    children: after_max_seq(children, distributable, flex_total, mh),
                    spacing, padding, intrinsic_width, intrinsic_height, constraints,
                })
                    .with_max_width(mw)
                    .with_max_height(mh)
            },
        }
    }
}

/// Each child of a row after the max-constraint pass.
pub open spec fn after_max_seq(s: Seq<NodeModel>, distributable: int, flex_total: int, own_max_h: int) -> Seq<NodeModel>
    decreases s,
{
    if s.len() == 0 {
        s
    } else {
        seq![s[0].after_max(child_max_w(s[0], distributable, flex_total), child_max_h(s[0], own_max_h))]
            + after_max_seq(s.drop_first(), distributable, flex_total, own_max_h)
    }
}

// ---------------------------------------------------------------------------
// The update-size pass, top down.
// ---------------------------------------------------------------------------

/// A solved axis: a fitting node takes its min constraint, a fixed node its
/// declared value, a flexible node its max constraint.
pub open spec fn resolve_axis(policy: SizingModel, min_c: int, max_c: int) -> int {
    match policy {
        SizingModel::Fit => min_c,
        SizingModel::Fixed(v) => v,
        SizingModel::Flex(_) => max_c,
    }
}

impl NodeModel {
    /// The size this node resolves to from its policies and its solved
    /// constraints.
    pub open spec fn resolved_size(self) -> SizeModel {
        SizeModel {
            width: resolve_axis(
                self.m_intrinsic_width(),
                self.m_constraints().min_width,
                self.m_constraints().max_width,
            ),
            height: resolve_axis(
                self.m_intrinsic_height(),
                self.m_constraints().min_height,
                self.m_constraints().max_height,
            ),
        }
    }

    /// The tree after the update-size pass: every node's size is resolved
    /// from its own policies and constraints; nothing else changes.
    pub open spec fn after_update(self) -> NodeModel
        decreases self,
    {
        match self {
            NodeModel::Empty { .. } => self.with_size(self.resolved_size()),
            NodeModel::Block { id, intrinsic_width, intrinsic_height, padding, size, position, child, constraints } => (
                NodeModel::Block {
                    id, intrinsic_width, intrinsic_height, padding, size, position,
                    child: Box::new(child.after_update()),
                    constraints,
                }
            ).with_size(self.resolved_size()),
            NodeModel::Horizontal { id, size, position, children, spacing, padding, intrinsic_width, intrinsic_height, constraints } => (
                NodeModel::Horizontal {
                    id, size, position,
                    children: after_update_seq(children),
                    spacing, padding, intrinsic_width, intrinsic_height, constraints,
                }
            ).with_size(self.resolved_size()),
        }
    }
}

/// Each child of a row after the update-size pass.
pub open spec fn after_update_seq(s: Seq<NodeModel>) -> Seq<NodeModel>
    decreases s,
{
    if s.len() == 0 {
        s
    } else {
        seq![s[0].after_update()] + after_update_seq(s.drop_first())
    }
}

// ---------------------------------------------------------------------------
// The height of a tree: the measure the top-down passes recurse along.
// ---------------------------------------------------------------------------

impl NodeModel {
    /// How many levels of containers stand above the deepest leaf.
    pub open spec fn height(self) -> nat
        decreases self,
    {
        match self {
            NodeModel::Empty { .. } => 0,
            NodeModel::Block { child, .. } => child.height() + 1,
            NodeModel::Horizontal { children, .. } => max_height_seq(children) + 1,
        }
    }
}

/// The greatest height among a row of children.
pub open spec fn max_height_seq(s: Seq<NodeModel>) -> nat
    decreases s,
{
    if s.len() == 0 {
        0
    } else if s[0].height() > max_height_seq(s.drop_first()) {
        s[0].height()
    } else {
        max_height_seq(s.drop_first())
    }
}

/// No child of a row stands taller than the row's greatest height.
pub proof fn lemma_max_height_seq_ge(s: Seq<NodeModel>, i: int)
    requires
        0 <= i < s.len(),
    ensures
        s[i].height() <= max_height_seq(s),
    decreases s,
{
    if i > 0 {
        lemma_max_height_seq_ge(s.drop_first(), i - 1);
        assert(s.drop_first()[i - 1] == s[i]);
    }
}

/// Replacing a node's max width leaves its height alone.
pub proof fn lemma_height_with_max_width(x: NodeModel, w: int)
    ensures
        x.with_max_width(w).height() == x.height(),
{
    match x {
        NodeModel::Empty { .. } => {},
        NodeModel::Block { .. } => {},
        NodeModel::Horizontal { .. } => {},
    }
}

/// Replacing a node's max height leaves its height alone.
pub proof fn lemma_height_with_max_height(x: NodeModel, h: int)
    ensures
        x.with_max_height(h).height() == x.height(),
{
    match x {
        NodeModel::Empty { .. } => {},
        NodeModel::Block { .. } => {},
        NodeModel::Horizontal { .. } => {},
    }
}

/// The max-constraint pass overwrites a node's own max constraints with
/// the values handed down, so whatever the node's stored max constraints
/// were beforehand does not show in the result.
pub proof fn lemma_after_max_ignores_own_max(x: NodeModel, a: int, b: int, mw: int, mh: int)
    ensures
        x.with_max_width(a).with_max_height(b).after_max(mw, mh) == x.after_max(mw, mh),
{
    let y = x.with_max_width(a).with_max_height(b);
    match x {
        NodeModel::Empty { .. } => {
            assert(y.after_max(mw, mh) =~~= x.after_max(mw, mh));
        },
        NodeModel::Block { .. } => {
            assert(y.after_max(mw, mh) =~~= x.after_max(mw, mh));
        },
        NodeModel::Horizontal { .. } => {
            assert(y.after_max(mw, mh) =~~= x.after_max(mw, mh));
        },
    }
}

/// The min-constraint pass never reads nor writes max constraints, so
/// seeding the root's max constraints first and running the min pass is
/// the same as running the min pass first and seeding afterwards.
pub proof fn lemma_after_min_with_max(t: NodeModel, w: int, h: int)
    ensures
        t.with_max_width(w).with_max_height(h).after_min()
            == t.after_min().with_max_width(w).with_max_height(h),
{
    let t1 = t.with_max_width(w).with_max_height(h);
    match t {
        NodeModel::Empty { .. } => {
            assert(t1.after_min() =~~= t.after_min().with_max_width(w).with_max_height(h));
        },
        NodeModel::Block { .. } => {
            assert(t1.after_min() =~~= t.after_min().with_max_width(w).with_max_height(h));
        },
        NodeModel::Horizontal { .. } => {
            assert(t1.after_min() =~~= t.after_min().with_max_width(w).with_max_height(h));
        },
    }
}

// ---------------------------------------------------------------------------
// Bounds on the flex weights of a row.
// ---------------------------------------------------------------------------

/// The flex weight a child contributes to its row's total.
pub open spec fn flex_of(c: NodeModel) -> int {
    match c.m_intrinsic_width() {
        SizingModel::Flex(f) => f,
        _ => 0,
    }
}

/// When no child's weight is negative, the total is not either.
pub proof fn lemma_sum_flex_nonneg(s: Seq<NodeModel>)
    requires
        forall|j: int| 0 <= j < s.len() ==> flex_of(#[trigger] s[j]) >= 0,
    ensures
        sum_flex(s) >= 0,
    decreases s,
{
    if s.len() > 0 {
        assert(flex_of(s[0]) >= 0);
        assert forall|j: int| 0 <= j < s.drop_first().len() implies flex_of(#[trigger] s.drop_first()[j]) >= 0 by {
            assert(s.drop_first()[j] == s[j + 1]);
        }
        lemma_sum_flex_nonneg(s.drop_first());
    }
}

/// When no child's weight is negative, one child's weight never exceeds
/// the row's total.
pub proof fn lemma_sum_flex_ge_elem(s: Seq<NodeModel>, i: int)
    requires
        0 <= i < s.len(),
        forall|j: int| 0 <= j < s.len() ==> flex_of(#[trigger] s[j]) >= 0,
    ensures
        flex_of(s[i]) <= sum_flex(s),
    decreases s,
{
    assert forall|j: int| 0 <= j < s.drop_first().len() implies flex_of(#[trigger] s.drop_first()[j]) >= 0 by {
        assert(s.drop_first()[j] == s[j + 1]);
    }
    if i == 0 {
        lemma_sum_flex_nonneg(s.drop_first());
    } else {
        lemma_sum_flex_ge_elem(s.drop_first(), i - 1);
        assert(s.drop_first()[i - 1] == s[i]);
        assert(flex_of(s[0]) >= 0);
    }
}

// ---------------------------------------------------------------------------
// Pointwise readings of the row transforms and of the row sums.
// ---------------------------------------------------------------------------

/// The min-constraint pass maps a row child by child.
pub proof fn lemma_after_min_seq_index(s: Seq<NodeModel>)
    ensures
        after_min_seq(s).len() == s.len(),
        forall|i: int| 0 <= i < s.len() ==> after_min_seq(s)[i] == #[trigger] s[i].after_min(),
    decreases s,
{
    if s.len() > 0 {
        lemma_after_min_seq_index(s.drop_first());
        assert forall|i: int| 0 <= i < s.len() implies after_min_seq(s)[i] == #[trigger] s[i].after_min() by {
            if i > 0 {
                assert(after_min_seq(s)[i] == after_min_seq(s.drop_first())[i - 1]);
                assert(s.drop_first()[i - 1] == s[i]);
            }
        }
    }
}

/// The max-constraint pass maps a row child by child.
pub proof fn lemma_after_max_seq_index(s: Seq<NodeModel>, distributable: int, flex_total: int, own_max_h: int)
    ensures
        after_max_seq(s, distributable, flex_total, own_max_h).len() == s.len(),
        forall|i: int| 0 <= i < s.len() ==> after_max_seq(s, distributable, flex_total, own_max_h)[i]
            == (#[trigger] s[i]).after_max(child_max_w(s[i], distributable, flex_total), child_max_h(s[i], own_max_h)),
    decreases s,
{
    if s.len() > 0 {
        lemma_after_max_seq_index(s.drop_first(), distributable, flex_total, own_max_h);
        assert forall|i: int| 0 <= i < s.len() implies after_max_seq(s, distributable, flex_total, own_max_h)[i]
            == (#[trigger] s[i]).after_max(child_max_w(s[i], distributable, flex_total), child_max_h(s[i], own_max_h)) by {
            if i > 0 {
                assert(after_max_seq(s, distributable, flex_total, own_max_h)[i]
                    == after_max_seq(s.drop_first(), distributable, flex_total, own_max_h)[i - 1]);
                assert(s.drop_first()[i - 1] == s[i]);
            }
        }
    }
}

/// The update-size pass maps a row child by child.
pub proof fn lemma_after_update_seq_index(s: Seq<NodeModel>)
    ensures
        after_update_seq(s).len() == s.len(),
        forall|i: int| 0 <= i < s.len() ==> after_update_seq(s)[i] == #[trigger] s[i].after_update(),
    decreases s,
{
    if s.len() > 0 {
        lemma_after_update_seq_index(s.drop_first());
        assert forall|i: int| 0 <= i < s.len() implies after_update_seq(s)[i] == #[trigger] s[i].after_update() by {
            if i > 0 {
                assert(after_update_seq(s)[i] == after_update_seq(s.drop_first())[i - 1]);
                assert(s.drop_first()[i - 1] == s[i]);
            }
        }
    }
}

/// Summing one more child's minimum width adds that child's report.
pub proof fn lemma_sum_min_w_push(s: Seq<NodeModel>, x: NodeModel)
    ensures
        sum_min_report_w(s.push(x)) == sum_min_report_w(s) + x.min_report_w(),
    decreases s,
{
    reveal_with_fuel(sum_min_report_w, 3);
    let t = s.push(x);
    assert(t.len() == s.len() + 1);
    if s.len() == 0 {
        assert(t.drop_first() =~= Seq::<NodeModel>::empty());
        assert(t[0] == x);
    } else {
        assert(t.drop_first() =~= s.drop_first().push(x));
        assert(t[0] == s[0]);
        lemma_sum_min_w_push(s.drop_first(), x);
    }
}

/// Summing one more child's minimum height adds that child's report.
pub proof fn lemma_sum_min_h_push(s: Seq<NodeModel>, x: NodeModel)
    ensures
        sum_min_report_h(s.push(x)) == sum_min_report_h(s) + x.min_report_h(),
    decreases s,
{
    reveal_with_fuel(sum_min_report_h, 3);
    let t = s.push(x);
    assert(t.len() == s.len() + 1);
    if s.len() == 0 {
        assert(t.drop_first() =~= Seq::<NodeModel>::empty());
        assert(t[0] == x);
    } else {
        assert(t.drop_first() =~= s.drop_first().push(x));
        assert(t[0] == s[0]);
        lemma_sum_min_h_push(s.drop_first(), x);
    }
}

/// Summing one more child's fixed width adds that child's fixed width.
pub proof fn lemma_sum_fixed_w_push(s: Seq<NodeModel>, x: NodeModel)
    ensures
        sum_fixed_w(s.push(x)) == sum_fixed_w(s) + (match x.m_intrinsic_width() {
            SizingModel::Fixed(w) => w,
            _ => 0,
        }),
    decreases s,
{
    reveal_with_fuel(sum_fixed_w, 3);
    let t = s.push(x);
    assert(t.len() == s.len() + 1);
    if s.len() == 0 {
        assert(t.drop_first() =~= Seq::<NodeModel>::empty());
        assert(t[0] == x);
    } else {
        assert(t.drop_first() =~= s.drop_first().push(x));
        assert(t[0] == s[0]);
        lemma_sum_fixed_w_push(s.drop_first(), x);
    }
}

/// Summing one more child's flex weight adds that child's weight.
pub proof fn lemma_sum_flex_push(s: Seq<NodeModel>, x: NodeModel)
    ensures
        sum_flex(s.push(x)) == sum_flex(s) + (match x.m_intrinsic_width() {
            SizingModel::Flex(f) => f,
            _ => 0,
        }),
    decreases s,
{
    reveal_with_fuel(sum_flex, 3);
    let t = s.push(x);
    assert(t.len() == s.len() + 1);
    if s.len() == 0 {
        assert(t.drop_first() =~= Seq::<NodeModel>::empty());
        assert(t[0] == x);
    } else {
        assert(t.drop_first() =~= s.drop_first().push(x));
        assert(t[0] == s[0]);
        lemma_sum_flex_push(s.drop_first(), x);
    }
}

// ---------------------------------------------------------------------------
// The whole pass, as the orchestrator drives it.
// ---------------------------------------------------------------------------

impl NodeModel {
    /// The max width the viewport seeds into the root: the root's own fixed
    /// width, or the viewport's width.
    pub open spec fn seed_w(self, viewport: SizeModel) -> int {
        match self.m_intrinsic_width() {
            SizingModel::Fixed(w) => w,
            _ => viewport.width,
        }
    }

    /// The max height the viewport seeds into the root.
    pub open spec fn seed_h(self, viewport: SizeModel) -> int {
        match self.m_intrinsic_height() {
            SizingModel::Fixed(h) => h,
            _ => viewport.height,
        }
    }

    /// One complete layout pass under a viewport: the root's max
    /// constraints are seeded from the viewport, the min-constraint pass
    /// runs bottom up, the max-constraint pass top down, and the
    /// update-size pass resolves every node's size.
    pub open spec fn laid_out(self, viewport: SizeModel) -> NodeModel {
        self.after_min()
            .after_max(self.seed_w(viewport), self.seed_h(viewport))
            .after_update()
    }
}

} // verus!
