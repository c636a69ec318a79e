//! The laws of the layout engine, stated and proved over the model.
use vstd::prelude::*;

use crate::model::{
    after_max_seq, after_min_seq, after_update_seq, child_max_h, child_max_w, clamp0,
    lemma_after_max_seq_index, lemma_after_min_seq_index, lemma_after_update_seq_index,
    sum_fixed_w, sum_flex, sum_min_report_h, sum_min_report_w, NodeModel,
    PaddingModel, SizeModel, SizingModel,
};

verus! {

/// One full pass under given root max constraints: the min-constraint
/// pass, the max-constraint pass, the update-size pass.
pub open spec fn full_pass(t: NodeModel, mw: int, mh: int) -> NodeModel {
    t.after_min().after_max(mw, mh).after_update()
}

/// Two trees share a shape when they agree on everything the solving
/// passes read or keep and differ at most in constraints and sizes:
/// identity, position, policies, padding, spacing, and the shapes of
/// their children.
pub open spec fn same_shape(a: NodeModel, b: NodeModel) -> bool
    decreases a,
{
    match (a, b) {
        (NodeModel::Empty { .. }, NodeModel::Empty { .. }) => {
            &&& a.m_id() == b.m_id()
            &&& a.m_position() == b.m_position()
            &&& a.m_intrinsic_width() == b.m_intrinsic_width()
            &&& a.m_intrinsic_height() == b.m_intrinsic_height()
        },
        (NodeModel::Block { child: ca, padding: pa, .. }, NodeModel::Block { child: cb, padding: pb, .. }) => {
            &&& a.m_id() == b.m_id()
            &&& a.m_position() == b.m_position()
            &&& a.m_intrinsic_width() == b.m_intrinsic_width()
            &&& a.m_intrinsic_height() == b.m_intrinsic_height()
            &&& pa == pb
            &&& same_shape(*ca, *cb)
        },
        (
            NodeModel::Horizontal { children: sa, spacing: ga, padding: pa, .. },
            NodeModel::Horizontal { children: sb, spacing: gb, padding: pb, .. },
        ) => {
            &&& a.m_id() == b.m_id()
            &&& a.m_position() == b.m_position()
            &&& a.m_intrinsic_width() == b.m_intrinsic_width()
            &&& a.m_intrinsic_height() == b.m_intrinsic_height()
            &&& ga == gb
            &&& pa == pb
            &&& same_shape_seq(sa, sb)
        },
        _ => false,
    }
}

/// Two rows of children share their shapes child by child.
pub open spec fn same_shape_seq(sa: Seq<NodeModel>, sb: Seq<NodeModel>) -> bool
    decreases sa,
{
    if sa.len() != sb.len() {
        false
    } else if sa.len() == 0 {
        true
    } else {
        same_shape(sa[0], sb[0]) && same_shape_seq(sa.drop_first(), sb.drop_first())
    }
}

/// Sharing shapes child by child read pointwise.
pub proof fn lemma_same_shape_seq_index(sa: Seq<NodeModel>, sb: Seq<NodeModel>)
    requires
        same_shape_seq(sa, sb),
    ensures
        sa.len() == sb.len(),
        forall|i: int| 0 <= i < sa.len() ==> #[trigger] same_shape(sa[i], sb[i]),
    decreases sa,
{
    if sa.len() > 0 {
        lemma_same_shape_seq_index(sa.drop_first(), sb.drop_first());
        assert forall|i: int| 0 <= i < sa.len() implies #[trigger] same_shape(sa[i], sb[i]) by {
            if i > 0 {
                assert(sa.drop_first()[i - 1] == sa[i]);
                assert(sb.drop_first()[i - 1] == sb[i]);
                assert(same_shape(sa.drop_first()[i - 1], sb.drop_first()[i - 1]));
            }
        }
    }
}

/// Sharing shapes child by child, built from pointwise facts.
pub proof fn lemma_same_shape_seq_build(sa: Seq<NodeModel>, sb: Seq<NodeModel>)
    requires
        sa.len() == sb.len(),
        forall|i: int| 0 <= i < sa.len() ==> #[trigger] same_shape(sa[i], sb[i]),
    ensures
        same_shape_seq(sa, sb),
    decreases sa,
{
    if sa.len() > 0 {
        assert(same_shape(sa[0], sb[0]));
        assert forall|i: int| 0 <= i < sa.drop_first().len()
            implies #[trigger] same_shape(sa.drop_first()[i], sb.drop_first()[i]) by {
            assert(sa.drop_first()[i] == sa[i + 1]);
            assert(sb.drop_first()[i] == sb[i + 1]);
            assert(same_shape(sa[i + 1], sb[i + 1]));
        }
        lemma_same_shape_seq_build(sa.drop_first(), sb.drop_first());
    }
}

/// The min-constraint pass leaves a node's variant and policies alone and
/// sets its own min constraints to what its subtree reports.
pub proof fn lemma_after_min_root_facts(t: NodeModel)
    ensures
        t.after_min().m_intrinsic_width() == t.m_intrinsic_width(),
        t.after_min().m_intrinsic_height() == t.m_intrinsic_height(),
        t.after_min().m_constraints().min_width == t.min_report_w(),
        t.after_min().m_constraints().min_height == t.min_report_h(),
        t.after_min().m_constraints().max_width == t.m_constraints().max_width,
        t.after_min().m_constraints().max_height == t.m_constraints().max_height,
        t is Empty ==> t.after_min() is Empty,
        t is Block ==> t.after_min() is Block,
        t is Horizontal ==> t.after_min() is Horizontal,
{
    match t {
        NodeModel::Empty { .. } => {},
        NodeModel::Block { .. } => {},
        NodeModel::Horizontal { .. } => {},
    }
}

/// The min-constraint pass changes no child's policy, so the fixed and
/// flex totals of a row are the same before and after it.
pub proof fn lemma_sums_after_min(s: Seq<NodeModel>)
    ensures
        sum_fixed_w(after_min_seq(s)) == sum_fixed_w(s),
        sum_flex(after_min_seq(s)) == sum_flex(s),
    decreases s,
{
    if s.len() > 0 {
        lemma_after_min_root_facts(s[0]);
        lemma_sums_after_min(s.drop_first());
        assert(after_min_seq(s).drop_first() =~= after_min_seq(s.drop_first()));
        assert(after_min_seq(s)[0] == s[0].after_min());
    }
}

/// Trees of the same shape report the same minimums.
pub proof fn lemma_report_same_shape(a: NodeModel, b: NodeModel)
    requires
        same_shape(a, b),
    ensures
        a.min_report_w() == b.min_report_w(),
        a.min_report_h() == b.min_report_h(),
    decreases a,
{
    match (a, b) {
        (NodeModel::Empty { .. }, NodeModel::Empty { .. }) => {},
        (NodeModel::Block { child: ca, .. }, NodeModel::Block { child: cb, .. }) => {
            lemma_report_same_shape(*ca, *cb);
        },
        (NodeModel::Horizontal { children: sa, .. }, NodeModel::Horizontal { children: sb, .. }) => {
            lemma_same_shape_seq_index(sa, sb);
            lemma_sum_reports_same_shape(sa, sb);
        },
        _ => {},
    }
}

/// Rows of children of the same shapes report the same summed minimums
/// and the same fixed and flex totals.
pub proof fn lemma_sum_reports_same_shape(sa: Seq<NodeModel>, sb: Seq<NodeModel>)
    requires
        sa.len() == sb.len(),
        forall|i: int| 0 <= i < sa.len() ==> #[trigger] same_shape(sa[i], sb[i]),
    ensures
        sum_min_report_w(sa) == sum_min_report_w(sb),
        sum_min_report_h(sa) == sum_min_report_h(sb),
        sum_fixed_w(sa) == sum_fixed_w(sb),
        sum_flex(sa) == sum_flex(sb),
    decreases sa,
{
    if sa.len() > 0 {
        assert(same_shape(sa[0], sb[0]));
        lemma_report_same_shape(sa[0], sb[0]);
        assert forall|i: int| 0 <= i < sa.drop_first().len()
            implies #[trigger] same_shape(sa.drop_first()[i], sb.drop_first()[i]) by {
            assert(sa.drop_first()[i] == sa[i + 1]);
            assert(sb.drop_first()[i] == sb[i + 1]);
            assert(same_shape(sa[i + 1], sb[i + 1]));
        }
        lemma_sum_reports_same_shape(sa.drop_first(), sb.drop_first());
        lemma_same_shape_root(sa[0], sb[0]);
    }
}

/// Trees of the same shape agree on their roots' identity, position and
/// policies.
pub proof fn lemma_same_shape_root(a: NodeModel, b: NodeModel)
    requires
        same_shape(a, b),
    ensures
        a.m_id() == b.m_id(),
        a.m_position() == b.m_position(),
        a.m_intrinsic_width() == b.m_intrinsic_width(),
        a.m_intrinsic_height() == b.m_intrinsic_height(),
{
    match (a, b) {
        (NodeModel::Empty { .. }, NodeModel::Empty { .. }) => {},
        (NodeModel::Block { .. }, NodeModel::Block { .. }) => {},
        (NodeModel::Horizontal { .. }, NodeModel::Horizontal { .. }) => {},
        _ => {},
    }
}

/// A full pass changes only constraints and sizes: the tree that comes
/// out shares the shape of the tree that went in.
pub proof fn lemma_full_pass_same_shape(t: NodeModel, mw: int, mh: int)
    ensures
        same_shape(t, full_pass(t, mw, mh)),
    decreases t,
{
    match t {
        NodeModel::Empty { .. } => {},
        NodeModel::Block { child, padding, .. } => {
            let c = *child;
            let cmw = match c.m_intrinsic_width() {
                SizingModel::Fixed(w) => w,
                _ => clamp0(mw - (padding.left + padding.right)),
            };
            let cmh = match c.m_intrinsic_height() {
                SizingModel::Fixed(h) => h,
                _ => clamp0(mh - (padding.top + padding.bottom)),
            };
            lemma_after_min_root_facts(c);
            lemma_full_pass_same_shape(c, cmw, cmh);
            assert(full_pass(t, mw, mh) matches NodeModel::Block { child: c2, .. }
                && *c2 == full_pass(c, cmw, cmh));
        },
        NodeModel::Horizontal { children: s, .. } => {
            let s1 = after_min_seq(s);
            let d = clamp0(mw - sum_fixed_w(s1));
            let ft = sum_flex(s1);
            let s2 = after_max_seq(s1, d, ft, mh);
            let s3 = after_update_seq(s2);
            lemma_after_min_seq_index(s);
            lemma_after_max_seq_index(s1, d, ft, mh);
            lemma_after_update_seq_index(s2);
            assert forall|i: int| 0 <= i < s.len() implies #[trigger] same_shape(s[i], s3[i]) by {
                lemma_after_min_root_facts(s[i]);
                let wi = child_max_w(s1[i], d, ft);
                let hi = child_max_h(s1[i], mh);
                assert(s3[i] == full_pass(s[i], wi, hi));
                lemma_full_pass_same_shape(s[i], wi, hi);
            }
            lemma_same_shape_seq_build(s, s3);
            assert(full_pass(t, mw, mh) matches NodeModel::Horizontal { children: c3, .. } && c3 == s3);
        },
    }
}

/// Trees of the same shape are laid out identically: a full pass under
/// the same root max constraints yields equal trees.
pub proof fn lemma_full_pass_congruent(a: NodeModel, b: NodeModel, mw: int, mh: int)
    requires
        same_shape(a, b),
    ensures
        full_pass(a, mw, mh) == full_pass(b, mw, mh),
    decreases a,
{
    match (a, b) {
        (NodeModel::Empty { .. }, NodeModel::Empty { .. }) => {
            assert(full_pass(a, mw, mh) =~~= full_pass(b, mw, mh));
        },
        (NodeModel::Block { child: ca, padding: pa, .. }, NodeModel::Block { child: cb, .. }) => {
            let c = *ca;
            let cmw = match c.m_intrinsic_width() {
                SizingModel::Fixed(w) => w,
                _ => clamp0(mw - (pa.left + pa.right)),
            };
            let cmh = match c.m_intrinsic_height() {
                SizingModel::Fixed(h) => h,
                _ => clamp0(mh - (pa.top + pa.bottom)),
            };
            lemma_same_shape_root(*ca, *cb);
            lemma_after_min_root_facts(*ca);
            lemma_after_min_root_facts(*cb);
            lemma_report_same_shape(a, b);
            lemma_full_pass_congruent(*ca, *cb, cmw, cmh);
            assert(full_pass(a, mw, mh) =~~= full_pass(b, mw, mh));
        },
        (NodeModel::Horizontal { children: sa, .. }, NodeModel::Horizontal { children: sb, .. }) => {
            lemma_same_shape_seq_index(sa, sb);
            lemma_sum_reports_same_shape(sa, sb);
            lemma_sums_after_min(sa);
            lemma_sums_after_min(sb);
            lemma_report_same_shape(a, b);
            let sa1 = after_min_seq(sa);
            let sb1 = after_min_seq(sb);
            let d = clamp0(mw - sum_fixed_w(sa1));
            let ft = sum_flex(sa1);
            let sa2 = after_max_seq(sa1, d, ft, mh);
            let sb2 = after_max_seq(sb1, d, ft, mh);
            let sa3 = after_update_seq(sa2);
            let sb3 = after_update_seq(sb2);
            lemma_after_min_seq_index(sa);
            lemma_after_min_seq_index(sb);
            lemma_after_max_seq_index(sa1, d, ft, mh);
            lemma_after_max_seq_index(sb1, d, ft, mh);
            lemma_after_update_seq_index(sa2);
            lemma_after_update_seq_index(sb2);
            assert(clamp0(mw - sum_fixed_w(sb1)) == d);
            assert(sum_flex(sb1) == ft);
            assert forall|i: int| 0 <= i < sa.len() implies sa3[i] == sb3[i] by {
                assert(same_shape(sa[i], sb[i]));
                lemma_after_min_root_facts(sa[i]);
                lemma_after_min_root_facts(sb[i]);
                lemma_report_same_shape(sa[i], sb[i]);
                lemma_same_shape_root(sa[i], sb[i]);
                let wi = child_max_w(sa1[i], d, ft);
                let hi = child_max_h(sa1[i], mh);
                assert(child_max_w(sb1[i], d, ft) == wi);
                assert(child_max_h(sb1[i], mh) == hi);
                assert(sa3[i] == full_pass(sa[i], wi, hi));
                assert(sb3[i] == full_pass(sb[i], wi, hi));
                lemma_full_pass_congruent(sa[i], sb[i], wi, hi);
            }
            assert(sa3 =~= sb3);
            assert(full_pass(a, mw, mh) =~~= full_pass(b, mw, mh));
        },
        _ => {},
    }
}

/// A childless leaf whose width policy is fixed resolves, under any
/// viewport at least as wide, to exactly its fixed width.
pub proof fn lemma_fixed_leaf_width(t: NodeModel, viewport: SizeModel, v: int)
    requires
        t is Empty,
        t.m_intrinsic_width() == SizingModel::Fixed(v),
        viewport.width >= v,
    ensures
        t.laid_out(viewport).m_size().width == v,
{
}

/// A childless leaf whose height policy is fixed resolves, under any
/// viewport at least as tall, to exactly its fixed height.
pub proof fn lemma_fixed_leaf_height(t: NodeModel, viewport: SizeModel, v: int)
    requires
        t is Empty,
        t.m_intrinsic_height() == SizingModel::Fixed(v),
        viewport.height >= v,
    ensures
        t.laid_out(viewport).m_size().height == v,
{
}

/// A flexible childless leaf standing as the sole child of a flexible,
/// unpadded single-child root resolves to exactly the viewport's size.
pub proof fn lemma_flex_leaf_fills_root(root: NodeModel, viewport: SizeModel)
    requires
        root matches NodeModel::Block { child, padding, .. }
            && *child is Empty
            && child.m_intrinsic_width() is Flex
            && child.m_intrinsic_height() is Flex
            && padding == (PaddingModel { left: 0, right: 0, top: 0, bottom: 0 }),
        root.m_intrinsic_width() is Flex,
        root.m_intrinsic_height() is Flex,
        viewport.width >= 0,
        viewport.height >= 0,
    ensures
        root.laid_out(viewport) matches NodeModel::Block { child: solved, .. }
            && solved.m_size() == (SizeModel { width: viewport.width, height: viewport.height }),
{
    let sw = root.seed_w(viewport);
    let sh = root.seed_h(viewport);
    assert(sw == viewport.width);
    assert(sh == viewport.height);
    match root {
        NodeModel::Block { child, padding, .. } => {
            let c = *child;
            let c1 = c.after_min();
            lemma_after_min_root_facts(c);
            assert(root.after_min() matches NodeModel::Block { child: cc1, .. } && *cc1 == c1);
            let c2 = c1.after_max(viewport.width, viewport.height);
            assert(root.after_min().after_max(sw, sh) matches NodeModel::Block { child: cc2, .. }
                && *cc2 == c2);
            assert(c2.m_constraints().max_width == viewport.width);
            assert(c2.m_constraints().max_height == viewport.height);
            assert(c2.m_intrinsic_width() is Flex);
            assert(c2.m_intrinsic_height() is Flex);
            let c3 = c2.after_update();
            assert(root.laid_out(viewport) matches NodeModel::Block { child: cc3, .. }
                && *cc3 == c3);
            assert(c3.m_size().width == viewport.width);
            assert(c3.m_size().height == viewport.height);
        },
        _ => {},
    }
}

/// A childless leaf that fits to content on both axes, with no overrides,
/// resolves to size zero under every viewport.
pub proof fn lemma_fit_leaf_zero(t: NodeModel, viewport: SizeModel)
    requires
        t is Empty,
        t.m_intrinsic_width() is Fit,
        t.m_intrinsic_height() is Fit,
    ensures
        t.laid_out(viewport).m_size() == (SizeModel { width: 0, height: 0 }),
{
}

/// One full layout pass is idempotent: running the whole solve a second
/// time on its own result, under the same viewport, reproduces that
/// result exactly, constraints and sizes alike; the engine keeps no
/// hidden accumulating state.
pub proof fn lemma_layout_idempotent(t: NodeModel, viewport: SizeModel)
    ensures
        t.laid_out(viewport).laid_out(viewport) == t.laid_out(viewport),
{
    let sw = t.seed_w(viewport);
    let sh = t.seed_h(viewport);
    let l = t.laid_out(viewport);
    assert(l == full_pass(t, sw, sh));
    lemma_full_pass_same_shape(t, sw, sh);
    lemma_same_shape_root(t, l);
    assert(l.seed_w(viewport) == sw);
    assert(l.seed_h(viewport) == sh);
    lemma_full_pass_congruent(t, l, sw, sh);
    assert(l.laid_out(viewport) == full_pass(l, sw, sh));
}

} // verus!
