use flow::{
    solve_layout, BlockLayout, BoxConstraints, BoxSizing, Color, Element, EmptyLayout, GlobalId,
    HorizontalLayout, IdAllocator, LayoutNode, Padding, Position, Rgba, Size, WidgetId,
};

#[test]
fn default_box_sizing() {
    assert_eq!(BoxSizing::default(), BoxSizing::Fit);
}

#[test]
fn spacing() {}

#[test]
fn horizontal_spacing() {
    let mut element = Element::new();
    element.spacing = 20;
    element.children = vec![Element::new(), Element::new(), Element::new()];

    element.layout();
    assert_eq!(element.children[0].position.x, 0);
    assert_eq!(element.children[1].position.x, 20);
    assert_eq!(element.children[2].position.x, 40);
}

#[test]
fn spacing_starts_at_first_child() {
    let mut element = Element::new();
    element.spacing = 5;
    let mut first = Element::new();
    first.position = Position::new(7, 9);
    first.size = Size::new(10, 4);
    let mut second = Element::new();
    second.size = Size::new(3, 4);
    let third = Element::new();
    element.children = vec![first, second, third];

    element.layout();
    assert_eq!(element.children[0].position.x, 7);
    assert_eq!(element.children[1].position.x, 22);
    assert_eq!(element.children[2].position.x, 30);
    assert_eq!(element.children[0].position.y, 9);
}

#[test]
fn layout_pass_is_idempotent() {
    let mut child1 = EmptyLayout::new();
    child1.intrinsic_width = BoxSizing::Fixed(200);
    child1.intrinsic_height = BoxSizing::Fixed(30);
    let mut child2 = EmptyLayout::new();
    child2.intrinsic_width = BoxSizing::Flex(1);
    child2.intrinsic_height = BoxSizing::Flex(1);
    let mut inner = BlockLayout::new(LayoutNode::Empty(child2));
    inner.padding = Padding::new(3, 4, 5, 6);
    inner.intrinsic_width = BoxSizing::Flex(2);

    let mut row = HorizontalLayout::new();
    row.intrinsic_width = BoxSizing::Flex(1);
    row.intrinsic_height = BoxSizing::Flex(1);
    row.push(LayoutNode::Empty(child1));
    row.push(LayoutNode::Block(inner));

    let mut root = LayoutNode::Horizontal(row);
    solve_layout(&mut root, Size::new(640, 480));
    let first_root_size = root.size();
    let first_root_constraints = root.constraints();
    let (first_sizes, first_constraints) = match &root {
        LayoutNode::Horizontal(h) => (
            vec![h.children()[0].size(), h.children()[1].size()],
            vec![h.children()[0].constraints(), h.children()[1].constraints()],
        ),
        _ => unreachable!(),
    };

    solve_layout(&mut root, Size::new(640, 480));
    assert_eq!(root.size(), first_root_size);
    assert_eq!(root.constraints(), first_root_constraints);
    match &root {
        LayoutNode::Horizontal(h) => {
            assert_eq!(h.children()[0].size(), first_sizes[0]);
            assert_eq!(h.children()[1].size(), first_sizes[1]);
            assert_eq!(h.children()[0].constraints(), first_constraints[0]);
            assert_eq!(h.children()[1].constraints(), first_constraints[1]);
        },
        _ => unreachable!(),
    }
}

#[test]
fn flex_leaf_fills_flex_root() {
    let mut child = EmptyLayout::new();
    child.intrinsic_width = BoxSizing::Flex(3);
    child.intrinsic_height = BoxSizing::Flex(2);
    let mut root = BlockLayout::new(LayoutNode::Empty(child));
    root.intrinsic_width = BoxSizing::Flex(1);
    root.intrinsic_height = BoxSizing::Flex(1);

    let mut root = LayoutNode::Block(root);
    solve_layout(&mut root, Size::new(800, 600));
    let root = match root {
        LayoutNode::Block(b) => b,
        _ => unreachable!(),
    };
    assert_eq!(root.child().size(), Size::new(800, 600));
}

#[test]
fn padding_helpers() {
    let p = Padding::new(1, 2, 3, 4);
    assert_eq!(p.left, 1);
    assert_eq!(p.right, 2);
    assert_eq!(p.top, 3);
    assert_eq!(p.bottom, 4);

    let s = Padding::sides(7, 9);
    assert_eq!(s.left, 7);
    assert_eq!(s.right, 7);
    assert_eq!(s.top, 9);
    assert_eq!(s.bottom, 9);

    assert_eq!(Padding::default(), Padding::new(0, 0, 0, 0));
}

#[test]
fn geometry_helpers() {
    let size: Size<u64> = Size::new(3, 4);
    assert_eq!(size.width, 3);
    assert_eq!(size.height, 4);
    assert_eq!(Size::unit(5u64), Size::new(5, 5));

    let position: Position<u64> = Position::new(8, 9);
    assert_eq!(position.x, 8);
    assert_eq!(position.y, 9);

    let constraints = BoxConstraints::new();
    assert_eq!(constraints.max_width, 0);
    assert_eq!(constraints.min_height, 0);
}

#[test]
fn identity_helpers() {
    assert_eq!(GlobalId::new(), GlobalId::default());
    assert_eq!(WidgetId::new(), WidgetId::default());
    assert_eq!(Color::<Rgba>::rgba(1, 2, 3, 4), Color::<Rgba>::rgba(1, 2, 3, 4));

    let mut ids = IdAllocator::new();
    let a = ids.fresh();
    let b = ids.fresh();
    let c = ids.fresh();
    assert_ne!(a, b);
    assert_ne!(b, c);
    assert_ne!(a, c);
    assert_eq!(a.value, 0);
    assert_eq!(c.value, 2);
}

#[test]
fn node_capability_set() {
    let mut node = LayoutNode::Empty(EmptyLayout::new());
    node.set_max_width(100);
    node.set_max_height(200);
    node.set_min_width(10);
    node.set_min_height(20);
    assert_eq!(node.constraints().max_width, 100);
    assert_eq!(node.constraints().max_height, 200);
    assert_eq!(node.constraints().min_width, 10);
    assert_eq!(node.constraints().min_height, 20);

    node.set_size(Size::new(3, 4));
    node.set_position(Position::new(5, 6));
    assert_eq!(node.size(), Size::new(3, 4));
    assert_eq!(node.position(), Position::new(5, 6));
    assert_eq!(node.intrinsic_width(), BoxSizing::Fit);
    assert_eq!(node.intrinsic_height(), BoxSizing::Fit);
    assert_eq!(node.id(), GlobalId::new());
}
