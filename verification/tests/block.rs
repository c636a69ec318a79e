use flow::{solve_layout, BlockLayout, BoxSizing, EmptyLayout, LayoutNode, Size};

#[test]
fn block_fill_window() {
    let child = EmptyLayout::new();
    let mut root = BlockLayout::new(LayoutNode::Empty(child));
    root.intrinsic_height = BoxSizing::Flex(1);
    root.intrinsic_width = BoxSizing::Flex(1);

    let mut root = LayoutNode::Block(root);
    solve_layout(&mut root, Size::unit(500));
    assert_eq!(root.size(), Size::unit(500));
}

#[test]
fn fit_child() {
    let mut child = EmptyLayout::new();
    child.intrinsic_width = BoxSizing::Fixed(24);
    child.intrinsic_height = BoxSizing::Fixed(230);

    let root = BlockLayout::new(LayoutNode::Empty(child));

    let mut root = LayoutNode::Block(root);
    solve_layout(&mut root, Size::unit(500));
    assert_eq!(root.size(), Size::new(24, 230));
}

#[test]
fn fill_block_layout() {
    let mut child = EmptyLayout::new();
    child.intrinsic_width = BoxSizing::Flex(1);
    child.intrinsic_height = BoxSizing::Flex(1);

    let mut root = BlockLayout::new(LayoutNode::Empty(child));
    root.intrinsic_width = BoxSizing::Flex(1);
    root.intrinsic_height = BoxSizing::Flex(1);

    let mut root = LayoutNode::Block(root);
    solve_layout(&mut root, Size::unit(1000));
    let root = match root {
        LayoutNode::Block(b) => b,
        _ => unreachable!(),
    };
    let child = root.child();
    assert_eq!(child.size(), Size::unit(1000));
}

#[test]
fn padding_in_max_constraints() {
    let mut child = EmptyLayout::new();
    child.intrinsic_width = BoxSizing::Flex(1);
    child.intrinsic_height = BoxSizing::Flex(1);

    let mut root = BlockLayout::new(LayoutNode::Empty(child));
    root.intrinsic_width = BoxSizing::Flex(1);
    root.intrinsic_height = BoxSizing::Flex(1);

    root.padding.top = 20;
    root.padding.bottom = 10;
    root.padding.left = 30;
    root.padding.right = 50;

    let padding = root.padding;
    let mut root = LayoutNode::Block(root);
    solve_layout(&mut root, Size::unit(1000));
    let root = match root {
        LayoutNode::Block(b) => b,
        _ => unreachable!(),
    };
    let child = root.child();
    let width = (1000 - padding.left - padding.right) as u64;
    let height = (1000 - padding.top - padding.bottom) as u64;
    assert_eq!(child.size(), Size::new(width, height));
}

#[test]
fn padding_in_min_constraints() {
    let child = EmptyLayout::new();

    let mut root = BlockLayout::new(LayoutNode::Empty(child));
    root.padding.right = 24;
    root.padding.left = 10;
    root.padding.top = 13;
    root.padding.bottom = 10;

    root.solve_min_constraints();
    let min_width = (24 + 10) as u64;
    let min_height = (13 + 10) as u64;

    assert_eq!(root.constraints().min_width, min_width);
    assert_eq!(root.constraints().min_height, min_height);
}

#[test]
fn over_constrained_padding_clamps() {
    let mut child = EmptyLayout::new();
    child.intrinsic_width = BoxSizing::Flex(1);
    child.intrinsic_height = BoxSizing::Flex(1);

    let mut root = BlockLayout::new(LayoutNode::Empty(child));
    root.intrinsic_width = BoxSizing::Flex(1);
    root.intrinsic_height = BoxSizing::Flex(1);
    root.padding.left = 80;
    root.padding.right = 80;

    let mut root = LayoutNode::Block(root);
    solve_layout(&mut root, Size::new(100, 50));
    let root = match root {
        LayoutNode::Block(b) => b,
        _ => unreachable!(),
    };
    assert_eq!(root.child().size(), Size::new(0, 50));
}
