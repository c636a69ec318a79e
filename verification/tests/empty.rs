use flow::{BoxSizing, EmptyLayout, LayoutNode, Size};

#[test]
fn empty_fill_window() {
    let mut layout = EmptyLayout::new();
    layout.intrinsic_width = BoxSizing::Flex(1);
    layout.intrinsic_height = BoxSizing::Flex(1);
    let mut layout = LayoutNode::Empty(layout);
    flow::solve_layout(&mut layout, Size::new(50, 700));
    assert_eq!(layout.size(), Size::new(50, 700));
}

#[test]
fn fit() {
    let mut layout = EmptyLayout::new();
    layout.intrinsic_width = BoxSizing::Fit;
    layout.intrinsic_height = BoxSizing::Fit;
    let mut layout = LayoutNode::Empty(layout);
    flow::solve_layout(&mut layout, Size::new(50, 700));
    assert_eq!(layout.size(), Size::unit(0));
}

#[test]
fn fixed_size() {
    let mut layout = EmptyLayout::new();
    layout.intrinsic_width = BoxSizing::Fixed(250);
    layout.intrinsic_height = BoxSizing::Fixed(20);
    let mut layout = LayoutNode::Empty(layout);
    flow::solve_layout(&mut layout, Size::unit(1000));
    assert_eq!(layout.size(), Size::new(250, 20));
}

#[test]
fn fixed_leaf_keeps_size_under_any_viewport() {
    let mut layout = EmptyLayout::new();
    layout.intrinsic_width = BoxSizing::Fixed(123);
    layout.intrinsic_height = BoxSizing::Fixed(45);
    let mut layout = LayoutNode::Empty(layout);
    flow::solve_layout(&mut layout, Size::new(99999, 123456));
    assert_eq!(layout.size(), Size::new(123, 45));
}
