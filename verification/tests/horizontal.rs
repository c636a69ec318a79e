use flow::{solve_layout, BoxSizing, EmptyLayout, HorizontalLayout, LayoutNode, Padding, Size};

#[test]
fn sum_fixed_width() {
    let mut child1 = EmptyLayout::new();
    child1.intrinsic_width = BoxSizing::Fixed(200);
    child1.intrinsic_height = BoxSizing::Fixed(300);
    let mut child2 = EmptyLayout::new();
    child2.intrinsic_width = BoxSizing::Fixed(50);
    child2.intrinsic_height = BoxSizing::Fixed(670);

    let mut layout = HorizontalLayout::new();
    layout.append(vec![LayoutNode::Empty(child1), LayoutNode::Empty(child2)]);
    let total_width = layout.sum_fixed_width();

    assert_eq!(total_width, 250);
}

#[test]
fn subtract_fixed_with_from_flex() {
    let mut child1 = EmptyLayout::new();
    child1.intrinsic_width = BoxSizing::Fixed(200);
    let mut child2 = EmptyLayout::new();
    child2.intrinsic_width = BoxSizing::Fixed(50);
    let mut child3 = EmptyLayout::new();
    child3.intrinsic_width = BoxSizing::Flex(1);
    child3.intrinsic_height = BoxSizing::Flex(1);

    let mut layout = HorizontalLayout::new();
    layout.push(LayoutNode::Empty(child1));
    layout.push(LayoutNode::Empty(child2));
    layout.push(LayoutNode::Empty(child3));
    layout.set_max_width(500);
    layout.solve_max_constraints();

    let child3 = &layout.children()[2];

    assert_eq!(child3.constraints().max_width, 250);
}

#[test]
fn fixed_max_constraints() {
    let mut child1 = EmptyLayout::new();
    child1.intrinsic_width = BoxSizing::Fixed(200);
    child1.intrinsic_height = BoxSizing::Fixed(300);
    let mut child2 = EmptyLayout::new();
    child2.intrinsic_width = BoxSizing::Fixed(50);
    child2.intrinsic_height = BoxSizing::Fixed(670);

    let mut layout = HorizontalLayout::new();
    layout.push(LayoutNode::Empty(child1));
    layout.push(LayoutNode::Empty(child2));
    layout.solve_max_constraints();

    let child1 = &layout.children()[0];
    let child2 = &layout.children()[1];

    assert_eq!(child1.constraints().max_width, 200);
    assert_eq!(child1.constraints().max_height, 300);
    assert_eq!(child2.constraints().max_width, 50);
    assert_eq!(child2.constraints().max_height, 670);
}

#[test]
fn fill_max_constraints() {
    let mut child1 = EmptyLayout::new();
    child1.intrinsic_width = BoxSizing::Flex(1);
    child1.intrinsic_height = BoxSizing::Flex(1);
    let mut child2 = EmptyLayout::new();
    child2.intrinsic_width = BoxSizing::Flex(1);
    child2.intrinsic_height = BoxSizing::Flex(1);

    let mut layout = HorizontalLayout::new();
    layout.set_max_width(1000);
    layout.set_max_height(1000);
    layout.push(LayoutNode::Empty(child1));
    layout.push(LayoutNode::Empty(child2));
    layout.solve_max_constraints();

    let child1 = &layout.children()[0];
    let child2 = &layout.children()[1];

    assert_eq!(child1.constraints().max_width, 500);
    assert_eq!(child2.constraints().max_width, 500);
    assert_eq!(child1.constraints().max_height, 1000);
    assert_eq!(child2.constraints().max_height, 1000);
}

#[test]
fn fit_max_constraints() {
    let mut child1 = EmptyLayout::new();
    let mut child2 = EmptyLayout::new();
    child1.set_min_width(150);
    child1.set_min_height(50);
    child2.set_min_width(300);
    child2.set_min_height(349);

    let mut layout = HorizontalLayout::new();
    layout.push(LayoutNode::Empty(child1));
    layout.push(LayoutNode::Empty(child2));
    layout.solve_max_constraints();

    let child1 = &layout.children()[0];
    let child2 = &layout.children()[1];

    assert_eq!(child1.constraints().max_width, child1.constraints().min_width);
    assert_eq!(child2.constraints().max_width, child2.constraints().min_width);
    assert_eq!(child1.constraints().max_height, child1.constraints().min_height);
    assert_eq!(child2.constraints().max_height, child2.constraints().min_height);
}

#[test]
fn update_children_size() {
    let mut child1 = EmptyLayout::new();
    let mut child2 = EmptyLayout::new();
    child1.intrinsic_width = BoxSizing::Fixed(250);
    child2.intrinsic_height = BoxSizing::Fixed(90);

    let mut layout = HorizontalLayout::new();
    layout.push(LayoutNode::Empty(child1));
    layout.push(LayoutNode::Empty(child2));

    layout.update_size();

    let child1 = &layout.children()[0];
    let child2 = &layout.children()[1];

    assert_eq!(child1.size().width, 250);
    assert_eq!(child2.size().height, 90);
}

#[test]
fn fit_children() {
    let mut child1 = EmptyLayout::new();
    let mut child2 = EmptyLayout::new();

    child1.intrinsic_width = BoxSizing::Fixed(90);
    child1.intrinsic_height = BoxSizing::Fixed(24);
    child2.intrinsic_width = BoxSizing::Fixed(350);
    child2.intrinsic_height = BoxSizing::Fixed(240);

    let mut root = HorizontalLayout::new();
    root.push(LayoutNode::Empty(child1));
    root.push(LayoutNode::Empty(child2));

    let mut root = LayoutNode::Horizontal(root);
    solve_layout(&mut root, Size::unit(500));
    let width = 90 + 350;
    let height = 24 + 240;

    assert_eq!(root.size(), Size::new(width, height))
}

#[test]
fn horizontal_fill_window() {
    let mut root = HorizontalLayout::new();
    root.intrinsic_width = BoxSizing::Flex(1);
    root.intrinsic_height = BoxSizing::Flex(1);
    let mut root = LayoutNode::Horizontal(root);
    solve_layout(&mut root, Size::new(500, 100));
    assert_eq!(root.size(), Size::new(500, 100))
}

#[test]
fn fixed_with_flex_sizing() {
    let mut child1 = EmptyLayout::new();
    child1.intrinsic_width = BoxSizing::Fixed(200);
    let mut child2 = EmptyLayout::new();
    child2.intrinsic_width = BoxSizing::Flex(1);
    let mut child3 = EmptyLayout::new();
    child3.intrinsic_width = BoxSizing::Fixed(300);

    let mut root = HorizontalLayout::new();
    root.intrinsic_width = BoxSizing::Flex(1);
    root.intrinsic_height = BoxSizing::Flex(1);
    root.append(vec![
        LayoutNode::Empty(child1),
        LayoutNode::Empty(child2),
        LayoutNode::Empty(child3),
    ]);
    let mut root = LayoutNode::Horizontal(root);
    solve_layout(&mut root, Size::new(700, 500));

    let root = match root {
        LayoutNode::Horizontal(h) => h,
        _ => unreachable!(),
    };
    let child2 = &root.children()[0];
    assert_eq!(child2.size().width, 200);
}

#[test]
fn flex_remainder_between_fixed() {
    let mut child1 = EmptyLayout::new();
    child1.intrinsic_width = BoxSizing::Fixed(200);
    let mut child2 = EmptyLayout::new();
    child2.intrinsic_width = BoxSizing::Flex(1);
    let mut child3 = EmptyLayout::new();
    child3.intrinsic_width = BoxSizing::Fixed(300);

    let mut root = HorizontalLayout::new();
    root.intrinsic_width = BoxSizing::Flex(1);
    root.append(vec![
        LayoutNode::Empty(child1),
        LayoutNode::Empty(child2),
        LayoutNode::Empty(child3),
    ]);
    let mut root = LayoutNode::Horizontal(root);
    solve_layout(&mut root, Size::new(700, 500));

    let root = match root {
        LayoutNode::Horizontal(h) => h,
        _ => unreachable!(),
    };
    assert_eq!(root.children()[0].size().width, 200);
    assert_eq!(root.children()[1].size().width, 200);
    assert_eq!(root.children()[2].size().width, 300);
}

#[test]
fn flex_weights_divide_remainder() {
    let mut child1 = EmptyLayout::new();
    child1.intrinsic_width = BoxSizing::Flex(1);
    let mut child2 = EmptyLayout::new();
    child2.intrinsic_width = BoxSizing::Flex(2);

    let mut root = HorizontalLayout::new();
    root.set_max_width(100);
    root.push(LayoutNode::Empty(child1));
    root.push(LayoutNode::Empty(child2));
    root.solve_max_constraints();

    assert_eq!(root.children()[0].constraints().max_width, 33);
    assert_eq!(root.children()[1].constraints().max_width, 66);
}

#[test]
fn zero_flex_total_gets_zero() {
    let mut child = EmptyLayout::new();
    child.intrinsic_width = BoxSizing::Flex(0);

    let mut root = HorizontalLayout::new();
    root.set_max_width(400);
    root.push(LayoutNode::Empty(child));
    root.solve_max_constraints();

    assert_eq!(root.children()[0].constraints().max_width, 0);
}

#[test]
fn push_and_append_keep_order() {
    let mut first = EmptyLayout::new();
    first.intrinsic_width = BoxSizing::Fixed(1);
    let mut second = EmptyLayout::new();
    second.intrinsic_width = BoxSizing::Fixed(2);
    let mut third = EmptyLayout::new();
    third.intrinsic_width = BoxSizing::Fixed(3);

    let mut layout = HorizontalLayout::new();
    layout.push(LayoutNode::Empty(first));
    layout.append(vec![LayoutNode::Empty(second), LayoutNode::Empty(third)]);

    assert_eq!(layout.children().len(), 3);
    assert_eq!(layout.children()[1].intrinsic_width(), BoxSizing::Fixed(2));
    assert_eq!(layout.children()[2].intrinsic_width(), BoxSizing::Fixed(3));
}

#[test]
fn fit_row_minimum_adds_own_padding() {
    let mut child = EmptyLayout::new();
    child.intrinsic_width = BoxSizing::Fixed(10);
    child.intrinsic_height = BoxSizing::Fixed(4);

    let mut row = HorizontalLayout::new();
    row.padding = Padding::new(5, 7, 2, 3);
    row.push(LayoutNode::Empty(child));
    let reported = row.solve_min_constraints();

    assert_eq!(reported, (22, 9));
    assert_eq!(row.constraints().min_width, 22);
    assert_eq!(row.constraints().min_height, 9);
}

#[test]
fn min_width_sums_saturate() {
    let mut child1 = EmptyLayout::new();
    child1.intrinsic_width = BoxSizing::Fixed(u64::MAX);
    let mut child2 = EmptyLayout::new();
    child2.intrinsic_width = BoxSizing::Fixed(u64::MAX);

    let mut layout = HorizontalLayout::new();
    layout.push(LayoutNode::Empty(child1));
    layout.push(LayoutNode::Empty(child2));
    let reported = layout.solve_min_constraints();

    assert_eq!(reported.0, u64::MAX);
}
