use bevy_ui::{paint_order, CalculatedClip, CalculatedSize, Node, PixelRect, PixelSize, ZIndex};

#[test]
fn missing_override_sorts_as_local_zero() {
    let without = vec![Some(ZIndex::Local(1)), None, Some(ZIndex::Local(-1)), Some(ZIndex::Local(0))];
    let with = vec![
        Some(ZIndex::Local(1)),
        Some(ZIndex::Local(0)),
        Some(ZIndex::Local(-1)),
        Some(ZIndex::Local(0)),
    ];
    assert_eq!(paint_order(&without), paint_order(&with));
    assert_eq!(paint_order(&without), vec![2, 1, 3, 0]);
    assert_eq!(ZIndex::resolve(None), ZIndex::Local(0));
    assert_eq!(ZIndex::default(), ZIndex::Local(0));
}

#[test]
fn equal_indices_keep_tree_order() {
    let zs = vec![None, None, None];
    assert_eq!(paint_order(&zs), vec![0, 1, 2]);
    let zs = vec![Some(ZIndex::Global(5)), Some(ZIndex::Local(5)), Some(ZIndex::Local(4))];
    assert_eq!(paint_order(&zs), vec![2, 0, 1]);
}

#[test]
fn empty_context_has_empty_order() {
    assert_eq!(paint_order(&vec![]), Vec::<usize>::new());
}

#[test]
fn extreme_indices() {
    let zs = vec![Some(ZIndex::Local(i32::MAX)), Some(ZIndex::Global(i32::MIN)), None];
    assert_eq!(paint_order(&zs), vec![1, 2, 0]);
    assert_eq!(ZIndex::index_of(Some(ZIndex::Global(-3))), -3);
}

#[test]
fn computed_output_defaults() {
    assert_eq!(Node::default().size(), PixelSize { width: 0, height: 0 });
    let node = Node::new(PixelSize { width: 30, height: 40 });
    assert_eq!(node.size(), PixelSize { width: 30, height: 40 });
    let calculated = CalculatedSize::default();
    assert_eq!(calculated.size, PixelSize { width: 0, height: 0 });
    assert!(!calculated.preserve_aspect_ratio);
    assert_eq!(
        CalculatedClip::default().clip,
        PixelRect { min_x: 0, min_y: 0, max_x: 0, max_y: 0 }
    );
}
