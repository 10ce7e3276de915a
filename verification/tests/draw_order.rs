use scene_viewer::draw_order::draw_order;

#[test]
fn empty_container_draws_nothing() {
    assert!(draw_order(0).is_empty());
}

#[test]
fn single_object_is_drawn_once() {
    assert_eq!(draw_order(1), vec![0]);
}

#[test]
fn objects_are_drawn_once_each_in_order() {
    assert_eq!(draw_order(4), vec![0, 1, 2, 3]);
    let order = draw_order(100);
    assert_eq!(order.len(), 100);
    for (position, index) in order.iter().enumerate() {
        assert_eq!(*index, position);
    }
}
