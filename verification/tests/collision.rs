use flappy_borb::collision::{intersects, Aabb};

fn boxed(cx: i64, cy: i64, hx: i64, hy: i64) -> Aabb {
    Aabb { cx, cy, hx, hy }
}

#[test]
fn coincident_unit_boxes_intersect() {
    let a = boxed(0, 0, 1, 1);
    let b = boxed(0, 0, 1, 1);
    assert!(intersects(&a, &b));
}

#[test]
fn distant_boxes_do_not_intersect() {
    let a = boxed(0, 0, 1, 1);
    let b = boxed(3, 0, 1, 1);
    assert!(!intersects(&a, &b));
}

#[test]
fn touching_edges_do_not_intersect() {
    let a = boxed(0, 0, 1, 1);
    let b = boxed(2, 0, 1, 1);
    assert!(!intersects(&a, &b));
    let c = boxed(0, 2, 1, 1);
    assert!(!intersects(&a, &c));
}

#[test]
fn overlap_on_one_axis_only_is_no_intersection() {
    let a = boxed(0, 0, 1, 1);
    let b = boxed(0, 5, 1, 1);
    assert!(!intersects(&a, &b));
    let c = boxed(5, 0, 1, 1);
    assert!(!intersects(&a, &c));
}

#[test]
fn asymmetric_overlap_intersects() {
    let a = boxed(0, 0, 10, 2);
    let b = boxed(9, 1, 2, 2);
    assert!(intersects(&a, &b));
}
