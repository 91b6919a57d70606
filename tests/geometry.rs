use daisy::geometry::Bounds;

fn rect(left: i32, right: i32, top: i32, bottom: i32) -> Bounds {
    Bounds { left, right, top, bottom }
}

#[test]
fn bounds_are_centred_and_rounded_down() {
    assert_eq!(Bounds::of(100, 200, 11, 11), rect(95, 105, 195, 205));
    assert_eq!(Bounds::of(10, 10, 16, 24), rect(2, 18, -2, 22));
}

#[test]
fn overlap_is_symmetric() {
    let pairs = [
        (rect(0, 10, 0, 10), rect(5, 15, 5, 15)),
        (rect(0, 10, 0, 10), rect(11, 20, 0, 10)),
        (rect(0, 10, 0, 10), rect(0, 10, 20, 30)),
        (rect(-5, 5, -5, 5), rect(-20, 20, -1, 1)),
    ];
    for (a, b) in pairs.iter() {
        assert_eq!(a.is_touching(*b), b.is_touching(*a));
    }
}

#[test]
fn touching_edges_overlap() {
    let a = rect(0, 10, 0, 10);
    let b = rect(10, 20, 5, 15);
    assert!(a.is_touching(b));
    assert!(b.is_touching(a));
    let below = rect(0, 10, 10, 20);
    assert!(a.is_touching(below));
}

#[test]
fn separated_boxes_do_not_overlap() {
    let a = rect(0, 10, 0, 10);
    assert!(!a.is_touching(rect(11, 20, 0, 10)));
    assert!(!a.is_touching(rect(0, 10, 11, 20)));
    assert!(!a.is_touching(rect(-20, -1, 0, 10)));
}
