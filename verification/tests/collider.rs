use pong_core::box_collider::Collider;
use pong_core::vec2::Vec2;

#[test]
fn collide_symmetry_concrete() {
    let a = Collider::new((100, 100));
    let b = Collider::new((30, 200));
    let pa = Vec2 { x: -800, y: 50 };
    let pb = Vec2 { x: -850, y: 0 };
    assert_eq!(a.collide(pa, &b, pb), b.collide(pb, &a, pa));
    let far = Vec2 { x: 5000, y: 0 };
    assert_eq!(a.collide(pa, &b, far), b.collide(far, &a, pa));
    assert!(a.collide(pa, &b, pb));
    assert!(!a.collide(pa, &b, far));
}

#[test]
fn collide_touching_edges_counts_as_overlap() {
    let ball = Collider::new((100, 100));
    let paddle = Collider::new((30, 200));
    // paddle max x is -820; the ball's min x touches it exactly at -720
    let touching = Vec2 { x: -720, y: 0 };
    assert!(ball.collide(touching, &paddle, Vec2 { x: -850, y: 0 }));
    // one thousandth further right and the boxes separate
    let apart = Vec2 { x: -719, y: 0 };
    assert!(!ball.collide(apart, &paddle, Vec2 { x: -850, y: 0 }));
}

#[test]
fn collide_needs_overlap_on_both_axes() {
    let a = Collider::new((100, 100));
    let b = Collider::new((100, 100));
    let pa = Vec2 { x: 0, y: 0 };
    // overlapping in x, separated in y
    assert!(!a.collide(pa, &b, Vec2 { x: 50, y: 500 }));
    // separated in x, overlapping in y
    assert!(!a.collide(pa, &b, Vec2 { x: 500, y: 50 }));
    // overlapping in both
    assert!(a.collide(pa, &b, Vec2 { x: 150, y: 150 }));
}

#[test]
fn vertices_wind_from_bottom_left() {
    let c = Collider::new((200, 2000));
    let v = c.to_vertices();
    assert_eq!(v.len(), 4);
    assert_eq!((v[0].x, v[0].y), (-200, -2000));
    assert_eq!((v[1].x, v[1].y), (200, -2000));
    assert_eq!((v[2].x, v[2].y), (200, 2000));
    assert_eq!((v[3].x, v[3].y), (-200, 2000));
}
