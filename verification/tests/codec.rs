use ilda_player::codec::BeamPoint;
use ilda_player::codec::encode;
use ilda_player::codec::expand;
use ilda_player::codec::invert_x;

#[test]
fn expand_endpoints() {
    assert_eq!(expand(0), 0);
    assert_eq!(expand(255), 65535);
}

#[test]
fn expand_sample_values() {
    assert_eq!(expand(1), 257);
    assert_eq!(expand(128), 32896);
}

#[test]
fn expand_strictly_increasing() {
    for c in 0u8..255u8 {
        assert!(expand(c) < expand(c + 1));
    }
}

#[test]
fn invert_x_negates() {
    assert_eq!(invert_x(5), -5);
    assert_eq!(invert_x(-5), 5);
    assert_eq!(invert_x(0), 0);
}

#[test]
fn invert_x_saturates_at_extreme() {
    assert_eq!(invert_x(i16::MIN), i16::MAX);
    assert_eq!(invert_x(i16::MAX), i16::MIN + 1);
}

#[test]
fn encode_visible_point_expands_colors() {
    let p = BeamPoint { x: 1000, y: -2000, r: 255, g: 0, b: 128, is_blank: false };
    let d = encode(&p);
    assert_eq!(d.x, 1000);
    assert_eq!(d.y, -2000);
    assert_eq!(d.r, 65535);
    assert_eq!(d.g, 0);
    assert_eq!(d.b, 32896);
    assert_eq!(d.control, 0);
    assert_eq!(d.i, 0);
    assert_eq!(d.u1, 0);
    assert_eq!(d.u2, 0);
}

#[test]
fn encode_blank_point_drops_color() {
    let p = BeamPoint { x: 40, y: 50, r: 200, g: 100, b: 3, is_blank: true };
    let d = encode(&p);
    assert_eq!(d.x, 40);
    assert_eq!(d.y, 50);
    assert_eq!(d.r, 0);
    assert_eq!(d.g, 0);
    assert_eq!(d.b, 0);
    assert_eq!(d.i, 0);
}

#[test]
fn encode_blank_points_differing_only_in_color_encode_identically() {
    let a = BeamPoint { x: 7, y: -9, r: 1, g: 2, b: 3, is_blank: true };
    let b = BeamPoint { x: 7, y: -9, r: 250, g: 0, b: 99, is_blank: true };
    let da = encode(&a);
    let db = encode(&b);
    assert_eq!(da.x, db.x);
    assert_eq!(da.y, db.y);
    assert_eq!(da.r, db.r);
    assert_eq!(da.g, db.g);
    assert_eq!(da.b, db.b);
    assert_eq!(da.control, db.control);
    assert_eq!(da.i, db.i);
    assert_eq!(da.u1, db.u1);
    assert_eq!(da.u2, db.u2);
}
