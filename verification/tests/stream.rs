use ilda_player::codec::BeamPoint;
use ilda_player::codec::encode;
use ilda_player::oscillator::Cycle;
use ilda_player::playback::Playback;
use ilda_player::stream::fill_buffer;
use ilda_player::stream::fill_demo_buffer;

fn pt(x: i16, blank: bool) -> BeamPoint {
    BeamPoint { x, y: -x, r: 3, g: 140, b: 255, is_blank: blank }
}

#[test]
fn fill_buffer_returns_exactly_n_points() {
    let frames = vec![vec![pt(0, false), pt(1, true)], vec![pt(2, false)]];
    let mut m = Playback::new(frames, false, 0).unwrap();
    assert_eq!(fill_buffer(&mut m, 0).len(), 0);
    assert_eq!(fill_buffer(&mut m, 5).len(), 5);
    assert_eq!(fill_buffer(&mut m, 128).len(), 128);
}

#[test]
fn fill_buffer_encodes_points_in_playback_order() {
    let frames = vec![vec![pt(0, false), pt(1, true)], vec![pt(2, false)]];
    let mut a = Playback::new(frames.clone(), true, 1).unwrap();
    let mut b = Playback::new(frames, true, 1).unwrap();
    let buf = fill_buffer(&mut a, 9);
    let raw = b.next_points(9);
    assert_eq!(buf.len(), raw.len());
    for (d, p) in buf.iter().zip(raw.iter()) {
        let e = encode(p);
        assert_eq!(d.x, e.x);
        assert_eq!(d.y, e.y);
        assert_eq!(d.r, e.r);
        assert_eq!(d.g, e.g);
        assert_eq!(d.b, e.b);
        assert_eq!(d.control, 0);
        assert_eq!(d.i, 0);
        assert_eq!(d.u1, 0);
        assert_eq!(d.u2, 0);
    }
}

#[test]
fn fill_buffer_blank_points_carry_no_color() {
    let frames = vec![vec![pt(4, true)]];
    let mut m = Playback::new(frames, false, 0).unwrap();
    let buf = fill_buffer(&mut m, 3);
    for d in buf {
        assert_eq!(d.x, 4);
        assert_eq!(d.y, -4);
        assert_eq!(d.r, 0);
        assert_eq!(d.g, 0);
        assert_eq!(d.b, 0);
    }
}

#[test]
fn fill_demo_buffer_returns_exactly_n_points() {
    let mut c = Cycle::new(-20_000, 20_000);
    assert_eq!(fill_demo_buffer(&mut c, 100, 0).len(), 0);
    assert_eq!(fill_demo_buffer(&mut c, 100, 40).len(), 40);
}

#[test]
fn fill_demo_buffer_traces_the_oscillator() {
    let mut c = Cycle::new(-200, 200);
    let buf = fill_demo_buffer(&mut c, 100, 6);
    let xs: Vec<i16> = buf.iter().map(|d| d.x).collect();
    // 0 +100 +100, clamp at 200, then back down through 0
    assert_eq!(xs, vec![100, 200, 200, 100, 0, -100]);
    for d in buf {
        assert_eq!(d.y, 0);
        assert_eq!(d.r, 65535);
        assert_eq!(d.g, 65535);
        assert_eq!(d.b, 65535);
        assert_eq!(d.control, 0);
    }
    assert_eq!(c.value, -100);
}
