use vstd::prelude::*;

verus! {

/// A point of the animation pipeline: position, 8-bit color channels and a
/// blanking flag.  A blank point keeps its position (the beam still moves
/// along the path) but its color must be ignored on output.
#[derive(Clone, Copy, PartialEq, Eq, Structural, Debug)]
pub struct BeamPoint {
    pub x: i16,
    pub y: i16,
    pub r: u8,
    pub g: u8,
    pub b: u8,
    pub is_blank: bool,
}

/// The payload an encoded device point must carry: the position and the
/// 16-bit color channels (zero for a blanked point).
pub struct OutputPoint {
    pub x: i16,
    pub y: i16,
    pub r: u16,
    pub g: u16,
    pub b: u16,
}

/// Expansion of an 8-bit color channel to the device's 16-bit range:
/// `c * 257`, which maps 0 to 0 and 255 to 65535 exactly.
pub open spec fn expand_spec(c: u8) -> int {
    c * 257
}

/// Negation of the x coordinate, saturating at the extreme representable
/// value instead of overflowing.
pub open spec fn invert_x_spec(x: i16) -> i16 {
    if x == i16::MIN {
        i16::MAX
    } else {
        (-(x as int)) as i16
    }
}

/// What encoding a pipeline point must produce: the position unchanged;
/// the colors expanded to 16 bits, or zeroed when the point is blank.
pub open spec fn encode_spec(p: BeamPoint) -> OutputPoint {
    if p.is_blank {
        OutputPoint { x: p.x, y: p.y, r: 0, g: 0, b: 0 }
    } else {
        OutputPoint {
            x: p.x,
            y: p.y,
            r: expand_spec(p.r) as u16,
            g: expand_spec(p.g) as u16,
            b: expand_spec(p.b) as u16,
        }
    }
}

/// Whether a device point carries exactly this payload, with the control
/// and every auxiliary field cleared.
pub open spec fn dac_matches(d: lase::Point, o: OutputPoint) -> bool {
    &&& d.x == o.x
    &&& d.y == o.y
    &&& d.r == o.r
    &&& d.g == o.g
    &&& d.b == o.b
    &&& d.control == 0
    &&& d.i == 0
    &&& d.u1 == 0
    &&& d.u2 == 0
}

#[verifier::external_type_specification]
pub struct ExDacPoint(lase::Point);

/// Relies on lase's DAC point constructor `Point::xy_rgb`: it stores the
/// given position and color channels and clears the control, intensity
/// and auxiliary fields.
pub assume_specification[ lase::Point::xy_rgb ](x: i16, y: i16, r: u16, g: u16, b: u16) -> (p: lase::Point)
    ensures
        p.x == x && p.y == y,
        p.r == r && p.g == g && p.b == b,
        p.control == 0 && p.i == 0 && p.u1 == 0 && p.u2 == 0,
;

/// Relies on lase's blank DAC point constructor `Point::xy_blank`: it
/// stores the given position and zeroes every color, control, intensity
/// and auxiliary field.
pub assume_specification[ lase::Point::xy_blank ](x: i16, y: i16) -> (p: lase::Point)
    ensures
        p.x == x && p.y == y,
        p.r == 0 && p.g == 0 && p.b == 0,
        p.control == 0 && p.i == 0 && p.u1 == 0 && p.u2 == 0,
;

/// Expand an 8-bit color channel to the device's 16-bit range by
/// multiplication, covering the full range end to end.
pub fn expand(color: u8) -> (r: u16)
    ensures
        r == expand_spec(color),
{
    (color as u16) * 257
}

/// Negate the x coordinate, compensating for the flipped x-coordinate
/// plane of the animation data; saturates at the extreme value.
pub fn invert_x(x_coordinate: i16) -> (r: i16)
    ensures
        r == invert_x_spec(x_coordinate),
{
    if x_coordinate == i16::MIN {
        i16::MAX
    } else {
        -x_coordinate
    }
}

/// Encode a pipeline point for the DAC: a blank point keeps its position
/// with all color dropped; a visible point carries its colors expanded to
/// the device's 16-bit range.
pub fn encode(p: &BeamPoint) -> (d: lase::Point)
    ensures
        dac_matches(d, encode_spec(*p)),
{
    if p.is_blank {
        lase::Point::xy_blank(p.x, p.y)
    } else {
        lase::Point::xy_rgb(p.x, p.y, expand(p.r), expand(p.g), expand(p.b))
    }
}

/// Endpoint and monotonicity law for the color expansion: 0 maps to 0,
/// 255 maps to 65535, and the expansion is strictly increasing over the
/// whole 8-bit range.
pub proof fn lemma_expand_endpoints()
    ensures
        expand_spec(0) == 0,
        expand_spec(255) == 65535,
        forall|a: u8, b: u8| a < b ==> expand_spec(a) < expand_spec(b),
{
}

/// Blank encoding law: two blank points at the same position encode
/// identically, whatever their color channels hold.
pub proof fn lemma_blank_encoding_ignores_color(a: BeamPoint, b: BeamPoint)
    requires
        a.is_blank,
        b.is_blank,
        a.x == b.x,
        a.y == b.y,
    ensures
        encode_spec(a) == encode_spec(b),
{
}

} // verus!
