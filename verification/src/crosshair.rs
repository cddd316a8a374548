//! The reticle: its settings, its shapes and the drawing of one frame.

use vstd::prelude::*;
use crate::fixed::ONE;
use crate::fixed::abs_int;
use crate::fixed::lemma_mul_bound;
use crate::color::WHITE;
use crate::color::color_or;
use crate::color::parse_color;
use crate::config::effects::Effects;
use crate::config::effects::FrameWaves;
use self::raster::rendered_pixel;

pub mod circle;
pub mod classic;
pub mod cross;
pub mod diamond;
pub mod dot;
pub mod frame;
pub mod plus;
pub mod raster;
pub mod square;
pub mod t_shape;
pub mod x_shape;

pub use circle::CircleCrosshair;
pub use classic::ClassicCrosshair;
pub use cross::CrossCrosshair;
pub use diamond::DiamondCrosshair;
pub use dot::DotCrosshair;
pub use plus::PlusCrosshair;
pub use square::SquareCrosshair;
pub use t_shape::TShapeCrosshair;
pub use x_shape::XShapeCrosshair;

verus! {

/// The shape of the reticle.
#[derive(Debug, Clone, Copy, PartialEq, Eq, Structural)]
pub enum CrosshairStyle {
    /// Four arms that leave a gap round the centre.
    Classic,
    /// A filled disc.
    Dot,
    /// Two bars crossing at the centre, without a gap.
    Cross,
    /// A ring, or a disc with a hole.
    Circle,
    /// A bar with a stem below it.
    T,
    /// A cross of twice the thickness.
    Plus,
    /// Two diagonal bands.
    X,
    /// A square with a square hole.
    Square,
    /// A diamond with a diamond-shaped hole.
    Diamond,
}

impl Default for CrosshairStyle {
    fn default() -> (style: Self)
        ensures
            style == CrosshairStyle::Classic,
    {
        CrosshairStyle::Classic
    }
}

/// A rotation, held as the cosine and sine of its angle in millionths.
#[derive(Debug, Clone, Copy, PartialEq, Eq, Structural)]
pub struct Rotation {
    pub cos: i32,
    pub sin: i32,
}

impl Rotation {
    /// Whether cosine and sine are those of some angle as nearly as
    /// millionths can tell.
    pub fn near_unit(&self) -> (near: bool)
        ensures
            near == self.is_near_unit(),
    {
        let cos: i128 = self.cos as i128;
        let sin: i128 = self.sin as i128;
        proof {
            lemma_mul_bound(cos as int, cos as int, 0x8000_0000, 0x8000_0000);
            lemma_mul_bound(sin as int, sin as int, 0x8000_0000, 0x8000_0000);
        }
        let off: i128 = cos * cos + sin * sin - 1_000_000_000_000;
        -2_000_000 <= off && off <= 2_000_000
    }
}

impl Default for Rotation {
    fn default() -> (rotation: Self)
        ensures
            rotation == Rotation::none(),
    {
        Rotation { cos: ONE, sin: 0 }
    }
}

/// The first coordinate of the offset `(dx, dy)` turned by the angle of
/// cosine `cos` and sine `sin`, in units one millionth the size of the
/// offset's.
pub open spec fn turned_x(dx: int, dy: int, cos: int, sin: int) -> int {
    dx * cos - dy * sin
}

/// The second coordinate of the offset `(dx, dy)` turned by the angle of
/// cosine `cos` and sine `sin`.
pub open spec fn turned_y(dx: int, dy: int, cos: int, sin: int) -> int {
    dx * sin + dy * cos
}

/// How far `cos * cos + sin * sin` lies from one, in millionths of a
/// millionth: nothing for an exact cosine and sine.
pub open spec fn unit_error(cos: int, sin: int) -> int {
    abs_int(cos * cos + sin * sin - ONE * ONE)
}

impl Rotation {
    /// The rotation by no angle at all.
    pub open spec fn none() -> Rotation {
        Rotation { cos: ONE, sin: 0 }
    }

    /// The rotation by the opposite angle.
    pub open spec fn opposite(&self) -> Rotation
        recommends
            self.sin > i32::MIN,
    {
        Rotation { cos: self.cos, sin: (0 - self.sin) as i32 }
    }

    /// Whether cosine and sine are those of some angle as nearly as
    /// millionths can tell: each may be off by half a millionth, which
    /// moves `cos * cos + sin * sin` from one by less than two millionths.
    pub open spec fn is_near_unit(&self) -> bool {
        unit_error(self.cos as int, self.sin as int) <= 2 * ONE
    }

    /// The point `(x, y)` turned about `(center_x, center_y)`, first
    /// coordinate. The result is in units one millionth the size of the
    /// arguments'.
    pub open spec fn rotated_x(&self, x: int, y: int, center_x: int, center_y: int) -> int {
        turned_x(x - center_x, y - center_y, self.cos as int, self.sin as int) + center_x * ONE
    }

    /// The point `(x, y)` turned about `(center_x, center_y)`, second
    /// coordinate.
    pub open spec fn rotated_y(&self, x: int, y: int, center_x: int, center_y: int) -> int {
        turned_y(x - center_x, y - center_y, self.cos as int, self.sin as int) + center_y * ONE
    }
}

/// The range of coordinates that [`Crosshair::rotate_point`] takes: wide
/// enough for twice any index into memory.
pub open spec fn coordinate_in_range(v: int) -> bool {
    -0x4_0000_0000_0000_0000 <= v <= 0x4_0000_0000_0000_0000
}

/// The dot at the centre of the reticle.
#[derive(Debug, Clone)]
pub struct CenterDot {
    pub enabled: bool,
    /// The radius in pixels.
    pub size: u32,
    /// The colour, as `#RRGGBB`.
    pub color: String,
    /// The opacity from zero to one, in fixed point.
    pub alpha: i32,
}

/// The line drawn along the border of the shape.
#[derive(Debug, Clone)]
pub struct Outline {
    pub enabled: bool,
    /// The width that the settings ask for, in pixels. The border that is
    /// drawn is the shape's outermost layer of pixels, whatever this says.
    pub thickness: u32,
    /// The colour, as `#RRGGBB`.
    pub color: String,
    /// The opacity from zero to one, in fixed point.
    pub alpha: i32,
}

/// The reticle's settings.
#[derive(Debug, Clone)]
pub struct Crosshair {
    /// How far the shape reaches from the centre, in pixels.
    pub size: u32,
    /// The width of a stroke, in pixels.
    pub thickness: u32,
    /// How far from the centre the shape begins, in pixels.
    pub gap: u32,
    /// The colour, as `#RRGGBB`.
    pub color: String,
    /// The opacity from zero to one, in fixed point.
    pub alpha: i32,
    pub rotation: Rotation,
    pub center_dot: CenterDot,
    pub style: CrosshairStyle,
    pub outline: Outline,
    /// Whether the arms of the classic shape taper towards the centre.
    pub triangle_bars: bool,
    /// Whether the circle is filled from the gap outwards or a ring.
    pub filled_circle: bool,
}

impl CenterDot {
    /// Whether these are the settings a centre dot starts from: on, two
    /// pixels in radius, red, opaque.
    pub open spec fn is_initial(&self) -> bool {
        &&& self.enabled
        &&& self.size == 2
        &&& self.color@ == "#FF0000"@
        &&& self.alpha == ONE
    }
}

impl Outline {
    /// Whether these are the settings an outline starts from: off, one
    /// pixel, black, at four fifths of full opacity.
    pub open spec fn is_initial(&self) -> bool {
        &&& !self.enabled
        &&& self.thickness == 1
        &&& self.color@ == "#000000"@
        &&& self.alpha == 800_000
    }
}

impl Default for CenterDot {
    fn default() -> (dot: Self)
        ensures
            dot.is_initial(),
    {
        CenterDot { enabled: true, size: 2, color: "#FF0000".to_owned(), alpha: ONE }
    }
}

impl Default for Outline {
    fn default() -> (outline: Self)
        ensures
            outline.is_initial(),
    {
        Outline { enabled: false, thickness: 1, color: "#000000".to_owned(), alpha: 800_000 }
    }
}

impl Default for Crosshair {
    fn default() -> (crosshair: Self)
        ensures
            crosshair.is_initial(),
    {
        Crosshair {
            size: 25,
            thickness: 2,
            gap: 5,
            color: "#00FF00".to_owned(),
            alpha: ONE,
            rotation: Rotation::default(),
            center_dot: CenterDot::default(),
            style: CrosshairStyle::Classic,
            outline: Outline::default(),
            triangle_bars: false,
            filled_circle: false,
        }
    }
}

/// A painter of one shape.
pub trait CrosshairRenderer {
    /// The shape that this painter paints.
    spec fn style(&self) -> CrosshairStyle;

    /// Paints the shape into `buffer`, which holds `height` rows of `width`
    /// pixels, with the settings of `crosshair` and the effects of the frame
    /// at `time`: the pixels of the shape get its colours, the others stay.
    fn draw(
        &self,
        crosshair: &Crosshair,
        buffer: &mut [u32],
        width: usize,
        height: usize,
        effects: &Effects,
        time: u64,
        waves: &FrameWaves,
    )
        requires
            old(buffer).len() == width * height,
        ensures
            final(buffer).len() == old(buffer).len(),
            forall|i: int|
                0 <= i < old(buffer).len() ==> final(buffer)@[i] == rendered_pixel(
                    self.style(),
                    crosshair,
                    effects,
                    time as int,
                    waves,
                    i % (width as int),
                    i / (width as int),
                    width as int,
                    height as int,
                    old(buffer)@[i],
                ),
    ;
}

/// The number of local units in a pixel: local coordinates count half
/// millionths of a pixel, so that the centre of a buffer of odd width, which
/// lies between two pixels, and every turned offset are whole numbers.
pub open spec fn local_unit() -> int {
    2 * ONE
}

impl Crosshair {
    /// Whether these are the settings a reticle starts from: the classic
    /// shape, 25 pixels long, 2 wide, with a gap of 5, green, opaque,
    /// upright, with straight arms, a centre dot and no outline.
    pub open spec fn is_initial(&self) -> bool {
        &&& self.size == 25
        &&& self.thickness == 2
        &&& self.gap == 5
        &&& self.color@ == "#00FF00"@
        &&& self.alpha == ONE
        &&& self.rotation == Rotation::none()
        &&& self.center_dot.is_initial()
        &&& self.style == CrosshairStyle::Classic
        &&& self.outline.is_initial()
        &&& !self.triangle_bars
        &&& !self.filled_circle
    }

    /// The packed colour of the shape.
    pub open spec fn base_color(&self) -> u32 {
        color_or(self.color@, self.alpha as int, WHITE as int)
    }

    /// The packed colour of the centre dot.
    pub open spec fn center_dot_color(&self) -> u32 {
        color_or(self.center_dot.color@, self.center_dot.alpha as int, WHITE as int)
    }

    /// The packed colour of the outline.
    pub open spec fn outline_color(&self) -> u32 {
        color_or(self.outline.color@, self.outline.alpha as int, WHITE as int)
    }

    /// The colour of the shape's body in one frame: the rainbow's colour
    /// under the reticle's opacity where the rainbow is on, else the
    /// reticle's own colour; then the pulse on top, where `wave` is its sine.
    /// The rainbow comes first, so that the pulse scales the opacity that
    /// the rainbow's colour was given.
    pub open spec fn body_color(&self, effects: &Effects, time: int, wave: int) -> u32 {
        let base = if effects.rainbow.enabled {
            effects.rainbow.color_at(time, self.alpha as int)
        } else {
            self.base_color()
        };
        effects.pulse.applied(base, wave)
    }

    /// Where the pixel `(x, y)` of a buffer `width` by `height` lies in the
    /// shape's own frame, first coordinate: its offset from the centre of the
    /// buffer, turned by the reticle's rotation, in local units.
    pub open spec fn local_x(&self, x: int, y: int, width: int, height: int) -> int {
        turned_x(2 * x - width, 2 * y - height, self.rotation.cos as int, self.rotation.sin as int)
    }

    /// Where the pixel `(x, y)` lies in the shape's own frame, second
    /// coordinate.
    pub open spec fn local_y(&self, x: int, y: int, width: int, height: int) -> int {
        turned_y(2 * x - width, 2 * y - height, self.rotation.cos as int, self.rotation.sin as int)
    }

    /// The packed colour for a colour string such as `#00FF00` and an
    /// opacity. The opacity is limited to the range from zero to one. One
    /// `#` at the front of the string is passed over. A string that is not
    /// then exactly six hexadecimal digits gives white under the same
    /// opacity.
    pub fn parse_color_with_alpha(hex: &str, alpha: i32) -> (color: u32)
        ensures
            color == color_or(hex@, alpha as int, WHITE as int),
    {
        parse_color(hex, alpha, WHITE)
    }

    /// The packed colour of the shape.
    pub fn get_color(&self) -> (color: u32)
        ensures
            color == self.base_color(),
    {
        Self::parse_color_with_alpha(self.color.as_str(), self.alpha)
    }

    /// The packed colour of the centre dot.
    pub fn get_center_dot_color(&self) -> (color: u32)
        ensures
            color == self.center_dot_color(),
    {
        Self::parse_color_with_alpha(self.center_dot.color.as_str(), self.center_dot.alpha)
    }

    /// The packed colour of the outline.
    pub fn get_outline_color(&self) -> (color: u32)
        ensures
            color == self.outline_color(),
    {
        Self::parse_color_with_alpha(self.outline.color.as_str(), self.outline.alpha)
    }

    /// The colour of the shape's body in the frame at `time`, where `wave`
    /// is the sine of the pulse.
    pub fn shape_color(&self, effects: &Effects, time: u64, wave: i32) -> (color: u32)
        ensures
            color == self.body_color(effects, time as int, wave as int),
    {
        let mut color: u32 = if effects.rainbow.enabled {
            effects.rainbow.get_color(time, self.alpha)
        } else {
            self.get_color()
        };
        if effects.pulse.enabled {
            color = effects.pulse.apply(color, wave);
        }
        color
    }

    /// Turns the point `(x, y)` about `(center_x, center_y)` by the
    /// reticle's rotation. The result is in units one millionth the size of
    /// the arguments', so that nothing is rounded.
    pub fn rotate_point(&self, x: i128, y: i128, center_x: i128, center_y: i128) -> (rotated: (i128, i128))
        requires
            coordinate_in_range(x as int),
            coordinate_in_range(y as int),
            coordinate_in_range(center_x as int),
            coordinate_in_range(center_y as int),
        ensures
            rotated.0 == self.rotation.rotated_x(x as int, y as int, center_x as int, center_y as int),
            rotated.1 == self.rotation.rotated_y(x as int, y as int, center_x as int, center_y as int),
            self.rotation == Rotation::none() ==> rotated.0 == x * ONE && rotated.1 == y * ONE,
    {
        let dx: i128 = x - center_x;
        let dy: i128 = y - center_y;
        let cos_a: i128 = self.rotation.cos as i128;
        let sin_a: i128 = self.rotation.sin as i128;
        proof {
            lemma_mul_bound(dx as int, cos_a as int, 0x8_0000_0000_0000_0000, 0x8000_0000);
            lemma_mul_bound(dy as int, sin_a as int, 0x8_0000_0000_0000_0000, 0x8000_0000);
            lemma_mul_bound(dx as int, sin_a as int, 0x8_0000_0000_0000_0000, 0x8000_0000);
            lemma_mul_bound(dy as int, cos_a as int, 0x8_0000_0000_0000_0000, 0x8000_0000);
        }
        let one: i128 = ONE as i128;
        proof {
            if self.rotation == Rotation::none() {
                assert(dx * cos_a == dx * one && dy * cos_a == dy * one) by (nonlinear_arith)
                    requires
                        cos_a == one,
                ;
                assert(dx * sin_a == 0 && dy * sin_a == 0) by (nonlinear_arith)
                    requires
                        sin_a == 0,
                ;
            }
        }
        (dx * cos_a - dy * sin_a + center_x * one, dx * sin_a + dy * cos_a + center_y * one)
    }

    /// Where the pixel `(x, y)` of a buffer `width` by `height` lies in the
    /// shape's own frame, in local units.
    pub fn local_point(&self, x: usize, y: usize, width: usize, height: usize) -> (local: (i128, i128))
        ensures
            local.0 == self.local_x(x as int, y as int, width as int, height as int),
            local.1 == self.local_y(x as int, y as int, width as int, height as int),
            -0x4_0000_0000_0000_0000_0000_0000 <= local.0 <= 0x4_0000_0000_0000_0000_0000_0000,
            -0x4_0000_0000_0000_0000_0000_0000 <= local.1 <= 0x4_0000_0000_0000_0000_0000_0000,
    {
        let center_x: i128 = width as i128;
        let center_y: i128 = height as i128;
        let doubled_x: i128 = 2 * (x as i128);
        let doubled_y: i128 = 2 * (y as i128);
        let (rot_x, rot_y) = self.rotate_point(doubled_x, doubled_y, center_x, center_y);
        proof {
            let dx = doubled_x - center_x;
            let dy = doubled_y - center_y;
            lemma_mul_bound(dx as int, self.rotation.cos as int, 0x2_0000_0000_0000_0000, 0x8000_0000);
            lemma_mul_bound(dy as int, self.rotation.sin as int, 0x2_0000_0000_0000_0000, 0x8000_0000);
            lemma_mul_bound(dx as int, self.rotation.sin as int, 0x2_0000_0000_0000_0000, 0x8000_0000);
            lemma_mul_bound(dy as int, self.rotation.cos as int, 0x2_0000_0000_0000_0000, 0x8000_0000);
        }
        let one: i128 = ONE as i128;
        (rot_x - center_x * one, rot_y - center_y * one)
    }
}

/// A length in pixels, in local units.
pub open spec fn reach(pixels: int) -> int {
    pixels * local_unit()
}

/// Half a length in pixels, in local units.
pub open spec fn half_reach(pixels: int) -> int {
    pixels * ONE
}

/// The square of a number.
pub open spec fn square(v: int) -> int {
    v * v
}

/// A length in pixels, in local units.
pub fn reach_of(pixels: u32) -> (units: i128)
    ensures
        units == reach(pixels as int),
        0 <= units <= 0x20_0000_0000_0000,
{
    (pixels as i128) * 2_000_000
}

/// Half a length in pixels, in local units.
pub fn half_reach_of(pixels: u32) -> (units: i128)
    ensures
        units == half_reach(pixels as int),
        0 <= units <= 0x10_0000_0000_0000,
{
    (pixels as i128) * 1_000_000
}

/// The magnitude of a local coordinate.
pub fn magnitude(v: i128) -> (m: i128)
    requires
        -0x4000_0000_0000_0000_0000_0000_0000_0000 <= v,
    ensures
        m == abs_int(v as int),
        m >= 0,
{
    if v < 0 {
        -v
    } else {
        v
    }
}

/// Whether the point at distances `ax` and `ay` from the centre along the
/// two axes lies within `radius` of it.
pub fn within_radius(ax: i128, ay: i128, radius: i128) -> (inside: bool)
    requires
        0 <= ax,
        0 <= ay,
        0 <= radius <= 0x20_0000_0000_0000,
    ensures
        inside == (square(ax as int) + square(ay as int) <= square(radius as int)),
{
    if ax > radius || ay > radius {
        proof {
            lemma_square_grows(radius as int, ax as int);
            lemma_square_grows(radius as int, ay as int);
            lemma_square_grows(0, ax as int);
            lemma_square_grows(0, ay as int);
        }
        return false;
    }
    proof {
        lemma_square_grows(ax as int, radius as int);
        lemma_square_grows(ay as int, radius as int);
        lemma_square_grows(radius as int, 0x20_0000_0000_0000);
        lemma_square_grows(0, ax as int);
        lemma_square_grows(0, ay as int);
    }
    ax * ax + ay * ay <= radius * radius
}

/// Whether the point at distances `ax` and `ay` from the centre along the
/// two axes lies at least `radius` from it.
pub fn beyond_radius(ax: i128, ay: i128, radius: i128) -> (outside: bool)
    requires
        0 <= ax,
        0 <= ay,
        0 <= radius <= 0x20_0000_0000_0000,
    ensures
        outside == (square(ax as int) + square(ay as int) >= square(radius as int)),
{
    if ax >= radius || ay >= radius {
        proof {
            lemma_square_grows(radius as int, ax as int);
            lemma_square_grows(radius as int, ay as int);
            lemma_square_grows(0, ax as int);
            lemma_square_grows(0, ay as int);
        }
        return true;
    }
    proof {
        lemma_square_grows(ax as int, radius as int);
        lemma_square_grows(ay as int, radius as int);
        lemma_square_grows(radius as int, 0x20_0000_0000_0000);
        lemma_square_grows(0, ax as int);
        lemma_square_grows(0, ay as int);
    }
    ax * ax + ay * ay >= radius * radius
}

/// Turning a point about a centre by a rotation whose cosine and sine are
/// those of an angle, rounded to millionths, and then back by the opposite
/// rotation gives the point back to within two millionths of its distance
/// from the centre. The point comes back in units one millionth of a
/// millionth the size of those it was given in, and the centre of the way
/// back is the centre in the units of the way there.
pub proof fn lemma_round_trip_within_tolerance(r: Rotation, x: int, y: int, center_x: int, center_y: int)
    requires
        r.is_near_unit(),
    ensures
        abs_int(
            r.opposite().rotated_x(
                r.rotated_x(x, y, center_x, center_y),
                r.rotated_y(x, y, center_x, center_y),
                center_x * ONE,
                center_y * ONE,
            ) - x * ONE * ONE,
        ) <= 2 * ONE * abs_int(x - center_x),
        abs_int(
            r.opposite().rotated_y(
                r.rotated_x(x, y, center_x, center_y),
                r.rotated_y(x, y, center_x, center_y),
                center_x * ONE,
                center_y * ONE,
            ) - y * ONE * ONE,
        ) <= 2 * ONE * abs_int(y - center_y),
{
    let c = r.cos as int;
    let s = r.sin as int;
    let dx = x - center_x;
    let dy = y - center_y;
    let norm = c * c + s * s;
    let one = ONE as int;
    assert(c * c >= 0 && s * s >= 0) by (nonlinear_arith);
    assert(s > i32::MIN) by {
        if s == i32::MIN {
            assert(s * s == 0x4000_0000_0000_0000) by (nonlinear_arith)
                requires
                    s == -0x8000_0000,
            ;
        }
    }
    assert(r.opposite().sin == -s);
    lemma_rotation_round_trip(dx, dy, c, s);
    let back_x = r.opposite().rotated_x(
        r.rotated_x(x, y, center_x, center_y),
        r.rotated_y(x, y, center_x, center_y),
        center_x * ONE,
        center_y * ONE,
    );
    let back_y = r.opposite().rotated_y(
        r.rotated_x(x, y, center_x, center_y),
        r.rotated_y(x, y, center_x, center_y),
        center_x * ONE,
        center_y * ONE,
    );
    assert(back_x == dx * norm + center_x * one * one) by (nonlinear_arith)
        requires
            back_x == turned_x(turned_x(dx, dy, c, s), turned_y(dx, dy, c, s), c, -s) + center_x * one * one,
            turned_x(turned_x(dx, dy, c, s), turned_y(dx, dy, c, s), c, -s) == dx * norm,
    ;
    assert(back_y == dy * norm + center_y * one * one) by (nonlinear_arith)
        requires
            back_y == turned_y(turned_x(dx, dy, c, s), turned_y(dx, dy, c, s), c, -s) + center_y * one * one,
            turned_y(turned_x(dx, dy, c, s), turned_y(dx, dy, c, s), c, -s) == dy * norm,
    ;
    let off = norm - one * one;
    assert(back_x - x * one * one == dx * off) by (nonlinear_arith)
        requires
            back_x == dx * norm + center_x * one * one,
            dx == x - center_x,
            off == norm - one * one,
    ;
    assert(back_y - y * one * one == dy * off) by (nonlinear_arith)
        requires
            back_y == dy * norm + center_y * one * one,
            dy == y - center_y,
            off == norm - one * one,
    ;
    lemma_mul_bound(dx, off, abs_int(dx), 2 * one);
    lemma_mul_bound(dy, off, abs_int(dy), 2 * one);
    assert(abs_int(dx) * (2 * one) == 2 * one * abs_int(dx)) by (nonlinear_arith);
    assert(abs_int(dy) * (2 * one) == 2 * one * abs_int(dy)) by (nonlinear_arith);
}

/// Among numbers that are not negative, the larger has the larger square.
pub proof fn lemma_square_grows(a: int, b: int)
    ensures
        0 <= a <= b ==> square(a) <= square(b),
        0 <= a < b ==> square(a) < square(b),
{
    if 0 <= a <= b {
        assert(a * a <= b * b) by (nonlinear_arith)
            requires
                0 <= a <= b,
        ;
    }
    if 0 <= a < b {
        assert(a * a < b * b) by (nonlinear_arith)
            requires
                0 <= a < b,
        ;
    }
}

/// Turning by no angle leaves every point where it is.
pub proof fn lemma_no_rotation_is_identity(x: int, y: int, center_x: int, center_y: int)
    ensures
        Rotation::none().rotated_x(x, y, center_x, center_y) == x * ONE,
        Rotation::none().rotated_y(x, y, center_x, center_y) == y * ONE,
{
}

/// Turning an offset by an angle and then by the opposite angle gives the
/// offset back, scaled by `cos * cos + sin * sin`: exactly one, in the
/// units of the twice-turned offset, where cosine and sine are exact, and
/// as near to one as they are to exact otherwise.
pub proof fn lemma_rotation_round_trip(dx: int, dy: int, cos: int, sin: int)
    ensures
        turned_x(turned_x(dx, dy, cos, sin), turned_y(dx, dy, cos, sin), cos, -sin) == dx * (cos * cos + sin * sin),
        turned_y(turned_x(dx, dy, cos, sin), turned_y(dx, dy, cos, sin), cos, -sin) == dy * (cos * cos + sin * sin),
{
    assert((dx * cos - dy * sin) * cos - (dx * sin + dy * cos) * (-sin) == dx * (cos * cos + sin * sin))
        by (nonlinear_arith);
    assert((dx * cos - dy * sin) * (-sin) + (dx * sin + dy * cos) * cos == dy * (cos * cos + sin * sin))
        by (nonlinear_arith);
}

} // verus!
