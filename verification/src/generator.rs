//! The shape generator: from the parameters, the screen and one sample per
//! corner to the corners of the polygon.

use vstd::prelude::*;
use crate::arith::{lemma_product_bound, lemma_signed_product_bound};
use crate::shape::{ShapeModel, ShapeParameters, MIN_SEGMENTS, PROPORTION_HIGH};
use crate::units::{HALF_PIXEL, MICRO, NANO, PICO};

verus! {

/// The size of the drawing surface, in whole pixels.
#[derive(Clone, Copy, Debug, PartialEq, Eq, Structural)]
pub struct Screen {
    pub width: u32,
    pub height: u32,
}

/// A place on the screen; both coordinates are counted in [`crate::units::ATTO`].
#[derive(Clone, Copy, Debug, PartialEq, Eq, Structural)]
pub struct Point {
    pub x: i128,
    pub y: i128,
}

/// The sine and the cosine of a corner's angle, counted in
/// [`crate::units::MICRO`].
#[derive(Clone, Copy, Debug, PartialEq, Eq, Structural)]
pub struct Direction {
    pub sin: i32,
    pub cos: i32,
}

/// An angle as a part of a full turn: `numerator / denominator` of it.
#[derive(Clone, Copy, Debug, PartialEq, Eq, Structural)]
pub struct Turn {
    pub numerator: u32,
    pub denominator: u32,
}

/// What is known of one corner before its place is computed: its direction, and
/// the value of the noise field there, counted in [`crate::units::MICRO`].
#[derive(Clone, Copy, Debug, PartialEq, Eq, Structural)]
pub struct Sample {
    pub direction: Direction,
    pub noise: i32,
}

/// Why no figure was made.
#[derive(Clone, Copy, Debug, PartialEq, Eq, Structural)]
pub enum FrameError {
    /// The number of samples is not the number of corners.
    SampleCount,
    /// The simulated time after this step is too large to be held.
    ClockRange,
}

impl Screen {
    /// The shorter of the two sides.
    pub open spec fn shorter(self) -> int {
        if self.width <= self.height {
            self.width as int
        } else {
            self.height as int
        }
    }

    /// The longer of the two sides.
    pub open spec fn longer(self) -> int {
        if self.width <= self.height {
            self.height as int
        } else {
            self.width as int
        }
    }

    /// The middle of the screen, from left to right.
    pub open spec fn center_x(self) -> int {
        self.width * HALF_PIXEL
    }

    /// The middle of the screen, from top to bottom.
    pub open spec fn center_y(self) -> int {
        self.height * HALF_PIXEL
    }

    /// The shorter of the two sides.
    pub fn shorter_side(&self) -> (side: u32)
        ensures
            side == self.shorter(),
    {
        if self.width <= self.height {
            self.width
        } else {
            self.height
        }
    }

    /// The longer of the two sides.
    pub fn longer_side(&self) -> (side: u32)
        ensures
            side == self.longer(),
    {
        if self.width <= self.height {
            self.height
        } else {
            self.width
        }
    }

    /// The middle of the screen.
    pub fn center(&self) -> (c: Point)
        ensures
            c.x == self.center_x(),
            c.y == self.center_y(),
    {
        let half: i128 = HALF_PIXEL as i128;
        Point { x: self.width as i128 * half, y: self.height as i128 * half }
    }
}

/// The number of corners drawn when `segments` are asked for: never fewer than
/// three.
pub open spec fn corner_count(segments: nat) -> nat {
    if segments < MIN_SEGMENTS {
        MIN_SEGMENTS as nat
    } else {
        segments
    }
}

/// The magnitude of a noise value.
pub open spec fn rectified(noise: int) -> int {
    if noise < 0 {
        -noise
    } else {
        noise
    }
}

/// The distance of a corner from the centre, counted in [`PICO`]: a band as wide
/// as the outer proportion of the screen's shorter side, scaled by the noise
/// coefficient and the magnitude of the noise, on top of a floor of the inner
/// proportion of the screen's longer side.
pub open spec fn radius(m: ShapeModel, screen: Screen, noise: int) -> int {
    m.outer_proportion * screen.shorter() * m.noise_coefficient * rectified(noise)
        + m.inner_proportion * screen.longer() * NANO
}

/// Where a corner lies from left to right: the radius times the sine of its
/// angle, from the centre.
pub open spec fn corner_x(m: ShapeModel, screen: Screen, sample: Sample) -> int {
    radius(m, screen, sample.noise as int) * sample.direction.sin + screen.center_x()
}

/// Where a corner lies from top to bottom: the radius times the cosine of its
/// angle, from the centre.
pub open spec fn corner_y(m: ShapeModel, screen: Screen, sample: Sample) -> int {
    radius(m, screen, sample.noise as int) * sample.direction.cos + screen.center_y()
}

/// Whether `p` is the corner that `sample` gives.
pub open spec fn is_corner(p: Point, m: ShapeModel, screen: Screen, sample: Sample) -> bool {
    p.x == corner_x(m, screen, sample) && p.y == corner_y(m, screen, sample)
}

/// Whether `hull` holds, in order, the corners that `samples` give.
pub open spec fn is_hull(
    hull: Seq<Point>,
    m: ShapeModel,
    screen: Screen,
    samples: Seq<Sample>,
) -> bool {
    &&& hull.len() == samples.len()
    &&& forall|i: int|
        0 <= i < hull.len() ==> is_corner(#[trigger] hull[i], m, screen, samples[i])
}

/// Where a rim point lies from left to right.
pub open spec fn rim_x(screen: Screen, direction: Direction) -> int {
    direction.sin * screen.longer() * PICO + screen.center_x()
}

/// Where a rim point lies from top to bottom.
pub open spec fn rim_y(screen: Screen, direction: Direction) -> int {
    direction.cos * screen.longer() * PICO + screen.center_y()
}

/// Whether `p` lies in `direction` from the centre, as far out as the screen's
/// longer side is long.
pub open spec fn is_rim_point(p: Point, screen: Screen, direction: Direction) -> bool {
    p.x == rim_x(screen, direction) && p.y == rim_y(screen, direction)
}

/// Whether `rim` holds, in order, the rim points of the directions of `samples`.
pub open spec fn is_rim(rim: Seq<Point>, screen: Screen, samples: Seq<Sample>) -> bool {
    &&& rim.len() == samples.len()
    &&& forall|i: int|
        0 <= i < rim.len() ==> is_rim_point(#[trigger] rim[i], screen, samples[i].direction)
}

/// The inner floor of the radius, counted in [`PICO`].
pub open spec fn inner_floor(m: ShapeModel, screen: Screen) -> int {
    m.inner_proportion * screen.longer() * NANO
}

/// A bound that no radius reaches, whatever the screen and the noise.
pub open spec fn radius_limit() -> int {
    0x10_0000_0000_0000_0000_0000
}

/// How large each product on the way to the radius can get.
proof fn lemma_radius_steps(m: ShapeModel, screen: Screen, noise: int)
    requires
        m.valid(),
        i32::MIN <= noise <= i32::MAX,
    ensures
        0 <= m.outer_proportion * screen.shorter() <= PROPORTION_HIGH * u32::MAX,
        0 <= m.outer_proportion * screen.shorter() * m.noise_coefficient <= PROPORTION_HIGH
            * u32::MAX * PROPORTION_HIGH,
        0 <= m.outer_proportion * screen.shorter() * m.noise_coefficient * rectified(noise)
            <= PROPORTION_HIGH * u32::MAX * PROPORTION_HIGH * 0x8000_0000,
        0 <= m.inner_proportion * screen.longer() <= PROPORTION_HIGH * u32::MAX,
{
    let high = PROPORTION_HIGH as int;
    let side = u32::MAX as int;
    let band = m.outer_proportion * screen.shorter();
    lemma_product_bound(m.outer_proportion, screen.shorter(), high, side);
    lemma_product_bound(band, m.noise_coefficient, high * side, high);
    lemma_product_bound(band * m.noise_coefficient, rectified(noise), high * side * high, 0x8000_0000);
    lemma_product_bound(m.inner_proportion, screen.longer(), high, side);
}

/// The noise band only ever adds to the inner floor, which is itself not
/// negative; and the radius stays below [`radius_limit`].
pub proof fn lemma_radius_bounds(m: ShapeModel, screen: Screen, noise: int)
    requires
        m.valid(),
        i32::MIN <= noise <= i32::MAX,
    ensures
        0 <= inner_floor(m, screen) <= radius(m, screen, noise) < radius_limit(),
{
    lemma_radius_steps(m, screen, noise);
}

/// While the noise stays within one in magnitude, the band above the inner
/// floor is no wider than the outer proportion of the screen's shorter side.
pub proof fn lemma_radius_within_band(m: ShapeModel, screen: Screen, noise: int)
    requires
        m.valid(),
        rectified(noise) <= MICRO,
    ensures
        radius(m, screen, noise) - inner_floor(m, screen) <= m.outer_proportion * screen.shorter()
            * NANO,
{
    let side = m.outer_proportion * screen.shorter();
    lemma_product_bound(m.outer_proportion, screen.shorter(), PROPORTION_HIGH as int, u32::MAX as int);
    assert(side * m.noise_coefficient * rectified(noise) <= side * NANO) by (nonlinear_arith)
        requires
            0 <= side,
            0 <= m.noise_coefficient <= 1_000,
            0 <= rectified(noise) <= 1_000_000,
            NANO == 1_000_000_000,
    ;
}

/// With a noise coefficient of zero the radius is the inner floor, whatever the
/// noise is.
pub proof fn lemma_radius_without_noise_coefficient(m: ShapeModel, screen: Screen, noise: int)
    requires
        m.noise_coefficient == 0,
    ensures
        radius(m, screen, noise) == inner_floor(m, screen),
        inner_floor(m, screen) == m.inner_proportion * screen.longer() * NANO,
{
    assert(m.outer_proportion * screen.shorter() * m.noise_coefficient * rectified(noise) == 0)
        by (nonlinear_arith)
        requires
            m.noise_coefficient == 0,
    ;
}

/// With the outer proportion equal to the inner one, the noise moves the radius
/// above its inner floor by the inner proportion of the screen's shorter side,
/// times the noise coefficient, times the magnitude of the noise, and by nothing
/// else.
pub proof fn lemma_radius_with_equal_proportions(m: ShapeModel, screen: Screen, noise: int)
    requires
        m.outer_proportion == m.inner_proportion,
    ensures
        radius(m, screen, noise) - inner_floor(m, screen) == m.inner_proportion * screen.shorter()
            * m.noise_coefficient * rectified(noise),
{
}

/// Where the corners lie depends on three of the numbers only: the two
/// proportions and the noise coefficient.
pub proof fn lemma_hull_reads(
    hull: Seq<Point>,
    m: ShapeModel,
    other: ShapeModel,
    screen: Screen,
    samples: Seq<Sample>,
)
    requires
        is_hull(hull, m, screen, samples),
        other.inner_proportion == m.inner_proportion,
        other.outer_proportion == m.outer_proportion,
        other.noise_coefficient == m.noise_coefficient,
    ensures
        is_hull(hull, other, screen, samples),
{
    assert forall|i: int| 0 <= i < hull.len() implies is_corner(
        #[trigger] hull[i],
        other,
        screen,
        samples[i],
    ) by {
        assert(is_corner(hull[i], m, screen, samples[i]));
        assert(radius(other, screen, samples[i].noise as int) == radius(
            m,
            screen,
            samples[i].noise as int,
        ));
    }
}

/// The same numbers, screen and samples give the same corners.
pub proof fn lemma_hull_unique(
    first: Seq<Point>,
    second: Seq<Point>,
    m: ShapeModel,
    screen: Screen,
    samples: Seq<Sample>,
)
    requires
        is_hull(first, m, screen, samples),
        is_hull(second, m, screen, samples),
    ensures
        first == second,
{
    assert forall|i: int| 0 <= i < first.len() implies first[i] == second[i] by {
        assert(is_corner(first[i], m, screen, samples[i]));
        assert(is_corner(second[i], m, screen, samples[i]));
    }
    assert(first =~= second);
}

/// The same screen and samples give the same rim.
pub proof fn lemma_rim_unique(
    first: Seq<Point>,
    second: Seq<Point>,
    screen: Screen,
    samples: Seq<Sample>,
)
    requires
        is_rim(first, screen, samples),
        is_rim(second, screen, samples),
    ensures
        first == second,
{
    assert forall|i: int| 0 <= i < first.len() implies first[i] == second[i] by {
        assert(is_rim_point(first[i], screen, samples[i].direction));
        assert(is_rim_point(second[i], screen, samples[i].direction));
    }
    assert(first =~= second);
}

/// The number of corners drawn when `segments` are asked for.
pub fn segment_count(segments: u32) -> (n: usize)
    ensures
        n == corner_count(segments as nat),
{
    if segments < MIN_SEGMENTS {
        MIN_SEGMENTS as usize
    } else {
        segments as usize
    }
}

/// The angles of the corners, in order: they divide the full turn evenly and
/// start at no turn at all.
pub fn angles(segments: u32) -> (turns: Vec<Turn>)
    ensures
        turns@.len() == corner_count(segments as nat),
        forall|i: int|
            0 <= i < turns@.len() ==> #[trigger] turns@[i] == (Turn {
                numerator: i as u32,
                denominator: corner_count(segments as nat) as u32,
            }),
{
    let count: u32 = if segments < MIN_SEGMENTS {
        MIN_SEGMENTS
    } else {
        segments
    };
    let mut turns: Vec<Turn> = Vec::new();
    let mut i: u32 = 0;
    while i < count
        invariant
            i <= count == corner_count(segments as nat),
            turns@.len() == i,
            forall|j: int|
                0 <= j < i ==> #[trigger] turns@[j] == (Turn {
                    numerator: j as u32,
                    denominator: count,
                }),
        decreases count - i,
    {
        turns.push(Turn { numerator: i, denominator: count });
        i += 1;
    }
    turns
}

/// The magnitude of a noise value.
pub fn rectify(noise: i32) -> (magnitude: u32)
    ensures
        magnitude == rectified(noise as int),
{
    if noise < 0 {
        let wide: i64 = noise as i64;
        (-wide) as u32
    } else {
        noise as u32
    }
}

/// The distance from the centre of a corner where the noise field has the value
/// `noise`, counted in [`PICO`].
pub fn radius_of(shape: &ShapeParameters, screen: Screen, noise: i32) -> (r: i128)
    ensures
        r == radius(shape@, screen, noise as int),
        shape@.noise_coefficient == 0 ==> r == inner_floor(shape@, screen),
        shape@.outer_proportion == shape@.inner_proportion ==> r - inner_floor(shape@, screen)
            == shape@.inner_proportion * screen.shorter() * shape@.noise_coefficient * rectified(
            noise as int,
        ),
{
    proof {
        use_type_invariant(shape);
        lemma_radius_steps(shape@, screen, noise as int);
        if shape@.noise_coefficient == 0 {
            lemma_radius_without_noise_coefficient(shape@, screen, noise as int);
        }
    }
    let outer: i128 = shape.outer_proportion() as i128;
    let inner: i128 = shape.inner_proportion() as i128;
    let coefficient: i128 = shape.noise_coefficient() as i128;
    let shorter: i128 = screen.shorter_side() as i128;
    let longer: i128 = screen.longer_side() as i128;
    let magnitude: i128 = rectify(noise) as i128;
    let nano: i128 = NANO as i128;
    outer * shorter * coefficient * magnitude + inner * longer * nano
}

/// The corner that `sample` gives: as far from the centre as the radius says, in
/// the sample's direction.
pub fn corner(shape: &ShapeParameters, screen: Screen, sample: Sample) -> (p: Point)
    ensures
        is_corner(p, shape@, screen, sample),
{
    let r: i128 = radius_of(shape, screen, sample.noise);
    let c: Point = screen.center();
    proof {
        use_type_invariant(shape);
        lemma_radius_bounds(shape@, screen, sample.noise as int);
        lemma_signed_product_bound(
            r as int,
            sample.direction.sin as int,
            radius_limit(),
            0x8000_0000,
        );
        lemma_signed_product_bound(
            r as int,
            sample.direction.cos as int,
            radius_limit(),
            0x8000_0000,
        );
    }
    Point {
        x: r * (sample.direction.sin as i128) + c.x,
        y: r * (sample.direction.cos as i128) + c.y,
    }
}

/// The point in `direction` from the centre, as far out as the screen's longer
/// side is long.
pub fn rim_point(screen: Screen, direction: Direction) -> (p: Point)
    ensures
        is_rim_point(p, screen, direction),
{
    let c: Point = screen.center();
    let longer: i128 = screen.longer_side() as i128;
    let pico: i128 = PICO as i128;
    proof {
        lemma_signed_product_bound(
            direction.sin as int,
            screen.longer(),
            0x8000_0000,
            u32::MAX as int,
        );
        lemma_signed_product_bound(
            direction.cos as int,
            screen.longer(),
            0x8000_0000,
            u32::MAX as int,
        );
    }
    Point {
        x: (direction.sin as i128) * longer * pico + c.x,
        y: (direction.cos as i128) * longer * pico + c.y,
    }
}

/// The corners of the polygon, one for each sample and in their order. There
/// have to be as many samples as the parameters ask for corners, and never fewer
/// than three.
pub fn hull(shape: &ShapeParameters, screen: Screen, samples: &Vec<Sample>) -> (made: Result<
    Vec<Point>,
    FrameError,
>)
    ensures
        made is Ok <==> samples@.len() == corner_count(shape@.segments),
        made matches Ok(corners) ==> {
            &&& corners@.len() == corner_count(shape@.segments)
            &&& shape@.segments >= MIN_SEGMENTS ==> corners@.len() == shape@.segments
            &&& is_hull(corners@, shape@, screen, samples@)
        },
        made matches Err(e) ==> e == FrameError::SampleCount,
{
    if samples.len() != segment_count(shape.segments()) {
        return Err(FrameError::SampleCount);
    }
    let mut corners: Vec<Point> = Vec::new();
    let mut i: usize = 0;
    while i < samples.len()
        invariant
            i <= samples@.len(),
            corners@.len() == i,
            forall|j: int|
                0 <= j < i ==> is_corner(#[trigger] corners@[j], shape@, screen, samples@[j]),
        decreases samples@.len() - i,
    {
        let p: Point = corner(shape, screen, samples[i]);
        corners.push(p);
        i += 1;
    }
    Ok(corners)
}

/// The rim points of the samples' directions, in their order.
pub fn rim(screen: Screen, samples: &Vec<Sample>) -> (points: Vec<Point>)
    ensures
        is_rim(points@, screen, samples@),
{
    let mut points: Vec<Point> = Vec::new();
    let mut i: usize = 0;
    while i < samples.len()
        invariant
            i <= samples@.len(),
            points@.len() == i,
            forall|j: int|
                0 <= j < i ==> is_rim_point(#[trigger] points@[j], screen, samples@[j].direction),
        decreases samples@.len() - i,
    {
        let p: Point = rim_point(screen, samples[i].direction);
        points.push(p);
        i += 1;
    }
    points
}

} // verus!
