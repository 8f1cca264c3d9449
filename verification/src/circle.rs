//! The state of the animation, and what one frame does with it.

use vstd::prelude::*;
use crate::arith::lemma_signed_product_bound;
use crate::color::{unpacked, Channel, ColorRole, ColorSet, Rgba};
use crate::frame::{lemma_frame_unique, render, Frame};
use crate::generator::{
    angles, corner_count, segment_count, Direction, FrameError, Sample, Screen, Turn,
};
use crate::shape::{
    clamped, ShapeModel, ShapeParameters, ShapeSetting, ANGLE_NOISE_HIGH, VELOCITY_HIGH,
};
use crate::units::{CHANNEL_MAX, MILLI};

verus! {

/// The background the figure starts with, as `0xRRGGBB`.
pub const BACKGROUND_RGB: u32 = 0xEFD9CE;

/// The colour that the polygon's edges start with, as `0xRRGGBB`.
pub const BORDER_RGB: u32 = 0xDEC0F1;

/// The colour that the inner spokes start with, as `0xRRGGBB`.
pub const INNER_RGB: u32 = 0xB79CED;

/// The colour that the outer spokes start with, as `0xRRGGBB`; they start fully
/// transparent.
pub const OUTER_RGB: u32 = 0x957FEF;

/// Anything of the figure that can be set.
#[derive(Clone, Copy, Debug, PartialEq, Eq, Structural)]
pub enum Setting {
    Shape(ShapeSetting),
    Color(ColorRole, Channel),
}

/// Where the noise field is read for one corner; the three coordinates are
/// counted in [`crate::units::NANO`].
#[derive(Clone, Copy, Debug, PartialEq, Eq, Structural)]
pub struct NoiseQuery {
    pub time: i128,
    pub x: i64,
    pub y: i64,
}

/// The mathematical content of [`NoiseCircle`]: the numbers and colours of the
/// figure, the simulated time, counted in [`crate::units::NANO`], and the last
/// reading of the clock, counted in [`crate::units::MICRO`].
pub struct SimulationState {
    pub shape: ShapeModel,
    pub colors: ColorSet,
    pub sim_time: int,
    pub last_time: int,
}

impl SimulationState {
    /// The colours that the figure starts with.
    pub open spec fn initial_colors() -> ColorSet {
        ColorSet {
            background: Rgba { red: 0xEF, green: 0xD9, blue: 0xCE, alpha: 255 },
            border: Rgba { red: 0xDE, green: 0xC0, blue: 0xF1, alpha: 255 },
            inner: Rgba { red: 0xB7, green: 0x9C, blue: 0xED, alpha: 255 },
            outer: Rgba { red: 0x95, green: 0x7F, blue: 0xEF, alpha: 0 },
        }
    }

    /// The state that the animation starts in when the clock reads `now`:
    /// simulated time starts at the clock's reading.
    pub open spec fn initial(now: int) -> SimulationState {
        SimulationState {
            shape: ShapeModel::initial(),
            colors: Self::initial_colors(),
            sim_time: now * MILLI,
            last_time: now,
        }
    }

    /// The simulated time once the clock reads `now`: it moves by the velocity
    /// times what the clock has moved since its last reading.
    pub open spec fn time_after(self, now: int) -> int {
        self.sim_time + self.shape.sim_time_velocity * (now - self.last_time)
    }

    /// Whether the simulated time can still be held once the clock reads `now`.
    pub open spec fn reaches(self, now: int) -> bool {
        i128::MIN <= self.time_after(now) <= i128::MAX
    }

    /// This state after a frame at clock reading `now`.
    pub open spec fn advanced(self, now: int) -> SimulationState {
        SimulationState { sim_time: self.time_after(now), last_time: now, ..self }
    }

    /// Whether `query` is where the noise field is read for a corner in
    /// `direction` at simulated time `time`: on a circle whose radius is the
    /// angle-noise coefficient, moved along the first axis by the time.
    pub open spec fn asks(self, query: NoiseQuery, time: int, direction: Direction) -> bool {
        &&& query.time == time
        &&& query.x == self.shape.angle_noise_coefficient * direction.cos
        &&& query.y == self.shape.angle_noise_coefficient * direction.sin
    }

    /// Whether a frame at clock reading `now`, with the given screen and samples,
    /// takes this state to `after` and has the outcome `made`.
    ///
    /// The frame is drawn if there are as many samples as corners and the
    /// simulated time can still be held; it is then made from this state's
    /// numbers and colours, and `after` is this state advanced to `now`. If not,
    /// `after` is this state, and the error says which of the two was wrong, the
    /// samples first.
    pub open spec fn steps(
        self,
        after: SimulationState,
        now: int,
        screen: Screen,
        samples: Seq<Sample>,
        made: Result<Frame, FrameError>,
    ) -> bool {
        if samples.len() != corner_count(self.shape.segments) {
            after == self && made == Err::<Frame, FrameError>(FrameError::SampleCount)
        } else if !self.reaches(now) {
            after == self && made == Err::<Frame, FrameError>(FrameError::ClockRange)
        } else {
            &&& after == self.advanced(now)
            &&& made matches Ok(frame)
            &&& frame.shows(self.shape, self.colors, screen, samples)
        }
    }

    /// The value of `setting`.
    pub open spec fn value(self, setting: Setting) -> int {
        match setting {
            Setting::Shape(s) => self.shape.value(s),
            Setting::Color(role, channel) => self.colors.of(role).channel(channel) as int,
        }
    }

    /// The least value that `setting` can be given.
    pub open spec fn lowest(self, setting: Setting) -> int {
        match setting {
            Setting::Shape(s) => self.shape.lowest(s),
            Setting::Color(_, _) => 0,
        }
    }

    /// The greatest value that `setting` can be given.
    pub open spec fn highest(self, setting: Setting) -> int {
        match setting {
            Setting::Shape(s) => self.shape.highest(s),
            Setting::Color(_, _) => CHANNEL_MAX as int,
        }
    }

    /// This state after `setting` was given `value`.
    pub open spec fn with(self, setting: Setting, value: int) -> SimulationState {
        match setting {
            Setting::Shape(s) => SimulationState { shape: self.shape.with(s, value), ..self },
            Setting::Color(role, channel) => SimulationState {
                colors: self.colors.with_color(
                    role,
                    self.colors.of(role).with_channel(
                        channel,
                        clamped(value, 0, CHANNEL_MAX as int) as u8,
                    ),
                ),
                ..self
            },
        }
    }
}

impl SimulationState {
    /// Simulated time moves by exactly the velocity times what the clock has
    /// moved: forward with a positive velocity, backward with a negative one, and
    /// not at all with a velocity of zero.
    pub proof fn lemma_time_moves(self, now: int)
        ensures
            self.advanced(now).sim_time - self.sim_time == self.shape.sim_time_velocity * (now
                - self.last_time),
            self.advanced(now).last_time == now,
            now > self.last_time && self.shape.sim_time_velocity > 0 ==> self.advanced(
                now,
            ).sim_time > self.sim_time,
            now > self.last_time && self.shape.sim_time_velocity < 0 ==> self.advanced(
                now,
            ).sim_time < self.sim_time,
            now == self.last_time || self.shape.sim_time_velocity == 0 ==> self.advanced(
                now,
            ).sim_time == self.sim_time,
    {
        let v = self.shape.sim_time_velocity;
        let d = now - self.last_time;
        assert(d > 0 && v > 0 ==> v * d > 0) by (nonlinear_arith);
        assert(d > 0 && v < 0 ==> v * d < 0) by (nonlinear_arith);
        assert(d == 0 || v == 0 ==> v * d == 0) by (nonlinear_arith);
    }

    /// A frame changes the two times and nothing else.
    pub proof fn lemma_frame_keeps_settings(self, now: int, setting: Setting)
        ensures
            self.advanced(now).value(setting) == self.value(setting),
            self.advanced(now).shape == self.shape,
            self.advanced(now).colors == self.colors,
    {
    }

    /// A setting changes neither of the two times, keeps the numbers valid, and
    /// takes the value in its range that is nearest to the one given.
    pub proof fn lemma_with(self, setting: Setting, value: int)
        requires
            self.shape.valid(),
        ensures
            self.with(setting, value).sim_time == self.sim_time,
            self.with(setting, value).last_time == self.last_time,
            self.with(setting, value).shape.valid(),
            self.with(setting, value).value(setting) == clamped(
                value,
                self.lowest(setting),
                self.highest(setting),
            ),
    {
    }

    /// The same state, clock reading, screen and samples give the same outcome:
    /// the same state afterwards, and the same frame or the same error.
    pub proof fn lemma_step_unique(
        self,
        now: int,
        screen: Screen,
        samples: Seq<Sample>,
        first_after: SimulationState,
        first: Result<Frame, FrameError>,
        second_after: SimulationState,
        second: Result<Frame, FrameError>,
    )
        requires
            self.steps(first_after, now, screen, samples, first),
            self.steps(second_after, now, screen, samples, second),
        ensures
            first_after == second_after,
            first is Err ==> first == second,
            first matches Ok(a) ==> (second matches Ok(b) && a.background == b.background
                && a.center == b.center && a.hull@ == b.hull@ && a.rim@ == b.rim@ && a.lines@
                == b.lines@),
    {
        if first is Ok {
            lemma_frame_unique(
                first->Ok_0,
                second->Ok_0,
                self.shape,
                self.colors,
                screen,
                samples,
            );
        }
    }
}

/// The four colours that the figure starts with, taken apart.
proof fn lemma_initial_colors()
    ensures
        unpacked(BACKGROUND_RGB) == (Rgba { red: 0xEF, green: 0xD9, blue: 0xCE, alpha: 255 }),
        unpacked(BORDER_RGB) == (Rgba { red: 0xDE, green: 0xC0, blue: 0xF1, alpha: 255 }),
        unpacked(INNER_RGB) == (Rgba { red: 0xB7, green: 0x9C, blue: 0xED, alpha: 255 }),
        unpacked(OUTER_RGB) == (Rgba { red: 0x95, green: 0x7F, blue: 0xEF, alpha: 255 }),
{
    assert(((0xEFD9CEu32 & 0x00FF_0000u32) >> 16) == 0xEF && ((0xEFD9CEu32 & 0x0000_FF00u32) >> 8)
        == 0xD9 && (0xEFD9CEu32 & 0x0000_00FFu32) == 0xCE) by (bit_vector);
    assert(((0xDEC0F1u32 & 0x00FF_0000u32) >> 16) == 0xDE && ((0xDEC0F1u32 & 0x0000_FF00u32) >> 8)
        == 0xC0 && (0xDEC0F1u32 & 0x0000_00FFu32) == 0xF1) by (bit_vector);
    assert(((0xB79CEDu32 & 0x00FF_0000u32) >> 16) == 0xB7 && ((0xB79CEDu32 & 0x0000_FF00u32) >> 8)
        == 0x9C && (0xB79CEDu32 & 0x0000_00FFu32) == 0xED) by (bit_vector);
    assert(((0x957FEFu32 & 0x00FF_0000u32) >> 16) == 0x95 && ((0x957FEFu32 & 0x0000_FF00u32) >> 8)
        == 0x7F && (0x957FEFu32 & 0x0000_00FFu32) == 0xEF) by (bit_vector);
}

/// The animation: the numbers and colours of the figure, and its two times.
#[derive(Clone, Copy, Debug, PartialEq, Eq)]
pub struct NoiseCircle {
    shape: ShapeParameters,
    colors: ColorSet,
    sim_time: i128,
    last_time: u64,
}

impl View for NoiseCircle {
    type V = SimulationState;

    closed spec fn view(&self) -> SimulationState {
        SimulationState {
            shape: self.shape@,
            colors: self.colors,
            sim_time: self.sim_time as int,
            last_time: self.last_time as int,
        }
    }
}

impl NoiseCircle {
    /// The animation as it starts when the clock reads `now`.
    pub fn new(now: u64) -> (circle: NoiseCircle)
        ensures
            circle@ == SimulationState::initial(now as int),
    {
        let mut colors: ColorSet = ColorSet::from_rgb(
            BACKGROUND_RGB,
            BORDER_RGB,
            INNER_RGB,
            OUTER_RGB,
        );
        colors.set_channel(ColorRole::Outer, Channel::Alpha, 0);
        proof {
            lemma_initial_colors();
        }
        let sim_time: i128 = now as i128 * (MILLI as i128);
        NoiseCircle { shape: ShapeParameters::initial(), colors, sim_time, last_time: now }
    }

    /// The animation with the given numbers and colours, at simulated time
    /// `sim_time` and with `last_time` as the last reading of the clock.
    pub fn from_parts(
        shape: ShapeParameters,
        colors: ColorSet,
        sim_time: i128,
        last_time: u64,
    ) -> (circle: NoiseCircle)
        ensures
            circle@ == (SimulationState {
                shape: shape@,
                colors,
                sim_time: sim_time as int,
                last_time: last_time as int,
            }),
    {
        NoiseCircle { shape, colors, sim_time, last_time }
    }

    /// The simulated time once the clock reads `now`, if it can still be held.
    pub fn sim_time_after(&self, now: u64) -> (time: Option<i128>)
        ensures
            time is Some <==> self@.reaches(now as int),
            time matches Some(t) ==> t == self@.time_after(now as int),
    {
        let velocity: i128 = self.shape.sim_time_velocity() as i128;
        let delta: i128 = now as i128 - self.last_time as i128;
        proof {
            use_type_invariant(&self.shape);
            lemma_signed_product_bound(
                velocity as int,
                delta as int,
                VELOCITY_HIGH as int,
                u64::MAX as int,
            );
        }
        let step: i128 = velocity * delta;
        self.sim_time.checked_add(step)
    }

    /// Where the noise field is read for a corner in `direction` at simulated
    /// time `time`.
    pub fn noise_query(&self, time: i128, direction: Direction) -> (query: NoiseQuery)
        ensures
            self@.asks(query, time as int, direction),
    {
        let coefficient: i64 = self.shape.angle_noise_coefficient() as i64;
        proof {
            use_type_invariant(&self.shape);
            lemma_signed_product_bound(
                coefficient as int,
                direction.cos as int,
                ANGLE_NOISE_HIGH as int,
                0x8000_0000,
            );
            lemma_signed_product_bound(
                coefficient as int,
                direction.sin as int,
                ANGLE_NOISE_HIGH as int,
                0x8000_0000,
            );
        }
        NoiseQuery {
            time,
            x: coefficient * (direction.cos as i64),
            y: coefficient * (direction.sin as i64),
        }
    }

    /// Where the noise field is read for the frame at clock reading `now`: one
    /// query for each direction, in their order, all at the simulated time that
    /// [`NoiseCircle::update`] will reach at that reading.
    pub fn noise_queries(&self, now: u64, directions: &Vec<Direction>) -> (made: Result<
        Vec<NoiseQuery>,
        FrameError,
    >)
        ensures
            made is Ok <==> self@.reaches(now as int),
            made matches Ok(queries) ==> {
                &&& queries@.len() == directions@.len()
                &&& forall|i: int|
                    0 <= i < queries@.len() ==> self@.asks(
                        #[trigger] queries@[i],
                        self@.time_after(now as int),
                        directions@[i],
                    )
            },
            made matches Err(e) ==> e == FrameError::ClockRange,
    {
        match self.sim_time_after(now) {
            Some(time) => {
                let mut queries: Vec<NoiseQuery> = Vec::new();
                let mut i: usize = 0;
                while i < directions.len()
                    invariant
                        i <= directions@.len(),
                        queries@.len() == i,
                        time == self@.time_after(now as int),
                        forall|j: int|
                            0 <= j < i ==> self@.asks(
                                #[trigger] queries@[j],
                                time as int,
                                directions@[j],
                            ),
                    decreases directions@.len() - i,
                {
                    let query: NoiseQuery = self.noise_query(time, directions[i]);
                    queries.push(query);
                    i += 1;
                }
                Ok(queries)
            },
            None => Err(FrameError::ClockRange),
        }
    }

    /// Draws one frame at clock reading `now`. Simulated time moves by the
    /// velocity times what the clock has moved since the frame before, backward
    /// where the velocity is negative, and the figure is made from the samples.
    ///
    /// There have to be as many samples as [`NoiseCircle::segment_count`] says;
    /// if not, or else if the simulated time can no longer be held, nothing
    /// changes and nothing is drawn.
    pub fn update(&mut self, now: u64, screen: Screen, samples: &Vec<Sample>) -> (made: Result<
        Frame,
        FrameError,
    >)
        ensures
            old(self)@.steps(final(self)@, now as int, screen, samples@, made),
            made matches Ok(frame) ==> frame.figure().closed_by(frame.lines@, old(self)@.colors),
            made is Err ==> *final(self) == *old(self),
    {
        match render(&self.shape, &self.colors, screen, samples) {
            Ok(frame) => {
                match self.sim_time_after(now) {
                    Some(time) => {
                        self.sim_time = time;
                        self.last_time = now;
                        Ok(frame)
                    },
                    None => Err(FrameError::ClockRange),
                }
            },
            Err(e) => Err(e),
        }
    }

    /// The angles of the corners of the figure, in order.
    pub fn angles(&self) -> (turns: Vec<Turn>)
        ensures
            turns@.len() == corner_count(self@.shape.segments),
            forall|i: int|
                0 <= i < turns@.len() ==> #[trigger] turns@[i] == (Turn {
                    numerator: i as u32,
                    denominator: corner_count(self@.shape.segments) as u32,
                }),
    {
        angles(self.shape.segments())
    }

    /// The number of corners of the figure, and so the number of samples that a
    /// frame takes.
    pub fn segment_count(&self) -> (n: usize)
        ensures
            n == corner_count(self@.shape.segments),
    {
        segment_count(self.shape.segments())
    }

    /// The value of `setting`.
    pub fn value(&self, setting: Setting) -> (v: i64)
        ensures
            v == self@.value(setting),
    {
        match setting {
            Setting::Shape(s) => self.shape.value(s),
            Setting::Color(role, channel) => self.colors.get(role).get(channel) as i64,
        }
    }

    /// The least and the greatest value that `setting` can be given.
    pub fn range(&self, setting: Setting) -> (bounds: (i64, i64))
        ensures
            bounds.0 == self@.lowest(setting),
            bounds.1 == self@.highest(setting),
    {
        match setting {
            Setting::Shape(s) => self.shape.range(s),
            Setting::Color(_, _) => (0, CHANNEL_MAX as i64),
        }
    }

    /// Gives `setting` the value in its range that is nearest to `value`, and
    /// leaves the two times as they are.
    pub fn set(&mut self, setting: Setting, value: i64)
        ensures
            final(self)@ == old(self)@.with(setting, value as int),
    {
        match setting {
            Setting::Shape(s) => {
                self.shape.set(s, value);
            },
            Setting::Color(role, channel) => {
                let v: u8 = if value < 0 {
                    0
                } else if value > CHANNEL_MAX as i64 {
                    CHANNEL_MAX
                } else {
                    value as u8
                };
                self.colors.set_channel(role, channel, v);
            },
        }
    }

    /// The numbers of the figure.
    pub fn shape(&self) -> (shape: ShapeParameters)
        ensures
            shape@ == self@.shape,
    {
        self.shape
    }

    /// The colours of the figure.
    pub fn colors(&self) -> (colors: ColorSet)
        ensures
            colors == self@.colors,
    {
        self.colors
    }

    /// The simulated time, counted in [`crate::units::NANO`].
    pub fn sim_time(&self) -> (time: i128)
        ensures
            time == self@.sim_time,
    {
        self.sim_time
    }

    /// The last reading of the clock, counted in [`crate::units::MICRO`].
    pub fn last_time(&self) -> (time: u64)
        ensures
            time == self@.last_time,
    {
        self.last_time
    }
}

} // verus!
