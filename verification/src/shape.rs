//! The tunable numbers of the figure, their ranges, and how a setting is changed.

use vstd::prelude::*;

verus! {

/// The least number of corners a polygon is drawn with.
pub const MIN_SEGMENTS: u32 = 3;

/// The least number of segments that can be set.
pub const SEGMENTS_LOW: u32 = 10;

/// The greatest number of segments that can be set.
pub const SEGMENTS_HIGH: u32 = 200;

/// The greatest proportion or coefficient: one, in [`crate::units::MILLI`].
pub const PROPORTION_HIGH: u32 = 1_000;

/// The greatest velocity of simulated time in either direction: three, in
/// [`crate::units::MILLI`].
pub const VELOCITY_HIGH: i32 = 3_000;

/// The least angle-noise coefficient: a hundredth, in [`crate::units::MILLI`].
pub const ANGLE_NOISE_LOW: u32 = 10;

/// The greatest angle-noise coefficient: twenty, in [`crate::units::MILLI`].
pub const ANGLE_NOISE_HIGH: u32 = 20_000;

/// The numbers that can be set.
#[derive(Clone, Copy, Debug, PartialEq, Eq, Structural)]
pub enum ShapeSetting {
    /// How many corners are asked for.
    Segments,
    /// The part of the screen's longer side that every radius has at least.
    InnerProportion,
    /// The part of the screen's shorter side that the noise band can reach.
    OuterProportion,
    /// How much of the noise band the noise may use.
    NoiseCoefficient,
    /// Kept and set like the others; no radius depends on it.
    ScalingCoefficient,
    /// How fast simulated time runs against the clock; negative runs it backward.
    SimTimeVelocity,
    /// The radius of the circle on which the noise field is sampled.
    AngleNoiseCoefficient,
}

/// The mathematical content of [`ShapeParameters`]. The segments are a count;
/// the other numbers are counted in [`crate::units::MILLI`].
pub struct ShapeModel {
    pub segments: nat,
    pub inner_proportion: int,
    pub outer_proportion: int,
    pub noise_coefficient: int,
    pub scaling_coefficient: int,
    pub sim_time_velocity: int,
    pub angle_noise_coefficient: int,
}

/// The value in `low ..= high` that is nearest to `value`.
pub open spec fn clamped(value: int, low: int, high: int) -> int {
    if value < low {
        low
    } else if value > high {
        high
    } else {
        value
    }
}

impl ShapeModel {
    /// Every number but the segments lies in its range, and the outer proportion
    /// is not below the inner one.
    pub open spec fn valid(self) -> bool {
        &&& 0 <= self.inner_proportion <= self.outer_proportion <= PROPORTION_HIGH
        &&& 0 <= self.noise_coefficient <= PROPORTION_HIGH
        &&& 0 <= self.scaling_coefficient <= PROPORTION_HIGH
        &&& -VELOCITY_HIGH <= self.sim_time_velocity <= VELOCITY_HIGH
        &&& ANGLE_NOISE_LOW <= self.angle_noise_coefficient <= ANGLE_NOISE_HIGH
    }

    /// The value of `setting`.
    pub open spec fn value(self, setting: ShapeSetting) -> int {
        match setting {
            ShapeSetting::Segments => self.segments as int,
            ShapeSetting::InnerProportion => self.inner_proportion,
            ShapeSetting::OuterProportion => self.outer_proportion,
            ShapeSetting::NoiseCoefficient => self.noise_coefficient,
            ShapeSetting::ScalingCoefficient => self.scaling_coefficient,
            ShapeSetting::SimTimeVelocity => self.sim_time_velocity,
            ShapeSetting::AngleNoiseCoefficient => self.angle_noise_coefficient,
        }
    }

    /// The least value that `setting` can be given. For the outer proportion
    /// that is the inner proportion as it stands.
    pub open spec fn lowest(self, setting: ShapeSetting) -> int {
        match setting {
            ShapeSetting::Segments => SEGMENTS_LOW as int,
            ShapeSetting::InnerProportion => 0,
            ShapeSetting::OuterProportion => self.inner_proportion,
            ShapeSetting::NoiseCoefficient => 0,
            ShapeSetting::ScalingCoefficient => 0,
            ShapeSetting::SimTimeVelocity => -VELOCITY_HIGH,
            ShapeSetting::AngleNoiseCoefficient => ANGLE_NOISE_LOW as int,
        }
    }

    /// The greatest value that `setting` can be given.
    pub open spec fn highest(self, setting: ShapeSetting) -> int {
        match setting {
            ShapeSetting::Segments => SEGMENTS_HIGH as int,
            ShapeSetting::InnerProportion => PROPORTION_HIGH as int,
            ShapeSetting::OuterProportion => PROPORTION_HIGH as int,
            ShapeSetting::NoiseCoefficient => PROPORTION_HIGH as int,
            ShapeSetting::ScalingCoefficient => PROPORTION_HIGH as int,
            ShapeSetting::SimTimeVelocity => VELOCITY_HIGH as int,
            ShapeSetting::AngleNoiseCoefficient => ANGLE_NOISE_HIGH as int,
        }
    }

    /// These numbers after `setting` was given `value`: the value is brought into
    /// the setting's range, and an inner proportion that rises above the outer
    /// one takes the outer one up with it. Nothing else changes.
    pub open spec fn with(self, setting: ShapeSetting, value: int) -> ShapeModel {
        let v = clamped(value, self.lowest(setting), self.highest(setting));
        match setting {
            ShapeSetting::Segments => ShapeModel { segments: v as nat, ..self },
            ShapeSetting::InnerProportion => ShapeModel {
                inner_proportion: v,
                outer_proportion: if self.outer_proportion < v {
                    v
                } else {
                    self.outer_proportion
                },
                ..self
            },
            ShapeSetting::OuterProportion => ShapeModel { outer_proportion: v, ..self },
            ShapeSetting::NoiseCoefficient => ShapeModel { noise_coefficient: v, ..self },
            ShapeSetting::ScalingCoefficient => ShapeModel { scaling_coefficient: v, ..self },
            ShapeSetting::SimTimeVelocity => ShapeModel { sim_time_velocity: v, ..self },
            ShapeSetting::AngleNoiseCoefficient => ShapeModel {
                angle_noise_coefficient: v,
                ..self
            },
        }
    }

    /// The given numbers, in the order of the fields.
    pub open spec fn of(
        segments: u32,
        inner_proportion: u32,
        outer_proportion: u32,
        noise_coefficient: u32,
        scaling_coefficient: u32,
        sim_time_velocity: i32,
        angle_noise_coefficient: u32,
    ) -> ShapeModel {
        ShapeModel {
            segments: segments as nat,
            inner_proportion: inner_proportion as int,
            outer_proportion: outer_proportion as int,
            noise_coefficient: noise_coefficient as int,
            scaling_coefficient: scaling_coefficient as int,
            sim_time_velocity: sim_time_velocity as int,
            angle_noise_coefficient: angle_noise_coefficient as int,
        }
    }

    /// The numbers that the figure starts with.
    pub open spec fn initial() -> ShapeModel {
        ShapeModel {
            segments: 20,
            inner_proportion: 200,
            outer_proportion: 500,
            noise_coefficient: 400,
            scaling_coefficient: 1_000,
            sim_time_velocity: 800,
            angle_noise_coefficient: 10_000,
        }
    }

    /// Changing a setting keeps the numbers valid: in particular the outer
    /// proportion never falls below the inner one.
    pub proof fn lemma_with_valid(self, setting: ShapeSetting, value: int)
        requires
            self.valid(),
        ensures
            self.with(setting, value).valid(),
    {
    }

    /// A setting takes the value in its range that is nearest to the one given.
    pub proof fn lemma_with_value(self, setting: ShapeSetting, value: int)
        requires
            self.valid(),
        ensures
            self.with(setting, value).value(setting) == clamped(
                value,
                self.lowest(setting),
                self.highest(setting),
            ),
            self.lowest(setting) <= self.with(setting, value).value(setting) <= self.highest(
                setting,
            ),
    {
    }

    /// Changing one setting leaves every other as it was; only the outer
    /// proportion may move when the inner one is set.
    pub proof fn lemma_with_others(self, setting: ShapeSetting, value: int, other: ShapeSetting)
        requires
            self.valid(),
            other != setting,
            !(setting == ShapeSetting::InnerProportion && other == ShapeSetting::OuterProportion),
        ensures
            self.with(setting, value).value(other) == self.value(other),
    {
    }

    /// When the inner proportion is set, the outer one stays where it is unless
    /// the inner one rises above it; then the two are equal.
    pub proof fn lemma_with_inner(self, value: int)
        requires
            self.valid(),
        ensures
            self.with(ShapeSetting::InnerProportion, value).outer_proportion
                == if self.outer_proportion < clamped(value, 0, PROPORTION_HIGH as int) {
                clamped(value, 0, PROPORTION_HIGH as int)
            } else {
                self.outer_proportion
            },
            self.with(ShapeSetting::InnerProportion, value).inner_proportion == clamped(
                value,
                0,
                PROPORTION_HIGH as int,
            ),
    {
    }

    /// Giving a setting the value that it has changes nothing, once the segments
    /// lie in their range.
    pub proof fn lemma_with_same(self, setting: ShapeSetting)
        requires
            self.valid(),
            SEGMENTS_LOW <= self.segments <= SEGMENTS_HIGH,
        ensures
            self.with(setting, self.value(setting)) == self,
    {
    }
}

/// The tunable numbers of the figure. A value of this type is always valid, see
/// [`ShapeModel::valid`].
#[derive(Clone, Copy, Debug, PartialEq, Eq)]
pub struct ShapeParameters {
    segments: u32,
    inner_proportion: u32,
    outer_proportion: u32,
    noise_coefficient: u32,
    scaling_coefficient: u32,
    sim_time_velocity: i32,
    angle_noise_coefficient: u32,
}

impl View for ShapeParameters {
    type V = ShapeModel;

    closed spec fn view(&self) -> ShapeModel {
        ShapeModel {
            segments: self.segments as nat,
            inner_proportion: self.inner_proportion as int,
            outer_proportion: self.outer_proportion as int,
            noise_coefficient: self.noise_coefficient as int,
            scaling_coefficient: self.scaling_coefficient as int,
            sim_time_velocity: self.sim_time_velocity as int,
            angle_noise_coefficient: self.angle_noise_coefficient as int,
        }
    }
}

impl ShapeParameters {
    /// Holds of every value of this type.
    #[verifier::type_invariant]
    pub open spec fn well_formed(self) -> bool {
        self@.valid()
    }

    /// The numbers given, if they are valid.
    pub fn new(
        segments: u32,
        inner_proportion: u32,
        outer_proportion: u32,
        noise_coefficient: u32,
        scaling_coefficient: u32,
        sim_time_velocity: i32,
        angle_noise_coefficient: u32,
    ) -> (made: Option<ShapeParameters>)
        ensures
            made is Some <==> ShapeModel::of(
                segments,
                inner_proportion,
                outer_proportion,
                noise_coefficient,
                scaling_coefficient,
                sim_time_velocity,
                angle_noise_coefficient,
            ).valid(),
            made matches Some(p) ==> p@ == ShapeModel::of(
                segments,
                inner_proportion,
                outer_proportion,
                noise_coefficient,
                scaling_coefficient,
                sim_time_velocity,
                angle_noise_coefficient,
            ),
    {
        if inner_proportion <= outer_proportion && outer_proportion <= PROPORTION_HIGH
            && noise_coefficient <= PROPORTION_HIGH && scaling_coefficient <= PROPORTION_HIGH
            && -VELOCITY_HIGH <= sim_time_velocity && sim_time_velocity <= VELOCITY_HIGH
            && ANGLE_NOISE_LOW <= angle_noise_coefficient && angle_noise_coefficient
            <= ANGLE_NOISE_HIGH {
            Some(
                ShapeParameters {
                    segments,
                    inner_proportion,
                    outer_proportion,
                    noise_coefficient,
                    scaling_coefficient,
                    sim_time_velocity,
                    angle_noise_coefficient,
                },
            )
        } else {
            None
        }
    }

    /// The numbers that the figure starts with.
    pub fn initial() -> (p: ShapeParameters)
        ensures
            p@ == ShapeModel::initial(),
    {
        ShapeParameters {
            segments: 20,
            inner_proportion: 200,
            outer_proportion: 500,
            noise_coefficient: 400,
            scaling_coefficient: 1_000,
            sim_time_velocity: 800,
            angle_noise_coefficient: 10_000,
        }
    }

    /// Gives `setting` the value in its range that is nearest to `value`. An
    /// inner proportion that rises above the outer one takes the outer one up
    /// with it.
    pub fn set(&mut self, setting: ShapeSetting, value: i64)
        ensures
            final(self)@ == old(self)@.with(setting, value as int),
    {
        proof {
            use_type_invariant(&*self);
        }
        let (low, high): (i64, i64) = self.range(setting);
        let v: i64 = if value < low {
            low
        } else if value > high {
            high
        } else {
            value
        };
        match setting {
            ShapeSetting::Segments => {
                *self = ShapeParameters { segments: v as u32, ..*self };
            },
            ShapeSetting::InnerProportion => {
                let inner: u32 = v as u32;
                let outer: u32 = if self.outer_proportion < inner {
                    inner
                } else {
                    self.outer_proportion
                };
                *self = ShapeParameters { inner_proportion: inner, outer_proportion: outer, ..*self };
            },
            ShapeSetting::OuterProportion => {
                *self = ShapeParameters { outer_proportion: v as u32, ..*self };
            },
            ShapeSetting::NoiseCoefficient => {
                *self = ShapeParameters { noise_coefficient: v as u32, ..*self };
            },
            ShapeSetting::ScalingCoefficient => {
                *self = ShapeParameters { scaling_coefficient: v as u32, ..*self };
            },
            ShapeSetting::SimTimeVelocity => {
                *self = ShapeParameters { sim_time_velocity: v as i32, ..*self };
            },
            ShapeSetting::AngleNoiseCoefficient => {
                *self = ShapeParameters { angle_noise_coefficient: v as u32, ..*self };
            },
        }
    }

    /// The value of `setting`.
    pub fn value(&self, setting: ShapeSetting) -> (v: i64)
        ensures
            v == self@.value(setting),
    {
        match setting {
            ShapeSetting::Segments => self.segments as i64,
            ShapeSetting::InnerProportion => self.inner_proportion as i64,
            ShapeSetting::OuterProportion => self.outer_proportion as i64,
            ShapeSetting::NoiseCoefficient => self.noise_coefficient as i64,
            ShapeSetting::ScalingCoefficient => self.scaling_coefficient as i64,
            ShapeSetting::SimTimeVelocity => self.sim_time_velocity as i64,
            ShapeSetting::AngleNoiseCoefficient => self.angle_noise_coefficient as i64,
        }
    }

    /// The least and the greatest value that `setting` can be given.
    pub fn range(&self, setting: ShapeSetting) -> (bounds: (i64, i64))
        ensures
            bounds.0 == self@.lowest(setting),
            bounds.1 == self@.highest(setting),
    {
        match setting {
            ShapeSetting::Segments => (SEGMENTS_LOW as i64, SEGMENTS_HIGH as i64),
            ShapeSetting::InnerProportion => (0, PROPORTION_HIGH as i64),
            ShapeSetting::OuterProportion => (self.inner_proportion as i64, PROPORTION_HIGH as i64),
            ShapeSetting::NoiseCoefficient => (0, PROPORTION_HIGH as i64),
            ShapeSetting::ScalingCoefficient => (0, PROPORTION_HIGH as i64),
            ShapeSetting::SimTimeVelocity => (-(VELOCITY_HIGH as i64), VELOCITY_HIGH as i64),
            ShapeSetting::AngleNoiseCoefficient => (ANGLE_NOISE_LOW as i64, ANGLE_NOISE_HIGH as i64),
        }
    }

    /// How many corners are asked for.
    pub fn segments(&self) -> (v: u32)
        ensures
            v == self@.segments,
    {
        self.segments
    }

    /// The inner proportion, counted in [`crate::units::MILLI`].
    pub fn inner_proportion(&self) -> (v: u32)
        ensures
            v == self@.inner_proportion,
    {
        self.inner_proportion
    }

    /// The outer proportion, counted in [`crate::units::MILLI`].
    pub fn outer_proportion(&self) -> (v: u32)
        ensures
            v == self@.outer_proportion,
    {
        self.outer_proportion
    }

    /// The noise coefficient, counted in [`crate::units::MILLI`].
    pub fn noise_coefficient(&self) -> (v: u32)
        ensures
            v == self@.noise_coefficient,
    {
        self.noise_coefficient
    }

    /// The scaling coefficient, counted in [`crate::units::MILLI`].
    pub fn scaling_coefficient(&self) -> (v: u32)
        ensures
            v == self@.scaling_coefficient,
    {
        self.scaling_coefficient
    }

    /// The velocity of simulated time, counted in [`crate::units::MILLI`].
    pub fn sim_time_velocity(&self) -> (v: i32)
        ensures
            v == self@.sim_time_velocity,
    {
        self.sim_time_velocity
    }

    /// The angle-noise coefficient, counted in [`crate::units::MILLI`].
    pub fn angle_noise_coefficient(&self) -> (v: u32)
        ensures
            v == self@.angle_noise_coefficient,
    {
        self.angle_noise_coefficient
    }
}

} // verus!
