use noise_circle::circle::{NoiseCircle, NoiseQuery, Setting};
use noise_circle::color::{ColorSet, Rgba};
use noise_circle::frame::render;
use noise_circle::generator::{Direction, FrameError, Sample, Screen, Turn};
use noise_circle::shape::{ShapeParameters, ShapeSetting};

fn samples(count: usize) -> Vec<Sample> {
    let mut all = Vec::new();
    for i in 0..count {
        let k = i as i32;
        all.push(Sample {
            direction: Direction { sin: 30_000 * k, cos: 1_000_000 - 20_000 * k },
            noise: 100_000 * (k % 7) - 300_000,
        });
    }
    all
}

fn screen() -> Screen {
    Screen { width: 800, height: 600 }
}

#[test]
fn new_starts_with_the_initial_numbers() {
    let circle = NoiseCircle::new(0);
    let shape = circle.shape();
    assert_eq!(shape.segments(), 20);
    assert_eq!(shape.inner_proportion(), 200);
    assert_eq!(shape.outer_proportion(), 500);
    assert_eq!(shape.noise_coefficient(), 400);
    assert_eq!(shape.scaling_coefficient(), 1_000);
    assert_eq!(shape.sim_time_velocity(), 800);
    assert_eq!(shape.angle_noise_coefficient(), 10_000);
    assert_eq!(shape, ShapeParameters::initial());
    assert_eq!(circle.segment_count(), 20);
}

#[test]
fn new_starts_with_the_initial_colors() {
    let colors = NoiseCircle::new(0).colors();
    assert_eq!(colors.background, Rgba { red: 0xEF, green: 0xD9, blue: 0xCE, alpha: 255 });
    assert_eq!(colors.border, Rgba { red: 0xDE, green: 0xC0, blue: 0xF1, alpha: 255 });
    assert_eq!(colors.inner, Rgba { red: 0xB7, green: 0x9C, blue: 0xED, alpha: 255 });
    assert_eq!(colors.outer, Rgba { red: 0x95, green: 0x7F, blue: 0xEF, alpha: 0 });
}

#[test]
fn new_starts_simulated_time_at_the_clock() {
    let circle = NoiseCircle::new(1_500_000);
    assert_eq!(circle.last_time(), 1_500_000);
    assert_eq!(circle.sim_time(), 1_500_000_000);
    let late = NoiseCircle::new(u64::MAX);
    assert_eq!(late.last_time(), u64::MAX);
    assert_eq!(late.sim_time(), u64::MAX as i128 * 1_000);
    let early = NoiseCircle::new(0);
    assert_eq!(early.sim_time(), 0);
}

#[test]
fn update_moves_simulated_time_by_velocity_times_delta() {
    let mut circle = NoiseCircle::new(1_000_000);
    // 0.8 * 2 s
    circle.update(3_000_000, screen(), &samples(20)).unwrap();
    assert_eq!(circle.sim_time(), 2_600_000_000);
    assert_eq!(circle.last_time(), 3_000_000);
    // 0.8 * 0.016667 s
    circle.update(3_016_667, screen(), &samples(20)).unwrap();
    assert_eq!(circle.sim_time(), 2_613_333_600);
    assert_eq!(circle.last_time(), 3_016_667);
}

#[test]
fn update_runs_simulated_time_backward_with_a_negative_velocity() {
    let mut circle = NoiseCircle::new(1_000_000);
    circle.set(Setting::Shape(ShapeSetting::SimTimeVelocity), -3_000);
    circle.update(2_000_000, screen(), &samples(20)).unwrap();
    assert_eq!(circle.sim_time(), 1_000_000_000 - 3_000_000_000);
    circle.set(Setting::Shape(ShapeSetting::SimTimeVelocity), -1);
    circle.update(2_000_001, screen(), &samples(20)).unwrap();
    assert_eq!(circle.sim_time(), -2_000_000_001);
}

#[test]
fn update_holds_simulated_time_with_a_velocity_of_zero() {
    let mut circle = NoiseCircle::new(1_000_000);
    circle.set(Setting::Shape(ShapeSetting::SimTimeVelocity), 0);
    circle.update(9_000_000, screen(), &samples(20)).unwrap();
    assert_eq!(circle.sim_time(), 1_000_000_000);
    assert_eq!(circle.last_time(), 9_000_000);
}

#[test]
fn update_follows_a_clock_that_went_back() {
    let mut circle = NoiseCircle::new(5_000_000);
    circle.update(4_000_000, screen(), &samples(20)).unwrap();
    assert_eq!(circle.sim_time(), 5_000_000_000 - 800_000_000);
    assert_eq!(circle.last_time(), 4_000_000);
}

#[test]
fn update_draws_what_render_gives() {
    let mut circle = NoiseCircle::new(0);
    let before = circle;
    let frame = circle.update(16_000, screen(), &samples(20)).unwrap();
    let expected = render(&before.shape(), &before.colors(), screen(), &samples(20)).unwrap();
    assert_eq!(frame, expected);
    assert_eq!(frame.hull.len(), 20);
    assert_eq!(frame.lines.len(), 60);
    assert_eq!(circle.shape(), before.shape());
    assert_eq!(circle.colors(), before.colors());
}

#[test]
fn update_is_the_same_for_the_same_state_and_inputs() {
    let mut first = NoiseCircle::new(123_456);
    let mut second = NoiseCircle::new(123_456);
    let a = first.update(500_000, screen(), &samples(20));
    let b = second.update(500_000, screen(), &samples(20));
    assert_eq!(a, b);
    assert_eq!(first, second);
}

#[test]
fn update_wants_as_many_samples_as_corners() {
    let mut circle = NoiseCircle::new(1_000_000);
    let before = circle;
    assert_eq!(circle.update(2_000_000, screen(), &samples(19)), Err(FrameError::SampleCount));
    assert_eq!(circle, before);
    assert_eq!(circle.update(2_000_000, screen(), &samples(21)), Err(FrameError::SampleCount));
    assert_eq!(circle, before);
    assert_eq!(circle.update(2_000_000, screen(), &Vec::new()), Err(FrameError::SampleCount));
    assert_eq!(circle, before);
}

#[test]
fn update_stops_where_simulated_time_cannot_be_held() {
    let colors = ColorSet::from_rgb(1, 2, 3, 4);
    let forward = ShapeParameters::new(3, 200, 500, 400, 1_000, 1, 10_000).unwrap();
    let mut circle = NoiseCircle::from_parts(forward, colors, i128::MAX - 5, 10);
    let before = circle;
    assert_eq!(circle.sim_time_after(16), None);
    assert_eq!(circle.update(16, screen(), &samples(3)), Err(FrameError::ClockRange));
    assert_eq!(circle, before);
    assert_eq!(circle.noise_queries(16, &Vec::new()), Err(FrameError::ClockRange));
    // the samples are looked at first
    assert_eq!(circle.update(16, screen(), &samples(4)), Err(FrameError::SampleCount));
    assert_eq!(circle, before);
    // five more can still be held
    assert_eq!(circle.sim_time_after(15), Some(i128::MAX));
    assert!(circle.update(15, screen(), &samples(3)).is_ok());
    assert_eq!(circle.sim_time(), i128::MAX);

    let backward = ShapeParameters::new(3, 200, 500, 400, 1_000, -3_000, 10_000).unwrap();
    let mut circle = NoiseCircle::from_parts(backward, colors, i128::MIN + 2_999, 0);
    assert_eq!(circle.update(1, screen(), &samples(3)), Err(FrameError::ClockRange));
    assert_eq!(circle.sim_time(), i128::MIN + 2_999);
}

#[test]
fn sim_time_after_looks_ahead_to_the_next_frame() {
    let mut circle = NoiseCircle::new(1_000_000);
    assert_eq!(circle.sim_time_after(3_000_000), Some(2_600_000_000));
    assert_eq!(circle.sim_time(), 1_000_000_000);
    circle.update(3_000_000, screen(), &samples(20)).unwrap();
    assert_eq!(circle.sim_time(), 2_600_000_000);
    assert_eq!(circle.sim_time_after(3_000_000), Some(2_600_000_000));
    assert_eq!(circle.sim_time_after(0), Some(200_000_000));
    assert_eq!(circle.sim_time_after(u64::MAX), Some(2_600_000_000 + 800 * (u64::MAX as i128 - 3_000_000)));
}

#[test]
fn noise_query_lies_on_a_circle_moved_by_time() {
    let circle = NoiseCircle::new(0);
    // 10 * cos, 10 * sin
    assert_eq!(
        circle.noise_query(2_600_000_000, Direction { sin: 500_000, cos: -866_025 }),
        NoiseQuery { time: 2_600_000_000, x: -8_660_250_000, y: 5_000_000_000 }
    );
    assert_eq!(
        circle.noise_query(-7, Direction { sin: 0, cos: 1_000_000 }),
        NoiseQuery { time: -7, x: 10_000_000_000, y: 0 }
    );
    let mut wide = NoiseCircle::new(0);
    wide.set(Setting::Shape(ShapeSetting::AngleNoiseCoefficient), 20_000);
    assert_eq!(
        wide.noise_query(0, Direction { sin: i32::MIN, cos: i32::MAX }),
        NoiseQuery { time: 0, x: 20_000 * 2_147_483_647, y: -20_000 * 2_147_483_648 }
    );
}

#[test]
fn noise_queries_are_asked_at_the_time_of_the_next_frame() {
    let circle = NoiseCircle::new(1_000_000);
    let directions = vec![
        Direction { sin: 0, cos: 1_000_000 },
        Direction { sin: 1_000_000, cos: 0 },
        Direction { sin: -707_107, cos: -707_107 },
    ];
    assert_eq!(
        circle.noise_queries(3_000_000, &directions),
        Ok(vec![
            NoiseQuery { time: 2_600_000_000, x: 10_000_000_000, y: 0 },
            NoiseQuery { time: 2_600_000_000, x: 0, y: 10_000_000_000 },
            NoiseQuery { time: 2_600_000_000, x: -7_071_070_000, y: -7_071_070_000 },
        ])
    );
    assert_eq!(circle.noise_queries(3_000_000, &Vec::new()), Ok(Vec::new()));
}

#[test]
fn angles_follow_the_segments() {
    let mut circle = NoiseCircle::new(0);
    assert_eq!(circle.angles().len(), 20);
    assert_eq!(circle.angles()[0], Turn { numerator: 0, denominator: 20 });
    assert_eq!(circle.angles()[19], Turn { numerator: 19, denominator: 20 });
    circle.set(Setting::Shape(ShapeSetting::Segments), 200);
    assert_eq!(circle.segment_count(), 200);
    assert_eq!(circle.angles().len(), 200);
    assert_eq!(circle.angles()[7], Turn { numerator: 7, denominator: 200 });
    let two = ShapeParameters::new(2, 200, 500, 400, 1_000, 800, 10_000).unwrap();
    let small = NoiseCircle::from_parts(two, circle.colors(), 0, 0);
    assert_eq!(small.segment_count(), 3);
    assert_eq!(
        small.angles(),
        vec![
            Turn { numerator: 0, denominator: 3 },
            Turn { numerator: 1, denominator: 3 },
            Turn { numerator: 2, denominator: 3 },
        ]
    );
}
