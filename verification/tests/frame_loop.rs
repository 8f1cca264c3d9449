use noise_circle::circle::NoiseCircle;
use noise_circle::generator::{Direction, FrameError, Sample, Screen};
use noise_circle::menu::{GameState, LoopAction, MainMenu};

fn samples(count: usize) -> Vec<Sample> {
    let mut all = Vec::new();
    for i in 0..count {
        let k = i as i32;
        all.push(Sample { direction: Direction { sin: 50_000 * k, cos: -50_000 * k }, noise: 10 * k });
    }
    all
}

fn screen() -> Screen {
    Screen { width: 800, height: 600 }
}

#[test]
fn main_menu_holds_nothing() {
    let menu = MainMenu::new();
    menu.update();
    assert_eq!(menu, MainMenu {});
}

#[test]
fn exit_leaves_the_loop_before_any_frame() {
    let circle = NoiseCircle::new(1_000_000);
    let mut state = GameState::NoiseCircle(circle);
    assert_eq!(state.update(true, 2_000_000, screen(), &samples(20)), Ok(LoopAction::Exit));
    assert_eq!(state, GameState::NoiseCircle(circle));
    // also where the frame could not have been drawn
    assert_eq!(state.update(true, 2_000_000, screen(), &samples(1)), Ok(LoopAction::Exit));
    assert_eq!(state, GameState::NoiseCircle(circle));
    let mut menu = GameState::MainMenu(MainMenu::new());
    assert_eq!(menu.update(true, 0, screen(), &Vec::new()), Ok(LoopAction::Exit));
    assert_eq!(menu, GameState::MainMenu(MainMenu::new()));
}

#[test]
fn main_menu_draws_nothing() {
    let mut state = GameState::MainMenu(MainMenu::new());
    assert_eq!(state.update(false, 5, screen(), &Vec::new()), Ok(LoopAction::Idle));
    assert_eq!(state.update(false, 6, screen(), &samples(20)), Ok(LoopAction::Idle));
    assert_eq!(state, GameState::MainMenu(MainMenu::new()));
}

#[test]
fn noise_circle_draws_its_frame() {
    let mut alone = NoiseCircle::new(1_000_000);
    let mut state = GameState::NoiseCircle(alone);
    let made = state.update(false, 2_000_000, screen(), &samples(20));
    let frame = alone.update(2_000_000, screen(), &samples(20)).unwrap();
    assert_eq!(made, Ok(LoopAction::Draw(frame)));
    assert_eq!(state, GameState::NoiseCircle(alone));
    assert_eq!(alone.sim_time(), 1_800_000_000);
}

#[test]
fn noise_circle_without_its_samples_draws_nothing() {
    let circle = NoiseCircle::new(1_000_000);
    let mut state = GameState::NoiseCircle(circle);
    assert_eq!(state.update(false, 2_000_000, screen(), &samples(3)), Err(FrameError::SampleCount));
    assert_eq!(state, GameState::NoiseCircle(circle));
}
