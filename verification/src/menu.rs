//! The screens of the program and the step of its frame loop.

use vstd::prelude::*;
use crate::circle::NoiseCircle;
use crate::frame::Frame;
use crate::generator::{FrameError, Sample, Screen};

verus! {

/// The start screen. It holds nothing and shows nothing.
#[derive(Clone, Copy, Debug, PartialEq, Eq, Structural)]
pub struct MainMenu {}

impl MainMenu {
    /// The start screen.
    pub fn new() -> (menu: MainMenu)
        ensures
            menu == (MainMenu {  }),
    {
        MainMenu {  }
    }

    /// One frame of the start screen: nothing happens.
    pub fn update(&self) {
    }
}

/// The screen that the program is on.
#[derive(Clone, Copy, Debug, PartialEq, Eq)]
pub enum GameState {
    MainMenu(MainMenu),
    NoiseCircle(NoiseCircle),
}

/// What the frame loop does after a step.
#[derive(Debug, PartialEq, Eq)]
pub enum LoopAction {
    /// Leave the loop and end the program with success.
    Exit,
    /// Present a frame on which nothing was drawn.
    Idle,
    /// Draw this frame and present it.
    Draw(Frame),
}

impl GameState {
    /// Whether one step of the frame loop takes this screen to `after` and has
    /// the outcome `made`.
    ///
    /// A request to exit is looked at before anything else: the loop is then
    /// left at once, with no frame drawn and nothing changed. Otherwise the
    /// screen that the program is on has its frame: the start screen shows
    /// nothing and stays as it is, the animation takes the step that
    /// [`crate::circle::SimulationState::steps`] describes.
    pub open spec fn steps(
        self,
        after: GameState,
        exit_requested: bool,
        now: int,
        screen: Screen,
        samples: Seq<Sample>,
        made: Result<LoopAction, FrameError>,
    ) -> bool {
        if exit_requested {
            after == self && made == Ok::<LoopAction, FrameError>(LoopAction::Exit)
        } else {
            match self {
                GameState::MainMenu(_) => after == self && made == Ok::<LoopAction, FrameError>(
                    LoopAction::Idle,
                ),
                GameState::NoiseCircle(before) => {
                    &&& after matches GameState::NoiseCircle(circle)
                    &&& match made {
                        Ok(LoopAction::Draw(frame)) => before@.steps(
                            circle@,
                            now,
                            screen,
                            samples,
                            Ok(frame),
                        ),
                        Ok(_) => false,
                        Err(e) => circle == before && before@.steps(
                            circle@,
                            now,
                            screen,
                            samples,
                            Err(e),
                        ),
                    }
                },
            }
        }
    }

    /// One step of the frame loop at clock reading `now`.
    pub fn update(
        &mut self,
        exit_requested: bool,
        now: u64,
        screen: Screen,
        samples: &Vec<Sample>,
    ) -> (made: Result<LoopAction, FrameError>)
        ensures
            old(self).steps(*final(self), exit_requested, now as int, screen, samples@, made),
    {
        if exit_requested {
            return Ok(LoopAction::Exit);
        }
        match self {
            GameState::MainMenu(menu) => {
                menu.update();
                Ok(LoopAction::Idle)
            },
            GameState::NoiseCircle(circle) => {
                match circle.update(now, screen, samples) {
                    Ok(frame) => Ok(LoopAction::Draw(frame)),
                    Err(e) => Err(e),
                }
            },
        }
    }
}

} // verus!
