//! The display actor's decisions.
//!
//! The actor owns the panel and is the only one to push frames to it, one command
//! at a time. For each command it lays out the steps to perform on the panel; once
//! they are done it settles the program state and names the event to report. A
//! step that fails on the panel is fatal: the steps that follow it are not
//! performed and nothing is reported.

use crate::errors::Fault;
use crate::event::{DisplayCommand, Events};
use crate::state::ProgramState;
use vstd::prelude::*;

verus! {

/// The panel's width in pixels.
pub const PANEL_WIDTH: usize = 800;

/// The panel's height in pixels.
pub const PANEL_HEIGHT: usize = 480;

/// The panel's power mode, as the actor left it.
#[derive(Debug, Clone, Copy, PartialEq, Eq)]
pub enum PanelMode {
    Sleeping,
    Awake,
}

/// One step on the panel or on the frame that is being composed.
#[derive(Debug, Clone, Copy, PartialEq, Eq)]
pub enum PanelStep {
    /// Blank the frame.
    ClearCanvas,
    /// Wake the panel.
    WakeUp,
    /// Draw what the command shows into the frame.
    Render,
    /// Push the frame to the panel.
    PushFrame,
    /// Put the panel to sleep.
    Sleep,
    /// Cut the panel's power rail.
    CutPower,
}

pub struct DisplayActor {
    pub mode: PanelMode,
}

/// Where a status text starts: twenty pixels in, and sixteen pixels further down
/// for each line. None when the line is so far off that its position is not a
/// coordinate.
pub open spec fn text_origin(line: i32) -> Option<(i32, i32)> {
    if i32::MIN <= 16 * line && 20 + 16 * line <= i32::MAX {
        Some((20i32, (20 + 16 * line) as i32))
    } else {
        None
    }
}

pub fn status_text_origin(line: i32) -> (origin: Option<(i32, i32)>)
    ensures
        origin == text_origin(line),
{
    if line >= -134217728 && line <= 134217726 {
        Some((20, 20 + 16 * line))
    } else {
        None
    }
}

/// Where the pixel number `index` of an image goes: images are stored row by row,
/// each row as wide as the panel. None for a pixel below the panel's last row.
pub open spec fn pixel_at(index: usize) -> Option<(i32, i32)> {
    if index < PANEL_WIDTH * PANEL_HEIGHT {
        Some(((index % PANEL_WIDTH) as i32, (index / PANEL_WIDTH) as i32))
    } else {
        None
    }
}

pub fn pixel_position(index: usize) -> (position: Option<(i32, i32)>)
    ensures
        position == pixel_at(index),
{
    if index < PANEL_WIDTH * PANEL_HEIGHT {
        Some(((index % PANEL_WIDTH) as i32, (index / PANEL_WIDTH) as i32))
    } else {
        None
    }
}

/// The steps around one frame: wake the panel unless it is awake, draw, push the
/// frame, and put the panel back to sleep. An image starts from a blank frame.
pub open spec fn frame_steps(mode: PanelMode, blank_first: bool) -> Seq<PanelStep> {
    (if blank_first {
        seq![PanelStep::ClearCanvas]
    } else {
        seq![]
    }) + (if mode == PanelMode::Sleeping {
        seq![PanelStep::WakeUp]
    } else {
        seq![]
    }) + seq![PanelStep::Render, PanelStep::PushFrame, PanelStep::Sleep]
}

/// A plan with its steps as a sequence.
pub open spec fn listed(steps: Result<Vec<PanelStep>, Fault>) -> Result<Seq<PanelStep>, Fault> {
    match steps {
        Ok(list) => Ok(list@),
        Err(fault) => Err(fault),
    }
}

impl DisplayActor {
    /// The actor at boot: the panel has been put to sleep.
    pub fn new() -> (actor: DisplayActor)
        ensures
            actor.mode == PanelMode::Sleeping,
    {
        DisplayActor { mode: PanelMode::Sleeping }
    }

    /// The steps that `command` takes on a panel in the mode `mode`. An image that
    /// is not in memory cannot be drawn.
    pub open spec fn steps_for(mode: PanelMode, state: ProgramState, command: DisplayCommand) -> Result<
        Seq<PanelStep>,
        Fault,
    > {
        match command {
            DisplayCommand::ShowStatusText(_, _) => Ok(frame_steps(mode, false)),
            DisplayCommand::DrawImage(screen_idx) => if state.image_of(screen_idx) is Some {
                Ok(frame_steps(mode, true))
            } else {
                Err(Fault::DecodeError)
            },
            DisplayCommand::DisplayPowerOff => Ok(seq![PanelStep::Sleep, PanelStep::CutPower]),
        }
    }

    /// Lays out the steps for `command`. A command that pushes a frame has the
    /// panel awake from here until `finish`.
    pub fn plan(&mut self, state: &ProgramState, command: &DisplayCommand) -> (steps: Result<Vec<PanelStep>, Fault>)
        requires
            state.wf(),
        ensures
            listed(steps) == Self::steps_for(old(self).mode, *state, *command),
            final(self).mode == if steps is Ok && !(*command is DisplayPowerOff) {
                PanelMode::Awake
            } else {
                old(self).mode
            },
    {
        let mut list: Vec<PanelStep> = Vec::new();
        match command {
            DisplayCommand::DisplayPowerOff => {
                list.push(PanelStep::Sleep);
                list.push(PanelStep::CutPower);
                assert(list@ =~= seq![PanelStep::Sleep, PanelStep::CutPower]);
                return Ok(list);
            },
            _ => {
                let blank_first = match command {
                    DisplayCommand::DrawImage(screen_idx) => {
                        if state.get_buffer_for_screen(*screen_idx).is_none() {
                            return Err(Fault::DecodeError);
                        }
                        true
                    },
                    _ => false,
                };
                if blank_first {
                    list.push(PanelStep::ClearCanvas);
                }
                match self.mode {
                    PanelMode::Sleeping => {
                        list.push(PanelStep::WakeUp);
                    },
                    PanelMode::Awake => {},
                }
                list.push(PanelStep::Render);
                list.push(PanelStep::PushFrame);
                list.push(PanelStep::Sleep);
                assert(list@ =~= frame_steps(self.mode, blank_first));
            },
        }
        self.mode = PanelMode::Awake;
        Ok(list)
    }

    /// The event that reports `command` as done.
    pub open spec fn report_of(command: DisplayCommand) -> Option<Events> {
        match command {
            DisplayCommand::ShowStatusText(_, _) => None,
            DisplayCommand::DrawImage(screen_idx) => Some(Events::ScreenDrawn(screen_idx)),
            DisplayCommand::DisplayPowerOff => Some(Events::DisplayOff),
        }
    }

    /// Settles a command whose steps have all been performed: the panel is asleep
    /// again, and a drawn image's screen is marked reclaimable, for which there
    /// has to be room.
    pub fn finish(&mut self, state: &mut ProgramState, command: DisplayCommand) -> (report: Option<Events>)
        requires
            old(state).wf(),
            command matches DisplayCommand::DrawImage(screen_idx) ==> old(state).pool().markable(
                screen_idx,
            ),
        ensures
            final(state).wf(),
            report == Self::report_of(command),
            final(self).mode == PanelMode::Sleeping,
            final(state).config == old(state).config,
            final(state).screen_index == old(state).screen_index,
            final(state).images() == old(state).images(),
            final(state).pool() == match command {
                DisplayCommand::DrawImage(screen_idx) => old(state).pool().forget(screen_idx),
                _ => old(state).pool(),
            },
    {
        self.mode = PanelMode::Sleeping;
        match command {
            DisplayCommand::ShowStatusText(_, _) => None,
            DisplayCommand::DrawImage(screen_idx) => {
                state.forget_screen_idx(screen_idx);
                Some(Events::ScreenDrawn(screen_idx))
            },
            DisplayCommand::DisplayPowerOff => Some(Events::DisplayOff),
        }
    }
}

} // verus!
