//! The power actor's decisions.
//!
//! The actor waits for whichever comes first: the button, or the power-down
//! signal. The button is reported and debounced. The signal starts the descent
//! into dormant sleep, whose steps have one order; the device leaves that sleep
//! only by the button, and then always through a full reset.

use crate::event::Events;
use vstd::prelude::*;

verus! {

/// How long the button is ignored after a press, in seconds.
pub const DEBOUNCE_SECS: u64 = 1;

/// What ended the actor's wait.
#[derive(Debug, Clone, Copy, PartialEq, Eq)]
pub enum PowerWake {
    /// A falling edge on the button.
    ButtonPressed,
    /// The power-down signal was raised.
    PowerDownRaised,
}

/// Which changes on the button's pin end the dormant sleep.
#[derive(Debug, Clone, Copy, PartialEq, Eq)]
pub struct WakeConfig {
    pub edge_high: bool,
    pub edge_low: bool,
    pub level_high: bool,
    pub level_low: bool,
}

#[derive(Debug, PartialEq)]
pub enum PowerStep {
    /// Put an event on the bus.
    Emit(Events),
    /// Do nothing for this many seconds.
    Pause(u64),
    /// Switch the status light off.
    StatusLedOff,
    /// Take no further interrupts.
    DisableInterrupts,
    /// Cut the radio's power rail.
    CutRadioPower,
    /// Make the button the wake source of the dormant sleep.
    ArmWake(WakeConfig),
    /// Enter the lowest-power sleep; this step ends when the wake source fires.
    DormantSleep,
    /// Force a full reset through the watchdog.
    WatchdogReset,
}

pub struct PowerActor {
    /// Whether the power-down signal has been raised since the last reset.
    pub power_down_raised: bool,
}

/// The button wakes the device when it is pressed, which pulls its pin low.
pub open spec fn button_wake() -> WakeConfig {
    WakeConfig { edge_high: false, edge_low: true, level_high: false, level_low: false }
}

/// The descent into dormant sleep, in order. The radio's rail is cut here because
/// the network actor has left by now; the reset comes after the sleep, so nothing
/// survives it.
pub open spec fn descent() -> Seq<PowerStep> {
    seq![
        PowerStep::StatusLedOff,
        PowerStep::DisableInterrupts,
        PowerStep::CutRadioPower,
        PowerStep::ArmWake(button_wake()),
        PowerStep::DormantSleep,
        PowerStep::WatchdogReset,
    ]
}

impl PowerActor {
    pub fn new() -> (actor: PowerActor)
        ensures
            !actor.power_down_raised,
    {
        PowerActor { power_down_raised: false }
    }

    /// Raises the power-down signal. It can be raised once between two resets:
    /// the result says whether this call raised it.
    pub fn raise_power_down(&mut self) -> (raised: bool)
        ensures
            raised == !old(self).power_down_raised,
            final(self).power_down_raised,
    {
        let raised = !self.power_down_raised;
        self.power_down_raised = true;
        raised
    }

    /// What to do after the wait has ended with `wake`.
    pub open spec fn steps_for(wake: PowerWake) -> Seq<PowerStep> {
        match wake {
            PowerWake::ButtonPressed => seq![
                PowerStep::Emit(Events::PowerButtonPressed),
                PowerStep::Pause(DEBOUNCE_SECS),
            ],
            PowerWake::PowerDownRaised => descent(),
        }
    }

    pub fn on_wake(&self, wake: PowerWake) -> (steps: Vec<PowerStep>)
        ensures
            steps@ == Self::steps_for(wake),
    {
        let mut steps: Vec<PowerStep> = Vec::new();
        match wake {
            PowerWake::ButtonPressed => {
                steps.push(PowerStep::Emit(Events::PowerButtonPressed));
                steps.push(PowerStep::Pause(DEBOUNCE_SECS));
            },
            PowerWake::PowerDownRaised => {
                steps.push(PowerStep::StatusLedOff);
                steps.push(PowerStep::DisableInterrupts);
                steps.push(PowerStep::CutRadioPower);
                steps.push(
                    PowerStep::ArmWake(
                        WakeConfig { edge_high: false, edge_low: true, level_high: false, level_low: false },
                    ),
                );
                steps.push(PowerStep::DormantSleep);
                steps.push(PowerStep::WatchdogReset);
            },
        }
        assert(steps@ =~= Self::steps_for(wake));
        steps
    }
}

} // verus!
