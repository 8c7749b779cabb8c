//! The orchestrator: one event in, the commands it calls for out.
//!
//! The orchestrator owns no hardware. It reads the program state, decides, and
//! hands back the list of things to do; whoever runs it sends the commands to the
//! actors' queues and waits for the next event or for the inactivity window to
//! pass.

use crate::event::{DisplayCommand, Events, WifiCommand};
use crate::bounded::screen_list_get;
use crate::state::{ProgramState, ScreenConfiguration, SCREEN_SAVER_SCREEN_IDX};
use vstd::prelude::*;

verus! {

/// Where the device is in its life between two resets.
#[derive(Debug, Clone, Copy, PartialEq, Eq)]
pub enum Phase {
    /// Waiting for the network and the configuration.
    Startup,
    /// Showing screens and answering the button.
    Active,
    /// On the way to sleep: the screensaver, then radio off, display off, power down.
    ShuttingDown,
}

/// What follows the status text when an `Error` event arrives.
#[derive(Debug, Clone, Copy, PartialEq, Eq)]
pub enum ErrorPolicy {
    /// Show the message and carry on.
    DisplayOnly,
    /// Show the message, wait this many seconds for the panel to update, then
    /// power the radio off, which begins the descent to sleep.
    PowerOffAfter(u64),
}

#[derive(Debug, Clone, Copy, PartialEq, Eq)]
pub struct Settings {
    /// Seconds without an event after which the screensaver is loaded.
    pub awake_timeout_secs: u64,
    /// The window that applies once the screensaver has been drawn.
    pub parked_timeout_secs: u64,
    pub error_policy: ErrorPolicy,
}

/// The line on which status texts are shown.
pub const STATUS_LINE: i32 = 1;

/// One thing for the caller to do on the orchestrator's behalf.
#[derive(Debug, PartialEq)]
pub enum Action {
    /// Queue a command for the network actor.
    Network(WifiCommand),
    /// Queue a command for the display actor.
    Display(DisplayCommand),
    /// Put an event on the bus.
    Emit(Events),
    /// Do nothing for this many seconds.
    Pause(u64),
    /// Raise the power actor's power-down signal.
    PowerDown,
}

pub struct Orchestrator {
    pub phase: Phase,
    /// How long to wait for the next event before `OrchestratorTimeout` is due.
    pub timeout_secs: u64,
    pub settings: Settings,
}

/// The command that fetches the image of `screen_idx`, if the configuration has a
/// descriptor for it.
pub open spec fn fetch_of(state: ProgramState, screen_idx: usize) -> Seq<Action> {
    match state.config {
        Some(config) => if screen_idx < config.screen_seq().len() {
            seq![
                Action::Network(
                    WifiCommand::LoadScreen(screen_idx, config.screen_seq()[screen_idx as int]),
                ),
            ]
        } else {
            seq![]
        },
        None => seq![],
    }
}

/// Bringing the current screen to the panel: straight from its buffer if it has
/// one, else by fetching it.
pub open spec fn show_current(state: ProgramState) -> Seq<Action> {
    if state.image_of(state.screen_index) is Some {
        seq![Action::Emit(Events::ScreenLoaded(state.screen_index))]
    } else {
        fetch_of(state, state.screen_index)
    }
}

/// Fetching the next screen ahead of time, if there is another screen and its
/// image is not in memory yet.
pub open spec fn look_ahead(state: ProgramState) -> Seq<Action> {
    match state.next_index() {
        Some(next) => if next != state.screen_index && state.image_of(next) is None {
            fetch_of(state, next)
        } else {
            seq![]
        },
        None => seq![],
    }
}

/// The first step of the descent to sleep: fetching the screensaver if one is
/// configured, else powering the radio off straight away.
pub open spec fn begin_shutdown(state: ProgramState) -> Seq<Action> {
    match state.config {
        Some(config) => match config.screen_saver {
            Some(saver) => seq![
                Action::Network(WifiCommand::LoadScreen(SCREEN_SAVER_SCREEN_IDX, saver)),
            ],
            None => seq![Action::Network(WifiCommand::PowerOffWifi)],
        },
        None => seq![Action::Network(WifiCommand::PowerOffWifi)],
    }
}

/// What an `Error` event with the text `message` calls for under `policy`.
pub open spec fn error_response(policy: ErrorPolicy, message: heapless::String<30>) -> Seq<Action> {
    match policy {
        ErrorPolicy::DisplayOnly => seq![
            Action::Display(DisplayCommand::ShowStatusText(message, STATUS_LINE)),
        ],
        ErrorPolicy::PowerOffAfter(grace) => seq![
            Action::Display(DisplayCommand::ShowStatusText(message, STATUS_LINE)),
            Action::Pause(grace),
            Action::Network(WifiCommand::PowerOffWifi),
        ],
    }
}

/// The event that is due when the wait for the next event has ended: the event
/// that arrived, or the timeout if the inactivity window passed first.
pub open spec fn due(received: Option<Events>) -> Events {
    match received {
        Some(event) => event,
        None => Events::OrchestratorTimeout,
    }
}

/// The image of a screen that is no longer the one on display is not drawn when
/// it arrives, and its arrival changes neither the phase nor the screen on display.
pub proof fn lemma_stale_load_is_dropped(orchestrator: Orchestrator, state: ProgramState, screen_idx: usize)
    requires
        screen_idx != state.screen_index,
    ensures
        orchestrator.reaction(state, Events::ScreenLoaded(screen_idx)) == Seq::<Action>::empty(),
        orchestrator.phase_after(state, Events::ScreenLoaded(screen_idx)) == orchestrator.phase,
        orchestrator.screen_after_event(state, Events::ScreenLoaded(screen_idx)) == state.screen_index,
{
}

/// A screen whose image is in memory is shown without a fetch: unless the device
/// is shutting down, `ConfigurationLoaded` reports the current screen as loaded
/// first of all, asks the network for no image of that screen, and sends the
/// display nothing.
pub proof fn lemma_resident_screen_needs_no_fetch(orchestrator: Orchestrator, state: ProgramState)
    requires
        orchestrator.phase != Phase::ShuttingDown,
        state.image_of(state.screen_index) is Some,
    ensures
        orchestrator.reaction(state, Events::ConfigurationLoaded).len() >= 1,
        orchestrator.reaction(state, Events::ConfigurationLoaded)[0] == Action::Emit(
            Events::ScreenLoaded(state.screen_index),
        ),
        forall|i: int|
            0 <= i < orchestrator.reaction(state, Events::ConfigurationLoaded).len() ==> match (
            #[trigger] orchestrator.reaction(state, Events::ConfigurationLoaded)[i]) {
                Action::Network(WifiCommand::LoadScreen(screen_idx, _)) => screen_idx
                    != state.screen_index,
                Action::Network(_) => false,
                Action::Display(_) => false,
                Action::Emit(_) => i == 0,
                Action::Pause(_) => false,
                Action::PowerDown => false,
            },
{
    let actions = orchestrator.reaction(state, Events::ConfigurationLoaded);
    assert(show_current(state).len() == 1);
    assert(actions[0] == show_current(state)[0]);
    assert forall|i: int| 1 <= i < actions.len() implies actions[i] == look_ahead(state)[i - 1] by {}
}

/// The descent to sleep keeps its order: the display is powered off only once the
/// radio has reported itself off, and the power-down signal is raised only once
/// the display has reported itself off.
pub proof fn lemma_shutdown_keeps_its_order(orchestrator: Orchestrator, state: ProgramState, event: Events)
    ensures
        orchestrator.reaction(state, event).contains(Action::Display(DisplayCommand::DisplayPowerOff))
            <==> event is WifiOff,
        orchestrator.reaction(state, event).contains(Action::PowerDown) <==> event is DisplayOff,
{
    let actions = orchestrator.reaction(state, event);
    let display_off = Action::Display(DisplayCommand::DisplayPowerOff);
    match event {
        Events::WifiOff => {
            assert(actions[0] == display_off);
        },
        Events::DisplayOff => {
            assert(actions[0] == Action::PowerDown);
        },
        Events::ConfigurationLoaded => {
            assert forall|i: int| 0 <= i < actions.len() implies actions[i] != display_off
                && actions[i] != Action::PowerDown by {
                if i < show_current(state).len() {
                    assert(actions[i] == show_current(state)[i]);
                } else {
                    assert(actions[i] == look_ahead(state)[i - show_current(state).len()]);
                }
            }
        },
        _ => {},
    }
}

impl Settings {
    /// Two minutes awake, two hours parked, and the radio goes off twenty seconds
    /// after an error has been shown.
    pub fn standard() -> (settings: Settings)
        ensures
            settings == (Settings {
                awake_timeout_secs: 120,
                parked_timeout_secs: 7200,
                error_policy: ErrorPolicy::PowerOffAfter(20),
            }),
    {
        Settings {
            awake_timeout_secs: 120,
            parked_timeout_secs: 7200,
            error_policy: ErrorPolicy::PowerOffAfter(20),
        }
    }
}

impl Orchestrator {
    /// An orchestrator at boot: starting up, with the awake window running.
    pub fn new(settings: Settings) -> (orchestrator: Orchestrator)
        ensures
            orchestrator.phase == Phase::Startup,
            orchestrator.timeout_secs == settings.awake_timeout_secs,
            orchestrator.settings == settings,
    {
        Orchestrator { phase: Phase::Startup, timeout_secs: settings.awake_timeout_secs, settings }
    }

    /// The actions that `event` calls for, given the phase and the program state
    /// in which it arrives.
    pub open spec fn reaction(self, state: ProgramState, event: Events) -> Seq<Action> {
        match event {
            Events::WifiConnected(_) => seq![Action::Network(WifiCommand::LoadConfiguration)],
            Events::Error(message) => error_response(self.settings.error_policy, message),
            Events::ConfigurationLoaded => if self.phase == Phase::ShuttingDown {
                seq![]
            } else {
                show_current(state) + look_ahead(state)
            },
            Events::ScreenLoaded(screen_idx) => if screen_idx == state.screen_index {
                seq![Action::Display(DisplayCommand::DrawImage(screen_idx))]
            } else {
                seq![]
            },
            Events::ScreenDrawn(screen_idx) => if screen_idx == SCREEN_SAVER_SCREEN_IDX {
                seq![Action::Network(WifiCommand::PowerOffWifi)]
            } else {
                seq![]
            },
            Events::PowerButtonPressed => if self.phase == Phase::ShuttingDown {
                seq![]
            } else {
                seq![Action::Emit(Events::ConfigurationLoaded)]
            },
            Events::OrchestratorTimeout => begin_shutdown(state),
            Events::WifiOff => seq![Action::Display(DisplayCommand::DisplayPowerOff)],
            Events::DisplayOff => seq![Action::PowerDown],
        }
    }

    /// The phase after `event`.
    pub open spec fn phase_after(self, state: ProgramState, event: Events) -> Phase {
        match event {
            Events::ConfigurationLoaded => if self.phase == Phase::Startup && state.config is Some {
                Phase::Active
            } else {
                self.phase
            },
            Events::Error(_) => if self.settings.error_policy is PowerOffAfter {
                Phase::ShuttingDown
            } else {
                self.phase
            },
            Events::ScreenDrawn(screen_idx) => if screen_idx == SCREEN_SAVER_SCREEN_IDX {
                Phase::ShuttingDown
            } else {
                self.phase
            },
            Events::OrchestratorTimeout | Events::WifiOff | Events::DisplayOff => Phase::ShuttingDown,
            Events::WifiConnected(_) | Events::ScreenLoaded(_) | Events::PowerButtonPressed => self.phase,
        }
    }

    /// The screen on display after `event`.
    pub open spec fn screen_after_event(self, state: ProgramState, event: Events) -> usize {
        match event {
            Events::OrchestratorTimeout => SCREEN_SAVER_SCREEN_IDX,
            Events::PowerButtonPressed => if self.phase == Phase::ShuttingDown {
                state.screen_index
            } else {
                match state.next_index() {
                    Some(next) => next,
                    None => 0,
                }
            },
            _ => state.screen_index,
        }
    }

    /// The inactivity window after `event`: every event but the timeout itself
    /// restarts the awake window, and the screensaver's drawing opens the parked one.
    pub open spec fn window_after(self, event: Events) -> u64 {
        match event {
            Events::OrchestratorTimeout => self.timeout_secs,
            Events::ScreenDrawn(screen_idx) => if screen_idx == SCREEN_SAVER_SCREEN_IDX {
                self.settings.parked_timeout_secs
            } else {
                self.settings.awake_timeout_secs
            },
            _ => self.settings.awake_timeout_secs,
        }
    }

    /// One turn of the orchestrator's loop: deals with the event that arrived, or
    /// with the timeout if none arrived within `timeout_secs`.
    pub fn on_wake(&mut self, state: &mut ProgramState, received: Option<Events>) -> (actions: Vec<Action>)
        requires
            old(state).wf(),
        ensures
            actions@ == old(self).reaction(*old(state), due(received)),
            final(self).phase == old(self).phase_after(*old(state), due(received)),
            final(self).timeout_secs == old(self).window_after(due(received)),
            final(self).settings == old(self).settings,
            final(state).screen_index == old(self).screen_after_event(*old(state), due(received)),
            final(state).config == old(state).config,
            final(state).store == old(state).store,
    {
        match received {
            Some(event) => self.process_event(state, event),
            None => self.process_event(state, Events::OrchestratorTimeout),
        }
    }

    fn fetch_command(state: &ProgramState, screen_idx: usize, actions: &mut Vec<Action>)
        ensures
            final(actions)@ == old(actions)@ + fetch_of(*state, screen_idx),
    {
        if let Some(config) = &state.config {
            if let Some(screen_config) = screen_list_get(&config.screens, screen_idx) {
                actions.push(Action::Network(WifiCommand::LoadScreen(screen_idx, screen_config.clone())));
            }
        }
        assert(final(actions)@ =~= old(actions)@ + fetch_of(*state, screen_idx));
    }

    pub fn process_event(&mut self, state: &mut ProgramState, event: Events) -> (actions: Vec<Action>)
        requires
            old(state).wf(),
        ensures
            actions@ == old(self).reaction(*old(state), event),
            final(self).phase == old(self).phase_after(*old(state), event),
            final(self).timeout_secs == old(self).window_after(event),
            final(self).settings == old(self).settings,
            final(state).screen_index == old(self).screen_after_event(*old(state), event),
            final(state).config == old(state).config,
            final(state).store == old(state).store,
    {
        let mut actions: Vec<Action> = Vec::new();
        match event {
            Events::OrchestratorTimeout => {
                state.screen_index = SCREEN_SAVER_SCREEN_IDX;
                self.phase = Phase::ShuttingDown;
                let mut saver: Option<ScreenConfiguration> = None;
                if let Some(config) = &state.config {
                    if let Some(screen_saver) = &config.screen_saver {
                        saver = Some(screen_saver.clone());
                    }
                }
                match saver {
                    Some(screen_saver) => {
                        actions.push(
                            Action::Network(WifiCommand::LoadScreen(SCREEN_SAVER_SCREEN_IDX, screen_saver)),
                        );
                    },
                    None => {
                        actions.push(Action::Network(WifiCommand::PowerOffWifi));
                    },
                }
                assert(actions@ =~= begin_shutdown(*old(state)));
            },
            Events::ScreenDrawn(screen_idx) => {
                self.timeout_secs = self.settings.awake_timeout_secs;
                if screen_idx == SCREEN_SAVER_SCREEN_IDX {
                    self.timeout_secs = self.settings.parked_timeout_secs;
                    self.phase = Phase::ShuttingDown;
                    actions.push(Action::Network(WifiCommand::PowerOffWifi));
                }
                assert(actions@ =~= old(self).reaction(*old(state), event));
            },
            Events::WifiOff => {
                self.timeout_secs = self.settings.awake_timeout_secs;
                self.phase = Phase::ShuttingDown;
                actions.push(Action::Display(DisplayCommand::DisplayPowerOff));
                assert(actions@ =~= old(self).reaction(*old(state), event));
            },
            Events::DisplayOff => {
                self.timeout_secs = self.settings.awake_timeout_secs;
                self.phase = Phase::ShuttingDown;
                actions.push(Action::PowerDown);
                assert(actions@ =~= old(self).reaction(*old(state), event));
            },
            Events::WifiConnected(_addr) => {
                self.timeout_secs = self.settings.awake_timeout_secs;
                actions.push(Action::Network(WifiCommand::LoadConfiguration));
                assert(actions@ =~= old(self).reaction(*old(state), event));
            },
            Events::ConfigurationLoaded => {
                self.timeout_secs = self.settings.awake_timeout_secs;
                match self.phase {
                    Phase::ShuttingDown => {},
                    _ => {
                        let screen_index = state.screen_index;
                        if state.get_buffer_for_screen(screen_index).is_some() {
                            actions.push(Action::Emit(Events::ScreenLoaded(screen_index)));
                        } else {
                            Self::fetch_command(state, screen_index, &mut actions);
                        }
                        assert(actions@ =~= show_current(*state));
                        if let Some(next_screen_index) = state.next_screen_idx() {
                            if next_screen_index != screen_index && state.get_buffer_for_screen(
                                next_screen_index,
                            ).is_none() {
                                Self::fetch_command(state, next_screen_index, &mut actions);
                            }
                        }
                        assert(actions@ =~= show_current(*state) + look_ahead(*state));
                        if state.config.is_some() {
                            match self.phase {
                                Phase::Startup => {
                                    self.phase = Phase::Active;
                                },
                                _ => {},
                            }
                        }
                    },
                }
            },
            Events::Error(msg) => {
                self.timeout_secs = self.settings.awake_timeout_secs;
                actions.push(Action::Display(DisplayCommand::ShowStatusText(msg, STATUS_LINE)));
                match self.settings.error_policy {
                    ErrorPolicy::DisplayOnly => {},
                    ErrorPolicy::PowerOffAfter(grace) => {
                        actions.push(Action::Pause(grace));
                        actions.push(Action::Network(WifiCommand::PowerOffWifi));
                        self.phase = Phase::ShuttingDown;
                    },
                }
                assert(actions@ =~= error_response(self.settings.error_policy, msg));
            },
            Events::ScreenLoaded(screen_idx) => {
                self.timeout_secs = self.settings.awake_timeout_secs;
                if state.screen_index == screen_idx {
                    actions.push(Action::Display(DisplayCommand::DrawImage(screen_idx)));
                }
                assert(actions@ =~= old(self).reaction(*old(state), event));
            },
            Events::PowerButtonPressed => {
                self.timeout_secs = self.settings.awake_timeout_secs;
                match self.phase {
                    Phase::ShuttingDown => {},
                    _ => {
                        state.move_to_next_screen();
                        actions.push(Action::Emit(Events::ConfigurationLoaded));
                    },
                }
                assert(actions@ =~= old(self).reaction(*old(state), event));
            },
        }
        actions
    }
}

} // verus!
