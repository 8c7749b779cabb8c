//! The network actor's decisions.
//!
//! The actor owns the radio. It takes one command at a time, fetches what the
//! command names, and reports the outcome as an event. The fetching itself is done
//! by whoever runs the actor; what is decided here is when to give up joining, what
//! each command asks for, what a fetched document or image does to the program
//! state, and which event reports it.

use crate::bounded::image_extend;
use crate::errors::Fault;
use crate::event::{Events, WifiCommand};
use crate::state::{Configuration, ProgramState, ScreenConfiguration, SERVER_SIDE_IMAGE_BYTES};
use vstd::prelude::*;
use vstd::string::is_ascii_spec_bytes;

verus! {

/// How long the network may take to come up, in milliseconds.
pub const JOIN_TIMEOUT_MS: u64 = 30000;

/// How long to wait between two looks at the network, in milliseconds.
pub const JOIN_POLL_MS: u64 = 10;

/// What to do while waiting for the network to come up.
#[derive(Debug, Clone, Copy, PartialEq, Eq)]
pub enum JoinStep {
    /// The network is up.
    Connected,
    /// It took too long.
    GiveUp,
    /// Look again after this many milliseconds.
    PollAgainAfter(u64),
}

/// The radio's power mode.
#[derive(Debug, Clone, Copy, PartialEq, Eq)]
pub enum Radio {
    /// The lowest standing power, between commands.
    Standby,
    /// Full power, while a command is handled.
    FullPower,
    /// The session has ended; only a reset brings the radio back.
    Off,
}

/// What a command asks the actor to do.
#[derive(Debug, PartialEq)]
pub enum Errand {
    FetchConfiguration,
    FetchScreen(usize, ScreenConfiguration),
    /// End the radio session, report this event, and stop.
    Leave(Events),
}

pub struct NetworkActor {
    pub radio: Radio,
}

/// One look at the network while joining: give up once the deadline has passed,
/// else go on if the network is up, else look again shortly.
pub fn join_poll(elapsed_ms: u64, network_up: bool) -> (step: JoinStep)
    ensures
        step == if elapsed_ms > JOIN_TIMEOUT_MS {
            JoinStep::GiveUp
        } else if network_up {
            JoinStep::Connected
        } else {
            JoinStep::PollAgainAfter(JOIN_POLL_MS)
        },
{
    if elapsed_ms > JOIN_TIMEOUT_MS {
        JoinStep::GiveUp
    } else if network_up {
        JoinStep::Connected
    } else {
        JoinStep::PollAgainAfter(JOIN_POLL_MS)
    }
}

/// The event that ends the actor's startup: the address if one was assigned, an
/// error if the network came up without one.
pub fn startup_event(address: Option<[u8; 4]>) -> (event: Events)
    ensures
        match address {
            Some(octets) => event == Events::WifiConnected(octets),
            None => event.reports("DHCP error"@),
        },
{
    match address {
        Some(octets) => Events::WifiConnected(octets),
        None => {
            proof {
                reveal_strlit("DHCP error");
                is_ascii_spec_bytes("DHCP error");
            }
            Events::error("DHCP error")
        },
    }
}

impl NetworkActor {
    /// The actor once the network is up: the radio on standby.
    pub fn new() -> (actor: NetworkActor)
        ensures
            actor.radio == Radio::Standby,
    {
        NetworkActor { radio: Radio::Standby }
    }

    /// What `command` asks for when the radio is in the mode `radio`, and the
    /// mode in which the radio handles it.
    pub open spec fn errand_for(radio: Radio, command: WifiCommand) -> (Option<Errand>, Radio) {
        if radio == Radio::Off {
            (None, Radio::Off)
        } else {
            match command {
                WifiCommand::LoadConfiguration => (Some(Errand::FetchConfiguration), Radio::FullPower),
                WifiCommand::LoadScreen(screen_idx, screen_configuration) => (
                    Some(Errand::FetchScreen(screen_idx, screen_configuration)),
                    Radio::FullPower,
                ),
                WifiCommand::PowerOffWifi => (Some(Errand::Leave(Events::WifiOff)), Radio::Off),
            }
        }
    }

    /// Takes up a command. Fetches run at full power; `PowerOffWifi` ends the
    /// session for good, after which no command is taken up any more.
    pub fn begin(&mut self, command: WifiCommand) -> (errand: Option<Errand>)
        ensures
            errand == Self::errand_for(old(self).radio, command).0,
            final(self).radio == Self::errand_for(old(self).radio, command).1,
    {
        match self.radio {
            Radio::Off => None,
            _ => match command {
                WifiCommand::LoadConfiguration => {
                    self.radio = Radio::FullPower;
                    Some(Errand::FetchConfiguration)
                },
                WifiCommand::LoadScreen(screen_idx, screen_configuration) => {
                    self.radio = Radio::FullPower;
                    Some(Errand::FetchScreen(screen_idx, screen_configuration))
                },
                WifiCommand::PowerOffWifi => {
                    self.radio = Radio::Off;
                    Some(Errand::Leave(Events::WifiOff))
                },
            },
        }
    }

    /// The radio's mode once a command has been dealt with: back on standby unless
    /// the session has ended.
    pub open spec fn rested(radio: Radio) -> Radio {
        if radio == Radio::Off {
            Radio::Off
        } else {
            Radio::Standby
        }
    }

    fn rest(&mut self)
        ensures
            final(self).radio == Self::rested(old(self).radio),
    {
        match self.radio {
            Radio::Off => {},
            _ => {
                self.radio = Radio::Standby;
            },
        }
    }

    /// Ends `FetchConfiguration`. A fetched document replaces the configuration as
    /// a whole and is reported by `ConfigurationLoaded`; a failed fetch leaves the
    /// configuration as it was and is reported by an error.
    pub fn configuration_fetched(&mut self, state: &mut ProgramState, fetched: Option<Configuration>) -> (event: Events)
        ensures
            final(self).radio == Self::rested(old(self).radio),
            final(state).screen_index == old(state).screen_index,
            final(state).store == old(state).store,
            match fetched {
                Some(configuration) => event == Events::ConfigurationLoaded && final(state).config
                    == Some(configuration),
                None => event.reports(Fault::ConfigurationFetchError.text()) && final(state).config
                    == old(state).config,
            },
    {
        self.rest();
        match fetched {
            Some(configuration) => {
                state.config = Some(configuration);
                Events::ConfigurationLoaded
            },
            None => Fault::ConfigurationFetchError.event(),
        }
    }

    /// Ends `FetchScreen` for `screen_idx`. The screen is given a buffer, which may
    /// evict a reclaimable one; without a buffer to give, every image stays as it
    /// is and the fault is `AllocationExhausted`. A fetched image that fits is
    /// stored and reported by `ScreenLoaded`. After a failed fetch the screen keeps
    /// its buffer, empty, and an error is reported. An image too large for the
    /// buffer leaves it empty as well and is the fault `DecodeError`.
    pub fn screen_fetched(
        &mut self,
        state: &mut ProgramState,
        screen_idx: usize,
        fetched: Option<&[u8]>,
    ) -> (outcome: Result<Events, Fault>)
        requires
            old(state).wf(),
        ensures
            final(state).wf(),
            final(self).radio == Self::rested(old(self).radio),
            final(state).config == old(state).config,
            final(state).screen_index == old(state).screen_index,
            final(state).pool() == old(state).pool().allocate(screen_idx).0,
            forall|other: usize|
                other != screen_idx && old(state).live(other) ==> #[trigger] final(state).image_of(
                    other,
                ) == old(state).image_of(other),
            outcome is Ok ==> final(state).image_of(screen_idx) == match fetched {
                Some(body) => Some(body@),
                None => Some(Seq::<u8>::empty()),
            },
            match old(state).pool().allocate(screen_idx).1 {
                None => {
                    &&& outcome is Err
                    &&& outcome->Err_0 == Fault::AllocationExhausted
                    &&& final(state).images() == old(state).images()
                },
                Some(slot) => match fetched {
                    Some(body) => if body@.len() <= SERVER_SIDE_IMAGE_BYTES {
                        &&& outcome is Ok
                        &&& outcome->Ok_0 == Events::ScreenLoaded(screen_idx)
                        &&& final(state).images() == old(state).images().update(slot as int, body@)
                    } else {
                        &&& outcome is Err
                        &&& outcome->Err_0 == Fault::DecodeError
                        &&& final(state).images() == old(state).images().update(
                            slot as int,
                            Seq::<u8>::empty(),
                        )
                    },
                    None => {
                        &&& outcome is Ok
                        &&& outcome->Ok_0.reports(Fault::ScreenFetchError.text())
                        &&& final(state).images() == old(state).images().update(
                            slot as int,
                            Seq::<u8>::empty(),
                        )
                    },
                },
            },
    {
        self.rest();
        let buffer = match state.get_mut_buffer_for_screen(screen_idx) {
            Some(buffer) => buffer,
            None => {
                return Err(Fault::AllocationExhausted);
            },
        };
        match fetched {
            Some(body) => {
                if image_extend(buffer, body).is_ok() {
                    Ok(Events::ScreenLoaded(screen_idx))
                } else {
                    Err(Fault::DecodeError)
                }
            },
            None => Ok(Fault::ScreenFetchError.event()),
        }
    }
}

} // verus!
