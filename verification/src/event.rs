//! What the actors tell the orchestrator, and what it tells them.

use crate::bounded::{status_chars, status_text_from};
use crate::state::ScreenConfiguration;
use vstd::prelude::*;
use vstd::string::StringSliceAdditionalSpecFns;

verus! {

/// How many events the bus holds before a sender has to wait.
pub const EVENT_QUEUE_DEPTH: usize = 5;

/// How many commands an actor's queue holds before the orchestrator has to wait.
pub const COMMAND_QUEUE_DEPTH: usize = 4;

/// The longest status text, in bytes.
pub const STATUS_TEXT_BYTES: usize = 30;

/// System-wide events. Any actor sends them; only the orchestrator receives them,
/// oldest first.
#[derive(Debug, Clone, PartialEq)]
pub enum Events {
    /// The network is up; the four octets are the address the device was given.
    WifiConnected([u8; 4]),
    Error(heapless::String<30>),
    WifiOff,
    DisplayOff,
    ConfigurationLoaded,
    ScreenDrawn(usize),
    ScreenLoaded(usize),
    OrchestratorTimeout,
    PowerButtonPressed,
}

/// Commands to the network actor.
#[derive(Debug, Clone, PartialEq)]
pub enum WifiCommand {
    LoadConfiguration,
    LoadScreen(usize, ScreenConfiguration),
    PowerOffWifi,
}

/// Commands to the display actor.
#[derive(Debug, PartialEq)]
pub enum DisplayCommand {
    ShowStatusText(heapless::String<30>, i32),
    DrawImage(usize),
    DisplayPowerOff,
}

impl Events {
    /// Whether this is an `Error` event whose text reads `message`.
    pub open spec fn reports(&self, message: Seq<char>) -> bool {
        *self matches Events::Error(text) && status_chars(text) == message
    }

    /// The `Error` event that carries `message`.
    pub fn error(message: &str) -> (event: Events)
        requires
            message.spec_bytes().len() <= STATUS_TEXT_BYTES,
        ensures
            event.reports(message@),
    {
        match status_text_from(message) {
            Ok(text) => Events::Error(text),
            Err(_) => unreached(),
        }
    }
}

} // verus!
