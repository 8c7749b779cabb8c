//! What can go wrong, and how it is put before the user.

use crate::event::Events;
use vstd::prelude::*;
use vstd::string::is_ascii_spec_bytes;

verus! {

#[derive(Debug, Clone, Copy, PartialEq, Eq)]
pub enum Fault {
    /// The configuration document could not be fetched or read.
    ConfigurationFetchError,
    /// The image of a screen could not be fetched.
    ScreenFetchError,
    /// What was fetched is too large to be an image, what a buffer holds is not an
    /// image, or the screen has no buffer.
    DecodeError,
    /// No buffer is free and none may be reclaimed.
    AllocationExhausted,
    /// The panel did not take a command or a frame.
    PanelIOError,
    /// The network did not come up in time.
    RadioJoinTimeout,
}

impl Fault {
    /// The status text for this fault.
    pub open spec fn text(self) -> Seq<char> {
        match self {
            Fault::ConfigurationFetchError => "Failed to load config"@,
            Fault::ScreenFetchError => "Failed to fetch screen"@,
            Fault::DecodeError => "Failed to parse image"@,
            Fault::AllocationExhausted => "No free screen buffer"@,
            Fault::PanelIOError => "Failed to draw on screen"@,
            Fault::RadioJoinTimeout => "Couldn't get network up"@,
        }
    }

    /// Whether only a reset recovers from this fault. The others are shown to the
    /// user and the device carries on towards its next sleep.
    pub open spec fn fatal(self) -> bool {
        self is DecodeError || self is AllocationExhausted || self is PanelIOError
    }

    pub fn is_fatal(&self) -> (fatal: bool)
        ensures
            fatal == self.fatal(),
    {
        match self {
            Fault::DecodeError | Fault::AllocationExhausted | Fault::PanelIOError => true,
            _ => false,
        }
    }

    /// The `Error` event that reports this fault.
    pub fn event(&self) -> (event: Events)
        ensures
            event.reports(self.text()),
    {
        match self {
            Fault::ConfigurationFetchError => {
                proof {
                    reveal_strlit("Failed to load config");
                    is_ascii_spec_bytes("Failed to load config");
                }
                Events::error("Failed to load config")
            },
            Fault::ScreenFetchError => {
                proof {
                    reveal_strlit("Failed to fetch screen");
                    is_ascii_spec_bytes("Failed to fetch screen");
                }
                Events::error("Failed to fetch screen")
            },
            Fault::DecodeError => {
                proof {
                    reveal_strlit("Failed to parse image");
                    is_ascii_spec_bytes("Failed to parse image");
                }
                Events::error("Failed to parse image")
            },
            Fault::AllocationExhausted => {
                proof {
                    reveal_strlit("No free screen buffer");
                    is_ascii_spec_bytes("No free screen buffer");
                }
                Events::error("No free screen buffer")
            },
            Fault::PanelIOError => {
                proof {
                    reveal_strlit("Failed to draw on screen");
                    is_ascii_spec_bytes("Failed to draw on screen");
                }
                Events::error("Failed to draw on screen")
            },
            Fault::RadioJoinTimeout => {
                proof {
                    reveal_strlit("Couldn't get network up");
                    is_ascii_spec_bytes("Couldn't get network up");
                }
                Events::error("Couldn't get network up")
            },
        }
    }
}

} // verus!
