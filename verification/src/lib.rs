//! The decisions of a battery-powered e-paper display: which screen to show, which
//! image to fetch and keep, when to go to sleep. The hardware and the waiting are
//! left to the program around this library; what is decided is proved here.

pub mod bounded;
pub mod display;
pub mod errors;
pub mod event;
pub mod feed;
pub mod orchestrate;
pub mod pool;
pub mod power;
pub mod random;
pub mod state;
pub mod wifi;
