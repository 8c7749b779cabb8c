//! The vocabulary of the data feed that the screens are rendered from.

use vstd::prelude::*;

verus! {

/// What kind of point a tide measurement is.
#[derive(Debug, Clone, Copy, PartialEq, Eq)]
pub enum TideType {
    NORMAL,
    HIGH,
    LOW,
}

impl TideType {
    /// Whether the measurement is a turning point of the tide.
    pub fn is_high_low(&self) -> (turning: bool)
        ensures
            turning == (*self is HIGH || *self is LOW),
    {
        match self {
            TideType::HIGH | TideType::LOW => true,
            TideType::NORMAL => false,
        }
    }
}

/// How the wind stands to the shore.
#[derive(Debug, Clone, Copy, PartialEq, Eq, Hash)]
pub enum WindDirectionType {
    Onshore,
    Offshore,
    CrossShore,
}

/// The weather at one measurement. `Unknown` keeps the name of a condition that
/// the feed reports and this list does not have.
#[derive(Debug, Clone, PartialEq, Eq)]
pub enum WeatherCondition {
    NightMostlyCloudy,
    NightCloudy,
    NightClear,
    NightFog,
    MostlyCloudy,
    MostlyClear,
    Mist,
    Clear,
    NightMostlyClear,
    BriefShowers,
    NightBriefShowers,
    NightMist,
    BriefShowersPossible,
    NightDrizzle,
    Drizzle,
    Unknown(String),
}

/// The kinds of screen the feed can render.
#[derive(Debug, Clone, Copy, PartialEq, Eq)]
pub enum ScreenIdentifier {
    SurfReport24h,
    SurfReportWeek,
}

/// What the device can ask the feed for.
#[derive(Debug, Clone, Copy, PartialEq, Eq)]
pub enum DataRetrievalAction {
    SurfReport,
}

/// How far ahead a forecast is asked for, and in what steps.
#[derive(Debug, Clone, Copy, PartialEq, Eq)]
pub struct FetchParams {
    pub days: u32,
    pub interval_hours: u32,
}

impl Default for FetchParams {
    /// Two days, hour by hour.
    fn default() -> (params: Self)
        ensures
            params == (FetchParams { days: 2, interval_hours: 1 }),
    {
        Self { days: 2, interval_hours: 1 }
    }
}

/// An HTTP provider that answers from a canned document instead of the network.
#[derive(Debug, Clone, Copy, Default)]
pub struct FakeHttpClient;

} // verus!
