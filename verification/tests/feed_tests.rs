use surfboard::feed::{
    DataRetrievalAction, FakeHttpClient, FetchParams, ScreenIdentifier, TideType, WeatherCondition,
    WindDirectionType,
};
use surfboard::random::{first_byte, join_halves, u32_pair_to_u64, RngWrapper, DRAWN};

#[test]
fn high_and_low_are_turning_points() {
    assert!(TideType::HIGH.is_high_low());
    assert!(TideType::LOW.is_high_low());
    assert!(!TideType::NORMAL.is_high_low());
}

#[test]
fn fetch_params_default_to_two_days_hourly() {
    let params = FetchParams::default();
    assert_eq!(params, FetchParams { days: 2, interval_hours: 1 });
}

#[test]
fn feed_vocabulary() {
    assert_ne!(WindDirectionType::Onshore, WindDirectionType::Offshore);
    assert_ne!(WindDirectionType::Offshore, WindDirectionType::CrossShore);
    assert_ne!(ScreenIdentifier::SurfReport24h, ScreenIdentifier::SurfReportWeek);
    assert_eq!(DataRetrievalAction::SurfReport, DataRetrievalAction::SurfReport);
    assert_eq!(
        WeatherCondition::Unknown("HAIL".to_string()),
        WeatherCondition::Unknown("HAIL".to_string())
    );
    assert_ne!(WeatherCondition::Clear, WeatherCondition::NightClear);
    let _client = FakeHttpClient::default();
}

#[test]
fn halves_are_joined_by_byte_order() {
    assert_eq!(join_halves(0, 0, true), 0);
    assert_eq!(join_halves(1, 0, true), 1);
    assert_eq!(join_halves(0, 1, true), 0x1_0000_0000);
    assert_eq!(join_halves(1, 0, false), 0x1_0000_0000);
    assert_eq!(join_halves(0xdead_beef, 0x0123_4567, true), 0x0123_4567_dead_beef);
    assert_eq!(join_halves(0xdead_beef, 0x0123_4567, false), 0xdead_beef_0123_4567);
    assert_eq!(join_halves(u32::MAX, u32::MAX, true), u64::MAX);
    assert_eq!(join_halves(u32::MAX, u32::MAX, false), u64::MAX);
}

#[test]
fn the_first_byte_by_byte_order() {
    assert_eq!(first_byte(1337, true), 0x39);
    assert_eq!(first_byte(1337, false), 0x00);
    assert_eq!(first_byte(0xa1b2_c3d4, true), 0xd4);
    assert_eq!(first_byte(0xa1b2_c3d4, false), 0xa1);
}

#[test]
fn a_pair_is_joined_as_the_machine_stores_it() {
    let first: u32 = 0x0a0b_0c0d;
    let second: u32 = 0x0102_0304;
    let [a, b, c, d] = first.to_ne_bytes();
    let [e, f, g, h] = second.to_ne_bytes();
    assert_eq!(u32_pair_to_u64(first, second), u64::from_ne_bytes([a, b, c, d, e, f, g, h]));
    assert_eq!(u32_pair_to_u64(0, 0), 0);
    assert_eq!(u32_pair_to_u64(u32::MAX, u32::MAX), u64::MAX);
}

#[test]
fn every_draw_is_the_same() {
    let mut rng = RngWrapper::new();
    assert_eq!(DRAWN, 1337);
    assert_eq!(rng.next_u32(), 1337);
    assert_eq!(rng.next_u32(), 1337);
    assert_eq!(rng.next_u64(), 1337 + (1337u64 << 32));
}

#[test]
fn bytes_are_filled_with_the_first_byte_of_the_draw() {
    let mut rng = RngWrapper::new();
    let mut dest = [0xaau8; 7];
    rng.fill_bytes(&mut dest);
    assert_eq!(dest, [1337u32.to_ne_bytes()[0]; 7]);
    let mut none: [u8; 0] = [];
    rng.fill_bytes(&mut none);
}
