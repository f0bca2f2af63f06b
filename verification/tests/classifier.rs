//! The condition-code classifier over every documented sub-range, its
//! boundaries and the gaps, and the icon names of the code enumeration.

use weather_station::weather::{classify, ConditionCode, IconId};

#[test]
fn classify_storm_range() {
    assert_eq!(classify(200), Some(IconId::Storm));
    assert_eq!(classify(211), Some(IconId::Storm));
    assert_eq!(classify(232), Some(IconId::Storm));
}

#[test]
fn classify_rainy_range() {
    assert_eq!(classify(300), Some(IconId::Rainy));
    assert_eq!(classify(311), Some(IconId::Rainy));
    assert_eq!(classify(321), Some(IconId::Rainy));
}

#[test]
fn classify_rainy_heavy_ranges() {
    assert_eq!(classify(500), Some(IconId::RainyHeavy));
    assert_eq!(classify(503), Some(IconId::RainyHeavy));
    assert_eq!(classify(520), Some(IconId::RainyHeavy));
    assert_eq!(classify(531), Some(IconId::RainyHeavy));
}

#[test]
fn classify_weather_mix() {
    assert_eq!(classify(511), Some(IconId::WeatherMix));
}

#[test]
fn classify_snowing_range() {
    assert_eq!(classify(600), Some(IconId::Snowing));
    assert_eq!(classify(616), Some(IconId::Snowing));
    assert_eq!(classify(622), Some(IconId::Snowing));
}

#[test]
fn classify_foggy_range() {
    assert_eq!(classify(701), Some(IconId::Foggy));
    assert_eq!(classify(741), Some(IconId::Foggy));
    assert_eq!(classify(771), Some(IconId::Foggy));
}

#[test]
fn classify_singletons() {
    assert_eq!(classify(781), Some(IconId::Cyclone));
    assert_eq!(classify(800), Some(IconId::Sunny));
}

#[test]
fn classify_clouds_range() {
    assert_eq!(classify(801), Some(IconId::PartlyCloudyDay));
    assert_eq!(classify(804), Some(IconId::PartlyCloudyDay));
}

#[test]
fn classify_misses_outside_and_in_gaps() {
    assert_eq!(classify(0), None);
    assert_eq!(classify(199), None);
    assert_eq!(classify(233), None);
    assert_eq!(classify(299), None);
    assert_eq!(classify(322), None);
    assert_eq!(classify(499), None);
    assert_eq!(classify(504), None);
    assert_eq!(classify(512), None);
    assert_eq!(classify(519), None);
    assert_eq!(classify(532), None);
    assert_eq!(classify(599), None);
    assert_eq!(classify(623), None);
    assert_eq!(classify(700), None);
    assert_eq!(classify(772), None);
    assert_eq!(classify(780), None);
    assert_eq!(classify(782), None);
    assert_eq!(classify(799), None);
    assert_eq!(classify(805), None);
    assert_eq!(classify(999), None);
    assert_eq!(classify(65535), None);
}

#[test]
fn condition_code_icon_names() {
    assert_eq!(ConditionCode::Thunderstorm.icon(), "storm.bmp");
    assert_eq!(ConditionCode::Drizzle.icon(), "rainy.bmp");
    assert_eq!(ConditionCode::LightRain.icon(), "rainy_heavy.bmp");
    assert_eq!(ConditionCode::ExtremeRain.icon(), "rainy_heavy.bmp");
    assert_eq!(ConditionCode::FreezingRain.icon(), "weather_mix.bmp");
    assert_eq!(ConditionCode::Snow.icon(), "snowing.bmp");
    assert_eq!(ConditionCode::Fog.icon(), "foggy.bmp");
    assert_eq!(ConditionCode::Tornado.icon(), "cyclone.bmp");
    assert_eq!(ConditionCode::ClearSky.icon(), "sunny.bmp");
    assert_eq!(ConditionCode::OvercastClouds.icon(), "partly_cloudy_day.bmp");
}
