//! Weather-provider data model: the condition-code classifier, the typed
//! record one successful fetch produces, and the failure taxonomy of a
//! refresh cycle.

use vstd::prelude::*;

verus! {

/// Why a refresh cycle was abandoned before the panel was touched.
#[derive(Clone, Copy, Debug, PartialEq, Eq, Structural)]
pub enum Failure {
    /// DNS, TCP or TLS failed; nothing was received.
    Transport,
    /// HTTP status or body-size bounds were violated.
    Protocol,
    /// A required field of the response was missing or malformed.
    DataShape,
}

/// The nine icon categories a condition code can classify into.
#[derive(Clone, Copy, Debug, PartialEq, Eq, Structural)]
pub enum IconId {
    Storm,
    Rainy,
    RainyHeavy,
    WeatherMix,
    Snowing,
    Foggy,
    Cyclone,
    Sunny,
    PartlyCloudyDay,
}

/// The classifier's grouping policy over the provider's code space,
/// inclusive sub-ranges; every code outside them is a miss.
pub open spec fn classify_spec(code: int) -> Option<IconId> {
    if 200 <= code <= 232 {
        Some(IconId::Storm)
    } else if 300 <= code <= 321 {
        Some(IconId::Rainy)
    } else if 500 <= code <= 503 || 520 <= code <= 531 {
        Some(IconId::RainyHeavy)
    } else if code == 511 {
        Some(IconId::WeatherMix)
    } else if 600 <= code <= 622 {
        Some(IconId::Snowing)
    } else if 701 <= code <= 771 {
        Some(IconId::Foggy)
    } else if code == 781 {
        Some(IconId::Cyclone)
    } else if code == 800 {
        Some(IconId::Sunny)
    } else if 801 <= code <= 804 {
        Some(IconId::PartlyCloudyDay)
    } else {
        None
    }
}

/// Maps a provider condition code to its icon category; `None` is a
/// classification miss, which callers treat as a recoverable render
/// omission, never a crash.
pub fn classify(code: u16) -> (r: Option<IconId>)
    ensures
        r == classify_spec(code as int),
{
    if 200 <= code && code <= 232 {
        Some(IconId::Storm)
    } else if 300 <= code && code <= 321 {
        Some(IconId::Rainy)
    } else if (500 <= code && code <= 503) || (520 <= code && code <= 531) {
        Some(IconId::RainyHeavy)
    } else if code == 511 {
        Some(IconId::WeatherMix)
    } else if 600 <= code && code <= 622 {
        Some(IconId::Snowing)
    } else if 701 <= code && code <= 771 {
        Some(IconId::Foggy)
    } else if code == 781 {
        Some(IconId::Cyclone)
    } else if code == 800 {
        Some(IconId::Sunny)
    } else if 801 <= code && code <= 804 {
        Some(IconId::PartlyCloudyDay)
    } else {
        None
    }
}

/// Law: on each documented sub-range the classifier returns exactly the
/// specified icon, and every code strictly outside the sub-ranges (below,
/// above, or in a gap) is a miss.
pub proof fn lemma_classify_total_on_ranges()
    ensures
        forall|c: int| 200 <= c <= 232 ==> classify_spec(c) == Some(IconId::Storm),
        forall|c: int| 300 <= c <= 321 ==> classify_spec(c) == Some(IconId::Rainy),
        forall|c: int|
            (500 <= c <= 503 || 520 <= c <= 531) ==> classify_spec(c) == Some(IconId::RainyHeavy),
        classify_spec(511) == Some(IconId::WeatherMix),
        forall|c: int| 600 <= c <= 622 ==> classify_spec(c) == Some(IconId::Snowing),
        forall|c: int| 701 <= c <= 771 ==> classify_spec(c) == Some(IconId::Foggy),
        classify_spec(781) == Some(IconId::Cyclone),
        classify_spec(800) == Some(IconId::Sunny),
        forall|c: int| 801 <= c <= 804 ==> classify_spec(c) == Some(IconId::PartlyCloudyDay),
        forall|c: int|
            !(200 <= c <= 232) && !(300 <= c <= 321) && !(500 <= c <= 503) && !(520 <= c <= 531)
                && c != 511 && !(600 <= c <= 622) && !(701 <= c <= 771) && c != 781 && c != 800
                && !(801 <= c <= 804) ==> classify_spec(c) is None,
{
}

/// The provider's documented condition codes, one variant per code.
#[derive(Clone, Copy, Debug, PartialEq, Eq, Structural)]
pub enum ConditionCode {
    ThunderstormWithLightRain,
    ThunderstormWithRain,
    ThunderstormWithHeavyRain,
    LightThunderstorm,
    Thunderstorm,
    HeavyThunderstorm,
    RaggedThunderstorm,
    ThunderstormWithLightDrizzle,
    ThunderstormWithDrizzle,
    ThunderstormWithHeavyDrizzle,
    LightIntensityDrizzle,
    Drizzle,
    HeavyIntensityDrizzle,
    LightIntensityDrizzleRain,
    DrizzleRain,
    HeavyIntensityDrizzleRain,
    ShowerRainAndDrizzle,
    HeavyShowerRainAndDrizzle,
    ShowerDrizzle,
    LightRain,
    ModerateRain,
    HeavyIntensityRain,
    VeryHeavyRain,
    ExtremeRain,
    FreezingRain,
    LightIntensityShowerRain,
    ShowerRain,
    HeavyIntensityShowerRain,
    RaggedShowerRain,
    LightSnow,
    Snow,
    HeavySnow,
    Sleet,
    LightShowerSleet,
    ShowerSleet,
    LightRainAndSnow,
    RainAndSnow,
    LightShowerSnow,
    ShowerSnow,
    HeavyShowerSnow,
    Mist,
    Smoke,
    Haze,
    SandDustWhirls,
    Fog,
    Sand,
    Dust,
    VolcanicAsh,
    Squalls,
    Tornado,
    ClearSky,
    FewClouds,
    ScatteredClouds,
    BrokenClouds,
    OvercastClouds,
}

/// The numeric code the provider sends for each variant.
pub open spec fn condition_code_value(c: ConditionCode) -> int {
    match c {
        ConditionCode::ThunderstormWithLightRain => 200,
        ConditionCode::ThunderstormWithRain => 201,
        ConditionCode::ThunderstormWithHeavyRain => 202,
        ConditionCode::LightThunderstorm => 210,
        ConditionCode::Thunderstorm => 211,
        ConditionCode::HeavyThunderstorm => 212,
        ConditionCode::RaggedThunderstorm => 221,
        ConditionCode::ThunderstormWithLightDrizzle => 230,
        ConditionCode::ThunderstormWithDrizzle => 231,
        ConditionCode::ThunderstormWithHeavyDrizzle => 232,
        ConditionCode::LightIntensityDrizzle => 300,
        ConditionCode::Drizzle => 301,
        ConditionCode::HeavyIntensityDrizzle => 302,
        ConditionCode::LightIntensityDrizzleRain => 310,
        ConditionCode::DrizzleRain => 311,
        ConditionCode::HeavyIntensityDrizzleRain => 312,
        ConditionCode::ShowerRainAndDrizzle => 313,
        ConditionCode::HeavyShowerRainAndDrizzle => 314,
        ConditionCode::ShowerDrizzle => 321,
        ConditionCode::LightRain => 500,
        ConditionCode::ModerateRain => 501,
        ConditionCode::HeavyIntensityRain => 502,
        ConditionCode::VeryHeavyRain => 503,
        ConditionCode::ExtremeRain => 504,
        ConditionCode::FreezingRain => 511,
        ConditionCode::LightIntensityShowerRain => 520,
        ConditionCode::ShowerRain => 521,
        ConditionCode::HeavyIntensityShowerRain => 522,
        ConditionCode::RaggedShowerRain => 531,
        ConditionCode::LightSnow => 600,
        ConditionCode::Snow => 601,
        ConditionCode::HeavySnow => 602,
        ConditionCode::Sleet => 611,
        ConditionCode::LightShowerSleet => 612,
        ConditionCode::ShowerSleet => 613,
        ConditionCode::LightRainAndSnow => 615,
        ConditionCode::RainAndSnow => 616,
        ConditionCode::LightShowerSnow => 620,
        ConditionCode::ShowerSnow => 621,
        ConditionCode::HeavyShowerSnow => 622,
        ConditionCode::Mist => 701,
        ConditionCode::Smoke => 711,
        ConditionCode::Haze => 721,
        ConditionCode::SandDustWhirls => 731,
        ConditionCode::Fog => 741,
        ConditionCode::Sand => 751,
        ConditionCode::Dust => 761,
        ConditionCode::VolcanicAsh => 762,
        ConditionCode::Squalls => 771,
        ConditionCode::Tornado => 781,
        ConditionCode::ClearSky => 800,
        ConditionCode::FewClouds => 801,
        ConditionCode::ScatteredClouds => 802,
        ConditionCode::BrokenClouds => 803,
        ConditionCode::OvercastClouds => 804,
    }
}

/// The icon file name each variant renders with.
pub open spec fn icon_chars(c: ConditionCode) -> Seq<char> {
    match c {
        ConditionCode::ThunderstormWithLightRain
        | ConditionCode::ThunderstormWithRain
        | ConditionCode::ThunderstormWithHeavyRain
        | ConditionCode::LightThunderstorm
        | ConditionCode::Thunderstorm
        | ConditionCode::HeavyThunderstorm
        | ConditionCode::RaggedThunderstorm
        | ConditionCode::ThunderstormWithLightDrizzle
        | ConditionCode::ThunderstormWithDrizzle
        | ConditionCode::ThunderstormWithHeavyDrizzle => "storm.bmp"@,
        ConditionCode::LightIntensityDrizzle
        | ConditionCode::Drizzle
        | ConditionCode::HeavyIntensityDrizzle
        | ConditionCode::LightIntensityDrizzleRain
        | ConditionCode::DrizzleRain
        | ConditionCode::HeavyIntensityDrizzleRain
        | ConditionCode::ShowerRainAndDrizzle
        | ConditionCode::HeavyShowerRainAndDrizzle
        | ConditionCode::ShowerDrizzle => "rainy.bmp"@,
        ConditionCode::LightRain
        | ConditionCode::ModerateRain
        | ConditionCode::HeavyIntensityRain
        | ConditionCode::VeryHeavyRain
        | ConditionCode::ExtremeRain
        | ConditionCode::LightIntensityShowerRain
        | ConditionCode::ShowerRain
        | ConditionCode::HeavyIntensityShowerRain
        | ConditionCode::RaggedShowerRain => "rainy_heavy.bmp"@,
        ConditionCode::FreezingRain => "weather_mix.bmp"@,
        ConditionCode::LightSnow
        | ConditionCode::Snow
        | ConditionCode::HeavySnow
        | ConditionCode::Sleet
        | ConditionCode::LightShowerSleet
        | ConditionCode::ShowerSleet
        | ConditionCode::LightRainAndSnow
        | ConditionCode::RainAndSnow
        | ConditionCode::LightShowerSnow
        | ConditionCode::ShowerSnow
        | ConditionCode::HeavyShowerSnow => "snowing.bmp"@,
        ConditionCode::Mist
        | ConditionCode::Smoke
        | ConditionCode::Haze
        | ConditionCode::SandDustWhirls
        | ConditionCode::Fog
        | ConditionCode::Sand
        | ConditionCode::Dust
        | ConditionCode::VolcanicAsh
        | ConditionCode::Squalls => "foggy.bmp"@,
        ConditionCode::Tornado => "cyclone.bmp"@,
        ConditionCode::ClearSky => "sunny.bmp"@,
        ConditionCode::FewClouds
        | ConditionCode::ScatteredClouds
        | ConditionCode::BrokenClouds
        | ConditionCode::OvercastClouds => "partly_cloudy_day.bmp"@,
    }
}

impl ConditionCode {
    /// The icon file name this condition renders with.
    pub fn icon(&self) -> (r: &'static str)
        ensures
            r@ == icon_chars(*self),
    {
        match self {
            ConditionCode::ThunderstormWithLightRain
            | ConditionCode::ThunderstormWithRain
            | ConditionCode::ThunderstormWithHeavyRain
            | ConditionCode::LightThunderstorm
            | ConditionCode::Thunderstorm
            | ConditionCode::HeavyThunderstorm
            | ConditionCode::RaggedThunderstorm
            | ConditionCode::ThunderstormWithLightDrizzle
            | ConditionCode::ThunderstormWithDrizzle
            | ConditionCode::ThunderstormWithHeavyDrizzle => "storm.bmp",
            ConditionCode::LightIntensityDrizzle
            | ConditionCode::Drizzle
            | ConditionCode::HeavyIntensityDrizzle
            | ConditionCode::LightIntensityDrizzleRain
            | ConditionCode::DrizzleRain
            | ConditionCode::HeavyIntensityDrizzleRain
            | ConditionCode::ShowerRainAndDrizzle
            | ConditionCode::HeavyShowerRainAndDrizzle
            | ConditionCode::ShowerDrizzle => "rainy.bmp",
            ConditionCode::LightRain
            | ConditionCode::ModerateRain
            | ConditionCode::HeavyIntensityRain
            | ConditionCode::VeryHeavyRain
            | ConditionCode::ExtremeRain
            | ConditionCode::LightIntensityShowerRain
            | ConditionCode::ShowerRain
            | ConditionCode::HeavyIntensityShowerRain
            | ConditionCode::RaggedShowerRain => "rainy_heavy.bmp",
            ConditionCode::FreezingRain => "weather_mix.bmp",
            ConditionCode::LightSnow
            | ConditionCode::Snow
            | ConditionCode::HeavySnow
            | ConditionCode::Sleet
            | ConditionCode::LightShowerSleet
            | ConditionCode::ShowerSleet
            | ConditionCode::LightRainAndSnow
            | ConditionCode::RainAndSnow
            | ConditionCode::LightShowerSnow
            | ConditionCode::ShowerSnow
            | ConditionCode::HeavyShowerSnow => "snowing.bmp",
            ConditionCode::Mist
            | ConditionCode::Smoke
            | ConditionCode::Haze
            | ConditionCode::SandDustWhirls
            | ConditionCode::Fog
            | ConditionCode::Sand
            | ConditionCode::Dust
            | ConditionCode::VolcanicAsh
            | ConditionCode::Squalls => "foggy.bmp",
            ConditionCode::Tornado => "cyclone.bmp",
            ConditionCode::ClearSky => "sunny.bmp",
            ConditionCode::FewClouds
            | ConditionCode::ScatteredClouds
            | ConditionCode::BrokenClouds
            | ConditionCode::OvercastClouds => "partly_cloudy_day.bmp",
        }
    }
}

/// The one member of the response's weather array that matters: the raw
/// condition code, kept numeric so that undocumented codes survive parsing
/// and surface as a classification miss at draw time.
#[derive(Clone, Copy, Debug, PartialEq, Eq, Structural)]
pub struct Weather {
    pub id: u16,
}

/// The `main` object of the response. Temperature is carried in tenths of
/// a degree Celsius; this crate holds no floating point.
#[derive(Clone, Copy, Debug, PartialEq, Eq, Structural)]
pub struct Main {
    pub temp_deci: i64,
    pub pressure: i32,
    pub humidity: i32,
    pub sea_level: Option<i32>,
    pub grnd_level: Option<i32>,
}

/// The `wind` object of the response, speeds in tenths of a meter per
/// second and direction in tenths of a degree.
#[derive(Clone, Copy, Debug, PartialEq, Eq, Structural)]
pub struct Wind {
    pub speed_deci: i64,
    pub deg_deci: i64,
    pub gust_deci: Option<i64>,
}

/// One parsed weather record, constructed atomically by a successful
/// fetch and consumed by exactly one refresh cycle.
#[derive(Clone, Debug, PartialEq, Eq)]
pub struct WeatherData {
    pub weather: Vec<Weather>,
    pub main: Main,
    pub wind: Wind,
    /// Observation time, Unix seconds.
    pub dt: i64,
    /// Station name, UTF-8 bytes, at most 20 of them.
    pub name: Vec<u8>,
}

impl WeatherData {
    /// A record is well formed when the weather array is non-empty (the
    /// parser demands its first member) and the name fits the bounded
    /// field it was read into.
    pub open spec fn wf(&self) -> bool {
        &&& self.weather@.len() >= 1
        &&& self.name@.len() <= 20
    }
}

} // verus!
