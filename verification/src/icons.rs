//! The icon asset registry: a name-to-bytes lookup over the bitmaps the
//! build embeds. The registry is handed to the dashboard at construction,
//! and a startup check establishes that every asset the layout can ask
//! for is present, so that no draw pass can miss one.

use vstd::prelude::*;
use crate::weather::IconId;

verus! {

/// Every bitmap the fixed layout can name: the nine classifier icons and
/// the two gauge icons.
#[derive(Clone, Copy, Debug, PartialEq, Eq, Structural)]
pub enum AssetId {
    Storm,
    Rainy,
    RainyHeavy,
    WeatherMix,
    Snowing,
    Foggy,
    Cyclone,
    Sunny,
    PartlyCloudyDay,
    HumidityPercentage,
    Air,
}

/// The asset a classified icon renders with.
pub open spec fn asset_of_icon(id: IconId) -> AssetId {
    match id {
        IconId::Storm => AssetId::Storm,
        IconId::Rainy => AssetId::Rainy,
        IconId::RainyHeavy => AssetId::RainyHeavy,
        IconId::WeatherMix => AssetId::WeatherMix,
        IconId::Snowing => AssetId::Snowing,
        IconId::Foggy => AssetId::Foggy,
        IconId::Cyclone => AssetId::Cyclone,
        IconId::Sunny => AssetId::Sunny,
        IconId::PartlyCloudyDay => AssetId::PartlyCloudyDay,
    }
}

/// Maps a classified icon to its registry asset.
pub fn icon_asset(id: IconId) -> (r: AssetId)
    ensures
        r == asset_of_icon(id),
{
    match id {
        IconId::Storm => AssetId::Storm,
        IconId::Rainy => AssetId::Rainy,
        IconId::RainyHeavy => AssetId::RainyHeavy,
        IconId::WeatherMix => AssetId::WeatherMix,
        IconId::Snowing => AssetId::Snowing,
        IconId::Foggy => AssetId::Foggy,
        IconId::Cyclone => AssetId::Cyclone,
        IconId::Sunny => AssetId::Sunny,
        IconId::PartlyCloudyDay => AssetId::PartlyCloudyDay,
    }
}

/// The file name each asset was embedded under.
pub open spec fn asset_name_chars(a: AssetId) -> Seq<char> {
    match a {
        AssetId::Storm => "storm.bmp"@,
        AssetId::Rainy => "rainy.bmp"@,
        AssetId::RainyHeavy => "rainy_heavy.bmp"@,
        AssetId::WeatherMix => "weather_mix.bmp"@,
        AssetId::Snowing => "snowing.bmp"@,
        AssetId::Foggy => "foggy.bmp"@,
        AssetId::Cyclone => "cyclone.bmp"@,
        AssetId::Sunny => "sunny.bmp"@,
        AssetId::PartlyCloudyDay => "partly_cloudy_day.bmp"@,
        AssetId::HumidityPercentage => "humidity_percentage.bmp"@,
        AssetId::Air => "air.bmp"@,
    }
}

impl AssetId {
    /// The file name this asset was embedded under.
    pub fn file_name(&self) -> (r: &'static str)
        ensures
            r@ == asset_name_chars(*self),
    {
        match self {
            AssetId::Storm => "storm.bmp",
            AssetId::Rainy => "rainy.bmp",
            AssetId::RainyHeavy => "rainy_heavy.bmp",
            AssetId::WeatherMix => "weather_mix.bmp",
            AssetId::Snowing => "snowing.bmp",
            AssetId::Foggy => "foggy.bmp",
            AssetId::Cyclone => "cyclone.bmp",
            AssetId::Sunny => "sunny.bmp",
            AssetId::PartlyCloudyDay => "partly_cloudy_day.bmp",
            AssetId::HumidityPercentage => "humidity_percentage.bmp",
            AssetId::Air => "air.bmp",
        }
    }
}

/// One embedded bitmap.
pub struct IconEntry {
    pub asset: AssetId,
    pub bytes: Vec<u8>,
}

/// The build-time registry, handed in at startup.
pub struct IconRegistry {
    pub entries: Vec<IconEntry>,
}

impl IconRegistry {
    /// Some entry carries this asset.
    pub open spec fn has_asset(&self, a: AssetId) -> bool {
        exists|i: int| 0 <= i < self.entries@.len() && self.entries@[i].asset == a
    }

    /// Every asset the layout can name is present.
    pub open spec fn complete(&self) -> bool {
        forall|a: AssetId| self.has_asset(a)
    }

    /// Looks an asset up, returning the bytes of its first entry.
    pub fn get_icon(&self, a: AssetId) -> (r: Option<&Vec<u8>>)
        ensures
            r matches Some(b) ==> exists|i: int|
                0 <= i < self.entries@.len() && self.entries@[i].asset == a && b@
                    == self.entries@[i].bytes@ && forall|j: int|
                    0 <= j < i ==> self.entries@[j].asset != a,
            r is None ==> !self.has_asset(a),
    {
        let mut i: usize = 0;
        while i < self.entries.len()
            invariant
                i <= self.entries@.len(),
                forall|j: int| 0 <= j < i ==> self.entries@[j].asset != a,
            decreases self.entries@.len() - i,
        {
            if self.entries[i].asset == a {
                return Some(&self.entries[i].bytes);
            }
            i = i + 1;
        }
        None
    }

    /// Checks presence of one asset.
    fn has(&self, a: AssetId) -> (r: bool)
        ensures
            r == self.has_asset(a),
    {
        match self.get_icon(a) {
            Some(_) => true,
            None => false,
        }
    }

    /// The startup referential-completeness check: iterates every asset
    /// the layout can name and reports whether all are present.
    pub fn is_complete(&self) -> (r: bool)
        ensures
            r == self.complete(),
    {
        let r = self.has(AssetId::Storm) && self.has(AssetId::Rainy) && self.has(
            AssetId::RainyHeavy,
        ) && self.has(AssetId::WeatherMix) && self.has(AssetId::Snowing) && self.has(
            AssetId::Foggy,
        ) && self.has(AssetId::Cyclone) && self.has(AssetId::Sunny) && self.has(
            AssetId::PartlyCloudyDay,
        ) && self.has(AssetId::HumidityPercentage) && self.has(AssetId::Air);
        proof {
            if r {
                assert forall|a: AssetId| self.has_asset(a) by {
                    match a {
                        AssetId::Storm => assert(self.has_asset(AssetId::Storm)),
                        AssetId::Rainy => assert(self.has_asset(AssetId::Rainy)),
                        AssetId::RainyHeavy => assert(self.has_asset(AssetId::RainyHeavy)),
                        AssetId::WeatherMix => assert(self.has_asset(AssetId::WeatherMix)),
                        AssetId::Snowing => assert(self.has_asset(AssetId::Snowing)),
                        AssetId::Foggy => assert(self.has_asset(AssetId::Foggy)),
                        AssetId::Cyclone => assert(self.has_asset(AssetId::Cyclone)),
                        AssetId::Sunny => assert(self.has_asset(AssetId::Sunny)),
                        AssetId::PartlyCloudyDay => assert(self.has_asset(AssetId::PartlyCloudyDay)),
                        AssetId::HumidityPercentage => assert(self.has_asset(
                            AssetId::HumidityPercentage,
                        )),
                        AssetId::Air => assert(self.has_asset(AssetId::Air)),
                    }
                }
            }
        }
        r
    }
}

/// Law: on every code of the enumeration the icon file it names agrees
/// with what the range classifier picks, except the extreme-rain code,
/// which the classifier leaves outside its heavy-rain range.
pub proof fn lemma_enumeration_agrees_with_classifier(c: crate::weather::ConditionCode)
    requires
        c != crate::weather::ConditionCode::ExtremeRain,
    ensures
        crate::weather::classify_spec(crate::weather::condition_code_value(c)) matches Some(id)
            && crate::weather::icon_chars(c) == asset_name_chars(asset_of_icon(id)),
{
}

/// Law: in a complete registry, every icon the classifier can produce
/// resolves to an entry, so a draw pass never misses an asset.
pub proof fn lemma_registry_covers_classifier(reg: IconRegistry, code: int)
    requires
        reg.complete(),
    ensures
        crate::weather::classify_spec(code) matches Some(id) ==> reg.has_asset(asset_of_icon(id)),
{
}

} // verus!
