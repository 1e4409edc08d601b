//! Classification of a snapshot into the four hazard categories.
use vstd::prelude::*;
use crate::decimal::{exceeds, falls_short};
use crate::snapshot::{snapshot_error, snapshot_of, ProviderResponse, SnapshotError, SnapshotView, WeatherSnapshot};

verus! {

#[derive(Clone, Copy, Debug, PartialEq, Eq, Structural)]
pub enum Precipitation {
    Clear,
    Dry,
    Humid,
    Drown,
}

#[derive(Clone, Copy, Debug, PartialEq, Eq, Structural)]
pub enum Temperature {
    Clear,
    Freeze,
    Burn,
}

#[derive(Clone, Copy, Debug, PartialEq, Eq, Structural)]
pub enum Sun {
    Clear,
    Sunburn,
    Depression,
}

#[derive(Clone, Copy, Debug, PartialEq, Eq, Structural)]
pub enum Vampires {
    No,
    Yes,
}

/// Where the hazards were found.
pub struct Location {
    pub country: String,
    pub area_name: String,
}

/// The four hazard judgments for one place.
pub struct Hazards {
    pub location: Location,
    pub vampires: Vampires,
    pub precipitation: Precipitation,
    pub temperature: Temperature,
    pub sun: Sun,
}

/// Over 100 mm of rain drowns; otherwise a hot day (over 30 °C) with under
/// 0.5 mm is dry below 10 % humidity and humid above 80 %.
pub open spec fn precipitation_of(s: SnapshotView) -> Precipitation {
    if exceeds(s.precip_mm, 100, 1) {
        Precipitation::Drown
    } else if s.humidity < 10 && falls_short(s.precip_mm, 1, 2) && s.max_temp_c > 30 {
        Precipitation::Dry
    } else if s.humidity > 80 && falls_short(s.precip_mm, 1, 2) && s.max_temp_c > 30 {
        Precipitation::Humid
    } else {
        Precipitation::Clear
    }
}

/// A minimum under -6 °C freezes, before a maximum over 37 °C burns.
pub open spec fn temperature_of(s: SnapshotView) -> Temperature {
    if s.min_temp_c < -6 {
        Temperature::Freeze
    } else if s.max_temp_c > 37 {
        Temperature::Burn
    } else {
        Temperature::Clear
    }
}

/// A UV index of 8 or more burns, whatever the sunshine; otherwise 0 to 3 hours
/// of sunshine (both included) depress.
pub open spec fn sun_of(s: SnapshotView) -> Sun {
    if s.uv_index >= 8 {
        Sun::Sunburn
    } else if !falls_short(s.sun_hours, 0, 1) && !exceeds(s.sun_hours, 3, 1) {
        Sun::Depression
    } else {
        Sun::Clear
    }
}

pub open spec fn full_moon() -> Seq<char> {
    seq!['F', 'u', 'l', 'l', ' ', 'M', 'o', 'o', 'n']
}

/// Under 2 hours of sunshine at full moon.
pub open spec fn vampires_of(s: SnapshotView) -> Vampires {
    if falls_short(s.sun_hours, 2, 1) && s.moon_phase == full_moon() {
        Vampires::Yes
    } else {
        Vampires::No
    }
}

/// `h` holds the classification of `s` and its location labels.
pub open spec fn classifies(h: &Hazards, s: SnapshotView) -> bool {
    &&& h.location.area_name@ == s.area_name
    &&& h.location.country@ == s.country
    &&& h.vampires == vampires_of(s)
    &&& h.precipitation == precipitation_of(s)
    &&& h.temperature == temperature_of(s)
    &&& h.sun == sun_of(s)
}

pub fn classify_precipitation(s: &WeatherSnapshot) -> (r: Precipitation)
    ensures
        r == precipitation_of(s@),
{
    if s.precip_mm.is_above(100, 1) {
        Precipitation::Drown
    } else if s.humidity < 10 && s.precip_mm.is_below(1, 2) && s.max_temp_c > 30 {
        Precipitation::Dry
    } else if s.humidity > 80 && s.precip_mm.is_below(1, 2) && s.max_temp_c > 30 {
        Precipitation::Humid
    } else {
        Precipitation::Clear
    }
}

pub fn classify_temperature(s: &WeatherSnapshot) -> (r: Temperature)
    ensures
        r == temperature_of(s@),
{
    if s.min_temp_c < -6 {
        Temperature::Freeze
    } else if s.max_temp_c > 37 {
        Temperature::Burn
    } else {
        Temperature::Clear
    }
}

pub fn classify_sun(s: &WeatherSnapshot) -> (r: Sun)
    ensures
        r == sun_of(s@),
{
    if s.uv_index >= 8 {
        Sun::Sunburn
    } else if !s.sun_hours.is_below(0, 1) && !s.sun_hours.is_above(3, 1) {
        Sun::Depression
    } else {
        Sun::Clear
    }
}

pub fn classify_vampires(s: &WeatherSnapshot) -> (r: Vampires)
    ensures
        r == vampires_of(s@),
{
    let full = String::from_str("Full Moon");
    proof {
        reveal_strlit("Full Moon");
        assert("Full Moon"@ =~= full_moon());
    }
    if s.sun_hours.is_below(2, 1) && s.moon_phase == full {
        Vampires::Yes
    } else {
        Vampires::No
    }
}

impl Hazards {
    /// Classifies a snapshot; every snapshot gets exactly one judgment per category.
    pub fn classify(s: &WeatherSnapshot) -> (h: Hazards)
        ensures
            classifies(&h, s@),
    {
        Hazards {
            location: Location { country: s.country.clone(), area_name: s.area_name.clone() },
            vampires: classify_vampires(s),
            precipitation: classify_precipitation(s),
            temperature: classify_temperature(s),
            sun: classify_sun(s),
        }
    }

    /// Builds the snapshot of a response and classifies it.
    pub fn from_response(r: &ProviderResponse) -> (res: Result<Hazards, SnapshotError>)
        ensures
            match res {
                Ok(h) => snapshot_error(*r) is None && classifies(&h, snapshot_of(*r)),
                Err(e) => snapshot_error(*r) == Some(e),
            },
    {
        match WeatherSnapshot::from_response(r) {
            Ok(s) => Ok(Hazards::classify(&s)),
            Err(e) => Err(e),
        }
    }
}

} // verus!
