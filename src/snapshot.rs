//! The decoded provider response and the typed snapshot built from it.
use vstd::prelude::*;
use crate::decimal::{decimal_of, integer_of, parse_integer, Decimal};

verus! {

/// A `{ "value": ... }` entry of the provider's location lists.
pub struct NamedValue {
    pub value: String,
}

/// One nearest-area record.
pub struct Area {
    pub area_name: Vec<NamedValue>,
    pub country: Vec<NamedValue>,
}

/// One astronomy record of a forecast period.
pub struct Astronomy {
    pub moon_phase: String,
}

/// One current-conditions record; numbers arrive as text.
pub struct Conditions {
    pub precip_mm: String,
    pub humidity: String,
}

/// One forecast-period record; numbers arrive as text.
pub struct Weather {
    pub min_temp: String,
    pub max_temp: String,
    pub astronomy: Vec<Astronomy>,
    pub sun_hour: String,
    pub total_snow_cm: String,
    pub uv_index: String,
}

/// The parts of the provider's response that a snapshot is built from.
pub struct ProviderResponse {
    pub current_condition: Vec<Conditions>,
    pub weather: Vec<Weather>,
    pub nearest_area: Vec<Area>,
}

/// A numeric field of the response.
#[derive(Clone, Copy, Debug, PartialEq, Eq)]
pub enum NumericField {
    PrecipMm,
    Humidity,
    MinTemp,
    MaxTemp,
    SunHour,
    TotalSnow,
    UvIndex,
}

/// Why no snapshot could be built from a response.
#[derive(Clone, Copy, Debug, PartialEq, Eq)]
pub enum SnapshotError {
    NoCountry,
    NoAreaName,
    NoCurrentConditions,
    NoWeather,
    NoAstronomy,
    BadNumber(NumericField),
}

/// The message for each error: it names the record or the field that is missing
/// or malformed.
pub open spec fn snapshot_message(e: SnapshotError) -> Seq<char> {
    match e {
        SnapshotError::NoCountry => "No country information found"@,
        SnapshotError::NoAreaName => "No area information found"@,
        SnapshotError::NoCurrentConditions => "No current conditions found"@,
        SnapshotError::NoWeather => "No weather information found"@,
        SnapshotError::NoAstronomy => "No astronomy data found"@,
        SnapshotError::BadNumber(NumericField::PrecipMm) => "Malformed number in precipMM"@,
        SnapshotError::BadNumber(NumericField::Humidity) => "Malformed number in humidity"@,
        SnapshotError::BadNumber(NumericField::MinTemp) => "Malformed number in mintempC"@,
        SnapshotError::BadNumber(NumericField::MaxTemp) => "Malformed number in maxtempC"@,
        SnapshotError::BadNumber(NumericField::SunHour) => "Malformed number in sun_hour"@,
        SnapshotError::BadNumber(NumericField::TotalSnow) => "Malformed number in totalSnow_cm"@,
        SnapshotError::BadNumber(NumericField::UvIndex) => "Malformed number in uv_index"@,
    }
}

impl SnapshotError {
    /// The message reported for this error.
    pub fn message(&self) -> (r: &'static str)
        ensures
            r@ == snapshot_message(*self),
    {
        match self {
            SnapshotError::NoCountry => "No country information found",
            SnapshotError::NoAreaName => "No area information found",
            SnapshotError::NoCurrentConditions => "No current conditions found",
            SnapshotError::NoWeather => "No weather information found",
            SnapshotError::NoAstronomy => "No astronomy data found",
            SnapshotError::BadNumber(NumericField::PrecipMm) => "Malformed number in precipMM",
            SnapshotError::BadNumber(NumericField::Humidity) => "Malformed number in humidity",
            SnapshotError::BadNumber(NumericField::MinTemp) => "Malformed number in mintempC",
            SnapshotError::BadNumber(NumericField::MaxTemp) => "Malformed number in maxtempC",
            SnapshotError::BadNumber(NumericField::SunHour) => "Malformed number in sun_hour",
            SnapshotError::BadNumber(NumericField::TotalSnow) => "Malformed number in totalSnow_cm",
            SnapshotError::BadNumber(NumericField::UvIndex) => "Malformed number in uv_index",
        }
    }
}

/// The snapshot as mathematical values; decimals are `(mantissa, scale)`.
pub struct SnapshotView {
    pub area_name: Seq<char>,
    pub country: Seq<char>,
    pub precip_mm: (int, nat),
    pub humidity: int,
    pub min_temp_c: int,
    pub max_temp_c: int,
    pub sun_hours: (int, nat),
    pub uv_index: int,
    pub moon_phase: Seq<char>,
}

/// The weather fields that classification reads.
pub struct WeatherSnapshot {
    pub area_name: String,
    pub country: String,
    pub precip_mm: Decimal,
    pub humidity: i32,
    pub min_temp_c: i32,
    pub max_temp_c: i32,
    pub sun_hours: Decimal,
    pub uv_index: i32,
    pub moon_phase: String,
}

impl View for WeatherSnapshot {
    type V = SnapshotView;

    open spec fn view(&self) -> SnapshotView {
        SnapshotView {
            area_name: self.area_name@,
            country: self.country@,
            precip_mm: self.precip_mm@,
            humidity: self.humidity as int,
            min_temp_c: self.min_temp_c as int,
            max_temp_c: self.max_temp_c as int,
            sun_hours: self.sun_hours@,
            uv_index: self.uv_index as int,
            moon_phase: self.moon_phase@,
        }
    }
}

/// The first error met when building a snapshot from `r`: the location records
/// first (no nearest area at all counts as a missing area name), then current conditions, forecast and astronomy, then the numbers in
/// field order; `None` when there is none.
pub open spec fn snapshot_error(r: ProviderResponse) -> Option<SnapshotError> {
    if r.nearest_area@.len() == 0 {
        Some(SnapshotError::NoAreaName)
    } else if r.nearest_area@[0].country@.len() == 0 {
        Some(SnapshotError::NoCountry)
    } else if r.nearest_area@[0].area_name@.len() == 0 {
        Some(SnapshotError::NoAreaName)
    } else if r.current_condition@.len() == 0 {
        Some(SnapshotError::NoCurrentConditions)
    } else if r.weather@.len() == 0 {
        Some(SnapshotError::NoWeather)
    } else if r.weather@[0].astronomy@.len() == 0 {
        Some(SnapshotError::NoAstronomy)
    } else {
        let c = r.current_condition@[0];
        let w = r.weather@[0];
        if decimal_of(c.precip_mm@) is None {
            Some(SnapshotError::BadNumber(NumericField::PrecipMm))
        } else if integer_of(c.humidity@) is None {
            Some(SnapshotError::BadNumber(NumericField::Humidity))
        } else if integer_of(w.min_temp@) is None {
            Some(SnapshotError::BadNumber(NumericField::MinTemp))
        } else if integer_of(w.max_temp@) is None {
            Some(SnapshotError::BadNumber(NumericField::MaxTemp))
        } else if decimal_of(w.sun_hour@) is None {
            Some(SnapshotError::BadNumber(NumericField::SunHour))
        } else if decimal_of(w.total_snow_cm@) is None {
            Some(SnapshotError::BadNumber(NumericField::TotalSnow))
        } else if integer_of(w.uv_index@) is None {
            Some(SnapshotError::BadNumber(NumericField::UvIndex))
        } else {
            None
        }
    }
}

/// The snapshot that a response without errors gives: the first record of each
/// list, with its numbers read exactly.
pub open spec fn snapshot_of(r: ProviderResponse) -> SnapshotView {
    let c = r.current_condition@[0];
    let w = r.weather@[0];
    SnapshotView {
        area_name: r.nearest_area@[0].area_name@[0].value@,
        country: r.nearest_area@[0].country@[0].value@,
        precip_mm: decimal_of(c.precip_mm@)->Some_0,
        humidity: integer_of(c.humidity@)->Some_0,
        min_temp_c: integer_of(w.min_temp@)->Some_0,
        max_temp_c: integer_of(w.max_temp@)->Some_0,
        sun_hours: decimal_of(w.sun_hour@)->Some_0,
        uv_index: integer_of(w.uv_index@)->Some_0,
        moon_phase: w.astronomy@[0].moon_phase@,
    }
}

/// A response whose records are all present and whose numeric texts all denote
/// numbers has no error, so a snapshot, and with it a classification, is built
/// from it.
pub proof fn lemma_complete_response_has_no_error(r: ProviderResponse)
    requires
        r.nearest_area@.len() > 0,
        r.nearest_area@[0].country@.len() > 0,
        r.nearest_area@[0].area_name@.len() > 0,
        r.current_condition@.len() > 0,
        r.weather@.len() > 0,
        r.weather@[0].astronomy@.len() > 0,
        decimal_of(r.current_condition@[0].precip_mm@) is Some,
        integer_of(r.current_condition@[0].humidity@) is Some,
        integer_of(r.weather@[0].min_temp@) is Some,
        integer_of(r.weather@[0].max_temp@) is Some,
        decimal_of(r.weather@[0].sun_hour@) is Some,
        decimal_of(r.weather@[0].total_snow_cm@) is Some,
        integer_of(r.weather@[0].uv_index@) is Some,
    ensures
        snapshot_error(r) is None,
{
}

impl WeatherSnapshot {
    /// Builds the snapshot from the first record of each list of `r`, or names
    /// the first record or number that is missing or malformed.
    pub fn from_response(r: &ProviderResponse) -> (res: Result<WeatherSnapshot, SnapshotError>)
        ensures
            match res {
                Ok(s) => snapshot_error(*r) is None && s@ == snapshot_of(*r),
                Err(e) => snapshot_error(*r) == Some(e),
            },
    {
        if r.nearest_area.len() == 0 {
            return Err(SnapshotError::NoAreaName);
        }
        let area = &r.nearest_area[0];
        if area.country.len() == 0 {
            return Err(SnapshotError::NoCountry);
        }
        let country = area.country[0].value.clone();
        if area.area_name.len() == 0 {
            return Err(SnapshotError::NoAreaName);
        }
        let area_name = area.area_name[0].value.clone();
        if r.current_condition.len() == 0 {
            return Err(SnapshotError::NoCurrentConditions);
        }
        let conditions = &r.current_condition[0];
        if r.weather.len() == 0 {
            return Err(SnapshotError::NoWeather);
        }
        let weather = &r.weather[0];
        if weather.astronomy.len() == 0 {
            return Err(SnapshotError::NoAstronomy);
        }
        let moon_phase = weather.astronomy[0].moon_phase.clone();
        let precip_mm = match Decimal::parse(conditions.precip_mm.as_str()) {
            Some(d) => d,
            None => return Err(SnapshotError::BadNumber(NumericField::PrecipMm)),
        };
        let humidity = match parse_integer(conditions.humidity.as_str()) {
            Some(v) => v,
            None => return Err(SnapshotError::BadNumber(NumericField::Humidity)),
        };
        let min_temp_c = match parse_integer(weather.min_temp.as_str()) {
            Some(v) => v,
            None => return Err(SnapshotError::BadNumber(NumericField::MinTemp)),
        };
        let max_temp_c = match parse_integer(weather.max_temp.as_str()) {
            Some(v) => v,
            None => return Err(SnapshotError::BadNumber(NumericField::MaxTemp)),
        };
        let sun_hours = match Decimal::parse(weather.sun_hour.as_str()) {
            Some(d) => d,
            None => return Err(SnapshotError::BadNumber(NumericField::SunHour)),
        };
        if Decimal::parse(weather.total_snow_cm.as_str()).is_none() {
            return Err(SnapshotError::BadNumber(NumericField::TotalSnow));
        }
        let uv_index = match parse_integer(weather.uv_index.as_str()) {
            Some(v) => v,
            None => return Err(SnapshotError::BadNumber(NumericField::UvIndex)),
        };
        Ok(
            WeatherSnapshot {
                area_name,
                country,
                precip_mm,
                humidity,
                min_temp_c,
                max_temp_c,
                sun_hours,
                uv_index,
                moon_phase,
            },
        )
    }
}

} // verus!
