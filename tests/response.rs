use weather_hazards::decimal::Decimal;
use weather_hazards::hazard::{Hazards, Precipitation, Sun, Temperature, Vampires};
use weather_hazards::request::{check_status, location_path, request_parts, request_url, StatusError};
use weather_hazards::snapshot::{
    Area, Astronomy, Conditions, NamedValue, NumericField, ProviderResponse, SnapshotError, Weather,
    WeatherSnapshot,
};

fn named(v: &str) -> NamedValue {
    NamedValue { value: v.to_string() }
}

fn response() -> ProviderResponse {
    ProviderResponse {
        current_condition: vec![Conditions { precip_mm: "0.1".to_string(), humidity: "5".to_string() }],
        weather: vec![Weather {
            min_temp: "10".to_string(),
            max_temp: "35".to_string(),
            astronomy: vec![Astronomy { moon_phase: "Waning".to_string() }],
            sun_hour: "10.0".to_string(),
            total_snow_cm: "0.0".to_string(),
            uv_index: "2".to_string(),
        }],
        nearest_area: vec![Area { area_name: vec![named("Cairo")], country: vec![named("Egypt")] }],
    }
}

#[test]
fn snapshot_from_complete_response() {
    let s = WeatherSnapshot::from_response(&response()).ok().unwrap();
    assert_eq!(s.area_name, "Cairo");
    assert_eq!(s.country, "Egypt");
    assert_eq!(s.precip_mm, Decimal::new(1, 1).unwrap());
    assert_eq!(s.humidity, 5);
    assert_eq!(s.min_temp_c, 10);
    assert_eq!(s.max_temp_c, 35);
    assert_eq!(s.sun_hours, Decimal::new(100, 1).unwrap());
    assert_eq!(s.uv_index, 2);
    assert_eq!(s.moon_phase, "Waning");
}

#[test]
fn hazards_from_complete_response() {
    let h = Hazards::from_response(&response()).ok().unwrap();
    assert_eq!(h.precipitation, Precipitation::Dry);
    assert_eq!(h.temperature, Temperature::Clear);
    assert_eq!(h.sun, Sun::Clear);
    assert_eq!(h.vampires, Vampires::No);
    assert_eq!(h.header_line(), "Current Metereological Safety Hazards in Cairo, Egypt:");
    assert_eq!(h.summary_line(), "[ 🐪 ]");
}

fn error_of(r: &ProviderResponse) -> SnapshotError {
    match Hazards::from_response(r) {
        Ok(_) => panic!("expected an error"),
        Err(e) => e,
    }
}

#[test]
fn empty_nearest_area_names_the_area() {
    let mut r = response();
    r.nearest_area.clear();
    let e = error_of(&r);
    assert_eq!(e, SnapshotError::NoAreaName);
    assert!(e.message().contains("area"));
}

#[test]
fn missing_country_and_area_name() {
    let mut r = response();
    r.nearest_area[0].country.clear();
    assert_eq!(error_of(&r), SnapshotError::NoCountry);
    assert!(SnapshotError::NoCountry.message().contains("country"));
    let mut r = response();
    r.nearest_area[0].area_name.clear();
    assert_eq!(error_of(&r), SnapshotError::NoAreaName);
}

#[test]
fn missing_conditions_weather_astronomy() {
    let mut r = response();
    r.current_condition.clear();
    assert_eq!(error_of(&r), SnapshotError::NoCurrentConditions);
    let mut r = response();
    r.weather.clear();
    assert_eq!(error_of(&r), SnapshotError::NoWeather);
    let mut r = response();
    r.weather[0].astronomy.clear();
    assert_eq!(error_of(&r), SnapshotError::NoAstronomy);
}

#[test]
fn malformed_numbers_are_named() {
    let mut r = response();
    r.current_condition[0].precip_mm = "lots".to_string();
    assert_eq!(error_of(&r), SnapshotError::BadNumber(NumericField::PrecipMm));
    let mut r = response();
    r.current_condition[0].humidity = "5.5".to_string();
    assert_eq!(error_of(&r), SnapshotError::BadNumber(NumericField::Humidity));
    let mut r = response();
    r.weather[0].min_temp = "".to_string();
    assert_eq!(error_of(&r), SnapshotError::BadNumber(NumericField::MinTemp));
    let mut r = response();
    r.weather[0].max_temp = "x".to_string();
    assert_eq!(error_of(&r), SnapshotError::BadNumber(NumericField::MaxTemp));
    let mut r = response();
    r.weather[0].sun_hour = "1.0.0".to_string();
    assert_eq!(error_of(&r), SnapshotError::BadNumber(NumericField::SunHour));
    let mut r = response();
    r.weather[0].total_snow_cm = "n/a".to_string();
    assert_eq!(error_of(&r), SnapshotError::BadNumber(NumericField::TotalSnow));
    let mut r = response();
    r.weather[0].uv_index = "99999999999".to_string();
    assert_eq!(error_of(&r), SnapshotError::BadNumber(NumericField::UvIndex));
}

#[test]
fn structure_errors_come_before_number_errors() {
    let mut r = response();
    r.current_condition[0].precip_mm = "lots".to_string();
    r.weather[0].astronomy.clear();
    assert_eq!(error_of(&r), SnapshotError::NoAstronomy);
}

#[test]
fn status_codes() {
    assert_eq!(check_status(200), Ok(()));
    assert_eq!(check_status(404), Err(StatusError::LocationNotFound));
    assert_eq!(check_status(500), Err(StatusError::ServiceFailed));
    assert_eq!(check_status(201), Err(StatusError::ServiceFailed));
    assert_eq!(StatusError::LocationNotFound.message(), "Location not found");
}

#[test]
fn location_path_uses_plus_for_spaces() {
    assert_eq!(location_path("New York"), "~New+York");
    assert_eq!(location_path("São  Paulo"), "~São++Paulo");
    assert_eq!(location_path(""), "~");
}

#[test]
fn request_url_with_and_without_location() {
    let with = request_url(Some("New York")).unwrap();
    assert_eq!(with, "https://wttr.in/~New+York?format=j1&lang=en");
    let without = request_url(None).unwrap();
    assert_eq!(without, "https://wttr.in/?format=j1&lang=en");
}

#[test]
fn request_url_keeps_the_location_out_of_the_query() {
    let url = reqwest::Url::parse(&request_url(Some("a?b#c&d=e")).unwrap()).unwrap();
    assert_eq!(url.host_str(), Some("wttr.in"));
    let pairs: Vec<(String, String)> = url.query_pairs().map(|(k, v)| (k.into_owned(), v.into_owned())).collect();
    assert_eq!(pairs, vec![("format".to_string(), "j1".to_string()), ("lang".to_string(), "en".to_string())]);
}

#[test]
fn request_parts_with_and_without_location() {
    let parts = request_parts(Some("Rio de Janeiro"));
    assert_eq!(parts.path.as_deref(), Some("~Rio+de+Janeiro"));
    assert_eq!(
        parts.query,
        vec![("format".to_string(), "j1".to_string()), ("lang".to_string(), "en".to_string())]
    );
    assert_eq!(request_parts(None).path, None);
}

#[test]
fn error_messages() {
    assert_eq!(SnapshotError::NoAreaName.message(), "No area information found");
    assert_eq!(SnapshotError::NoCurrentConditions.message(), "No current conditions found");
    assert_eq!(SnapshotError::NoWeather.message(), "No weather information found");
    assert_eq!(SnapshotError::NoAstronomy.message(), "No astronomy data found");
    assert_eq!(SnapshotError::BadNumber(NumericField::UvIndex).message(), "Malformed number in uv_index");
    assert_eq!(
        StatusError::ServiceFailed.message(),
        "Request to weather service returned unsuccessful"
    );
}
