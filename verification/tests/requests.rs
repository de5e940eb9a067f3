use chrono::TimeZone;
use windy_station::{
    conclude, Observation, Quantity, Station, StationVisibility, SubmitError, Timestamp,
    WindyStation,
};

fn get_api() -> WindyStation {
    WindyStation::with_client("test-api-key".to_string(), reqwest::Client::new())
        .with_base_url("http://127.0.0.1:1234".to_string())
}

fn quantity(value: f32) -> Quantity {
    Quantity::from_json(&serde_json::to_string(&value).unwrap()).unwrap()
}

fn test_station(id: u32, name: &str) -> Station {
    Station {
        id,
        visibility: StationVisibility::Open,
        name: name.to_string(),
        latitude: quantity(49.282730),
        longitude: quantity(-123.120735),
        elevation: 62,
        temp_height: 1,
        wind_height: 2,
    }
}

#[test]
fn register_stations() {
    let request = get_api().register_stations(&[test_station(0, "test-station")]);
    assert_eq!(request.url, "http://127.0.0.1:1234/test-api-key");
    assert_eq!(request.content_type, "application/json");
    assert_eq!(
        request.body,
        "{\"stations\":[{\"station\":0,\"visibility\":\"Open\",\"name\":\"test-station\",\"latitude\":49.28273,\"longitude\":-123.120735,\"elevation\":62,\"tempheight\":1,\"windheight\":2}]}"
    );
    assert!(conclude(Ok(200)).is_ok());
}

#[test]
fn simple_report() {
    let request = get_api().record_observations(&[Observation {
        temperature: Some(quantity(-1.2_f32)),
        relative_humidity: Some(quantity(99_f32)),
        ..Default::default()
    }]);
    assert_eq!(request.url, "http://127.0.0.1:1234/test-api-key");
    assert_eq!(request.content_type, "application/json");
    assert_eq!(request.body, "{\"observations\":[{\"temp\":-1.2,\"rh\":99.0}]}");
    assert!(conclude(Ok(200)).is_ok());
}

#[test]
fn complete_report() {
    let time = (chrono::FixedOffset::west_opt(4 * 3600)
        .unwrap()
        .with_ymd_and_hms(2014, 10, 23, 20, 3, 41)
        .unwrap()
        + chrono::Duration::microseconds(636000))
    .with_timezone(&chrono::Utc);
    let request = get_api().record_observations(&[Observation {
        station_id: Some(1),
        time: Some(Timestamp::from_unix(time.timestamp(), time.timestamp_subsec_nanos()).unwrap()),
        temperature: Some(quantity(-1.2)),
        wind_speed: Some(quantity(25.0)),
        wind_direction: Some(182),
        wind_gust: Some(quantity(35.0)),
        relative_humidity: Some(quantity(96.0)),
        dew_point: Some(quantity(1.0)),
        pressure: Some(quantity(1021000.0)),
        precipitation: Some(quantity(2.4)),
        uv_index: Some(1),
    }]);
    assert_eq!(request.url, "http://127.0.0.1:1234/test-api-key");
    assert_eq!(
        request.body,
        "{\"observations\":[{\"station\":1,\"time\":\"2014-10-24T00:03:41.636Z\",\"temp\":-1.2,\"wind\":25.0,\"winddir\":182,\"gust\":35.0,\"rh\":96.0,\"dewpoint\":1.0,\"pressure\":1021000.0,\"precip\":2.4,\"uv\":1}]}"
    );
    assert!(conclude(Ok(200)).is_ok());
}

#[test]
fn default_client_reports_to_the_service() {
    let api = WindyStation::with_client("k3y".to_string(), reqwest::Client::new());
    assert_eq!(api.base_url(), "https://stations.windy.com/pws/update");
    assert_eq!(api.api_key(), "k3y");
    assert_eq!(api.url(), "https://stations.windy.com/pws/update/k3y");
    let _ = api.client();
}

#[test]
fn a_new_client_reports_to_the_service() {
    let api = WindyStation::new("k3y".to_string()).unwrap();
    assert_eq!(api.url(), "https://stations.windy.com/pws/update/k3y");
    let built = WindyStation::with_built("k".to_string(), Ok(reqwest::Client::new())).unwrap();
    assert_eq!(built.url(), "https://stations.windy.com/pws/update/k");
    let cause = reqwest::Client::new().get("not an address").build().unwrap_err();
    assert!(WindyStation::with_built("k".to_string(), Err(cause)).is_err());
}

#[test]
fn api_key_is_not_escaped() {
    let api = WindyStation::with_client("a b/c?d".to_string(), reqwest::Client::new())
        .with_base_url("http://host".to_string());
    assert_eq!(api.url(), "http://host/a b/c?d");
    assert_eq!(api.clone().url(), "http://host/a b/c?d");
}

#[test]
fn empty_lists_give_empty_arrays() {
    let stations = get_api().register_stations(&[]);
    assert_eq!(stations.body, "{\"stations\":[]}");
    assert_eq!(stations.url, "http://127.0.0.1:1234/test-api-key");
    let observations = get_api().record_observations(&[]);
    assert_eq!(observations.body, "{\"observations\":[]}");
    assert_eq!(observations.url, "http://127.0.0.1:1234/test-api-key");
}

#[test]
fn several_elements_are_separated_by_commas() {
    let request = get_api().record_observations(&[
        Observation { station_id: Some(1), ..Default::default() },
        Observation::default(),
        Observation { uv_index: Some(11), wind_direction: Some(359), ..Default::default() },
    ]);
    assert_eq!(
        request.body,
        "{\"observations\":[{\"station\":1},{},{\"winddir\":359,\"uv\":11}]}"
    );
    let request = get_api().register_stations(&[test_station(0, "a"), test_station(4294967295, "b")]);
    assert_eq!(
        request.body,
        "{\"stations\":[{\"station\":0,\"visibility\":\"Open\",\"name\":\"a\",\"latitude\":49.28273,\"longitude\":-123.120735,\"elevation\":62,\"tempheight\":1,\"windheight\":2},{\"station\":4294967295,\"visibility\":\"Open\",\"name\":\"b\",\"latitude\":49.28273,\"longitude\":-123.120735,\"elevation\":62,\"tempheight\":1,\"windheight\":2}]}"
    );
}

#[test]
fn unset_fields_are_absent() {
    assert_eq!(Observation::default().to_json(), "{}");
    let only_pressure = Observation { pressure: Some(quantity(101325.0)), ..Default::default() };
    let text = only_pressure.to_json();
    assert_eq!(text, "{\"pressure\":101325.0}");
    for key in ["station", "time", "temp", "wind", "winddir", "gust", "rh", "dewpoint", "precip", "uv"] {
        assert!(!text.contains(&format!("\"{}\":", key)));
    }
    assert!(!text.contains("null"));
    let zero = Observation { temperature: Some(quantity(0.0)), station_id: Some(0), ..Default::default() };
    assert_eq!(zero.to_json(), "{\"station\":0,\"temp\":0.0}");
}

#[test]
fn a_reading_that_is_no_number_is_null() {
    let odd = Observation { wind_gust: Some(quantity(f32::NAN)), ..Default::default() };
    assert_eq!(odd.to_json(), "{\"gust\":null}");
}

#[test]
fn station_name_is_escaped() {
    let station = test_station(7, "north \"ridge\"\\\n\u{1}caf\u{e9}");
    let text = station.to_json();
    let name = serde_json::to_string("north \"ridge\"\\\n\u{1}caf\u{e9}").unwrap();
    assert_eq!(name, "\"north \\\"ridge\\\"\\\\\\n\\u0001caf\u{e9}\"");
    assert!(text.contains(&format!("\"name\":{},", name)));
    let parsed: serde_json::Value = serde_json::from_str(&text).unwrap();
    assert_eq!(parsed["name"].as_str().unwrap(), "north \"ridge\"\\\n\u{1}caf\u{e9}");
    assert_eq!(parsed["station"].as_u64().unwrap(), 7);
}

#[test]
fn visibility_in_a_station() {
    let mut station = test_station(1, "s");
    station.visibility = StationVisibility::OnlyWindy;
    assert!(station.to_json().contains("\"visibility\":\"Only Windy\","));
    station.visibility = StationVisibility::Private;
    assert!(station.to_json().contains("\"visibility\":\"Private\","));
}

#[test]
fn success_is_a_status_from_200_to_299() {
    for status in [200_u16, 201, 204, 250, 299] {
        assert!(conclude(Ok(status)).is_ok());
    }
    for status in [0_u16, 100, 199, 300, 301, 304, 400, 404, 500, 503, 599, 65535] {
        match conclude(Ok(status)) {
            Err(SubmitError::Status(s)) => assert_eq!(s, status),
            _ => panic!("status {} must fail", status),
        }
    }
}

#[test]
fn a_transport_failure_is_handed_on() {
    let cause = reqwest::Client::new().get("not an address").build().unwrap_err();
    let said = format!("{}", cause);
    match conclude(Err(cause)) {
        Err(SubmitError::Transport(e)) => assert_eq!(format!("{}", e), said),
        _ => panic!("a transport failure must fail"),
    }
}
