use n2yo::{
    AboveResponse, Client, PositionsResponse, RadioPassesResponse, Reply, SatelliteCategory,
    TleResponse, VisualPassesResponse, DEFAULT_BASE_URL,
};

const SERVER: &str = "http://127.0.0.1:1234";

const TLE_BODY: &str = r#"{
  "info": {"satid": 25544, "satname": "SPACE STATION", "transactionscount": 4},
  "tle": "1 25544U 98067A   18077.09047010  .00001878  00000-0  35621-4 0  9999\r\n2 25544  51.6412 112.8495 0001928 208.4187 178.9720 15.54106440104358"
}"#;

const POSITIONS_BODY: &str = r#"{
  "info": {"satname": "SPACE STATION", "satid": 25544, "transactionscount": 5},
  "positions": [
    {"satlatitude": -39.90318514, "satlongitude": 158.28897924, "sataltitude": 417.85,
     "azimuth": 254.31, "elevation": -69.09, "ra": 44.77078138, "dec": -43.99279118,
     "timestamp": 1521354418},
    {"satlatitude": -39.86493451, "satlongitude": 158.35261287, "sataltitude": 417.84,
     "azimuth": 254.33, "elevation": -69.06, "ra": 44.81676119, "dec": -43.98086114,
     "timestamp": 1521354419}
  ]
}"#;

const VISUAL_PASSES_BODY: &str = r#"{
  "info": {"satid": 25544, "satname": "SPACE STATION", "transactionscount": 4, "passescount": 3},
  "passes": [
    {"startAz": 307.21, "startAzCompass": "NW", "startEl": 13.08, "startUTC": 1521368025,
     "maxAz": 225.45, "maxAzCompass": "SW", "maxEl": 78.27, "maxUTC": 1521368345,
     "endAz": 132.82, "endAzCompass": "SE", "endEl": 0, "endUTC": 1521368660,
     "mag": -2.4, "duration": 485},
    {"startAz": 311.56, "startAzCompass": "NW", "startEl": 50.94, "startUTC": 1521451295,
     "maxAz": 37.91, "maxAzCompass": "NE", "maxEl": 52.21, "maxUTC": 1521451615,
     "endAz": 118.61, "endAzCompass": "ESE", "endEl": 0, "endUTC": 1521451925,
     "mag": -2, "duration": 325},
    {"startAz": 291.06, "startAzCompass": "WNW", "startEl": 3.47, "startUTC": 1521457105,
     "maxAz": 231.58, "maxAzCompass": "SW", "maxEl": 14.75, "maxUTC": 1521457380,
     "endAz": 170.63, "endAzCompass": "S", "endEl": 0, "endUTC": 1521457650,
     "mag": -0.1, "duration": 485}
  ]
}"#;

const RADIO_PASSES_BODY: &str = r#"{
  "info": {"satid": 25544, "satname": "SPACE STATION", "transactionscount": 2, "passescount": 2},
  "passes": [
    {"startAz": 311.57, "startAzCompass": "NW", "startUTC": 1521451295,
     "maxAz": 37.98, "maxAzCompass": "NE", "maxEl": 52.19, "maxUTC": 1521451615,
     "endAz": 118.6, "endAzCompass": "ESE", "endUTC": 1521451925},
    {"startAz": 242.34, "startAzCompass": "WSW", "startUTC": 1521600275,
     "maxAz": 328.03, "maxAzCompass": "NW", "maxEl": 49.59, "maxUTC": 1521600595,
     "endAz": 47.97, "endAzCompass": "NE", "endUTC": 1521600905}
  ]
}"#;

const ABOVE_BODY: &str = r#"{
  "info": {"category": "Amateur radio", "transactionscount": 17, "satcount": 3},
  "above": [
    {"satid": 20480, "satname": "JAS 1B (FUJI 2)", "intDesignator": "1990-013C",
     "launchDate": "1990-02-07", "satlat": 49.5744, "satlng": -96.7081, "satalt": 1227.9326},
    {"satid": 26609, "satname": "AMSAT OSCAR 40", "intDesignator": "2000-072B",
     "launchDate": "2000-11-16", "satlat": 5.5105, "satlng": -21.4478, "satalt": 49678.6389},
    {"satid": 40719, "satname": "DEORBITSAIL", "intDesignator": "2015-032E",
     "launchDate": "2015-07-10", "satlat": 43.8106, "satlng": -90.3944, "satalt": 657.5516}
  ]
}"#;

fn served(body: &str) -> Result<Reply, n2yo::TransportFault> {
    Ok(Reply { status: 200, body: body.as_bytes().to_vec() })
}

#[test]
fn normal_constructor() {
    const KEY: &str = "dummy_key";
    let client: Client = Client::new(KEY);
    assert_eq!(client.api_key, KEY);
    assert_eq!(client.base_url, DEFAULT_BASE_URL);
}

#[test]
fn base_url_constructor() {
    const KEY: &str = "dummy_key";
    const URL: &str = "dummy_url";
    let client: Client = Client::new_with_base_url(KEY, URL);
    assert_eq!(client.api_key, KEY);
    assert_eq!(client.base_url, URL);
}

#[test]
fn form_request_url() {
    const KEY: &str = "dummy_key";
    const URL: &str = "dummy_url";
    let client: Client = Client::new_with_base_url(KEY, URL);
    assert_eq!(client.form_request_url("/test"), "dummy_url/test&apiKey=dummy_key");
}

#[test]
fn tle() {
    const KEY: &str = "dummy_key";
    const SATID: u32 = 25544;
    let path = format!("/satellite/tle/{}&apiKey={}", SATID, KEY);
    let client: Client = Client::new_with_base_url(KEY, SERVER);
    assert_eq!(client.tle_url(SATID), format!("{}{}", SERVER, path));
    let response = TleResponse::read(served(TLE_BODY)).unwrap();
    assert_eq!(response.info.satid, SATID);
    assert_eq!(response.info.satname, "SPACE STATION");
    assert!(response.tle.contains("\r\n"));
}

#[test]
fn positions() {
    const KEY: &str = "dummy_key";
    const SATID: u32 = 25544;
    const OBSERVER_LAT: f64 = 41.702;
    const OBSERVER_LNG: f64 = -76.014;
    const OBSERVER_ALT: f64 = 0.0;
    const SECONDS: u32 = 2;
    let path = format!(
        "/satellite/positions/{}/{}/{}/{}/{}&apiKey={}",
        SATID, OBSERVER_LAT, OBSERVER_LNG, OBSERVER_ALT, SECONDS, KEY
    );
    let client: Client = Client::new_with_base_url(KEY, SERVER);
    let url = client.positions_url(
        SATID,
        &format!("{}", OBSERVER_LAT),
        &format!("{}", OBSERVER_LNG),
        &format!("{}", OBSERVER_ALT),
        SECONDS,
    );
    assert_eq!(url, format!("{}{}", SERVER, path));
    assert_eq!(url, "http://127.0.0.1:1234/satellite/positions/25544/41.702/-76.014/0/2&apiKey=dummy_key");
    let response = PositionsResponse::read(served(POSITIONS_BODY)).unwrap();
    assert_eq!(response.info.satid, SATID);
    assert_eq!(response.info.satname, "SPACE STATION");
    assert_eq!(response.positions.len(), 2);
    assert_eq!(response.positions[0].timestamp, 1521354418);
    assert_eq!(response.positions[1].timestamp, 1521354419);
    assert_eq!(response.positions[0].satlatitude.text.parse::<f64>().unwrap(), -39.90318514);
    assert_eq!(response.positions[1].dec.text.parse::<f64>().unwrap(), -43.98086114);
}

#[test]
fn visual_passes() {
    const KEY: &str = "dummy_key";
    const SATID: u32 = 25544;
    const OBSERVER_LAT: f64 = 41.702;
    const OBSERVER_LNG: f64 = -76.014;
    const OBSERVER_ALT: f64 = 0.0;
    const DAYS: u32 = 2;
    const MIN_VISIBILITY: u32 = 300;
    let path = format!(
        "/satellite/visualpasses/{}/{}/{}/{}/{}/{}&apiKey={}",
        SATID, OBSERVER_LAT, OBSERVER_LNG, OBSERVER_ALT, DAYS, MIN_VISIBILITY, KEY
    );
    let client: Client = Client::new_with_base_url(KEY, SERVER);
    let url = client.visual_passes_url(
        SATID,
        &format!("{}", OBSERVER_LAT),
        &format!("{}", OBSERVER_LNG),
        &format!("{}", OBSERVER_ALT),
        DAYS,
        MIN_VISIBILITY,
    );
    assert_eq!(url, format!("{}{}", SERVER, path));
    let response = VisualPassesResponse::read(served(VISUAL_PASSES_BODY)).unwrap();
    assert_eq!(response.info.satid, SATID);
    assert_eq!(response.info.satname, "SPACE STATION");
    assert_eq!(response.passes.len(), 3);
    assert_eq!(response.passes[0].start_az_compass, "NW");
    assert_eq!(response.passes[1].max_utc, 1521451615);
    assert_eq!(response.passes[2].end_az_compass, "S");
    assert_eq!(response.passes[2].duration, 485);
    assert_eq!(response.passes[1].mag.text.parse::<f64>().unwrap(), -2.0);
}

#[test]
fn radio_passes() {
    const KEY: &str = "dummy_key";
    const SATID: u32 = 25544;
    const OBSERVER_LAT: f64 = 41.702;
    const OBSERVER_LNG: f64 = -76.014;
    const OBSERVER_ALT: f64 = 0.0;
    const DAYS: u32 = 2;
    const MIN_ELEVATION: u32 = 40;
    let path = format!(
        "/satellite/radiopasses/{}/{}/{}/{}/{}/{}&apiKey={}",
        SATID, OBSERVER_LAT, OBSERVER_LNG, OBSERVER_ALT, DAYS, MIN_ELEVATION, KEY
    );
    let client: Client = Client::new_with_base_url(KEY, SERVER);
    let url = client.radio_passes_url(
        SATID,
        &format!("{}", OBSERVER_LAT),
        &format!("{}", OBSERVER_LNG),
        &format!("{}", OBSERVER_ALT),
        DAYS,
        MIN_ELEVATION,
    );
    assert_eq!(url, format!("{}{}", SERVER, path));
    let response = RadioPassesResponse::read(served(RADIO_PASSES_BODY)).unwrap();
    assert_eq!(response.info.satid, SATID);
    assert_eq!(response.info.satname, "SPACE STATION");
    assert_eq!(response.passes.len(), 2);
    assert_eq!(response.passes[0].start_utc, 1521451295);
    assert_eq!(response.passes[1].end_az_compass, "NE");
    assert_eq!(response.passes[1].max_el.text.parse::<f64>().unwrap(), 49.59);
}

#[test]
fn above() {
    const KEY: &str = "dummy_key";
    const OBSERVER_LAT: f64 = 41.702;
    const OBSERVER_LNG: f64 = -76.014;
    const OBSERVER_ALT: f64 = 0.0;
    const SEARCH_RADIUS: u32 = 70;
    const CATEGORY_ID: SatelliteCategory = SatelliteCategory::AmateurRadio;
    let path = format!(
        "/above/{}/{}/{}/{}/{}&apiKey={}",
        OBSERVER_LAT, OBSERVER_LNG, OBSERVER_ALT, SEARCH_RADIUS, 18, KEY
    );
    let client: Client = Client::new_with_base_url(KEY, SERVER);
    let url = client.above_url(
        &format!("{}", OBSERVER_LAT),
        &format!("{}", OBSERVER_LNG),
        &format!("{}", OBSERVER_ALT),
        SEARCH_RADIUS,
        CATEGORY_ID,
    );
    assert_eq!(url, format!("{}{}", SERVER, path));
    assert_eq!(url, "http://127.0.0.1:1234/above/41.702/-76.014/0/70/18&apiKey=dummy_key");
    let response = AboveResponse::read(served(ABOVE_BODY)).unwrap();
    assert_eq!(response.info.category, "Amateur radio");
    assert_eq!(response.above.len(), 3);
    assert_eq!(response.above[0].satid, 20480);
    assert_eq!(response.above[1].int_designator, "2000-072B");
    assert_eq!(response.above[2].launch_date, "2015-07-10");
    assert_eq!(response.above[2].satname, "DEORBITSAIL");
}

#[test]
fn default_client_addresses_the_service() {
    let client = Client::new("K3Y");
    assert_eq!(
        client.tle_url(25544),
        "https://www.n2yo.com/rest/v1/satellite/tle/25544&apiKey=K3Y"
    );
    assert_eq!(
        client.visual_passes_url(0, "1.5", "2", "-3", 10, 4294967295),
        "https://www.n2yo.com/rest/v1/satellite/visualpasses/0/1.5/2/-3/10/4294967295&apiKey=K3Y"
    );
    assert_eq!(
        client.radio_passes_url(7, "a", "b", "c", 1, 0),
        "https://www.n2yo.com/rest/v1/satellite/radiopasses/7/a/b/c/1/0&apiKey=K3Y"
    );
}

#[test]
fn constructors_keep_texts_as_given() {
    let client = Client::new_with_base_url("", " spaced url/");
    assert_eq!(client.api_key, "");
    assert_eq!(client.base_url, " spaced url/");
    assert_eq!(client.form_request_url(""), " spaced url/&apiKey=");
}
