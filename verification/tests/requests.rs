use serde_json::Value;
use wifilocation::request::{
    browser_location_url, geolocate_body, geolocate_url, BODY_HEAD, BODY_TAIL, ENTRY_SEPARATOR,
};
use wifilocation::{browser_location_request, AccessPoint, Method, Request, WifiGPS};

const HEAD: &str = "{\"homeMobileCountryCode\":310,\"homeMobileNetworkCode\":410,\"radioType\":\"gsm\",\"carrier\":\"Vodafone\",\"considerIp\":\"true\",\"cellTowers\":[],\"wifiAccessPoints\":[";

fn access_point(mac: &str, ssid: &str, signal_level: i32, channel: i32) -> AccessPoint {
    AccessPoint { mac: mac.to_string(), ssid: ssid.to_string(), signal_level, channel }
}

fn three_towers() -> Vec<AccessPoint> {
    vec![
        access_point("00:11:22:33:44:55", "home", -65, 11),
        access_point("66:77:88:99:aa:bb", "cafe", -80, 6),
        access_point("cc:dd:ee:ff:00:11", "office", -42, 36),
    ]
}

#[test]
fn body_of_one_access_point_is_exact() {
    let towers = vec![access_point("00:11:22:33:44:55", "home", -65, 11)];
    let expected = format!(
        "{}{}",
        HEAD,
        "{\"macAddress\":\"00:11:22:33:44:55\",\"signalStrength\":-65,\"age\":0,\"channel\":11,\"signalToNoiseRatio\":0}]}"
    );
    assert_eq!(geolocate_body(&towers), expected);
}

#[test]
fn body_of_two_access_points_is_exact() {
    let towers = vec![
        access_point("00:11:22:33:44:55", "home", -65, 11),
        access_point("66:77:88:99:aa:bb", "cafe", -80, 6),
    ];
    let expected = format!(
        "{}{}{}",
        HEAD,
        "{\"macAddress\":\"00:11:22:33:44:55\",\"signalStrength\":-65,\"age\":0,\"channel\":11,\"signalToNoiseRatio\":0}, ",
        "{\"macAddress\":\"66:77:88:99:aa:bb\",\"signalStrength\":-80,\"age\":0,\"channel\":6,\"signalToNoiseRatio\":0}]}"
    );
    assert_eq!(geolocate_body(&towers), expected);
}

#[test]
fn body_lists_one_entry_per_access_point_in_order() {
    let towers = three_towers();
    let body = geolocate_body(&towers);
    let json: Value = serde_json::from_str(&body).unwrap();
    let entries = json["wifiAccessPoints"].as_array().unwrap();
    assert_eq!(entries.len(), towers.len());
    for (entry, tower) in entries.iter().zip(towers.iter()) {
        assert_eq!(entry["macAddress"].as_str(), Some(tower.mac.as_str()));
        assert_eq!(entry["signalStrength"].as_i64(), Some(i64::from(tower.signal_level)));
        assert_eq!(entry["channel"].as_i64(), Some(i64::from(tower.channel)));
        assert_eq!(entry["age"].as_i64(), Some(0));
        assert_eq!(entry["signalToNoiseRatio"].as_i64(), Some(0));
        assert_eq!(entry.as_object().unwrap().len(), 5);
    }
}

#[test]
fn entries_stand_one_after_another() {
    let towers = three_towers();
    let body = geolocate_body(&towers);
    assert!(body.starts_with(BODY_HEAD));
    let mut at: usize = BODY_HEAD.len();
    for (i, tower) in towers.iter().enumerate() {
        let alone = geolocate_body(&vec![tower.clone()]);
        let entry = &alone[BODY_HEAD.len()..alone.len() - BODY_TAIL.len()];
        assert_eq!(&body[at..at + entry.len()], entry);
        at += entry.len();
        if i + 1 < towers.len() {
            assert_eq!(&body[at..at + ENTRY_SEPARATOR.len()], ENTRY_SEPARATOR);
            at += ENTRY_SEPARATOR.len();
        }
    }
    assert_eq!(&body[at..], BODY_TAIL);
}

#[test]
fn the_fixed_texts_are_as_the_service_takes_them() {
    assert_eq!(BODY_HEAD, HEAD);
    assert_eq!(ENTRY_SEPARATOR, ", ");
    assert_eq!(BODY_TAIL, "]}");
}

#[test]
fn body_holds_the_fixed_fields() {
    let body = geolocate_body(&three_towers());
    let json: Value = serde_json::from_str(&body).unwrap();
    assert_eq!(json["homeMobileCountryCode"].as_i64(), Some(310));
    assert_eq!(json["homeMobileNetworkCode"].as_i64(), Some(410));
    assert_eq!(json["radioType"].as_str(), Some("gsm"));
    assert_eq!(json["carrier"].as_str(), Some("Vodafone"));
    assert_eq!(json["considerIp"].as_str(), Some("true"));
    assert_eq!(json["cellTowers"].as_array().map(|towers| towers.len()), Some(0));
    assert_eq!(json.as_object().unwrap().len(), 7);
}

#[test]
fn body_of_no_access_point_has_an_empty_list() {
    let towers: Vec<AccessPoint> = Vec::new();
    let body = geolocate_body(&towers);
    assert_eq!(body, format!("{}]}}", HEAD));
    let json: Value = serde_json::from_str(&body).unwrap();
    assert_eq!(json["wifiAccessPoints"].as_array().map(|entries| entries.len()), Some(0));
}

#[test]
fn body_takes_every_signal_strength() {
    let towers = vec![
        access_point("a", "", 0, 0),
        access_point("b", "", i32::MAX, i32::MIN),
        access_point("c", "", i32::MIN, i32::MAX),
    ];
    let json: Value = serde_json::from_str(&geolocate_body(&towers)).unwrap();
    let entries = json["wifiAccessPoints"].as_array().unwrap();
    assert_eq!(entries[0]["signalStrength"].as_i64(), Some(0));
    assert_eq!(entries[1]["signalStrength"].as_i64(), Some(2147483647));
    assert_eq!(entries[1]["channel"].as_i64(), Some(-2147483648));
    assert_eq!(entries[2]["signalStrength"].as_i64(), Some(-2147483648));
    assert_eq!(entries[2]["channel"].as_i64(), Some(2147483647));
}

#[test]
fn geolocate_url_ends_with_the_key() {
    assert_eq!(
        geolocate_url("abc123"),
        "https://www.googleapis.com/geolocation/v1/geolocate?key=abc123"
    );
}

#[test]
fn geolocate_url_takes_the_key_as_it_is() {
    assert_eq!(
        geolocate_url(" abc123\n"),
        "https://www.googleapis.com/geolocation/v1/geolocate?key= abc123\n"
    );
    assert_eq!(geolocate_url(""), "https://www.googleapis.com/geolocation/v1/geolocate?key=");
}

#[test]
fn geolocate_request_has_url_and_body() {
    let gps = WifiGPS::new("abc123".to_string());
    let towers = three_towers();
    let request = gps.geolocate_request(&towers);
    assert_eq!(request.method, Method::Post);
    assert_eq!(request.url, "https://www.googleapis.com/geolocation/v1/geolocate?key=abc123");
    assert_eq!(request.body, Some(geolocate_body(&towers)));
    assert!(!request.accept_json);
}

#[test]
fn geolocate_request_of_no_access_point_is_made() {
    let gps = WifiGPS::new("abc123".to_string());
    let request = gps.geolocate_request(&Vec::new());
    assert_eq!(request.url, "https://www.googleapis.com/geolocation/v1/geolocate?key=abc123");
    assert_eq!(request.body, Some(format!("{}]}}", HEAD)));
    assert!(!request.accept_json);
}

#[test]
fn client_takes_an_empty_key() {
    let gps = WifiGPS::new(String::new());
    let request = gps.geolocate_request(&Vec::new());
    assert_eq!(request.url, "https://www.googleapis.com/geolocation/v1/geolocate?key=");
}

#[test]
fn client_asks_the_same_on_every_call() {
    let gps = WifiGPS::new("abc123".to_string());
    let towers = three_towers();
    let first: Request = gps.geolocate_request(&towers);
    let second: Request = gps.geolocate_request(&towers);
    assert_eq!(first, second);
}

#[test]
fn browser_location_url_of_two_access_points_is_exact() {
    let towers = vec![
        access_point("00:11:22:33:44:55", "home", -65, 11),
        access_point("66:77:88:99:aa:bb", "cafe", -80, 6),
    ];
    assert_eq!(
        browser_location_url(&towers),
        "https://maps.googleapis.com/maps/api/browserlocation/json?browser=firefox&sensor=true\
         &wifi=mac:00:11:22:33:44:55&7Cssid:home&7Css:-65\
         &wifi=mac:66:77:88:99:aa:bb&7Cssid:cafe&7Css:-80"
    );
}

#[test]
fn browser_location_url_of_no_access_point_is_the_endpoint() {
    assert_eq!(
        browser_location_url(&Vec::new()),
        "https://maps.googleapis.com/maps/api/browserlocation/json?browser=firefox&sensor=true"
    );
}

#[test]
fn browser_location_request_asks_for_json_and_carries_nothing() {
    let towers = three_towers();
    let request = browser_location_request(&towers);
    assert_eq!(request.method, Method::Post);
    assert_eq!(request.url, browser_location_url(&towers));
    assert_eq!(request.body, None);
    assert!(request.accept_json);
}

#[test]
fn a_copy_of_a_request_asks_the_same() {
    let request = WifiGPS::new("abc123".to_string()).geolocate_request(&three_towers());
    assert_eq!(request.clone(), request);
    let other = browser_location_request(&three_towers());
    assert_eq!(other.clone(), other);
    assert_ne!(request, other);
}
