use wifilocation::{api_key_from_contents, WifiGPS};

#[test]
fn the_key_is_the_whole_contents() {
    assert_eq!(api_key_from_contents(b"abc123".to_vec()), Some("abc123".to_string()));
}

#[test]
fn nothing_is_trimmed_from_the_key() {
    assert_eq!(api_key_from_contents(b"abc123\n".to_vec()), Some("abc123\n".to_string()));
    assert_eq!(api_key_from_contents(b"  abc 123\r\n\t".to_vec()), Some("  abc 123\r\n\t".to_string()));
}

#[test]
fn empty_contents_are_an_empty_key() {
    assert_eq!(api_key_from_contents(Vec::new()), Some(String::new()));
}

#[test]
fn a_key_may_hold_any_characters() {
    let text = "cl\u{e9} \u{20ac} \u{1f511}";
    assert_eq!(api_key_from_contents(text.as_bytes().to_vec()), Some(text.to_string()));
}

#[test]
fn contents_that_are_not_utf8_hold_no_key() {
    assert_eq!(api_key_from_contents(vec![0x61, 0xff, 0x62]), None);
    assert_eq!(api_key_from_contents(vec![0xc0, 0x80]), None);
    assert_eq!(api_key_from_contents(vec![0xed, 0xa0, 0x80]), None);
    assert_eq!(api_key_from_contents(vec![0xe2, 0x82]), None);
}

#[test]
fn a_key_from_a_file_goes_into_the_request_untouched() {
    let key = api_key_from_contents(b"abc123\n".to_vec()).unwrap();
    let request = WifiGPS::new(key).geolocate_request(&Vec::new());
    assert_eq!(request.url, "https://www.googleapis.com/geolocation/v1/geolocate?key=abc123\n");
}
