use chance_encounter::decoders::errors::DecoderErrorKind;
use chance_encounter::decoders::geo::{parse_geolocation, parse_geolocation_e7};

fn degrees(e7: i64) -> f64 {
    e7 as f64 / 1E7
}

#[test]
fn test_parse_geolocation_e7() {
    let geolocation = parse_geolocation_e7(374219999);
    assert!(geolocation.is_ok());
    assert_eq!(degrees(geolocation.unwrap()), 37.4219999);
}

#[test]
fn test_parse_geolocation() {
    let geolocation = parse_geolocation("geo:37.4219999,-122.0840576");
    assert!(geolocation.is_ok());
    let (latitude, longitude) = geolocation.unwrap();
    assert_eq!((degrees(latitude), degrees(longitude)), (37.4219999, -122.0840576));
}

#[test]
fn e7_with_seven_digits_or_fewer_is_refused() {
    for value in [0, 1, -1, 9_999_999, -9_999_999, 1_234_567, -1_234_567] {
        let error = parse_geolocation_e7(value).unwrap_err();
        assert_eq!(error.kind(), DecoderErrorKind::GeoParse);
    }
}

#[test]
fn e7_with_eight_digits_or_more_is_kept() {
    for value in [10_000_000, -10_000_000, 374219999, -1220840576, i64::MAX, i64::MIN] {
        assert_eq!(parse_geolocation_e7(value).unwrap(), value);
    }
}

#[test]
fn geolocation_is_read_in_ten_millionths() {
    assert_eq!(parse_geolocation("geo:37.4219999,-122.0840576").unwrap(), (374219999, -1220840576));
    assert_eq!(parse_geolocation("37.4219999,-122.0840576").unwrap(), (374219999, -1220840576));
    assert_eq!(parse_geolocation("geo:35.456789,-120.567890").unwrap(), (354567890, -1205678900));
    assert_eq!(parse_geolocation("geo:1,2").unwrap(), (10_000_000, 20_000_000));
    assert_eq!(parse_geolocation("geo:+1.5,-.25").unwrap(), (15_000_000, -2_500_000));
    assert_eq!(parse_geolocation("geo:7.,0").unwrap(), (70_000_000, 0));
    assert_eq!(parse_geolocation("geo:0.00000019,0.123456789").unwrap(), (1, 1234567));
    assert_eq!(parse_geolocation("geo:-0,0.0").unwrap(), (0, 0));
}

#[test]
fn geolocation_of_another_form_is_refused() {
    for text in [
        "",
        ",",
        "geo:",
        "geo:1",
        "geo:1,",
        "geo:,2",
        "geo:1,2,3",
        "geo:1,geo:2",
        "geo:geo:1,2",
        "geo:1 ,2",
        "geo:1e2,2",
        "geo:.,2",
        "geo:-,2",
        "geo:1.2.3,2",
        "geo:NaN,2",
        "geo:1,9223372036854775808",
    ] {
        let error = parse_geolocation(text).unwrap_err();
        assert_eq!(error.kind(), DecoderErrorKind::GeoParse, "{}", text);
    }
}

#[test]
fn geolocation_keeps_what_fits() {
    assert_eq!(
        parse_geolocation("922337203685.4775807,-922337203685.4775808").unwrap(),
        (i64::MAX, i64::MIN)
    );
    assert!(parse_geolocation("922337203685.4775808,0").is_err());
    assert_eq!(parse_geolocation("000000000000000000000000001.5,0").unwrap(), (15_000_000, 0));
}
