use aranet_probe::cli::{parse, parse_scan_length, Cli, ScanLength};
use aranet_probe::profile::{ProfileError, SensorProfile, ARANET4_MEASUREMENT, ARANET4_SERVICE};

#[test]
fn default_scan_length_is_ten_seconds() {
    assert_eq!(parse(None), Ok(Cli { scan_length: ScanLength { secs: 10, nanos: 0 } }));
}

#[test]
fn scan_length_is_parsed() {
    assert_eq!(parse(Some("2m")).unwrap().scan_length, ScanLength { secs: 120, nanos: 0 });
    assert_eq!(parse_scan_length("1m30s"), Ok(ScanLength { secs: 90, nanos: 0 }));
    assert_eq!(parse_scan_length("250ms"), Ok(ScanLength { secs: 0, nanos: 250_000_000 }));
}

#[test]
fn malformed_scan_length_is_refused() {
    assert!(parse(Some("ten seconds")).is_err());
    assert!(parse_scan_length("5 parsecs").is_err());
}

#[test]
fn scan_length_text_uses_largest_exact_unit() {
    assert_eq!(ScanLength { secs: 10, nanos: 0 }.to_text(), "10s");
    assert_eq!(ScanLength { secs: 120, nanos: 0 }.to_text(), "2m");
    assert_eq!(ScanLength { secs: 90, nanos: 0 }.to_text(), "90s");
    assert_eq!(ScanLength { secs: 0, nanos: 1_500_000 }.to_text(), "1500us");
}

#[test]
fn aranet4_profile_constants() {
    let p = SensorProfile::aranet4();
    assert_eq!(p.service, 0x0000fce0_0000_1000_8000_00805f9b34fb);
    assert_eq!(p.characteristic, 0xf0cd1503_95da_4f4b_9ac8_aa55d312af0c);
    assert_eq!(p.name_prefix, "Aranet4");
}

#[test]
fn profile_from_text_parses_uuids() {
    let p = SensorProfile::from_text(
        "0000fce0-0000-1000-8000-00805f9b34fb",
        "f0cd1503-95da-4f4b-9ac8-aa55d312af0c",
        "Aranet4",
    )
    .unwrap();
    assert_eq!(p.service, ARANET4_SERVICE);
    assert_eq!(p.characteristic, ARANET4_MEASUREMENT);
    assert_eq!(p.name_prefix, "Aranet4");
}

#[test]
fn profile_from_text_reports_bad_uuid() {
    let bad_service =
        SensorProfile::from_text("not-a-uuid", "f0cd1503-95da-4f4b-9ac8-aa55d312af0c", "X");
    assert_eq!(bad_service.unwrap_err(), ProfileError::InvalidServiceUuid);
    let bad_char = SensorProfile::from_text("0000fce0-0000-1000-8000-00805f9b34fb", "zz", "X");
    assert_eq!(bad_char.unwrap_err(), ProfileError::InvalidCharacteristicUuid);
}
