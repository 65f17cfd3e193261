use aranet_probe::cli::ScanLength;
use aranet_probe::locate::{GattCharacteristic, GattService, NotFoundError};
use aranet_probe::profile::{SensorProfile, ARANET4_MEASUREMENT, ARANET4_SERVICE};
use aranet_probe::sample::{DecodeError, Sample};
use aranet_probe::scan::{select_candidates, Advertisement};
use aranet_probe::text::contains;
use aranet_probe::session::{Action, Event, Mode, Outcome, Phase, Probe, RunEnd};

fn ad(name: Option<&str>, services: Vec<u128>, connected: bool) -> Advertisement {
    Advertisement { local_name: name.map(|n| n.to_string()), services, connected }
}

fn window() -> ScanLength {
    ScanLength { secs: 10, nanos: 0 }
}

fn aranet_services() -> Vec<GattService> {
    vec![
        GattService {
            uuid: 0x1800,
            characteristics: vec![GattCharacteristic { uuid: 0x2a00, readable: true }],
        },
        GattService {
            uuid: ARANET4_SERVICE,
            characteristics: vec![
                GattCharacteristic { uuid: 0x2a19, readable: true },
                GattCharacteristic { uuid: ARANET4_MEASUREMENT, readable: true },
            ],
        },
    ]
}

fn started(mode: Mode) -> Probe {
    let mut p = Probe::new(SensorProfile::aranet4(), mode, window());
    assert_eq!(p.step(Event::AdapterReady), Action::StartScan(window()));
    p
}

#[test]
fn empty_scan_reports_no_devices() {
    let mut p = started(Mode::SingleShot);
    assert_eq!(p.step(Event::ScanFinished(Vec::new())), Action::Finish(RunEnd::NoDevices));
    assert_eq!(p.phase, Phase::Finished);
    assert!(!p.connected);
}

#[test]
fn scan_without_matching_peripheral_reports_no_devices() {
    let mut p = started(Mode::EveryDevice);
    let ads = vec![ad(Some("Headphones"), vec![0x180f], false), ad(None, vec![], false)];
    assert_eq!(p.step(Event::ScanFinished(ads)), Action::Finish(RunEnd::NoDevices));
}

#[test]
fn missing_adapter_ends_run() {
    let mut p = Probe::new(SensorProfile::aranet4(), Mode::SingleShot, window());
    assert_eq!(p.step(Event::AdapterMissing), Action::Finish(RunEnd::NoAdapter));
}

#[test]
fn single_shot_reads_and_decodes_one_sample() {
    let mut p = started(Mode::SingleShot);
    let ads = vec![
        ad(Some("Phone"), vec![], false),
        ad(Some("Aranet4 1A2B3"), vec![], false),
        ad(Some("Aranet4 9Z"), vec![], false),
    ];
    assert_eq!(p.step(Event::ScanFinished(ads)), Action::Connect(1));
    assert_eq!(p.step(Event::Connected), Action::DiscoverServices(1));
    assert_eq!(
        p.step(Event::ServicesDiscovered(aranet_services())),
        Action::Read { device: 1, service: 1, characteristic: 1 }
    );
    let sample = Sample { co2: 1444, temp_raw: 494, pressure_raw: 10044, humidity: 60, battery: 98 };
    assert_eq!(
        p.step(Event::ReadDone(vec![164, 5, 238, 1, 60, 39, 60, 98, 3])),
        Action::Report { device: 1, outcome: Outcome::Decoded(sample) }
    );
    assert_eq!(p.step(Event::Reported), Action::Disconnect(1));
    assert_eq!(
        p.step(Event::Disconnected),
        Action::Finish(RunEnd::Done { devices: 1, samples: 1 })
    );
    assert!(!p.connected);
}

#[test]
fn every_device_mode_skips_failed_connection() {
    let mut p = started(Mode::EveryDevice);
    let ads = vec![
        ad(Some("Aranet4 A"), vec![], false),
        ad(None, vec![ARANET4_SERVICE], false),
    ];
    assert_eq!(p.step(Event::ScanFinished(ads)), Action::Connect(0));
    assert_eq!(
        p.step(Event::ConnectFailed),
        Action::Report { device: 0, outcome: Outcome::ConnectFailed }
    );
    assert_eq!(p.step(Event::Reported), Action::Connect(1));
    assert_eq!(p.step(Event::Connected), Action::DiscoverServices(1));
    assert_eq!(
        p.step(Event::ServicesDiscovered(aranet_services())),
        Action::Read { device: 1, service: 1, characteristic: 1 }
    );
    assert_eq!(
        p.step(Event::ReadDone(vec![1, 2, 3])),
        Action::Report {
            device: 1,
            outcome: Outcome::DecodeFailed(DecodeError::TooShort { required: 8, actual: 3 })
        }
    );
    assert_eq!(p.step(Event::Reported), Action::Disconnect(1));
    assert_eq!(
        p.step(Event::Disconnected),
        Action::Finish(RunEnd::Done { devices: 2, samples: 0 })
    );
}

#[test]
fn missing_characteristic_still_disconnects() {
    let mut p = started(Mode::SingleShot);
    assert_eq!(
        p.step(Event::ScanFinished(vec![ad(Some("Aranet4"), vec![], false)])),
        Action::Connect(0)
    );
    p.step(Event::Connected);
    let services = vec![GattService { uuid: ARANET4_SERVICE, characteristics: vec![] }];
    assert_eq!(
        p.step(Event::ServicesDiscovered(services)),
        Action::Report { device: 0, outcome: Outcome::NotFound(NotFoundError::Characteristic) }
    );
    assert_eq!(p.step(Event::Reported), Action::Disconnect(0));
}

#[test]
fn discovery_and_read_failures_still_disconnect() {
    let mut p = started(Mode::EveryDevice);
    let ads = vec![ad(Some("Aranet4 A"), vec![], false), ad(Some("Aranet4 B"), vec![], false)];
    p.step(Event::ScanFinished(ads));
    p.step(Event::Connected);
    assert_eq!(
        p.step(Event::DiscoveryFailed),
        Action::Report { device: 0, outcome: Outcome::DiscoveryFailed }
    );
    assert_eq!(p.step(Event::Reported), Action::Disconnect(0));
    assert_eq!(p.step(Event::Disconnected), Action::Connect(1));
    p.step(Event::Connected);
    p.step(Event::ServicesDiscovered(aranet_services()));
    assert_eq!(
        p.step(Event::ReadFailed),
        Action::Report { device: 1, outcome: Outcome::ReadFailed }
    );
    assert_eq!(p.step(Event::Reported), Action::Disconnect(1));
    assert_eq!(
        p.step(Event::Disconnected),
        Action::Finish(RunEnd::Done { devices: 2, samples: 0 })
    );
}

#[test]
fn unexpected_event_is_ignored() {
    let mut p = Probe::new(SensorProfile::aranet4(), Mode::SingleShot, window());
    assert_eq!(p.step(Event::Connected), Action::Ignore);
    assert_eq!(p.phase, Phase::Idle);
}

#[test]
fn candidates_exclude_connected_and_unrelated_peripherals() {
    let profile = SensorProfile::aranet4();
    let ads = vec![
        ad(Some("Aranet4 X"), vec![], true),
        ad(Some("My Aranet4"), vec![], false),
        ad(Some("Thermo"), vec![ARANET4_SERVICE], false),
        ad(Some("Thermo"), vec![0x180f], false),
        ad(None, vec![], false),
    ];
    assert_eq!(select_candidates(&ads, &profile), vec![1, 2]);
}

#[test]
fn text_containment() {
    assert!(contains("Aranet4 1A2B3", "Aranet4"));
    assert!(contains("My Aranet4", "Aranet4"));
    assert!(contains("abc", ""));
    assert!(!contains("Aranet", "Aranet4"));
    assert!(!contains("aranet4", "Aranet4"));
}
