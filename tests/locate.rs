use aranet_probe::locate::{locate, GattCharacteristic, GattService, NotFoundError};

const SERVICE: u128 = 0x0000fce0_0000_1000_8000_00805f9b34fb;
const CHAR: u128 = 0xf0cd1503_95da_4f4b_9ac8_aa55d312af0c;

fn ch(uuid: u128, readable: bool) -> GattCharacteristic {
    GattCharacteristic { uuid, readable }
}

fn svc(uuid: u128, characteristics: Vec<GattCharacteristic>) -> GattService {
    GattService { uuid, characteristics }
}

#[test]
fn service_without_target_characteristic_is_characteristic_not_found() {
    let services = vec![svc(0x1800, vec![ch(0x2a00, true)]), svc(SERVICE, vec![ch(0x2a19, true)])];
    assert_eq!(locate(&services, SERVICE, CHAR), Err(NotFoundError::Characteristic));
}

#[test]
fn absent_service_is_service_not_found() {
    let services = vec![svc(0x1800, vec![ch(CHAR, true)]), svc(0x180f, vec![])];
    assert_eq!(locate(&services, SERVICE, CHAR), Err(NotFoundError::Service));
    assert_eq!(locate(&Vec::new(), SERVICE, CHAR), Err(NotFoundError::Service));
}

#[test]
fn finds_readable_characteristic_in_first_matching_service() {
    let services = vec![
        svc(0x1800, vec![ch(CHAR, true)]),
        svc(SERVICE, vec![ch(0x2a19, true), ch(CHAR, false), ch(CHAR, true)]),
        svc(SERVICE, vec![ch(CHAR, true)]),
    ];
    assert_eq!(locate(&services, SERVICE, CHAR), Ok((1, 2)));
}

#[test]
fn only_the_first_matching_service_is_searched() {
    let services = vec![svc(SERVICE, vec![ch(CHAR, false)]), svc(SERVICE, vec![ch(CHAR, true)])];
    assert_eq!(locate(&services, SERVICE, CHAR), Err(NotFoundError::Characteristic));
}
