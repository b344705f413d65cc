use tourbox::error::Error;
use tourbox::gatt::{
    find_characteristic, find_descriptor, find_service, Characteristic, Descriptor, Device,
    Endpoint, Service,
};
use tourbox::protocol::{
    Identifiers, Protocol, UUID_CHAR000C, UUID_CHAR000C_DESC000E, UUID_CHAR000F, UUID_CHAR0011,
    UUID_CHAR0011_DESC0013, UUID_TOURBOX_SERVICE,
};
use tourbox::resolver::{resolve, Endpoints};
use tourbox::shutdown::ShutdownToken;

fn descriptor(id: u16, uuid: u128) -> Descriptor {
    Descriptor { id, uuid }
}

fn characteristic(id: u16, uuid: u128, descriptors: Vec<Descriptor>) -> Characteristic {
    Characteristic { id, uuid, descriptors }
}

fn service(id: u16, uuid: u128, characteristics: Vec<Characteristic>) -> Service {
    Service { id, uuid, characteristics }
}

fn bare_service(id: u16, uuid: u128) -> Service {
    service(id, uuid, vec![])
}

fn tourbox_service() -> Service {
    service(
        0x000b,
        UUID_TOURBOX_SERVICE,
        vec![
            characteristic(0x000c, UUID_CHAR000C, vec![descriptor(0x000e, UUID_CHAR000C_DESC000E)]),
            characteristic(0x000f, UUID_CHAR000F, vec![]),
            characteristic(
                0x0011,
                UUID_CHAR0011,
                vec![descriptor(0x0013, UUID_CHAR0011_DESC0013)],
            ),
        ],
    )
}

fn expected_endpoints() -> Endpoints {
    Endpoints {
        service: Endpoint { id: 0x000b, uuid: UUID_TOURBOX_SERVICE },
        char0011: Endpoint { id: 0x0011, uuid: UUID_CHAR0011 },
        char0011_desc0013: Endpoint { id: 0x0013, uuid: UUID_CHAR0011_DESC0013 },
        char000f: Endpoint { id: 0x000f, uuid: UUID_CHAR000F },
        char000c: Endpoint { id: 0x000c, uuid: UUID_CHAR000C },
        char000c_desc000e: Endpoint { id: 0x000e, uuid: UUID_CHAR000C_DESC000E },
    }
}

fn ids() -> Identifiers {
    Protocol::tourbox().identifiers
}

#[test]
fn find_service_returns_the_only_match_at_every_position() {
    for position in 0..4usize {
        let mut services = vec![bare_service(1, 0x1800), bare_service(2, 0x1801), bare_service(3, 0x180a)];
        services.insert(position, bare_service(9, UUID_TOURBOX_SERVICE));
        let device = Device { services };
        let found = find_service(&device, UUID_TOURBOX_SERVICE).unwrap();
        assert_eq!(found.id, 9);
        assert_eq!(found.uuid, UUID_TOURBOX_SERVICE);
    }
}

#[test]
fn find_service_fails_with_not_found_for_an_absent_identifier() {
    let device = Device { services: vec![bare_service(1, 0x1800), bare_service(2, 0x1801)] };
    assert_eq!(find_service(&device, UUID_TOURBOX_SERVICE), Err(Error::NotFound(UUID_TOURBOX_SERVICE)));
}

#[test]
fn find_service_on_a_device_without_services_fails() {
    let device = Device { services: vec![] };
    assert_eq!(find_service(&device, 7), Err(Error::NotFound(7)));
}

#[test]
fn find_service_returns_the_first_of_two_matches() {
    let device = Device {
        services: vec![bare_service(1, 0x1800), bare_service(2, 0xabcd), bare_service(3, 0xabcd)],
    };
    assert_eq!(find_service(&device, 0xabcd).unwrap().id, 2);
}

#[test]
fn find_characteristic_returns_the_match_and_reports_the_missing() {
    let service = tourbox_service();
    assert_eq!(find_characteristic(&service, UUID_CHAR000F).unwrap().id, 0x000f);
    assert_eq!(find_characteristic(&service, UUID_CHAR0011).unwrap().id, 0x0011);
    assert_eq!(find_characteristic(&service, UUID_CHAR000C).unwrap().id, 0x000c);
    assert_eq!(find_characteristic(&service, 0x2a00), Err(Error::NotFound(0x2a00)));
}

#[test]
fn find_descriptor_returns_the_match_and_reports_the_missing() {
    let service = tourbox_service();
    let notifier = find_characteristic(&service, UUID_CHAR000C).unwrap();
    assert_eq!(
        find_descriptor(notifier, UUID_CHAR000C_DESC000E),
        Ok(&Descriptor { id: 0x000e, uuid: UUID_CHAR000C_DESC000E })
    );
    let writer = find_characteristic(&service, UUID_CHAR000F).unwrap();
    assert_eq!(
        find_descriptor(writer, UUID_CHAR000C_DESC000E),
        Err(Error::NotFound(UUID_CHAR000C_DESC000E))
    );
}

#[test]
fn resolve_finds_the_whole_endpoint_set() {
    let device = Device {
        services: vec![bare_service(1, 0x1800), tourbox_service(), bare_service(3, 0x180a)],
    };
    assert_eq!(resolve(&device, &ids(), &ShutdownToken::new()), Ok(expected_endpoints()));
}

#[test]
fn resolve_does_not_depend_on_enumeration_order() {
    let mut tourbox = tourbox_service();
    tourbox.characteristics.reverse();
    tourbox.characteristics.insert(1, characteristic(0x0020, 0x2a19, vec![descriptor(0x0021, 0x2901)]));
    for c in tourbox.characteristics.iter_mut() {
        c.descriptors.insert(0, descriptor(0x0030, 0x2901));
    }
    let device = Device { services: vec![tourbox, bare_service(1, 0x1800)] };
    assert_eq!(resolve(&device, &ids(), &ShutdownToken::new()), Ok(expected_endpoints()));
}

#[test]
fn resolve_reports_the_first_missing_identifier_in_resolution_order() {
    let none = Device { services: vec![bare_service(1, 0x1800)] };
    assert_eq!(
        resolve(&none, &ids(), &ShutdownToken::new()),
        Err(Error::NotFound(UUID_TOURBOX_SERVICE))
    );

    let mut s = tourbox_service();
    s.characteristics.retain(|c| c.uuid != UUID_CHAR0011 && c.uuid != UUID_CHAR000F);
    let device = Device { services: vec![s] };
    assert_eq!(resolve(&device, &ids(), &ShutdownToken::new()), Err(Error::NotFound(UUID_CHAR0011)));

    let mut s = tourbox_service();
    s.characteristics[2].descriptors.clear();
    s.characteristics.remove(1);
    let device = Device { services: vec![s] };
    assert_eq!(
        resolve(&device, &ids(), &ShutdownToken::new()),
        Err(Error::NotFound(UUID_CHAR0011_DESC0013))
    );

    let mut s = tourbox_service();
    s.characteristics.remove(1);
    let device = Device { services: vec![s] };
    assert_eq!(resolve(&device, &ids(), &ShutdownToken::new()), Err(Error::NotFound(UUID_CHAR000F)));

    let mut s = tourbox_service();
    s.characteristics.remove(0);
    let device = Device { services: vec![s] };
    assert_eq!(resolve(&device, &ids(), &ShutdownToken::new()), Err(Error::NotFound(UUID_CHAR000C)));

    let mut s = tourbox_service();
    s.characteristics[0].descriptors.clear();
    let device = Device { services: vec![s] };
    assert_eq!(
        resolve(&device, &ids(), &ShutdownToken::new()),
        Err(Error::NotFound(UUID_CHAR000C_DESC000E))
    );
}

#[test]
fn resolve_against_a_fired_token_is_shutdown_requested() {
    let mut token = ShutdownToken::new();
    token.signal();
    let complete = Device { services: vec![tourbox_service()] };
    assert_eq!(resolve(&complete, &ids(), &token), Err(Error::ShutdownRequested));
    let empty = Device { services: vec![] };
    assert_eq!(resolve(&empty, &ids(), &token), Err(Error::ShutdownRequested));
}

#[test]
fn resolve_looks_for_characteristics_in_the_found_service_only() {
    let decoy = service(1, 0x1800, tourbox_service().characteristics);
    let device = Device { services: vec![decoy, bare_service(2, UUID_TOURBOX_SERVICE)] };
    assert_eq!(resolve(&device, &ids(), &ShutdownToken::new()), Err(Error::NotFound(UUID_CHAR0011)));
}
