use anchorkit::{
    bytes32_eq, AnchorKitContract, Address, AttestationRecordedData, Durability, Error, Event,
    PayloadHash, Storage, StorageKey, INSTANCE_LIFETIME, PERSISTENT_LIFETIME,
};

fn addr(n: u8) -> Address {
    Address { bytes: [n; 32] }
}

fn hash(n: u8) -> PayloadHash {
    PayloadHash { bytes: [n; 32] }
}

fn registry_with(attestors: &[Address]) -> (AnchorKitContract, Address) {
    let mut c = AnchorKitContract::new();
    let admin = addr(1);
    c.initialize(&admin, admin).unwrap();
    for a in attestors {
        c.register_attestor(&admin, *a).unwrap();
    }
    (c, admin)
}

#[test]
fn same_hash_is_rejected_whatever_the_issuer_and_subject() {
    let a = addr(2);
    let b = addr(3);
    let (mut c, _admin) = registry_with(&[a, b]);
    assert_eq!(c.submit_attestation(&a, a, addr(7), 5, hash(40), vec![1]), Ok(0));
    assert_eq!(
        c.submit_attestation(&b, b, addr(8), 6, hash(40), vec![2]),
        Err(Error::ReplayAttack)
    );
    assert_eq!(
        c.submit_attestation(&a, a, addr(7), 5, hash(40), vec![1]),
        Err(Error::ReplayAttack)
    );
    assert_eq!(c.events().len(), 3);
}

#[test]
fn ids_count_up_without_gaps_across_failures() {
    let a = addr(2);
    let (mut c, _admin) = registry_with(&[a]);
    assert_eq!(c.submit_attestation(&a, a, addr(7), 1, hash(10), vec![]), Ok(0));
    assert_eq!(c.submit_attestation(&a, a, addr(7), 0, hash(11), vec![]), Err(Error::InvalidTimestamp));
    assert_eq!(c.submit_attestation(&a, a, addr(7), 1, hash(10), vec![]), Err(Error::ReplayAttack));
    assert_eq!(c.submit_attestation(&a, a, addr(7), 1, hash(11), vec![]), Ok(1));
    assert_eq!(c.submit_attestation(&a, a, addr(7), 1, hash(12), vec![]), Ok(2));
    assert_eq!(c.get_attestation(2).unwrap().payload_hash, hash(12));
    assert_eq!(c.get_attestation(3).err(), Some(Error::AttestationNotFound));
}

#[test]
fn only_the_admin_registers_revokes_and_removes() {
    let a = addr(2);
    let stranger = addr(9);
    let (mut c, admin) = registry_with(&[a]);
    c.configure_endpoint(&a, a, String::from("https://x/y")).unwrap();
    let events_before = c.events().len();
    assert_eq!(c.register_attestor(&stranger, addr(5)), Err(Error::UnauthorizedAttestor));
    assert_eq!(c.register_attestor(&a, addr(5)), Err(Error::UnauthorizedAttestor));
    assert_eq!(c.revoke_attestor(&stranger, a), Err(Error::UnauthorizedAttestor));
    assert_eq!(c.remove_endpoint(&a, a), Err(Error::UnauthorizedAttestor));
    assert_eq!(c.events().len(), events_before);
    assert!(!c.is_attestor(&addr(5)));
    assert!(c.is_attestor(&a));
    assert!(c.get_endpoint(&a).is_ok());
    assert_eq!(c.remove_endpoint(&admin, a), Ok(()));
}

#[test]
fn admin_operations_need_initialization() {
    let mut c = AnchorKitContract::new();
    let a = addr(2);
    assert_eq!(c.register_attestor(&a, a), Err(Error::NotInitialized));
    assert_eq!(c.revoke_attestor(&a, a), Err(Error::NotInitialized));
    assert_eq!(c.configure_endpoint(&a, a, String::from("https://x/y")), Err(Error::NotInitialized));
    assert_eq!(c.remove_endpoint(&a, a), Err(Error::NotInitialized));
    assert_eq!(c.initialize(&a, addr(1)), Err(Error::UnauthorizedAttestor));
    assert_eq!(c.get_admin(), Err(Error::NotInitialized));
}

#[test]
fn submission_needs_an_active_attestor() {
    let a = addr(2);
    let (mut c, admin) = registry_with(&[a]);
    let outsider = addr(6);
    assert_eq!(
        c.submit_attestation(&outsider, outsider, addr(7), 3, hash(20), vec![]),
        Err(Error::UnauthorizedAttestor)
    );
    assert_eq!(
        c.submit_attestation(&outsider, a, addr(7), 3, hash(20), vec![]),
        Err(Error::UnauthorizedAttestor)
    );
    c.revoke_attestor(&admin, a).unwrap();
    assert_eq!(
        c.submit_attestation(&a, a, addr(7), 3, hash(20), vec![]),
        Err(Error::UnauthorizedAttestor)
    );
    c.register_attestor(&admin, a).unwrap();
    assert_eq!(c.submit_attestation(&a, a, addr(7), 3, hash(20), vec![]), Ok(0));
}

#[test]
fn never_registered_address_is_not_an_attestor() {
    let a = addr(2);
    let (mut c, admin) = registry_with(&[a]);
    let other = addr(4);
    assert!(!c.is_attestor(&other));
    c.revoke_attestor(&admin, a).unwrap();
    assert_eq!(c.revoke_attestor(&admin, other), Err(Error::AttestorNotRegistered));
    assert!(!c.is_attestor(&other));
    assert!(!c.is_attestor(&other));
}

#[test]
fn one_endpoint_per_attestor() {
    let a = addr(2);
    let (mut c, admin) = registry_with(&[a]);
    assert_eq!(c.update_endpoint(&a, a, String::from("https://x/y"), true), Err(Error::EndpointNotFound));
    assert_eq!(c.remove_endpoint(&admin, a), Err(Error::EndpointNotFound));
    assert_eq!(c.get_endpoint(&a).err(), Some(Error::EndpointNotFound));
    c.configure_endpoint(&admin, a, String::from("https://x/y")).unwrap();
    assert_eq!(
        c.configure_endpoint(&a, a, String::from("https://other/z")),
        Err(Error::EndpointAlreadyExists)
    );
    assert_eq!(c.get_endpoint(&a).unwrap().url, "https://x/y");
}

#[test]
fn endpoint_needs_admin_or_owner() {
    let a = addr(2);
    let (mut c, _admin) = registry_with(&[a]);
    let stranger = addr(9);
    assert_eq!(
        c.configure_endpoint(&stranger, a, String::from("https://x/y")),
        Err(Error::UnauthorizedAttestor)
    );
    c.configure_endpoint(&a, a, String::from("https://x/y")).unwrap();
    assert_eq!(
        c.update_endpoint(&stranger, a, String::from("https://x/z"), true),
        Err(Error::UnauthorizedAttestor)
    );
}

#[test]
fn url_validation_table() {
    let invalid = ["", "https://", "http://", "api.example.com/attest", "ftp://x", "HTTPS://x"];
    for url in invalid {
        assert_eq!(AnchorKitContract::validate_endpoint_url(url), Err(Error::InvalidEndpointFormat));
    }
    assert_eq!(AnchorKitContract::validate_endpoint_url("https://api.example.com/attest"), Ok(()));
    assert_eq!(AnchorKitContract::validate_endpoint_url("http://api.example.com/attest"), Ok(()));
    assert_eq!(AnchorKitContract::validate_endpoint_url("http://a"), Ok(()));
    assert_eq!(AnchorKitContract::validate_endpoint_url("https:/"), Err(Error::InvalidEndpointFormat));

    let a = addr(2);
    let (mut c, _admin) = registry_with(&[a]);
    c.configure_endpoint(&a, a, String::from("https://api.example.com/attest")).unwrap();
    assert!(c.get_endpoint(&a).unwrap().is_active);
    let b = addr(3);
    let (mut d, admin) = registry_with(&[b]);
    assert_eq!(d.configure_endpoint(&admin, b, String::from("http://api.example.com/attest")), Ok(()));
}

#[test]
fn url_length_is_counted_in_characters() {
    let longest = format!("https://{}", "a".repeat(248));
    assert_eq!(longest.chars().count(), 256);
    assert_eq!(AnchorKitContract::validate_endpoint_url(&longest), Ok(()));
    let too_long = format!("https://{}", "a".repeat(249));
    assert_eq!(AnchorKitContract::validate_endpoint_url(&too_long), Err(Error::InvalidEndpointFormat));
    let wide = format!("https://{}", "\u{e9}".repeat(248));
    assert!(wide.len() > 256);
    assert_eq!(AnchorKitContract::validate_endpoint_url(&wide), Ok(()));
}

#[test]
fn attest_replay_then_next_id_scenario() {
    let attestor = addr(2);
    let (mut c, _admin) = registry_with(&[attestor]);
    let subject = addr(3);
    let sig = vec![5u8; 64];
    assert_eq!(c.submit_attestation(&attestor, attestor, subject, 1234567890, hash(31), sig.clone()), Ok(0));
    assert_eq!(
        c.submit_attestation(&attestor, attestor, subject, 1234567890, hash(31), sig.clone()),
        Err(Error::ReplayAttack)
    );
    assert_eq!(c.submit_attestation(&attestor, attestor, subject, 1234567890, hash(32), sig), Ok(1));
}

#[test]
fn endpoint_lifecycle_scenario() {
    let a = addr(2);
    let (mut c, admin) = registry_with(&[a]);
    assert_eq!(c.configure_endpoint(&a, a, String::from("https://x/y")), Ok(()));
    assert!(c.get_endpoint(&a).unwrap().is_active);
    assert_eq!(c.update_endpoint(&a, a, String::from("https://z/y"), false), Ok(()));
    let e = c.get_endpoint(&a).unwrap();
    assert_eq!(e.url, "https://z/y");
    assert!(!e.is_active);
    assert_eq!(e.attestor, a);
    assert_eq!(c.remove_endpoint(&admin, a), Ok(()));
    assert_eq!(c.get_endpoint(&a).err(), Some(Error::EndpointNotFound));
}

#[test]
fn every_write_refreshes_its_time_to_live() {
    let a = addr(2);
    let (mut c, _admin) = registry_with(&[a]);
    let s = c.storage();
    assert_eq!(s.ttl(Durability::Instance, &StorageKey::Admin), Some(INSTANCE_LIFETIME));
    assert_eq!(s.ttl(Durability::Persistent, &StorageKey::Attestor(a)), Some(PERSISTENT_LIFETIME));
    c.submit_attestation(&a, a, addr(3), 9, hash(50), vec![]).unwrap();
    c.configure_endpoint(&a, a, String::from("https://x/y")).unwrap();
    let s = c.storage();
    assert_eq!(s.ttl(Durability::Instance, &StorageKey::Counter), Some(INSTANCE_LIFETIME));
    assert_eq!(s.ttl(Durability::Persistent, &StorageKey::Attestation(0)), Some(PERSISTENT_LIFETIME));
    assert_eq!(s.ttl(Durability::Persistent, &StorageKey::UsedHash(hash(50))), Some(PERSISTENT_LIFETIME));
    assert_eq!(s.ttl(Durability::Persistent, &StorageKey::Endpoint(a)), Some(PERSISTENT_LIFETIME));
    assert_eq!(s.ttl(Durability::Instance, &StorageKey::Attestor(a)), None);
    assert_eq!(INSTANCE_LIFETIME, 518400);
    assert_eq!(PERSISTENT_LIFETIME, 1555200);
}

#[test]
fn events_carry_minimal_payloads() {
    let a = addr(2);
    let (mut c, admin) = registry_with(&[a]);
    c.submit_attestation(&a, a, addr(3), 77, hash(60), vec![1, 2, 3]).unwrap();
    c.configure_endpoint(&a, a, String::from("https://x/y")).unwrap();
    c.remove_endpoint(&admin, a).unwrap();
    c.revoke_attestor(&admin, a).unwrap();
    let ev = c.events();
    assert_eq!(ev.len(), 5);
    assert_eq!(ev[0], Event::AttestorAdded { attestor: a });
    assert_eq!(
        ev[1],
        Event::AttestationRecorded {
            id: 0,
            subject: addr(3),
            data: AttestationRecordedData { timestamp: 77, payload_hash: hash(60) },
        }
    );
    assert_eq!(ev[2], Event::EndpointConfigured { attestor: a, url: String::from("https://x/y") });
    assert_eq!(ev[3], Event::EndpointRemoved { attestor: a });
    assert_eq!(ev[4], Event::AttestorRemoved { attestor: a });
    assert_eq!(ev[1].topic_names(), ("attest", "recorded"));
    assert_eq!(ev[4].topic_names(), ("attestor", "removed"));
    assert_eq!(ev[2].topic_len(), 2);
}

#[test]
fn storage_counter_and_endpoint_keys() {
    let mut s = Storage::new();
    assert!(!s.has_admin());
    assert_eq!(s.get_and_increment_counter(), 0);
    assert_eq!(s.get_and_increment_counter(), 1);
    assert_eq!(s.get_and_increment_counter(), 2);
    assert!(!s.is_hash_used(&hash(1)));
    s.mark_hash_used(&hash(1));
    assert!(s.is_hash_used(&hash(1)));
    assert!(!s.is_hash_used(&hash(2)));
    s.set_attestor(&addr(4), true);
    assert!(s.is_attestor(&addr(4)));
    s.set_attestor(&addr(4), false);
    assert!(!s.is_attestor(&addr(4)));
    s.set_endpoint(anchorkit::Endpoint { url: String::from("http://q"), attestor: addr(4), is_active: true });
    assert!(s.has_endpoint(&addr(4)));
    assert!(!s.has_endpoint(&addr(5)));
    s.remove_endpoint(&addr(4));
    assert!(!s.has_endpoint(&addr(4)));
    assert_eq!(s.get_endpoint(&addr(4)).err(), Some(Error::EndpointNotFound));
}

#[test]
fn addresses_differ_in_any_byte() {
    let mut x = [7u8; 32];
    let y = [7u8; 32];
    assert!(bytes32_eq(&x, &y));
    x[31] = 8;
    assert!(!bytes32_eq(&x, &y));
    assert_ne!(Address { bytes: x }, Address { bytes: y });
    assert_eq!(Address { bytes: y }, addr(7));
}
