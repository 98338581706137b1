use mithaq::certificate::{
    bytes32_to_string, CertData, CertError, CertificateRegistry, ISSUED_VALIDITY_YEARS, SECONDS_IN_YEAR,
};

const ADMIN: u64 = 1;
const ISSUER: u64 = 2;
const HOLDER: u64 = 10;
const OTHER: u64 = 11;
const NOW: u64 = 1_700_000_000;

fn registry() -> CertificateRegistry {
    let mut r = CertificateRegistry::new();
    assert_eq!(r.initialize(ADMIN), Ok(()));
    r
}

fn data(issue_date: u64, expiry_date: u64, success_rate: u32) -> CertData {
    CertData {
        holder: HOLDER,
        counterparty: OTHER,
        holder_name: b"Holder".to_vec(),
        certificate_type: b"CONTRACT".to_vec(),
        issue_date,
        expiry_date,
        success_rate,
        data_hash: vec![7u8; 32],
        imprint_text: b"Mithaq Verified".to_vec(),
    }
}

#[test]
fn hex_spelling_of_identifiers() {
    assert_eq!(bytes32_to_string(&[0u8; 32]), vec![b'0'; 64]);
    let mut id = [0u8; 32];
    id[0] = 0xab;
    id[1] = 0x09;
    id[31] = 0xf0;
    let s = String::from_utf8(bytes32_to_string(&id)).unwrap();
    assert_eq!(s.len(), 64);
    assert!(s.starts_with("ab09"));
    assert!(s.ends_with("f0"));
    let mut other = id;
    other[31] = 0xf1;
    assert_ne!(bytes32_to_string(&id), bytes32_to_string(&other));
}

#[test]
fn initialize_makes_admin_an_issuer() {
    let mut r = registry();
    assert!(r.is_authorized_issuer(ADMIN));
    assert!(!r.is_authorized_issuer(ISSUER));
    assert_eq!(r.get_admin(), Some(ADMIN));
    assert_eq!(r.initialize(ISSUER), Err(CertError::AlreadyInitialized));
}

#[test]
fn register_and_verify() {
    let mut r = registry();
    let id = b"CERT-1".to_vec();
    assert_eq!(r.register_certificate(ADMIN, id.clone(), data(NOW - 10, NOW + 100, 95), NOW), Ok(true));
    let (valid, cert) = r.verify_certificate(&id, NOW);
    assert!(valid);
    let cert = cert.unwrap();
    assert_eq!(cert.holder, HOLDER);
    assert_eq!(cert.counterparty, OTHER);
    assert_eq!(cert.expiry_date, NOW + 100);
    assert!(!cert.revoked);
    assert_eq!(cert.imprint, b"Mithaq Verified".to_vec());
    // expired
    let (valid, cert) = r.verify_certificate(&id, NOW + 101);
    assert!(!valid);
    assert!(cert.is_some());
    // unknown
    let (valid, cert) = r.verify_certificate(&b"nope".to_vec(), NOW);
    assert!(!valid);
    assert!(cert.is_none());
}

#[test]
fn register_errors() {
    let mut none = CertificateRegistry::new();
    assert_eq!(
        none.register_certificate(ADMIN, b"X".to_vec(), data(NOW, NOW + 1, 1), NOW),
        Err(CertError::IssuersNotSet)
    );
    let mut r = registry();
    let id = b"CERT-1".to_vec();
    assert_eq!(
        r.register_certificate(ISSUER, id.clone(), data(NOW, NOW + 1, 1), NOW),
        Err(CertError::UnauthorizedIssuer)
    );
    assert_eq!(
        r.register_certificate(ADMIN, id.clone(), data(NOW, NOW + 1, 101), NOW),
        Err(CertError::InvalidSuccessRate)
    );
    assert_eq!(
        r.register_certificate(ADMIN, id.clone(), data(NOW + 1, NOW + 5, 1), NOW),
        Err(CertError::IssueDateInFuture)
    );
    assert_eq!(
        r.register_certificate(ADMIN, id.clone(), data(NOW, NOW, 1), NOW),
        Err(CertError::ExpiryBeforeIssue)
    );
    assert_eq!(
        r.register_certificate(ADMIN, id.clone(), data(NOW, NOW + 50 * SECONDS_IN_YEAR + 1, 1), NOW),
        Err(CertError::ExpiryTooFar)
    );
    assert_eq!(
        r.register_certificate(ADMIN, id.clone(), data(0, 5, 1), u64::MAX - 5),
        Err(CertError::Overflow)
    );
    assert_eq!(
        r.register_certificate(ADMIN, id.clone(), data(NOW, NOW + 50 * SECONDS_IN_YEAR, 1), NOW),
        Ok(true)
    );
    assert_eq!(
        r.register_certificate(ADMIN, id.clone(), data(NOW, NOW + 1, 1), NOW),
        Err(CertError::AlreadyExists)
    );
}

#[test]
fn issue_certificate_for_completed_contract() {
    let mut r = registry();
    let mut raw = [0u8; 32];
    raw[0] = 1;
    assert_eq!(r.issue_certificate(ADMIN, &raw, HOLDER, OTHER, b"Mithaq Verified".to_vec(), NOW), Ok(true));
    let id = bytes32_to_string(&raw);
    let (valid, cert) = r.verify_certificate(&id, NOW + 1000);
    assert!(valid);
    let cert = cert.unwrap();
    assert_eq!(cert.issue_date, NOW);
    assert_eq!(cert.expiry_date, NOW + ISSUED_VALIDITY_YEARS * SECONDS_IN_YEAR);
    assert_eq!(
        r.issue_certificate(ADMIN, &raw, HOLDER, OTHER, b"again".to_vec(), NOW),
        Err(CertError::AlreadyExists)
    );
    assert_eq!(
        r.issue_certificate(ISSUER, &[9u8; 32], HOLDER, OTHER, b"x".to_vec(), NOW),
        Err(CertError::UnauthorizedIssuer)
    );
    assert_eq!(
        r.issue_certificate(ADMIN, &[9u8; 32], HOLDER, OTHER, b"x".to_vec(), u64::MAX - 1),
        Err(CertError::Overflow)
    );
}

#[test]
fn revocation_is_permanent() {
    let mut r = registry();
    let id = b"CERT-2".to_vec();
    r.register_certificate(ADMIN, id.clone(), data(NOW, NOW + 100, 50), NOW).unwrap();
    assert_eq!(r.revoke_certificate(&id, Vec::new()), Err(CertError::ReasonRequired));
    assert_eq!(r.revoke_certificate(&b"none".to_vec(), b"fraud".to_vec()), Err(CertError::NotFound));
    assert_eq!(r.revoke_certificate(&id, b"fraud".to_vec()), Ok(()));
    let (valid, cert) = r.verify_certificate(&id, NOW);
    assert!(!valid);
    let cert = cert.unwrap();
    assert!(cert.revoked);
    assert_eq!(cert.revocation_reason, Some(b"fraud".to_vec()));
    assert_eq!(r.revoke_certificate(&id, b"again".to_vec()), Err(CertError::AlreadyRevoked));
    assert_eq!(
        r.register_certificate(ADMIN, id.clone(), data(NOW, NOW + 100, 50), NOW),
        Err(CertError::AlreadyExists)
    );
    let mut none = CertificateRegistry::new();
    assert_eq!(none.revoke_certificate(&id, b"x".to_vec()), Err(CertError::NotInitialized));
}

#[test]
fn issuer_management() {
    let mut r = registry();
    assert_eq!(r.add_issuer(ISSUER), Ok(()));
    assert!(r.is_authorized_issuer(ISSUER));
    assert_eq!(r.register_certificate(ISSUER, b"C".to_vec(), data(NOW, NOW + 1, 1), NOW), Ok(true));
    assert_eq!(r.remove_issuer(ISSUER), Ok(()));
    assert!(!r.is_authorized_issuer(ISSUER));
    assert_eq!(r.transfer_admin(OTHER), Ok(()));
    assert_eq!(r.get_admin(), Some(OTHER));
    assert!(r.is_authorized_issuer(OTHER));
    assert!(!r.is_authorized_issuer(ADMIN));
    let mut none = CertificateRegistry::new();
    assert_eq!(none.add_issuer(ISSUER), Err(CertError::NotInitialized));
    assert_eq!(none.remove_issuer(ISSUER), Err(CertError::NotInitialized));
    assert_eq!(none.transfer_admin(ISSUER), Err(CertError::NotInitialized));
    assert!(!none.is_authorized_issuer(ISSUER));
}
