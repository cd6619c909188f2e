use mls_sessions::credential::Credential;
use mls_sessions::credential::CredentialError;
use mls_sessions::credential::CredentialManager;
use mls_sessions::credential::CredentialType;
use mls_sessions::credential::SignatureScheme;
use mls_sessions::credential::storage_key;
use mls_sessions::crypto::CryptoProvider;
use mls_sessions::key_package::CipherSuite;
use mls_sessions::key_package::KeyPackageError;
use mls_sessions::key_package::KeyPackageManager;
use mls_sessions::key_package::key_package_id;
use mls_sessions::key_package::kp_encode;

fn suites() -> Vec<CipherSuite> {
    vec![CipherSuite::Mls128DhkemX25519Aes128GcmSha256Ed25519]
}

#[test]
fn create_returns_matching_credential() {
    let mut crypto = CryptoProvider::new();
    let c = CredentialManager::create(
        b"Alice".to_vec(),
        CredentialType::Basic,
        SignatureScheme::Ed25519,
        &mut crypto,
    )
    .expect("credential issuance failed");
    assert_eq!(c.identity, b"Alice".to_vec());
    assert!(matches!(c.credential_type, CredentialType::Basic));
    assert!(matches!(c.signature_scheme, SignatureScheme::Ed25519));
    assert_eq!(c.signature_public_key.len(), 32);
}

#[test]
fn create_mints_a_fresh_key_each_call() {
    let mut crypto = CryptoProvider::new();
    let a = CredentialManager::create(
        b"Alice".to_vec(),
        CredentialType::Basic,
        SignatureScheme::Ed25519,
        &mut crypto,
    )
    .unwrap();
    let b = CredentialManager::create(
        b"Alice".to_vec(),
        CredentialType::Basic,
        SignatureScheme::Ed25519,
        &mut crypto,
    )
    .unwrap();
    assert_ne!(a.signature_public_key, b.signature_public_key);
}

#[test]
fn storage_key_exact_encoding() {
    let k = storage_key(&vec![5u8, 6u8]).expect("short key must serialize");
    assert_eq!(k, vec![0u8, 2u8, 5u8, 6u8]);
}

#[test]
fn storage_key_rejects_oversized_key() {
    let r = storage_key(&vec![0u8; 70000]);
    assert_eq!(r, Err(CredentialError::SerializationFailed));
}

#[test]
fn issue_succeeds_for_issued_credential() {
    let mut crypto = CryptoProvider::new();
    let c = CredentialManager::create(
        b"Alice".to_vec(),
        CredentialType::Basic,
        SignatureScheme::Ed25519,
        &mut crypto,
    )
    .unwrap();
    let kp = KeyPackageManager::issue(suites(), &c, &mut crypto)
        .expect("issuance for a stored credential must succeed");
    assert_eq!(kp.credential.identity, c.identity);
    assert_eq!(kp.credential.signature_public_key, c.signature_public_key);
    assert!(kp.extensions.is_empty());
    assert!(!kp.init_public_key.is_empty());
    assert_ne!(kp.init_public_key, c.signature_public_key);
}

#[test]
fn issue_rejects_unknown_credential() {
    let mut crypto = CryptoProvider::new();
    let stranger = Credential {
        identity: b"Mallory".to_vec(),
        credential_type: CredentialType::Basic,
        signature_public_key: vec![1u8, 2u8, 3u8],
        signature_scheme: SignatureScheme::Ed25519,
    };
    let r = KeyPackageManager::issue(suites(), &stranger, &mut crypto);
    assert!(matches!(r, Err(KeyPackageError::CredentialNotFound)));
}

#[test]
fn issue_rejects_forged_identity_under_known_key() {
    let mut crypto = CryptoProvider::new();
    let c = CredentialManager::create(
        b"Alice".to_vec(),
        CredentialType::Basic,
        SignatureScheme::Ed25519,
        &mut crypto,
    )
    .unwrap();
    let forged = Credential {
        identity: b"Mallory".to_vec(),
        credential_type: CredentialType::Basic,
        signature_public_key: c.signature_public_key.clone(),
        signature_scheme: SignatureScheme::Ed25519,
    };
    let r = KeyPackageManager::issue(suites(), &forged, &mut crypto);
    assert!(matches!(r, Err(KeyPackageError::CredentialNotFound)));
}

#[test]
fn issue_rejects_credential_with_oversized_key() {
    let mut crypto = CryptoProvider::new();
    let stranger = Credential {
        identity: b"Mallory".to_vec(),
        credential_type: CredentialType::Basic,
        signature_public_key: vec![0u8; 70000],
        signature_scheme: SignatureScheme::Ed25519,
    };
    let r = KeyPackageManager::issue(suites(), &stranger, &mut crypto);
    assert!(matches!(r, Err(KeyPackageError::CredentialNotFound)));
}

#[test]
fn is_issued_tracks_the_store() {
    let mut crypto = CryptoProvider::new();
    let c = CredentialManager::create(
        b"Alice".to_vec(),
        CredentialType::Basic,
        SignatureScheme::Ed25519,
        &mut crypto,
    )
    .unwrap();
    assert!(mls_sessions::credential::is_issued(&c, &crypto));
    let other_crypto = CryptoProvider::new();
    assert!(!mls_sessions::credential::is_issued(&c, &other_crypto));
}

#[test]
fn create_with_key_stores_the_given_pair() {
    let mut crypto = CryptoProvider::new();
    let c = CredentialManager::create_with_key(
        b"Alice".to_vec(),
        CredentialType::Basic,
        SignatureScheme::Ed25519,
        (vec![1u8, 2u8], vec![3u8, 4u8]),
        &mut crypto,
    );
    assert_eq!(c.identity, b"Alice".to_vec());
    assert_eq!(c.signature_public_key, vec![3u8, 4u8]);
    assert!(mls_sessions::credential::is_issued(&c, &crypto));
    let kp = KeyPackageManager::issue(suites(), &c, &mut crypto).unwrap();
    assert_eq!(kp.credential.signature_public_key, vec![3u8, 4u8]);
}

#[test]
fn issue_with_init_key_uses_the_given_pair() {
    let mut crypto = CryptoProvider::new();
    let c = CredentialManager::create(
        b"Alice".to_vec(),
        CredentialType::Basic,
        SignatureScheme::Ed25519,
        &mut crypto,
    )
    .unwrap();
    let kp = KeyPackageManager::issue_with_init_key(
        suites(),
        &c,
        (vec![9u8], vec![8u8, 7u8]),
        &mut crypto,
    )
    .expect("issuance for a stored credential must succeed");
    assert_eq!(kp.init_public_key, vec![8u8, 7u8]);
    let stranger = Credential {
        identity: b"Mallory".to_vec(),
        credential_type: CredentialType::Basic,
        signature_public_key: vec![1u8],
        signature_scheme: SignatureScheme::Ed25519,
    };
    let r = KeyPackageManager::issue_with_init_key(
        suites(),
        &stranger,
        (vec![9u8], vec![8u8, 7u8]),
        &mut crypto,
    );
    assert!(matches!(r, Err(KeyPackageError::CredentialNotFound)));
}

#[test]
fn key_package_id_is_a_real_digest() {
    let mut crypto = CryptoProvider::new();
    let c = CredentialManager::create(
        b"Alice".to_vec(),
        CredentialType::Basic,
        SignatureScheme::Ed25519,
        &mut crypto,
    )
    .unwrap();
    let kp = KeyPackageManager::issue(suites(), &c, &mut crypto).unwrap();
    let id = key_package_id(&kp, &crypto);
    let encoded = kp_encode(&kp);
    assert_ne!(id, encoded);
    assert_eq!(id.len(), 32);
    let again = key_package_id(&kp, &crypto);
    assert_eq!(id, again);
}
