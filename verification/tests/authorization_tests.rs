use mls_sessions::authorization::AuthorizedKeySet;
use mls_sessions::authorization::extract_identity;
use mls_sessions::credential::CredentialManager;
use mls_sessions::credential::CredentialType;
use mls_sessions::credential::SignatureScheme;
use mls_sessions::crypto::CryptoProvider;
use mls_sessions::key_package::CipherSuite;
use mls_sessions::key_package::KeyPackageManager;

#[test]
fn empty_set_authorizes_nothing() {
    let set = AuthorizedKeySet::new();
    assert_eq!(set.len(), 0);
    assert!(!set.is_authorized(&vec![1u8, 2u8, 3u8]));
}

#[test]
fn authorized_only_after_authorize() {
    let mut set = AuthorizedKeySet::new();
    let key = vec![9u8, 9u8];
    let before = set.is_authorized(&key);
    set.authorize(key.clone());
    let after = set.is_authorized(&key);
    assert!(!before);
    assert!(after);
}

#[test]
fn authorizing_one_key_does_not_authorize_another() {
    let mut set = AuthorizedKeySet::new();
    set.authorize(vec![1u8]);
    assert!(set.is_authorized(&vec![1u8]));
    assert!(!set.is_authorized(&vec![2u8]));
}

#[test]
fn authorize_keeps_set_semantics() {
    let mut set = AuthorizedKeySet::new();
    set.authorize(vec![1u8]);
    set.authorize(vec![1u8]);
    set.authorize(vec![2u8]);
    assert_eq!(set.len(), 2);
    assert!(set.is_authorized(&vec![1u8]));
    assert!(set.is_authorized(&vec![2u8]));
}

#[test]
fn extract_identity_returns_the_credential_key() {
    let mut crypto = CryptoProvider::new();
    let c = CredentialManager::create(
        b"Alice".to_vec(),
        CredentialType::Basic,
        SignatureScheme::Ed25519,
        &mut crypto,
    )
    .unwrap();
    let kp = KeyPackageManager::issue(
        vec![CipherSuite::Mls128DhkemX25519Aes128GcmSha256Ed25519],
        &c,
        &mut crypto,
    )
    .unwrap();
    let pk = extract_identity(&kp);
    assert_eq!(pk, kp.credential.signature_public_key);
    assert_eq!(pk, c.signature_public_key);
}
