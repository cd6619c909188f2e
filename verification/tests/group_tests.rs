use mls_sessions::authorization::AuthorizedKeySet;
use mls_sessions::credential::Credential;
use mls_sessions::credential::CredentialManager;
use mls_sessions::credential::CredentialType;
use mls_sessions::credential::SignatureScheme;
use mls_sessions::crypto::CryptoProvider;
use mls_sessions::group::Group;
use mls_sessions::group::GroupConfig;
use mls_sessions::group::GroupError;
use mls_sessions::key_package::CipherSuite;
use mls_sessions::key_package::KeyPackage;
use mls_sessions::key_package::KeyPackageManager;
use mls_sessions::key_package::key_package_id;

fn suites() -> Vec<CipherSuite> {
    vec![CipherSuite::Mls128DhkemX25519Aes128GcmSha256Ed25519]
}

fn issue_member(name: &[u8], crypto: &mut CryptoProvider) -> (Credential, KeyPackage) {
    let c = CredentialManager::create(
        name.to_vec(),
        CredentialType::Basic,
        SignatureScheme::Ed25519,
        crypto,
    )
    .expect("credential issuance failed");
    let kp = KeyPackageManager::issue(suites(), &c, crypto).expect("key package issuance failed");
    (c, kp)
}

#[test]
fn create_starts_at_epoch_zero() {
    let mut crypto = CryptoProvider::new();
    let (_c, kp) = issue_member(b"Alice", &mut crypto);
    let g = Group::create(b"teams-123".to_vec(), kp, &crypto, &GroupConfig::default())
        .expect("group creation failed");
    assert_eq!(g.epoch, 0);
    assert_eq!(g.members.len(), 1);
    assert!(g.pending_commit.is_none());
    assert_eq!(g.group_id, b"teams-123".to_vec());
}

#[test]
fn merge_without_pending_commit_fails_and_changes_nothing() {
    let mut crypto = CryptoProvider::new();
    let (_c, kp) = issue_member(b"Alice", &mut crypto);
    let mut g = Group::create(b"g".to_vec(), kp, &crypto, &GroupConfig::default()).unwrap();
    let r = g.merge_pending_commit();
    assert!(matches!(r, Err(GroupError::NoPendingCommit)));
    assert_eq!(g.epoch, 0);
    assert_eq!(g.members.len(), 1);
    assert!(g.pending_commit.is_none());
}

#[test]
fn propose_with_no_packages_fails() {
    let mut crypto = CryptoProvider::new();
    let (_c, kp) = issue_member(b"Alice", &mut crypto);
    let mut g = Group::create(b"g".to_vec(), kp, &crypto, &GroupConfig::default()).unwrap();
    let r = g.propose_add_members(Vec::new(), &crypto);
    assert!(matches!(r, Err(GroupError::EmptyProposal)));
    assert!(g.pending_commit.is_none());
}

#[test]
fn propose_duplicate_identity_fails_and_changes_nothing() {
    let mut crypto = CryptoProvider::new();
    let (_c, alice_kp) = issue_member(b"Alice", &mut crypto);
    let (_c2, second_alice_kp) = issue_member(b"Alice", &mut crypto);
    let mut g =
        Group::create(b"g".to_vec(), alice_kp, &crypto, &GroupConfig::default()).unwrap();
    let r = g.propose_add_members(vec![second_alice_kp], &crypto);
    assert!(matches!(r, Err(GroupError::DuplicateMember)));
    assert_eq!(g.epoch, 0);
    assert_eq!(g.members.len(), 1);
    assert!(g.pending_commit.is_none());
}

#[test]
fn propose_then_merge_advances_epoch_by_one() {
    let mut crypto = CryptoProvider::new();
    let (_a, alice_kp) = issue_member(b"Alice", &mut crypto);
    let (_b, bob_kp) = issue_member(b"Bob", &mut crypto);
    let mut g =
        Group::create(b"g".to_vec(), alice_kp, &crypto, &GroupConfig::default()).unwrap();
    let (handshake, welcome) = g
        .propose_add_members(vec![bob_kp], &crypto)
        .expect("proposal failed");
    assert_eq!(g.epoch, 0);
    assert!(g.pending_commit.is_some());
    assert_eq!(handshake.epoch, 0);
    assert_eq!(welcome.epoch_after, 1);
    assert_eq!(welcome.recipient_ids.len(), 1);
    g.merge_pending_commit().expect("merge failed");
    assert_eq!(g.epoch, 1);
    assert_eq!(g.members.len(), 2);
    assert!(g.pending_commit.is_none());
    let again = g.merge_pending_commit();
    assert!(matches!(again, Err(GroupError::NoPendingCommit)));
    assert_eq!(g.epoch, 1);
}

#[test]
fn members_are_appended_in_proposal_order() {
    let mut crypto = CryptoProvider::new();
    let (_a, alice_kp) = issue_member(b"Alice", &mut crypto);
    let (_b, bob_kp) = issue_member(b"Bob", &mut crypto);
    let (_c, carol_kp) = issue_member(b"Carol", &mut crypto);
    let mut g =
        Group::create(b"g".to_vec(), alice_kp, &crypto, &GroupConfig::default()).unwrap();
    g.propose_add_members(vec![bob_kp, carol_kp], &crypto).unwrap();
    g.merge_pending_commit().unwrap();
    assert_eq!(g.members.len(), 3);
    assert_eq!(g.members[0].credential.identity, b"Alice".to_vec());
    assert_eq!(g.members[1].credential.identity, b"Bob".to_vec());
    assert_eq!(g.members[2].credential.identity, b"Carol".to_vec());
}

#[test]
fn bob_converges_with_alice_after_welcome() {
    let mut alice_crypto = CryptoProvider::new();
    let mut bob_crypto = CryptoProvider::new();
    let (_a, alice_kp) = issue_member(b"Alice", &mut alice_crypto);
    let (_b, bob_kp) = issue_member(b"Bob", &mut bob_crypto);
    let cfg = GroupConfig::default();
    let mut alice_group =
        Group::create(b"teams-123".to_vec(), alice_kp, &alice_crypto, &cfg).unwrap();
    let (_handshake, welcome) = alice_group
        .propose_add_members(vec![bob_kp], &alice_crypto)
        .expect("proposal failed");
    alice_group.merge_pending_commit().expect("merge failed");
    let tree = alice_group.export_tree();
    let bob_group = Group::join_from_welcome(&welcome, tree, &bob_crypto, &cfg)
        .expect("join from welcome failed");
    assert_eq!(bob_group.epoch, alice_group.epoch);
    assert_eq!(bob_group.group_id, alice_group.group_id);
    assert_eq!(bob_group.members.len(), alice_group.members.len());
    for (theirs, ours) in alice_group.members.iter().zip(bob_group.members.iter()) {
        assert_eq!(
            key_package_id(theirs, &alice_crypto),
            key_package_id(ours, &bob_crypto)
        );
    }
    assert!(bob_group.pending_commit.is_none());
}

#[test]
fn unauthorized_add_is_rejected_before_any_state_change() {
    let mut alice_crypto = CryptoProvider::new();
    let mut bob_crypto = CryptoProvider::new();
    let (alice_cred, alice_kp) = issue_member(b"Alice", &mut alice_crypto);
    let (_b, bob_kp) = issue_member(b"Bob", &mut bob_crypto);
    let mut gate = AuthorizedKeySet::new();
    gate.authorize(alice_cred.signature_public_key.clone());
    let mut g =
        Group::create(b"g".to_vec(), alice_kp, &alice_crypto, &GroupConfig::default()).unwrap();
    let r = g.add_authorized_members(vec![bob_kp], &gate, &alice_crypto);
    assert!(matches!(r, Err(GroupError::Unauthorized)));
    assert_eq!(g.epoch, 0);
    assert!(g.pending_commit.is_none());
    assert_eq!(g.members.len(), 1);
}

#[test]
fn authorized_add_goes_through() {
    let mut alice_crypto = CryptoProvider::new();
    let mut bob_crypto = CryptoProvider::new();
    let (_a, alice_kp) = issue_member(b"Alice", &mut alice_crypto);
    let (bob_cred, bob_kp) = issue_member(b"Bob", &mut bob_crypto);
    let mut gate = AuthorizedKeySet::new();
    gate.authorize(bob_cred.signature_public_key.clone());
    let mut g =
        Group::create(b"g".to_vec(), alice_kp, &alice_crypto, &GroupConfig::default()).unwrap();
    g.add_authorized_members(vec![bob_kp], &gate, &alice_crypto)
        .expect("authorized add failed");
    g.merge_pending_commit().unwrap();
    assert_eq!(g.epoch, 1);
    assert_eq!(g.members.len(), 2);
}

#[test]
fn join_with_wrong_tree_is_a_tree_mismatch() {
    let mut alice_crypto = CryptoProvider::new();
    let mut bob_crypto = CryptoProvider::new();
    let (_a, alice_kp) = issue_member(b"Alice", &mut alice_crypto);
    let (_b, bob_kp) = issue_member(b"Bob", &mut bob_crypto);
    let cfg = GroupConfig::default();
    let mut alice_group = Group::create(b"g".to_vec(), alice_kp, &alice_crypto, &cfg).unwrap();
    let (_h, welcome) = alice_group
        .propose_add_members(vec![bob_kp], &alice_crypto)
        .unwrap();
    let stale_tree = alice_group.export_tree();
    alice_group.merge_pending_commit().unwrap();
    let r = Group::join_from_welcome(&welcome, stale_tree, &bob_crypto, &cfg);
    assert!(matches!(r, Err(GroupError::TreeMismatch)));
}

#[test]
fn join_without_init_secret_is_a_malformed_welcome() {
    let mut alice_crypto = CryptoProvider::new();
    let mut bob_crypto = CryptoProvider::new();
    let (_a, alice_kp) = issue_member(b"Alice", &mut alice_crypto);
    let (_b, bob_kp) = issue_member(b"Bob", &mut bob_crypto);
    let cfg = GroupConfig::default();
    let mut alice_group = Group::create(b"g".to_vec(), alice_kp, &alice_crypto, &cfg).unwrap();
    let (_h, welcome) = alice_group
        .propose_add_members(vec![bob_kp], &alice_crypto)
        .unwrap();
    alice_group.merge_pending_commit().unwrap();
    let tree = alice_group.export_tree();
    let eavesdropper_crypto = CryptoProvider::new();
    let r = Group::join_from_welcome(&welcome, tree, &eavesdropper_crypto, &cfg);
    assert!(matches!(r, Err(GroupError::MalformedWelcome)));
}
