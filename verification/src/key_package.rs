//! Ephemeral handshake-initiation bundles: key packages bound to a
//! credential and cipher suite, and their canonical byte encoding, over
//! which the identifying content hash is computed.

use vstd::prelude::*;
use crate::codec::copy_bytes;
use crate::codec::enc_bytes_spec;
use crate::codec::push_enc_bytes;
use crate::codec::push_u64_be;
use crate::codec::u64_be_spec;
use crate::credential::Credential;
use crate::credential::CredentialView;
use crate::credential::SecretHandle;
use crate::credential::credential_issued;
use crate::crypto::CryptoProvider;
use crate::crypto::derive_init_keypair;
use crate::crypto::digest_of;
use crate::crypto::random_bytes;
use crate::store::StoredValue;
use crate::store::StoredValueView;

verus! {

/// Cipher suites the provider supports.
#[derive(Clone, Copy, Debug, PartialEq, Eq, Structural)]
pub enum CipherSuite {
    Mls128DhkemX25519Aes128GcmSha256Ed25519,
}

/// Errors of key-package issuance.
#[derive(Clone, Copy, Debug, PartialEq, Eq, Structural)]
pub enum KeyPackageError {
    /// No credential bundle for the given credential is in the store.
    CredentialNotFound,
    /// The content hash of the key package could not be computed.
    HashFailed,
    /// A transient provider failure: persistence or randomness was
    /// unavailable. Safe to retry as-is.
    StoreFailed,
}

/// Mathematical model of a key package.
#[verifier::ext_equal]
pub ghost struct KeyPackageView {
    pub ciphersuites: Seq<CipherSuite>,
    pub credential: CredentialView,
    pub init_public_key: Seq<u8>,
    pub extensions: Seq<Seq<u8>>,
}

/// An ephemeral, one-time-use bundle another party uses to initiate a
/// handshake. Immutable once issued; identified by the content hash of its
/// canonical encoding.
pub struct KeyPackage {
    pub ciphersuites: Vec<CipherSuite>,
    pub credential: Credential,
    pub init_public_key: Vec<u8>,
    pub extensions: Vec<Vec<u8>>,
}

impl View for KeyPackage {
    type V = KeyPackageView;

    open spec fn view(&self) -> KeyPackageView {
        KeyPackageView {
            ciphersuites: self.ciphersuites@,
            credential: self.credential@,
            init_public_key: self.init_public_key@,
            extensions: self.extensions@.map_values(|e: Vec<u8>| e@),
        }
    }
}

impl KeyPackage {
    /// Returns a fresh key package equal to this one.
    pub fn duplicate(&self) -> (r: KeyPackage)
        ensures
            r@ == self@,
    {
        let mut suites: Vec<CipherSuite> = Vec::new();
        let mut i: usize = 0;
        while i < self.ciphersuites.len()
            invariant
                i <= self.ciphersuites@.len(),
                suites@ == self.ciphersuites@.take(i as int),
            decreases self.ciphersuites@.len() - i,
        {
            suites.push(self.ciphersuites[i]);
            i = i + 1;
            proof {
                assert(suites@ =~= self.ciphersuites@.take(i as int));
            }
        }
        let mut exts: Vec<Vec<u8>> = Vec::new();
        let mut j: usize = 0;
        while j < self.extensions.len()
            invariant
                j <= self.extensions@.len(),
                exts@.len() == j,
                forall|l: int| 0 <= l < j ==> exts@[l]@ == self.extensions@[l]@,
            decreases self.extensions@.len() - j,
        {
            exts.push(copy_bytes(&self.extensions[j]));
            j = j + 1;
        }
        let r = KeyPackage {
            ciphersuites: suites,
            credential: self.credential.duplicate(),
            init_public_key: copy_bytes(&self.init_public_key),
            extensions: exts,
        };
        proof {
            assert(self.ciphersuites@.take(self.ciphersuites@.len() as int)
                =~= self.ciphersuites@);
            assert(r@.extensions =~= self@.extensions);
            assert(r@ =~= self@);
        }
        r
    }
}

/// One-byte tag of a cipher suite in the canonical encoding.
pub open spec fn suite_tag_spec(s: CipherSuite) -> u8 {
    match s {
        CipherSuite::Mls128DhkemX25519Aes128GcmSha256Ed25519 => 1u8,
    }
}

/// One-byte tag of a credential type in the canonical encoding.
pub open spec fn credential_type_tag_spec(t: crate::credential::CredentialType) -> u8 {
    match t {
        crate::credential::CredentialType::Basic => 1u8,
    }
}

/// One-byte tag of a signature scheme in the canonical encoding.
pub open spec fn scheme_tag_spec(s: crate::credential::SignatureScheme) -> u8 {
    match s {
        crate::credential::SignatureScheme::Ed25519 => 1u8,
        crate::credential::SignatureScheme::EcdsaSecp256r1Sha256 => 2u8,
    }
}

/// Encoding of a cipher-suite list: one tag byte per suite.
pub open spec fn suites_enc_spec(ss: Seq<CipherSuite>) -> Seq<u8>
    decreases ss.len(),
{
    if ss.len() == 0 {
        Seq::empty()
    } else {
        suites_enc_spec(ss.drop_last()).push(suite_tag_spec(ss.last()))
    }
}

/// Encoding of a list of extension blobs: each one length-prefixed.
pub open spec fn blobs_enc_spec(bs: Seq<Seq<u8>>) -> Seq<u8>
    decreases bs.len(),
{
    if bs.len() == 0 {
        Seq::empty()
    } else {
        blobs_enc_spec(bs.drop_last()) + enc_bytes_spec(bs.last())
    }
}

/// Canonical encoding of a key package: counted cipher-suite tags, the
/// credential fields, the init public key, and the counted extension blobs.
pub open spec fn kp_encode_spec(kp: KeyPackageView) -> Seq<u8> {
    u64_be_spec(kp.ciphersuites.len() as u64) + suites_enc_spec(kp.ciphersuites)
        + enc_bytes_spec(kp.credential.identity)
        + seq![credential_type_tag_spec(kp.credential.credential_type)]
        + enc_bytes_spec(kp.credential.signature_public_key)
        + seq![scheme_tag_spec(kp.credential.signature_scheme)]
        + enc_bytes_spec(kp.init_public_key) + u64_be_spec(kp.extensions.len() as u64)
        + blobs_enc_spec(kp.extensions)
}

/// The tag byte of a cipher suite.
pub fn suite_tag(s: CipherSuite) -> (r: u8)
    ensures
        r == suite_tag_spec(s),
{
    match s {
        CipherSuite::Mls128DhkemX25519Aes128GcmSha256Ed25519 => 1u8,
    }
}

/// Serializes a key package into its canonical encoding.
pub fn kp_encode(kp: &KeyPackage) -> (r: Vec<u8>)
    ensures
        r@ == kp_encode_spec(kp@),
{
    let mut out: Vec<u8> = Vec::new();
    push_u64_be(&mut out, kp.ciphersuites.len() as u64);
    let ghost pre_suites = out@;
    let mut i: usize = 0;
    while i < kp.ciphersuites.len()
        invariant
            i <= kp.ciphersuites@.len(),
            out@ == pre_suites + suites_enc_spec(kp.ciphersuites@.take(i as int)),
        decreases kp.ciphersuites@.len() - i,
    {
        out.push(suite_tag(kp.ciphersuites[i]));
        i = i + 1;
        proof {
            assert(kp.ciphersuites@.take(i as int).drop_last()
                =~= kp.ciphersuites@.take(i - 1));
            assert(out@ =~= pre_suites + suites_enc_spec(kp.ciphersuites@.take(i as int)));
        }
    }
    proof {
        assert(kp.ciphersuites@.take(kp.ciphersuites@.len() as int) =~= kp.ciphersuites@);
    }
    push_enc_bytes(&mut out, &kp.credential.identity);
    match kp.credential.credential_type {
        crate::credential::CredentialType::Basic => out.push(1u8),
    }
    push_enc_bytes(&mut out, &kp.credential.signature_public_key);
    match kp.credential.signature_scheme {
        crate::credential::SignatureScheme::Ed25519 => out.push(1u8),
        crate::credential::SignatureScheme::EcdsaSecp256r1Sha256 => out.push(2u8),
    }
    push_enc_bytes(&mut out, &kp.init_public_key);
    push_u64_be(&mut out, kp.extensions.len() as u64);
    let ghost pre_blobs = out@;
    let ghost ext_views = kp.extensions@.map_values(|e: Vec<u8>| e@);
    let mut j: usize = 0;
    while j < kp.extensions.len()
        invariant
            j <= kp.extensions@.len(),
            ext_views == kp.extensions@.map_values(|e: Vec<u8>| e@),
            out@ == pre_blobs + blobs_enc_spec(ext_views.take(j as int)),
        decreases kp.extensions@.len() - j,
    {
        push_enc_bytes(&mut out, &kp.extensions[j]);
        j = j + 1;
        proof {
            assert(ext_views.take(j as int).drop_last() =~= ext_views.take(j - 1));
            assert(out@ =~= pre_blobs + blobs_enc_spec(ext_views.take(j as int)));
        }
    }
    proof {
        assert(ext_views.take(kp.extensions@.len() as int) =~= ext_views);
        assert(out@ =~= kp_encode_spec(kp@));
    }
    out
}

/// Mathematical model of a key-package bundle.
#[verifier::ext_equal]
pub ghost struct KeyPackageBundleView {
    pub key_package: KeyPackageView,
    pub init_secret: Seq<u8>,
}

/// A key package together with the handle to its init secret; the bundle
/// lives in the key-value store under the package's content hash.
pub struct KeyPackageBundle {
    pub key_package: KeyPackage,
    pub init_secret: SecretHandle,
}

impl View for KeyPackageBundle {
    type V = KeyPackageBundleView;

    open spec fn view(&self) -> KeyPackageBundleView {
        KeyPackageBundleView {
            key_package: self.key_package@,
            init_secret: self.init_secret@,
        }
    }
}

/// The views of a sequence of key packages.
pub open spec fn kps_views(s: Seq<KeyPackage>) -> Seq<KeyPackageView> {
    s.map_values(|kp: KeyPackage| kp@)
}

/// The content hash identifying a key package: the digest of its canonical
/// encoding.
pub open spec fn kp_id_spec(kp: KeyPackageView) -> Seq<u8> {
    digest_of(kp_encode_spec(kp))
}

/// Whether the store holds, under the content hash of `kp`, a key-package
/// bundle whose key package is exactly `kp`.
pub open spec fn key_package_stored(
    s: Map<Seq<u8>, StoredValueView>,
    kp: KeyPackageView,
) -> bool {
    &&& s.contains_key(kp_id_spec(kp))
    &&& s[kp_id_spec(kp)] matches StoredValueView::KeyPackage(b) && b.key_package == kp
}

/// The content hash of a key package, as the provider computes it.
pub fn key_package_id(kp: &KeyPackage, crypto: &CryptoProvider) -> (r: Vec<u8>)
    ensures
        r@ == kp_id_spec(kp@),
{
    let encoded = kp_encode(kp);
    crypto.digest(&encoded)
}

/// Issues ephemeral handshake bundles bound to a stored credential.
pub struct KeyPackageManager {}

impl KeyPackageManager {
    /// The deterministic part of issuance: given an already derived
    /// (secret, public) init key pair, looks the credential bundle up
    /// under its storage key, stores the key-package bundle under the
    /// package's content hash, and returns the public key package.
    /// Exactly the credentials previously placed in this store are
    /// accepted; any other is refused with `CredentialNotFound`.
    pub fn issue_with_init_key(
        ciphersuites: Vec<CipherSuite>,
        credential: &Credential,
        init_key: (Vec<u8>, Vec<u8>),
        crypto: &mut CryptoProvider,
    ) -> (r: Result<KeyPackage, KeyPackageError>)
        ensures
            r is Ok <==> credential_issued(old(crypto)@, credential@),
            r matches Err(e) ==> e == KeyPackageError::CredentialNotFound && final(crypto)@
                == old(crypto)@,
            r matches Ok(kp) ==> {
                &&& kp@ == (KeyPackageView {
                    ciphersuites: ciphersuites@,
                    credential: credential@,
                    init_public_key: init_key.1@,
                    extensions: Seq::<Seq<u8>>::empty(),
                })
                &&& key_package_stored(final(crypto)@, kp@)
                &&& final(crypto)@ == old(crypto)@.insert(
                    kp_id_spec(kp@),
                    StoredValueView::KeyPackage(
                        KeyPackageBundleView { key_package: kp@, init_secret: init_key.0@ },
                    ),
                )
            },
    {
        if !crate::credential::is_issued(credential, crypto) {
            return Err(KeyPackageError::CredentialNotFound);
        }
        let (init_sk, init_pk) = init_key;
        let kp = KeyPackage {
            ciphersuites,
            credential: credential.duplicate(),
            init_public_key: init_pk,
            extensions: Vec::new(),
        };
        let id = key_package_id(&kp, crypto);
        let bundle = KeyPackageBundle {
            key_package: kp.duplicate(),
            init_secret: SecretHandle::new(init_sk),
        };
        let _ = crypto.store_value(id, StoredValue::KeyPackage(bundle));
        proof {
            assert(kp@ =~= (KeyPackageView {
                ciphersuites: ciphersuites@,
                credential: credential@,
                init_public_key: kp@.init_public_key,
                extensions: Seq::<Seq<u8>>::empty(),
            }));
        }
        Ok(kp)
    }

    /// Issues a fresh key package for `credential`: derives a fresh init
    /// key pair through the provider and hands it to
    /// `issue_with_init_key`. Failures of the provider's randomness
    /// surface as the transient `StoreFailed` and leave the store
    /// unchanged.
    pub fn issue(
        ciphersuites: Vec<CipherSuite>,
        credential: &Credential,
        crypto: &mut CryptoProvider,
    ) -> (r: Result<KeyPackage, KeyPackageError>)
        ensures
            r matches Err(e) ==> final(crypto)@ == old(crypto)@ && (e
                == KeyPackageError::CredentialNotFound || e == KeyPackageError::StoreFailed),
            (r matches Err(e) && e == KeyPackageError::CredentialNotFound) <==> !credential_issued(
                old(crypto)@,
                credential@,
            ),
            r matches Ok(kp) ==> {
                &&& credential_issued(old(crypto)@, credential@)
                &&& kp@.ciphersuites == ciphersuites@
                &&& kp@.credential == credential@
                &&& kp@.extensions == Seq::<Seq<u8>>::empty()
                &&& key_package_stored(final(crypto)@, kp@)
                &&& exists|init_sk: Seq<u8>|
                    final(crypto)@ == old(crypto)@.insert(
                        kp_id_spec(kp@),
                        StoredValueView::KeyPackage(
                            KeyPackageBundleView { key_package: kp@, init_secret: init_sk },
                        ),
                    )
            },
    {
        if !crate::credential::is_issued(credential, crypto) {
            return Err(KeyPackageError::CredentialNotFound);
        }
        let ikm = match random_bytes(crypto.backend(), 32) {
            Ok(v) => v,
            Err(_) => {
                return Err(KeyPackageError::StoreFailed);
            },
        };
        let init_key = match derive_init_keypair(
            crypto.backend(),
            CipherSuite::Mls128DhkemX25519Aes128GcmSha256Ed25519,
            &ikm,
        ) {
            Ok(p) => p,
            Err(_) => {
                return Err(KeyPackageError::StoreFailed);
            },
        };
        let r = Self::issue_with_init_key(ciphersuites, credential, init_key, crypto);
        proof {
            assert(r is Ok);
        }
        r
    }
}

} // verus!
