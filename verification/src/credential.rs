//! Long-term signing identities: credentials, credential bundles, and the
//! storage key under which a bundle is kept in the key-value store.

use vstd::prelude::*;
use crate::codec::bytes_eq;
use crate::codec::copy_bytes;
use crate::crypto::CryptoProvider;
use crate::crypto::signature_key_gen;
use crate::store::StoredValue;
use crate::store::StoredValueView;

verus! {

/// Kinds of credential. Only basic (bare identity) credentials exist here.
#[derive(Clone, Copy, Debug, PartialEq, Eq, Structural)]
pub enum CredentialType {
    Basic,
}

/// Signature schemes a credential's key pair can use.
#[derive(Clone, Copy, Debug, PartialEq, Eq, Structural)]
pub enum SignatureScheme {
    Ed25519,
    EcdsaSecp256r1Sha256,
}

/// Errors of credential issuance.
#[derive(Clone, Copy, Debug, PartialEq, Eq, Structural)]
pub enum CredentialError {
    /// The signature public key has no canonical serialization (it is too
    /// long for the storage-key length prefix).
    SerializationFailed,
    /// A transient provider failure: persistence or randomness was
    /// unavailable. Safe to retry as-is.
    StoreFailed,
}

/// Longest signature public key that still has a canonical storage key.
pub const MAX_KEY_LEN: usize = 0xFFFF;

/// Whether a signature public key can be serialized into a storage key.
pub open spec fn storage_key_ok(pk: Seq<u8>) -> bool {
    pk.len() <= MAX_KEY_LEN
}

/// The storage key derived from a signature public key: a two-byte
/// big-endian length prefix followed by the key bytes.
pub open spec fn storage_key_spec(pk: Seq<u8>) -> Seq<u8> {
    seq![((pk.len() / 256) % 256) as u8, (pk.len() % 256) as u8] + pk
}

/// Derives the storage key for a signature public key, the single place
/// where the key-store key for a credential bundle is computed.
pub fn storage_key(public_key: &Vec<u8>) -> (r: Result<Vec<u8>, CredentialError>)
    ensures
        r is Ok <==> storage_key_ok(public_key@),
        r matches Ok(k) ==> k@ == storage_key_spec(public_key@),
        r matches Err(e) ==> e == CredentialError::SerializationFailed,
{
    let len = public_key.len();
    if len > MAX_KEY_LEN {
        return Err(CredentialError::SerializationFailed);
    }
    let mut k: Vec<u8> = Vec::new();
    k.push(((len / 256) % 256) as u8);
    k.push((len % 256) as u8);
    let mut i: usize = 0;
    while i < len
        invariant
            i <= len,
            len == public_key@.len(),
            k@.len() == 2 + i,
            k@ == seq![
                ((public_key@.len() / 256) % 256) as u8,
                (public_key@.len() % 256) as u8,
            ] + public_key@.take(i as int),
        decreases len - i,
    {
        k.push(public_key[i]);
        i = i + 1;
        proof {
            assert(k@ =~= seq![
                ((public_key@.len() / 256) % 256) as u8,
                (public_key@.len() % 256) as u8,
            ] + public_key@.take(i as int));
        }
    }
    proof {
        assert(public_key@.take(len as int) =~= public_key@);
        assert(k@ =~= storage_key_spec(public_key@));
    }
    Ok(k)
}

/// Mathematical model of a credential.
#[verifier::ext_equal]
pub ghost struct CredentialView {
    pub identity: Seq<u8>,
    pub credential_type: CredentialType,
    pub signature_public_key: Seq<u8>,
    pub signature_scheme: SignatureScheme,
}

/// A long-term identity: an identity name bound to a signing public key.
/// Immutable once issued. Uniqueness of the identity name is not enforced
/// at this layer.
pub struct Credential {
    pub identity: Vec<u8>,
    pub credential_type: CredentialType,
    pub signature_public_key: Vec<u8>,
    pub signature_scheme: SignatureScheme,
}

impl View for Credential {
    type V = CredentialView;

    open spec fn view(&self) -> CredentialView {
        CredentialView {
            identity: self.identity@,
            credential_type: self.credential_type,
            signature_public_key: self.signature_public_key@,
            signature_scheme: self.signature_scheme,
        }
    }
}

impl Credential {
    /// Returns a fresh credential equal to this one.
    pub fn duplicate(&self) -> (r: Credential)
        ensures
            r@ == self@,
    {
        let r = Credential {
            identity: copy_bytes(&self.identity),
            credential_type: self.credential_type,
            signature_public_key: copy_bytes(&self.signature_public_key),
            signature_scheme: self.signature_scheme,
        };
        proof {
            assert(r@ =~= self@);
        }
        r
    }
}

/// Compares two credentials field by field.
pub fn credential_eq(a: &Credential, b: &Credential) -> (r: bool)
    ensures
        r == (a@ == b@),
{
    let r = bytes_eq(&a.identity, &b.identity) && a.credential_type == b.credential_type
        && bytes_eq(&a.signature_public_key, &b.signature_public_key)
        && a.signature_scheme == b.signature_scheme;
    proof {
        if r {
            assert(a@ =~= b@);
        }
    }
    r
}

/// Opaque handle to secret key material. The bytes inside are owned by the
/// key store and are never read back out by this crate: operations needing
/// the secret go through the crypto provider.
pub struct SecretHandle {
    bytes: Vec<u8>,
}

impl View for SecretHandle {
    type V = Seq<u8>;

    closed spec fn view(&self) -> Seq<u8> {
        self.bytes@
    }
}

impl SecretHandle {
    /// Wraps freshly generated secret key bytes into a handle.
    pub(crate) fn new(bytes: Vec<u8>) -> (r: SecretHandle)
        ensures
            r@ == bytes@,
    {
        SecretHandle { bytes }
    }
}

/// Mathematical model of a credential bundle.
#[verifier::ext_equal]
pub ghost struct CredentialBundleView {
    pub credential: CredentialView,
    pub signing_secret: Seq<u8>,
}

/// A credential together with the handle to its signing secret; the bundle
/// lives in the key-value store under the credential's storage key.
pub struct CredentialBundle {
    pub credential: Credential,
    pub signing_secret: SecretHandle,
}

impl View for CredentialBundle {
    type V = CredentialBundleView;

    open spec fn view(&self) -> CredentialBundleView {
        CredentialBundleView { credential: self.credential@, signing_secret: self.signing_secret@ }
    }
}

/// Whether the store holds, under the storage key of `c`'s public key, a
/// credential bundle whose credential is exactly `c`.
pub open spec fn credential_issued(s: Map<Seq<u8>, StoredValueView>, c: CredentialView) -> bool {
    &&& storage_key_ok(c.signature_public_key)
    &&& s.contains_key(storage_key_spec(c.signature_public_key))
    &&& s[storage_key_spec(c.signature_public_key)] matches StoredValueView::Credential(b)
        && b.credential == c
}

/// Whether the store behind `crypto` holds a credential bundle for
/// exactly this credential.
pub fn is_issued(credential: &Credential, crypto: &CryptoProvider) -> (r: bool)
    ensures
        r == credential_issued(crypto@, credential@),
{
    let key = match storage_key(&credential.signature_public_key) {
        Ok(k) => k,
        Err(_) => {
            return false;
        },
    };
    match crypto.read_value(&key) {
        Some(v) => match v {
            StoredValue::Credential(b) => credential_eq(&b.credential, credential),
            StoredValue::KeyPackage(_) => false,
        },
        None => false,
    }
}

/// Issues and stores long-term signing identities.
pub struct CredentialManager {}

impl CredentialManager {
    /// The deterministic part of issuance: given an already generated
    /// (secret, public) signing key pair, builds the credential, stores
    /// the bundle under the serialized public key, and returns the public
    /// credential. Never fails.
    pub fn create_with_key(
        identity: Vec<u8>,
        credential_type: CredentialType,
        signature_scheme: SignatureScheme,
        signing_key: (Vec<u8>, Vec<u8>),
        crypto: &mut CryptoProvider,
    ) -> (c: Credential)
        requires
            storage_key_ok(signing_key.1@),
        ensures
            c@ == (CredentialView {
                identity: identity@,
                credential_type: credential_type,
                signature_public_key: signing_key.1@,
                signature_scheme: signature_scheme,
            }),
            credential_issued(final(crypto)@, c@),
            final(crypto)@ == old(crypto)@.insert(
                storage_key_spec(signing_key.1@),
                StoredValueView::Credential(
                    CredentialBundleView { credential: c@, signing_secret: signing_key.0@ },
                ),
            ),
    {
        let (sk, pk) = signing_key;
        let key = match storage_key(&pk) {
            Ok(k) => k,
            Err(_) => {
                proof {
                    assert(false);
                }
                Vec::new()
            },
        };
        let credential = Credential {
            identity,
            credential_type,
            signature_public_key: pk,
            signature_scheme,
        };
        let bundle = CredentialBundle {
            credential: credential.duplicate(),
            signing_secret: SecretHandle::new(sk),
        };
        let _ = crypto.store_value(key, StoredValue::Credential(bundle));
        proof {
            assert(credential@ =~= (CredentialView {
                identity: identity@,
                credential_type: credential_type,
                signature_public_key: credential@.signature_public_key,
                signature_scheme: signature_scheme,
            }));
        }
        credential
    }
    /// Issues a fresh credential: generates a signing key pair through the
    /// provider, stores the bundle under the serialized public key, and
    /// returns the public credential. The signing secret stays in the
    /// store. Failures of the provider's randomness surface as the
    /// transient `StoreFailed` and leave the store unchanged.
    pub fn create(
        identity: Vec<u8>,
        credential_type: CredentialType,
        signature_scheme: SignatureScheme,
        crypto: &mut CryptoProvider,
    ) -> (r: Result<Credential, CredentialError>)
        ensures
            r matches Err(e) ==> e == CredentialError::StoreFailed && final(crypto)@ == old(
                crypto,
            )@,
            r matches Ok(c) ==> {
                &&& c@.identity == identity@
                &&& c@.credential_type == credential_type
                &&& c@.signature_scheme == signature_scheme
                &&& storage_key_ok(c@.signature_public_key)
                &&& credential_issued(final(crypto)@, c@)
                &&& exists|sk: Seq<u8>|
                    final(crypto)@ == old(crypto)@.insert(
                        storage_key_spec(c@.signature_public_key),
                        StoredValueView::Credential(
                            CredentialBundleView { credential: c@, signing_secret: sk },
                        ),
                    )
            },
    {
        let pair = match signature_key_gen(crypto.backend(), signature_scheme) {
            Ok(p) => p,
            Err(_) => {
                return Err(CredentialError::StoreFailed);
            },
        };
        let credential = Self::create_with_key(
            identity,
            credential_type,
            signature_scheme,
            pair,
            crypto,
        );
        Ok(credential)
    }
}

} // verus!
