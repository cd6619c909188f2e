//! The trusted boundary to the cryptographic provider. Everything verified
//! in this crate reaches hashing and key generation only through the
//! wrappers here; their contracts state what the provider's source shows.

use vstd::prelude::*;
use openmls_traits::OpenMlsProvider;
use openmls_traits::crypto::OpenMlsCrypto;
use openmls_traits::random::OpenMlsRand;
use crate::credential::SignatureScheme;
use crate::key_package::CipherSuite;
use crate::store::KeyStore;
use crate::store::StoreError;
use crate::store::StoredValue;
use crate::store::StoredValueView;

verus! {

#[verifier::external_type_specification]
#[verifier::external_body]
pub struct ExOpenMlsRustCrypto(openmls_rust_crypto::OpenMlsRustCrypto);

#[verifier::external_type_specification]
#[verifier::external_body]
pub struct ExCryptoError(openmls_traits::types::CryptoError);

#[verifier::external_type_specification]
#[verifier::external_body]
pub struct ExRandError(openmls_rust_crypto::RandError);

/// What the provider's SHA-256 returns for a byte string. The digest is a
/// function of the input alone, so it carries a name rather than a formula.
pub uninterp spec fn digest_of(data: Seq<u8>) -> Seq<u8>;

/// Relies on `OpenMlsRustCrypto::default`: a fresh provider backend.
#[verifier::external_body]
fn new_backend() -> openmls_rust_crypto::OpenMlsRustCrypto {
    openmls_rust_crypto::OpenMlsRustCrypto::default()
}

/// Relies on `OpenMlsCrypto::hash` of `openmls_rust_crypto`: for SHA-256 it
/// always returns `Ok` with the digest, which depends on the input alone.
#[verifier::external_body]
pub(crate) fn sha256_digest(
    backend: &openmls_rust_crypto::OpenMlsRustCrypto,
    data: &Vec<u8>,
) -> (r: Result<Vec<u8>, openmls_traits::types::CryptoError>)
    ensures
        r is Ok,
        r matches Ok(d) ==> d@ == digest_of(data@),
{
    backend.crypto().hash(openmls_traits::types::HashType::Sha2_256, data.as_slice())
}

/// Relies on `OpenMlsCrypto::signature_key_gen` of `openmls_rust_crypto`:
/// on success the pair is (secret key, public key), the public key 32 bytes
/// for Ed25519 and a 65-byte uncompressed point for ECDSA P-256. It fails
/// only when randomness is unavailable.
#[verifier::external_body]
pub(crate) fn signature_key_gen(
    backend: &openmls_rust_crypto::OpenMlsRustCrypto,
    scheme: SignatureScheme,
) -> (r: Result<(Vec<u8>, Vec<u8>), openmls_traits::types::CryptoError>)
    ensures
        r matches Ok(p) ==> {
            &&& scheme == SignatureScheme::Ed25519 ==> p.1@.len() == 32
            &&& scheme == SignatureScheme::EcdsaSecp256r1Sha256 ==> p.1@.len() == 65
        },
{
    let alg = match scheme {
        SignatureScheme::Ed25519 => openmls_traits::types::SignatureScheme::ED25519,
        SignatureScheme::EcdsaSecp256r1Sha256 =>
            openmls_traits::types::SignatureScheme::ECDSA_SECP256R1_SHA256,
    };
    backend.crypto().signature_key_gen(alg)
}

/// Relies on `OpenMlsRand::random_vec` of `openmls_rust_crypto`: on success
/// the vector has exactly the requested length; its contents are random.
#[verifier::external_body]
pub(crate) fn random_bytes(
    backend: &openmls_rust_crypto::OpenMlsRustCrypto,
    len: usize,
) -> (r: Result<Vec<u8>, openmls_rust_crypto::RandError>)
    ensures
        r matches Ok(v) ==> v@.len() == len,
{
    backend.rand().random_vec(len)
}

/// Relies on `OpenMlsCrypto::derive_hpke_keypair` of `openmls_rust_crypto`
/// with the suite's HPKE configuration: on success the pair is the derived
/// (private, public) encapsulation keys.
#[verifier::external_body]
pub(crate) fn derive_init_keypair(
    backend: &openmls_rust_crypto::OpenMlsRustCrypto,
    suite: CipherSuite,
    ikm: &Vec<u8>,
) -> (r: Result<(Vec<u8>, Vec<u8>), openmls_traits::types::CryptoError>) {
    let config = match suite {
        CipherSuite::Mls128DhkemX25519Aes128GcmSha256Ed25519 => openmls_traits::types::HpkeConfig(
            openmls_traits::types::HpkeKemType::DhKem25519,
            openmls_traits::types::HpkeKdfType::HkdfSha256,
            openmls_traits::types::HpkeAeadType::AesGcm128,
        ),
    };
    let kp = backend.crypto().derive_hpke_keypair(config, ikm.as_slice())?;
    Ok((kp.private.to_vec(), kp.public))
}

/// The capability interface the components consume: the crypto backend and
/// the party's key-value store. Its view is the store's map.
pub struct CryptoProvider {
    backend: openmls_rust_crypto::OpenMlsRustCrypto,
    store: KeyStore,
}

impl View for CryptoProvider {
    type V = Map<Seq<u8>, StoredValueView>;

    closed spec fn view(&self) -> Map<Seq<u8>, StoredValueView> {
        self.store@
    }
}

impl CryptoProvider {
    /// A fresh provider with an empty store.
    pub fn new() -> (p: CryptoProvider)
        ensures
            p@ == Map::<Seq<u8>, StoredValueView>::empty(),
    {
        CryptoProvider { backend: new_backend(), store: KeyStore::new() }
    }

    /// Writes `value` under `key` in the party's store.
    pub fn store_value(&mut self, key: Vec<u8>, value: StoredValue) -> (r: Result<
        (),
        StoreError,
    >)
        ensures
            r is Ok,
            final(self)@ == old(self)@.insert(key@, value@),
    {
        self.store.store(key, value)
    }

    /// Reads the value last written under `key` in the party's store.
    pub fn read_value(&self, key: &Vec<u8>) -> (r: Option<&StoredValue>)
        ensures
            match r {
                Some(v) => self@.contains_key(key@) && v@ == self@[key@],
                None => !self@.contains_key(key@),
            },
    {
        self.store.read(key)
    }

    /// The crypto backend, for the trusted wrappers.
    pub(crate) fn backend(&self) -> &openmls_rust_crypto::OpenMlsRustCrypto {
        &self.backend
    }

    /// The content digest of a byte string, as the provider computes it.
    pub fn digest(&self, data: &Vec<u8>) -> (r: Vec<u8>)
        ensures
            r@ == digest_of(data@),
    {
        match sha256_digest(&self.backend, data) {
            Ok(d) => d,
            Err(_) => {
                proof {
                    assert(false);
                }
                Vec::new()
            },
        }
    }
}

} // verus!
