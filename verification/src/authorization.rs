//! The authorization gate: an insertion-ordered allow-list of signature
//! public keys, consulted before a key package may enter the add-member
//! path.

use vstd::prelude::*;
use crate::codec::bytes_eq;
use crate::codec::copy_bytes;
use crate::key_package::KeyPackage;

verus! {

/// What `authorize` leaves behind: the key is appended unless it is
/// already present, so the list stays duplicate-free and insertion-ordered.
pub open spec fn authorize_spec(s: Seq<Seq<u8>>, k: Seq<u8>) -> Seq<Seq<u8>> {
    if s.contains(k) {
        s
    } else {
        s.push(k)
    }
}

/// Whether `k` is on the allow-list `s`.
pub open spec fn authorized_spec(s: Seq<Seq<u8>>, k: Seq<u8>) -> bool {
    s.contains(k)
}

/// The allow-list of signature public keys. Membership is set semantics;
/// the insertion order is kept for deterministic iteration.
pub struct AuthorizedKeySet {
    keys: Vec<Vec<u8>>,
}

impl View for AuthorizedKeySet {
    type V = Seq<Seq<u8>>;

    closed spec fn view(&self) -> Seq<Seq<u8>> {
        self.keys@.map_values(|k: Vec<u8>| k@)
    }
}

impl AuthorizedKeySet {
    /// An empty allow-list.
    pub fn new() -> (s: AuthorizedKeySet)
        ensures
            s@ == Seq::<Seq<u8>>::empty(),
    {
        let s = AuthorizedKeySet { keys: Vec::new() };
        proof {
            assert(s@ =~= Seq::<Seq<u8>>::empty());
        }
        s
    }

    /// Whether `public_key` was authorized before this call.
    pub fn is_authorized(&self, public_key: &Vec<u8>) -> (r: bool)
        ensures
            r == authorized_spec(self@, public_key@),
    {
        let n = self.keys.len();
        let mut i: usize = 0;
        while i < n
            invariant
                i <= n,
                n == self.keys@.len(),
                forall|j: int| 0 <= j < i ==> self@[j] != public_key@,
            decreases n - i,
        {
            if bytes_eq(&self.keys[i], public_key) {
                proof {
                    assert(self@[i as int] == public_key@);
                }
                return true;
            }
            i = i + 1;
        }
        proof {
            assert(forall|j: int| 0 <= j < self@.len() ==> self@[j] != public_key@);
        }
        false
    }

    /// Adds `public_key` to the allow-list; keys already present are not
    /// duplicated.
    pub fn authorize(&mut self, public_key: Vec<u8>)
        ensures
            final(self)@ == authorize_spec(old(self)@, public_key@),
    {
        if !self.is_authorized(&public_key) {
            self.keys.push(public_key);
            proof {
                assert(self@ =~= old(self)@.push(public_key@));
            }
        }
    }

    /// How many keys are authorized.
    pub fn len(&self) -> (n: usize)
        ensures
            n == self@.len(),
    {
        self.keys.len()
    }
}

/// Reads the signature public key out of a key package's credential. The
/// key is always present on a well-typed package, so there is nothing to
/// fail.
pub fn extract_identity(key_package: &KeyPackage) -> (r: Vec<u8>)
    ensures
        r@ == key_package@.credential.signature_public_key,
{
    copy_bytes(&key_package.credential.signature_public_key)
}

} // verus!
