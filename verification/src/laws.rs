//! The laws the components obey jointly: proof functions stating, over the
//! same spec functions the contracts use, how credential issuance gates
//! key-package issuance, how authorization is ordered in time, and how a
//! committer's and a joiner's replicas converge.

use vstd::prelude::*;
use crate::authorization::authorize_spec;
use crate::authorization::authorized_spec;
use crate::credential::CredentialBundleView;
use crate::credential::CredentialView;
use crate::credential::credential_issued;
use crate::credential::storage_key_ok;
use crate::credential::storage_key_spec;
use crate::group::GroupView;
use crate::group::WelcomeView;
use crate::group::joined_group;
use crate::group::proposed_welcome;
use crate::group::tree_matches_welcome;
use crate::group::welcome_addressed_to;
use crate::key_package::KeyPackageView;
use crate::key_package::key_package_stored;
use crate::key_package::kp_id_spec;
use crate::store::StoredValueView;

verus! {

/// Credential issuance gates key-package issuance. The store state that
/// `CredentialManager::create` leaves behind satisfies the lookup
/// `KeyPackageManager::issue` performs for that credential, so issuance
/// succeeds for every credential previously created against the same
/// store; by `issue`'s contract any credential not in the store is refused
/// with `CredentialNotFound`. Creating one credential does not un-issue
/// another kept under a different storage key.
pub proof fn lemma_issuance_gates_key_packages(
    s: Map<Seq<u8>, StoredValueView>,
    c: CredentialView,
    sk: Seq<u8>,
)
    requires
        storage_key_ok(c.signature_public_key),
    ensures
        credential_issued(
            s.insert(
                storage_key_spec(c.signature_public_key),
                StoredValueView::Credential(
                    CredentialBundleView { credential: c, signing_secret: sk },
                ),
            ),
            c,
        ),
        forall|c2: CredentialView|
            #[trigger] credential_issued(s, c2) && storage_key_spec(c2.signature_public_key)
                != storage_key_spec(c.signature_public_key) ==> credential_issued(
                s.insert(
                    storage_key_spec(c.signature_public_key),
                    StoredValueView::Credential(
                        CredentialBundleView { credential: c, signing_secret: sk },
                    ),
                ),
                c2,
            ),
{
}

/// Authorization is order-sensitive: a check consults exactly the keys
/// added before it. A key absent from the list is refused; after
/// `authorize` the same key is accepted; and authorizing a different key
/// leaves this key's outcome unchanged, so authorizing after a check
/// cannot retroactively change what the check returned.
pub proof fn lemma_authorization_is_order_sensitive(s: Seq<Seq<u8>>, k: Seq<u8>, other: Seq<u8>)
    ensures
        !s.contains(k) ==> !authorized_spec(s, k),
        authorized_spec(authorize_spec(s, k), k),
        other != k ==> authorized_spec(authorize_spec(s, other), k) == authorized_spec(s, k),
{
    if !s.contains(k) {
        assert(s.push(k)[s.len() as int] == k);
    }
    if other != k && !s.contains(other) {
        if authorized_spec(s.push(other), k) {
            let i = choose|i: int| 0 <= i < s.push(other).len() && s.push(other)[i] == k;
            assert(i < s.len() && s[i] == k);
        }
        if authorized_spec(s, k) {
            let i = choose|i: int| 0 <= i < s.len() && s[i] == k;
            assert(s.push(other)[i] == k);
        }
    }
}

/// Convergence: a joiner admitted through the welcome of a merged
/// add-member commit stands at the committer's post-merge epoch with the
/// committer's member list, and therefore with the same ordered members by
/// content hash.
pub proof fn lemma_commit_welcome_convergence(
    committer0: GroupView,
    added: Seq<KeyPackageView>,
    w: WelcomeView,
    committer1: GroupView,
    joiner_store: Map<Seq<u8>, StoredValueView>,
    tree: Seq<KeyPackageView>,
    i: int,
)
    requires
        proposed_welcome(committer0, added, w),
        committer1.members == committer0.members + added,
        committer1.epoch == committer0.epoch + 1,
        tree == committer1.members,
        0 <= i < added.len(),
        key_package_stored(joiner_store, added[i]),
    ensures
        welcome_addressed_to(joiner_store, w),
        tree_matches_welcome(w, tree),
        joined_group(w, tree).epoch == committer1.epoch,
        joined_group(w, tree).members == committer1.members,
        joined_group(w, tree).members.map_values(|kp: KeyPackageView| kp_id_spec(kp))
            == committer1.members.map_values(|kp: KeyPackageView| kp_id_spec(kp)),
{
    assert(w.recipient_ids[i] == kp_id_spec(added[i]));
    assert(joiner_store.contains_key(w.recipient_ids[i]) && joiner_store[w.recipient_ids[i]]
        is KeyPackage);
}

} // verus!
