//! The group-session controller: per-party group state, membership-change
//! proposals and commits, and admission of joiners from a welcome artifact.
//!
//! Authorization is evaluated strictly before a key package enters the
//! add-member path: vet, then propose, then commit, then merge.

use vstd::prelude::*;
use crate::authorization::AuthorizedKeySet;
use crate::authorization::authorized_spec;
use crate::codec::bytes_eq;
use crate::codec::copy_bytes;
use crate::codec::u64_be_spec;
use crate::codec::push_u64_be;
use crate::crypto::CryptoProvider;
use crate::crypto::digest_of;
use crate::key_package::CipherSuite;
use crate::key_package::KeyPackage;
use crate::key_package::KeyPackageView;
use crate::key_package::key_package_id;
use crate::key_package::kp_encode;
use crate::key_package::kp_encode_spec;
use crate::key_package::kp_id_spec;
use crate::key_package::kps_views;
use crate::store::StoredValue;
use crate::store::StoredValueView;

verus! {

/// Errors of the group-session controller.
#[derive(Clone, Copy, Debug, PartialEq, Eq, Structural)]
pub enum GroupError {
    /// The creator's key package hash could not be computed.
    InvalidKeyPackage,
    /// A proposed member's signer is not on the allow-list.
    Unauthorized,
    /// An add proposal named no key packages.
    EmptyProposal,
    /// A proposed member's credential identity is already a member.
    DuplicateMember,
    /// A merge was requested with no commit in flight.
    NoPendingCommit,
    /// The welcome is not addressed to any init secret in the joiner's
    /// store.
    MalformedWelcome,
    /// The external tree does not hash to the value in the welcome.
    TreeMismatch,
}

/// Per-group configuration: the negotiated cipher suite.
pub struct GroupConfig {
    pub ciphersuite: CipherSuite,
}

impl Default for GroupConfig {
    /// The default configuration uses the one supported suite.
    fn default() -> (c: GroupConfig)
        ensures
            c.ciphersuite == CipherSuite::Mls128DhkemX25519Aes128GcmSha256Ed25519,
    {
        GroupConfig { ciphersuite: CipherSuite::Mls128DhkemX25519Aes128GcmSha256Ed25519 }
    }
}

/// Mathematical model of an in-flight commit.
#[verifier::ext_equal]
pub ghost struct CommitView {
    pub added: Seq<KeyPackageView>,
}

/// An accepted add-member proposal, not yet merged into the proposer's
/// own group state.
pub struct Commit {
    pub added: Vec<KeyPackage>,
}

impl View for Commit {
    type V = CommitView;

    open spec fn view(&self) -> CommitView {
        CommitView { added: kps_views(self.added@) }
    }
}

/// Mathematical model of a party's local group replica.
#[verifier::ext_equal]
pub ghost struct GroupView {
    pub group_id: Seq<u8>,
    pub members: Seq<KeyPackageView>,
    pub epoch: nat,
    pub pending_commit: Option<CommitView>,
}

/// One party's local replica of a group: the ordered member list (tree
/// position matters), the epoch, and at most one in-flight commit.
pub struct Group {
    pub group_id: Vec<u8>,
    pub members: Vec<KeyPackage>,
    pub epoch: u64,
    pub pending_commit: Option<Commit>,
}

impl View for Group {
    type V = GroupView;

    open spec fn view(&self) -> GroupView {
        GroupView {
            group_id: self.group_id@,
            members: kps_views(self.members@),
            epoch: self.epoch as nat,
            pending_commit: match self.pending_commit {
                Some(c) => Some(c@),
                None => None,
            },
        }
    }
}

/// Canonical encoding of a member list, the input of the tree hash.
pub open spec fn members_enc_spec(ms: Seq<KeyPackageView>) -> Seq<u8>
    decreases ms.len(),
{
    if ms.len() == 0 {
        Seq::empty()
    } else {
        members_enc_spec(ms.drop_last()) + kp_encode_spec(ms.last())
    }
}

/// Canonical encoding of a tree: the counted member encodings.
pub open spec fn tree_encode_spec(ms: Seq<KeyPackageView>) -> Seq<u8> {
    u64_be_spec(ms.len() as u64) + members_enc_spec(ms)
}

/// Serializes a member list into the canonical tree encoding.
pub fn tree_encode(members: &Vec<KeyPackage>) -> (r: Vec<u8>)
    ensures
        r@ == tree_encode_spec(kps_views(members@)),
{
    let mut out: Vec<u8> = Vec::new();
    push_u64_be(&mut out, members.len() as u64);
    let ghost prefix = out@;
    let ghost views = kps_views(members@);
    let mut i: usize = 0;
    while i < members.len()
        invariant
            i <= members@.len(),
            views == kps_views(members@),
            out@ == prefix + members_enc_spec(views.take(i as int)),
        decreases members@.len() - i,
    {
        let mut enc = kp_encode(&members[i]);
        out.append(&mut enc);
        i = i + 1;
        proof {
            assert(views.take(i as int).drop_last() =~= views.take(i - 1));
            assert(out@ =~= prefix + members_enc_spec(views.take(i as int)));
        }
    }
    proof {
        assert(views.take(members@.len() as int) =~= views);
        assert(out@ =~= tree_encode_spec(views));
    }
    out
}

/// Whether some member of `members` already carries credential identity
/// `ident`.
pub open spec fn identity_present(members: Seq<KeyPackageView>, ident: Seq<u8>) -> bool {
    exists|i: int| 0 <= i < members.len() && members[i].credential.identity == ident
}

/// Whether some proposed package's identity already appears in `members`.
pub open spec fn duplicate_proposed(
    members: Seq<KeyPackageView>,
    new: Seq<KeyPackageView>,
) -> bool {
    exists|i: int| 0 <= i < new.len() && identity_present(members, new[i].credential.identity)
}

/// Whether some proposed package's signer is not on the allow-list.
pub open spec fn any_unauthorized(set: Seq<Seq<u8>>, new: Seq<KeyPackageView>) -> bool {
    exists|i: int|
        0 <= i < new.len() && !authorized_spec(set, new[i].credential.signature_public_key)
}

fn member_identity_present(members: &Vec<KeyPackage>, ident: &Vec<u8>) -> (r: bool)
    ensures
        r == identity_present(kps_views(members@), ident@),
{
    let n = members.len();
    let mut i: usize = 0;
    while i < n
        invariant
            i <= n,
            n == members@.len(),
            forall|j: int| 0 <= j < i ==> kps_views(members@)[j].credential.identity != ident@,
        decreases n - i,
    {
        if bytes_eq(&members[i].credential.identity, ident) {
            proof {
                assert(kps_views(members@)[i as int].credential.identity == ident@);
            }
            return true;
        }
        i = i + 1;
    }
    false
}

fn all_authorized(authorized: &AuthorizedKeySet, new: &Vec<KeyPackage>) -> (r: bool)
    ensures
        r == !any_unauthorized(authorized@, kps_views(new@)),
{
    let n = new.len();
    let mut i: usize = 0;
    while i < n
        invariant
            i <= n,
            n == new@.len(),
            forall|j: int|
                0 <= j < i ==> authorized_spec(
                    authorized@,
                    kps_views(new@)[j].credential.signature_public_key,
                ),
        decreases n - i,
    {
        if !authorized.is_authorized(&new[i].credential.signature_public_key) {
            proof {
                assert(!authorized_spec(
                    authorized@,
                    kps_views(new@)[i as int].credential.signature_public_key,
                ));
            }
            return false;
        }
        i = i + 1;
    }
    true
}

fn any_duplicate(members: &Vec<KeyPackage>, new: &Vec<KeyPackage>) -> (r: bool)
    ensures
        r == duplicate_proposed(kps_views(members@), kps_views(new@)),
{
    let n = new.len();
    let mut i: usize = 0;
    while i < n
        invariant
            i <= n,
            n == new@.len(),
            forall|j: int|
                0 <= j < i ==> !identity_present(
                    kps_views(members@),
                    kps_views(new@)[j].credential.identity,
                ),
        decreases n - i,
    {
        if member_identity_present(members, &new[i].credential.identity) {
            proof {
                assert(identity_present(
                    kps_views(members@),
                    kps_views(new@)[i as int].credential.identity,
                ));
            }
            return true;
        }
        i = i + 1;
    }
    false
}

/// What a successful proposal leaves behind: state unchanged except the
/// commit now in flight.
pub open spec fn proposal_applied(
    g0: GroupView,
    new: Seq<KeyPackageView>,
    g1: GroupView,
) -> bool {
    &&& g1.group_id == g0.group_id
    &&& g1.members == g0.members
    &&& g1.epoch == g0.epoch
    &&& g1.pending_commit == Some(CommitView { added: new })
}

/// What the welcome of a successful proposal holds: the proposer's group
/// id, the epoch the merge will reach, the hash of the post-merge tree,
/// and the content hashes of the added packages.
pub open spec fn proposed_welcome(
    g: GroupView,
    new: Seq<KeyPackageView>,
    w: WelcomeView,
) -> bool {
    &&& w.group_id == g.group_id
    &&& w.epoch_after == g.epoch + 1
    &&& w.tree_hash == digest_of(tree_encode_spec(g.members + new))
    &&& w.recipient_ids == new.map_values(|kp: KeyPackageView| kp_id_spec(kp))
}

/// What the handshake message of a successful proposal holds.
pub open spec fn proposed_handshake(
    g: GroupView,
    new: Seq<KeyPackageView>,
    h: HandshakeMessageView,
) -> bool {
    &&& h.group_id == g.group_id
    &&& h.epoch == g.epoch
    &&& h.added_ids == new.map_values(|kp: KeyPackageView| kp_id_spec(kp))
}

/// Whether the joiner's store holds an init secret for one of the
/// welcome's recipients: the condition under which the welcome can be
/// opened at all.
pub open spec fn welcome_addressed_to(
    s: Map<Seq<u8>, StoredValueView>,
    w: WelcomeView,
) -> bool {
    exists|i: int|
        0 <= i < w.recipient_ids.len() && s.contains_key(w.recipient_ids[i])
            && s[w.recipient_ids[i]] is KeyPackage
}

/// Whether the externally transferred tree hashes to the root embedded in
/// the welcome.
pub open spec fn tree_matches_welcome(w: WelcomeView, tree: Seq<KeyPackageView>) -> bool {
    digest_of(tree_encode_spec(tree)) == w.tree_hash
}

/// The group a joiner materializes from a welcome and its tree.
pub open spec fn joined_group(w: WelcomeView, tree: Seq<KeyPackageView>) -> GroupView {
    GroupView { group_id: w.group_id, members: tree, epoch: w.epoch_after, pending_commit: None }
}

/// Mathematical model of a welcome artifact.
#[verifier::ext_equal]
pub ghost struct WelcomeView {
    pub group_id: Seq<u8>,
    pub epoch_after: nat,
    pub tree_hash: Seq<u8>,
    pub recipient_ids: Seq<Seq<u8>>,
}

/// The artifact a commit produces for the newly added members: consumed,
/// together with the out-of-band tree, to materialize a local group at the
/// committer's post-merge state.
pub struct Welcome {
    pub group_id: Vec<u8>,
    pub epoch_after: u64,
    pub tree_hash: Vec<u8>,
    pub recipient_ids: Vec<Vec<u8>>,
}

impl View for Welcome {
    type V = WelcomeView;

    open spec fn view(&self) -> WelcomeView {
        WelcomeView {
            group_id: self.group_id@,
            epoch_after: self.epoch_after as nat,
            tree_hash: self.tree_hash@,
            recipient_ids: self.recipient_ids@.map_values(|r: Vec<u8>| r@),
        }
    }
}

/// Mathematical model of a handshake message.
#[verifier::ext_equal]
pub ghost struct HandshakeMessageView {
    pub group_id: Seq<u8>,
    pub epoch: nat,
    pub added_ids: Seq<Seq<u8>>,
}

/// The artifact a commit produces for the existing members, sent out of
/// band; opaque to them until merged.
pub struct HandshakeMessage {
    pub group_id: Vec<u8>,
    pub epoch: u64,
    pub added_ids: Vec<Vec<u8>>,
}

impl View for HandshakeMessage {
    type V = HandshakeMessageView;

    open spec fn view(&self) -> HandshakeMessageView {
        HandshakeMessageView {
            group_id: self.group_id@,
            epoch: self.epoch as nat,
            added_ids: self.added_ids@.map_values(|r: Vec<u8>| r@),
        }
    }
}

impl Group {
    /// Well-formedness: an in-flight commit always has room to advance the
    /// epoch.
    pub open spec fn wf(&self) -> bool {
        self@.pending_commit is Some ==> self@.epoch < u64::MAX
    }

    /// Creates a group at epoch zero whose only member is the creator.
    /// The creator's key package hash is computed as validation; the
    /// provider's hash never fails, so creation always succeeds.
    pub fn create(
        group_id: Vec<u8>,
        creator_key_package: KeyPackage,
        crypto: &CryptoProvider,
        config: &GroupConfig,
    ) -> (r: Result<Group, GroupError>)
        requires
            group_id@.len() > 0,
        ensures
            r is Ok,
            r matches Ok(g) ==> {
                &&& g@.group_id == group_id@
                &&& g@.members == seq![creator_key_package@]
                &&& g@.epoch == 0
                &&& g@.pending_commit is None
                &&& g.wf()
            },
    {
        let _ = key_package_id(&creator_key_package, crypto);
        let mut members: Vec<KeyPackage> = Vec::new();
        members.push(creator_key_package);
        let g = Group { group_id, members, epoch: 0, pending_commit: None };
        proof {
            assert(g@.members =~= seq![creator_key_package@]);
        }
        Ok(g)
    }

    /// Proposes adding the given key packages. Callers MUST have vetted
    /// every package against the authorization gate first; `add_authorized_members`
    /// performs that check. On success the commit is left in flight and
    /// the returned welcome is scoped to the added members.
    pub fn propose_add_members(
        &mut self,
        new_key_packages: Vec<KeyPackage>,
        crypto: &CryptoProvider,
    ) -> (r: Result<(HandshakeMessage, Welcome), GroupError>)
        requires
            old(self).wf(),
            old(self)@.epoch < u64::MAX,
            old(self)@.pending_commit is None,
        ensures
            final(self).wf(),
            r matches Err(e) ==> final(self)@ == old(self)@ && (e == GroupError::EmptyProposal
                || e == GroupError::DuplicateMember),
            (r matches Err(e) && e == GroupError::EmptyProposal) <==> new_key_packages@.len()
                == 0,
            (r matches Err(e) && e == GroupError::DuplicateMember) <==> (new_key_packages@.len()
                > 0 && duplicate_proposed(old(self)@.members, kps_views(new_key_packages@))),
            r matches Ok(p) ==> {
                &&& proposal_applied(old(self)@, kps_views(new_key_packages@), final(self)@)
                &&& proposed_handshake(old(self)@, kps_views(new_key_packages@), p.0@)
                &&& proposed_welcome(old(self)@, kps_views(new_key_packages@), p.1@)
            },
    {
        let ghost new_views = kps_views(new_key_packages@);
        if new_key_packages.len() == 0 {
            return Err(GroupError::EmptyProposal);
        }
        if any_duplicate(&self.members, &new_key_packages) {
            return Err(GroupError::DuplicateMember);
        }
        let n = new_key_packages.len();
        let m = self.members.len();
        let mut tree: Vec<KeyPackage> = Vec::new();
        let mut a: usize = 0;
        while a < m
            invariant
                a <= m,
                m == self.members@.len(),
                tree@.len() == a,
                forall|l: int| 0 <= l < a ==> tree@[l]@ == self.members@[l]@,
            decreases m - a,
        {
            tree.push(self.members[a].duplicate());
            a = a + 1;
        }
        let mut b: usize = 0;
        while b < n
            invariant
                b <= n,
                n == new_key_packages@.len(),
                m == self.members@.len(),
                tree@.len() == m + b,
                forall|l: int| 0 <= l < m ==> tree@[l]@ == self.members@[l]@,
                forall|l: int| 0 <= l < b ==> tree@[m + l]@ == new_key_packages@[l]@,
            decreases n - b,
        {
            tree.push(new_key_packages[b].duplicate());
            b = b + 1;
        }
        proof {
            assert(kps_views(tree@) =~= kps_views(self.members@) + new_views);
        }
        let encoded = tree_encode(&tree);
        let tree_hash = crypto.digest(&encoded);
        let mut recipient_ids: Vec<Vec<u8>> = Vec::new();
        let mut c: usize = 0;
        while c < n
            invariant
                c <= n,
                n == new_key_packages@.len(),
                new_views == kps_views(new_key_packages@),
                recipient_ids@.len() == c,
                forall|j: int|
                    0 <= j < c ==> recipient_ids@[j]@ == kp_id_spec(new_views[j]),
            decreases n - c,
        {
            recipient_ids.push(key_package_id(&new_key_packages[c], crypto));
            c = c + 1;
        }
        let mut added_ids: Vec<Vec<u8>> = Vec::new();
        let mut d: usize = 0;
        while d < n
            invariant
                d <= n,
                n == recipient_ids@.len(),
                added_ids@.len() == d,
                forall|j: int| 0 <= j < d ==> added_ids@[j]@ == recipient_ids@[j]@,
            decreases n - d,
        {
            added_ids.push(copy_bytes(&recipient_ids[d]));
            d = d + 1;
        }
        let handshake = HandshakeMessage {
            group_id: copy_bytes(&self.group_id),
            epoch: self.epoch,
            added_ids,
        };
        let welcome = Welcome {
            group_id: copy_bytes(&self.group_id),
            epoch_after: self.epoch + 1,
            tree_hash,
            recipient_ids,
        };
        self.pending_commit = Some(Commit { added: new_key_packages });
        proof {
            assert(welcome@.recipient_ids =~= new_views.map_values(
                |kp: KeyPackageView| kp_id_spec(kp),
            ));
            assert(handshake@.added_ids =~= new_views.map_values(
                |kp: KeyPackageView| kp_id_spec(kp),
            ));
        }
        Ok((handshake, welcome))
    }

    /// Checks every proposed package against the allow-list, then
    /// proposes. An unvetted signer stops the call before any state
    /// changes: an unauthorized package never reaches the commit stage.
    pub fn add_authorized_members(
        &mut self,
        new_key_packages: Vec<KeyPackage>,
        authorized: &AuthorizedKeySet,
        crypto: &CryptoProvider,
    ) -> (r: Result<(HandshakeMessage, Welcome), GroupError>)
        requires
            old(self).wf(),
            old(self)@.epoch < u64::MAX,
            old(self)@.pending_commit is None,
        ensures
            final(self).wf(),
            r matches Err(e) ==> final(self)@ == old(self)@ && (e == GroupError::Unauthorized
                || e == GroupError::EmptyProposal || e == GroupError::DuplicateMember),
            (r matches Err(e) && e == GroupError::Unauthorized) <==> any_unauthorized(
                authorized@,
                kps_views(new_key_packages@),
            ),
            (r matches Err(e) && e == GroupError::EmptyProposal) <==> (!any_unauthorized(
                authorized@,
                kps_views(new_key_packages@),
            ) && new_key_packages@.len() == 0),
            (r matches Err(e) && e == GroupError::DuplicateMember) <==> (!any_unauthorized(
                authorized@,
                kps_views(new_key_packages@),
            ) && new_key_packages@.len() > 0 && duplicate_proposed(
                old(self)@.members,
                kps_views(new_key_packages@),
            )),
            r matches Ok(p) ==> {
                &&& !any_unauthorized(authorized@, kps_views(new_key_packages@))
                &&& proposal_applied(old(self)@, kps_views(new_key_packages@), final(self)@)
                &&& proposed_handshake(old(self)@, kps_views(new_key_packages@), p.0@)
                &&& proposed_welcome(old(self)@, kps_views(new_key_packages@), p.1@)
            },
    {
        if !all_authorized(authorized, &new_key_packages) {
            return Err(GroupError::Unauthorized);
        }
        self.propose_add_members(new_key_packages, crypto)
    }

    /// Merges the in-flight commit: appends the added members in proposal
    /// order, advances the epoch by exactly one, and clears the commit.
    /// Without a commit in flight this is a programmer error; the group is
    /// left unchanged.
    pub fn merge_pending_commit(&mut self) -> (r: Result<(), GroupError>)
        requires
            old(self).wf(),
        ensures
            final(self).wf(),
            r is Ok <==> old(self)@.pending_commit is Some,
            r matches Err(e) ==> e == GroupError::NoPendingCommit && final(self)@ == old(self)@,
            old(self)@.pending_commit matches Some(c) ==> {
                &&& final(self)@.group_id == old(self)@.group_id
                &&& final(self)@.members == old(self)@.members + c.added
                &&& final(self)@.epoch == old(self)@.epoch + 1
                &&& final(self)@.pending_commit is None
            },
    {
        match &self.pending_commit {
            None => Err(GroupError::NoPendingCommit),
            Some(pc) => {
                let ghost members0 = kps_views(self.members@);
                let ghost added = pc@.added;
                let k = pc.added.len();
                let mut i: usize = 0;
                while i < k
                    invariant
                        i <= k,
                        members0 == kps_views(old(self).members@),
                        old(self)@.pending_commit == Some(CommitView { added: added }),
                        self.epoch == old(self).epoch,
                        self.epoch < u64::MAX,
                        self.group_id == old(self).group_id,
                        self.pending_commit matches Some(c) && c.added@.len() == k
                            && kps_views(c.added@) == added,
                        self.members@.len() == members0.len() + i,
                        forall|l: int|
                            0 <= l < members0.len() ==> kps_views(self.members@)[l]
                                == members0[l],
                        forall|l: int|
                            0 <= l < i ==> kps_views(self.members@)[members0.len() + l]
                                == added[l],
                    decreases k - i,
                {
                    match &self.pending_commit {
                        Some(c) => {
                            self.members.push(c.added[i].duplicate());
                        },
                        None => {
                            proof {
                                assert(false);
                            }
                        },
                    }
                    i = i + 1;
                }
                self.epoch = self.epoch + 1;
                self.pending_commit = None;
                proof {
                    assert(final(self)@.members =~= old(self)@.members
                        + old(self)@.pending_commit->Some_0.added);
                }
                Ok(())
            },
        }
    }

    /// A copy of the current member list, transferred out of band to a
    /// joining party alongside the welcome.
    pub fn export_tree(&self) -> (r: Vec<KeyPackage>)
        ensures
            kps_views(r@) == self@.members,
    {
        let n = self.members.len();
        let mut r: Vec<KeyPackage> = Vec::new();
        let mut i: usize = 0;
        while i < n
            invariant
                i <= n,
                n == self.members@.len(),
                r@.len() == i,
                forall|l: int| 0 <= l < i ==> r@[l]@ == self.members@[l]@,
            decreases n - i,
        {
            r.push(self.members[i].duplicate());
            i = i + 1;
        }
        proof {
            assert(kps_views(r@) =~= self@.members);
        }
        r
    }

    /// Materializes a local group from a welcome and the externally
    /// transferred tree: the joiner must hold an init secret for one of
    /// the welcome's recipients, and the tree must hash to the root the
    /// welcome embeds. The resulting replica stands at the committer's
    /// post-merge epoch with the committer's member list.
    pub fn join_from_welcome(
        welcome: &Welcome,
        external_tree: Vec<KeyPackage>,
        crypto: &CryptoProvider,
        config: &GroupConfig,
    ) -> (r: Result<Group, GroupError>)
        ensures
            r is Ok <==> welcome_addressed_to(crypto@, welcome@) && tree_matches_welcome(
                welcome@,
                kps_views(external_tree@),
            ),
            (r matches Err(e) && e == GroupError::MalformedWelcome) <==> !welcome_addressed_to(
                crypto@,
                welcome@,
            ),
            (r matches Err(e) && e == GroupError::TreeMismatch) <==> (welcome_addressed_to(
                crypto@,
                welcome@,
            ) && !tree_matches_welcome(welcome@, kps_views(external_tree@))),
            r matches Ok(g) ==> g@ == joined_group(welcome@, kps_views(external_tree@))
                && g.wf(),
    {
        let n = welcome.recipient_ids.len();
        let mut found = false;
        let mut i: usize = 0;
        while i < n
            invariant
                i <= n,
                n == welcome@.recipient_ids.len(),
                found ==> welcome_addressed_to(crypto@, welcome@),
                !found ==> forall|j: int|
                    0 <= j < i ==> !(crypto@.contains_key(welcome@.recipient_ids[j])
                        && crypto@[welcome@.recipient_ids[j]] is KeyPackage),
            decreases n - i,
        {
            if !found {
                match crypto.read_value(&welcome.recipient_ids[i]) {
                    Some(v) => match v {
                        StoredValue::KeyPackage(_) => {
                            proof {
                                assert(crypto@.contains_key(welcome@.recipient_ids[i as int])
                                    && crypto@[welcome@.recipient_ids[i as int]] is KeyPackage);
                            }
                            found = true;
                        },
                        StoredValue::Credential(_) => {},
                    },
                    None => {},
                }
            }
            i = i + 1;
        }
        if !found {
            return Err(GroupError::MalformedWelcome);
        }
        let encoded = tree_encode(&external_tree);
        let root = crypto.digest(&encoded);
        if !bytes_eq(&root, &welcome.tree_hash) {
            return Err(GroupError::TreeMismatch);
        }
        let g = Group {
            group_id: copy_bytes(&welcome.group_id),
            members: external_tree,
            epoch: welcome.epoch_after,
            pending_commit: None,
        };
        proof {
            assert(g@ =~= joined_group(welcome@, kps_views(external_tree@)));
        }
        Ok(g)
    }
}

} // verus!
