//! The in-memory key-value store holding credential and key-package
//! bundles. Keys are byte strings; a later write under the same key
//! overwrites the earlier one.

use vstd::prelude::*;
use crate::codec::bytes_eq;
use crate::credential::CredentialBundle;
use crate::credential::CredentialBundleView;
use crate::key_package::KeyPackageBundle;
use crate::key_package::KeyPackageBundleView;

verus! {

/// Errors of the key-value store. The in-memory store never fails; the
/// variant is the shape a fallible durable store would report.
#[derive(Clone, Copy, Debug, PartialEq, Eq, Structural)]
pub enum StoreError {
    Unavailable,
}

/// Mathematical model of a stored value.
#[verifier::ext_equal]
pub ghost enum StoredValueView {
    Credential(CredentialBundleView),
    KeyPackage(KeyPackageBundleView),
}

/// A value the store can hold: a credential bundle or a key-package bundle.
pub enum StoredValue {
    Credential(CredentialBundle),
    KeyPackage(KeyPackageBundle),
}

impl View for StoredValue {
    type V = StoredValueView;

    open spec fn view(&self) -> StoredValueView {
        match self {
            StoredValue::Credential(b) => StoredValueView::Credential(b@),
            StoredValue::KeyPackage(b) => StoredValueView::KeyPackage(b@),
        }
    }
}

/// The map described by a sequence of writes, later writes shadowing
/// earlier ones under the same key.
pub closed spec fn writes_map(entries: Seq<(Seq<u8>, StoredValueView)>) -> Map<
    Seq<u8>,
    StoredValueView,
>
    decreases entries.len(),
{
    if entries.len() == 0 {
        Map::empty()
    } else {
        writes_map(entries.drop_last()).insert(entries.last().0, entries.last().1)
    }
}

proof fn lemma_writes_map_skip(entries: Seq<(Seq<u8>, StoredValueView)>, k: Seq<u8>, i: int)
    requires
        0 <= i <= entries.len(),
        forall|j: int| i <= j < entries.len() ==> entries[j].0 != k,
    ensures
        writes_map(entries).contains_key(k) == writes_map(entries.take(i)).contains_key(k),
        writes_map(entries).contains_key(k) ==> writes_map(entries)[k] == writes_map(
            entries.take(i),
        )[k],
    decreases entries.len() - i,
{
    if i == entries.len() {
        assert(entries.take(i) =~= entries);
    } else {
        assert(entries.take(entries.len() as int) =~= entries);
        lemma_writes_map_skip(entries.drop_last(), k, i);
        assert(entries.drop_last().take(i) =~= entries.take(i));
    }
}

/// The key-value store. One instance per party; each party's credential
/// and key-package bundles live in its own store.
pub struct KeyStore {
    entries: Vec<(Vec<u8>, StoredValue)>,
}

impl View for KeyStore {
    type V = Map<Seq<u8>, StoredValueView>;

    closed spec fn view(&self) -> Map<Seq<u8>, StoredValueView> {
        writes_map(self.entries@.map_values(|p: (Vec<u8>, StoredValue)| (p.0@, p.1@)))
    }
}

impl KeyStore {
    /// An empty store.
    pub fn new() -> (s: KeyStore)
        ensures
            s@ == Map::<Seq<u8>, StoredValueView>::empty(),
    {
        let s = KeyStore { entries: Vec::new() };
        proof {
            assert(s.entries@.map_values(|p: (Vec<u8>, StoredValue)| (p.0@, p.1@))
                =~= Seq::<(Seq<u8>, StoredValueView)>::empty());
        }
        s
    }

    /// Writes `value` under `key`, overwriting any earlier value there.
    pub fn store(&mut self, key: Vec<u8>, value: StoredValue) -> (r: Result<(), StoreError>)
        ensures
            r is Ok,
            final(self)@ == old(self)@.insert(key@, value@),
    {
        let ghost old_views = self.entries@.map_values(
            |p: (Vec<u8>, StoredValue)| (p.0@, p.1@),
        );
        let ghost kv = (key@, value@);
        self.entries.push((key, value));
        proof {
            let views = self.entries@.map_values(|p: (Vec<u8>, StoredValue)| (p.0@, p.1@));
            assert(views =~= old_views.push(kv));
            assert(old_views.push(kv).drop_last() =~= old_views);
        }
        Ok(())
    }

    /// Reads the value last written under `key`, if any.
    pub fn read(&self, key: &Vec<u8>) -> (r: Option<&StoredValue>)
        ensures
            match r {
                Some(v) => self@.contains_key(key@) && v@ == self@[key@],
                None => !self@.contains_key(key@),
            },
    {
        let ghost views = self.entries@.map_values(|p: (Vec<u8>, StoredValue)| (p.0@, p.1@));
        let mut i: usize = self.entries.len();
        while i > 0
            invariant
                i <= self.entries@.len(),
                views == self.entries@.map_values(|p: (Vec<u8>, StoredValue)| (p.0@, p.1@)),
                forall|j: int| i <= j < views.len() ==> views[j].0 != key@,
            decreases i,
        {
            i = i - 1;
            if bytes_eq(&self.entries[i].0, key) {
                proof {
                    lemma_writes_map_skip(views, key@, i + 1);
                    assert(views.take(i + 1).drop_last() =~= views.take(i as int));
                    assert(views.take(i + 1).last() == views[i as int]);
                }
                return Some(&self.entries[i].1);
            }
        }
        proof {
            lemma_writes_map_skip(views, key@, 0);
            assert(views.take(0) =~= Seq::<(Seq<u8>, StoredValueView)>::empty());
        }
        None
    }
}

} // verus!
