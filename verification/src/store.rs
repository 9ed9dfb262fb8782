//! The repository that the registry reads and writes: two keyspaces, one of
//! certificates and one of verification histories, each keyed by a
//! certificate's identifier.
use vstd::prelude::*;
use crate::types::{found_view, results_view, Certificate, CertificateView, VerificationResult,
    VerificationResultView};

verus! {

/// One key with what is stored under it.
struct Entry<V> {
    key: String,
    value: V,
}

/// Whether the entry at `at` has the key `key`.
spec fn holds_at<V>(entries: Seq<Entry<V>>, key: Seq<char>, at: int) -> bool {
    0 <= at < entries.len() && entries[at].key@ == key
}

/// No key occurs twice.
spec fn keys_distinct<V>(entries: Seq<Entry<V>>) -> bool {
    forall|i: int, j: int|
        0 <= i < entries.len() && 0 <= j < entries.len() && i != j ==> entries[i].key@
            != entries[j].key@
}

/// The entries as a map from their keys to their values.
spec fn as_map<V>(entries: Seq<Entry<V>>) -> Map<Seq<char>, V> {
    Map::new(
        |key: Seq<char>| exists|at: int| holds_at(entries, key, at),
        |key: Seq<char>| entries[choose|at: int| holds_at(entries, key, at)].value,
    )
}

/// Among distinct keys, the entry found under a key is the one that the map
/// gives for it.
proof fn lemma_lookup<V>(entries: Seq<Entry<V>>, key: Seq<char>, at: int)
    requires
        keys_distinct(entries),
        holds_at(entries, key, at),
    ensures
        as_map(entries).contains_key(key),
        as_map(entries)[key] == entries[at].value,
{
    let chosen = choose|at: int| holds_at(entries, key, at);
    assert(chosen == at);
}

/// Replacing the entry of a key by another of the same key updates the map at
/// that key.
proof fn lemma_replace<V>(entries: Seq<Entry<V>>, at: int, entry: Entry<V>)
    requires
        keys_distinct(entries),
        holds_at(entries, entry.key@, at),
    ensures
        keys_distinct(entries.update(at, entry)),
        as_map(entries.update(at, entry)) == as_map(entries).insert(entry.key@, entry.value),
{
    let after = entries.update(at, entry);
    assert(forall|k: Seq<char>, i: int| holds_at(after, k, i) <==> holds_at(entries, k, i));
    assert forall|k: Seq<char>| #[trigger] as_map(after).contains_key(k) implies as_map(after)[k]
        == as_map(entries).insert(entry.key@, entry.value)[k] by {
        let i = choose|i: int| holds_at(after, k, i);
        lemma_lookup(after, k, i);
        lemma_lookup(entries, k, i);
    }
    assert(as_map(after) =~= as_map(entries).insert(entry.key@, entry.value));
}

/// Appending an entry under a key that is not in use adds the key to the map.
proof fn lemma_append<V>(entries: Seq<Entry<V>>, entry: Entry<V>)
    requires
        keys_distinct(entries),
        forall|at: int| !holds_at(entries, entry.key@, at),
    ensures
        keys_distinct(entries.push(entry)),
        as_map(entries.push(entry)) == as_map(entries).insert(entry.key@, entry.value),
{
    let after = entries.push(entry);
    assert forall|i: int, j: int|
        0 <= i < after.len() && 0 <= j < after.len() && i != j implies after[i].key@
        != after[j].key@ by {
        if i < entries.len() {
            assert(!holds_at(entries, entry.key@, i));
        }
        if j < entries.len() {
            assert(!holds_at(entries, entry.key@, j));
        }
    }
    assert(holds_at(after, entry.key@, entries.len() as int));
    assert(forall|k: Seq<char>, i: int| holds_at(entries, k, i) ==> holds_at(after, k, i));
    assert forall|k: Seq<char>| #[trigger] as_map(after).contains_key(k) implies (k == entry.key@
        || as_map(entries).contains_key(k)) && as_map(after)[k] == as_map(entries).insert(
        entry.key@,
        entry.value,
    )[k] by {
        let i = choose|i: int| holds_at(after, k, i);
        lemma_lookup(after, k, i);
        if i < entries.len() {
            assert(holds_at(entries, k, i));
            lemma_lookup(entries, k, i);
        }
    }
    assert(as_map(after) =~= as_map(entries).insert(entry.key@, entry.value));
}

/// A table from texts to values in which no key occurs twice.
struct Table<V> {
    entries: Vec<Entry<V>>,
}

impl<V> Table<V> {
    #[verifier::type_invariant]
    spec fn well_formed(self) -> bool {
        keys_distinct(self.entries@)
    }

    /// The table as a map.
    closed spec fn view(self) -> Map<Seq<char>, V> {
        as_map(self.entries@)
    }

    fn new() -> (table: Self)
        ensures
            table@ == Map::<Seq<char>, V>::empty(),
    {
        let table = Table { entries: Vec::new() };
        assert(table@ =~= Map::<Seq<char>, V>::empty());
        table
    }

    /// Where the entry with the key `key` is, if there is one.
    fn position(&self, key: &String) -> (found: Option<usize>)
        ensures
            found matches Some(at) ==> holds_at(self.entries@, key@, at as int),
            found is None ==> forall|at: int| !holds_at(self.entries@, key@, at),
    {
        let mut at: usize = 0;
        while at < self.entries.len()
            invariant
                at <= self.entries@.len(),
                forall|before: int| 0 <= before < at ==> !holds_at(self.entries@, key@, before),
            decreases self.entries@.len() - at,
        {
            if self.entries[at].key == *key {
                return Some(at);
            }
            at = at + 1;
        }
        None
    }

    fn get(&self, key: &String) -> (value: Option<&V>)
        ensures
            value is Some <==> self@.contains_key(key@),
            value matches Some(v) ==> *v == self@[key@],
    {
        proof {
            use_type_invariant(self);
        }
        match self.position(key) {
            Some(at) => {
                proof {
                    lemma_lookup(self.entries@, key@, at as int);
                }
                Some(&self.entries[at].value)
            },
            None => None,
        }
    }

    fn insert(&mut self, key: String, value: V)
        ensures
            final(self)@ == old(self)@.insert(key@, value),
    {
        proof {
            use_type_invariant(&*self);
        }
        let found = self.position(&key);
        let mut entries: Vec<Entry<V>> = Vec::new();
        std::mem::swap(&mut entries, &mut self.entries);
        let entry = Entry { key, value };
        match found {
            Some(at) => {
                proof {
                    lemma_replace(entries@, at as int, entry);
                }
                entries.set(at, entry);
            },
            None => {
                proof {
                    lemma_append(entries@, entry);
                }
                entries.push(entry);
            },
        }
        self.entries = entries;
    }
}

/// What a [`Store`] holds: the certificate and the verification history
/// under each identifier that has one.
pub struct StoreView {
    pub certificates: Map<Seq<char>, CertificateView>,
    pub histories: Map<Seq<char>, Seq<VerificationResultView>>,
}

impl StoreView {
    /// The store that holds nothing.
    pub open spec fn empty() -> StoreView {
        StoreView { certificates: Map::empty(), histories: Map::empty() }
    }

    /// The certificate stored under `id`, if there is one.
    pub open spec fn certificate(self, id: Seq<char>) -> Option<CertificateView> {
        if self.certificates.contains_key(id) {
            Some(self.certificates[id])
        } else {
            None
        }
    }

    /// The verifications recorded under `id`, oldest first; none where no
    /// history is stored.
    pub open spec fn history(self, id: Seq<char>) -> Seq<VerificationResultView> {
        if self.histories.contains_key(id) {
            self.histories[id]
        } else {
            Seq::empty()
        }
    }

    /// The store after `certificate` has been written under its identifier.
    pub open spec fn with_certificate(self, certificate: CertificateView) -> StoreView {
        StoreView {
            certificates: self.certificates.insert(certificate.id, certificate),
            histories: self.histories,
        }
    }

    /// The store after `history` has been written under `id`.
    pub open spec fn with_history(self, id: Seq<char>, history: Seq<VerificationResultView>)
        -> StoreView {
        StoreView { certificates: self.certificates, histories: self.histories.insert(id, history) }
    }

    /// What holds of every store that only the registry has written to: each
    /// certificate is stored under its own identifier and is well formed, and
    /// a history exists only where a certificate does.
    pub open spec fn consistent(self) -> bool {
        &&& forall|id: Seq<char>| #[trigger]
            self.certificates.contains_key(id) ==> self.certificates[id].id == id
                && self.certificates[id].well_formed()
        &&& forall|id: Seq<char>| #[trigger]
            self.histories.contains_key(id) ==> self.certificates.contains_key(id)
    }
}

/// A key-value repository held in memory.
pub struct Store {
    certificates: Table<Certificate>,
    histories: Table<Vec<VerificationResult>>,
}

impl View for Store {
    type V = StoreView;

    closed spec fn view(&self) -> StoreView {
        StoreView {
            certificates: self.certificates@.map_values(|certificate: Certificate| certificate@),
            histories: self.histories@.map_values(
                |history: Vec<VerificationResult>| results_view(history@),
            ),
        }
    }
}

impl Store {
    /// Every certificate is stored under its own identifier.
    #[verifier::type_invariant]
    spec fn keyed_by_id(self) -> bool {
        forall|id: Seq<char>| #[trigger]
            self.certificates@.contains_key(id) ==> self.certificates@[id].id@ == id
    }

    /// A store that holds nothing.
    pub fn new() -> (store: Self)
        ensures
            store@ == StoreView::empty(),
            store@.consistent(),
    {
        let store = Store { certificates: Table::new(), histories: Table::new() };
        assert(store@.certificates =~= Map::empty());
        assert(store@.histories =~= Map::empty());
        store
    }

    /// The certificate stored under `id`, if there is one.
    pub fn get_certificate(&self, id: &String) -> (found: Option<&Certificate>)
        ensures
            found_view(found) == self@.certificate(id@),
            found matches Some(certificate) ==> certificate.id@ == id@,
    {
        proof {
            use_type_invariant(self);
        }
        self.certificates.get(id)
    }

    /// Writes `certificate` under its identifier, in place of what was there.
    pub fn put_certificate(&mut self, certificate: Certificate)
        ensures
            final(self)@ == old(self)@.with_certificate(certificate@),
    {
        proof {
            use_type_invariant(&*self);
        }
        let mut certificates: Table<Certificate> = Table::new();
        std::mem::swap(&mut certificates, &mut self.certificates);
        certificates.insert(certificate.id.clone(), certificate);
        self.certificates = certificates;
        assert(self@.certificates =~= old(self)@.certificates.insert(
            certificate.id@,
            certificate@,
        ));
    }

    /// The verification history stored under `id`, if there is one.
    pub fn get_history(&self, id: &String) -> (found: Option<&Vec<VerificationResult>>)
        ensures
            found is Some <==> self@.histories.contains_key(id@),
            found matches Some(history) ==> results_view(history@) == self@.histories[id@],
    {
        self.histories.get(id)
    }

    /// Writes `history` under `id`, in place of what was there.
    pub fn put_history(&mut self, id: String, history: Vec<VerificationResult>)
        ensures
            final(self)@ == old(self)@.with_history(id@, results_view(history@)),
    {
        proof {
            use_type_invariant(&*self);
        }
        let mut histories: Table<Vec<VerificationResult>> = Table::new();
        std::mem::swap(&mut histories, &mut self.histories);
        histories.insert(id, history);
        self.histories = histories;
        assert(self@.histories =~= old(self)@.histories.insert(id@, results_view(history@)));
    }
}

} // verus!
