use vstd::prelude::*;
use vstd::string::*;

verus! {

/// One identity and the secret that authenticates it.
pub struct CredentialRecord {
    pub identity: String,
    pub secret: String,
}

/// The identities that the plugin knows, each with its secret. Filled once
/// before any session exists, then only read.
pub struct CredentialStore {
    records: Vec<CredentialRecord>,
}

/// The credentials that an initialized plugin holds.
pub open spec fn seed_credentials() -> Map<Seq<char>, Seq<char>> {
    Map::empty().insert("gstager"@, "temp4Now"@).insert("newton"@, "newtonpw"@).insert(
        "zurbie"@,
        "zurbiepw"@,
    )
}

impl View for CredentialStore {
    type V = Map<Seq<char>, Seq<char>>;

    /// Each stored identity mapped to its secret.
    closed spec fn view(&self) -> Map<Seq<char>, Seq<char>> {
        Map::new(
            |k: Seq<char>| self.holds(k),
            |k: Seq<char>|
                self.records@[choose|i: int|
                    0 <= i < self.records@.len() && #[trigger] self.records@[i].identity@
                        == k].secret@,
        )
    }
}

impl CredentialStore {
    closed spec fn holds(&self, k: Seq<char>) -> bool {
        exists|i: int| 0 <= i < self.records@.len() && #[trigger] self.records@[i].identity@ == k
    }

    /// No identity is stored twice.
    pub closed spec fn wf(&self) -> bool {
        forall|i: int, j: int|
            0 <= i < j < self.records@.len() ==> #[trigger] self.records@[i].identity@
                != #[trigger] self.records@[j].identity@
    }

    proof fn lemma_secret_at(&self, i: int)
        requires
            self.wf(),
            0 <= i < self.records@.len(),
        ensures
            self@.contains_key(self.records@[i].identity@),
            self@[self.records@[i].identity@] == self.records@[i].secret@,
    {
        let k = self.records@[i].identity@;
        assert(self.holds(k));
        let c = choose|c: int| 0 <= c < self.records@.len() && #[trigger] self.records@[c].identity@ == k;
        if c < i {
            assert(self.records@[c].identity@ != self.records@[i].identity@);
        } else if i < c {
            assert(self.records@[i].identity@ != self.records@[c].identity@);
        }
    }

    /// An empty store.
    pub fn new() -> (r: CredentialStore)
        ensures
            r.wf(),
            r@ == Map::<Seq<char>, Seq<char>>::empty(),
    {
        let r = CredentialStore { records: Vec::new() };
        assert(r@ =~= Map::<Seq<char>, Seq<char>>::empty());
        r
    }

    /// Where `identity` is stored, its position.
    fn find(&self, identity: &String) -> (r: Option<usize>)
        requires
            self.wf(),
        ensures
            r is None <==> !self@.contains_key(identity@),
            r matches Some(i) ==> i < self.records@.len() && self.records@[i as int].identity@
                == identity@,
    {
        let mut i: usize = 0;
        while i < self.records.len()
            invariant
                i <= self.records@.len(),
                forall|j: int| 0 <= j < i ==> #[trigger] self.records@[j].identity@ != identity@,
            decreases self.records@.len() - i,
        {
            if self.records[i].identity == *identity {
                return Some(i);
            }
            i = i + 1;
        }
        None
    }

    /// Stores `secret` for `identity`, in place of any secret it had.
    pub fn insert(&mut self, identity: String, secret: String)
        requires
            old(self).wf(),
        ensures
            final(self).wf(),
            final(self)@ == old(self)@.insert(identity@, secret@),
    {
        let ghost k = identity@;
        let ghost v = secret@;
        match self.find(&identity) {
            Some(i) => {
                self.records.set(i, CredentialRecord { identity, secret });
                assert(self.wf()) by {
                    assert forall|a: int, b: int|
                        0 <= a < b < self.records@.len() implies #[trigger] self.records@[a].identity@
                        != #[trigger] self.records@[b].identity@ by {
                        assert(old(self).records@[a].identity@ != old(self).records@[b].identity@);
                    }
                }
                assert forall|q: Seq<char>| #[trigger] self@.contains_key(q) == old(self)@.insert(k, v).contains_key(q) by {
                    if self.holds(q) {
                        let c = choose|c: int| 0 <= c < self.records@.len() && #[trigger] self.records@[c].identity@ == q;
                        assert(old(self).records@[c].identity@ == q);
                    }
                    if old(self).holds(q) {
                        let c = choose|c: int| 0 <= c < old(self).records@.len() && #[trigger] old(self).records@[c].identity@ == q;
                        assert(self.records@[c].identity@ == q);
                    }
                    if q == k {
                        assert(self.records@[i as int].identity@ == q);
                    }
                }
                assert forall|q: Seq<char>| #[trigger] self@.contains_key(q) implies self@[q] == old(self)@.insert(k, v)[q] by {
                    let c = choose|c: int| 0 <= c < self.records@.len() && #[trigger] self.records@[c].identity@ == q;
                    self.lemma_secret_at(c);
                    if c != i {
                        old(self).lemma_secret_at(c);
                    }
                }
                assert(self@ =~= old(self)@.insert(k, v));
            },
            None => {
                self.records.push(CredentialRecord { identity, secret });
                let ghost n = self.records@.len() - 1;
                assert(self.wf()) by {
                    assert forall|a: int, b: int|
                        0 <= a < b < self.records@.len() implies #[trigger] self.records@[a].identity@
                        != #[trigger] self.records@[b].identity@ by {
                        if b < n {
                            assert(old(self).records@[a].identity@ != old(self).records@[b].identity@);
                        } else {
                            assert(old(self).records@[a].identity@ == self.records@[a].identity@);
                            if old(self).records@[a].identity@ == k {
                                assert(old(self).holds(k));
                            }
                        }
                    }
                }
                assert forall|q: Seq<char>| #[trigger] self@.contains_key(q) == old(self)@.insert(k, v).contains_key(q) by {
                    if self.holds(q) {
                        let c = choose|c: int| 0 <= c < self.records@.len() && #[trigger] self.records@[c].identity@ == q;
                        if c < n {
                            assert(old(self).records@[c].identity@ == q);
                        }
                    }
                    if old(self).holds(q) {
                        let c = choose|c: int| 0 <= c < old(self).records@.len() && #[trigger] old(self).records@[c].identity@ == q;
                        assert(self.records@[c].identity@ == q);
                    }
                    if q == k {
                        assert(self.records@[n].identity@ == q);
                    }
                }
                assert forall|q: Seq<char>| #[trigger] self@.contains_key(q) implies self@[q] == old(self)@.insert(k, v)[q] by {
                    let c = choose|c: int| 0 <= c < self.records@.len() && #[trigger] self.records@[c].identity@ == q;
                    self.lemma_secret_at(c);
                    if c != n {
                        old(self).lemma_secret_at(c);
                    }
                }
                assert(self@ =~= old(self)@.insert(k, v));
            },
        }
    }

    /// The store of an initialized plugin.
    pub fn seeded() -> (r: CredentialStore)
        ensures
            r.wf(),
            r@ == seed_credentials(),
    {
        let mut r = CredentialStore::new();
        r.insert(String::from_str("gstager"), String::from_str("temp4Now"));
        r.insert(String::from_str("newton"), String::from_str("newtonpw"));
        r.insert(String::from_str("zurbie"), String::from_str("zurbiepw"));
        r
    }

    /// The secret stored for `identity`, compared as given.
    pub fn lookup(&self, identity: &String) -> (r: Option<&String>)
        requires
            self.wf(),
        ensures
            r is Some <==> self@.contains_key(identity@),
            r matches Some(s) ==> s@ == self@[identity@],
    {
        match self.find(identity) {
            Some(i) => {
                proof {
                    self.lemma_secret_at(i as int);
                }
                Some(&self.records[i].secret)
            },
            None => None,
        }
    }

    /// Whether `identity` is stored, compared as given.
    pub fn contains(&self, identity: &String) -> (r: bool)
        requires
            self.wf(),
        ensures
            r == self@.contains_key(identity@),
    {
        self.find(identity).is_some()
    }
}

} // verus!
