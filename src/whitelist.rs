//! The whitelist registry: which denominations the ledger admits.

use vstd::prelude::*;

verus! {

/// The policy decision for one denomination. A denomination that was never
/// registered is `Denied`.
#[derive(Clone, Copy, Debug, PartialEq, Eq, Structural)]
pub enum Admission {
    Admitted,
    Denied,
}

/// One stored flag of the registry.
#[derive(Debug)]
struct WhitelistEntry {
    pub denom: String,
    pub admitted: bool,
}

/// True when the registry `m` admits the denomination `d`: an absent entry
/// counts as not admitted.
pub open spec fn admitted_in(m: Map<Seq<char>, bool>, d: Seq<char>) -> bool {
    m.contains_key(d) && m[d]
}

/// A registry from denomination to admission flag, with closed-world default
/// deny. Its view is the map of stored flags.
pub struct Whitelist {
    entries: Vec<WhitelistEntry>,
    model: Ghost<Map<Seq<char>, bool>>,
}

impl View for Whitelist {
    type V = Map<Seq<char>, bool>;

    closed spec fn view(&self) -> Map<Seq<char>, bool> {
        self.model@
    }
}

impl Whitelist {
    /// The stored entries and the map agree, and no denomination is stored twice.
    pub closed spec fn wf(&self) -> bool {
        &&& forall|i: int|
            0 <= i < self.entries@.len() ==> {
                &&& self.model@.contains_key(#[trigger] self.entries@[i].denom@)
                &&& self.model@[self.entries@[i].denom@] == self.entries@[i].admitted
            }
        &&& forall|k: Seq<char>|
            #[trigger] self.model@.contains_key(k) ==> exists|i: int|
                0 <= i < self.entries@.len() && #[trigger] self.entries@[i].denom@ == k
        &&& forall|i: int, j: int|
            0 <= i < self.entries@.len() && 0 <= j < self.entries@.len() && i != j
                ==> #[trigger] self.entries@[i].denom@ != #[trigger] self.entries@[j].denom@
    }

    /// An empty registry: every denomination is denied.
    pub fn new() -> (r: Whitelist)
        ensures
            r.wf(),
            r@ == Map::<Seq<char>, bool>::empty(),
    {
        Whitelist { entries: Vec::new(), model: Ghost(Map::empty()) }
    }

    /// The position of `denom` among the stored entries, if it is stored.
    fn position(&self, denom: &String) -> (r: Option<usize>)
        requires
            self.wf(),
        ensures
            match r {
                Some(i) => i < self.entries@.len() && self.entries@[i as int].denom@ == denom@,
                None => !self@.contains_key(denom@),
            },
    {
        let n = self.entries.len();
        for i in 0..n
            invariant
                n == self.entries@.len(),
                forall|j: int| 0 <= j < i ==> self.entries@[j].denom@ != denom@,
        {
            if self.entries[i].denom == *denom {
                return Some(i);
            }
        }
        None
    }

    /// Stores `admitted` as the flag of `denom`, overwriting any earlier flag.
    pub fn set(&mut self, denom: String, admitted: bool)
        requires
            old(self).wf(),
        ensures
            final(self).wf(),
            final(self)@ == old(self)@.insert(denom@, admitted),
    {
        let ghost key = denom@;
        let ghost mut at: int = 0;
        match self.position(&denom) {
            Some(i) => {
                self.entries.set(i, WhitelistEntry { denom, admitted });
                proof {
                    at = i as int;
                }
            },
            None => {
                self.entries.push(WhitelistEntry { denom, admitted });
                proof {
                    at = self.entries@.len() - 1;
                }
            },
        }
        self.model = Ghost(self.model@.insert(key, admitted));
        proof {
            assert forall|k: Seq<char>| #[trigger] self.model@.contains_key(k) implies exists|i: int|
                0 <= i < self.entries@.len() && #[trigger] self.entries@[i].denom@ == k by {
                if k != key {
                    assert(old(self).model@.contains_key(k));
                    let i = choose|i: int|
                        0 <= i < old(self).entries@.len() && #[trigger] old(self).entries@[i].denom@ == k;
                    assert(self.entries@[i].denom@ == k);
                } else {
                    assert(self.entries@[at].denom@ == key);
                }
            }
        }
    }

    /// Whether `denom` is admitted; `false` when no flag is stored.
    pub fn is_whitelisted(&self, denom: &String) -> (r: bool)
        requires
            self.wf(),
        ensures
            r == admitted_in(self@, denom@),
    {
        match self.position(denom) {
            Some(i) => self.entries[i].admitted,
            None => false,
        }
    }

    /// The policy decision for `denom`: `Denied` when no flag is stored.
    pub fn admission(&self, denom: &String) -> (r: Admission)
        requires
            self.wf(),
        ensures
            r == (if admitted_in(self@, denom@) {
                Admission::Admitted
            } else {
                Admission::Denied
            }),
    {
        if self.is_whitelisted(denom) {
            Admission::Admitted
        } else {
            Admission::Denied
        }
    }
}

} // verus!
